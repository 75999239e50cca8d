//! OTLP log export document and its construction from journal entries.

use vstd::prelude::*;
use crate::journal::{entries_view, pairs_view, EntryModel, JournalEntry};
use crate::text::{
    chars_of, decimal, decimal_text, lower_of, owned, to_lowercase, trim_trailing_slashes,
    without_trailing_slashes,
};

verus! {

/// Severity number and text of the OTLP tier that a journal priority maps to.
pub open spec fn severity_of(priority: Option<u8>) -> (u8, Seq<char>) {
    match priority {
        Some(p) => if p <= 1 {
            (21, "FATAL"@)
        } else if p <= 3 {
            (17, "ERROR"@)
        } else if p == 4 {
            (13, "WARN"@)
        } else if p <= 6 {
            (9, "INFO"@)
        } else if p == 7 {
            (5, "DEBUG"@)
        } else {
            (0, "UNSPECIFIED"@)
        },
        None => (0, "UNSPECIFIED"@),
    }
}

/// Maps a journal PRIORITY (0 emerg .. 7 debug) to an OTLP severity pair.
pub fn map_priority(priority: Option<u8>) -> (r: (u8, &'static str))
    ensures
        r.0 == severity_of(priority).0,
        r.1@ == severity_of(priority).1,
{
    match priority {
        Some(0) | Some(1) => (21, "FATAL"),
        Some(2) | Some(3) => (17, "ERROR"),
        Some(4) => (13, "WARN"),
        Some(5) | Some(6) => (9, "INFO"),
        Some(7) => (5, "DEBUG"),
        _ => (0, "UNSPECIFIED"),
    }
}

/// The instrumentation scope that every export names.
pub const SCOPE_NAME: &'static str = "otel-journal-gatewayd-forwarder";

/// The version reported with the instrumentation scope.
pub const SCOPE_VERSION: &'static str = "0.1.0";

/// An OTLP `ExportLogsServiceRequest`.
#[derive(Debug)]
pub struct ExportLogsServiceRequest {
    pub resource_logs: Vec<ResourceLogs>,
}

/// The records of one resource (one host and service).
#[derive(Debug)]
pub struct ResourceLogs {
    pub resource: Resource,
    pub scope_logs: Vec<ScopeLogs>,
}

#[derive(Debug)]
pub struct Resource {
    pub attributes: Vec<KeyValue>,
}

#[derive(Debug)]
pub struct ScopeLogs {
    pub scope: Scope,
    pub log_records: Vec<LogRecord>,
}

#[derive(Debug)]
pub struct Scope {
    pub name: String,
    pub version: String,
}

/// One exported log line.
#[derive(Debug)]
pub struct LogRecord {
    pub time_unix_nano: String,
    pub observed_time_unix_nano: String,
    pub severity_number: u8,
    pub severity_text: String,
    pub body: AnyValue,
    pub attributes: Vec<KeyValue>,
}

#[derive(Debug)]
pub struct KeyValue {
    pub key: String,
    pub value: AttributeValue,
}

#[derive(Debug)]
pub struct AttributeValue {
    pub string_value: Option<String>,
    pub int_value: Option<String>,
}

#[derive(Debug)]
pub struct AnyValue {
    pub string_value: String,
}

/// Whether an attribute holds a string value and nothing else.
pub open spec fn is_text_attr(kv: KeyValue) -> bool {
    kv.value.string_value is Some && kv.value.int_value is None
}

pub open spec fn all_text(attrs: Seq<KeyValue>) -> bool {
    forall|i: int| 0 <= i < attrs.len() ==> is_text_attr(#[trigger] attrs[i])
}

/// An attribute as a key and a string value.
pub open spec fn attr_view(kv: KeyValue) -> (Seq<char>, Seq<char>) {
    (
        kv.key@,
        match kv.value.string_value {
            Some(s) => s@,
            None => Seq::empty(),
        },
    )
}

pub open spec fn attrs_view(attrs: Seq<KeyValue>) -> Seq<(Seq<char>, Seq<char>)> {
    attrs.map_values(|kv: KeyValue| attr_view(kv))
}

/// An attribute that is present only where the field is.
pub open spec fn optional_attr(key: Seq<char>, value: Option<Seq<char>>) -> Seq<(Seq<char>, Seq<char>)> {
    match value {
        Some(v) => seq![(key, v)],
        None => Seq::empty(),
    }
}

/// A text with every `_` written as `.`.
pub open spec fn dotted(s: Seq<char>) -> Seq<char> {
    s.map_values(|c: char| if c == '_' { '.' } else { c })
}

/// The attribute key of an unrecognized journal field: lower case, dotted.
pub open spec fn attribute_key(name: Seq<char>) -> Seq<char> {
    dotted(lower_of(name))
}

/// The attributes of an entry's record, in order.
pub open spec fn record_attributes(e: EntryModel) -> Seq<(Seq<char>, Seq<char>)> {
    optional_attr("process.pid"@, e.pid) + optional_attr("process.owner"@, e.uid)
        + optional_attr("process.command"@, e.comm) + optional_attr(
        "process.executable.path"@,
        e.exe,
    ) + optional_attr("syslog.identifier"@, e.syslog_identifier) + optional_attr(
        "systemd.boot_id"@,
        e.boot_id,
    ) + seq![("systemd.cursor"@, e.cursor)] + e.extra_fields.map_values(
        |p: (Seq<char>, Seq<char>)| (attribute_key(p.0), p.1),
    )
}

/// The record built from entry `e`, observed at `observed` (ns since the epoch).
pub open spec fn record_matches(r: LogRecord, e: EntryModel, observed: u64) -> bool {
    &&& r.time_unix_nano@ == decimal((e.realtime_timestamp * 1000) as nat)
    &&& r.observed_time_unix_nano@ == decimal(observed as nat)
    &&& r.severity_number == severity_of(e.priority).0
    &&& r.severity_text@ == severity_of(e.priority).1
    &&& r.body.string_value@ == e.message
    &&& all_text(r.attributes@)
    &&& attrs_view(r.attributes@) == record_attributes(e)
}

/// An attribute holding a string value.
fn text_attribute(key: String, value: String) -> (r: KeyValue)
    ensures
        is_text_attr(r),
        attr_view(r) == (key@, value@),
{
    KeyValue { key, value: AttributeValue { string_value: Some(value), int_value: None } }
}

/// Appends a string attribute.
fn push_attr(attrs: &mut Vec<KeyValue>, key: String, value: String)
    requires
        all_text(old(attrs)@),
    ensures
        all_text(final(attrs)@),
        attrs_view(final(attrs)@) == attrs_view(old(attrs)@).push((key@, value@)),
{
    let ghost before = attrs@;
    let kv = text_attribute(key, value);
    attrs.push(kv);
    assert(attrs_view(attrs@) =~= attrs_view(before).push(attr_view(kv)));
}

/// Appends an attribute where the field is present.
fn push_optional_attr(attrs: &mut Vec<KeyValue>, key: &str, value: &Option<String>)
    requires
        all_text(old(attrs)@),
    ensures
        all_text(final(attrs)@),
        attrs_view(final(attrs)@) == attrs_view(old(attrs)@) + optional_attr(
            key@,
            match value {
                Some(v) => Some(v@),
                None => None,
            },
        ),
{
    match value {
        Some(v) => {
            push_attr(attrs, owned(key), v.clone());
        },
        None => {
            assert(attrs_view(attrs@) =~= attrs_view(attrs@) + Seq::empty());
        },
    }
}

/// The attribute key of an unrecognized journal field: lower case, with
/// `_` written as `.`.
pub fn attribute_key_of(name: &str) -> (r: String)
    ensures
        r@ == attribute_key(name@),
{
    let lower = to_lowercase(name);
    let cs = chars_of(lower.as_str());
    let mut out = String::new();
    let mut i: usize = 0;
    while i < cs.len()
        invariant
            i <= cs@.len(),
            cs@ == lower_of(name@),
            out@ == dotted(cs@.take(i as int)),
        decreases cs.len() - i,
    {
        let c = cs[i];
        if c == '_' {
            out.push('.');
        } else {
            out.push(c);
        }
        assert(dotted(cs@.take(i + 1)) =~= dotted(cs@.take(i as int)).push(
            if c == '_' {
                '.'
            } else {
                c
            },
        ));
        i = i + 1;
    }
    assert(cs@.take(cs@.len() as int) =~= cs@);
    out
}

/// Builds the OTLP record of one entry, observed at `observed_time_unix_nano`.
pub fn build_log_record(entry: &JournalEntry, observed_time_unix_nano: u64) -> (r: LogRecord)
    ensures
        record_matches(r, entry@, observed_time_unix_nano),
{
    let e = entry;
    let time_unix_nano = decimal_text((e.realtime_timestamp as u128) * 1000);
    let observed = decimal_text(observed_time_unix_nano as u128);
    let (severity_number, severity_text) = map_priority(e.priority);
    let mut attributes: Vec<KeyValue> = Vec::new();
    assert(attrs_view(attributes@) =~= Seq::empty());
    push_optional_attr(&mut attributes, "process.pid", &e.pid);
    push_optional_attr(&mut attributes, "process.owner", &e.uid);
    push_optional_attr(&mut attributes, "process.command", &e.comm);
    push_optional_attr(&mut attributes, "process.executable.path", &e.exe);
    push_optional_attr(&mut attributes, "syslog.identifier", &e.syslog_identifier);
    push_optional_attr(&mut attributes, "systemd.boot_id", &e.boot_id);
    push_attr(&mut attributes, owned("systemd.cursor"), e.cursor.clone());
    let ghost fixed = attrs_view(attributes@);
    assert(fixed =~= optional_attr("process.pid"@, e@.pid) + optional_attr("process.owner"@, e@.uid)
        + optional_attr("process.command"@, e@.comm) + optional_attr(
        "process.executable.path"@,
        e@.exe,
    ) + optional_attr("syslog.identifier"@, e@.syslog_identifier) + optional_attr(
        "systemd.boot_id"@,
        e@.boot_id,
    ) + seq![("systemd.cursor"@, e@.cursor)]);
    let ghost extra = e@.extra_fields.map_values(
        |p: (Seq<char>, Seq<char>)| (attribute_key(p.0), p.1),
    );
    let mut i: usize = 0;
    while i < e.extra_fields.len()
        invariant
            i <= e.extra_fields@.len(),
            all_text(attributes@),
            e@.extra_fields == pairs_view(e.extra_fields@),
            extra.len() == e.extra_fields@.len(),
            extra == e@.extra_fields.map_values(
                |p: (Seq<char>, Seq<char>)| (attribute_key(p.0), p.1),
            ),
            attrs_view(attributes@) == fixed + extra.take(i as int),
        decreases e.extra_fields.len() - i,
    {
        let key = attribute_key_of(e.extra_fields[i].0.as_str());
        let value = e.extra_fields[i].1.clone();
        let ghost kv = (key@, value@);
        push_attr(&mut attributes, key, value);
        assert(extra[i as int] == kv);
        assert(extra.take(i + 1) =~= extra.take(i as int).push(extra[i as int]));
        assert(fixed + extra.take(i + 1) =~= (fixed + extra.take(i as int)).push(extra[i as int]));
        i = i + 1;
    }
    assert(extra.take(extra.len() as int) =~= extra);
    assert(attrs_view(attributes@) =~= record_attributes(e@));
    LogRecord {
        time_unix_nano,
        observed_time_unix_nano: observed,
        severity_number,
        severity_text: owned(severity_text),
        body: AnyValue { string_value: e.message.clone() },
        attributes,
    }
}


/// The service an entry is exported under: its unit, or `unknown`.
pub open spec fn service_of(e: EntryModel) -> Seq<char> {
    match e.systemd_unit {
        Some(u) => u,
        None => "unknown"@,
    }
}

/// The services of a batch, each once, in the order they first appear.
pub open spec fn distinct_services(es: Seq<EntryModel>) -> Seq<Seq<char>>
    decreases es.len(),
{
    if es.len() == 0 {
        Seq::empty()
    } else {
        let prev = distinct_services(es.drop_last());
        let s = service_of(es.last());
        if prev.contains(s) {
            prev
        } else {
            prev.push(s)
        }
    }
}

/// The entries of a batch that belong to a service, in batch order.
pub open spec fn of_service(es: Seq<EntryModel>, service: Seq<char>) -> Seq<EntryModel>
    decreases es.len(),
{
    if es.len() == 0 {
        Seq::empty()
    } else {
        let prev = of_service(es.drop_last(), service);
        if service_of(es.last()) == service {
            prev.push(es.last())
        } else {
            prev
        }
    }
}

/// The attributes of a resource: host, service, platform, then every label.
pub open spec fn resource_attributes(
    source: Seq<char>,
    service: Seq<char>,
    labels: Seq<(Seq<char>, Seq<char>)>,
) -> Seq<(Seq<char>, Seq<char>)> {
    seq![("host.name"@, source), ("service.name"@, service), ("os.type"@, "linux"@)] + labels
}

pub open spec fn records_match(rs: Seq<LogRecord>, es: Seq<EntryModel>, observed: u64) -> bool {
    &&& rs.len() == es.len()
    &&& forall|i: int| 0 <= i < rs.len() ==> record_matches(#[trigger] rs[i], es[i], observed)
}

/// The resource block of one service: its attributes and one scope with
/// the records of that service's entries.
pub open spec fn resource_matches(
    rl: ResourceLogs,
    source: Seq<char>,
    service: Seq<char>,
    labels: Seq<(Seq<char>, Seq<char>)>,
    es: Seq<EntryModel>,
    observed: u64,
) -> bool {
    &&& all_text(rl.resource.attributes@)
    &&& attrs_view(rl.resource.attributes@) == resource_attributes(source, service, labels)
    &&& rl.scope_logs@.len() == 1
    &&& rl.scope_logs@[0].scope.name@ == SCOPE_NAME@
    &&& rl.scope_logs@[0].scope.version@ == SCOPE_VERSION@
    &&& records_match(rl.scope_logs@[0].log_records@, of_service(es, service), observed)
}

/// The export document of a batch: one resource block per distinct
/// service, in order of first appearance.
pub open spec fn payload_matches(
    p: ExportLogsServiceRequest,
    source: Seq<char>,
    es: Seq<EntryModel>,
    labels: Seq<(Seq<char>, Seq<char>)>,
    observed: u64,
) -> bool {
    let services = distinct_services(es);
    &&& p.resource_logs@.len() == services.len()
    &&& forall|g: int|
        0 <= g < services.len() ==> resource_matches(
            #[trigger] p.resource_logs@[g],
            source,
            services[g],
            labels,
            es,
            observed,
        )
}

/// The service an entry is exported under.
pub fn service_name(entry: &JournalEntry) -> (r: String)
    ensures
        r@ == service_of(entry@),
{
    match &entry.systemd_unit {
        Some(u) => u.clone(),
        None => owned("unknown"),
    }
}

/// Whether a service is already in the list.
fn contains_service(services: &Vec<String>, s: &String) -> (r: bool)
    ensures
        r == services@.map_values(|x: String| x@).contains(s@),
{
    let ghost sv = services@.map_values(|x: String| x@);
    let mut i: usize = 0;
    while i < services.len()
        invariant
            i <= services@.len(),
            sv == services@.map_values(|x: String| x@),
            forall|j: int| 0 <= j < i ==> sv[j] != s@,
        decreases services.len() - i,
    {
        if services[i] == *s {
            assert(sv[i as int] == s@);
            return true;
        }
        i = i + 1;
    }
    false
}

/// The distinct services of a batch, in order of first appearance.
fn services_of(entries: &[JournalEntry]) -> (r: Vec<String>)
    ensures
        r@.map_values(|x: String| x@) == distinct_services(entries_view(entries@)),
{
    let ghost ev = entries_view(entries@);
    let mut services: Vec<String> = Vec::new();
    let mut i: usize = 0;
    assert(ev.take(0) =~= Seq::<EntryModel>::empty());
    assert(services@.map_values(|x: String| x@) =~= Seq::<Seq<char>>::empty());
    while i < entries.len()
        invariant
            i <= entries@.len(),
            ev == entries_view(entries@),
            services@.map_values(|x: String| x@) == distinct_services(ev.take(i as int)),
        decreases entries.len() - i,
    {
        assert(ev.take(i + 1).drop_last() =~= ev.take(i as int));
        assert(ev.take(i + 1).last() == entries@[i as int]@);
        let s = service_name(&entries[i]);
        if !contains_service(&services, &s) {
            let ghost before = services@;
            services.push(s);
            assert(services@.map_values(|x: String| x@) =~= before.map_values(|x: String| x@).push(
                s@,
            ));
        }
        i = i + 1;
    }
    assert(ev.take(entries@.len() as int) =~= ev);
    services
}

/// The records of the entries that belong to `service`, in batch order.
fn records_of_service(entries: &[JournalEntry], service: &String, observed: u64) -> (r: Vec<
    LogRecord,
>)
    ensures
        records_match(r@, of_service(entries_view(entries@), service@), observed),
{
    let ghost ev = entries_view(entries@);
    let mut records: Vec<LogRecord> = Vec::new();
    let mut i: usize = 0;
    assert(ev.take(0) =~= Seq::<EntryModel>::empty());
    while i < entries.len()
        invariant
            i <= entries@.len(),
            ev == entries_view(entries@),
            records_match(records@, of_service(ev.take(i as int), service@), observed),
        decreases entries.len() - i,
    {
        assert(ev.take(i + 1).drop_last() =~= ev.take(i as int));
        assert(ev.take(i + 1).last() == entries@[i as int]@);
        let s = service_name(&entries[i]);
        if s == *service {
            let r = build_log_record(&entries[i], observed);
            records.push(r);
        }
        i = i + 1;
    }
    assert(ev.take(entries@.len() as int) =~= ev);
    records
}

/// The attributes of the resource block of one service.
fn resource_attrs(source_name: &str, service: &String, labels: &Vec<(String, String)>) -> (r: Vec<
    KeyValue,
>)
    ensures
        all_text(r@),
        attrs_view(r@) == resource_attributes(source_name@, service@, pairs_view(labels@)),
{
    let mut attrs: Vec<KeyValue> = Vec::new();
    assert(attrs_view(attrs@) =~= Seq::empty());
    push_attr(&mut attrs, owned("host.name"), owned(source_name));
    push_attr(&mut attrs, owned("service.name"), service.clone());
    push_attr(&mut attrs, owned("os.type"), owned("linux"));
    let ghost fixed = attrs_view(attrs@);
    let ghost lv = pairs_view(labels@);
    let mut i: usize = 0;
    while i < labels.len()
        invariant
            i <= labels@.len(),
            lv == pairs_view(labels@),
            all_text(attrs@),
            attrs_view(attrs@) == fixed + lv.take(i as int),
        decreases labels.len() - i,
    {
        push_attr(&mut attrs, labels[i].0.clone(), labels[i].1.clone());
        assert(fixed + lv.take(i + 1) =~= (fixed + lv.take(i as int)).push(lv[i as int]));
        i = i + 1;
    }
    assert(lv.take(lv.len() as int) =~= lv);
    assert(attrs_view(attrs@) =~= resource_attributes(source_name@, service@, lv));
    attrs
}

/// Builds the export document of a batch observed at
/// `observed_time_unix_nano`: entries are grouped by service, and each
/// group becomes one resource block carrying the host, the service, the
/// platform and every label.
pub fn build_otlp_payload_at(
    source_name: &str,
    entries: &[JournalEntry],
    labels: &Vec<(String, String)>,
    observed_time_unix_nano: u64,
) -> (r: ExportLogsServiceRequest)
    ensures
        payload_matches(
            r,
            source_name@,
            entries_view(entries@),
            pairs_view(labels@),
            observed_time_unix_nano,
        ),
{
    let services = services_of(entries);
    let ghost sv = services@.map_values(|x: String| x@);
    let mut resource_logs: Vec<ResourceLogs> = Vec::new();
    let mut g: usize = 0;
    while g < services.len()
        invariant
            g <= services@.len(),
            sv == services@.map_values(|x: String| x@),
            sv == distinct_services(entries_view(entries@)),
            resource_logs@.len() == g,
            forall|k: int|
                0 <= k < g ==> resource_matches(
                    #[trigger] resource_logs@[k],
                    source_name@,
                    sv[k],
                    pairs_view(labels@),
                    entries_view(entries@),
                    observed_time_unix_nano,
                ),
        decreases services.len() - g,
    {
        let service = &services[g];
        let attributes = resource_attrs(source_name, service, labels);
        let log_records = records_of_service(entries, service, observed_time_unix_nano);
        let scope = Scope { name: owned(SCOPE_NAME), version: owned(SCOPE_VERSION) };
        let rl = ResourceLogs {
            resource: Resource { attributes },
            scope_logs: vec![ScopeLogs { scope, log_records }],
        };
        resource_logs.push(rl);
        g = g + 1;
    }
    ExportLogsServiceRequest { resource_logs }
}


/// Relies on `SystemTime::now`: the current time in nanoseconds since the
/// Unix epoch (0 for a clock set before the epoch).
#[verifier::external_body]
pub(crate) fn unix_time_nanos() -> (r: u64) {
    match std::time::SystemTime::now().duration_since(std::time::UNIX_EPOCH) {
        Ok(d) => u64::try_from(d.as_nanos()).unwrap_or(u64::MAX),
        Err(_) => 0,
    }
}

/// Builds the export document of a batch, observed now.
pub fn build_otlp_payload(
    source_name: &str,
    entries: &[JournalEntry],
    labels: &Vec<(String, String)>,
) -> (r: ExportLogsServiceRequest)
    ensures
        exists|observed: u64|
            payload_matches(
                r,
                source_name@,
                entries_view(entries@),
                pairs_view(labels@),
                observed,
            ),
{
    let observed = unix_time_nanos();
    build_otlp_payload_at(source_name, entries, labels, observed)
}

/// The document to publish for a batch: none for an empty batch, which is
/// not sent at all.
pub fn export_request(
    source_name: &str,
    entries: &[JournalEntry],
    labels: &Vec<(String, String)>,
) -> (r: Option<ExportLogsServiceRequest>)
    ensures
        entries@.len() == 0 <==> r is None,
        r is Some ==> (exists|observed: u64|
            payload_matches(
                r->0,
                source_name@,
                entries_view(entries@),
                pairs_view(labels@),
                observed,
            )),
{
    if entries.len() == 0 {
        None
    } else {
        let observed = unix_time_nanos();
        let p = build_otlp_payload_at(source_name, entries, labels, observed);
        let r = Some(p);
        assert(payload_matches(
            r->0,
            source_name@,
            entries_view(entries@),
            pairs_view(labels@),
            observed,
        ));
        r
    }
}

/// Why a publish failed.
#[derive(Debug)]
pub enum OtlpError {
    /// The request could not be made.
    Http(String),
    /// The collector answered with a status other than 2xx.
    ServerError { status: u16, body: String },
}

/// What the collector's answer means: any 2xx status acknowledges the whole
/// batch; any other status rejects it, with the response text.
pub fn publish_outcome(status: u16, body: String) -> (r: Result<(), OtlpError>)
    ensures
        200 <= status <= 299 ==> r is Ok,
        !(200 <= status <= 299) ==> (r matches Err(OtlpError::ServerError { status: s, body: b })
            && s == status && b == body),
{
    if 200 <= status && status <= 299 {
        Ok(())
    } else {
        Err(OtlpError::ServerError { status, body })
    }
}

/// Where a collector receives OTLP/HTTP logs.
pub struct OtlpClient {
    endpoint: String,
}

impl OtlpClient {
    pub closed spec fn endpoint_spec(&self) -> Seq<char> {
        self.endpoint@
    }

    /// A client of the collector at `endpoint`; logs go to its `/v1/logs`.
    pub fn new(endpoint: &str) -> (r: OtlpClient)
        ensures
            r.endpoint_spec() == without_trailing_slashes(endpoint@) + "/v1/logs"@,
    {
        let mut e = trim_trailing_slashes(endpoint);
        e.push_str("/v1/logs");
        OtlpClient { endpoint: e }
    }

    /// The URL that batches are posted to.
    pub fn endpoint(&self) -> (r: &str)
        ensures
            r@ == self.endpoint_spec(),
    {
        self.endpoint.as_str()
    }
}

/// Each distinct service of a batch gets exactly one resource block, and
/// every block carries the source's host name, its own service and the
/// complete label set.
pub proof fn lemma_one_block_per_service(
    p: ExportLogsServiceRequest,
    source: Seq<char>,
    es: Seq<EntryModel>,
    labels: Seq<(Seq<char>, Seq<char>)>,
    observed: u64,
)
    requires
        payload_matches(p, source, es, labels, observed),
    ensures
        p.resource_logs@.len() == distinct_services(es).len(),
        forall|g: int|
            0 <= g < p.resource_logs@.len() ==> {
                let attrs = attrs_view(#[trigger] p.resource_logs@[g].resource.attributes@);
                &&& attrs.subrange(3, attrs.len() as int) == labels
                &&& attrs[0] == ("host.name"@, source)
                &&& attrs[1] == ("service.name"@, distinct_services(es)[g])
            },
{
    assert forall|g: int| 0 <= g < p.resource_logs@.len() implies {
        let attrs = attrs_view(#[trigger] p.resource_logs@[g].resource.attributes@);
        &&& attrs.subrange(3, attrs.len() as int) == labels
        &&& attrs[0] == ("host.name"@, source)
        &&& attrs[1] == ("service.name"@, distinct_services(es)[g])
    } by {
        let attrs = attrs_view(p.resource_logs@[g].resource.attributes@);
        let services = distinct_services(es);
        assert(resource_matches(p.resource_logs@[g], source, services[g], labels, es, observed));
        assert(attrs.subrange(3, attrs.len() as int) =~= labels);
    }
}


} // verus!
