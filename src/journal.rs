//! Journal entries as served by systemd-journal-gatewayd, and the decoding
//! of its newline-delimited JSON responses.

use vstd::prelude::*;
use crate::text::{
    chars_of, decimal, decimal_text, decode_lossy, owned, parse_u64, parse_u8, parse_unsigned,
    same_text, trim, trim_trailing_slashes, trimmed, utf8_lossy, without_trailing_slashes,
};
use vstd::utf8::encode_utf8;

verus! {

/// A JSON member value, as far as the entry decoder reads it.
pub enum FieldValue {
    Null,
    Text(String),
    /// A JSON array: for each element, its value if it is an unsigned integer.
    Array(Vec<Option<u64>>),
    /// Any other JSON value, as compact JSON text.
    Other(String),
}

/// The mathematical value of a [`FieldValue`].
pub enum FieldModel {
    Null,
    Text(Seq<char>),
    Array(Seq<Option<u64>>),
    Other(Seq<char>),
}

impl View for FieldValue {
    type V = FieldModel;

    open spec fn view(&self) -> FieldModel {
        match self {
            FieldValue::Null => FieldModel::Null,
            FieldValue::Text(s) => FieldModel::Text(s@),
            FieldValue::Array(a) => FieldModel::Array(a@),
            FieldValue::Other(s) => FieldModel::Other(s@),
        }
    }
}

/// One member of a JSON object: its key and its value.
pub struct JsonMember {
    pub name: String,
    pub value: FieldValue,
}

impl View for JsonMember {
    type V = (Seq<char>, FieldModel);

    open spec fn view(&self) -> (Seq<char>, FieldModel) {
        (self.name@, self.value@)
    }
}

pub open spec fn members_view(ms: Seq<JsonMember>) -> Seq<(Seq<char>, FieldModel)> {
    ms.map_values(|m: JsonMember| m@)
}

/// The members that serde_json reads from a text holding one JSON object,
/// or none where the text is not one.
pub uninterp spec fn json_object_members(line: Seq<char>) -> Option<Seq<(Seq<char>, FieldModel)>>;

/// Relies on `serde_json::from_str` into a `serde_json::Map`: the text is
/// read as one JSON object, or refused. Each member value is handed on as a
/// [`FieldValue`] (array elements through `Value::as_u64`, other values
/// through `Value`'s `Display`).
#[verifier::external_body]
fn parse_json_object(line: &str) -> (r: Option<Vec<JsonMember>>)
    ensures
        r is None <==> json_object_members(line@) is None,
        r matches Some(ms) ==> members_view(ms@) == json_object_members(line@)->0,
{
    let map = serde_json::from_str::<serde_json::Map<String, serde_json::Value>>(line).ok()?;
    Some(map.into_iter().map(|(name, v)| {
        let value = match v {
            serde_json::Value::Null => FieldValue::Null,
            serde_json::Value::String(s) => FieldValue::Text(s),
            serde_json::Value::Array(a) => FieldValue::Array(a.iter().map(|x| x.as_u64()).collect()),
            other => FieldValue::Other(other.to_string()),
        };
        JsonMember { name, value }
    }).collect())
}

/// A journal entry, normalized from one record of a gatewayd response.
#[derive(Debug, Clone)]
pub struct JournalEntry {
    /// The cursor string for this entry
    pub cursor: String,
    /// Realtime timestamp in microseconds
    pub realtime_timestamp: u64,
    /// Monotonic timestamp in microseconds
    pub monotonic_timestamp: Option<u64>,
    /// Boot ID
    pub boot_id: Option<String>,
    /// Log message
    pub message: String,
    /// Priority (0-7)
    pub priority: Option<u8>,
    /// Systemd unit name
    pub systemd_unit: Option<String>,
    /// Syslog identifier
    pub syslog_identifier: Option<String>,
    /// Process ID
    pub pid: Option<String>,
    /// User ID
    pub uid: Option<String>,
    /// Group ID
    pub gid: Option<String>,
    /// Command name
    pub comm: Option<String>,
    /// Executable path
    pub exe: Option<String>,
    /// Machine ID
    pub machine_id: Option<String>,
    /// Hostname
    pub hostname: Option<String>,
    /// All other fields, in the order of their names
    pub extra_fields: Vec<(String, String)>,
}

/// The mathematical value of a [`JournalEntry`].
pub struct EntryModel {
    pub cursor: Seq<char>,
    pub realtime_timestamp: u64,
    pub monotonic_timestamp: Option<u64>,
    pub boot_id: Option<Seq<char>>,
    pub message: Seq<char>,
    pub priority: Option<u8>,
    pub systemd_unit: Option<Seq<char>>,
    pub syslog_identifier: Option<Seq<char>>,
    pub pid: Option<Seq<char>>,
    pub uid: Option<Seq<char>>,
    pub gid: Option<Seq<char>>,
    pub comm: Option<Seq<char>>,
    pub exe: Option<Seq<char>>,
    pub machine_id: Option<Seq<char>>,
    pub hostname: Option<Seq<char>>,
    pub extra_fields: Seq<(Seq<char>, Seq<char>)>,
}

pub open spec fn opt_view(o: Option<String>) -> Option<Seq<char>> {
    match o {
        Some(s) => Some(s@),
        None => None,
    }
}

pub open spec fn pairs_view(v: Seq<(String, String)>) -> Seq<(Seq<char>, Seq<char>)> {
    v.map_values(|p: (String, String)| (p.0@, p.1@))
}

impl View for JournalEntry {
    type V = EntryModel;

    open spec fn view(&self) -> EntryModel {
        EntryModel {
            cursor: self.cursor@,
            realtime_timestamp: self.realtime_timestamp,
            monotonic_timestamp: self.monotonic_timestamp,
            boot_id: opt_view(self.boot_id),
            message: self.message@,
            priority: self.priority,
            systemd_unit: opt_view(self.systemd_unit),
            syslog_identifier: opt_view(self.syslog_identifier),
            pid: opt_view(self.pid),
            uid: opt_view(self.uid),
            gid: opt_view(self.gid),
            comm: opt_view(self.comm),
            exe: opt_view(self.exe),
            machine_id: opt_view(self.machine_id),
            hostname: opt_view(self.hostname),
            extra_fields: pairs_view(self.extra_fields@),
        }
    }
}

/// The value of the first member of that name.
pub open spec fn member(ms: Seq<(Seq<char>, FieldModel)>, name: Seq<char>) -> Option<FieldModel>
    decreases ms.len(),
{
    if ms.len() == 0 {
        None
    } else if ms[0].0 == name {
        Some(ms[0].1)
    } else {
        member(ms.drop_first(), name)
    }
}

/// A text member that may be absent or null; `None` where it has another type.
pub open spec fn optional_text(v: Option<FieldModel>) -> Option<Option<Seq<char>>> {
    match v {
        None => Some(None),
        Some(FieldModel::Null) => Some(None),
        Some(FieldModel::Text(s)) => Some(Some(s)),
        _ => None,
    }
}

/// A text member that must be present.
pub open spec fn required_text(v: Option<FieldModel>) -> Option<Seq<char>> {
    match v {
        Some(FieldModel::Text(s)) => Some(s),
        _ => None,
    }
}

/// The bytes that an array of byte values stands for: each unsigned integer
/// element taken modulo 256, other elements left out.
pub open spec fn bytes_of(items: Seq<Option<u64>>) -> Seq<u8>
    decreases items.len(),
{
    if items.len() == 0 {
        Seq::empty()
    } else {
        let prev = bytes_of(items.drop_last());
        match items.last() {
            Some(n) => prev.push((n % 256) as u8),
            None => prev,
        }
    }
}

/// The message text: a string as it is, an array of bytes decoded lossily
/// as UTF-8, anything else (or nothing) empty.
pub open spec fn message_text(v: Option<FieldModel>) -> Seq<char> {
    match v {
        Some(FieldModel::Text(s)) => s,
        Some(FieldModel::Array(a)) => utf8_lossy(bytes_of(a)),
        _ => Seq::empty(),
    }
}

/// The text kept for an unrecognized field.
pub open spec fn extra_text(v: FieldModel) -> Seq<char> {
    match v {
        FieldModel::Text(s) => s,
        FieldModel::Array(a) => utf8_lossy(bytes_of(a)),
        FieldModel::Null => "null"@,
        FieldModel::Other(t) => t,
    }
}

/// Field names that have a place of their own in an entry.
pub open spec fn is_named_field(name: Seq<char>) -> bool {
    name == "__CURSOR"@ || name == "__REALTIME_TIMESTAMP"@ || name == "__MONOTONIC_TIMESTAMP"@
        || name == "_BOOT_ID"@ || name == "MESSAGE"@ || name == "PRIORITY"@
        || name == "_SYSTEMD_UNIT"@ || name == "SYSLOG_IDENTIFIER"@ || name == "_PID"@
        || name == "_UID"@ || name == "_GID"@ || name == "_COMM"@ || name == "_EXE"@
        || name == "_MACHINE_ID"@ || name == "_HOSTNAME"@
}

/// Whether a field name has the `__` prefix of journal-internal fields.
pub open spec fn is_internal_name(name: Seq<char>) -> bool {
    name.len() >= 2 && name[0] == '_' && name[1] == '_'
}

pub open spec fn kept_as_extra(name: Seq<char>) -> bool {
    !is_named_field(name) && !is_internal_name(name)
}

/// The unrecognized fields of a record, in member order, with their texts.
pub open spec fn extra_fields_of(ms: Seq<(Seq<char>, FieldModel)>) -> Seq<(Seq<char>, Seq<char>)>
    decreases ms.len(),
{
    if ms.len() == 0 {
        Seq::empty()
    } else {
        let prev = extra_fields_of(ms.drop_last());
        if kept_as_extra(ms.last().0) {
            prev.push((ms.last().0, extra_text(ms.last().1)))
        } else {
            prev
        }
    }
}

pub open spec fn number_or_zero(t: Seq<char>) -> u64 {
    match parse_unsigned(t, u64::MAX as nat) {
        Some(v) => v as u64,
        None => 0,
    }
}

pub open spec fn optional_u64(t: Option<Seq<char>>) -> Option<u64> {
    match t {
        Some(s) => match parse_unsigned(s, u64::MAX as nat) {
            Some(v) => Some(v as u64),
            None => None,
        },
        None => None,
    }
}

pub open spec fn optional_u8(t: Option<Seq<char>>) -> Option<u8> {
    match t {
        Some(s) => match parse_unsigned(s, u8::MAX as nat) {
            Some(v) => Some(v as u8),
            None => None,
        },
        None => None,
    }
}

/// The entry that a record's members describe: `__CURSOR` and
/// `__REALTIME_TIMESTAMP` must be text, the other named fields text or
/// null where present; otherwise the record is malformed.
pub open spec fn decode_entry(ms: Seq<(Seq<char>, FieldModel)>) -> Option<EntryModel> {
    let cursor = required_text(member(ms, "__CURSOR"@));
    let realtime = required_text(member(ms, "__REALTIME_TIMESTAMP"@));
    let monotonic = optional_text(member(ms, "__MONOTONIC_TIMESTAMP"@));
    let boot_id = optional_text(member(ms, "_BOOT_ID"@));
    let priority = optional_text(member(ms, "PRIORITY"@));
    let unit = optional_text(member(ms, "_SYSTEMD_UNIT"@));
    let syslog = optional_text(member(ms, "SYSLOG_IDENTIFIER"@));
    let pid = optional_text(member(ms, "_PID"@));
    let uid = optional_text(member(ms, "_UID"@));
    let gid = optional_text(member(ms, "_GID"@));
    let comm = optional_text(member(ms, "_COMM"@));
    let exe = optional_text(member(ms, "_EXE"@));
    let machine_id = optional_text(member(ms, "_MACHINE_ID"@));
    let hostname = optional_text(member(ms, "_HOSTNAME"@));
    if cursor is Some && realtime is Some && monotonic is Some && boot_id is Some
        && priority is Some && unit is Some && syslog is Some && pid is Some && uid is Some
        && gid is Some && comm is Some && exe is Some && machine_id is Some && hostname is Some {
        Some(EntryModel {
            cursor: cursor->0,
            realtime_timestamp: number_or_zero(realtime->0),
            monotonic_timestamp: optional_u64(monotonic->0),
            boot_id: boot_id->0,
            message: message_text(member(ms, "MESSAGE"@)),
            priority: optional_u8(priority->0),
            systemd_unit: unit->0,
            syslog_identifier: syslog->0,
            pid: pid->0,
            uid: uid->0,
            gid: gid->0,
            comm: comm->0,
            exe: exe->0,
            machine_id: machine_id->0,
            hostname: hostname->0,
            extra_fields: extra_fields_of(ms),
        })
    } else {
        None
    }
}

/// The entry that one line of a response holds, if it is a well-formed record.
pub open spec fn entry_of_line(line: Seq<char>) -> Option<EntryModel> {
    match json_object_members(line) {
        Some(ms) => decode_entry(ms),
        None => None,
    }
}

/// Position of the first member of that name.
fn find_member(ms: &Vec<JsonMember>, name: &str) -> (r: Option<usize>)
    ensures
        r matches Some(i) ==> i < ms@.len() && member(members_view(ms@), name@) == Some(
            ms@[i as int].value@,
        ),
        r is None ==> member(members_view(ms@), name@) is None,
{
    let ghost mv = members_view(ms@);
    let mut i: usize = 0;
    assert(mv.subrange(0, mv.len() as int) =~= mv);
    while i < ms.len()
        invariant
            i <= ms@.len(),
            mv == members_view(ms@),
            member(mv, name@) == member(mv.subrange(i as int, mv.len() as int), name@),
        decreases ms.len() - i,
    {
        let ghost rest = mv.subrange(i as int, mv.len() as int);
        assert(rest[0] == ms@[i as int]@);
        if same_text(ms[i].name.as_str(), name) {
            return Some(i);
        }
        assert(rest.drop_first() =~= mv.subrange(i + 1, mv.len() as int));
        i = i + 1;
    }
    None
}

/// The bytes of an array of byte values.
fn array_bytes(items: &Vec<Option<u64>>) -> (r: Vec<u8>)
    ensures
        r@ == bytes_of(items@),
{
    let mut out: Vec<u8> = Vec::new();
    let mut i: usize = 0;
    while i < items.len()
        invariant
            i <= items@.len(),
            out@ == bytes_of(items@.take(i as int)),
        decreases items.len() - i,
    {
        assert(items@.take(i + 1).drop_last() =~= items@.take(i as int));
        match items[i] {
            Some(n) => out.push((n % 256) as u8),
            None => {},
        }
        i = i + 1;
    }
    assert(items@.take(items@.len() as int) =~= items@);
    out
}

/// The text of an array of byte values, decoded lossily as UTF-8.
fn array_text(items: &Vec<Option<u64>>) -> (r: String)
    ensures
        r@ == utf8_lossy(bytes_of(items@)),
{
    let bytes = array_bytes(items);
    decode_lossy(bytes.as_slice())
}

/// A named text field that may be absent or null; `Err` where it has another type.
fn optional_text_field(ms: &Vec<JsonMember>, name: &str) -> (r: Result<Option<String>, ()>)
    ensures
        match optional_text(member(members_view(ms@), name@)) {
            Some(t) => r is Ok && opt_view(r->Ok_0) == t,
            None => r is Err,
        },
{
    match find_member(ms, name) {
        None => Ok(None),
        Some(i) => match &ms[i].value {
            FieldValue::Null => Ok(None),
            FieldValue::Text(s) => Ok(Some(s.clone())),
            _ => Err(()),
        },
    }
}

/// A named text field that must be present.
fn required_text_field(ms: &Vec<JsonMember>, name: &str) -> (r: Option<String>)
    ensures
        opt_view(r) == required_text(member(members_view(ms@), name@)),
{
    match find_member(ms, name) {
        None => None,
        Some(i) => match &ms[i].value {
            FieldValue::Text(s) => Some(s.clone()),
            _ => None,
        },
    }
}


/// Whether a field name has a place of its own in an entry.
fn named_field(name: &str) -> (r: bool)
    ensures
        r == is_named_field(name@),
{
    same_text(name, "__CURSOR") || same_text(name, "__REALTIME_TIMESTAMP")
        || same_text(name, "__MONOTONIC_TIMESTAMP") || same_text(name, "_BOOT_ID")
        || same_text(name, "MESSAGE") || same_text(name, "PRIORITY")
        || same_text(name, "_SYSTEMD_UNIT") || same_text(name, "SYSLOG_IDENTIFIER")
        || same_text(name, "_PID") || same_text(name, "_UID") || same_text(name, "_GID")
        || same_text(name, "_COMM") || same_text(name, "_EXE") || same_text(name, "_MACHINE_ID")
        || same_text(name, "_HOSTNAME")
}

/// Whether a field name has the `__` prefix of journal-internal fields.
fn internal_name(name: &str) -> (r: bool)
    ensures
        r == is_internal_name(name@),
{
    let cs = chars_of(name);
    cs.len() >= 2 && cs[0] == '_' && cs[1] == '_'
}

/// The text kept for an unrecognized field.
fn extra_value_text(v: &FieldValue) -> (r: String)
    ensures
        r@ == extra_text(v@),
{
    match v {
        FieldValue::Text(s) => s.clone(),
        FieldValue::Array(a) => array_text(a),
        FieldValue::Null => owned("null"),
        FieldValue::Other(t) => t.clone(),
    }
}

/// The unrecognized fields of a record, with their texts.
fn extra_fields(ms: &Vec<JsonMember>) -> (r: Vec<(String, String)>)
    ensures
        pairs_view(r@) == extra_fields_of(members_view(ms@)),
{
    let ghost mv = members_view(ms@);
    let mut out: Vec<(String, String)> = Vec::new();
    let mut i: usize = 0;
    while i < ms.len()
        invariant
            i <= ms@.len(),
            mv == members_view(ms@),
            pairs_view(out@) == extra_fields_of(mv.take(i as int)),
        decreases ms.len() - i,
    {
        assert(mv.take(i + 1).drop_last() =~= mv.take(i as int));
        assert(mv.take(i + 1).last() == ms@[i as int]@);
        let m = &ms[i];
        if !named_field(m.name.as_str()) && !internal_name(m.name.as_str()) {
            let text = extra_value_text(&m.value);
            let ghost before = out@;
            out.push((m.name.clone(), text));
            assert(pairs_view(out@) =~= pairs_view(before).push((m.name@, extra_text(m.value@))));
        }
        i = i + 1;
    }
    assert(mv.take(ms@.len() as int) =~= mv);
    out
}


/// The entry that a record's members describe, if they are well-formed.
fn entry_from_members(ms: &Vec<JsonMember>) -> (r: Option<JournalEntry>)
    ensures
        match decode_entry(members_view(ms@)) {
            Some(e) => r matches Some(x) && x@ == e,
            None => r is None,
        },
{
    let cursor = match required_text_field(ms, "__CURSOR") {
        Some(c) => c,
        None => return None,
    };
    let realtime = match required_text_field(ms, "__REALTIME_TIMESTAMP") {
        Some(t) => t,
        None => return None,
    };
    let monotonic = match optional_text_field(ms, "__MONOTONIC_TIMESTAMP") {
        Ok(t) => t,
        Err(()) => return None,
    };
    let boot_id = match optional_text_field(ms, "_BOOT_ID") {
        Ok(t) => t,
        Err(()) => return None,
    };
    let priority = match optional_text_field(ms, "PRIORITY") {
        Ok(t) => t,
        Err(()) => return None,
    };
    let systemd_unit = match optional_text_field(ms, "_SYSTEMD_UNIT") {
        Ok(t) => t,
        Err(()) => return None,
    };
    let syslog_identifier = match optional_text_field(ms, "SYSLOG_IDENTIFIER") {
        Ok(t) => t,
        Err(()) => return None,
    };
    let pid = match optional_text_field(ms, "_PID") {
        Ok(t) => t,
        Err(()) => return None,
    };
    let uid = match optional_text_field(ms, "_UID") {
        Ok(t) => t,
        Err(()) => return None,
    };
    let gid = match optional_text_field(ms, "_GID") {
        Ok(t) => t,
        Err(()) => return None,
    };
    let comm = match optional_text_field(ms, "_COMM") {
        Ok(t) => t,
        Err(()) => return None,
    };
    let exe = match optional_text_field(ms, "_EXE") {
        Ok(t) => t,
        Err(()) => return None,
    };
    let machine_id = match optional_text_field(ms, "_MACHINE_ID") {
        Ok(t) => t,
        Err(()) => return None,
    };
    let hostname = match optional_text_field(ms, "_HOSTNAME") {
        Ok(t) => t,
        Err(()) => return None,
    };
    let message = match find_member(ms, "MESSAGE") {
        Some(i) => match &ms[i].value {
            FieldValue::Text(s) => s.clone(),
            FieldValue::Array(a) => array_text(a),
            _ => String::new(),
        },
        None => String::new(),
    };
    let realtime_timestamp = match parse_u64(realtime.as_str()) {
        Some(v) => v,
        None => 0,
    };
    let monotonic_timestamp = match &monotonic {
        Some(t) => parse_u64(t.as_str()),
        None => None,
    };
    let priority = match &priority {
        Some(t) => parse_u8(t.as_str()),
        None => None,
    };
    let extra_fields = extra_fields(ms);
    Some(JournalEntry {
        cursor,
        realtime_timestamp,
        monotonic_timestamp,
        boot_id,
        message,
        priority,
        systemd_unit,
        syslog_identifier,
        pid,
        uid,
        gid,
        comm,
        exe,
        machine_id,
        hostname,
        extra_fields,
    })
}

impl JournalEntry {
    /// Decodes one line of a gatewayd JSON response: `None` where the line
    /// is not a JSON object or its fields do not have the expected types.
    pub fn from_json_line(line: &str) -> (r: Option<JournalEntry>)
        ensures
            match entry_of_line(line@) {
                Some(e) => r matches Some(x) && x@ == e,
                None => r is None,
            },
    {
        match parse_json_object(line) {
            Some(ms) => entry_from_members(&ms),
            None => None,
        }
    }
}


pub open spec fn entries_view(v: Seq<JournalEntry>) -> Seq<EntryModel> {
    v.map_values(|e: JournalEntry| e@)
}

/// The newline-separated pieces of a text: `n` newlines give `n + 1` pieces.
pub open spec fn pieces(s: Seq<char>) -> Seq<Seq<char>>
    decreases s.len(),
{
    if s.len() == 0 {
        seq![Seq::empty()]
    } else {
        let p = pieces(s.drop_last());
        if s.last() == '\n' {
            p.push(Seq::empty())
        } else {
            p.update(p.len() - 1, p.last().push(s.last()))
        }
    }
}

/// What one piece adds to the entries read so far: nothing where it is
/// blank or malformed, else its entry.
pub open spec fn with_line(prev: Seq<EntryModel>, piece: Seq<char>) -> Seq<EntryModel> {
    let line = trimmed(piece);
    if line.len() == 0 {
        prev
    } else {
        match entry_of_line(line) {
            Some(e) => prev.push(e),
            None => prev,
        }
    }
}

pub open spec fn entries_of_pieces(ps: Seq<Seq<char>>) -> Seq<EntryModel>
    decreases ps.len(),
{
    if ps.len() == 0 {
        Seq::empty()
    } else {
        with_line(entries_of_pieces(ps.drop_last()), ps.last())
    }
}

/// The entries of a newline-delimited JSON body, in order.
pub open spec fn entries_of_body(body: Seq<char>) -> Seq<EntryModel> {
    entries_of_pieces(pieces(body))
}

/// Adds the entry of one line, if it holds one.
fn push_line_entry(out: &mut Vec<JournalEntry>, piece: &str)
    ensures
        entries_view(final(out)@) == with_line(entries_view(old(out)@), piece@),
{
    let line = trim(piece);
    if line.is_empty() {
        return;
    }
    match JournalEntry::from_json_line(line) {
        Some(e) => {
            let ghost before = out@;
            out.push(e);
            assert(entries_view(out@) =~= entries_view(before).push(e@));
        },
        None => {},
    }
}

/// Parses newline-delimited JSON entries. Blank lines are skipped, and a
/// malformed line is dropped without failing the others.
pub fn parse_entries(body: &str) -> (r: Vec<JournalEntry>)
    ensures
        entries_view(r@) == entries_of_body(body@),
{
    let cs = chars_of(body);
    let mut out: Vec<JournalEntry> = Vec::new();
    let mut cur = String::new();
    let ghost mut done: Seq<Seq<char>> = Seq::empty();
    let mut i: usize = 0;
    assert(cs@.take(0) =~= Seq::<char>::empty());
    assert(pieces(cs@.take(0)) =~= done.push(cur@));
    while i < cs.len()
        invariant
            i <= cs@.len(),
            pieces(cs@.take(i as int)) == done.push(cur@),
            entries_view(out@) == entries_of_pieces(done),
        decreases cs.len() - i,
    {
        let c = cs[i];
        assert(cs@.take(i + 1).drop_last() =~= cs@.take(i as int));
        if c == '\n' {
            push_line_entry(&mut out, cur.as_str());
            proof {
                let nd = done.push(cur@);
                assert(nd.drop_last() =~= done);
                done = nd;
            }
            cur = String::new();
            assert(pieces(cs@.take(i + 1)) =~= done.push(cur@));
        } else {
            cur.push(c);
            assert(pieces(cs@.take(i + 1)) =~= done.push(cur@));
        }
        i = i + 1;
    }
    push_line_entry(&mut out, cur.as_str());
    proof {
        let nd = done.push(cur@);
        assert(nd.drop_last() =~= done);
        assert(cs@.take(cs@.len() as int) =~= cs@);
    }
    out
}


/// Whether a byte stands for itself in a URL query: an ASCII letter or
/// digit, or one of `-`, `_`, `.`, `~`.
pub open spec fn is_unreserved(b: u8) -> bool {
    (65 <= b && b <= 90) || (97 <= b && b <= 122) || (48 <= b && b <= 57) || b == 45 || b == 95
        || b == 46 || b == 126
}

/// The upper-case hexadecimal digit of a value below 16.
pub open spec fn hex_digit(n: u8) -> char {
    if n < 10 {
        (48 + n) as u8 as char
    } else {
        (55 + n) as u8 as char
    }
}

/// How one byte is written in a URL query.
pub open spec fn escape_byte(b: u8) -> Seq<char> {
    if is_unreserved(b) {
        seq![b as char]
    } else {
        seq!['%', hex_digit(b / 16), hex_digit(b % 16)]
    }
}

/// The percent-encoding of a byte string.
pub open spec fn percent_encoded(bytes: Seq<u8>) -> Seq<char>
    decreases bytes.len(),
{
    if bytes.len() == 0 {
        Seq::empty()
    } else {
        percent_encoded(bytes.drop_last()) + escape_byte(bytes.last())
    }
}

/// The percent-encoding of a text's UTF-8 bytes.
pub open spec fn url_encoded(s: Seq<char>) -> Seq<char> {
    percent_encoded(encode_utf8(s))
}

fn hex_digit_char(n: u8) -> (r: char)
    requires
        n < 16,
    ensures
        r == hex_digit(n),
{
    if n < 10 {
        (48 + n) as char
    } else {
        (55 + n) as char
    }
}

/// Percent-encodes a text for a URL query: unreserved ASCII characters stand
/// for themselves, every other UTF-8 byte is written `%XX`.
pub fn encode(s: &str) -> (r: String)
    ensures
        r@ == url_encoded(s@),
{
    let bytes = s.as_bytes();
    let mut out = String::new();
    let mut i: usize = 0;
    while i < bytes.len()
        invariant
            i <= bytes@.len(),
            bytes@ == encode_utf8(s@),
            out@ == percent_encoded(bytes@.take(i as int)),
        decreases bytes.len() - i,
    {
        let b = bytes[i];
        assert(bytes@.take(i + 1).drop_last() =~= bytes@.take(i as int));
        let ghost before = out@;
        if (65 <= b && b <= 90) || (97 <= b && b <= 122) || (48 <= b && b <= 57) || b == 45
            || b == 95 || b == 46 || b == 126 {
            out.push(b as char);
        } else {
            out.push('%');
            out.push(hex_digit_char(b / 16));
            out.push(hex_digit_char(b % 16));
        }
        assert(out@ =~= before + escape_byte(b));
        i = i + 1;
    }
    assert(bytes@.take(bytes@.len() as int) =~= bytes@);
    out
}

/// The query parameters that select where a fetch starts: after the
/// checkpoint's own record, or at the start of the current boot.
pub open spec fn position_params(cursor: Option<Seq<char>>) -> Seq<Seq<char>> {
    match cursor {
        Some(c) => seq!["cursor="@ + url_encoded(c), "skip=1"@],
        None => seq!["boot"@],
    }
}

/// One query parameter for each unit name filter.
pub open spec fn unit_params(units: Seq<Seq<char>>) -> Seq<Seq<char>> {
    units.map_values(|u: Seq<char>| "_SYSTEMD_UNIT="@ + url_encoded(u))
}

/// Query parameters joined by `&`.
pub open spec fn joined(parts: Seq<Seq<char>>) -> Seq<char>
    decreases parts.len(),
{
    if parts.len() == 0 {
        Seq::empty()
    } else if parts.len() == 1 {
        parts[0]
    } else {
        joined(parts.drop_last()) + seq!['&'] + parts.last()
    }
}

/// The URL of an entries query.
pub open spec fn entries_url_of(base: Seq<char>, cursor: Option<Seq<char>>, units: Seq<Seq<char>>) -> Seq<char> {
    base + "/entries?"@ + joined(position_params(cursor) + unit_params(units))
}

/// The value of the `Range` header that caps a response at `n` entries.
pub open spec fn range_of(n: nat) -> Seq<char> {
    "entries=:"@ + decimal(n)
}

/// Where a gatewayd source is queried, and for which units.
pub struct JournalClient {
    base_url: String,
    units: Vec<String>,
}

pub open spec fn strings_view(v: Seq<String>) -> Seq<Seq<char>> {
    v.map_values(|s: String| s@)
}

impl JournalClient {
    pub closed spec fn base_url_spec(&self) -> Seq<char> {
        self.base_url@
    }

    pub closed spec fn units_spec(&self) -> Seq<Seq<char>> {
        strings_view(self.units@)
    }

    /// A client of the source at `base_url` (without its trailing slashes),
    /// filtered to `units` where that is not empty.
    pub fn new(base_url: &str, units: Vec<String>) -> (r: JournalClient)
        ensures
            r.base_url_spec() == without_trailing_slashes(base_url@),
            r.units_spec() == strings_view(units@),
    {
        JournalClient { base_url: trim_trailing_slashes(base_url), units }
    }

    /// The URL that fetches the entries after `cursor`, or those of the
    /// current boot when there is no cursor.
    pub fn entries_url(&self, cursor: Option<&str>) -> (r: String)
        ensures
            r@ == entries_url_of(
                self.base_url_spec(),
                match cursor {
                    Some(c) => Some(c@),
                    None => None,
                },
                self.units_spec(),
            ),
    {
        let ghost pos = position_params(
            match cursor {
                Some(c) => Some(c@),
                None => None,
            },
        );
        let ghost params = pos + unit_params(self.units_spec());
        let mut url = self.base_url.clone();
        url.push_str("/entries?");
        let ghost head = url@;
        match cursor {
            Some(c) => {
                url.push_str("cursor=");
                let e = encode(c);
                url.push_str(e.as_str());
                url.push('&');
                url.push_str("skip=1");
                assert(params.take(2) =~= pos);
                assert(pos.take(1).drop_last() =~= Seq::<Seq<char>>::empty());
                assert(pos.drop_last() =~= pos.take(1));
                assert(joined(pos.take(1)) == pos[0]);
                assert(url@ =~= head + joined(params.take(2)));
            },
            None => {
                url.push_str("boot");
                assert(params.take(1) =~= pos);
                assert(url@ =~= head + joined(params.take(1)));
            },
        }
        let n: usize = match cursor {
            Some(_) => 2,
            None => 1,
        };
        let mut i: usize = 0;
        while i < self.units.len()
            invariant
                i <= self.units@.len(),
                n == pos.len(),
                n >= 1,
                params == pos + unit_params(self.units_spec()),
                params.len() == n + self.units@.len(),
                url@ == head + joined(params.take(n + i)),
            decreases self.units.len() - i,
        {
            let ghost before = url@;
            url.push('&');
            url.push_str("_SYSTEMD_UNIT=");
            let e = encode(self.units[i].as_str());
            url.push_str(e.as_str());
            assert(params.take(n + i + 1).drop_last() =~= params.take(n + i));
            assert(params[n + i] == "_SYSTEMD_UNIT="@ + url_encoded(self.units@[i as int]@));
            assert(params.take(n + i + 1).last() == params[n + i]);
            assert(joined(params.take(n + i + 1)) == joined(params.take(n + i)) + seq!['&']
                + params[n + i]);
            assert(url@ =~= before + seq!['&'] + params[n + i]);
            assert(url@ =~= head + joined(params.take(n + i + 1)));
            i = i + 1;
        }
        assert(params.take(n + self.units@.len()) =~= params);
        url
    }
}

/// The `Range` header value that caps a response at `batch_size` entries.
pub fn range_header(batch_size: usize) -> (r: String)
    ensures
        r@ == range_of(batch_size as nat),
{
    let mut h = owned("entries=:");
    let d = decimal_text(batch_size as u128);
    h.push_str(d.as_str());
    h
}

/// Why a fetch failed.
#[derive(Debug)]
pub enum JournalError {
    /// The request could not be made or its response not read.
    Http(String),
    /// The checkpoint cursor is no longer valid (410 Gone).
    InvalidCursor,
    /// Any other unexpected status.
    ServerError { status: u16 },
}

/// What a gatewayd response means: the entries of a 200 body, nothing for
/// 204, an invalid checkpoint for 410, and a server error for any other
/// status.
pub fn decode_response(status: u16, body: &str) -> (r: Result<Vec<JournalEntry>, JournalError>)
    ensures
        status == 200 ==> (r matches Ok(es) && entries_view(es@) == entries_of_body(body@)),
        status == 204 ==> (r matches Ok(es) && es@.len() == 0),
        status == 410 ==> (r matches Err(JournalError::InvalidCursor)),
        status != 200 && status != 204 && status != 410 ==> (r matches Err(
            JournalError::ServerError { status: s },
        ) && s == status),
{
    if status == 200 {
        Ok(parse_entries(body))
    } else if status == 204 {
        Ok(Vec::new())
    } else if status == 410 {
        Err(JournalError::InvalidCursor)
    } else {
        Err(JournalError::ServerError { status })
    }
}


/// An array of byte values (each below 256) stands for exactly those bytes.
pub proof fn lemma_bytes_of_byte_values(items: Seq<Option<u64>>)
    requires
        forall|i: int| 0 <= i < items.len() ==> (#[trigger] items[i] matches Some(n) && n < 256),
    ensures
        bytes_of(items) == items.map_values(|x: Option<u64>| x->0 as u8),
    decreases items.len(),
{
    if items.len() > 0 {
        let prev = items.drop_last();
        assert forall|i: int| 0 <= i < prev.len() implies (#[trigger] prev[i] matches Some(n) && n
            < 256) by {
            assert(prev[i] == items[i]);
        }
        lemma_bytes_of_byte_values(prev);
        assert(items[items.len() - 1] matches Some(n) && n < 256);
        assert(items.map_values(|x: Option<u64>| x->0 as u8) =~= prev.map_values(
            |x: Option<u64>| x->0 as u8,
        ).push(items.last()->0 as u8));
    } else {
        assert(items.map_values(|x: Option<u64>| x->0 as u8) =~= Seq::<u8>::empty());
    }
}

/// A record whose message is an array of byte values yields, as the
/// entry's message, the lossy UTF-8 decoding of exactly those bytes.
pub proof fn lemma_byte_array_message(ms: Seq<(Seq<char>, FieldModel)>, items: Seq<Option<u64>>)
    requires
        member(ms, "MESSAGE"@) == Some(FieldModel::Array(items)),
        forall|i: int| 0 <= i < items.len() ==> (#[trigger] items[i] matches Some(n) && n < 256),
        decode_entry(ms) is Some,
    ensures
        decode_entry(ms)->0.message == utf8_lossy(items.map_values(|x: Option<u64>| x->0 as u8)),
{
    lemma_bytes_of_byte_values(items);
}


} // verus!
