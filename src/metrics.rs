//! Per-source counters and gauges of poll cycles, and their Prometheus
//! text exposition. The HTTP endpoint that serves them is the caller's.

use vstd::prelude::*;
use core::time::Duration;
use crate::otlp::unix_time_nanos;
use crate::text::{chars_of, decimal, decimal_text, digit_char, owned, same_text};

verus! {

/// Why the metrics endpoint could not be started.
#[derive(Debug)]
pub enum MetricsError {
    Bind(std::io::Error),
}

/// How one character of a label value is written.
pub open spec fn escape_char(c: char) -> Seq<char> {
    if c == '\\' {
        seq!['\\', '\\']
    } else if c == '"' {
        seq!['\\', '"']
    } else if c == '\n' {
        seq!['\\', 'n']
    } else {
        seq![c]
    }
}

/// A label value with backslash, double quote and newline escaped.
pub open spec fn escaped(s: Seq<char>) -> Seq<char>
    decreases s.len(),
{
    if s.len() == 0 {
        Seq::empty()
    } else {
        escaped(s.drop_last()) + escape_char(s.last())
    }
}

/// Escape special characters in label values
pub fn escape_label(s: &str) -> (r: String)
    ensures
        r@ == escaped(s@),
{
    let cs = chars_of(s);
    let mut out = String::new();
    let mut i: usize = 0;
    while i < cs.len()
        invariant
            i <= cs@.len(),
            cs@ == s@,
            out@ == escaped(cs@.take(i as int)),
        decreases cs.len() - i,
    {
        let c = cs[i];
        let ghost before = out@;
        if c == '\\' {
            out.push('\\');
            out.push('\\');
        } else if c == '"' {
            out.push('\\');
            out.push('"');
        } else if c == '\n' {
            out.push('\\');
            out.push('n');
        } else {
            out.push(c);
        }
        assert(cs@.take(i + 1).drop_last() =~= cs@.take(i as int));
        assert(out@ =~= before + escape_char(c));
        i = i + 1;
    }
    assert(cs@.take(cs@.len() as int) =~= cs@);
    out
}

/// Metrics for a single source
#[derive(Debug, Clone)]
pub struct SourceMetrics {
    pub entries_forwarded: u64,
    /// Error label and count, each label once, in the order first counted.
    pub poll_errors: Vec<(String, u64)>,
    /// When the last cycle completed, in nanoseconds since the Unix epoch.
    pub last_poll_timestamp: Option<u64>,
    /// How long the last completed cycle took, in nanoseconds.
    pub last_poll_duration: Option<u64>,
}

/// The mathematical value of a [`SourceMetrics`].
pub struct SourceModel {
    pub entries_forwarded: u64,
    pub poll_errors: Seq<(Seq<char>, u64)>,
    pub last_poll_timestamp: Option<u64>,
    pub last_poll_duration: Option<u64>,
}

pub open spec fn counts_view(v: Seq<(String, u64)>) -> Seq<(Seq<char>, u64)> {
    v.map_values(|p: (String, u64)| (p.0@, p.1))
}

impl View for SourceMetrics {
    type V = SourceModel;

    open spec fn view(&self) -> SourceModel {
        SourceModel {
            entries_forwarded: self.entries_forwarded,
            poll_errors: counts_view(self.poll_errors@),
            last_poll_timestamp: self.last_poll_timestamp,
            last_poll_duration: self.last_poll_duration,
        }
    }
}

/// The metrics of a source that nothing was recorded for yet.
pub open spec fn fresh_source() -> SourceModel {
    SourceModel {
        entries_forwarded: 0,
        poll_errors: Seq::empty(),
        last_poll_timestamp: None,
        last_poll_duration: None,
    }
}

/// Position of the first occurrence of a key.
pub open spec fn key_index(keys: Seq<Seq<char>>, key: Seq<char>) -> Option<int>
    decreases keys.len(),
{
    if keys.len() == 0 {
        None
    } else {
        match key_index(keys.drop_last(), key) {
            Some(i) => Some(i),
            None => if keys.last() == key {
                Some(keys.len() - 1)
            } else {
                None
            },
        }
    }
}

pub open spec fn keys_of<V>(v: Seq<(Seq<char>, V)>) -> Seq<Seq<char>> {
    v.map_values(|p: (Seq<char>, V)| p.0)
}

/// An error count raised by one for `label`, which is added if new.
pub open spec fn count_error(v: Seq<(Seq<char>, u64)>, label: Seq<char>) -> Seq<(Seq<char>, u64)> {
    match key_index(keys_of(v), label) {
        Some(i) => v.update(i, (label, sat_inc(v[i].1))),
        None => v.push((label, 1)),
    }
}

pub open spec fn sat_inc(n: u64) -> u64 {
    if n == u64::MAX {
        n
    } else {
        (n + 1) as u64
    }
}

pub open spec fn sat_add(a: u64, b: u64) -> u64 {
    if a + b > u64::MAX {
        u64::MAX
    } else {
        (a + b) as u64
    }
}

/// The per-source table with the metrics of `source` changed by `f`; a
/// source seen for the first time starts fresh.
pub open spec fn with_source(
    v: Seq<(Seq<char>, SourceModel)>,
    source: Seq<char>,
    f: spec_fn(SourceModel) -> SourceModel,
) -> Seq<(Seq<char>, SourceModel)> {
    match key_index(keys_of(v), source) {
        Some(i) => v.update(i, (source, f(v[i].1))),
        None => v.push((source, f(fresh_source()))),
    }
}

/// The per-source table after a completed poll of `source`.
pub open spec fn after_poll(
    v: Seq<(Seq<char>, SourceModel)>,
    source: Seq<char>,
    timestamp: u64,
    duration: u64,
) -> Seq<(Seq<char>, SourceModel)> {
    with_source(
        v,
        source,
        |m: SourceModel|
            SourceModel {
                entries_forwarded: m.entries_forwarded,
                poll_errors: m.poll_errors,
                last_poll_timestamp: Some(timestamp),
                last_poll_duration: Some(duration),
            },
    )
}

/// Metrics of all sources, each source once, in the order first recorded.
#[derive(Debug, Clone)]
pub struct MetricsState {
    sources: Vec<(String, SourceMetrics)>,
}

pub open spec fn sources_view(v: Seq<(String, SourceMetrics)>) -> Seq<(Seq<char>, SourceModel)> {
    v.map_values(|p: (String, SourceMetrics)| (p.0@, p.1@))
}

proof fn lemma_key_index_bounds(keys: Seq<Seq<char>>, key: Seq<char>)
    ensures
        key_index(keys, key) matches Some(i) ==> 0 <= i < keys.len() && keys[i] == key,
        key_index(keys, key) is None ==> forall|j: int| 0 <= j < keys.len() ==> keys[j] != key,
    decreases keys.len(),
{
    if keys.len() > 0 {
        lemma_key_index_bounds(keys.drop_last(), key);
        assert forall|j: int| 0 <= j < keys.len() - 1 implies keys.drop_last()[j] == keys[j] by {}
    }
}

proof fn lemma_key_index_extends(keys: Seq<Seq<char>>, key: Seq<char>, k: int, i: int)
    requires
        0 <= k <= keys.len(),
        key_index(keys.take(k), key) == Some(i),
    ensures
        key_index(keys, key) == Some(i),
    decreases keys.len() - k,
{
    if k == keys.len() {
        assert(keys.take(k) =~= keys);
    } else {
        assert(keys.take(k + 1).drop_last() =~= keys.take(k));
        lemma_key_index_extends(keys, key, k + 1, i);
    }
}

/// Finds the first entry with that key.
fn find_key<V>(v: &Vec<(String, V)>, key: &str) -> (r: Option<usize>)
    ensures
        r matches Some(i) ==> key_index(v@.map_values(|p: (String, V)| p.0@), key@) == Some(
            i as int,
        ),
        r is None ==> key_index(v@.map_values(|p: (String, V)| p.0@), key@) is None,
{
    let ghost keys = v@.map_values(|p: (String, V)| p.0@);
    let mut i: usize = 0;
    while i < v.len()
        invariant
            i <= v@.len(),
            keys == v@.map_values(|p: (String, V)| p.0@),
            key_index(keys.take(i as int), key@) is None,
        decreases v.len() - i,
    {
        assert(keys.take(i + 1).drop_last() =~= keys.take(i as int));
        if same_text(v[i].0.as_str(), key) {
            proof {
                lemma_key_index_extends(keys, key@, i + 1, i as int);
            }
            return Some(i);
        }
        i = i + 1;
    }
    assert(keys.take(v@.len() as int) =~= keys);
    None
}

/// Relies on `Duration::as_nanos`: the duration in nanoseconds, saturated at
/// `u64::MAX`.
#[verifier::external_body]
fn duration_nanos(d: Duration) -> (r: u64) {
    u64::try_from(d.as_nanos()).unwrap_or(u64::MAX)
}

/// Three decimal digits of a value below 1000, zero-padded.
pub open spec fn three_digits(n: nat) -> Seq<char> {
    seq![digit_char(n / 100), digit_char((n / 10) % 10), digit_char(n % 10)]
}

/// Nanoseconds as seconds with three decimals, rounded to the nearest millisecond.
pub open spec fn seconds_text(nanos: u64) -> Seq<char> {
    let ms = (nanos as nat + 500000) / 1000000;
    decimal(ms / 1000) + seq!['.'] + three_digits(ms % 1000)
}

pub open spec fn forwarded_line(name: Seq<char>, m: SourceModel) -> Seq<char> {
    "ojgf_entries_forwarded_total{source=\""@ + escaped(name) + "\"} "@ + decimal(
        m.entries_forwarded as nat,
    ) + "\n"@
}

pub open spec fn error_lines(name: Seq<char>, errors: Seq<(Seq<char>, u64)>) -> Seq<char>
    decreases errors.len(),
{
    if errors.len() == 0 {
        Seq::empty()
    } else {
        error_lines(name, errors.drop_last()) + "ojgf_poll_errors_total{source=\""@ + escaped(name)
            + "\",error=\""@ + escaped(errors.last().0) + "\"} "@ + decimal(
            errors.last().1 as nat,
        ) + "\n"@
    }
}

pub open spec fn gauge_line(metric: Seq<char>, name: Seq<char>, value: Option<u64>) -> Seq<char> {
    match value {
        Some(v) => metric + "{source=\""@ + escaped(name) + "\"} "@ + seconds_text(v) + "\n"@,
        None => Seq::empty(),
    }
}

/// The lines of one source in one section of the exposition.
pub open spec fn metric_lines(section: int, name: Seq<char>, m: SourceModel) -> Seq<char> {
    if section == 0 {
        forwarded_line(name, m)
    } else if section == 1 {
        error_lines(name, m.poll_errors)
    } else if section == 2 {
        gauge_line("ojgf_last_poll_timestamp_seconds"@, name, m.last_poll_timestamp)
    } else {
        gauge_line("ojgf_poll_duration_seconds"@, name, m.last_poll_duration)
    }
}

/// The lines of all sources in one section.
pub open spec fn section_lines(v: Seq<(Seq<char>, SourceModel)>, section: int) -> Seq<char>
    decreases v.len(),
{
    if v.len() == 0 {
        Seq::empty()
    } else {
        section_lines(v.drop_last(), section) + metric_lines(section, v.last().0, v.last().1)
    }
}

/// The Prometheus text exposition of the metrics of all sources.
pub open spec fn exposition(v: Seq<(Seq<char>, SourceModel)>) -> Seq<char> {
    "# HELP ojgf_entries_forwarded_total Total journal entries forwarded\n"@
        + "# TYPE ojgf_entries_forwarded_total counter\n"@ + section_lines(v, 0)
        + "# HELP ojgf_poll_errors_total Total poll errors\n"@
        + "# TYPE ojgf_poll_errors_total counter\n"@ + section_lines(v, 1)
        + "# HELP ojgf_last_poll_timestamp_seconds Timestamp of last successful poll\n"@
        + "# TYPE ojgf_last_poll_timestamp_seconds gauge\n"@ + section_lines(v, 2)
        + "# HELP ojgf_poll_duration_seconds Duration of last poll cycle\n"@
        + "# TYPE ojgf_poll_duration_seconds gauge\n"@ + section_lines(v, 3)
}

fn digit(d: u128) -> (r: char)
    requires
        d < 10,
    ensures
        r == digit_char(d as nat),
{
    if d == 0 {
        '0'
    } else if d == 1 {
        '1'
    } else if d == 2 {
        '2'
    } else if d == 3 {
        '3'
    } else if d == 4 {
        '4'
    } else if d == 5 {
        '5'
    } else if d == 6 {
        '6'
    } else if d == 7 {
        '7'
    } else if d == 8 {
        '8'
    } else {
        '9'
    }
}

fn push_seconds(out: &mut String, nanos: u64)
    ensures
        final(out)@ == old(out)@ + seconds_text(nanos),
{
    let ms: u128 = (nanos as u128 + 500000) / 1000000;
    let secs = decimal_text(ms / 1000);
    out.push_str(secs.as_str());
    out.push('.');
    let frac = ms % 1000;
    out.push(digit(frac / 100));
    out.push(digit((frac / 10) % 10));
    out.push(digit(frac % 10));
}

fn push_label(out: &mut String, value: &str)
    ensures
        final(out)@ == old(out)@ + escaped(value@),
{
    let e = escape_label(value);
    out.push_str(e.as_str());
}

fn push_error_lines(out: &mut String, name: &str, errors: &Vec<(String, u64)>)
    ensures
        final(out)@ == old(out)@ + error_lines(name@, counts_view(errors@)),
{
    let ghost start = out@;
    let ghost ev = counts_view(errors@);
    let mut i: usize = 0;
    assert(ev.take(0) =~= Seq::<(Seq<char>, u64)>::empty());
    assert(out@ =~= start + error_lines(name@, ev.take(0)));
    while i < errors.len()
        invariant
            i <= errors@.len(),
            ev == counts_view(errors@),
            out@ == start + error_lines(name@, ev.take(i as int)),
        decreases errors.len() - i,
    {
        assert(ev.take(i + 1).drop_last() =~= ev.take(i as int));
        out.push_str("ojgf_poll_errors_total{source=\"");
        push_label(out, name);
        out.push_str("\",error=\"");
        push_label(out, errors[i].0.as_str());
        out.push_str("\"} ");
        let n = decimal_text(errors[i].1 as u128);
        out.push_str(n.as_str());
        out.push_str("\n");
        assert(out@ =~= start + error_lines(name@, ev.take(i + 1)));
        i = i + 1;
    }
    assert(ev.take(errors@.len() as int) =~= ev);
}

fn push_gauge_line(out: &mut String, metric: &str, name: &str, value: Option<u64>)
    ensures
        final(out)@ == old(out)@ + gauge_line(metric@, name@, value),
{
    match value {
        Some(v) => {
            out.push_str(metric);
            out.push_str("{source=\"");
            push_label(out, name);
            out.push_str("\"} ");
            push_seconds(out, v);
            out.push_str("\n");
        },
        None => {
            assert(out@ =~= out@ + Seq::<char>::empty());
        },
    }
}

fn push_metric_lines(out: &mut String, section: u8, name: &str, m: &SourceMetrics)
    ensures
        final(out)@ == old(out)@ + metric_lines(section as int, name@, m@),
{
    if section == 0 {
        out.push_str("ojgf_entries_forwarded_total{source=\"");
        push_label(out, name);
        out.push_str("\"} ");
        let n = decimal_text(m.entries_forwarded as u128);
        out.push_str(n.as_str());
        out.push_str("\n");
    } else if section == 1 {
        push_error_lines(out, name, &m.poll_errors);
    } else if section == 2 {
        push_gauge_line(out, "ojgf_last_poll_timestamp_seconds", name, m.last_poll_timestamp);
    } else {
        push_gauge_line(out, "ojgf_poll_duration_seconds", name, m.last_poll_duration);
    }
}

fn push_section(out: &mut String, section: u8, sources: &Vec<(String, SourceMetrics)>)
    ensures
        final(out)@ == old(out)@ + section_lines(sources_view(sources@), section as int),
{
    let ghost start = out@;
    let ghost sv = sources_view(sources@);
    let mut i: usize = 0;
    assert(sv.take(0) =~= Seq::<(Seq<char>, SourceModel)>::empty());
    assert(out@ =~= start + section_lines(sv.take(0), section as int));
    while i < sources.len()
        invariant
            i <= sources@.len(),
            sv == sources_view(sources@),
            out@ == start + section_lines(sv.take(i as int), section as int),
        decreases sources.len() - i,
    {
        assert(sv.take(i + 1).drop_last() =~= sv.take(i as int));
        push_metric_lines(out, section, sources[i].0.as_str(), &sources[i].1);
        assert(out@ =~= start + section_lines(sv.take(i + 1), section as int));
        i = i + 1;
    }
    assert(sv.take(sources@.len() as int) =~= sv);
}

impl MetricsState {
    /// The metrics of each source, in the order first recorded.
    pub closed spec fn table(&self) -> Seq<(Seq<char>, SourceModel)> {
        sources_view(self.sources@)
    }

    pub fn new() -> (r: MetricsState)
        ensures
            r.table() == Seq::<(Seq<char>, SourceModel)>::empty(),
    {
        let r = MetricsState { sources: Vec::new() };
        assert(r.table() =~= Seq::<(Seq<char>, SourceModel)>::empty());
        r
    }

    /// The position of a source's metrics, added fresh for a new source.
    fn slot(&mut self, source: &str) -> (r: usize)
        ensures
            r < final(self).sources@.len(),
            final(self).sources@.len() == final(self).table().len(),
            final(self).sources@[r as int].0@ == source@,
            match key_index(keys_of(old(self).table()), source@) {
                Some(i) => r == i && final(self).table() == old(self).table(),
                None => r == old(self).table().len() && final(self).table() == old(
                    self,
                ).table().push((source@, fresh_source())),
            },
    {
        assert(keys_of(self.table()) =~= self.sources@.map_values(
            |p: (String, SourceMetrics)| p.0@,
        ));
        proof {
            lemma_key_index_bounds(keys_of(self.table()), source@);
        }
        match find_key(&self.sources, source) {
            Some(i) => {
                assert(keys_of(self.table())[i as int] == self.sources@[i as int].0@);
                i
            },
            None => {
                let ghost before = self.sources@;
                let fresh = SourceMetrics {
                    entries_forwarded: 0,
                    poll_errors: Vec::new(),
                    last_poll_timestamp: None,
                    last_poll_duration: None,
                };
                assert(counts_view(fresh.poll_errors@) =~= Seq::empty());
                self.sources.push((owned(source), fresh));
                assert(self.table() =~= sources_view(before).push((source@, fresh_source())));
                self.sources.len() - 1
            },
        }
    }

    /// Record forwarded entries
    pub fn record_forwarded(&mut self, source: &str, count: u64)
        ensures
            final(self).table() == with_source(
                old(self).table(),
                source@,
                |m: SourceModel|
                    SourceModel {
                        entries_forwarded: sat_add(m.entries_forwarded, count),
                        poll_errors: m.poll_errors,
                        last_poll_timestamp: m.last_poll_timestamp,
                        last_poll_duration: m.last_poll_duration,
                    },
            ),
    {
        let i = self.slot(source);
        let ghost mid = self.sources@;
        let n = self.sources[i].1.entries_forwarded.saturating_add(count);
        self.sources[i].1.entries_forwarded = n;
        assert(self.table() =~= sources_view(mid).update(
            i as int,
            (source@, SourceModel { entries_forwarded: n, ..sources_view(mid)[i as int].1 }),
        ));
    }
    /// Record a poll error
    pub fn record_error(&mut self, source: &str, error_type: &str)
        ensures
            final(self).table() == with_source(
                old(self).table(),
                source@,
                |m: SourceModel|
                    SourceModel {
                        entries_forwarded: m.entries_forwarded,
                        poll_errors: count_error(m.poll_errors, error_type@),
                        last_poll_timestamp: m.last_poll_timestamp,
                        last_poll_duration: m.last_poll_duration,
                    },
            ),
    {
        let i = self.slot(source);
        let ghost mid = self.sources@;
        let ghost errs = counts_view(mid[i as int].1.poll_errors@);
        proof {
            lemma_key_index_bounds(keys_of(errs), error_type@);
        }
        assert(keys_of(errs) =~= self.sources@[i as int].1.poll_errors@.map_values(
            |p: (String, u64)| p.0@,
        ));
        match find_key(&self.sources[i].1.poll_errors, error_type) {
            Some(j) => {
                let c = self.sources[i].1.poll_errors[j].1;
                let c2 = if c == u64::MAX {
                    c
                } else {
                    c + 1
                };
                self.sources[i].1.poll_errors[j].1 = c2;
                assert(counts_view(self.sources@[i as int].1.poll_errors@) =~= errs.update(
                    j as int,
                    (error_type@, c2),
                ));
            },
            None => {
                self.sources[i].1.poll_errors.push((owned(error_type), 1));
                assert(counts_view(self.sources@[i as int].1.poll_errors@) =~= errs.push(
                    (error_type@, 1),
                ));
            },
        }
        assert(self.table() =~= sources_view(mid).update(
            i as int,
            (
                source@,
                SourceModel {
                    poll_errors: count_error(errs, error_type@),
                    ..sources_view(mid)[i as int].1
                },
            ),
        ));
    }

    /// Record a completed poll that ended at `timestamp` (nanoseconds since
    /// the Unix epoch) and took `duration` nanoseconds.
    pub fn record_poll_at(&mut self, source: &str, timestamp: u64, duration: u64)
        ensures
            final(self).table() == after_poll(old(self).table(), source@, timestamp, duration),
    {
        let i = self.slot(source);
        let ghost mid = self.sources@;
        self.sources[i].1.last_poll_timestamp = Some(timestamp);
        self.sources[i].1.last_poll_duration = Some(duration);
        assert(self.table() =~= sources_view(mid).update(
            i as int,
            (
                source@,
                SourceModel {
                    last_poll_timestamp: Some(timestamp),
                    last_poll_duration: Some(duration),
                    ..sources_view(mid)[i as int].1
                },
            ),
        ));
    }

    /// Record successful poll, ending now.
    pub fn record_poll(&mut self, source: &str, duration: Duration)
        ensures
            exists|timestamp: u64, nanos: u64|
                final(self).table() == #[trigger] after_poll(
                    old(self).table(),
                    source@,
                    timestamp,
                    nanos,
                ),
    {
        let timestamp = unix_time_nanos();
        let nanos = duration_nanos(duration);
        self.record_poll_at(source, timestamp, nanos);
    }

    /// Generate Prometheus metrics output
    pub fn render(&self) -> (r: String)
        ensures
            r@ == exposition(self.table()),
    {
        let mut output = String::new();
        output.push_str("# HELP ojgf_entries_forwarded_total Total journal entries forwarded\n");
        output.push_str("# TYPE ojgf_entries_forwarded_total counter\n");
        push_section(&mut output, 0, &self.sources);
        output.push_str("# HELP ojgf_poll_errors_total Total poll errors\n");
        output.push_str("# TYPE ojgf_poll_errors_total counter\n");
        push_section(&mut output, 1, &self.sources);
        output.push_str(
            "# HELP ojgf_last_poll_timestamp_seconds Timestamp of last successful poll\n",
        );
        output.push_str("# TYPE ojgf_last_poll_timestamp_seconds gauge\n");
        push_section(&mut output, 2, &self.sources);
        output.push_str("# HELP ojgf_poll_duration_seconds Duration of last poll cycle\n");
        output.push_str("# TYPE ojgf_poll_duration_seconds gauge\n");
        push_section(&mut output, 3, &self.sources);
        output
    }
}

} // verus!
