//! The registry record that a running daemon writes for its fingerprint,
//! its on-disk text format, and the two-factor liveness test.
use vstd::prelude::*;
use crate::decimal::{dec_spec, lemma_canonical_unique, lemma_dec_round_trip, parse_decimal, to_decimal};
use crate::paths::{join, join_spec};
use crate::shell::{export_block, export_block_spec, Dialect};
use crate::text::same_text;

verus! {

/// Whether `c` may stand unquoted in a shell assignment: no whitespace, no
/// quote, and none of the characters that start an expansion or end a
/// command.
pub open spec fn is_safe_char(c: char) -> bool {
    !(c == ' ' || c == '\t' || c == '\n' || c == '\r' || c == '\'' || c == '"' || c == '$' || c
        == '`' || c == '\\' || c == ';' || c == '&' || c == '|' || c == '<' || c == '>' || c == '('
        || c == ')')
}

/// Whether every character of `s` is safe.
pub open spec fn is_safe_text(s: Seq<char>) -> bool {
    forall|i: int| 0 <= i < s.len() ==> is_safe_char(#[trigger] s[i])
}

fn safe_char(c: char) -> (r: bool)
    ensures
        r == is_safe_char(c),
{
    !(c == ' ' || c == '\t' || c == '\n' || c == '\r' || c == '\'' || c == '"' || c == '$' || c
        == '`' || c == '\\' || c == ';' || c == '&' || c == '|' || c == '<' || c == '>' || c == '('
        || c == ')')
}

/// What a record says, as mathematical values.
pub struct RecordModel {
    pub fingerprint: Seq<char>,
    pub pid: nat,
    pub process_start_time: nat,
    pub http_endpoint: Seq<char>,
    pub grpc_endpoint: Seq<char>,
    pub unix_socket_path: Seq<char>,
    pub created_at: nat,
}

impl RecordModel {
    /// Numbers fit their fields and every text is safe to print unquoted.
    pub open spec fn wf(self) -> bool {
        &&& self.pid <= u32::MAX
        &&& self.process_start_time <= u64::MAX
        &&& self.created_at <= u64::MAX
        &&& is_safe_text(self.fingerprint)
        &&& is_safe_text(self.http_endpoint)
        &&& is_safe_text(self.grpc_endpoint)
        &&& is_safe_text(self.unix_socket_path)
    }
}

/// The description of a running daemon: its identity, its process and its
/// endpoints.
#[derive(Debug)]
pub struct DaemonRecord {
    pub fingerprint: String,
    pub pid: u32,
    /// Start time of the process, to tell it from a later process that
    /// reuses the pid.
    pub process_start_time: u64,
    pub http_endpoint: String,
    pub grpc_endpoint: String,
    pub unix_socket_path: String,
    pub created_at: u64,
}

impl View for DaemonRecord {
    type V = RecordModel;

    open spec fn view(&self) -> RecordModel {
        RecordModel {
            fingerprint: self.fingerprint@,
            pid: self.pid as nat,
            process_start_time: self.process_start_time as nat,
            http_endpoint: self.http_endpoint@,
            grpc_endpoint: self.grpc_endpoint@,
            unix_socket_path: self.unix_socket_path@,
            created_at: self.created_at as nat,
        }
    }
}

/// One line of the record: `key=value`.
pub open spec fn field_line(key: Seq<char>, value: Seq<char>) -> Seq<char> {
    key + "="@ + value + "\n"@
}

/// Line `i` of a record's text; the lines come in this order.
pub open spec fn record_line(m: RecordModel, i: nat) -> Seq<char> {
    if i == 0 {
        field_line("fingerprint"@, m.fingerprint)
    } else if i == 1 {
        field_line("pid"@, dec_spec(m.pid))
    } else if i == 2 {
        field_line("process_start_time"@, dec_spec(m.process_start_time))
    } else if i == 3 {
        field_line("http_endpoint"@, m.http_endpoint)
    } else if i == 4 {
        field_line("grpc_endpoint"@, m.grpc_endpoint)
    } else if i == 5 {
        field_line("unix_socket_path"@, m.unix_socket_path)
    } else {
        field_line("created_at"@, dec_spec(m.created_at))
    }
}

/// Lines `i` to the last of a record's text.
pub open spec fn record_suffix(m: RecordModel, i: nat) -> Seq<char>
    decreases 7 - i,
{
    if i >= 7 {
        Seq::empty()
    } else {
        record_line(m, i) + record_suffix(m, i + 1)
    }
}

/// A record's text, unfolded line by line.
proof fn lemma_record_unfold(m: RecordModel)
    ensures
        record_suffix(m, 7) == Seq::<char>::empty(),
        record_suffix(m, 6) == record_line(m, 6) + record_suffix(m, 7),
        record_suffix(m, 6) == record_line(m, 6),
        record_suffix(m, 5) == record_line(m, 5) + record_suffix(m, 6),
        record_suffix(m, 4) == record_line(m, 4) + record_suffix(m, 5),
        record_suffix(m, 3) == record_line(m, 3) + record_suffix(m, 4),
        record_suffix(m, 2) == record_line(m, 2) + record_suffix(m, 3),
        record_suffix(m, 1) == record_line(m, 1) + record_suffix(m, 2),
        record_suffix(m, 0) == record_line(m, 0) + record_suffix(m, 1),
{
    assert(record_suffix(m, 7) == Seq::<char>::empty());
    assert(record_suffix(m, 6) == record_line(m, 6) + record_suffix(m, 7));
    assert(record_suffix(m, 6) =~= record_line(m, 6));
    assert(record_suffix(m, 5) == record_line(m, 5) + record_suffix(m, 6));
    assert(record_suffix(m, 4) == record_line(m, 4) + record_suffix(m, 5));
    assert(record_suffix(m, 3) == record_line(m, 3) + record_suffix(m, 4));
    assert(record_suffix(m, 2) == record_line(m, 2) + record_suffix(m, 3));
    assert(record_suffix(m, 1) == record_line(m, 1) + record_suffix(m, 2));
    assert(record_suffix(m, 0) == record_line(m, 0) + record_suffix(m, 1));
}

/// The text of a record: its seven lines in order.
pub open spec fn record_text(m: RecordModel) -> Seq<char> {
    record_suffix(m, 0)
}

/// Whether `s` starts with the line `key=value` followed by `rest`, with a
/// safe value.
pub open spec fn splits_field(s: Seq<char>, key: Seq<char>, value: Seq<char>, rest: Seq<char>) -> bool {
    is_safe_text(value) && s == field_line(key, value) + rest
}

/// A line of the record is determined by its start: a safe value holds no
/// line break, so the value ends at the first one.
pub proof fn lemma_field_unique(
    s: Seq<char>,
    key: Seq<char>,
    v1: Seq<char>,
    r1: Seq<char>,
    v2: Seq<char>,
    r2: Seq<char>,
)
    requires
        splits_field(s, key, v1, r1),
        splits_field(s, key, v2, r2),
    ensures
        v1 == v2,
        r1 == r2,
{
    reveal_strlit("=");
    reveal_strlit("\n");
    let k = key.len() as int;
    if v1.len() < v2.len() {
        assert(s[k + 1 + v1.len()] == '\n');
        assert(s[k + 1 + v1.len()] == v2[v1.len() as int]);
        assert(is_safe_char(v2[v1.len() as int]));
    } else if v2.len() < v1.len() {
        assert(s[k + 1 + v2.len()] == '\n');
        assert(s[k + 1 + v2.len()] == v1[v2.len() as int]);
        assert(is_safe_char(v1[v2.len() as int]));
    }
    assert(v1 =~= s.subrange(k + 1, k + 1 + v1.len()));
    assert(v2 =~= s.subrange(k + 1, k + 1 + v2.len()));
    assert(r1 =~= s.subrange(k + 2 + v1.len(), s.len() as int));
    assert(r2 =~= s.subrange(k + 2 + v2.len(), s.len() as int));
}

/// Reads the line `key=value` at the start of `s`, returning the value and
/// the text after the line.
fn take_field<'a>(s: &'a str, key: &str) -> (r: Option<(String, &'a str)>)
    ensures
        r matches Some((v, rest)) ==> splits_field(s@, key@, v@, rest@),
        r is None ==> forall|v: Seq<char>, rest: Seq<char>| !splits_field(s@, key@, v, rest),
{
    proof {
        reveal_strlit("=");
        reveal_strlit("\n");
    }
    let n = s.unicode_len();
    let k = key.unicode_len();
    if k >= n {
        proof {
            assert forall|v: Seq<char>, rest: Seq<char>| !splits_field(s@, key@, v, rest) by {
                if splits_field(s@, key@, v, rest) {
                    assert(s@.len() >= k + 2);
                }
            }
        }
        return None;
    }
    if !same_text(s.substring_char(0, k), key) || s.get_char(k) != '=' {
        proof {
            assert forall|v: Seq<char>, rest: Seq<char>| !splits_field(s@, key@, v, rest) by {
                if splits_field(s@, key@, v, rest) {
                    assert(s@.subrange(0, k as int) =~= key@);
                    assert(s@[k as int] == '=');
                }
            }
        }
        return None;
    }
    let mut j: usize = k + 1;
    while j < n && s.get_char(j) != '\n'
        invariant
            n == s@.len(),
            k < n,
            k == key@.len(),
            s@.subrange(0, k as int) == key@,
            s@[k as int] == '=',
            k + 1 <= j <= n,
            forall|t: int| k + 1 <= t < j ==> is_safe_char(#[trigger] s@[t]),
        decreases n - j,
    {
        let c = s.get_char(j);
        if !safe_char(c) {
            proof {
                assert forall|v: Seq<char>, rest: Seq<char>| !splits_field(s@, key@, v, rest) by {
                    if splits_field(s@, key@, v, rest) {
                        let e = k + 1 + v.len() as int;
                        let line = field_line(key@, v);
                        reveal_strlit("=");
                        reveal_strlit("\n");
                        assert("="@.len() == 1);
                        assert("\n"@ == seq!['\n']);
                        assert(line.len() == k + v.len() + 2);
                        assert(s@[e] == line[e]);
                        assert(s@[e] == '\n');
                        if e < j {
                            assert(is_safe_char(s@[e]));
                        } else if e > j {
                            assert(s@[j as int] == line[j as int]);
                            assert(s@[j as int] == v[j - k - 1]);
                        }
                    }
                }
            }
            return None;
        }
        j = j + 1;
    }
    if j == n {
        proof {
            assert forall|v: Seq<char>, rest: Seq<char>| !splits_field(s@, key@, v, rest) by {
                if splits_field(s@, key@, v, rest) {
                    let e = k + 1 + v.len() as int;
                    assert(s@[e] == '\n');
                    assert(is_safe_char(s@[e]));
                }
            }
        }
        return None;
    }
    let v = String::from_str(s.substring_char(k + 1, j));
    let rest = s.substring_char(j + 1, n);
    proof {
        assert(is_safe_text(v@)) by {
            assert forall|i: int| 0 <= i < v@.len() implies is_safe_char(#[trigger] v@[i]) by {
                assert(v@[i] == s@[k + 1 + i]);
            }
        }
        assert(s@ =~= field_line(key@, v@) + rest@);
    }
    Some((v, rest))
}

/// Reads a canonical decimal field value that fits in 64 bits.
fn number_field(t: &String) -> (r: Option<u64>)
    ensures
        r matches Some(x) ==> dec_spec(x as nat) == t@,
        (exists|x: nat| x <= u64::MAX && dec_spec(x) == t@) ==> r is Some,
{
    let r = parse_decimal(t.as_str());
    proof {
        if let Some(x) = r {
            lemma_canonical_unique(t@);
        }
        if exists|x: nat| x <= u64::MAX && dec_spec(x) == t@ {
            let x = choose|x: nat| x <= u64::MAX && dec_spec(x) == t@;
            lemma_dec_round_trip(x);
        }
    }
    r
}

/// Renders a record as text.
pub fn render_record(rec: &DaemonRecord) -> (r: String)
    ensures
        r@ == record_text(rec@),
{
    let mut r = String::new();
    push_field(&mut r, "fingerprint", rec.fingerprint.as_str());
    let pid = to_decimal(rec.pid as u64);
    push_field(&mut r, "pid", pid.as_str());
    let start = to_decimal(rec.process_start_time);
    push_field(&mut r, "process_start_time", start.as_str());
    push_field(&mut r, "http_endpoint", rec.http_endpoint.as_str());
    push_field(&mut r, "grpc_endpoint", rec.grpc_endpoint.as_str());
    push_field(&mut r, "unix_socket_path", rec.unix_socket_path.as_str());
    let created = to_decimal(rec.created_at);
    push_field(&mut r, "created_at", created.as_str());
    proof {
        let m = rec@;
        lemma_record_unfold(m);
        assert(r@ =~= record_text(m));
    }
    r
}

fn push_field(out: &mut String, key: &str, value: &str)
    ensures
        final(out)@ == old(out)@ + field_line(key@, value@),
{
    out.append(key);
    out.append("=");
    out.append(value);
    out.append("\n");
}

/// Reads the line `key=value` of a text field.
fn text_step<'a>(
    s: &'a str,
    key: &str,
    Ghost(m): Ghost<Option<RecordModel>>,
    Ghost(i): Ghost<nat>,
    Ghost(want): Ghost<Seq<char>>,
) -> (r: Option<(String, &'a str)>)
    requires
        m matches Some(mm) ==> splits_field(s@, key@, want, record_suffix(mm, i + 1)),
    ensures
        r matches Some((v, rest)) ==> splits_field(s@, key@, v@, rest@),
        m matches Some(mm) ==> (r matches Some((v, rest)) && v@ == want && rest@ == record_suffix(
            mm,
            i + 1,
        )),
{
    let r = take_field(s, key);
    proof {
        if let Some(mm) = m {
            if let Some((v, rest)) = &r {
                lemma_field_unique(s@, key@, v@, rest@, want, record_suffix(mm, i + 1));
            }
        }
    }
    r
}

/// Parses the text of a record. Text that is not exactly the rendering of a
/// well-formed record, such as a partial or corrupt file, yields `None`.
pub fn parse_record(text: &str) -> (r: Option<DaemonRecord>)
    ensures
        r matches Some(rec) ==> rec@.wf() && record_text(rec@) == text@,
        forall|m: RecordModel|
            m.wf() && record_text(m) == text@ ==> (r matches Some(rec) && rec@ == m),
{
    let ghost good = exists|m: RecordModel| m.wf() && record_text(m) == text@;
    let ghost gm: Option<RecordModel> = if good {
        Some(choose|m: RecordModel| m.wf() && record_text(m) == text@)
    } else {
        None
    };
    proof {
        if let Some(m) = gm {
            lemma_dec_round_trip(m.pid);
            lemma_dec_round_trip(m.process_start_time);
            lemma_dec_round_trip(m.created_at);
            lemma_record_unfold(m);
        }
    }
    let ghost w0 = match gm { Some(m) => m.fingerprint, None => Seq::empty() };
    let (fingerprint, r1) = match text_step(text, "fingerprint", Ghost(gm), Ghost(0), Ghost(w0)) {
        Some(x) => x,
        None => return None,
    };
    let ghost w1 = match gm { Some(m) => dec_spec(m.pid), None => Seq::empty() };
    let (pid_text, r2) = match text_step(r1, "pid", Ghost(gm), Ghost(1), Ghost(w1)) {
        Some(x) => x,
        None => return None,
    };
    let ghost w2 = match gm { Some(m) => dec_spec(m.process_start_time), None => Seq::empty() };
    let (start_text, r3) = match text_step(r2, "process_start_time", Ghost(gm), Ghost(2), Ghost(w2)) {
        Some(x) => x,
        None => return None,
    };
    let ghost w3 = match gm { Some(m) => m.http_endpoint, None => Seq::empty() };
    let (http_endpoint, r4) = match text_step(r3, "http_endpoint", Ghost(gm), Ghost(3), Ghost(w3)) {
        Some(x) => x,
        None => return None,
    };
    let ghost w4 = match gm { Some(m) => m.grpc_endpoint, None => Seq::empty() };
    let (grpc_endpoint, r5) = match text_step(r4, "grpc_endpoint", Ghost(gm), Ghost(4), Ghost(w4)) {
        Some(x) => x,
        None => return None,
    };
    let ghost w5 = match gm { Some(m) => m.unix_socket_path, None => Seq::empty() };
    let (unix_socket_path, r6) = match text_step(r5, "unix_socket_path", Ghost(gm), Ghost(5), Ghost(w5)) {
        Some(x) => x,
        None => return None,
    };
    let ghost w6 = match gm { Some(m) => dec_spec(m.created_at), None => Seq::empty() };
    let (created_text, r7) = match text_step(r6, "created_at", Ghost(gm), Ghost(6), Ghost(w6)) {
        Some(x) => x,
        None => return None,
    };
    if r7.unicode_len() != 0 {
        return None;
    }
    let pid = match number_field(&pid_text) {
        Some(x) => x,
        None => return None,
    };
    if pid > 4294967295 {
        proof {
            if let Some(g) = gm {
                lemma_dec_round_trip(pid as nat);
                assert(pid as nat == g.pid);
            }
        }
        return None;
    }
    let process_start_time = match number_field(&start_text) {
        Some(x) => x,
        None => return None,
    };
    let created_at = match number_field(&created_text) {
        Some(x) => x,
        None => return None,
    };
    let rec = DaemonRecord {
        fingerprint,
        pid: pid as u32,
        process_start_time,
        http_endpoint,
        grpc_endpoint,
        unix_socket_path,
        created_at,
    };
    proof {
        let m = rec@;
        assert(r7@ =~= Seq::<char>::empty());
        lemma_record_unfold(m);
        assert(r6@ =~= record_suffix(m, 6));
        assert(text@ =~= record_text(m));
        if let Some(g) = gm {
            lemma_dec_round_trip(pid as nat);
            lemma_dec_round_trip(process_start_time as nat);
            lemma_dec_round_trip(created_at as nat);
            assert(m == g);
        }
        assert forall|mm: RecordModel| mm.wf() && record_text(mm) == text@ implies m == mm by {
            lemma_record_text_injective(m, mm);
        }
    }
    Some(rec)
}

/// Two well-formed records with the same text are the same record: the
/// text format loses nothing.
pub proof fn lemma_record_text_injective(a: RecordModel, b: RecordModel)
    requires
        a.wf(),
        b.wf(),
        record_text(a) == record_text(b),
    ensures
        a == b,
{
    lemma_dec_round_trip(a.pid);
    lemma_dec_round_trip(a.process_start_time);
    lemma_dec_round_trip(a.created_at);
    lemma_dec_round_trip(b.pid);
    lemma_dec_round_trip(b.process_start_time);
    lemma_dec_round_trip(b.created_at);
    lemma_record_unfold(a);
    lemma_record_unfold(b);
    lemma_field_unique(record_text(a), "fingerprint"@, a.fingerprint, record_suffix(a, 1), b.fingerprint, record_suffix(b, 1));
    lemma_field_unique(record_suffix(a, 1), "pid"@, dec_spec(a.pid), record_suffix(a, 2), dec_spec(b.pid), record_suffix(b, 2));
    lemma_field_unique(record_suffix(a, 2), "process_start_time"@, dec_spec(a.process_start_time), record_suffix(a, 3), dec_spec(b.process_start_time), record_suffix(b, 3));
    lemma_field_unique(record_suffix(a, 3), "http_endpoint"@, a.http_endpoint, record_suffix(a, 4), b.http_endpoint, record_suffix(b, 4));
    lemma_field_unique(record_suffix(a, 4), "grpc_endpoint"@, a.grpc_endpoint, record_suffix(a, 5), b.grpc_endpoint, record_suffix(b, 5));
    lemma_field_unique(record_suffix(a, 5), "unix_socket_path"@, a.unix_socket_path, record_suffix(a, 6), b.unix_socket_path, record_suffix(b, 6));
    lemma_field_unique(record_suffix(a, 6), "created_at"@, dec_spec(a.created_at), record_suffix(a, 7), dec_spec(b.created_at), record_suffix(b, 7));
}

/// The path of the record for `fingerprint` under the state root.
pub open spec fn record_path_spec(state_root: Seq<char>, fingerprint: Seq<char>) -> Seq<char> {
    join_spec(state_root, fingerprint + ".record"@)
}

/// The path of the record for `fingerprint` under `state_root`.
pub fn record_path(state_root: &str, fingerprint: &str) -> (r: String)
    ensures
        r@ == record_path_spec(state_root@, fingerprint@),
{
    let mut name = String::from_str(fingerprint);
    name.append(".record");
    join(state_root, name.as_str())
}

/// The statements that export a daemon's endpoints.
pub open spec fn exports_spec(d: Dialect, m: RecordModel) -> Seq<char> {
    export_block_spec(
        d,
        m.http_endpoint,
        m.grpc_endpoint,
        m.unix_socket_path,
        m.fingerprint,
        dec_spec(m.pid),
    )
}

impl DaemonRecord {
    /// Whether the recorded daemon is running: a process holds the pid
    /// (`observed_start` is its start time, none if no process holds it) and
    /// it started when the record says. A pid alone is not enough, since the
    /// system reuses pids.
    pub fn is_live(&self, observed_start: Option<u64>) -> (r: bool)
        ensures
            r == (observed_start == Some(self.process_start_time)),
    {
        match observed_start {
            Some(t) => t == self.process_start_time,
            None => false,
        }
    }

    /// The statements that export this daemon's endpoints in dialect `d`.
    pub fn render_exports(&self, d: Dialect) -> (r: String)
        ensures
            r@ == exports_spec(d, self@),
    {
        let pid = to_decimal(self.pid as u64);
        export_block(
            d,
            self.http_endpoint.as_str(),
            self.grpc_endpoint.as_str(),
            self.unix_socket_path.as_str(),
            self.fingerprint.as_str(),
            pid.as_str(),
        )
    }
}

} // verus!
