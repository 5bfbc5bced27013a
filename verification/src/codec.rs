//! The event codec: raw file-system notifications, the timestamped
//! structured event built from them, and its JSON wire form.
//!
//! A notification carries a kind and the affected paths. Encoding
//! attaches the wall-clock capture time; serialization produces one
//! JSON object, `{"event":{"kind":...,"paths":[...]},"timestamp":...}`,
//! whose exact character sequence is pinned down by `notify_event_json`.
//! The timestamp is kept as whole seconds plus nanoseconds and written
//! as a decimal with nine fractional digits, so sub-second precision
//! is retained without any floating-point value in the library.

use vstd::prelude::*;

verus! {

/// The kind of a file-system change, as the notification mechanism
/// reports it.
#[derive(Clone, Copy, Debug, PartialEq, Eq, Structural)]
pub enum FsEventKind {
    Create,
    Modify,
    Remove,
    Rename,
    Other,
}

/// A raw notification: a kind and the affected paths.
pub struct FsEvent {
    pub kind: FsEventKind,
    pub paths: Vec<String>,
}

/// A capture time: whole seconds since the Unix epoch and the
/// sub-second nanoseconds.
#[derive(Clone, Copy, Debug, PartialEq, Eq, Structural)]
pub struct Timestamp {
    pub secs: u64,
    pub nanos: u32,
}

impl Timestamp {
    /// The nanosecond part never reaches a whole second.
    pub open spec fn wf(&self) -> bool {
        self.nanos < 1_000_000_000
    }
}

/// A structured event: the notification together with its capture
/// time. Immutable once constructed.
pub struct NotifyEvent {
    pub event: FsEvent,
    pub timestamp: Timestamp,
}

/// The label the wire form uses for each event kind.
pub open spec fn kind_label(k: FsEventKind) -> Seq<char> {
    match k {
        FsEventKind::Create => "create"@,
        FsEventKind::Modify => "modify"@,
        FsEventKind::Remove => "remove"@,
        FsEventKind::Rename => "rename"@,
        FsEventKind::Other => "other"@,
    }
}

/// The lower-case hexadecimal digit for a value below sixteen.
pub open spec fn hex_digit(n: nat) -> char {
    if n == 0 { '0' } else if n == 1 { '1' } else if n == 2 { '2' } else if n == 3 { '3' }
    else if n == 4 { '4' } else if n == 5 { '5' } else if n == 6 { '6' } else if n == 7 { '7' }
    else if n == 8 { '8' } else if n == 9 { '9' } else if n == 10 { 'a' } else if n == 11 { 'b' }
    else if n == 12 { 'c' } else if n == 13 { 'd' } else if n == 14 { 'e' } else { 'f' }
}

/// How one character appears inside a JSON string literal: the quote
/// and the backslash are escaped, the five named control characters
/// get their short escapes, the remaining ASCII control characters
/// are written as `\u00` plus two lower-case hex digits, and every
/// other character stands as itself.
pub open spec fn escape_char(c: char) -> Seq<char> {
    if c == '"' { seq!['\\', '"'] }
    else if c == '\\' { seq!['\\', '\\'] }
    else if c == '\u{8}' { seq!['\\', 'b'] }
    else if c == '\t' { seq!['\\', 't'] }
    else if c == '\n' { seq!['\\', 'n'] }
    else if c == '\u{c}' { seq!['\\', 'f'] }
    else if c == '\r' { seq!['\\', 'r'] }
    else if (c as u32) < 32 {
        seq!['\\', 'u', '0', '0', hex_digit((c as u32 / 16) as nat), hex_digit((c as u32 % 16) as nat)]
    } else {
        seq![c]
    }
}

/// A character sequence with every character escaped for JSON.
pub open spec fn escape_seq(s: Seq<char>) -> Seq<char>
    decreases s.len(),
{
    if s.len() == 0 {
        Seq::empty()
    } else {
        escape_char(s[0]) + escape_seq(s.drop_first())
    }
}

/// The JSON string literal for a character sequence: quoted and
/// escaped.
pub open spec fn json_string(s: Seq<char>) -> Seq<char> {
    seq!['"'] + escape_seq(s) + seq!['"']
}

/// The decimal digit character for a value below ten.
pub open spec fn digit_char(d: nat) -> char {
    if d == 0 { '0' } else if d == 1 { '1' } else if d == 2 { '2' } else if d == 3 { '3' }
    else if d == 4 { '4' } else if d == 5 { '5' } else if d == 6 { '6' } else if d == 7 { '7' }
    else if d == 8 { '8' } else { '9' }
}

/// The ordinary decimal notation of a natural number, without leading
/// zeros (a lone zero for zero itself).
pub open spec fn dec_rep(n: nat) -> Seq<char>
    decreases n,
{
    if n < 10 {
        seq![digit_char(n)]
    } else {
        dec_rep(n / 10) + seq![digit_char(n % 10)]
    }
}

/// The decimal notation of `n` padded with leading zeros to exactly
/// `width` digits (the lowest `width` digits, should `n` be wider).
pub open spec fn padded_dec(n: nat, width: nat) -> Seq<char>
    decreases width,
{
    if width == 0 {
        Seq::empty()
    } else {
        padded_dec(n / 10, (width - 1) as nat) + seq![digit_char(n % 10)]
    }
}

/// The wire form of the capture time: seconds, a dot, and nine
/// fractional digits.
pub open spec fn timestamp_chars(t: Timestamp) -> Seq<char> {
    dec_rep(t.secs as nat) + seq!['.'] + padded_dec(t.nanos as nat, 9)
}

/// The wire form of the path list: the JSON string literals of the
/// paths, comma-separated.
pub open spec fn paths_json(paths: Seq<Seq<char>>) -> Seq<char>
    decreases paths.len(),
{
    if paths.len() == 0 {
        Seq::empty()
    } else if paths.len() == 1 {
        json_string(paths[0])
    } else {
        paths_json(paths.drop_last()) + seq![','] + json_string(paths.last())
    }
}

/// The wire form of a raw notification: kind label and path list.
pub open spec fn event_json(e: FsEvent) -> Seq<char> {
    "{\"kind\":\""@ + kind_label(e.kind) + "\",\"paths\":["@
        + paths_json(e.paths@.map_values(|p: String| p@)) + "]}"@
}

/// The whole wire form of a structured event.
pub open spec fn notify_event_json(e: NotifyEvent) -> Seq<char> {
    "{\"event\":"@ + event_json(e.event) + ",\"timestamp\":"@ + timestamp_chars(e.timestamp)
        + "}"@
}

/// The kind label as an executable string.
pub fn kind_name(k: FsEventKind) -> (r: &'static str)
    ensures
        r@ == kind_label(k),
{
    match k {
        FsEventKind::Create => "create",
        FsEventKind::Modify => "modify",
        FsEventKind::Remove => "remove",
        FsEventKind::Rename => "rename",
        FsEventKind::Other => "other",
    }
}

/// Relies on serde_json::to_string on a string slice: it writes the
/// slice as a JSON string literal, quoting it and escaping exactly the
/// quote, the backslash, and the ASCII control characters (`\b`, `\t`,
/// `\n`, `\f`, `\r` for those five, `\u00` plus two lower-case hex
/// digits for the rest); on a string slice serialization cannot fail.
#[verifier::external_body]
fn json_escape(s: &str) -> (r: String)
    ensures
        r@ == json_string(s@),
{
    match serde_json::to_string(s) {
        Ok(t) => t,
        Err(_) => String::new(),
    }
}

/// The decimal digit as an executable one-character string.
fn digit_str(d: u64) -> (r: &'static str)
    requires
        d < 10,
    ensures
        r@ == seq![digit_char(d as nat)],
{
    if d == 0 {
        proof { reveal_strlit("0"); assert("0"@ =~= seq![digit_char(0)]); }
        "0"
    } else if d == 1 {
        proof { reveal_strlit("1"); assert("1"@ =~= seq![digit_char(1)]); }
        "1"
    } else if d == 2 {
        proof { reveal_strlit("2"); assert("2"@ =~= seq![digit_char(2)]); }
        "2"
    } else if d == 3 {
        proof { reveal_strlit("3"); assert("3"@ =~= seq![digit_char(3)]); }
        "3"
    } else if d == 4 {
        proof { reveal_strlit("4"); assert("4"@ =~= seq![digit_char(4)]); }
        "4"
    } else if d == 5 {
        proof { reveal_strlit("5"); assert("5"@ =~= seq![digit_char(5)]); }
        "5"
    } else if d == 6 {
        proof { reveal_strlit("6"); assert("6"@ =~= seq![digit_char(6)]); }
        "6"
    } else if d == 7 {
        proof { reveal_strlit("7"); assert("7"@ =~= seq![digit_char(7)]); }
        "7"
    } else if d == 8 {
        proof { reveal_strlit("8"); assert("8"@ =~= seq![digit_char(8)]); }
        "8"
    } else {
        proof { reveal_strlit("9"); assert("9"@ =~= seq![digit_char(9)]); }
        "9"
    }
}

/// The decimal notation of `n`, verified against `dec_rep`.
fn u64_to_dec(n: u64) -> (r: String)
    ensures
        r@ == dec_rep(n as nat),
    decreases n,
{
    if n < 10 {
        String::from_str(digit_str(n))
    } else {
        let prefix = u64_to_dec(n / 10);
        prefix.concat(digit_str(n % 10))
    }
}

/// The zero-padded decimal notation of `n`, verified against
/// `padded_dec`.
fn u32_to_padded_dec(n: u32, width: u32) -> (r: String)
    ensures
        r@ == padded_dec(n as nat, width as nat),
    decreases width,
{
    if width == 0 {
        String::new()
    } else {
        let prefix = u32_to_padded_dec(n / 10, width - 1);
        prefix.concat(digit_str((n % 10) as u64))
    }
}

impl NotifyEvent {
    /// Serialize the event to its JSON wire form. The encoding is
    /// total: every structured event has a wire form, so no
    /// serialization failure path exists.
    pub fn serialize(&self) -> (r: String)
        ensures
            r@ == notify_event_json(*self),
    {
        let ghost mapped = self.event.paths@.map_values(|p: String| p@);
        let mut r = String::from_str("{\"event\":{\"kind\":\"");
        r.append(kind_name(self.event.kind));
        r.append("\",\"paths\":[");
        let ghost head = "{\"event\":"@ + "{\"kind\":\""@ + kind_label(self.event.kind)
            + "\",\"paths\":["@;
        proof {
            reveal_strlit("{\"event\":");
            reveal_strlit("{\"event\":{\"kind\":\"");
            reveal_strlit("{\"kind\":\"");
            assert(r@ =~= head);
        }
        let mut i: usize = 0;
        let n = self.event.paths.len();
        while i < n
            invariant
                n == self.event.paths@.len(),
                0 <= i <= n,
                mapped == self.event.paths@.map_values(|p: String| p@),
                r@ == head + paths_json(mapped.take(i as int)),
            decreases n - i,
        {
            if i > 0 {
                r.append(",");
                proof {
                    reveal_strlit(",");
                }
            }
            let escaped = json_escape(self.event.paths[i].as_str());
            r.append(escaped.as_str());
            proof {
                assert(mapped.take(i + 1).drop_last() =~= mapped.take(i as int));
                assert(mapped.take(i + 1).last() == mapped[i as int]);
                if i == 0 {
                    assert(paths_json(mapped.take(1)) == json_string(mapped[0]));
                    assert(r@ =~= head + paths_json(mapped.take(1)));
                } else {
                    assert(paths_json(mapped.take(i + 1)) == paths_json(mapped.take(i as int))
                        + seq![','] + json_string(mapped[i as int]));
                    assert(r@ =~= head + paths_json(mapped.take(i + 1)));
                }
            }
            i += 1;
        }
        proof {
            assert(mapped.take(n as int) =~= mapped);
        }
        r.append("]},\"timestamp\":");
        let secs = u64_to_dec(self.timestamp.secs);
        r.append(secs.as_str());
        r.append(".");
        let nanos = u32_to_padded_dec(self.timestamp.nanos, 9);
        r.append(nanos.as_str());
        r.append("}");
        proof {
            reveal_strlit("]},\"timestamp\":");
            reveal_strlit("]}");
            reveal_strlit(",\"timestamp\":");
            reveal_strlit(".");
            reveal_strlit("}");
            assert(r@ =~= notify_event_json(*self));
        }
        r
    }
}

/// Relies on std::time::SystemTime::now and duration_since from the
/// Unix epoch: the wall-clock time as whole seconds plus sub-second
/// nanoseconds, which are always below one billion; a clock standing
/// before the epoch yields the epoch itself.
#[verifier::external_body]
fn now_timestamp() -> (t: Timestamp)
    ensures
        t.wf(),
{
    match std::time::SystemTime::now().duration_since(std::time::UNIX_EPOCH) {
        Ok(d) => Timestamp { secs: d.as_secs(), nanos: d.subsec_nanos() },
        Err(_) => Timestamp { secs: 0, nanos: 0 },
    }
}

/// Encode a raw notification as a structured event, attaching the
/// wall-clock capture time. Total: every notification is encoded.
pub fn convert_event(event: FsEvent) -> (r: NotifyEvent)
    ensures
        r.event == event,
        r.timestamp.wf(),
{
    let timestamp = now_timestamp();
    NotifyEvent { event, timestamp }
}

/// Encode a raw notification with a caller-supplied capture time;
/// the structured event holds exactly that notification and time.
pub fn encode_at(event: FsEvent, timestamp: Timestamp) -> (r: NotifyEvent)
    ensures
        r.event == event,
        r.timestamp == timestamp,
{
    NotifyEvent { event, timestamp }
}

} // verus!
