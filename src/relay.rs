//! The output relay: what is logged for each event that the backend process
//! emits, and when the relay stops reading.
use vstd::prelude::*;

verus! {

/// Severity of a relayed log line.
#[derive(Clone, Copy, Debug, PartialEq, Eq, Structural)]
pub enum LogLevel {
    Info,
    Error,
}

/// One line written to the host's log.
pub struct LogEntry {
    pub level: LogLevel,
    pub message: String,
}

impl View for LogEntry {
    type V = (LogLevel, Seq<char>);

    open spec fn view(&self) -> (LogLevel, Seq<char>) {
        (self.level, self.message@)
    }
}

/// How a process ended: its exit code, and the signal that ended it, where
/// the platform reports them.
#[derive(Clone, Copy, Debug, PartialEq, Eq, Structural)]
pub struct ExitStatus {
    pub code: Option<i32>,
    pub signal: Option<i32>,
}

/// An event of a spawned process's event stream.
pub enum ProcessEvent {
    /// A line written to standard output, as raw bytes.
    Stdout(Vec<u8>),
    /// A line written to standard error, as raw bytes.
    Stderr(Vec<u8>),
    /// An error reported while spawning the process or reading its pipes.
    Error(String),
    /// The process ended.
    Terminated(ExitStatus),
    /// Any other kind of event; it is not relayed.
    Other,
}

/// What the relay does with one event: the line to log, if any, and whether
/// to go on reading the stream.
pub struct RelayStep {
    pub entry: Option<LogEntry>,
    pub keep_reading: bool,
}

/// The text that lossy UTF-8 decoding gives for `bytes`.
pub uninterp spec fn utf8_lossy(bytes: Seq<u8>) -> Seq<char>;

/// The character of a decimal digit.
pub open spec fn digit_char(d: nat) -> char {
    if d == 0 { '0' }
    else if d == 1 { '1' }
    else if d == 2 { '2' }
    else if d == 3 { '3' }
    else if d == 4 { '4' }
    else if d == 5 { '5' }
    else if d == 6 { '6' }
    else if d == 7 { '7' }
    else if d == 8 { '8' }
    else { '9' }
}

/// The decimal digits of `n`, most significant first, without leading zeros.
pub open spec fn nat_text(n: nat) -> Seq<char>
    decreases n,
{
    if n < 10 {
        seq![digit_char(n)]
    } else {
        nat_text(n / 10).push(digit_char(n % 10))
    }
}

/// `n` in decimal, with a leading minus sign when negative.
pub open spec fn int_text(n: int) -> Seq<char> {
    if n < 0 {
        seq!['-'] + nat_text((-n) as nat)
    } else {
        nat_text(n as nat)
    }
}

/// An optional number written as `Some(n)` or `None`.
pub open spec fn option_text(o: Option<i32>) -> Seq<char> {
    match o {
        Some(n) => "Some("@ + int_text(n as int) + ")"@,
        None => "None"@,
    }
}

/// The exit details written when the process ends, in the form the host
/// framework's termination payload has when debug-printed.
pub open spec fn exit_text(s: ExitStatus) -> Seq<char> {
    "TerminatedPayload { code: "@ + option_text(s.code) + ", signal: "@ + option_text(s.signal) + " }"@
}

/// Whether every byte is an ASCII character.
pub open spec fn all_ascii(bytes: Seq<u8>) -> bool {
    forall|i: int| 0 <= i < bytes.len() ==> bytes[i] < 128
}

/// ASCII bytes read as characters, one for one.
pub open spec fn ascii_text(bytes: Seq<u8>) -> Seq<char> {
    bytes.map_values(|b: u8| b as char)
}

/// The log line for an event, as level and text; `None` for an event that is
/// not relayed.
pub open spec fn entry_of(ev: ProcessEvent) -> Option<(LogLevel, Seq<char>)> {
    match ev {
        ProcessEvent::Stdout(line) => Some((LogLevel::Info, "[Backend STDOUT] "@ + utf8_lossy(line@))),
        ProcessEvent::Stderr(line) => Some((LogLevel::Error, "[Backend STDERR] "@ + utf8_lossy(line@))),
        ProcessEvent::Error(err) => Some((LogLevel::Error, "[Backend ERROR] "@ + err@)),
        ProcessEvent::Terminated(s) => Some((LogLevel::Info, "[Backend] Proceso terminado: "@ + exit_text(s))),
        ProcessEvent::Other => None,
    }
}

/// Whether the relay stops reading after this event.
pub open spec fn ends_relay(ev: ProcessEvent) -> bool {
    ev is Terminated
}

/// The log lines for a stream of events: each relayed event's line, in order,
/// up to and including the first event that ends the relay.
pub open spec fn relay_log(evs: Seq<ProcessEvent>) -> Seq<(LogLevel, Seq<char>)>
    decreases evs.len(),
{
    if evs.len() == 0 {
        Seq::empty()
    } else {
        let head = match entry_of(evs[0]) {
            Some(e) => seq![e],
            None => Seq::empty(),
        };
        if ends_relay(evs[0]) {
            head
        } else {
            head + relay_log(evs.drop_first())
        }
    }
}

/// The views of a sequence of log entries.
pub open spec fn entries_view(es: Seq<LogEntry>) -> Seq<(LogLevel, Seq<char>)> {
    es.map_values(|e: LogEntry| e@)
}

/// Relies on String::from_utf8_lossy: decodes `bytes` as UTF-8, each invalid
/// sequence becoming U+FFFD; bytes that are all ASCII come out as the same
/// characters.
#[verifier::external_body]
fn decode_lossy(bytes: &Vec<u8>) -> (r: String)
    ensures
        r@ == utf8_lossy(bytes@),
        all_ascii(bytes@) ==> r@ == ascii_text(bytes@),
{
    String::from_utf8_lossy(bytes.as_slice()).into_owned()
}

fn digit_str(d: u32) -> (r: &'static str)
    requires
        d < 10,
    ensures
        r@ == seq![digit_char(d as nat)],
{
    proof {
        reveal_strlit("0");
        reveal_strlit("1");
        reveal_strlit("2");
        reveal_strlit("3");
        reveal_strlit("4");
        reveal_strlit("5");
        reveal_strlit("6");
        reveal_strlit("7");
        reveal_strlit("8");
        reveal_strlit("9");
    }
    if d == 0 { "0" }
    else if d == 1 { "1" }
    else if d == 2 { "2" }
    else if d == 3 { "3" }
    else if d == 4 { "4" }
    else if d == 5 { "5" }
    else if d == 6 { "6" }
    else if d == 7 { "7" }
    else if d == 8 { "8" }
    else { "9" }
}

/// Appends the decimal digits of `n` to `s`.
fn push_nat(s: &mut String, n: u32)
    ensures
        final(s)@ == old(s)@ + nat_text(n as nat),
    decreases n,
{
    if n >= 10 {
        push_nat(s, n / 10);
    }
    s.append(digit_str(n % 10));
    assert(final(s)@ =~= old(s)@ + nat_text(n as nat));
}

/// Appends `n` in decimal to `s`.
fn push_int(s: &mut String, n: i32)
    ensures
        final(s)@ == old(s)@ + int_text(n as int),
{
    if n < 0 {
        proof {
            reveal_strlit("-");
        }
        s.append("-");
        let m: u32 = (-(n as i64)) as u32;
        push_nat(s, m);
        assert(final(s)@ =~= old(s)@ + int_text(n as int));
    } else {
        push_nat(s, n as u32);
    }
}

/// Appends `Some(n)` or `None` to `s`.
fn push_option(s: &mut String, o: Option<i32>)
    ensures
        final(s)@ == old(s)@ + option_text(o),
{
    match o {
        Some(n) => {
            s.append("Some(");
            push_int(s, n);
            s.append(")");
            assert(final(s)@ =~= old(s)@ + option_text(o));
        },
        None => {
            s.append("None");
        },
    }
}

/// The exit details of `status`, as written when the process ends.
pub fn exit_details(status: &ExitStatus) -> (r: String)
    ensures
        r@ == exit_text(*status),
{
    let mut s = String::from_str("TerminatedPayload { code: ");
    push_option(&mut s, status.code);
    s.append(", signal: ");
    push_option(&mut s, status.signal);
    s.append(" }");
    assert(s@ =~= exit_text(*status));
    s
}

/// Joins a prefix and a text into one message.
fn prefixed(prefix: &str, text: &str) -> (r: String)
    ensures
        r@ == prefix@ + text@,
{
    let mut s = String::from_str(prefix);
    s.append(text);
    s
}

/// Decides what to do with one event: which line to log, at which level, and
/// whether the relay reads on. Only the end of the process stops it.
pub fn relay_event(ev: &ProcessEvent) -> (r: RelayStep)
    ensures
        r.keep_reading == !ends_relay(*ev),
        match r.entry {
            Some(e) => entry_of(*ev) == Some(e@),
            None => entry_of(*ev) is None,
        },
        match *ev {
            ProcessEvent::Stdout(bytes) => all_ascii(bytes@) ==> (r.entry matches Some(e)
                && e@ == (LogLevel::Info, "[Backend STDOUT] "@ + ascii_text(bytes@))),
            ProcessEvent::Stderr(bytes) => all_ascii(bytes@) ==> (r.entry matches Some(e)
                && e@ == (LogLevel::Error, "[Backend STDERR] "@ + ascii_text(bytes@))),
            _ => true,
        },
{
    match ev {
        ProcessEvent::Stdout(line) => {
            let text = decode_lossy(line);
            let message = prefixed("[Backend STDOUT] ", text.as_str());
            RelayStep { entry: Some(LogEntry { level: LogLevel::Info, message }), keep_reading: true }
        },
        ProcessEvent::Stderr(line) => {
            let text = decode_lossy(line);
            let message = prefixed("[Backend STDERR] ", text.as_str());
            RelayStep { entry: Some(LogEntry { level: LogLevel::Error, message }), keep_reading: true }
        },
        ProcessEvent::Error(err) => {
            let message = prefixed("[Backend ERROR] ", err.as_str());
            RelayStep { entry: Some(LogEntry { level: LogLevel::Error, message }), keep_reading: true }
        },
        ProcessEvent::Terminated(status) => {
            let details = exit_details(status);
            let message = prefixed("[Backend] Proceso terminado: ", details.as_str());
            RelayStep { entry: Some(LogEntry { level: LogLevel::Info, message }), keep_reading: false }
        },
        ProcessEvent::Other => RelayStep { entry: None, keep_reading: true },
    }
}

/// Relays a finite stream of events: the lines logged, in order, until the
/// stream ends or an event stops the relay; later events are not read.
pub fn relay_events(events: &Vec<ProcessEvent>) -> (r: Vec<LogEntry>)
    ensures
        entries_view(r@) == relay_log(events@),
{
    let mut out: Vec<LogEntry> = Vec::new();
    let mut i: usize = 0;
    assert(events@.skip(0) =~= events@);
    assert(entries_view(out@) =~= Seq::<(LogLevel, Seq<char>)>::empty());
    while i < events.len()
        invariant
            i <= events@.len(),
            entries_view(out@) + relay_log(events@.skip(i as int)) == relay_log(events@),
        decreases events@.len() - i,
    {
        let step = relay_event(&events[i]);
        let ghost rest = events@.skip(i as int);
        assert(rest[0] == events@[i as int]);
        assert(rest.drop_first() =~= events@.skip(i + 1));
        let ghost before = out@;
        match step.entry {
            Some(e) => {
                out.push(e);
            },
            None => {},
        }
        let ghost head = match entry_of(rest[0]) {
            Some(e) => seq![e],
            None => Seq::<(LogLevel, Seq<char>)>::empty(),
        };
        assert(entries_view(out@) =~= entries_view(before) + head);
        if !step.keep_reading {
            assert(relay_log(rest) == head);
            assert(entries_view(out@) =~= relay_log(events@));
            return out;
        }
        assert(relay_log(rest) == head + relay_log(events@.skip(i + 1)));
        assert(entries_view(out@) + relay_log(events@.skip(i + 1)) =~= entries_view(before) + relay_log(rest));
        i = i + 1;
    }
    assert(events@.skip(i as int) =~= Seq::<ProcessEvent>::empty());
    assert(entries_view(out@) =~= relay_log(events@));
    out
}

/// Once the process has ended the relay reads no further: whatever follows
/// the first event that ends the relay adds nothing to the log.
pub proof fn lemma_relay_stops_at_end(pre: Seq<ProcessEvent>, end: ProcessEvent, rest: Seq<ProcessEvent>)
    requires
        ends_relay(end),
        forall|i: int| 0 <= i < pre.len() ==> !ends_relay(#[trigger] pre[i]),
    ensures
        relay_log(pre.push(end) + rest) == relay_log(pre.push(end)),
    decreases pre.len(),
{
    let s = pre.push(end) + rest;
    if pre.len() == 0 {
        assert(s[0] == end);
        assert(pre.push(end)[0] == end);
    } else {
        lemma_relay_stops_at_end(pre.drop_first(), end, rest);
        assert(s.drop_first() =~= pre.drop_first().push(end) + rest);
        assert(pre.push(end).drop_first() =~= pre.drop_first().push(end));
        assert(s[0] == pre[0]);
        assert(pre.push(end)[0] == pre[0]);
        assert(!ends_relay(pre[0]));
    }
}

} // verus!
