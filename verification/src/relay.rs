//! Log stream relay: turns raw lines read from a worker's stdout or
//! stderr pipe into structured log events.
//!
//! Each line is trimmed of surrounding whitespace, dropped when
//! nothing remains or when it is a noise line (an echoed source
//! fragment beginning with `print(`), and otherwise wrapped into a
//! `LogEvent`: level `info` for stdout, level `error` (with a distinct
//! message prefix) for stderr. The reader loops themselves live
//! outside the library and feed one line at a time; a failure to
//! deliver an event never touches worker state.

use vstd::prelude::*;
use vstd::string::StrSliceExecFns;
use vstd::string::StringExecFns;

use crate::clock::now_millis;
use crate::text::{
    is_space_char, lemma_trim_all_space, lemma_trim_nonspace_head, trim, trim_spec,
};
use crate::worker::WorkerName;

verus! {

/// Severity of a relayed log event.
#[derive(Clone, Copy, PartialEq, Eq, Structural, Debug)]
pub enum LogLevel {
    Info,
    Error,
}

/// One structured log event, as pushed to the shell's UI channel.
pub struct LogEvent {
    pub level: LogLevel,
    /// Trimmed, non-empty line text (stderr lines carry an `ERROR: `
    /// prefix).
    pub message: String,
    /// Milliseconds since the Unix epoch at which the line was
    /// relayed.
    pub timestamp: i64,
    /// Which worker's pipe the line came from.
    pub source: WorkerName,
}

/// The noise pattern the relay drops: a line whose trimmed text begins
/// with the literal token `print(`.
pub open spec fn spec_noise_prefixed(t: Seq<char>) -> bool {
    t.len() >= 6 && t[0] == 'p' && t[1] == 'r' && t[2] == 'i' && t[3] == 'n' && t[4] == 't'
        && t[5] == '('
}

/// What one raw line becomes: its trimmed text, or nothing when the
/// trimmed text is empty or noise.
pub open spec fn clean_line_spec(s: Seq<char>) -> Option<Seq<char>> {
    let t = trim_spec(s);
    if t.len() == 0 || spec_noise_prefixed(t) {
        None
    } else {
        Some(t)
    }
}

/// Executable noise test on an already-trimmed line.
fn noise_prefixed(t: &str) -> (r: bool)
    ensures
        r == spec_noise_prefixed(t@),
{
    let n = t.unicode_len();
    if n < 6 {
        return false;
    }
    t.get_char(0) == 'p' && t.get_char(1) == 'r' && t.get_char(2) == 'i' && t.get_char(3) == 'n'
        && t.get_char(4) == 't' && t.get_char(5) == '('
}

/// Trim one raw line and filter out empty and noise lines.
pub fn clean_line(line: &str) -> (r: Option<String>)
    ensures
        r is Some <==> clean_line_spec(line@) is Some,
        r is Some ==> r->0@ == clean_line_spec(line@)->0,
{
    let t = trim(line);
    if t.as_str().unicode_len() == 0 {
        return None;
    }
    if noise_prefixed(t.as_str()) {
        return None;
    }
    Some(t)
}

/// The message text of a stderr event for a cleaned line.
pub open spec fn spec_error_message(m: Seq<char>) -> Seq<char> {
    "ERROR: "@ + m
}

/// The event relayed for one raw stdout line, if any.
pub fn stdout_event(line: &str, timestamp: i64, source: WorkerName) -> (r: Option<LogEvent>)
    ensures
        r is Some <==> clean_line_spec(line@) is Some,
        r is Some ==> r->0.level is Info,
        r is Some ==> r->0.message@ == clean_line_spec(line@)->0,
        r is Some ==> r->0.timestamp == timestamp,
        r is Some ==> r->0.source == source,
{
    match clean_line(line) {
        Some(message) => Some(
            LogEvent { level: LogLevel::Info, message, timestamp, source },
        ),
        None => None,
    }
}

/// The event relayed for one raw stderr line, if any: level `error`,
/// message prefixed with `ERROR: `.
pub fn stderr_event(line: &str, timestamp: i64, source: WorkerName) -> (r: Option<LogEvent>)
    ensures
        r is Some <==> clean_line_spec(line@) is Some,
        r is Some ==> r->0.level is Error,
        r is Some ==> r->0.message@ == spec_error_message(clean_line_spec(line@)->0),
        r is Some ==> r->0.timestamp == timestamp,
        r is Some ==> r->0.source == source,
{
    match clean_line(line) {
        Some(cleaned) => {
            let mut message = String::from_str("ERROR: ");
            message.append(cleaned.as_str());
            Some(LogEvent { level: LogLevel::Error, message, timestamp, source })
        },
        None => None,
    }
}

/// `stdout_event` stamped with the current clock reading.
pub fn stdout_event_now(line: &str, source: WorkerName) -> (r: Option<LogEvent>)
    ensures
        r is Some <==> clean_line_spec(line@) is Some,
        r is Some ==> r->0.level is Info,
        r is Some ==> r->0.message@ == clean_line_spec(line@)->0,
        r is Some ==> r->0.source == source,
        r is Some ==> r->0.timestamp >= 0,
{
    let timestamp = now_millis();
    stdout_event(line, timestamp, source)
}

/// `stderr_event` stamped with the current clock reading.
pub fn stderr_event_now(line: &str, source: WorkerName) -> (r: Option<LogEvent>)
    ensures
        r is Some <==> clean_line_spec(line@) is Some,
        r is Some ==> r->0.level is Error,
        r is Some ==> r->0.message@ == spec_error_message(clean_line_spec(line@)->0),
        r is Some ==> r->0.source == source,
        r is Some ==> r->0.timestamp >= 0,
{
    let timestamp = now_millis();
    stderr_event(line, timestamp, source)
}

/// The messages the relay forwards for a sequence of raw lines from
/// one pipe, in the pipe's order.
pub open spec fn relay_messages(lines: Seq<Seq<char>>) -> Seq<Seq<char>>
    decreases lines.len(),
{
    if lines.len() == 0 {
        Seq::empty()
    } else {
        match clean_line_spec(lines[0]) {
            Some(m) => seq![m] + relay_messages(lines.drop_first()),
            None => relay_messages(lines.drop_first()),
        }
    }
}

proof fn lemma_relay_messages_push(lines: Seq<Seq<char>>, line: Seq<char>)
    ensures
        clean_line_spec(line) is Some ==> relay_messages(lines.push(line)) =~= relay_messages(
            lines,
        ).push(clean_line_spec(line)->0),
        clean_line_spec(line) is None ==> relay_messages(lines.push(line)) =~= relay_messages(
            lines,
        ),
    decreases lines.len(),
{
    let p = lines.push(line);
    if lines.len() == 0 {
        assert(p[0] == line);
        assert(p.drop_first() =~= Seq::<Seq<char>>::empty());
        assert(relay_messages(Seq::<Seq<char>>::empty()) == Seq::<Seq<char>>::empty());
        match clean_line_spec(line) {
            Some(m) => {
                assert(relay_messages(p) == seq![m] + relay_messages(p.drop_first()));
                assert(relay_messages(p) =~= relay_messages(lines).push(m));
            },
            None => {
                assert(relay_messages(p) =~= relay_messages(lines));
            },
        }
    } else {
        assert(p[0] == lines[0]);
        assert(p.drop_first() =~= lines.drop_first().push(line));
        lemma_relay_messages_push(lines.drop_first(), line);
        let rest = relay_messages(lines.drop_first());
        match clean_line_spec(line) {
            Some(m) => {
                assert(relay_messages(p.drop_first()) == rest.push(m));
                match clean_line_spec(lines[0]) {
                    Some(m0) => {
                        assert(relay_messages(p) == seq![m0] + rest.push(m));
                        assert(relay_messages(lines) == seq![m0] + rest);
                        assert(seq![m0] + rest.push(m) =~= (seq![m0] + rest).push(m));
                    },
                    None => {
                        assert(relay_messages(p) == rest.push(m));
                        assert(relay_messages(lines) == rest);
                    },
                }
            },
            None => {
                assert(relay_messages(p.drop_first()) == rest);
                match clean_line_spec(lines[0]) {
                    Some(m0) => {
                        assert(relay_messages(p) == seq![m0] + rest);
                        assert(relay_messages(lines) == seq![m0] + rest);
                    },
                    None => {
                        assert(relay_messages(p) == rest);
                        assert(relay_messages(lines) == rest);
                    },
                }
            },
        }
    }
}

/// Relay a whole batch of raw stdout lines into `info` events, all
/// stamped with the one timestamp given.
pub fn relay_stdout_lines(lines: &Vec<String>, timestamp: i64, source: WorkerName) -> (evs: Vec<
    LogEvent,
>)
    ensures
        evs@.map_values(|e: LogEvent| e.message@) == relay_messages(lines.deep_view()),
        forall|i: int|
            0 <= i < evs@.len() ==> evs@[i].level is Info && evs@[i].timestamp == timestamp
                && evs@[i].source == source,
{
    let mut evs: Vec<LogEvent> = Vec::new();
    let mut idx: usize = 0;
    while idx < lines.len()
        invariant
            0 <= idx <= lines@.len(),
            evs@.map_values(|e: LogEvent| e.message@) =~= relay_messages(
                lines.deep_view().take(idx as int),
            ),
            forall|i: int|
                0 <= i < evs@.len() ==> evs@[i].level is Info && evs@[i].timestamp == timestamp
                    && evs@[i].source == source,
        decreases lines@.len() - idx,
    {
        let ghost prefix = lines.deep_view().take(idx as int);
        let ghost old_evs = evs@;
        match stdout_event(lines[idx].as_str(), timestamp, source) {
            Some(e) => {
                evs.push(e);
            },
            None => {},
        }
        proof {
            lemma_relay_messages_push(prefix, lines.deep_view()[idx as int]);
            assert(prefix.push(lines.deep_view()[idx as int]) =~= lines.deep_view().take(
                idx + 1,
            ));
            if clean_line_spec(lines.deep_view()[idx as int]) is Some {
                assert(evs@.map_values(|e: LogEvent| e.message@) =~= old_evs.map_values(
                    |e: LogEvent| e.message@,
                ).push(evs@.last().message@));
            }
        }
        idx += 1;
    }
    proof {
        assert(lines.deep_view().take(lines@.len() as int) =~= lines.deep_view());
    }
    evs
}

/// Law (log fidelity): when a worker prints lines that all survive
/// cleaning, the relay forwards exactly one message per line, in the
/// original order.
pub proof fn lemma_log_fidelity(lines: Seq<Seq<char>>)
    requires
        forall|i: int| 0 <= i < lines.len() ==> clean_line_spec(lines[i]) is Some,
    ensures
        relay_messages(lines).len() == lines.len(),
        forall|i: int|
            0 <= i < lines.len() ==> relay_messages(lines)[i] == clean_line_spec(lines[i])->0,
    decreases lines.len(),
{
    if lines.len() > 0 {
        assert(clean_line_spec(lines[0]) is Some);
        assert(forall|i: int|
            0 <= i < lines.drop_first().len() ==> clean_line_spec(lines.drop_first()[i]) is Some);
        lemma_log_fidelity(lines.drop_first());
        assert forall|i: int|
            0 <= i < lines.len() implies relay_messages(lines)[i] == clean_line_spec(
            lines[i],
        )->0 by {
            if i > 0 {
                assert(lines.drop_first()[i - 1] == lines[i]);
            }
        }
    }
}

/// Law (filtering): a line of nothing but whitespace produces no
/// event, and neither does a line whose text begins with the literal
/// token `print(`.
pub proof fn lemma_blank_and_noise_filtered(s: Seq<char>)
    ensures
        (forall|j: int| 0 <= j < s.len() ==> is_space_char(s[j])) ==> clean_line_spec(s) is None,
        spec_noise_prefixed(s) ==> clean_line_spec(s) is None,
{
    if forall|j: int| 0 <= j < s.len() ==> is_space_char(s[j]) {
        lemma_trim_all_space(s);
    }
    if spec_noise_prefixed(s) {
        assert(!is_space_char(s[0]));
        lemma_trim_nonspace_head(s);
        let j = choose|j: int|
            0 < j <= s.len() && trim_spec(s) =~= s.subrange(0, j) && (forall|k: int|
                j <= k < s.len() ==> is_space_char(s[k]));
        if j < 6 {
            assert(is_space_char(s[j]));
            assert(!is_space_char(s[j]));
        }
        assert(spec_noise_prefixed(trim_spec(s)));
    }
}

} // verus!
