//! A log kept by its owner, one timestamped line per message.
use vstd::prelude::*;
use crate::text::push_char;

verus! {

/// The digit for `d`.
pub open spec fn digit_spec(d: int) -> char {
    seq!['0', '1', '2', '3', '4', '5', '6', '7', '8', '9'][d]
}

/// `n`, below one hundred, in two digits.
pub open spec fn two_digits(n: int) -> Seq<char> {
    seq![digit_spec(n / 10), digit_spec(n % 10)]
}

/// The time of day, in UTC, `secs` seconds after the epoch: `HH:MM:SS`.
pub open spec fn clock_text(secs: int) -> Seq<char> {
    two_digits((secs / 3600) % 24) + seq![':'] + two_digits((secs / 60) % 60) + seq![':']
        + two_digits(secs % 60)
}

fn push_two_digits(s: &mut String, n: u64)
    requires
        n < 100,
    ensures
        final(s)@ == old(s)@ + two_digits(n as int),
{
    let digits: [char; 10] = ['0', '1', '2', '3', '4', '5', '6', '7', '8', '9'];
    assert(digits@ =~= seq!['0', '1', '2', '3', '4', '5', '6', '7', '8', '9']);
    push_char(s, digits[(n / 10) as usize]);
    push_char(s, digits[(n % 10) as usize]);
    assert(final(s)@ =~= old(s)@ + two_digits(n as int));
}

/// The time of day, in UTC, of a second since the epoch: `HH:MM:SS`.
pub fn current_time_str(seconds_since_epoch: u64) -> (r: String)
    ensures
        r@ == clock_text(seconds_since_epoch as int),
{
    let hours = (seconds_since_epoch / 3600) % 24;
    let minutes = (seconds_since_epoch / 60) % 60;
    let seconds = seconds_since_epoch % 60;
    let mut r = String::new();
    push_two_digits(&mut r, hours);
    push_char(&mut r, ':');
    push_two_digits(&mut r, minutes);
    push_char(&mut r, ':');
    push_two_digits(&mut r, seconds);
    assert(r@ =~= clock_text(seconds_since_epoch as int));
    r
}

/// The line logged for `msg` at a second since the epoch.
pub open spec fn log_line(secs: int, msg: Seq<char>) -> Seq<char> {
    seq!['['] + clock_text(secs) + "] "@ + msg
}

/// Appends `msg`, stamped with the time of day, to the log.
pub fn log(logs: &mut Vec<String>, seconds_since_epoch: u64, msg: &str)
    ensures
        final(logs)@.len() == old(logs)@.len() + 1,
        final(logs)@.subrange(0, old(logs)@.len() as int) == old(logs)@,
        final(logs)@.last()@ == log_line(seconds_since_epoch as int, msg@),
{
    let mut line = String::new();
    push_char(&mut line, '[');
    line.append(current_time_str(seconds_since_epoch).as_str());
    line.append("] ");
    line.append(msg);
    logs.push(line);
    assert(final(logs)@.subrange(0, old(logs)@.len() as int) =~= old(logs)@);
}

} // verus!
