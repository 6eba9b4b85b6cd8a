//! Timestamped diagnostics appended to `crash.log` in the user's
//! configuration directory: the line written for each event.

use vstd::prelude::*;

use crate::clock::{
    append_two_digits, instant_in_range, local_now, local_time_at, shifted_fields, two_digits,
    year_digits, year_text, LocalDateTime, ZonedInstant, NANOS_PER_SEC,
};
use crate::text::{decimal_value, lemma_zero_padded_reads_back};

verus! {

/// `[YYYY-MM-DD HH:MM:SS] msg` and a line break, the stamp being the
/// local time `t`.
pub open spec fn log_line(t: LocalDateTime, msg: Seq<char>) -> Seq<char> {
    seq!['['] + year_text(t.year as int) + seq!['-'] + two_digits(t.month as nat) + seq!['-']
        + two_digits(t.day as nat) + seq![' '] + two_digits(t.hour as nat) + seq![':'] + two_digits(
        t.minute as nat,
    ) + seq![':'] + two_digits(t.second as nat) + seq![']', ' '] + msg + seq!['\n']
}

/// The stamp reads back as the time it was made from: for any local time
/// whose calendar fields have at most two digits, the month, day, hour
/// (0 to 23, not folded to 12), minute and second fields of the line read as
/// those of `t`, the year field is written as `%Y` writes it (reading back
/// as the year for years 0 to 9999), the separators stand where the layout
/// `[YYYY-MM-DD HH:MM:SS] ` puts them, and the message follows unchanged,
/// ended by a line break.
pub proof fn lemma_log_stamp_reads_back(t: LocalDateTime, msg: Seq<char>)
    requires
        t.month < 100,
        t.day < 100,
        t.hour < 100,
        t.minute < 100,
        t.second < 100,
    ensures
        ({
            let line = log_line(t, msg);
            let y = year_text(t.year as int).len() as int;
            &&& line.len() == y + 18 + msg.len() + 1
            &&& line[0] == '['
            &&& line.subrange(1, y + 1) == year_text(t.year as int)
            &&& 0 <= t.year <= 9999 ==> decimal_value(line.subrange(1, y + 1)) == t.year
            &&& line[y + 1] == '-'
            &&& decimal_value(line.subrange(y + 2, y + 4)) == t.month
            &&& line[y + 4] == '-'
            &&& decimal_value(line.subrange(y + 5, y + 7)) == t.day
            &&& line[y + 7] == ' '
            &&& decimal_value(line.subrange(y + 8, y + 10)) == t.hour
            &&& line[y + 10] == ':'
            &&& decimal_value(line.subrange(y + 11, y + 13)) == t.minute
            &&& line[y + 13] == ':'
            &&& decimal_value(line.subrange(y + 14, y + 16)) == t.second
            &&& line[y + 16] == ']'
            &&& line[y + 17] == ' '
            &&& line.subrange(y + 18, y + 18 + msg.len()) == msg
            &&& line[line.len() - 1] == '\n'
        }),
{
    lemma_zero_padded_reads_back(t.month as nat, 2);
    lemma_zero_padded_reads_back(t.day as nat, 2);
    lemma_zero_padded_reads_back(t.hour as nat, 2);
    lemma_zero_padded_reads_back(t.minute as nat, 2);
    lemma_zero_padded_reads_back(t.second as nat, 2);
    if 0 <= t.year <= 9999 {
        lemma_zero_padded_reads_back(t.year as nat, 4);
    }
    let yt = year_text(t.year as int);
    let line = log_line(t, msg);
    let y = yt.len() as int;
    let mo = two_digits(t.month as nat);
    let d = two_digits(t.day as nat);
    let hh = two_digits(t.hour as nat);
    let mi = two_digits(t.minute as nat);
    let ss = two_digits(t.second as nat);
    assert(line == seq!['['] + yt + seq!['-'] + mo + seq!['-'] + d + seq![' '] + hh + seq![':'] + mi
        + seq![':'] + ss + seq![']', ' '] + msg + seq!['\n']);
    assert(line.subrange(1, y + 1) =~= yt);
    assert(line.subrange(y + 2, y + 4) =~= mo);
    assert(line.subrange(y + 5, y + 7) =~= d);
    assert(line.subrange(y + 8, y + 10) =~= hh);
    assert(line.subrange(y + 11, y + 13) =~= mi);
    assert(line.subrange(y + 14, y + 16) =~= ss);
    assert(line.subrange(y + 18, y + 18 + msg.len()) =~= msg);
}

/// The log line for `msg` stamped with the local time `t`.
pub fn log_line_at(t: &LocalDateTime, msg: &str) -> (line: String)
    ensures
        line@ == log_line(*t, msg@),
{
    proof {
        reveal_strlit("[");
        reveal_strlit("-");
        reveal_strlit(" ");
        reveal_strlit(":");
        reveal_strlit("] ");
        reveal_strlit("\n");
    }
    let mut line = String::from_str("[");
    let y = year_digits(t.year);
    line.append(y.as_str());
    line.append("-");
    append_two_digits(&mut line, t.month as u128);
    line.append("-");
    append_two_digits(&mut line, t.day as u128);
    line.append(" ");
    append_two_digits(&mut line, t.hour as u128);
    line.append(":");
    append_two_digits(&mut line, t.minute as u128);
    line.append(":");
    append_two_digits(&mut line, t.second as u128);
    line.append("] ");
    line.append(msg);
    line.append("\n");
    line
}

/// The log line for `msg` stamped with the current local time. The clock is
/// read once; whatever it reads, the stamp is the local date and time of an
/// instant not before 1970 that `chrono` can hold, at an offset of less than
/// a day from UTC.
pub fn log_line_now(msg: &str) -> (line: String)
    ensures
        exists|ns: int, offset_secs: int|
            0 <= ns && instant_in_range(ns) && -86_400 < offset_secs < 86_400
                && #[trigger] log_line(shifted_fields(ns, offset_secs), msg@) == line@,
{
    let now = local_now();
    let z = ZonedInstant { ns: (now.0 as i128) * NANOS_PER_SEC + (now.1 as i128), offset_secs: now.2 };
    let t = local_time_at(&z);
    let line = log_line_at(&t, msg);
    assert(log_line(shifted_fields(z.ns as int, z.offset_secs as int), msg@) == line@);
    line
}

} // verus!
