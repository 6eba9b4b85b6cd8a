//! Usage providers: the quota window that the simulated provider rolls
//! over, and the note that tells the user whether a local CLI session was
//! found.

use vstd::prelude::*;

verus! {

/// The next reset of a quota window that was due at `reset_at_ns`, seen at
/// `now_ns`, for windows `window_ns` long: once the reset is due the
/// window starts again at `now_ns` (`Some` of its new reset), else nothing
/// changes (`None`).
pub open spec fn rolled(now_ns: int, reset_at_ns: int, window_ns: int) -> Option<int> {
    if now_ns >= reset_at_ns {
        Some(now_ns + window_ns)
    } else {
        None
    }
}

/// Rolls a quota window over when its reset is due: `Some` of the new
/// reset instant when the window starts again at `now_ns`, `None` when the
/// current window still runs.
pub fn roll_window(now_ns: i128, reset_at_ns: i128, window_ns: i128) -> (next: Option<i128>)
    requires
        now_ns >= reset_at_ns ==> i128::MIN <= now_ns + window_ns <= i128::MAX,
    ensures
        next matches Some(n) ==> rolled(now_ns as int, reset_at_ns as int, window_ns as int) == Some(
            n as int,
        ),
        next is None ==> rolled(now_ns as int, reset_at_ns as int, window_ns as int) is None,
{
    if now_ns >= reset_at_ns {
        Some(now_ns + window_ns)
    } else {
        None
    }
}

/// After every reading the next reset lies ahead: rolled over or not, the
/// reset in force is later than the moment of the reading.
pub proof fn lemma_reset_stays_ahead(now_ns: int, reset_at_ns: int, window_ns: int)
    requires
        window_ns > 0,
    ensures
        match rolled(now_ns, reset_at_ns, window_ns) {
            Some(n) => n > now_ns,
            None => reset_at_ns > now_ns,
        },
{
}

/// A window that has just been rolled over is not rolled again at the same
/// moment.
pub proof fn lemma_roll_settles(now_ns: int, reset_at_ns: int, window_ns: int)
    requires
        window_ns > 0,
        rolled(now_ns, reset_at_ns, window_ns) is Some,
    ensures
        rolled(now_ns, rolled(now_ns, reset_at_ns, window_ns)->0, window_ns) is None,
{
}

/// Note shown for a CLI tool whose session directory is `dir`: whether a
/// local session was `found`, and that the numbers are simulated.
pub open spec fn session_note(found: bool, dir: Seq<char>) -> Seq<char> {
    if found {
        "พบ session ของ CLI ที่ "@ + dir + " แต่ยังไม่มี API สาธารณะสำหรับดึง % โควตา — แสดงค่าจำลอง"@
    } else {
        "ไม่พบ session ที่ "@ + dir + " — แสดงค่าจำลอง"@
    }
}

/// The note for a CLI tool whose session directory, as displayed, is
/// `session_dir`, and which was (`found`) or was not found on disk.
pub fn session_note_text(found: bool, session_dir: &str) -> (note: String)
    ensures
        note@ == session_note(found, session_dir@),
{
    if found {
        let mut note = String::from_str("พบ session ของ CLI ที่ ");
        note.append(session_dir);
        note.append(" แต่ยังไม่มี API สาธารณะสำหรับดึง % โควตา — แสดงค่าจำลอง");
        note
    } else {
        let mut note = String::from_str("ไม่พบ session ที่ ");
        note.append(session_dir);
        note.append(" — แสดงค่าจำลอง");
        note
    }
}

} // verus!
