//! The command line: which mode the program starts in, and the text that
//! `--status` prints.

use vstd::prelude::*;

use crate::clock::{date_time, date_time_text, LocalDateTime};
use crate::text::{pad_left, pad_left_text, pad_right, pad_right_text};

verus! {

/// What the program does once started.
#[derive(Clone, Copy, Debug, PartialEq, Eq, Structural)]
pub enum Mode {
    /// Open the docked widget; hidden in the tray when `start_hidden`.
    Gui { start_hidden: bool },
    /// Print the current usage of every provider and exit.
    Status,
    /// Print the usage text and exit.
    Help,
    /// Print the version and exit.
    Version,
}

/// The argument that starts the widget hidden in the tray.
pub open spec fn tray_flag() -> Seq<char> {
    "--tray"@
}

/// The mode that a first argument `arg` selects.
pub open spec fn mode_for_arg(arg: Seq<char>) -> Mode {
    if arg == "--status"@ || arg == "-s"@ || arg == "status"@ {
        Mode::Status
    } else if arg == "--help"@ || arg == "-h"@ {
        Mode::Help
    } else if arg == "--version"@ || arg == "-v"@ {
        Mode::Version
    } else if arg == "--tray"@ || arg == "--hidden"@ {
        Mode::Gui { start_hidden: true }
    } else {
        Mode::Gui { start_hidden: false }
    }
}

/// The mode selected by the arguments `args` (the program name left out):
/// only the first argument counts, and none opens the widget.
pub open spec fn mode_for_args(args: Seq<Seq<char>>) -> Mode {
    if args.len() == 0 {
        Mode::Gui { start_hidden: false }
    } else {
        mode_for_arg(args[0])
    }
}

/// The views of a list of strings.
pub open spec fn views(args: Seq<String>) -> Seq<Seq<char>> {
    args.map_values(|a: String| a@)
}

fn is_word(arg: &String, word: &str) -> (b: bool)
    ensures
        b == (arg@ == word@),
{
    let w = String::from_str(word);
    *arg == w
}

/// The mode selected by the command-line arguments `args`, the program name
/// left out.
pub fn parse_args(args: &[String]) -> (mode: Mode)
    ensures
        mode == mode_for_args(views(args@)),
{
    if args.len() == 0 {
        return Mode::Gui { start_hidden: false };
    }
    let first = &args[0];
    assert(views(args@)[0] == first@);
    if is_word(first, "--status") || is_word(first, "-s") || is_word(first, "status") {
        Mode::Status
    } else if is_word(first, "--help") || is_word(first, "-h") {
        Mode::Help
    } else if is_word(first, "--version") || is_word(first, "-v") {
        Mode::Version
    } else if is_word(first, "--tray") || is_word(first, "--hidden") {
        Mode::Gui { start_hidden: true }
    } else {
        Mode::Gui { start_hidden: false }
    }
}

/// Only the first argument decides the mode: arguments after it change
/// nothing.
pub proof fn lemma_only_first_argument_counts(args: Seq<Seq<char>>, rest: Seq<Seq<char>>)
    requires
        args.len() > 0,
    ensures
        mode_for_args(args + rest) == mode_for_args(args),
{
    assert((args + rest)[0] == args[0]);
}

/// Every way of asking for a mode: the long, short and bare forms of
/// `--status`, the long and short forms of `--help` and `--version`, and
/// both spellings of starting hidden in the tray.
pub proof fn lemma_mode_spellings()
    ensures
        mode_for_arg("--status"@) == Mode::Status,
        mode_for_arg("-s"@) == Mode::Status,
        mode_for_arg("status"@) == Mode::Status,
        mode_for_arg("--help"@) == Mode::Help,
        mode_for_arg("-h"@) == Mode::Help,
        mode_for_arg("--version"@) == Mode::Version,
        mode_for_arg("-v"@) == Mode::Version,
        mode_for_arg("--tray"@) == (Mode::Gui { start_hidden: true }),
        mode_for_arg("--hidden"@) == (Mode::Gui { start_hidden: true }),
{
    reveal_strlit("--status");
    reveal_strlit("-s");
    reveal_strlit("status");
    reveal_strlit("--help");
    reveal_strlit("-h");
    reveal_strlit("--version");
    reveal_strlit("-v");
    reveal_strlit("--tray");
    reveal_strlit("--hidden");
    assert("--help"@[0] != "status"@[0]);
    assert("-h"@[1] != "-s"@[1]);
    assert("-v"@[1] != "-s"@[1]);
    assert("-v"@[1] != "-h"@[1]);
    assert("--tray"@[0] != "status"@[0]);
    assert("--tray"@[2] != "--help"@[2]);
    assert("--hidden"@[2] != "--status"@[2]);
    assert("--hidden"@.len() != "--version"@.len());
    assert("--hidden"@.len() != "--help"@.len());
    assert("--hidden"@.len() != "status"@.len());
}

/// One provider's reading, ready for the `--status` report.
pub struct StatusEntry {
    /// Name shown in the first column.
    pub display_name: String,
    /// Percent of the quota left, already rounded to whole digits.
    pub percent_left: String,
    /// Local date and time of the next reset, if known.
    pub reset: Option<LocalDateTime>,
    /// Caveat printed on a line of its own, if any.
    pub note: Option<String>,
}

/// Title line of the report.
pub open spec fn status_title() -> Seq<char> {
    "MyUsage - AI Usage Status"@
}

/// Rule line that frames the report.
pub open spec fn status_rule() -> Seq<char> {
    "──────────────────────────────────────────────"@
}

/// `name` left-aligned in 14 columns, the percent right-aligned in 5, then
/// the reset time or `-`.
pub open spec fn status_line(name: Seq<char>, percent: Seq<char>, reset: Option<LocalDateTime>) -> Seq<char> {
    pad_right(name, 14, ' ') + seq![' '] + pad_left(percent, 5, ' ') + "% LEFT   reset: "@ + match reset {
        Some(t) => date_time(t),
        None => seq!['-'],
    }
}

/// The note line printed under an entry.
pub open spec fn note_line(note: Seq<char>) -> Seq<char> {
    "   * "@ + note
}

/// The lines printed for one entry.
pub open spec fn entry_lines(e: StatusEntry) -> Seq<Seq<char>> {
    let first = seq![status_line(e.display_name@, e.percent_left@, e.reset)];
    match e.note {
        Some(n) => first.push(note_line(n@)),
        None => first,
    }
}

/// The lines printed for the entries `es`, in order.
pub open spec fn entries_lines(es: Seq<StatusEntry>) -> Seq<Seq<char>>
    decreases es.len(),
{
    if es.len() == 0 {
        Seq::empty()
    } else {
        entries_lines(es.drop_last()) + entry_lines(es.last())
    }
}

/// The report of several entries is the reports of its parts one after
/// the other: every entry contributes its lines, in order, whatever comes
/// before or after it.
pub proof fn lemma_entries_lines_concat(a: Seq<StatusEntry>, b: Seq<StatusEntry>)
    ensures
        entries_lines(a + b) == entries_lines(a) + entries_lines(b),
    decreases b.len(),
{
    if b.len() == 0 {
        assert(a + b =~= a);
        assert(entries_lines(a) + entries_lines(b) =~= entries_lines(a));
    } else {
        lemma_entries_lines_concat(a, b.drop_last());
        assert((a + b).drop_last() =~= a + b.drop_last());
        assert((a + b).last() == b.last());
        assert(entries_lines(a + b) =~= entries_lines(a) + entries_lines(b));
    }
}

/// One entry prints its status line, then its note line exactly when it
/// has a note, and nothing else.
pub proof fn lemma_entry_prints_line_and_note(e: StatusEntry)
    ensures
        entries_lines(seq![e]).len() == if e.note is Some {
            2int
        } else {
            1int
        },
        entries_lines(seq![e])[0] == status_line(e.display_name@, e.percent_left@, e.reset),
        e.note matches Some(n) ==> entries_lines(seq![e])[1] == "   * "@ + n@,
{
    let one = seq![e];
    assert(one.drop_last() =~= Seq::<StatusEntry>::empty());
    assert(one.last() == e);
    assert(entries_lines(Seq::<StatusEntry>::empty()) =~= Seq::<Seq<char>>::empty());
    assert(entries_lines(one) == entries_lines(one.drop_last()) + entry_lines(one.last()));
    assert(entries_lines(one) =~= entry_lines(e));
}

/// The whole `--status` report: title, rule, every entry, rule.
pub open spec fn status_report_lines(es: Seq<StatusEntry>) -> Seq<Seq<char>> {
    seq![status_title(), status_rule()] + entries_lines(es) + seq![status_rule()]
}

fn status_line_text(e: &StatusEntry) -> (s: String)
    ensures
        s@ == status_line(e.display_name@, e.percent_left@, e.reset),
{
    proof {
        reveal_strlit(" ");
        reveal_strlit("-");
    }
    let mut s = pad_right_text(e.display_name.as_str(), 14, " ");
    s.append(" ");
    let p = pad_left_text(e.percent_left.as_str(), 5, " ");
    s.append(p.as_str());
    s.append("% LEFT   reset: ");
    match &e.reset {
        Some(t) => {
            let d = date_time_text(t);
            s.append(d.as_str());
        },
        None => {
            s.append("-");
        },
    }
    s
}

/// The lines of the `--status` report for `entries`, in the order printed.
pub fn status_report(entries: &[StatusEntry]) -> (lines: Vec<String>)
    ensures
        views(lines@) == status_report_lines(entries@),
{
    let mut lines: Vec<String> = Vec::new();
    lines.push(String::from_str("MyUsage - AI Usage Status"));
    lines.push(String::from_str("──────────────────────────────────────────────"));
    let mut i: usize = 0;
    while i < entries.len()
        invariant
            i <= entries@.len(),
            views(lines@) =~= seq![status_title(), status_rule()] + entries_lines(
                entries@.take(i as int),
            ),
        decreases entries@.len() - i,
    {
        let e = &entries[i];
        let ghost before = lines@;
        let line = status_line_text(e);
        let ghost first = line@;
        lines.push(line);
        assert(views(lines@) =~= views(before).push(first));
        match &e.note {
            Some(n) => {
                let mut nl = String::from_str("   * ");
                nl.append(n.as_str());
                let ghost second = nl@;
                lines.push(nl);
                assert(views(lines@) =~= views(before).push(first).push(second));
            },
            None => {},
        }
        assert(views(lines@) =~= views(before) + entry_lines(entries@[i as int]));
        assert(entries@.take(i + 1).drop_last() =~= entries@.take(i as int));
        assert(entries@.take(i + 1).last() == entries@[i as int]);
        i = i + 1;
    }
    assert(entries@.take(entries@.len() as int) =~= entries@);
    lines.push(String::from_str("──────────────────────────────────────────────"));
    lines
}

} // verus!
