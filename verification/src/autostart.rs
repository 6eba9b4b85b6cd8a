//! Starting with Windows through the per-user `Run` registry key: the
//! command stored there.

use vstd::prelude::*;

use crate::cli::{mode_for_args, tray_flag, Mode};

verus! {

/// The command registered to run at login for the program at `exe`: the
/// quoted path followed by the flag that starts hidden in the tray.
pub open spec fn startup_command(exe: Seq<char>) -> Seq<char> {
    seq!['"'] + exe + seq!['"', ' '] + tray_flag()
}

/// The command to register under the `Run` key for the program at `exe`.
pub fn startup_command_text(exe: &str) -> (cmd: String)
    ensures
        cmd@ == startup_command(exe@),
{
    proof {
        reveal_strlit("\"");
        reveal_strlit("\" ");
    }
    let mut cmd = String::from_str("\"");
    cmd.append(exe);
    cmd.append("\" ");
    cmd.append("--tray");
    cmd
}

/// Started at login, the program goes straight to the tray: the command is
/// the program path in quotes, a space, and the tray flag as the one
/// argument after it; and that argument selects the hidden widget.
pub proof fn lemma_startup_command_starts_hidden(exe: Seq<char>)
    ensures
        startup_command(exe)[0] == '"',
        startup_command(exe).subrange(1, exe.len() + 1int) == exe,
        startup_command(exe)[exe.len() + 1int] == '"',
        startup_command(exe)[exe.len() + 2int] == ' ',
        startup_command(exe).skip(exe.len() + 3int) == tray_flag(),
        mode_for_args(seq![tray_flag()]) == (Mode::Gui { start_hidden: true }),
{
    let c = startup_command(exe);
    assert(c.subrange(1, exe.len() + 1int) =~= exe);
    assert(c.skip(exe.len() + 3int) =~= tray_flag());
    reveal_strlit("--tray");
    reveal_strlit("--status");
    reveal_strlit("--help");
    reveal_strlit("--version");
    reveal_strlit("-s");
    reveal_strlit("-h");
    reveal_strlit("-v");
    reveal_strlit("status");
    assert(seq![tray_flag()][0] == tray_flag());
    assert("--tray"@[0] != "status"@[0]);
    assert("--tray"@[2] != "--help"@[2]);
}

} // verus!
