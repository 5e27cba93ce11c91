//! The `split-window` builder: create a new pane by splitting a target pane.
//!
//! The new pane's size takes one of two mutually exclusive parameters, an
//! absolute line count or a percentage.  The builder holds at most one of
//! them — whichever size setter ran last wins — and the built command
//! carries exactly one of the two corresponding flags.  How the size is
//! spelled depends on the version gate: from tmux 3.1 a percentage is
//! `-l <n>%`, before that it is `-p <n>`.

use vstd::prelude::*;

use crate::command::TmuxCommand;
use crate::common::PaneSize;
use crate::strutil::seq_strs;
use crate::strutil::spec_num_chars;
use crate::strutil::usize_to_string;
use crate::version::Version;
use crate::version::VersionGate;
use crate::version::spec_subcmd;
use crate::version::version_le;

verus! {

/// Create a new pane by splitting a target pane.
///
/// # Manual
///
/// ```text
/// tmux split-window [-bdfhIvP] [-c start-directory] [-e environment]
/// [-l size | -p percentage] [-t target-pane] [-F format] [shell-command]
/// (alias: splitw)
/// ```
#[derive(Debug, Clone, Default)]
pub struct SplitWindow {
    /// `[-b]` - create the new pane to the left of or above the target
    pub before: Option<bool>,
    /// `[-d]` - do not make the new pane the current one
    pub detached: Option<bool>,
    /// `[-f]` - span the full window size
    pub full: Option<bool>,
    /// `[-h]` - horizontal split
    pub horizontal: Option<bool>,
    /// `[-I]` - forward stdin to the new pane; available from tmux 3.0
    pub stdin_forward: Option<bool>,
    /// `[-v]` - vertical split
    pub vertical: Option<bool>,
    /// `[-P]` - print information about the new pane
    pub print: Option<bool>,
    /// `[-c start-directory]`
    pub cwd: Option<String>,
    /// `[-e environment]`, available from tmux 3.1
    pub environment: Option<String>,
    /// `[-l size | -p percentage]` - exactly one of the two
    pub size: Option<PaneSize>,
    /// `[-t target-pane]`
    pub target_pane: Option<String>,
    /// `[shell-command]`
    pub shell_command: Option<String>,
    /// `[-F format]`
    pub format: Option<String>,
}

/// The subcommand token of `split-window` under this gate.
pub open spec fn spec_split_window_name(g: VersionGate) -> Seq<char> {
    spec_subcmd(g, "split-window"@, "splitw"@)
}

/// The two size tokens: from tmux 3.1 both shapes use `-l`, a percentage
/// spelled with a trailing `%`; before that a percentage uses `-p`.
pub open spec fn spec_size_tokens(s: PaneSize, g: VersionGate) -> Seq<Seq<char>> {
    if version_le(Version { major: 3, minor: 1 }, g.version) {
        match s {
            PaneSize::Size(n) => seq!["-l"@, spec_num_chars(n as nat)],
            PaneSize::Percentage(n) => seq!["-l"@, spec_num_chars(n as nat) + "%"@],
        }
    } else {
        match s {
            PaneSize::Size(n) => seq!["-l"@, spec_num_chars(n as nat)],
            PaneSize::Percentage(n) => seq!["-p"@, spec_num_chars(n as nat)],
        }
    }
}

/// The first boolean flags, `-b -d -f -h`, in declared order.
pub open spec fn spec_sw_flags_a(c: SplitWindow) -> Seq<Seq<char>> {
    (if c.before == Some(true) {
        seq!["-b"@]
    } else {
        Seq::<Seq<char>>::empty()
    }) + (if c.detached == Some(true) {
        seq!["-d"@]
    } else {
        Seq::<Seq<char>>::empty()
    }) + (if c.full == Some(true) {
        seq!["-f"@]
    } else {
        Seq::<Seq<char>>::empty()
    }) + (if c.horizontal == Some(true) {
        seq!["-h"@]
    } else {
        Seq::<Seq<char>>::empty()
    })
}

/// The remaining boolean flags, `-I -v -P`, in declared order.
pub open spec fn spec_sw_flags_b(c: SplitWindow, g: VersionGate) -> Seq<Seq<char>> {
    (if c.stdin_forward == Some(true) && version_le(
        Version { major: 3, minor: 0 },
        g.version,
    ) {
        seq!["-I"@]
    } else {
        Seq::<Seq<char>>::empty()
    }) + (if c.vertical == Some(true) {
        seq!["-v"@]
    } else {
        Seq::<Seq<char>>::empty()
    }) + (if c.print == Some(true) {
        seq!["-P"@]
    } else {
        Seq::<Seq<char>>::empty()
    })
}

/// The start-directory, environment and size tokens, in declared order.
pub open spec fn spec_sw_values_a(c: SplitWindow, g: VersionGate) -> Seq<Seq<char>> {
    (match c.cwd {
        Some(t) => seq!["-c"@, t@],
        None => Seq::<Seq<char>>::empty(),
    }) + (match c.environment {
        Some(t) => if version_le(Version { major: 3, minor: 1 }, g.version) {
            seq!["-e"@, t@]
        } else {
            Seq::<Seq<char>>::empty()
        },
        None => Seq::<Seq<char>>::empty(),
    }) + (match c.size {
        Some(s) => spec_size_tokens(s, g),
        None => Seq::<Seq<char>>::empty(),
    })
}

/// The target and format tokens, then the positional shell command last.
pub open spec fn spec_sw_values_b(c: SplitWindow) -> Seq<Seq<char>> {
    (match c.target_pane {
        Some(t) => seq!["-t"@, t@],
        None => Seq::<Seq<char>>::empty(),
    }) + (match c.format {
        Some(t) => seq!["-F"@, t@],
        None => Seq::<Seq<char>>::empty(),
    }) + (match c.shell_command {
        Some(t) => seq![t@],
        None => Seq::<Seq<char>>::empty(),
    })
}

/// The arguments the builder emits under this gate: booleans first in
/// declared order, then value flags, then the positional shell command
/// last.
pub open spec fn spec_split_window_args(c: SplitWindow, g: VersionGate) -> Seq<Seq<char>> {
    spec_sw_flags_a(c) + spec_sw_flags_b(c, g) + spec_sw_values_a(c, g) + spec_sw_values_b(c)
}

fn push_sw_flags_a(cmd: &mut TmuxCommand, c: &SplitWindow)
    ensures
        seq_strs(final(cmd).args@) == seq_strs(old(cmd).args@) + spec_sw_flags_a(*c),
        final(cmd).bin == old(cmd).bin,
        final(cmd).bin_args == old(cmd).bin_args,
        final(cmd).cmd == old(cmd).cmd,
{
    if c.before.is_some() && c.before.unwrap() {
        cmd.push_flag("-b");
    }
    if c.detached.is_some() && c.detached.unwrap() {
        cmd.push_flag("-d");
    }
    if c.full.is_some() && c.full.unwrap() {
        cmd.push_flag("-f");
    }
    if c.horizontal.is_some() && c.horizontal.unwrap() {
        cmd.push_flag("-h");
    }
    proof {
        assert(seq_strs(cmd.args@) =~= seq_strs(old(cmd).args@) + spec_sw_flags_a(*c));
    }
}

fn push_sw_flags_b(cmd: &mut TmuxCommand, c: &SplitWindow, gate: &VersionGate)
    ensures
        seq_strs(final(cmd).args@) == seq_strs(old(cmd).args@) + spec_sw_flags_b(*c, *gate),
        final(cmd).bin == old(cmd).bin,
        final(cmd).bin_args == old(cmd).bin_args,
        final(cmd).cmd == old(cmd).cmd,
{
    if c.stdin_forward.is_some() && c.stdin_forward.unwrap() && gate.version.at_least(
        &Version::new(3, 0),
    ) {
        cmd.push_flag("-I");
    }
    if c.vertical.is_some() && c.vertical.unwrap() {
        cmd.push_flag("-v");
    }
    if c.print.is_some() && c.print.unwrap() {
        cmd.push_flag("-P");
    }
    proof {
        assert(seq_strs(cmd.args@) =~= seq_strs(old(cmd).args@) + spec_sw_flags_b(*c, *gate));
    }
}

fn push_sw_values_a(cmd: &mut TmuxCommand, c: &SplitWindow, gate: &VersionGate)
    ensures
        seq_strs(final(cmd).args@) == seq_strs(old(cmd).args@) + spec_sw_values_a(*c, *gate),
        final(cmd).bin == old(cmd).bin,
        final(cmd).bin_args == old(cmd).bin_args,
        final(cmd).cmd == old(cmd).cmd,
{
    if let Some(t) = &c.cwd {
        cmd.push_option("-c", t.as_str());
    }
    if let Some(t) = &c.environment {
        if gate.version.at_least(&Version::new(3, 1)) {
            cmd.push_option("-e", t.as_str());
        }
    }
    if let Some(s) = &c.size {
        if gate.version.at_least(&Version::new(3, 1)) {
            match s {
                PaneSize::Size(n) => {
                    let d = usize_to_string(*n);
                    cmd.push_option("-l", d.as_str());
                },
                PaneSize::Percentage(n) => {
                    let mut d = usize_to_string(*n);
                    d.append("%");
                    cmd.push_option("-l", d.as_str());
                },
            }
        } else {
            match s {
                PaneSize::Size(n) => {
                    let d = usize_to_string(*n);
                    cmd.push_option("-l", d.as_str());
                },
                PaneSize::Percentage(n) => {
                    let d = usize_to_string(*n);
                    cmd.push_option("-p", d.as_str());
                },
            }
        }
    }
    proof {
        assert(seq_strs(cmd.args@) =~= seq_strs(old(cmd).args@) + spec_sw_values_a(*c, *gate));
    }
}

fn push_sw_values_b(cmd: &mut TmuxCommand, c: &SplitWindow)
    ensures
        seq_strs(final(cmd).args@) == seq_strs(old(cmd).args@) + spec_sw_values_b(*c),
        final(cmd).bin == old(cmd).bin,
        final(cmd).bin_args == old(cmd).bin_args,
        final(cmd).cmd == old(cmd).cmd,
{
    if let Some(t) = &c.target_pane {
        cmd.push_option("-t", t.as_str());
    }
    if let Some(t) = &c.format {
        cmd.push_option("-F", t.as_str());
    }
    if let Some(t) = &c.shell_command {
        cmd.push_param(t.as_str());
    }
    proof {
        assert(seq_strs(cmd.args@) =~= seq_strs(old(cmd).args@) + spec_sw_values_b(*c));
    }
}

impl SplitWindow {
    pub fn new() -> (r: SplitWindow)
        ensures
            r.before is None,
            r.detached is None,
            r.full is None,
            r.horizontal is None,
            r.stdin_forward is None,
            r.vertical is None,
            r.print is None,
            r.cwd is None,
            r.environment is None,
            r.size is None,
            r.target_pane is None,
            r.shell_command is None,
            r.format is None,
    {
        SplitWindow {
            before: None,
            detached: None,
            full: None,
            horizontal: None,
            stdin_forward: None,
            vertical: None,
            print: None,
            cwd: None,
            environment: None,
            size: None,
            target_pane: None,
            shell_command: None,
            format: None,
        }
    }

    /// `[-l size]`: an absolute size.  Overwrites any size set before:
    /// whichever of the two size setters ran last wins.
    pub fn size(self, size: usize) -> (r: SplitWindow)
        ensures
            r == (SplitWindow { size: Some(PaneSize::Size(size)), ..self }),
    {
        SplitWindow { size: Some(PaneSize::Size(size)), ..self }
    }

    /// `[-p percentage]`: a percentage of the available space.  Overwrites
    /// any size set before: whichever of the two size setters ran last wins.
    pub fn percentage(self, percentage: usize) -> (r: SplitWindow)
        ensures
            r == (SplitWindow { size: Some(PaneSize::Percentage(percentage)), ..self }),
    {
        SplitWindow { size: Some(PaneSize::Percentage(percentage)), ..self }
    }

    /// `[-t target-pane]`
    pub fn target_pane(self, target_pane: &str) -> (r: SplitWindow)
        ensures
            r.target_pane matches Some(t) && t@ == target_pane@,
            r == (SplitWindow { target_pane: r.target_pane, ..self }),
    {
        SplitWindow { target_pane: Some(String::from_str(target_pane)), ..self }
    }

    /// `[shell-command]`
    pub fn shell_command(self, shell_command: &str) -> (r: SplitWindow)
        ensures
            r.shell_command matches Some(t) && t@ == shell_command@,
            r == (SplitWindow { shell_command: r.shell_command, ..self }),
    {
        SplitWindow { shell_command: Some(String::from_str(shell_command)), ..self }
    }

    /// Builds `split-window [-bdfhIvP] [-c start-directory] [-e environment]
    /// [-l size | -p percentage] [-t target-pane] [-F format]
    /// [shell-command]` (alias: `splitw`): the positional shell command
    /// comes last, after every flag.
    pub fn build(&self, gate: &VersionGate) -> (r: TmuxCommand)
        ensures
            r.cmd matches Some(c) && c@ == spec_split_window_name(*gate),
            seq_strs(r.args@) == spec_split_window_args(*self, *gate),
            r.bin@ == "tmux"@,
            r.bin_args@.len() == 0,
    {
        let mut cmd = TmuxCommand::new();
        cmd.name(gate.subcmd("split-window", "splitw"));
        let ghost a0 = seq_strs(cmd.args@);
        push_sw_flags_a(&mut cmd, self);
        push_sw_flags_b(&mut cmd, self, gate);
        push_sw_values_a(&mut cmd, self, gate);
        push_sw_values_b(&mut cmd, self);
        proof {
            assert(a0 =~= Seq::<Seq<char>>::empty());
            assert(seq_strs(cmd.args@) =~= spec_split_window_args(*self, *gate));
        }
        cmd
    }
}

/// Exactly one size flag is ever emitted: the size tokens are one flag and
/// one value, and the flag is `-l` or `-p`, never both.  Together with the
/// size setters overwriting one shared field — last set wins — this pins the
/// mutually exclusive size parameters.
pub proof fn lemma_one_size_flag(s: PaneSize, g: VersionGate)
    ensures
        spec_size_tokens(s, g).len() == 2,
        (spec_size_tokens(s, g)[0] == "-l"@) != (spec_size_tokens(s, g)[0] == "-p"@),
{
    reveal_strlit("-l");
    reveal_strlit("-p");
    assert("-l"@ =~= seq!['-', 'l']);
    assert("-p"@ =~= seq!['-', 'p']);
    assert("-l"@ != "-p"@);
}

/// The alias preference picks the subcommand token of `split-window` only:
/// the argument tokens after it do not depend on it.
pub proof fn lemma_split_window_alias_only_subcmd(c: SplitWindow, g1: VersionGate, g2: VersionGate)
    requires
        g1.version == g2.version,
    ensures
        spec_split_window_args(c, g1) == spec_split_window_args(c, g2),
{
}

} // verus!
