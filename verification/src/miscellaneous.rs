//! Builders for the miscellaneous tmux commands: `clock-mode`, `if-shell`,
//! `lock-server`, `run-shell` and `wait-for`.
//!
//! Every builder follows the same rules: boolean flags are emitted only when
//! set, value flags as adjacent `flag, value` pairs, positional arguments
//! last, and flags outside their availability window are silently omitted.

use vstd::prelude::*;

use crate::command::TmuxCommand;
use crate::command::spec_tokens;
use crate::strutil::seq_strs;
use crate::version::Version;
use crate::version::VersionGate;
use crate::version::version_le;

verus! {

/// Enter clock mode.
///
/// From tmux 1.0 the command targets a pane; before that it targeted a
/// window.  The builder holds both targets and the version gate picks which
/// one is emitted.
#[derive(Debug, Clone, Default)]
pub struct ClockMode {
    /// `[-t target-pane]`, emitted from tmux 1.0 onward.
    pub target_pane: Option<String>,
    /// `[-t target-window]`, emitted before tmux 1.0.
    pub target_window: Option<String>,
}

/// The arguments `build` emits for this builder under this gate.
pub open spec fn spec_clock_mode_args(cm: ClockMode, g: VersionGate) -> Seq<Seq<char>> {
    if version_le(Version { major: 1, minor: 0 }, g.version) {
        match cm.target_pane {
            Some(t) => seq!["-t"@, t@],
            None => Seq::<Seq<char>>::empty(),
        }
    } else {
        match cm.target_window {
            Some(t) => seq!["-t"@, t@],
            None => Seq::<Seq<char>>::empty(),
        }
    }
}

impl ClockMode {
    pub fn new() -> (r: ClockMode)
        ensures
            r.target_pane is None,
            r.target_window is None,
    {
        ClockMode { target_pane: None, target_window: None }
    }

    /// `[-t target-pane]`
    pub fn target_pane(self, target_pane: &str) -> (r: ClockMode)
        ensures
            r.target_pane matches Some(t) && t@ == target_pane@,
            r.target_window == self.target_window,
    {
        ClockMode { target_pane: Some(String::from_str(target_pane)), ..self }
    }

    /// `[-t target-window]`
    pub fn target_window(self, target_window: &str) -> (r: ClockMode)
        ensures
            r.target_window matches Some(t) && t@ == target_window@,
            r.target_pane == self.target_pane,
    {
        ClockMode { target_window: Some(String::from_str(target_window)), ..self }
    }

    /// Builds `clock-mode [-t target]`, the target picked by the declared
    /// version.
    pub fn build(&self, gate: &VersionGate) -> (r: TmuxCommand)
        ensures
            spec_tokens(r) == seq!["clock-mode"@] + spec_clock_mode_args(*self, *gate),
            r.bin@ == "tmux"@,
            r.bin_args@.len() == 0,
    {
        let mut cmd = TmuxCommand::new();
        cmd.name("clock-mode");
        if gate.version.at_least(&Version::new(1, 0)) {
            if let Some(t) = &self.target_pane {
                cmd.push_option("-t", t.as_str());
            }
        } else {
            if let Some(t) = &self.target_window {
                cmd.push_option("-t", t.as_str());
            }
        }
        proof {
            assert(seq_strs(cmd.args@) =~= spec_clock_mode_args(*self, *gate));
            assert(spec_tokens(cmd) =~= seq!["clock-mode"@] + spec_clock_mode_args(*self, *gate));
        }
        cmd
    }
}

/// Run a command if a shell command succeeds.
#[derive(Debug, Clone, Default)]
pub struct IfShell {
    /// `[-b]`: run in the background; available from tmux 1.8.
    pub backgrounded: Option<bool>,
    /// `[-F]`: treat the test as a format, not a shell command; available
    /// from tmux 2.0.
    pub format: Option<bool>,
    /// `[-t target-pane]`, available from tmux 1.8.
    pub target_pane: Option<String>,
    /// The shell command tested.
    pub shell_command: Option<String>,
    /// The command run on success.
    pub command: Option<String>,
    /// The command run on failure.
    pub second_command: Option<String>,
}

/// The arguments `build` emits for this builder under this gate: booleans
/// first in declared order, then value flags, then positionals.
pub open spec fn spec_if_shell_args(c: IfShell, g: VersionGate) -> Seq<Seq<char>> {
    (if c.backgrounded == Some(true) && version_le(Version { major: 1, minor: 8 }, g.version) {
        seq!["-b"@]
    } else {
        Seq::<Seq<char>>::empty()
    }) + (if c.format == Some(true) && version_le(Version { major: 2, minor: 0 }, g.version) {
        seq!["-F"@]
    } else {
        Seq::<Seq<char>>::empty()
    }) + (match c.target_pane {
        Some(t) => if version_le(Version { major: 1, minor: 8 }, g.version) {
            seq!["-t"@, t@]
        } else {
            Seq::<Seq<char>>::empty()
        },
        None => Seq::<Seq<char>>::empty(),
    }) + (match c.shell_command {
        Some(t) => seq![t@],
        None => Seq::<Seq<char>>::empty(),
    }) + (match c.command {
        Some(t) => seq![t@],
        None => Seq::<Seq<char>>::empty(),
    }) + (match c.second_command {
        Some(t) => seq![t@],
        None => Seq::<Seq<char>>::empty(),
    })
}

impl IfShell {
    pub fn new() -> (r: IfShell)
        ensures
            r.backgrounded is None,
            r.format is None,
            r.target_pane is None,
            r.shell_command is None,
            r.command is None,
            r.second_command is None,
    {
        IfShell {
            backgrounded: None,
            format: None,
            target_pane: None,
            shell_command: None,
            command: None,
            second_command: None,
        }
    }

    /// Builds `if-shell [-bF] [-t target-pane] shell-command command
    /// [command]`.
    pub fn build(&self, gate: &VersionGate) -> (r: TmuxCommand)
        ensures
            spec_tokens(r) == seq!["if-shell"@] + spec_if_shell_args(*self, *gate),
            r.bin@ == "tmux"@,
            r.bin_args@.len() == 0,
    {
        let mut cmd = TmuxCommand::new();
        cmd.name("if-shell");
        if self.backgrounded.is_some() && self.backgrounded.unwrap() && gate.version.at_least(
            &Version::new(1, 8),
        ) {
            cmd.push_flag("-b");
        }
        if self.format.is_some() && self.format.unwrap() && gate.version.at_least(
            &Version::new(2, 0),
        ) {
            cmd.push_flag("-F");
        }
        if let Some(t) = &self.target_pane {
            if gate.version.at_least(&Version::new(1, 8)) {
                cmd.push_option("-t", t.as_str());
            }
        }
        if let Some(t) = &self.shell_command {
            cmd.push_param(t.as_str());
        }
        if let Some(t) = &self.command {
            cmd.push_param(t.as_str());
        }
        if let Some(t) = &self.second_command {
            cmd.push_param(t.as_str());
        }
        proof {
            assert(seq_strs(cmd.args@) =~= spec_if_shell_args(*self, *gate));
            assert(spec_tokens(cmd) =~= seq!["if-shell"@] + spec_if_shell_args(*self, *gate));
        }
        cmd
    }
}

/// Lock the server.
#[derive(Debug, Clone, Default)]
pub struct LockServer {}

impl LockServer {
    pub fn new() -> (r: LockServer) {
        LockServer {  }
    }

    /// Builds `lock-server`, which takes no arguments.
    pub fn build(&self) -> (r: TmuxCommand)
        ensures
            spec_tokens(r) == seq!["lock-server"@],
            r.bin@ == "tmux"@,
            r.bin_args@.len() == 0,
    {
        let mut cmd = TmuxCommand::new();
        cmd.name("lock-server");
        proof {
            assert(spec_tokens(cmd) =~= seq!["lock-server"@]);
        }
        cmd
    }
}

/// Run a shell command in the background.
#[derive(Debug, Clone, Default)]
pub struct RunShell {
    /// `[-b]`: run in the background; available from tmux 1.8.
    pub backgrounded: Option<bool>,
    /// `[-t target-pane]`, available from tmux 1.8.
    pub target_pane: Option<String>,
    /// The shell command run.
    pub shell_command: Option<String>,
}

/// The arguments `build` emits for this builder under this gate.
pub open spec fn spec_run_shell_args(c: RunShell, g: VersionGate) -> Seq<Seq<char>> {
    (if c.backgrounded == Some(true) && version_le(Version { major: 1, minor: 8 }, g.version) {
        seq!["-b"@]
    } else {
        Seq::<Seq<char>>::empty()
    }) + (match c.target_pane {
        Some(t) => if version_le(Version { major: 1, minor: 8 }, g.version) {
            seq!["-t"@, t@]
        } else {
            Seq::<Seq<char>>::empty()
        },
        None => Seq::<Seq<char>>::empty(),
    }) + (match c.shell_command {
        Some(t) => seq![t@],
        None => Seq::<Seq<char>>::empty(),
    })
}

impl RunShell {
    pub fn new() -> (r: RunShell)
        ensures
            r.backgrounded is None,
            r.target_pane is None,
            r.shell_command is None,
    {
        RunShell { backgrounded: None, target_pane: None, shell_command: None }
    }

    /// Builds `run-shell [-b] [-t target-pane] shell-command`.
    pub fn build(&self, gate: &VersionGate) -> (r: TmuxCommand)
        ensures
            spec_tokens(r) == seq!["run-shell"@] + spec_run_shell_args(*self, *gate),
            r.bin@ == "tmux"@,
            r.bin_args@.len() == 0,
    {
        let mut cmd = TmuxCommand::new();
        cmd.name("run-shell");
        if self.backgrounded.is_some() && self.backgrounded.unwrap() && gate.version.at_least(
            &Version::new(1, 8),
        ) {
            cmd.push_flag("-b");
        }
        if let Some(t) = &self.target_pane {
            if gate.version.at_least(&Version::new(1, 8)) {
                cmd.push_option("-t", t.as_str());
            }
        }
        if let Some(t) = &self.shell_command {
            cmd.push_param(t.as_str());
        }
        proof {
            assert(seq_strs(cmd.args@) =~= spec_run_shell_args(*self, *gate));
            assert(spec_tokens(cmd) =~= seq!["run-shell"@] + spec_run_shell_args(*self, *gate));
        }
        cmd
    }
}

/// The mutually exclusive modes of `wait-for`: whichever setter ran last
/// wins, and at most one mode flag is ever emitted.
#[derive(Clone, Copy, Debug, PartialEq, Eq, Structural)]
pub enum WaitForMode {
    /// `-L`: lock the channel.
    Locked,
    /// `-S`: wake the waiting clients.
    Signal,
    /// `-U`: unlock the channel.
    Unlocked,
}

/// Wait for an event or lock on a named channel.
#[derive(Debug, Clone, Default)]
pub struct WaitFor {
    /// `[-L | -S | -U]`
    pub mode: Option<WaitForMode>,
    /// The channel waited on.
    pub channel: Option<String>,
}

/// The arguments `build` emits for this builder.
pub open spec fn spec_wait_for_args(c: WaitFor) -> Seq<Seq<char>> {
    (match c.mode {
        Some(WaitForMode::Locked) => seq!["-L"@],
        Some(WaitForMode::Signal) => seq!["-S"@],
        Some(WaitForMode::Unlocked) => seq!["-U"@],
        None => Seq::<Seq<char>>::empty(),
    }) + (match c.channel {
        Some(t) => seq![t@],
        None => Seq::<Seq<char>>::empty(),
    })
}

impl WaitFor {
    pub fn new() -> (r: WaitFor)
        ensures
            r.mode is None,
            r.channel is None,
    {
        WaitFor { mode: None, channel: None }
    }

    /// Builds `wait-for [-L | -S | -U] channel`: at most one mode flag.
    pub fn build(&self) -> (r: TmuxCommand)
        ensures
            spec_tokens(r) == seq!["wait-for"@] + spec_wait_for_args(*self),
            r.bin@ == "tmux"@,
            r.bin_args@.len() == 0,
    {
        let mut cmd = TmuxCommand::new();
        cmd.name("wait-for");
        match &self.mode {
            Some(WaitForMode::Locked) => cmd.push_flag("-L"),
            Some(WaitForMode::Signal) => cmd.push_flag("-S"),
            Some(WaitForMode::Unlocked) => cmd.push_flag("-U"),
            None => {},
        }
        if let Some(t) = &self.channel {
            cmd.push_param(t.as_str());
        }
        proof {
            assert(seq_strs(cmd.args@) =~= spec_wait_for_args(*self));
            assert(spec_tokens(cmd) =~= seq!["wait-for"@] + spec_wait_for_args(*self));
        }
        cmd
    }
}

impl TmuxCommand {
    /// A fresh `clock-mode` builder.
    pub fn clock_mode(&self) -> (r: ClockMode)
        ensures
            r.target_pane is None,
            r.target_window is None,
    {
        ClockMode::new()
    }

    /// A fresh `if-shell` builder.
    pub fn if_shell(&self) -> (r: IfShell)
        ensures
            r.backgrounded is None,
            r.format is None,
            r.target_pane is None,
            r.shell_command is None,
            r.command is None,
            r.second_command is None,
    {
        IfShell::new()
    }

    /// A fresh `lock-server` builder.
    pub fn lock_server(&self) -> (r: LockServer) {
        LockServer::new()
    }

    /// A fresh `run-shell` builder.
    pub fn run_shell(&self) -> (r: RunShell)
        ensures
            r.backgrounded is None,
            r.target_pane is None,
            r.shell_command is None,
    {
        RunShell::new()
    }

    /// A fresh `wait-for` builder.
    pub fn wait_for(&self) -> (r: WaitFor)
        ensures
            r.mode is None,
            r.channel is None,
    {
        WaitFor::new()
    }
}

} // verus!
