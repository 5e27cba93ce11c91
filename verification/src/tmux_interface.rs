//! The command interface: one method per tmux command, each assembling the
//! argument vector the external binary accepts.
//!
//! The interface never spawns a process.  Every method returns the
//! [`TmuxCommand`] to run; the caller invokes the binary and, where a
//! command answers with text, feeds the raw output back to the matching
//! decoder.  The interface carries the invocation context: the declared tool
//! version and the alias preference, consulted by every builder.

use vstd::prelude::*;

use crate::buffers::DeleteBuffer;
use crate::buffers::ListBuffers;
use crate::buffers::spec_delete_buffer_name;
use crate::buffers::spec_list_buffers_name;
use crate::command::TmuxCommand;
use crate::command::spec_tokens;
use crate::sessions::AttachSession;
use crate::sessions::RefreshClient;
use crate::sessions::push_rc_flags_a;
use crate::sessions::push_rc_flags_b;
use crate::sessions::push_rc_values;
use crate::sessions::spec_attach_session_args;
use crate::sessions::spec_refresh_client_args;
use crate::split_window::SplitWindow;
use crate::split_window::spec_split_window_args;
use crate::split_window::spec_split_window_name;
use crate::strutil::seq_strs;
use crate::strutil::view_opt_str;
use crate::version::Version;
use crate::version::VersionGate;
use crate::version::spec_subcmd;
use crate::version::version_le;

verus! {

/// The invocation context of the interface: the target binary and the
/// version gate every builder consults.
#[derive(Debug, Clone)]
pub struct TmuxInterface {
    /// The target binary.
    pub bin: String,
    /// Arguments passed to the binary before the subcommand.
    pub bin_args: Vec<String>,
    /// The declared tool version and the alias preference.
    pub gate: VersionGate,
}

/// The arguments of `rename-session`: the optional target, then the new
/// name as the one positional argument.
pub open spec fn spec_rename_session_args(target: Option<Seq<char>>, name: Seq<char>) -> Seq<
    Seq<char>,
> {
    (match target {
        Some(t) => seq!["-t"@, t],
        None => Seq::<Seq<char>>::empty(),
    }) + seq![name]
}

/// The arguments of `list-panes`, in flag order.
pub open spec fn spec_list_panes_args(
    all: Option<bool>,
    session: Option<bool>,
    format: Option<Seq<char>>,
    target: Option<Seq<char>>,
) -> Seq<Seq<char>> {
    (if all == Some(true) {
        seq!["-a"@]
    } else {
        Seq::<Seq<char>>::empty()
    }) + (if session == Some(true) {
        seq!["-s"@]
    } else {
        Seq::<Seq<char>>::empty()
    }) + (match format {
        Some(t) => seq!["-F"@, t],
        None => Seq::<Seq<char>>::empty(),
    }) + (match target {
        Some(t) => seq!["-t"@, t],
        None => Seq::<Seq<char>>::empty(),
    })
}

/// The arguments of `previous-window`, in flag order.
pub open spec fn spec_previous_window_args(alert: Option<bool>, target: Option<Seq<char>>) -> Seq<
    Seq<char>,
> {
    (if alert == Some(true) {
        seq!["-a"@]
    } else {
        Seq::<Seq<char>>::empty()
    }) + (match target {
        Some(t) => seq!["-t"@, t],
        None => Seq::<Seq<char>>::empty(),
    })
}

impl TmuxInterface {
    /// An interface for the `tmux` binary, gated at the newest supported
    /// version, preferring canonical long subcommand names.
    pub fn new() -> (r: TmuxInterface)
        ensures
            r.bin@ == "tmux"@,
            r.bin_args@.len() == 0,
            r.gate.version.major == 3,
            r.gate.version.minor == 3,
            !r.gate.cmd_alias,
    {
        TmuxInterface {
            bin: String::from_str("tmux"),
            bin_args: Vec::new(),
            gate: VersionGate::new(3, 3),
        }
    }

    /// Builds `attach-session [-dErx] [-c working-directory]
    /// [-t target-session]`.
    pub fn attach_session(&self, attach_session: Option<&AttachSession>) -> (r: TmuxCommand)
        ensures
            r.cmd matches Some(c) && c@ == spec_subcmd(self.gate, "attach-session"@, "attach"@),
            seq_strs(r.args@) == (match attach_session {
                Some(a) => spec_attach_session_args(*a),
                None => Seq::<Seq<char>>::empty(),
            }),
            r.bin@ == "tmux"@,
            r.bin_args@.len() == 0,
    {
        let mut cmd = TmuxCommand::new();
        cmd.name(self.gate.subcmd("attach-session", "attach"));
        if let Some(a) = attach_session {
            if a.detach_other.is_some() && a.detach_other.unwrap() {
                cmd.push_flag("-d");
            }
            if a.not_update_env.is_some() && a.not_update_env.unwrap() {
                cmd.push_flag("-E");
            }
            if a.read_only.is_some() && a.read_only.unwrap() {
                cmd.push_flag("-r");
            }
            if a.parent_sighup.is_some() && a.parent_sighup.unwrap() {
                cmd.push_flag("-x");
            }
            if let Some(t) = a.cwd {
                cmd.push_option("-c", t);
            }
            if let Some(t) = a.target_session {
                let text = t.to_text();
                cmd.push_option("-t", text.as_str());
            }
            proof {
                assert(seq_strs(cmd.args@) =~= spec_attach_session_args(*a));
            }
        } else {
            proof {
                assert(seq_strs(cmd.args@) =~= Seq::<Seq<char>>::empty());
            }
        }
        cmd
    }

    /// Builds `refresh-client [-cDlLRSU] [-C XxY] [-F flags]
    /// [-t target-client] [adjustment]`.
    pub fn refresh_client(&self, refresh_client: Option<&RefreshClient>) -> (r: TmuxCommand)
        ensures
            r.cmd matches Some(c) && c@ == spec_subcmd(self.gate, "refresh-client"@, "refresh"@),
            seq_strs(r.args@) == (match refresh_client {
                Some(a) => spec_refresh_client_args(*a),
                None => Seq::<Seq<char>>::empty(),
            }),
            r.bin@ == "tmux"@,
            r.bin_args@.len() == 0,
    {
        let mut cmd = TmuxCommand::new();
        cmd.name(self.gate.subcmd("refresh-client", "refresh"));
        if let Some(a) = refresh_client {
            let ghost a0 = seq_strs(cmd.args@);
            push_rc_flags_a(&mut cmd, a);
            push_rc_flags_b(&mut cmd, a);
            push_rc_values(&mut cmd, a);
            proof {
                assert(a0 =~= Seq::<Seq<char>>::empty());
                assert(seq_strs(cmd.args@) =~= spec_refresh_client_args(*a));
            }
        } else {
            proof {
                assert(seq_strs(cmd.args@) =~= Seq::<Seq<char>>::empty());
            }
        }
        cmd
    }

    /// Builds `rename-session [-t target-session] new-name`.
    pub fn rename_session(&self, target_session: Option<&str>, new_name: &str) -> (r: TmuxCommand)
        ensures
            r.cmd matches Some(c) && c@ == spec_subcmd(self.gate, "rename-session"@, "rename"@),
            seq_strs(r.args@) == spec_rename_session_args(view_opt_str(target_session), new_name@),
            r.bin@ == "tmux"@,
            r.bin_args@.len() == 0,
    {
        let mut cmd = TmuxCommand::new();
        cmd.name(self.gate.subcmd("rename-session", "rename"));
        if let Some(t) = target_session {
            cmd.push_option("-t", t);
        }
        cmd.push_param(new_name);
        proof {
            assert(seq_strs(cmd.args@) =~= spec_rename_session_args(
                view_opt_str(target_session),
                new_name@,
            ));
        }
        cmd
    }

    /// Builds `list-panes [-as] [-F format] [-t target]` (alias: `lsp`).
    pub fn list_panes(
        &self,
        all: Option<bool>,
        session: Option<bool>,
        format: Option<&str>,
        target: Option<&str>,
    ) -> (r: TmuxCommand)
        ensures
            r.cmd matches Some(c) && c@ == spec_subcmd(self.gate, "list-panes"@, "lsp"@),
            seq_strs(r.args@) == spec_list_panes_args(
                all,
                session,
                view_opt_str(format),
                view_opt_str(target),
            ),
            r.bin@ == "tmux"@,
            r.bin_args@.len() == 0,
    {
        let mut cmd = TmuxCommand::new();
        cmd.name(self.gate.subcmd("list-panes", "lsp"));
        if all.is_some() && all.unwrap() {
            cmd.push_flag("-a");
        }
        if session.is_some() && session.unwrap() {
            cmd.push_flag("-s");
        }
        if let Some(t) = format {
            cmd.push_option("-F", t);
        }
        if let Some(t) = target {
            cmd.push_option("-t", t);
        }
        proof {
            assert(seq_strs(cmd.args@) =~= spec_list_panes_args(
                all,
                session,
                view_opt_str(format),
                view_opt_str(target),
            ));
        }
        cmd
    }

    /// Builds `split-window [...]` from the given builder, or the bare
    /// subcommand when none is given.
    pub fn split_window(&self, split_window: Option<&SplitWindow>) -> (r: TmuxCommand)
        ensures
            r.cmd matches Some(c) && c@ == spec_split_window_name(self.gate),
            seq_strs(r.args@) == (match split_window {
                Some(sw) => spec_split_window_args(*sw, self.gate),
                None => Seq::<Seq<char>>::empty(),
            }),
            r.bin@ == "tmux"@,
            r.bin_args@.len() == 0,
    {
        match split_window {
            Some(sw) => sw.build(&self.gate),
            None => {
                let mut cmd = TmuxCommand::new();
                cmd.name(self.gate.subcmd("split-window", "splitw"));
                proof {
                    assert(seq_strs(cmd.args@) =~= Seq::<Seq<char>>::empty());
                }
                cmd
            },
        }
    }

    /// Builds `delete-buffer [-b buffer-name]` (alias: `deleteb`).
    pub fn delete_buffer(&self, buffer_name: Option<&str>) -> (r: TmuxCommand)
        ensures
            r.cmd matches Some(c) && c@ == spec_delete_buffer_name(self.gate),
            seq_strs(r.args@) == (match view_opt_str(buffer_name) {
                Some(t) => if version_le(Version { major: 2, minor: 0 }, self.gate.version) {
                    seq!["-b"@, t]
                } else {
                    Seq::<Seq<char>>::empty()
                },
                None => Seq::<Seq<char>>::empty(),
            }),
            r.bin@ == "tmux"@,
            r.bin_args@.len() == 0,
    {
        let mut b = DeleteBuffer::new();
        if let Some(n) = buffer_name {
            b = b.buffer_name(n);
        }
        let r = b.build(&self.gate);
        proof {
            assert(seq_strs(r.args@) =~= (match view_opt_str(buffer_name) {
                Some(t) => if version_le(Version { major: 2, minor: 0 }, self.gate.version) {
                    seq!["-b"@, t]
                } else {
                    Seq::<Seq<char>>::empty()
                },
                None => Seq::<Seq<char>>::empty(),
            }));
        }
        r
    }

    /// Builds `list-buffers [-F format]` (alias: `lsb`).
    pub fn list_buffers(&self, format: Option<&str>) -> (r: TmuxCommand)
        ensures
            r.cmd matches Some(c) && c@ == spec_list_buffers_name(self.gate),
            seq_strs(r.args@) == (match view_opt_str(format) {
                Some(t) => if version_le(Version { major: 1, minor: 7 }, self.gate.version) {
                    seq!["-F"@, t]
                } else {
                    Seq::<Seq<char>>::empty()
                },
                None => Seq::<Seq<char>>::empty(),
            }),
            r.bin@ == "tmux"@,
            r.bin_args@.len() == 0,
    {
        let mut b = ListBuffers::new();
        if let Some(f) = format {
            b = b.format(f);
        }
        let r = b.build(&self.gate);
        proof {
            assert(seq_strs(r.args@) =~= (match view_opt_str(format) {
                Some(t) => if version_le(Version { major: 1, minor: 7 }, self.gate.version) {
                    seq!["-F"@, t]
                } else {
                    Seq::<Seq<char>>::empty()
                },
                None => Seq::<Seq<char>>::empty(),
            }));
        }
        r
    }

    /// Builds `kill-server`, which takes no arguments.
    pub fn kill_server(&self) -> (r: TmuxCommand)
        ensures
            spec_tokens(r) == seq!["kill-server"@],
            r.bin@ == "tmux"@,
            r.bin_args@.len() == 0,
    {
        let mut cmd = TmuxCommand::new();
        cmd.name("kill-server");
        proof {
            assert(spec_tokens(cmd) =~= seq!["kill-server"@]);
        }
        cmd
    }

    /// Builds `previous-window [-a] [-t target-session]` (alias: `prev`).
    pub fn previous_window(&self, alert: Option<bool>, target_session: Option<&str>) -> (
        r: TmuxCommand
    )
        ensures
            r.cmd matches Some(c) && c@ == spec_subcmd(self.gate, "previous-window"@, "prev"@),
            seq_strs(r.args@) == spec_previous_window_args(alert, view_opt_str(target_session)),
            r.bin@ == "tmux"@,
            r.bin_args@.len() == 0,
    {
        let mut cmd = TmuxCommand::new();
        cmd.name(self.gate.subcmd("previous-window", "prev"));
        if alert.is_some() && alert.unwrap() {
            cmd.push_flag("-a");
        }
        if let Some(t) = target_session {
            cmd.push_option("-t", t);
        }
        proof {
            assert(seq_strs(cmd.args@) =~= spec_previous_window_args(
                alert,
                view_opt_str(target_session),
            ));
        }
        cmd
    }
}

} // verus!
