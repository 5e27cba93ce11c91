//! Builders for the buffer commands: `delete-buffer`, `set-buffer` and
//! `list-buffers`.
//!
//! The subcommand token honours the active alias preference; the
//! argument tokens after it do not depend on it.  Flags outside their
//! availability window are silently omitted.

use vstd::prelude::*;

use crate::command::TmuxCommand;
use crate::strutil::seq_strs;
use crate::version::Version;
use crate::version::VersionGate;
use crate::version::spec_subcmd;
use crate::version::version_le;
use crate::version::version_lt;

verus! {

/// Delete a buffer, or the most recently added one if none is named.
#[derive(Debug, Clone, Default)]
pub struct DeleteBuffer {
    /// `[-b buffer-name]`, available from tmux 2.0.
    pub buffer_name: Option<String>,
    /// `[-b buffer-index]`, available in tmux 0.8 up to 2.0.
    pub buffer_index: Option<String>,
    /// `[-t target-session]`, available in tmux 0.8 up to 1.5.
    pub target_session: Option<String>,
}

/// The subcommand token of `delete-buffer` under this gate.
pub open spec fn spec_delete_buffer_name(g: VersionGate) -> Seq<char> {
    spec_subcmd(g, "delete-buffer"@, "deleteb"@)
}

/// The arguments `build` emits for this builder under this gate.  The alias
/// preference plays no part here: it picks the subcommand token only.
pub open spec fn spec_delete_buffer_args(c: DeleteBuffer, g: VersionGate) -> Seq<Seq<char>> {
    (match c.buffer_name {
        Some(t) => if version_le(Version { major: 2, minor: 0 }, g.version) {
            seq!["-b"@, t@]
        } else {
            Seq::<Seq<char>>::empty()
        },
        None => Seq::<Seq<char>>::empty(),
    }) + (match c.buffer_index {
        Some(t) => if version_le(Version { major: 0, minor: 8 }, g.version) && version_lt(
            g.version,
            Version { major: 2, minor: 0 },
        ) {
            seq!["-b"@, t@]
        } else {
            Seq::<Seq<char>>::empty()
        },
        None => Seq::<Seq<char>>::empty(),
    }) + (match c.target_session {
        Some(t) => if version_le(Version { major: 0, minor: 8 }, g.version) && version_lt(
            g.version,
            Version { major: 1, minor: 5 },
        ) {
            seq!["-t"@, t@]
        } else {
            Seq::<Seq<char>>::empty()
        },
        None => Seq::<Seq<char>>::empty(),
    })
}

impl DeleteBuffer {
    pub fn new() -> (r: DeleteBuffer)
        ensures
            r.buffer_name is None,
            r.buffer_index is None,
            r.target_session is None,
    {
        DeleteBuffer { buffer_name: None, buffer_index: None, target_session: None }
    }

    /// `[-b buffer-name]`
    pub fn buffer_name(self, buffer_name: &str) -> (r: DeleteBuffer)
        ensures
            r.buffer_name matches Some(t) && t@ == buffer_name@,
            r.buffer_index == self.buffer_index,
            r.target_session == self.target_session,
    {
        DeleteBuffer { buffer_name: Some(String::from_str(buffer_name)), ..self }
    }

    /// `[-b buffer-index]`
    pub fn buffer_index(self, buffer_index: &str) -> (r: DeleteBuffer)
        ensures
            r.buffer_index matches Some(t) && t@ == buffer_index@,
            r.buffer_name == self.buffer_name,
            r.target_session == self.target_session,
    {
        DeleteBuffer { buffer_index: Some(String::from_str(buffer_index)), ..self }
    }

    /// `[-t target-session]`
    pub fn target_session(self, target_session: &str) -> (r: DeleteBuffer)
        ensures
            r.target_session matches Some(t) && t@ == target_session@,
            r.buffer_name == self.buffer_name,
            r.buffer_index == self.buffer_index,
    {
        DeleteBuffer { target_session: Some(String::from_str(target_session)), ..self }
    }

    /// Builds `delete-buffer [-b buffer-name]` (alias: `deleteb`).
    pub fn build(&self, gate: &VersionGate) -> (r: TmuxCommand)
        ensures
            r.cmd matches Some(c) && c@ == spec_delete_buffer_name(*gate),
            seq_strs(r.args@) == spec_delete_buffer_args(*self, *gate),
            r.bin@ == "tmux"@,
            r.bin_args@.len() == 0,
    {
        let mut cmd = TmuxCommand::new();
        cmd.name(gate.subcmd("delete-buffer", "deleteb"));
        if let Some(t) = &self.buffer_name {
            if gate.version.at_least(&Version::new(2, 0)) {
                cmd.push_option("-b", t.as_str());
            }
        }
        if let Some(t) = &self.buffer_index {
            if gate.version.at_least(&Version::new(0, 8)) && gate.version.below(
                &Version::new(2, 0),
            ) {
                cmd.push_option("-b", t.as_str());
            }
        }
        if let Some(t) = &self.target_session {
            if gate.version.at_least(&Version::new(0, 8)) && gate.version.below(
                &Version::new(1, 5),
            ) {
                cmd.push_option("-t", t.as_str());
            }
        }
        proof {
            assert(seq_strs(cmd.args@) =~= spec_delete_buffer_args(*self, *gate));
        }
        cmd
    }
}

/// The alias preference picks the subcommand token only: two gates that
/// agree on the version give `delete-buffer` builds with identical argument
/// tokens after the subcommand, whatever their alias preferences.
pub proof fn lemma_delete_buffer_alias_only_subcmd(c: DeleteBuffer, g1: VersionGate, g2: VersionGate)
    requires
        g1.version == g2.version,
    ensures
        spec_delete_buffer_args(c, g1) == spec_delete_buffer_args(c, g2),
{
}

/// Set the contents of a buffer.
#[derive(Debug, Clone, Default)]
pub struct SetBuffer {
    /// `[-a]`: append to the buffer; available from tmux 2.0.
    pub append: Option<bool>,
    /// `[-w]`: send to the clipboard; available from tmux 3.2.
    pub send_to_clipboard: Option<bool>,
    /// `[-b buffer-name]`, available from tmux 2.0.
    pub buffer_name: Option<String>,
    /// `[-t target-client]`, available from tmux 3.2.
    pub target_client: Option<String>,
    /// `[-n new-buffer-name]`, available from tmux 2.0.
    pub new_buffer_name: Option<String>,
    /// `[-b buffer-index]`, available in tmux 0.8 up to 2.0.
    pub buffer_index: Option<String>,
    /// `[-t target-session]`, available in tmux 0.8 up to 1.5.
    pub target_session: Option<String>,
    /// The buffer contents, the one positional argument.
    pub data: Option<String>,
}

/// The subcommand token of `set-buffer` under this gate.
pub open spec fn spec_set_buffer_name(g: VersionGate) -> Seq<char> {
    spec_subcmd(g, "set-buffer"@, "setb"@)
}

/// The arguments `build` emits for this builder under this gate: booleans
/// first in declared order, then value flags, then the positional data.
pub open spec fn spec_set_buffer_args(c: SetBuffer, g: VersionGate) -> Seq<Seq<char>> {
    (if c.append == Some(true) && version_le(Version { major: 2, minor: 0 }, g.version) {
        seq!["-a"@]
    } else {
        Seq::<Seq<char>>::empty()
    }) + (if c.send_to_clipboard == Some(true) && version_le(
        Version { major: 3, minor: 2 },
        g.version,
    ) {
        seq!["-w"@]
    } else {
        Seq::<Seq<char>>::empty()
    }) + (match c.buffer_name {
        Some(t) => if version_le(Version { major: 2, minor: 0 }, g.version) {
            seq!["-b"@, t@]
        } else {
            Seq::<Seq<char>>::empty()
        },
        None => Seq::<Seq<char>>::empty(),
    }) + (match c.target_client {
        Some(t) => if version_le(Version { major: 3, minor: 2 }, g.version) {
            seq!["-t"@, t@]
        } else {
            Seq::<Seq<char>>::empty()
        },
        None => Seq::<Seq<char>>::empty(),
    }) + (match c.new_buffer_name {
        Some(t) => if version_le(Version { major: 2, minor: 0 }, g.version) {
            seq!["-n"@, t@]
        } else {
            Seq::<Seq<char>>::empty()
        },
        None => Seq::<Seq<char>>::empty(),
    }) + (match c.buffer_index {
        Some(t) => if version_le(Version { major: 0, minor: 8 }, g.version) && version_lt(
            g.version,
            Version { major: 2, minor: 0 },
        ) {
            seq!["-b"@, t@]
        } else {
            Seq::<Seq<char>>::empty()
        },
        None => Seq::<Seq<char>>::empty(),
    }) + (match c.target_session {
        Some(t) => if version_le(Version { major: 0, minor: 8 }, g.version) && version_lt(
            g.version,
            Version { major: 1, minor: 5 },
        ) {
            seq!["-t"@, t@]
        } else {
            Seq::<Seq<char>>::empty()
        },
        None => Seq::<Seq<char>>::empty(),
    }) + (match c.data {
        Some(t) => seq![t@],
        None => Seq::<Seq<char>>::empty(),
    })
}

impl SetBuffer {
    pub fn new() -> (r: SetBuffer)
        ensures
            r.append is None,
            r.send_to_clipboard is None,
            r.buffer_name is None,
            r.target_client is None,
            r.new_buffer_name is None,
            r.buffer_index is None,
            r.target_session is None,
            r.data is None,
    {
        SetBuffer {
            append: None,
            send_to_clipboard: None,
            buffer_name: None,
            target_client: None,
            new_buffer_name: None,
            buffer_index: None,
            target_session: None,
            data: None,
        }
    }

    /// `[-a]`
    pub fn append(self) -> (r: SetBuffer)
        ensures
            r == (SetBuffer { append: Some(true), ..self }),
    {
        SetBuffer { append: Some(true), ..self }
    }

    /// `[-w]`
    pub fn send_to_clipboard(self) -> (r: SetBuffer)
        ensures
            r == (SetBuffer { send_to_clipboard: Some(true), ..self }),
    {
        SetBuffer { send_to_clipboard: Some(true), ..self }
    }

    /// `[-b buffer-name]`
    pub fn buffer_name(self, buffer_name: &str) -> (r: SetBuffer)
        ensures
            r.buffer_name matches Some(t) && t@ == buffer_name@,
            r == (SetBuffer { buffer_name: r.buffer_name, ..self }),
    {
        SetBuffer { buffer_name: Some(String::from_str(buffer_name)), ..self }
    }

    /// `[-t target-client]`
    pub fn target_client(self, target_client: &str) -> (r: SetBuffer)
        ensures
            r.target_client matches Some(t) && t@ == target_client@,
            r == (SetBuffer { target_client: r.target_client, ..self }),
    {
        SetBuffer { target_client: Some(String::from_str(target_client)), ..self }
    }

    /// `[-n new-buffer-name]`
    pub fn new_buffer_name(self, new_buffer_name: &str) -> (r: SetBuffer)
        ensures
            r.new_buffer_name matches Some(t) && t@ == new_buffer_name@,
            r == (SetBuffer { new_buffer_name: r.new_buffer_name, ..self }),
    {
        SetBuffer { new_buffer_name: Some(String::from_str(new_buffer_name)), ..self }
    }

    /// `[-b buffer-index]`
    pub fn buffer_index(self, buffer_index: &str) -> (r: SetBuffer)
        ensures
            r.buffer_index matches Some(t) && t@ == buffer_index@,
            r == (SetBuffer { buffer_index: r.buffer_index, ..self }),
    {
        SetBuffer { buffer_index: Some(String::from_str(buffer_index)), ..self }
    }

    /// `[-t target-session]`
    pub fn target_session(self, target_session: &str) -> (r: SetBuffer)
        ensures
            r.target_session matches Some(t) && t@ == target_session@,
            r == (SetBuffer { target_session: r.target_session, ..self }),
    {
        SetBuffer { target_session: Some(String::from_str(target_session)), ..self }
    }

    /// The positional buffer contents.
    pub fn data(self, data: &str) -> (r: SetBuffer)
        ensures
            r.data matches Some(t) && t@ == data@,
            r == (SetBuffer { data: r.data, ..self }),
    {
        SetBuffer { data: Some(String::from_str(data)), ..self }
    }

    /// Builds `set-buffer [-aw] [-b buffer-name] [-t target-client]
    /// [-n new-buffer-name] data` (alias: `setb`).
    pub fn build(&self, gate: &VersionGate) -> (r: TmuxCommand)
        ensures
            r.cmd matches Some(c) && c@ == spec_set_buffer_name(*gate),
            seq_strs(r.args@) == spec_set_buffer_args(*self, *gate),
            r.bin@ == "tmux"@,
            r.bin_args@.len() == 0,
    {
        let mut cmd = TmuxCommand::new();
        cmd.name(gate.subcmd("set-buffer", "setb"));
        if self.append.is_some() && self.append.unwrap() && gate.version.at_least(
            &Version::new(2, 0),
        ) {
            cmd.push_flag("-a");
        }
        if self.send_to_clipboard.is_some() && self.send_to_clipboard.unwrap()
            && gate.version.at_least(&Version::new(3, 2)) {
            cmd.push_flag("-w");
        }
        if let Some(t) = &self.buffer_name {
            if gate.version.at_least(&Version::new(2, 0)) {
                cmd.push_option("-b", t.as_str());
            }
        }
        if let Some(t) = &self.target_client {
            if gate.version.at_least(&Version::new(3, 2)) {
                cmd.push_option("-t", t.as_str());
            }
        }
        if let Some(t) = &self.new_buffer_name {
            if gate.version.at_least(&Version::new(2, 0)) {
                cmd.push_option("-n", t.as_str());
            }
        }
        if let Some(t) = &self.buffer_index {
            if gate.version.at_least(&Version::new(0, 8)) && gate.version.below(
                &Version::new(2, 0),
            ) {
                cmd.push_option("-b", t.as_str());
            }
        }
        if let Some(t) = &self.target_session {
            if gate.version.at_least(&Version::new(0, 8)) && gate.version.below(
                &Version::new(1, 5),
            ) {
                cmd.push_option("-t", t.as_str());
            }
        }
        if let Some(t) = &self.data {
            cmd.push_param(t.as_str());
        }
        proof {
            assert(seq_strs(cmd.args@) =~= spec_set_buffer_args(*self, *gate));
        }
        cmd
    }
}

/// The alias preference picks the subcommand token of `set-buffer` only.
pub proof fn lemma_set_buffer_alias_only_subcmd(c: SetBuffer, g1: VersionGate, g2: VersionGate)
    requires
        g1.version == g2.version,
    ensures
        spec_set_buffer_args(c, g1) == spec_set_buffer_args(c, g2),
{
}

/// List the global buffers.
#[derive(Debug, Clone, Default)]
pub struct ListBuffers {
    /// `[-F format]`, available from tmux 1.7.
    pub format: Option<String>,
    /// `[-t target-session]`, available in tmux 0.8 up to 1.5.
    pub target_session: Option<String>,
}

/// The subcommand token of `list-buffers` under this gate.
pub open spec fn spec_list_buffers_name(g: VersionGate) -> Seq<char> {
    spec_subcmd(g, "list-buffers"@, "lsb"@)
}

/// The arguments `build` emits for this builder under this gate.
pub open spec fn spec_list_buffers_args(c: ListBuffers, g: VersionGate) -> Seq<Seq<char>> {
    (match c.format {
        Some(t) => if version_le(Version { major: 1, minor: 7 }, g.version) {
            seq!["-F"@, t@]
        } else {
            Seq::<Seq<char>>::empty()
        },
        None => Seq::<Seq<char>>::empty(),
    }) + (match c.target_session {
        Some(t) => if version_le(Version { major: 0, minor: 8 }, g.version) && version_lt(
            g.version,
            Version { major: 1, minor: 5 },
        ) {
            seq!["-t"@, t@]
        } else {
            Seq::<Seq<char>>::empty()
        },
        None => Seq::<Seq<char>>::empty(),
    })
}

impl ListBuffers {
    pub fn new() -> (r: ListBuffers)
        ensures
            r.format is None,
            r.target_session is None,
    {
        ListBuffers { format: None, target_session: None }
    }

    /// `[-F format]`
    pub fn format(self, format: &str) -> (r: ListBuffers)
        ensures
            r.format matches Some(t) && t@ == format@,
            r.target_session == self.target_session,
    {
        ListBuffers { format: Some(String::from_str(format)), ..self }
    }

    /// Builds `list-buffers [-F format]` (alias: `lsb`).
    pub fn build(&self, gate: &VersionGate) -> (r: TmuxCommand)
        ensures
            r.cmd matches Some(c) && c@ == spec_list_buffers_name(*gate),
            seq_strs(r.args@) == spec_list_buffers_args(*self, *gate),
            r.bin@ == "tmux"@,
            r.bin_args@.len() == 0,
    {
        let mut cmd = TmuxCommand::new();
        cmd.name(gate.subcmd("list-buffers", "lsb"));
        if let Some(t) = &self.format {
            if gate.version.at_least(&Version::new(1, 7)) {
                cmd.push_option("-F", t.as_str());
            }
        }
        if let Some(t) = &self.target_session {
            if gate.version.at_least(&Version::new(0, 8)) && gate.version.below(
                &Version::new(1, 5),
            ) {
                cmd.push_option("-t", t.as_str());
            }
        }
        proof {
            assert(seq_strs(cmd.args@) =~= spec_list_buffers_args(*self, *gate));
        }
        cmd
    }
}

} // verus!
