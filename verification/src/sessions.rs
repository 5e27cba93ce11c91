//! Builders for the client and session commands: `attach-session` and
//! `refresh-client`.

use vstd::prelude::*;

use crate::command::TmuxCommand;
use crate::common::TargetSession;
use crate::common::spec_target_session_text;
use crate::strutil::seq_strs;
use crate::strutil::spec_num_chars;
use crate::strutil::usize_to_string;

verus! {

/// Attach to an existing session.
///
/// # Manual
///
/// ```text
/// tmux attach-session [-dErx] [-c working-directory] [-t target-session]
/// (alias: attach)
/// ```
#[derive(Debug, Clone, Copy, Default)]
pub struct AttachSession<'a> {
    /// `[-d]` - detach any other clients attached to the session
    pub detach_other: Option<bool>,
    /// `[-E]` - do not apply `update-environment`
    pub not_update_env: Option<bool>,
    /// `[-r]` - attach read-only
    pub read_only: Option<bool>,
    /// `[-x]` - send SIGHUP to the parent process
    pub parent_sighup: Option<bool>,
    /// `[-c working-directory]`
    pub cwd: Option<&'a str>,
    /// `[-t target-session]`
    pub target_session: Option<&'a TargetSession<'a>>,
}

/// The arguments the interface emits for `attach-session`: booleans first in
/// declared order, then the value flags.
pub open spec fn spec_attach_session_args(c: AttachSession) -> Seq<Seq<char>> {
    (if c.detach_other == Some(true) {
        seq!["-d"@]
    } else {
        Seq::<Seq<char>>::empty()
    }) + (if c.not_update_env == Some(true) {
        seq!["-E"@]
    } else {
        Seq::<Seq<char>>::empty()
    }) + (if c.read_only == Some(true) {
        seq!["-r"@]
    } else {
        Seq::<Seq<char>>::empty()
    }) + (if c.parent_sighup == Some(true) {
        seq!["-x"@]
    } else {
        Seq::<Seq<char>>::empty()
    }) + (match c.cwd {
        Some(t) => seq!["-c"@, t@],
        None => Seq::<Seq<char>>::empty(),
    }) + (match c.target_session {
        Some(t) => seq!["-t"@, spec_target_session_text(*t)],
        None => Seq::<Seq<char>>::empty(),
    })
}

impl<'a> AttachSession<'a> {
    pub fn new() -> (r: AttachSession<'a>)
        ensures
            r.detach_other is None,
            r.not_update_env is None,
            r.read_only is None,
            r.parent_sighup is None,
            r.cwd is None,
            r.target_session is None,
    {
        AttachSession {
            detach_other: None,
            not_update_env: None,
            read_only: None,
            parent_sighup: None,
            cwd: None,
            target_session: None,
        }
    }
}

/// A chaining builder for [`AttachSession`].
#[derive(Debug, Clone, Copy, Default)]
pub struct AttachSessionBuilder<'a> {
    pub detach_other: Option<bool>,
    pub not_update_env: Option<bool>,
    pub read_only: Option<bool>,
    pub parent_sighup: Option<bool>,
    pub cwd: Option<&'a str>,
    pub target_session: Option<&'a TargetSession<'a>>,
}

impl<'a> AttachSessionBuilder<'a> {
    pub fn new() -> (r: AttachSessionBuilder<'a>)
        ensures
            r.detach_other is None,
            r.not_update_env is None,
            r.read_only is None,
            r.parent_sighup is None,
            r.cwd is None,
            r.target_session is None,
    {
        AttachSessionBuilder {
            detach_other: None,
            not_update_env: None,
            read_only: None,
            parent_sighup: None,
            cwd: None,
            target_session: None,
        }
    }

    pub fn detach_other(self) -> (r: AttachSessionBuilder<'a>)
        ensures
            r == (AttachSessionBuilder { detach_other: Some(true), ..self }),
    {
        AttachSessionBuilder { detach_other: Some(true), ..self }
    }

    pub fn not_update_env(self) -> (r: AttachSessionBuilder<'a>)
        ensures
            r == (AttachSessionBuilder { not_update_env: Some(true), ..self }),
    {
        AttachSessionBuilder { not_update_env: Some(true), ..self }
    }

    pub fn read_only(self) -> (r: AttachSessionBuilder<'a>)
        ensures
            r == (AttachSessionBuilder { read_only: Some(true), ..self }),
    {
        AttachSessionBuilder { read_only: Some(true), ..self }
    }

    pub fn parent_sighup(self) -> (r: AttachSessionBuilder<'a>)
        ensures
            r == (AttachSessionBuilder { parent_sighup: Some(true), ..self }),
    {
        AttachSessionBuilder { parent_sighup: Some(true), ..self }
    }

    pub fn cwd(self, cwd: &'a str) -> (r: AttachSessionBuilder<'a>)
        ensures
            r == (AttachSessionBuilder { cwd: Some(cwd), ..self }),
    {
        AttachSessionBuilder { cwd: Some(cwd), ..self }
    }

    pub fn target_session(self, target_session: &'a TargetSession<'a>) -> (r: AttachSessionBuilder<
        'a,
    >)
        ensures
            r == (AttachSessionBuilder { target_session: Some(target_session), ..self }),
    {
        AttachSessionBuilder { target_session: Some(target_session), ..self }
    }

    pub fn build(self) -> (r: AttachSession<'a>)
        ensures
            r.detach_other == self.detach_other,
            r.not_update_env == self.not_update_env,
            r.read_only == self.read_only,
            r.parent_sighup == self.parent_sighup,
            r.cwd == self.cwd,
            r.target_session == self.target_session,
    {
        AttachSession {
            detach_other: self.detach_other,
            not_update_env: self.not_update_env,
            read_only: self.read_only,
            parent_sighup: self.parent_sighup,
            cwd: self.cwd,
            target_session: self.target_session,
        }
    }
}

/// Refresh the current client.
///
/// # Manual
///
/// ```text
/// tmux refresh-client [-cDlLRSU] [-C XxY] [-F flags] [-t target-client]
/// [adjustment]
/// ```
#[derive(Debug, Clone, Copy, Default)]
pub struct RefreshClient<'a> {
    /// `[-c]` - return to tracking the cursor automatically
    pub tracking_cursor: Option<bool>,
    /// `[-D]` - move the visible part of a window down
    pub down: Option<bool>,
    /// `[-l]` - request the clipboard from the client
    pub request_clipboard: Option<bool>,
    /// `[-L]` - move the visible part of a window left
    pub left: Option<bool>,
    /// `[-R]` - move the visible part of a window right
    pub right: Option<bool>,
    /// `[-S]` - update the client's status line only
    pub status_line: Option<bool>,
    /// `[-U]` - move the visible part of a window up
    pub up: Option<bool>,
    /// `[-C XxY]` - set the width and height of a control-mode client
    pub size: Option<(usize, usize)>,
    /// `[-F flags]` - set a comma-separated list of client flags
    pub flags: Option<&'a str>,
    /// `[-t target-client]`
    pub target_client: Option<&'a str>,
    /// `[adjustment]` - number of rows or columns to move by
    pub adjustment: Option<usize>,
}

/// The text of the `-C` size value: width and height joined by `x`.
pub open spec fn spec_size_text(w: usize, h: usize) -> Seq<char> {
    spec_num_chars(w as nat) + "x"@ + spec_num_chars(h as nat)
}

/// The first boolean flags of `refresh-client`, `-c -D -l -L`, in declared
/// order.
pub open spec fn spec_rc_flags_a(c: RefreshClient) -> Seq<Seq<char>> {
    (if c.tracking_cursor == Some(true) {
        seq!["-c"@]
    } else {
        Seq::<Seq<char>>::empty()
    }) + (if c.down == Some(true) {
        seq!["-D"@]
    } else {
        Seq::<Seq<char>>::empty()
    }) + (if c.request_clipboard == Some(true) {
        seq!["-l"@]
    } else {
        Seq::<Seq<char>>::empty()
    }) + (if c.left == Some(true) {
        seq!["-L"@]
    } else {
        Seq::<Seq<char>>::empty()
    })
}

/// The remaining boolean flags of `refresh-client`, `-R -S -U`, in declared
/// order.
pub open spec fn spec_rc_flags_b(c: RefreshClient) -> Seq<Seq<char>> {
    (if c.right == Some(true) {
        seq!["-R"@]
    } else {
        Seq::<Seq<char>>::empty()
    }) + (if c.status_line == Some(true) {
        seq!["-S"@]
    } else {
        Seq::<Seq<char>>::empty()
    }) + (if c.up == Some(true) {
        seq!["-U"@]
    } else {
        Seq::<Seq<char>>::empty()
    })
}

/// The value flags and the positional adjustment of `refresh-client`, in
/// declared order.
pub open spec fn spec_rc_values(c: RefreshClient) -> Seq<Seq<char>> {
    (match c.size {
        Some((w, h)) => seq!["-C"@, spec_size_text(w, h)],
        None => Seq::<Seq<char>>::empty(),
    }) + (match c.flags {
        Some(t) => seq!["-F"@, t@],
        None => Seq::<Seq<char>>::empty(),
    }) + (match c.target_client {
        Some(t) => seq!["-t"@, t@],
        None => Seq::<Seq<char>>::empty(),
    }) + (match c.adjustment {
        Some(n) => seq![spec_num_chars(n as nat)],
        None => Seq::<Seq<char>>::empty(),
    })
}

/// The arguments the interface emits for `refresh-client`: booleans first in
/// declared order, then value flags, then the positional adjustment.
pub open spec fn spec_refresh_client_args(c: RefreshClient) -> Seq<Seq<char>> {
    spec_rc_flags_a(c) + spec_rc_flags_b(c) + spec_rc_values(c)
}

pub(crate) fn push_rc_flags_a(cmd: &mut TmuxCommand, c: &RefreshClient)
    ensures
        seq_strs(final(cmd).args@) == seq_strs(old(cmd).args@) + spec_rc_flags_a(*c),
        final(cmd).bin == old(cmd).bin,
        final(cmd).bin_args == old(cmd).bin_args,
        final(cmd).cmd == old(cmd).cmd,
{
    if c.tracking_cursor.is_some() && c.tracking_cursor.unwrap() {
        cmd.push_flag("-c");
    }
    if c.down.is_some() && c.down.unwrap() {
        cmd.push_flag("-D");
    }
    if c.request_clipboard.is_some() && c.request_clipboard.unwrap() {
        cmd.push_flag("-l");
    }
    if c.left.is_some() && c.left.unwrap() {
        cmd.push_flag("-L");
    }
    proof {
        assert(seq_strs(cmd.args@) =~= seq_strs(old(cmd).args@) + spec_rc_flags_a(*c));
    }
}

pub(crate) fn push_rc_flags_b(cmd: &mut TmuxCommand, c: &RefreshClient)
    ensures
        seq_strs(final(cmd).args@) == seq_strs(old(cmd).args@) + spec_rc_flags_b(*c),
        final(cmd).bin == old(cmd).bin,
        final(cmd).bin_args == old(cmd).bin_args,
        final(cmd).cmd == old(cmd).cmd,
{
    if c.right.is_some() && c.right.unwrap() {
        cmd.push_flag("-R");
    }
    if c.status_line.is_some() && c.status_line.unwrap() {
        cmd.push_flag("-S");
    }
    if c.up.is_some() && c.up.unwrap() {
        cmd.push_flag("-U");
    }
    proof {
        assert(seq_strs(cmd.args@) =~= seq_strs(old(cmd).args@) + spec_rc_flags_b(*c));
    }
}

pub(crate) fn push_rc_values(cmd: &mut TmuxCommand, c: &RefreshClient)
    ensures
        seq_strs(final(cmd).args@) == seq_strs(old(cmd).args@) + spec_rc_values(*c),
        final(cmd).bin == old(cmd).bin,
        final(cmd).bin_args == old(cmd).bin_args,
        final(cmd).cmd == old(cmd).cmd,
{
    if let Some((w, h)) = c.size {
        let mut d = usize_to_string(w);
        d.append("x");
        let hd = usize_to_string(h);
        d.append(hd.as_str());
        cmd.push_option("-C", d.as_str());
    }
    if let Some(t) = c.flags {
        cmd.push_option("-F", t);
    }
    if let Some(t) = c.target_client {
        cmd.push_option("-t", t);
    }
    if let Some(n) = c.adjustment {
        let d = usize_to_string(n);
        cmd.push_param(d.as_str());
    }
    proof {
        assert(seq_strs(cmd.args@) =~= seq_strs(old(cmd).args@) + spec_rc_values(*c));
    }
}

impl<'a> RefreshClient<'a> {
    pub fn new() -> (r: RefreshClient<'a>)
        ensures
            r.tracking_cursor is None,
            r.down is None,
            r.request_clipboard is None,
            r.left is None,
            r.right is None,
            r.status_line is None,
            r.up is None,
            r.size is None,
            r.flags is None,
            r.target_client is None,
            r.adjustment is None,
    {
        RefreshClient {
            tracking_cursor: None,
            down: None,
            request_clipboard: None,
            left: None,
            right: None,
            status_line: None,
            up: None,
            size: None,
            flags: None,
            target_client: None,
            adjustment: None,
        }
    }
}

} // verus!
