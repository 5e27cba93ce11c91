//! The option sub-language: composing `show-options` and `set-options`
//! commands parameterized by scope, locality, target and option name.
//!
//! Get operations return the command to run, never the value: the caller
//! runs the command and feeds the raw text back to a scope-specific decoder.
//! An array-valued option is addressed one index at a time — once flattened
//! to a single line, an array element cannot be told from a scalar value, so
//! several index assignments are never merged into one round trip.
//!
//! A user-defined option is distinguished from a built-in one purely by its
//! leading `@` marker; no other validation is performed.

use vstd::prelude::*;

use crate::command::TmuxCommand;
use crate::strutil::seq_strs;
use crate::strutil::spec_num_chars;
use crate::strutil::usize_to_string;
use crate::version::VersionGate;
use crate::version::spec_subcmd;

verus! {

/// The marker prefix of a user-defined option name.
pub const USER_OPTION_MARKER: &'static str = "@";

/// The hierarchy level an option or query applies to.
#[derive(Clone, Copy, Debug, PartialEq, Eq, Structural)]
pub enum OptionScope {
    /// `-s`: the server options.
    Server,
    /// The session options; the default, no scope flag.
    Session,
    /// `-w`: the window options.
    Window,
    /// `-p`: the pane options.
    Pane,
}

/// The scope flag tokens: the session scope is the default and has none.
pub open spec fn spec_scope_tokens(s: Option<OptionScope>) -> Seq<Seq<char>> {
    match s {
        Some(OptionScope::Server) => seq!["-s"@],
        Some(OptionScope::Session) => Seq::<Seq<char>>::empty(),
        Some(OptionScope::Window) => seq!["-w"@],
        Some(OptionScope::Pane) => seq!["-p"@],
        None => Seq::<Seq<char>>::empty(),
    }
}

/// Builds `show-options [-g] [-s|-w|-p] [-q] [-v] [-t target] [option]`
/// (alias: `show`).
#[derive(Debug, Clone, Default)]
pub struct ShowOptions {
    /// `[-g]`: the global options of the scope.
    pub global: Option<bool>,
    /// The scope whose options are shown.
    pub scope: Option<OptionScope>,
    /// `[-q]`: no error for unknown options.
    pub quiet: Option<bool>,
    /// `[-v]`: print the value only, without the option name.
    pub value: Option<bool>,
    /// `[-t target]`
    pub target: Option<String>,
    /// The option shown; all options of the scope when absent.
    pub option: Option<String>,
}

/// The arguments `build` emits for this builder, in flag order.
pub open spec fn spec_show_options_args(c: ShowOptions) -> Seq<Seq<char>> {
    (if c.global == Some(true) {
        seq!["-g"@]
    } else {
        Seq::<Seq<char>>::empty()
    }) + spec_scope_tokens(c.scope) + (if c.quiet == Some(true) {
        seq!["-q"@]
    } else {
        Seq::<Seq<char>>::empty()
    }) + (if c.value == Some(true) {
        seq!["-v"@]
    } else {
        Seq::<Seq<char>>::empty()
    }) + (match c.target {
        Some(t) => seq!["-t"@, t@],
        None => Seq::<Seq<char>>::empty(),
    }) + (match c.option {
        Some(t) => seq![t@],
        None => Seq::<Seq<char>>::empty(),
    })
}

impl ShowOptions {
    pub fn new() -> (r: ShowOptions)
        ensures
            r.global is None,
            r.scope is None,
            r.quiet is None,
            r.value is None,
            r.target is None,
            r.option is None,
    {
        ShowOptions {
            global: None,
            scope: None,
            quiet: None,
            value: None,
            target: None,
            option: None,
        }
    }

    /// `[-g]`
    pub fn global(self) -> (r: ShowOptions)
        ensures
            r == (ShowOptions { global: Some(true), ..self }),
    {
        ShowOptions { global: Some(true), ..self }
    }

    /// `[-s]`
    pub fn server(self) -> (r: ShowOptions)
        ensures
            r == (ShowOptions { scope: Some(OptionScope::Server), ..self }),
    {
        ShowOptions { scope: Some(OptionScope::Server), ..self }
    }

    /// The session scope, the default: no scope flag is emitted.
    pub fn session(self) -> (r: ShowOptions)
        ensures
            r == (ShowOptions { scope: Some(OptionScope::Session), ..self }),
    {
        ShowOptions { scope: Some(OptionScope::Session), ..self }
    }

    /// `[-w]`
    pub fn window(self) -> (r: ShowOptions)
        ensures
            r == (ShowOptions { scope: Some(OptionScope::Window), ..self }),
    {
        ShowOptions { scope: Some(OptionScope::Window), ..self }
    }

    /// `[-p]`
    pub fn pane(self) -> (r: ShowOptions)
        ensures
            r == (ShowOptions { scope: Some(OptionScope::Pane), ..self }),
    {
        ShowOptions { scope: Some(OptionScope::Pane), ..self }
    }

    /// The given scope.
    pub fn scope(self, scope: OptionScope) -> (r: ShowOptions)
        ensures
            r == (ShowOptions { scope: Some(scope), ..self }),
    {
        ShowOptions { scope: Some(scope), ..self }
    }

    /// `[-q]`
    pub fn quiet(self) -> (r: ShowOptions)
        ensures
            r == (ShowOptions { quiet: Some(true), ..self }),
    {
        ShowOptions { quiet: Some(true), ..self }
    }

    /// `[-v]`
    pub fn value(self) -> (r: ShowOptions)
        ensures
            r == (ShowOptions { value: Some(true), ..self }),
    {
        ShowOptions { value: Some(true), ..self }
    }

    /// `[-t target]`
    pub fn target(self, target: &str) -> (r: ShowOptions)
        ensures
            r.target matches Some(t) && t@ == target@,
            r == (ShowOptions { target: r.target, ..self }),
    {
        ShowOptions { target: Some(String::from_str(target)), ..self }
    }

    /// The option name shown.
    pub fn option(self, option: &str) -> (r: ShowOptions)
        ensures
            r.option matches Some(t) && t@ == option@,
            r == (ShowOptions { option: r.option, ..self }),
    {
        ShowOptions { option: Some(String::from_str(option)), ..self }
    }

    /// Builds the `show-options` command (alias: `show`).
    #[verifier::rlimit(100)]
    pub fn build(&self, gate: &VersionGate) -> (r: TmuxCommand)
        ensures
            r.cmd matches Some(c) && c@ == spec_subcmd(*gate, "show-options"@, "show"@),
            seq_strs(r.args@) == spec_show_options_args(*self),
            r.bin@ == "tmux"@,
            r.bin_args@.len() == 0,
    {
        let mut cmd = TmuxCommand::new();
        cmd.name(gate.subcmd("show-options", "show"));
        if self.global.is_some() && self.global.unwrap() {
            cmd.push_flag("-g");
        }
        match &self.scope {
            Some(OptionScope::Server) => cmd.push_flag("-s"),
            Some(OptionScope::Session) => {},
            Some(OptionScope::Window) => cmd.push_flag("-w"),
            Some(OptionScope::Pane) => cmd.push_flag("-p"),
            None => {},
        }
        if self.quiet.is_some() && self.quiet.unwrap() {
            cmd.push_flag("-q");
        }
        if self.value.is_some() && self.value.unwrap() {
            cmd.push_flag("-v");
        }
        if let Some(t) = &self.target {
            cmd.push_option("-t", t.as_str());
        }
        if let Some(t) = &self.option {
            cmd.push_param(t.as_str());
        }
        proof {
            assert(seq_strs(cmd.args@) =~= spec_show_options_args(*self));
        }
        cmd
    }
}

/// The option name with an array index appended: `name[i]`.
pub open spec fn spec_indexed_name(name: Seq<char>, i: nat) -> Seq<char> {
    name + "["@ + spec_num_chars(i) + "]"@
}

/// Renders `name[i]`.
pub fn indexed_name(name: &str, i: usize) -> (r: String)
    ensures
        r@ == spec_indexed_name(name@, i as nat),
{
    let mut out = String::from_str(name);
    out.append("[");
    let d = usize_to_string(i);
    out.append(d.as_str());
    out.append("]");
    out
}

/// The user-defined option name: the bare name behind the `@` marker.
pub fn user_option_name(name: &str) -> (r: String)
    ensures
        r@ == "@"@ + name@,
{
    let mut out = String::from_str(USER_OPTION_MARKER);
    out.append(name);
    out
}

/// Builds `set-option [-a] [-g] [-s|-w|-p] [-u] [-t target] option value`
/// (alias: `set`).
#[derive(Debug, Clone, Default)]
pub struct SetOption {
    /// `[-a]`: append to an existing value.
    pub append: Option<bool>,
    /// `[-g]`: the global options of the scope.
    pub global: Option<bool>,
    /// The scope whose option is set.
    pub scope: Option<OptionScope>,
    /// `[-u]`: unset the option.
    pub unset: Option<bool>,
    /// `[-t target]`
    pub target: Option<String>,
    /// The option name; an array option carries its explicit index.
    pub option: Option<String>,
    /// The value set; absent for an unset.
    pub value: Option<String>,
}

/// The arguments `build` emits for this builder, in flag order.
pub open spec fn spec_set_option_args(c: SetOption) -> Seq<Seq<char>> {
    (if c.append == Some(true) {
        seq!["-a"@]
    } else {
        Seq::<Seq<char>>::empty()
    }) + (if c.global == Some(true) {
        seq!["-g"@]
    } else {
        Seq::<Seq<char>>::empty()
    }) + spec_scope_tokens(c.scope) + (if c.unset == Some(true) {
        seq!["-u"@]
    } else {
        Seq::<Seq<char>>::empty()
    }) + (match c.target {
        Some(t) => seq!["-t"@, t@],
        None => Seq::<Seq<char>>::empty(),
    }) + (match c.option {
        Some(t) => seq![t@],
        None => Seq::<Seq<char>>::empty(),
    }) + (match c.value {
        Some(t) => seq![t@],
        None => Seq::<Seq<char>>::empty(),
    })
}

impl SetOption {
    pub fn new() -> (r: SetOption)
        ensures
            r.append is None,
            r.global is None,
            r.scope is None,
            r.unset is None,
            r.target is None,
            r.option is None,
            r.value is None,
    {
        SetOption {
            append: None,
            global: None,
            scope: None,
            unset: None,
            target: None,
            option: None,
            value: None,
        }
    }

    /// `[-a]`
    pub fn append(self) -> (r: SetOption)
        ensures
            r == (SetOption { append: Some(true), ..self }),
    {
        SetOption { append: Some(true), ..self }
    }

    /// `[-g]`
    pub fn global(self) -> (r: SetOption)
        ensures
            r == (SetOption { global: Some(true), ..self }),
    {
        SetOption { global: Some(true), ..self }
    }

    /// The given scope.
    pub fn scope(self, scope: OptionScope) -> (r: SetOption)
        ensures
            r == (SetOption { scope: Some(scope), ..self }),
    {
        SetOption { scope: Some(scope), ..self }
    }

    /// `[-s]`
    pub fn server(self) -> (r: SetOption)
        ensures
            r == (SetOption { scope: Some(OptionScope::Server), ..self }),
    {
        SetOption { scope: Some(OptionScope::Server), ..self }
    }

    /// `[-p]`
    pub fn pane(self) -> (r: SetOption)
        ensures
            r == (SetOption { scope: Some(OptionScope::Pane), ..self }),
    {
        SetOption { scope: Some(OptionScope::Pane), ..self }
    }

    /// `[-u]`
    pub fn unset(self) -> (r: SetOption)
        ensures
            r == (SetOption { unset: Some(true), ..self }),
    {
        SetOption { unset: Some(true), ..self }
    }

    /// `[-t target]`
    pub fn target(self, target: &str) -> (r: SetOption)
        ensures
            r.target matches Some(t) && t@ == target@,
            r == (SetOption { target: r.target, ..self }),
    {
        SetOption { target: Some(String::from_str(target)), ..self }
    }

    /// The option name set.
    pub fn option(self, option: &str) -> (r: SetOption)
        ensures
            r.option matches Some(t) && t@ == option@,
            r == (SetOption { option: r.option, ..self }),
    {
        SetOption { option: Some(String::from_str(option)), ..self }
    }

    /// The value set.
    pub fn value(self, value: &str) -> (r: SetOption)
        ensures
            r.value matches Some(t) && t@ == value@,
            r == (SetOption { value: r.value, ..self }),
    {
        SetOption { value: Some(String::from_str(value)), ..self }
    }

    /// Builds the `set-option` command (alias: `set`).
    #[verifier::rlimit(100)]
    pub fn build(&self, gate: &VersionGate) -> (r: TmuxCommand)
        ensures
            r.cmd matches Some(c) && c@ == spec_subcmd(*gate, "set-option"@, "set"@),
            seq_strs(r.args@) == spec_set_option_args(*self),
            r.bin@ == "tmux"@,
            r.bin_args@.len() == 0,
    {
        let mut cmd = TmuxCommand::new();
        cmd.name(gate.subcmd("set-option", "set"));
        if self.append.is_some() && self.append.unwrap() {
            cmd.push_flag("-a");
        }
        if self.global.is_some() && self.global.unwrap() {
            cmd.push_flag("-g");
        }
        match &self.scope {
            Some(OptionScope::Server) => cmd.push_flag("-s"),
            Some(OptionScope::Session) => {},
            Some(OptionScope::Window) => cmd.push_flag("-w"),
            Some(OptionScope::Pane) => cmd.push_flag("-p"),
            None => {},
        }
        if self.unset.is_some() && self.unset.unwrap() {
            cmd.push_flag("-u");
        }
        if let Some(t) = &self.target {
            cmd.push_option("-t", t.as_str());
        }
        if let Some(t) = &self.option {
            cmd.push_param(t.as_str());
        }
        if let Some(t) = &self.value {
            cmd.push_param(t.as_str());
        }
        proof {
            assert(seq_strs(cmd.args@) =~= spec_set_option_args(*self));
        }
        cmd
    }
}

} // verus!
