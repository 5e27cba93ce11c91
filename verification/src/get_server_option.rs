//! Getting and setting server options.
//!
//! Each getter composes the `show-options` command asking for one server
//! option's value; the caller runs it and hands the raw output to
//! [`TmuxServerOptionOutput`], the matching decoder.  Array-valued options
//! are set one index per command, never merged into one round trip.

use vstd::prelude::*;

use crate::command::TmuxCommand;
use crate::command::TmuxCommands;
use crate::command::spec_tokens;
use crate::options::SetOption;
use crate::options::ShowOptions;
use crate::options::spec_indexed_name;
use crate::options::indexed_name;
use crate::options::user_option_name;
use crate::strutil::lines_of;
use crate::strutil::parse_usize;
use crate::strutil::seq_strs;
use crate::strutil::spec_lines;
use crate::strutil::spec_parse_usize;
use crate::strutil::spec_trim;
use crate::strutil::trim_str;
use crate::version::VersionGate;

verus! {

// The server option names, each with its availability in the manual.
pub const BACKSPACE: &'static str = "backspace";

pub const BUFFER_LIMIT: &'static str = "buffer-limit";

pub const COMMAND_ALIAS: &'static str = "command-alias";

pub const COPY_COMMAND: &'static str = "copy-command";

pub const DEFAULT_TERMINAL: &'static str = "default-terminal";

pub const ESCAPE_TIME: &'static str = "escape-time";

pub const EDITOR: &'static str = "editor";

pub const EXIT_EMPTY: &'static str = "exit-empty";

pub const EXIT_UNATTACHED: &'static str = "exit-unattached";

pub const EXTENDED_KEYS: &'static str = "extended-keys";

pub const FOCUS_EVENTS: &'static str = "focus-events";

pub const HISTORY_FILE: &'static str = "history-file";

pub const MESSAGE_LIMIT: &'static str = "message-limit";

pub const PROMPT_HISTORY_LIMIT: &'static str = "prompt-history-limit";

pub const SET_CLIPBOARD: &'static str = "set-clipboard";

pub const TERMINAL_FEATURES: &'static str = "terminal-features";

pub const TERMINAL_OVERRIDES: &'static str = "terminal-overrides";

pub const USER_KEYS: &'static str = "user-keys";

pub const QUIET: &'static str = "quiet";

pub const DETACH_ON_DESTROY: &'static str = "detach-on-destroy";

/// The tokens of the command asking for one server option's value.
pub open spec fn spec_get_server_option(name: Seq<char>) -> Seq<Seq<char>> {
    seq!["show-options"@, "-s"@, "-v"@, name]
}

/// The tokens of the same query over the global server options.
pub open spec fn spec_get_global_server_option(name: Seq<char>) -> Seq<Seq<char>> {
    seq!["show-options"@, "-g"@, "-s"@, "-v"@, name]
}

/// Composes the command asking for one option's value.  Each implementor
/// names the tokens of its query in `spec_get`, and `get` is bound to emit
/// exactly them.
pub trait Getter {
    /// The tokens of the composed query for the named option.
    spec fn spec_get(name: Seq<char>) -> Seq<Seq<char>>;

    /// Composes the command asking for one option's value.
    fn get(name: &str) -> (r: TmuxCommand)
        ensures
            spec_tokens(r) == Self::spec_get(name@),
            r.bin@ == "tmux"@,
            r.bin_args@.len() == 0,
    ;
}

/// Composes queries over the server options.
pub struct GetServerOption {}

/// Composes queries over the global server options.
pub struct GetGlobalServerOption {}

impl Getter for GetServerOption {
    open spec fn spec_get(name: Seq<char>) -> Seq<Seq<char>> {
        spec_get_server_option(name)
    }

    fn get(name: &str) -> (r: TmuxCommand) {
        GetServerOption::get(name)
    }
}

impl Getter for GetGlobalServerOption {
    open spec fn spec_get(name: Seq<char>) -> Seq<Seq<char>> {
        spec_get_global_server_option(name)
    }

    fn get(name: &str) -> (r: TmuxCommand) {
        GetGlobalServerOption::get(name)
    }
}

impl GetGlobalServerOption {
    /// The query for one global server option's value:
    /// `show-options -g -s -v name`.
    pub fn get(name: &str) -> (r: TmuxCommand)
        ensures
            spec_tokens(r) == spec_get_global_server_option(name@),
            r.bin@ == "tmux"@,
            r.bin_args@.len() == 0,
    {
        // only the alias preference matters here, and the canonical long
        // name is wanted
        let gate = VersionGate::new(3, 3);
        let r = ShowOptions::new().global().server().option(name).value().build(&gate);
        proof {
            assert(spec_tokens(r) =~= spec_get_global_server_option(name@));
        }
        r
    }
}

impl GetServerOption {
    /// The query for one server option's value: `show-options -s -v name`.
    pub fn get(name: &str) -> (r: TmuxCommand)
        ensures
            spec_tokens(r) == spec_get_server_option(name@),
            r.bin@ == "tmux"@,
            r.bin_args@.len() == 0,
    {
        // only the alias preference matters here, and the canonical long
        // name is wanted
        let gate = VersionGate::new(3, 3);
        let r = ShowOptions::new().server().option(name).value().build(&gate);
        proof {
            assert(spec_tokens(r) =~= spec_get_server_option(name@));
        }
        r
    }

    /// ### Manual
    ///
    /// tmux ^3.1:
    /// ```text
    /// backspace key
    /// ```
    pub fn backspace() -> (r: TmuxCommand)
        ensures
            spec_tokens(r) == spec_get_server_option("backspace"@),
    {
        Self::get(BACKSPACE)
    }

    /// ### Manual
    ///
    /// tmux ^1.5:
    /// ```text
    /// buffer-limit number
    /// ```
    pub fn buffer_limit() -> (r: TmuxCommand)
        ensures
            spec_tokens(r) == spec_get_server_option("buffer-limit"@),
    {
        Self::get(BUFFER_LIMIT)
    }

    /// ### Manual
    ///
    /// tmux ^2.4:
    /// ```text
    /// command-alias[] name=value
    /// ```
    pub fn command_alias() -> (r: TmuxCommand)
        ensures
            spec_tokens(r) == spec_get_server_option("command-alias"@),
    {
        Self::get(COMMAND_ALIAS)
    }

    /// ### Manual
    ///
    /// tmux ^3.2:
    /// ```text
    /// copy-command shell-command
    /// ```
    pub fn copy_command() -> (r: TmuxCommand)
        ensures
            spec_tokens(r) == spec_get_server_option("copy-command"@),
    {
        Self::get(COPY_COMMAND)
    }

    /// ### Manual
    ///
    /// tmux ^2.1:
    /// ```text
    /// default-terminal terminal
    /// ```
    pub fn default_terminal() -> (r: TmuxCommand)
        ensures
            spec_tokens(r) == spec_get_server_option("default-terminal"@),
    {
        Self::get(DEFAULT_TERMINAL)
    }

    /// ### Manual
    ///
    /// tmux ^1.2:
    /// ```text
    /// escape-time time
    /// ```
    pub fn escape_time() -> (r: TmuxCommand)
        ensures
            spec_tokens(r) == spec_get_server_option("escape-time"@),
    {
        Self::get(ESCAPE_TIME)
    }

    /// ### Manual
    ///
    /// tmux ^3.2:
    /// ```text
    /// editor shell-command
    /// ```
    pub fn editor() -> (r: TmuxCommand)
        ensures
            spec_tokens(r) == spec_get_server_option("editor"@),
    {
        Self::get(EDITOR)
    }

    /// ### Manual
    ///
    /// tmux ^2.7:
    /// ```text
    /// exit-empty [on | off]
    /// ```
    pub fn exit_empty() -> (r: TmuxCommand)
        ensures
            spec_tokens(r) == spec_get_server_option("exit-empty"@),
    {
        Self::get(EXIT_EMPTY)
    }

    /// ### Manual
    ///
    /// tmux ^1.4:
    /// ```text
    /// exit-unattached [on | off]
    /// ```
    pub fn exit_unattached() -> (r: TmuxCommand)
        ensures
            spec_tokens(r) == spec_get_server_option("exit-unattached"@),
    {
        Self::get(EXIT_UNATTACHED)
    }

    /// ### Manual
    ///
    /// tmux ^3.2:
    /// ```text
    /// extended-keys [on | off]
    /// ```
    pub fn extended_keys() -> (r: TmuxCommand)
        ensures
            spec_tokens(r) == spec_get_server_option("extended-keys"@),
    {
        Self::get(EXTENDED_KEYS)
    }

    /// ### Manual
    ///
    /// tmux ^1.9:
    /// ```text
    /// focus-events [on | off]
    /// ```
    pub fn focus_events() -> (r: TmuxCommand)
        ensures
            spec_tokens(r) == spec_get_server_option("focus-events"@),
    {
        Self::get(FOCUS_EVENTS)
    }

    /// ### Manual
    ///
    /// tmux ^2.1:
    /// ```text
    /// history-file path
    /// ```
    pub fn history_file() -> (r: TmuxCommand)
        ensures
            spec_tokens(r) == spec_get_server_option("history-file"@),
    {
        Self::get(HISTORY_FILE)
    }

    /// ### Manual
    ///
    /// tmux ^2.0:
    /// ```text
    /// message-limit number
    /// ```
    pub fn message_limit() -> (r: TmuxCommand)
        ensures
            spec_tokens(r) == spec_get_server_option("message-limit"@),
    {
        Self::get(MESSAGE_LIMIT)
    }

    /// ### Manual
    ///
    /// tmux ^3.3:
    /// ```text
    /// prompt-history-limit number
    /// ```
    pub fn prompt_history_limit() -> (r: TmuxCommand)
        ensures
            spec_tokens(r) == spec_get_server_option("prompt-history-limit"@),
    {
        Self::get(PROMPT_HISTORY_LIMIT)
    }

    /// ### Manual
    ///
    /// tmux ^1.5:
    /// ```text
    /// set-clipboard [on | external | off]
    /// ```
    pub fn set_clipboard() -> (r: TmuxCommand)
        ensures
            spec_tokens(r) == spec_get_server_option("set-clipboard"@),
    {
        Self::get(SET_CLIPBOARD)
    }

    /// ### Manual
    ///
    /// tmux ^3.2:
    /// ```text
    /// terminal-features[] string
    /// ```
    pub fn terminal_features() -> (r: TmuxCommand)
        ensures
            spec_tokens(r) == spec_get_server_option("terminal-features"@),
    {
        Self::get(TERMINAL_FEATURES)
    }

    /// ### Manual
    ///
    /// tmux ^2.0:
    /// ```text
    /// terminal-overrides[] string
    /// ```
    pub fn terminal_overrides() -> (r: TmuxCommand)
        ensures
            spec_tokens(r) == spec_get_server_option("terminal-overrides"@),
    {
        Self::get(TERMINAL_OVERRIDES)
    }

    /// ### Manual
    ///
    /// tmux ^3.0:
    /// ```text
    /// user-keys[] key
    /// ```
    pub fn user_keys() -> (r: TmuxCommand)
        ensures
            spec_tokens(r) == spec_get_server_option("user-keys"@),
    {
        Self::get(USER_KEYS)
    }

    /// ### Manual
    ///
    /// tmux ^1.2, until 2.0:
    /// ```text
    /// quiet [on | off]
    /// ```
    pub fn quiet() -> (r: TmuxCommand)
        ensures
            spec_tokens(r) == spec_get_server_option("quiet"@),
    {
        Self::get(QUIET)
    }

    /// ### Manual
    ///
    /// tmux ^1.3, until 1.4:
    /// ```text
    /// detach-on-destroy [on | off]
    /// ```
    pub fn detach_on_destroy() -> (r: TmuxCommand)
        ensures
            spec_tokens(r) == spec_get_server_option("detach-on-destroy"@),
    {
        Self::get(DETACH_ON_DESTROY)
    }

    /// The query for a user-defined option, its name behind the `@`
    /// marker.
    pub fn user_option(name: &str) -> (r: TmuxCommand)
        ensures
            spec_tokens(r) == spec_get_server_option("@"@ + name@),
    {
        let full = user_option_name(name);
        Self::get(full.as_str())
    }
}

/// Composes commands setting server options.
pub struct SetServerOption {}

impl SetServerOption {
    /// The commands setting an array-valued option, one per index:
    /// `set-option -s name[i] value`.  Each index is a separate command by
    /// design: once flattened, array elements cannot be told from scalar
    /// values, so index assignments are never merged into one round trip.
    pub fn set_array(name: &str, values: Option<&Vec<String>>) -> (r: TmuxCommands)
        ensures
            r.cmds@.len() == (match values {
                Some(v) => v@.len(),
                None => 0,
            }),
            values matches Some(v) ==> forall|i: int|
                0 <= i < v@.len() ==> spec_tokens(#[trigger] r.cmds@[i]) == seq![
                    "set-option"@,
                    "-s"@,
                    spec_indexed_name(name@, i as nat),
                    v@[i]@,
                ],
    {
        // only the alias preference matters here, and the canonical long
        // name is wanted
        let gate = VersionGate::new(3, 3);
        let mut cmds = TmuxCommands::new();
        if let Some(v) = values {
            let mut i: usize = 0;
            while i < v.len()
                invariant
                    !gate.cmd_alias,
                    0 <= i <= v@.len(),
                    cmds.cmds@.len() == i,
                    forall|k: int|
                        0 <= k < i ==> spec_tokens(#[trigger] cmds.cmds@[k]) == seq![
                            "set-option"@,
                            "-s"@,
                            spec_indexed_name(name@, k as nat),
                            v@[k]@,
                        ],
                decreases v@.len() - i,
            {
                let iname = indexed_name(name, i);
                let b = SetOption::new().server().option(iname.as_str()).value(v[i].as_str());
                proof {
                    assert(b.append is None && b.global is None && b.unset is None && b.target
                        is None);
                    assert(b.scope == Some(crate::options::OptionScope::Server));
                    assert(b.option matches Some(t) && t@ == spec_indexed_name(name@, i as nat));
                    assert(b.value matches Some(t) && t@ == v@[i as int]@);
                }
                let cmd = b.build(&gate);
                proof {
                    assert(seq_strs(cmd.args@) =~= seq![
                        "-s"@,
                        spec_indexed_name(name@, i as nat),
                        v@[i as int]@,
                    ]);
                    assert(spec_tokens(cmd) =~= seq![
                        "set-option"@,
                        "-s"@,
                        spec_indexed_name(name@, i as nat),
                        v@[i as int]@,
                    ]);
                }
                cmds.push(cmd);
                i = i + 1;
            }
        }
        cmds
    }

    /// The commands setting the `command-alias` array, one per index.
    pub fn command_alias(values: Option<&Vec<String>>) -> (r: TmuxCommands)
        ensures
            r.cmds@.len() == (match values {
                Some(v) => v@.len(),
                None => 0,
            }),
            values matches Some(v) ==> forall|i: int|
                0 <= i < v@.len() ==> spec_tokens(#[trigger] r.cmds@[i]) == seq![
                    "set-option"@,
                    "-s"@,
                    spec_indexed_name("command-alias"@, i as nat),
                    v@[i]@,
                ],
    {
        SetServerOption::set_array(COMMAND_ALIAS, values)
    }
}

/// The decoder for `show-options` output over the server options: the raw
/// text of one answer, and best-effort typed readings of it.
#[derive(Debug, Clone)]
pub struct TmuxServerOptionOutput {
    pub output: String,
}

impl TmuxServerOptionOutput {
    pub fn new(output: String) -> (r: TmuxServerOptionOutput)
        ensures
            r.output@ == output@,
    {
        TmuxServerOptionOutput { output }
    }

    /// The value as text, trimmed of surrounding blanks.
    pub fn value(&self) -> (r: String)
        ensures
            r@ == spec_trim(self.output@),
    {
        trim_str(self.output.as_str())
    }

    /// The value as a number, if the trimmed text is one.
    pub fn number(&self) -> (r: Option<usize>)
        ensures
            r == spec_parse_usize(spec_trim(self.output@)),
    {
        let t = self.value();
        parse_usize(t.as_str())
    }

    /// The value of an array option: one element per line, each trimmed;
    /// nothing when the output has no lines at all.
    pub fn array(&self) -> (r: Option<Vec<String>>)
        ensures
            spec_lines(self.output@).len() == 0 ==> r is None,
            spec_lines(self.output@).len() > 0 ==> (r matches Some(v) && v@.len() == spec_lines(
                self.output@,
            ).len() && (forall|i: int|
                0 <= i < v@.len() ==> (#[trigger] v@[i])@ == spec_trim(
                    spec_lines(self.output@)[i],
                ))),
    {
        let lines = lines_of(self.output.as_str());
        if lines.len() == 0 {
            return None;
        }
        let mut v: Vec<String> = Vec::new();
        let mut i: usize = 0;
        while i < lines.len()
            invariant
                0 <= i <= lines@.len(),
                seq_strs(lines@) == spec_lines(self.output@),
                v@.len() == i,
                forall|k: int|
                    0 <= k < i ==> (#[trigger] v@[k])@ == spec_trim(spec_lines(self.output@)[k]),
            decreases lines@.len() - i,
        {
            let t = trim_str(lines[i].as_str());
            v.push(t);
            i = i + 1;
        }
        Some(v)
    }

    /// The `backspace` key, as text.
    pub fn backspace(&self) -> (r: Option<String>)
        ensures
            r matches Some(t) && t@ == spec_trim(self.output@),
    {
        Some(self.value())
    }

    /// The `buffer-limit` number.
    pub fn buffer_limit(&self) -> (r: Option<usize>)
        ensures
            r == spec_parse_usize(spec_trim(self.output@)),
    {
        self.number()
    }

    /// The `command-alias` array, one element per line.
    pub fn command_alias(&self) -> (r: Option<Vec<String>>)
        ensures
            spec_lines(self.output@).len() == 0 ==> r is None,
            spec_lines(self.output@).len() > 0 ==> (r matches Some(v) && v@.len() == spec_lines(
                self.output@,
            ).len() && (forall|i: int|
                0 <= i < v@.len() ==> (#[trigger] v@[i])@ == spec_trim(
                    spec_lines(self.output@)[i],
                ))),
    {
        self.array()
    }
}

} // verus!
