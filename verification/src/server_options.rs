//! The decoded server option record, and its scope decoder.
//!
//! The caller runs a `show-options` command over this scope and feeds the
//! raw text back here: one `name value` line per option, decoded
//! best-effort into the typed record.  Unknown names and unparsable
//! values are silently skipped; every field stays optional.

use vstd::prelude::*;

use crate::common::Switch;
use crate::common::spec_switch_of;
use crate::common::switch_of;
use crate::error::Error;
use crate::strutil::line_name;
use crate::strutil::line_value;
use crate::strutil::lines_of;
use crate::strutil::parse_usize;
use crate::strutil::seq_strs;
use crate::strutil::spec_lines;
use crate::strutil::spec_parse_usize;
use crate::strutil::split_name_value;
use crate::strutil::str_eq;
use crate::strutil::view_text;

verus! {

/// A decoded server option record: every field optional, set only by a
/// decode pass that saw its line.
#[derive(Debug, Clone, PartialEq)]
pub struct ServerOptions {
    /// `buffer-limit`: The number of buffers kept.
    pub buffer_limit: Option<usize>,
    /// `default-terminal`: The default terminal type.
    pub default_terminal: Option<String>,
    /// `escape-time`: The escape delay, in milliseconds.
    pub escape_time: Option<usize>,
    /// `exit-empty`: Whether the server exits with no sessions.
    pub exit_empty: Option<Switch>,
    /// `exit-unattached`: Whether the server exits with no attached clients.
    pub exit_unattached: Option<Switch>,
    /// `focus-events`: Whether focus events are requested.
    pub focus_events: Option<Switch>,
    /// `history-file`: The command prompt history file.
    pub history_file: Option<String>,
    /// `message-limit`: The number of log messages kept.
    pub message_limit: Option<usize>,
    /// `set-clipboard`: How the clipboard is set: on, external or off.
    pub set_clipboard: Option<String>,
    /// `editor`: The editor commands spawn.
    pub editor: Option<String>,
}

/// The mathematical view of a [`ServerOptions`].
#[verifier::ext_equal]
pub struct ServerOptionsView {
    pub buffer_limit: Option<usize>,
    pub default_terminal: Option<Seq<char>>,
    pub escape_time: Option<usize>,
    pub exit_empty: Option<Switch>,
    pub exit_unattached: Option<Switch>,
    pub focus_events: Option<Switch>,
    pub history_file: Option<Seq<char>>,
    pub message_limit: Option<usize>,
    pub set_clipboard: Option<Seq<char>>,
    pub editor: Option<Seq<char>>,
}

impl View for ServerOptions {
    type V = ServerOptionsView;

    open spec fn view(&self) -> ServerOptionsView {
        ServerOptionsView {
            buffer_limit: self.buffer_limit,
            default_terminal: view_text(self.default_terminal),
            escape_time: self.escape_time,
            exit_empty: self.exit_empty,
            exit_unattached: self.exit_unattached,
            focus_events: self.focus_events,
            history_file: view_text(self.history_file),
            message_limit: self.message_limit,
            set_clipboard: view_text(self.set_clipboard),
            editor: view_text(self.editor),
        }
    }
}

/// The record with every field unset.
pub open spec fn spec_server_options_unset() -> ServerOptionsView {
    ServerOptionsView {
        buffer_limit: None,
        default_terminal: None,
        escape_time: None,
        exit_empty: None,
        exit_unattached: None,
        focus_events: None,
        history_file: None,
        message_limit: None,
        set_clipboard: None,
        editor: None,
    }
}

/// One decode step: the line's name selects the field, its value is
/// parsed best-effort; an unknown name changes nothing.
pub open spec fn spec_server_options_apply(v: ServerOptionsView, line: Seq<char>) -> ServerOptionsView {
    let name = line_name(line);
    let value = line_value(line);
    if name == "buffer-limit"@ {
        ServerOptionsView { buffer_limit: spec_parse_usize(value), ..v }
    } else if name == "default-terminal"@ {
        ServerOptionsView {
            default_terminal: if value.len() > 0 {
                Some(value)
            } else {
                None
            },
            ..v
        }
    } else if name == "escape-time"@ {
        ServerOptionsView { escape_time: spec_parse_usize(value), ..v }
    } else if name == "exit-empty"@ {
        ServerOptionsView { exit_empty: spec_switch_of(value), ..v }
    } else if name == "exit-unattached"@ {
        ServerOptionsView { exit_unattached: spec_switch_of(value), ..v }
    } else if name == "focus-events"@ {
        ServerOptionsView { focus_events: spec_switch_of(value), ..v }
    } else if name == "history-file"@ {
        ServerOptionsView {
            history_file: if value.len() > 0 {
                Some(value)
            } else {
                None
            },
            ..v
        }
    } else if name == "message-limit"@ {
        ServerOptionsView { message_limit: spec_parse_usize(value), ..v }
    } else if name == "set-clipboard"@ {
        ServerOptionsView {
            set_clipboard: if value.len() > 0 {
                Some(value)
            } else {
                None
            },
            ..v
        }
    } else if name == "editor"@ {
        ServerOptionsView {
            editor: if value.len() > 0 {
                Some(value)
            } else {
                None
            },
            ..v
        }
    } else {
        v
    }
}

/// The record decoded from the given lines, first to last.
pub open spec fn spec_server_options_decode(lines: Seq<Seq<char>>) -> ServerOptionsView
    decreases lines.len(),
{
    if lines.len() == 0 {
        spec_server_options_unset()
    } else {
        spec_server_options_apply(spec_server_options_decode(lines.drop_last()), lines.last())
    }
}

impl ServerOptions {
    /// A record with every field unset.
    pub fn new() -> (r: ServerOptions)
        ensures
            r@ == spec_server_options_unset(),
    {
        ServerOptions {
            buffer_limit: None,
            default_terminal: None,
            escape_time: None,
            exit_empty: None,
            exit_unattached: None,
            focus_events: None,
            history_file: None,
            message_limit: None,
            set_clipboard: None,
            editor: None,
        }
    }

    /// Decodes `show-options` output over this scope: one `name value`
    /// line per option, applied first to last.  Decoding is best-effort
    /// and never fails.
    pub fn from_str(s: &str) -> (r: Result<ServerOptions, Error>)
        ensures
            r matches Ok(o) && o@ == spec_server_options_decode(spec_lines(s@)),
    {
        let lines = lines_of(s);
        let mut o = ServerOptions::new();
        let mut i: usize = 0;
        proof {
            assert(seq_strs(lines@).subrange(0, 0) =~= Seq::<Seq<char>>::empty());
        }
        while i < lines.len()
            invariant
                0 <= i <= lines@.len(),
                seq_strs(lines@) == spec_lines(s@),
                o@ == spec_server_options_decode(seq_strs(lines@).subrange(0, i as int)),
            decreases lines@.len() - i,
        {
            let ghost pre = seq_strs(lines@).subrange(0, i as int);
            let ghost now = seq_strs(lines@).subrange(0, (i + 1) as int);
            let ghost vpre = o@;
            proof {
                assert(now.drop_last() =~= pre);
                assert(now.last() == seq_strs(lines@)[i as int]);
            }
            let nv = split_name_value(lines[i].as_str());
            let name = nv.0;
            let value = nv.1;
            if str_eq(name.as_str(), "buffer-limit") {
                o.buffer_limit = parse_usize(value.as_str());
            } else if str_eq(name.as_str(), "default-terminal") {
                if value.as_str().unicode_len() > 0 {
                    o.default_terminal = Some(value);
                } else {
                    o.default_terminal = None;
                }
            } else if str_eq(name.as_str(), "escape-time") {
                o.escape_time = parse_usize(value.as_str());
            } else if str_eq(name.as_str(), "exit-empty") {
                o.exit_empty = switch_of(value.as_str());
            } else if str_eq(name.as_str(), "exit-unattached") {
                o.exit_unattached = switch_of(value.as_str());
            } else if str_eq(name.as_str(), "focus-events") {
                o.focus_events = switch_of(value.as_str());
            } else if str_eq(name.as_str(), "history-file") {
                if value.as_str().unicode_len() > 0 {
                    o.history_file = Some(value);
                } else {
                    o.history_file = None;
                }
            } else if str_eq(name.as_str(), "message-limit") {
                o.message_limit = parse_usize(value.as_str());
            } else if str_eq(name.as_str(), "set-clipboard") {
                if value.as_str().unicode_len() > 0 {
                    o.set_clipboard = Some(value);
                } else {
                    o.set_clipboard = None;
                }
            } else if str_eq(name.as_str(), "editor") {
                if value.as_str().unicode_len() > 0 {
                    o.editor = Some(value);
                } else {
                    o.editor = None;
                }
            }
            proof {
                assert(o@ =~= spec_server_options_apply(vpre, seq_strs(lines@)[i as int]));
            }
            i = i + 1;
        }
        proof {
            assert(seq_strs(lines@).subrange(0, lines@.len() as int) =~= seq_strs(lines@));
        }
        Ok(o)
    }
}

} // verus!
