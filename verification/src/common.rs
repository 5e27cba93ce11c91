//! Shared value types: two-state option keywords, target identifiers, and
//! the mutually exclusive pane-size parameter.

use vstd::prelude::*;

use crate::error::Error;
use crate::pane_options::PaneOptions;
use crate::server_options::ServerOptions;
use crate::session_options::SessionOptions;
use crate::strutil::spec_num_chars;
use crate::window_options::WindowOptions;
use crate::strutil::str_eq;
use crate::strutil::usize_to_string;

verus! {

/// Every option scope's decoded record in one place.
#[derive(Debug, Clone)]
pub struct Options {
    pub server_options: ServerOptions,
    pub session_options: SessionOptions,
    pub window_options: WindowOptions,
    pub pane_options: PaneOptions,
}

/// The key-binding style keywords an option value may name.
#[derive(Clone, Copy, Debug, PartialEq, Eq, Structural)]
pub enum StatusKeys {
    Vi,
    Emacs,
}

/// The keyword tmux uses for this style.
pub open spec fn spec_status_keys_text(k: StatusKeys) -> Seq<char> {
    match k {
        StatusKeys::Vi => "vi"@,
        StatusKeys::Emacs => "emacs"@,
    }
}

impl StatusKeys {
    /// Parses the keyword: exactly `vi` or `emacs`, anything else is an
    /// error.
    pub fn from_str(s: &str) -> (r: Result<StatusKeys, Error>)
        ensures
            s@ == "vi"@ ==> r == Ok::<StatusKeys, Error>(StatusKeys::Vi),
            s@ == "emacs"@ ==> r == Ok::<StatusKeys, Error>(StatusKeys::Emacs),
            s@ != "vi"@ && s@ != "emacs"@ ==> r == Err::<StatusKeys, Error>(
                Error::ParseStatusKeys,
            ),
    {
        proof {
            reveal_strlit("vi");
            reveal_strlit("emacs");
        }
        if str_eq(s, "vi") {
            proof {
                assert("vi"@ =~= seq!['v', 'i']);
                assert("emacs"@ =~= seq!['e', 'm', 'a', 'c', 's']);
                assert("vi"@ != "emacs"@);
            }
            Ok(StatusKeys::Vi)
        } else if str_eq(s, "emacs") {
            Ok(StatusKeys::Emacs)
        } else {
            Err(Error::ParseStatusKeys)
        }
    }

    /// The canonical text form of the keyword.
    pub fn to_text(&self) -> (r: &'static str)
        ensures
            r@ == spec_status_keys_text(*self),
    {
        match self {
            StatusKeys::Vi => "vi",
            StatusKeys::Emacs => "emacs",
        }
    }
}

/// A two-state option value, rendered `on` or `off` on the wire.
#[derive(Clone, Copy, Debug, PartialEq, Eq, Structural)]
pub enum Switch {
    On,
    Off,
}

/// The keyword tmux uses for this state.
pub open spec fn spec_switch_text(s: Switch) -> Seq<char> {
    match s {
        Switch::On => "on"@,
        Switch::Off => "off"@,
    }
}

impl Switch {
    /// Parses the keyword: exactly `on` or `off`, anything else is an error.
    pub fn from_str(s: &str) -> (r: Result<Switch, Error>)
        ensures
            s@ == "on"@ ==> r == Ok::<Switch, Error>(Switch::On),
            s@ == "off"@ ==> r == Ok::<Switch, Error>(Switch::Off),
            s@ != "on"@ && s@ != "off"@ ==> r == Err::<Switch, Error>(Error::ParseSwitch),
    {
        proof {
            reveal_strlit("on");
            reveal_strlit("off");
        }
        if str_eq(s, "on") {
            proof {
                assert("on"@ =~= seq!['o', 'n']);
                assert("off"@ =~= seq!['o', 'f', 'f']);
                assert("on"@ != "off"@);
            }
            Ok(Switch::On)
        } else if str_eq(s, "off") {
            Ok(Switch::Off)
        } else {
            Err(Error::ParseSwitch)
        }
    }

    /// The canonical text form of the state.
    pub fn to_text(&self) -> (r: &'static str)
        ensures
            r@ == spec_switch_text(*self),
    {
        match self {
            Switch::On => "on",
            Switch::Off => "off",
        }
    }
}


/// What a two-state option value decodes to: exactly `on` or `off`, and
/// nothing otherwise.
pub open spec fn spec_switch_of(s: Seq<char>) -> Option<Switch> {
    if s == "on"@ {
        Some(Switch::On)
    } else if s == "off"@ {
        Some(Switch::Off)
    } else {
        None
    }
}

/// Best-effort decode of a two-state option value.
pub fn switch_of(s: &str) -> (r: Option<Switch>)
    ensures
        r == spec_switch_of(s@),
{
    match Switch::from_str(s) {
        Ok(v) => Some(v),
        Err(_) => None,
    }
}

/// What a key-binding style value decodes to: exactly `vi` or `emacs`, and
/// nothing otherwise.
pub open spec fn spec_status_keys_of(s: Seq<char>) -> Option<StatusKeys> {
    if s == "vi"@ {
        Some(StatusKeys::Vi)
    } else if s == "emacs"@ {
        Some(StatusKeys::Emacs)
    } else {
        None
    }
}

/// Best-effort decode of a key-binding style value.
pub fn status_keys_of(s: &str) -> (r: Option<StatusKeys>)
    ensures
        r == spec_status_keys_of(s@),
{
    match StatusKeys::from_str(s) {
        Ok(v) => Some(v),
        Err(_) => None,
    }
}

/// A target session for the `-t` flag.
#[derive(Clone, Copy, Debug)]
pub enum TargetSession<'a> {
    /// The text as given.
    Raw(&'a str),
    /// A session id, rendered with its `$` sigil.
    Id(usize),
    /// An exact session name, rendered with its `=` sigil.
    ExactName(&'a str),
}

/// The text form of a session target.
pub open spec fn spec_target_session_text(t: TargetSession) -> Seq<char> {
    match t {
        TargetSession::Raw(s) => s@,
        TargetSession::Id(n) => "$"@ + spec_num_chars(n as nat),
        TargetSession::ExactName(s) => "="@ + s@,
    }
}

impl<'a> TargetSession<'a> {
    /// Renders the target as tmux accepts it.
    pub fn to_text(&self) -> (r: String)
        ensures
            r@ == spec_target_session_text(*self),
    {
        match self {
            TargetSession::Raw(s) => String::from_str(s),
            TargetSession::Id(n) => {
                let mut out = String::from_str("$");
                let digits = usize_to_string(*n);
                out.append(digits.as_str());
                out
            },
            TargetSession::ExactName(s) => {
                let mut out = String::from_str("=");
                out.append(s);
                out
            },
        }
    }
}

/// A target pane for the `-t` flag.
#[derive(Clone, Copy, Debug)]
pub enum TargetPane<'a> {
    /// The text as given.
    Raw(&'a str),
    /// A pane id, rendered with its `%` sigil.
    Id(usize),
}

/// The text form of a pane target.
pub open spec fn spec_target_pane_text(t: TargetPane) -> Seq<char> {
    match t {
        TargetPane::Raw(s) => s@,
        TargetPane::Id(n) => "%"@ + spec_num_chars(n as nat),
    }
}

impl<'a> TargetPane<'a> {
    /// Renders the target as tmux accepts it.
    pub fn to_text(&self) -> (r: String)
        ensures
            r@ == spec_target_pane_text(*self),
    {
        match self {
            TargetPane::Raw(s) => String::from_str(s),
            TargetPane::Id(n) => {
                let mut out = String::from_str("%");
                let digits = usize_to_string(*n);
                out.append(digits.as_str());
                out
            },
        }
    }
}

/// The size of a new pane: exactly one of an absolute line count or a
/// percentage of the window.  The two are mutually exclusive by
/// construction — a builder holds at most one `PaneSize`, and whichever of
/// its size setters ran last wins.
#[derive(Clone, Copy, Debug, PartialEq, Eq, Structural)]
pub enum PaneSize {
    /// An absolute size, in lines or columns.
    Size(usize),
    /// A percentage of the available space.
    Percentage(usize),
}

} // verus!
