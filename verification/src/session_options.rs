//! The decoded session option record, and its scope decoder.
//!
//! The caller runs a `show-options` command over this scope and feeds the
//! raw text back here: one `name value` line per option, decoded
//! best-effort into the typed record.  Unknown names and unparsable
//! values are silently skipped; every field stays optional.

use vstd::prelude::*;

use crate::common::StatusKeys;
use crate::common::Switch;
use crate::common::spec_status_keys_of;
use crate::common::spec_switch_of;
use crate::common::status_keys_of;
use crate::common::switch_of;
use crate::error::Error;
use crate::strutil::line_name;
use crate::strutil::line_value;
use crate::strutil::lines_of;
use crate::strutil::parse_usize;
use crate::strutil::seq_strs;
use crate::strutil::spec_lines;
use crate::strutil::spec_parse_usize;
use crate::strutil::split_name_value;
use crate::strutil::str_eq;
use crate::strutil::view_text;

verus! {

/// A decoded session option record: every field optional, set only by a
/// decode pass that saw its line.
#[derive(Debug, Clone, PartialEq)]
pub struct SessionOptions {
    /// `base-index`: The first window index.
    pub base_index: Option<usize>,
    /// `default-shell`: The shell new windows run.
    pub default_shell: Option<String>,
    /// `history-limit`: The number of history lines kept per window.
    pub history_limit: Option<usize>,
    /// `status`: Whether the status line is shown.
    pub status: Option<Switch>,
    /// `status-keys`: The key style of the status line prompt.
    pub status_keys: Option<StatusKeys>,
}

/// The mathematical view of a [`SessionOptions`].
#[verifier::ext_equal]
pub struct SessionOptionsView {
    pub base_index: Option<usize>,
    pub default_shell: Option<Seq<char>>,
    pub history_limit: Option<usize>,
    pub status: Option<Switch>,
    pub status_keys: Option<StatusKeys>,
}

impl View for SessionOptions {
    type V = SessionOptionsView;

    open spec fn view(&self) -> SessionOptionsView {
        SessionOptionsView {
            base_index: self.base_index,
            default_shell: view_text(self.default_shell),
            history_limit: self.history_limit,
            status: self.status,
            status_keys: self.status_keys,
        }
    }
}

/// The record with every field unset.
pub open spec fn spec_session_options_unset() -> SessionOptionsView {
    SessionOptionsView {
        base_index: None,
        default_shell: None,
        history_limit: None,
        status: None,
        status_keys: None,
    }
}

/// One decode step: the line's name selects the field, its value is
/// parsed best-effort; an unknown name changes nothing.
pub open spec fn spec_session_options_apply(v: SessionOptionsView, line: Seq<char>) -> SessionOptionsView {
    let name = line_name(line);
    let value = line_value(line);
    if name == "base-index"@ {
        SessionOptionsView { base_index: spec_parse_usize(value), ..v }
    } else if name == "default-shell"@ {
        SessionOptionsView {
            default_shell: if value.len() > 0 {
                Some(value)
            } else {
                None
            },
            ..v
        }
    } else if name == "history-limit"@ {
        SessionOptionsView { history_limit: spec_parse_usize(value), ..v }
    } else if name == "status"@ {
        SessionOptionsView { status: spec_switch_of(value), ..v }
    } else if name == "status-keys"@ {
        SessionOptionsView { status_keys: spec_status_keys_of(value), ..v }
    } else {
        v
    }
}

/// The record decoded from the given lines, first to last.
pub open spec fn spec_session_options_decode(lines: Seq<Seq<char>>) -> SessionOptionsView
    decreases lines.len(),
{
    if lines.len() == 0 {
        spec_session_options_unset()
    } else {
        spec_session_options_apply(spec_session_options_decode(lines.drop_last()), lines.last())
    }
}

impl SessionOptions {
    /// A record with every field unset.
    pub fn new() -> (r: SessionOptions)
        ensures
            r@ == spec_session_options_unset(),
    {
        SessionOptions {
            base_index: None,
            default_shell: None,
            history_limit: None,
            status: None,
            status_keys: None,
        }
    }

    /// Decodes `show-options` output over this scope: one `name value`
    /// line per option, applied first to last.  Decoding is best-effort
    /// and never fails.
    pub fn from_str(s: &str) -> (r: Result<SessionOptions, Error>)
        ensures
            r matches Ok(o) && o@ == spec_session_options_decode(spec_lines(s@)),
    {
        let lines = lines_of(s);
        let mut o = SessionOptions::new();
        let mut i: usize = 0;
        proof {
            assert(seq_strs(lines@).subrange(0, 0) =~= Seq::<Seq<char>>::empty());
        }
        while i < lines.len()
            invariant
                0 <= i <= lines@.len(),
                seq_strs(lines@) == spec_lines(s@),
                o@ == spec_session_options_decode(seq_strs(lines@).subrange(0, i as int)),
            decreases lines@.len() - i,
        {
            let ghost pre = seq_strs(lines@).subrange(0, i as int);
            let ghost now = seq_strs(lines@).subrange(0, (i + 1) as int);
            let ghost vpre = o@;
            proof {
                assert(now.drop_last() =~= pre);
                assert(now.last() == seq_strs(lines@)[i as int]);
            }
            let nv = split_name_value(lines[i].as_str());
            let name = nv.0;
            let value = nv.1;
            if str_eq(name.as_str(), "base-index") {
                o.base_index = parse_usize(value.as_str());
            } else if str_eq(name.as_str(), "default-shell") {
                if value.as_str().unicode_len() > 0 {
                    o.default_shell = Some(value);
                } else {
                    o.default_shell = None;
                }
            } else if str_eq(name.as_str(), "history-limit") {
                o.history_limit = parse_usize(value.as_str());
            } else if str_eq(name.as_str(), "status") {
                o.status = switch_of(value.as_str());
            } else if str_eq(name.as_str(), "status-keys") {
                o.status_keys = status_keys_of(value.as_str());
            }
            proof {
                assert(o@ =~= spec_session_options_apply(vpre, seq_strs(lines@)[i as int]));
            }
            i = i + 1;
        }
        proof {
            assert(seq_strs(lines@).subrange(0, lines@.len() as int) =~= seq_strs(lines@));
        }
        Ok(o)
    }
}

} // verus!
