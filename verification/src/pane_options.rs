//! The decoded pane option record, and its scope decoder.
//!
//! The caller runs a `show-options` command over this scope and feeds the
//! raw text back here: one `name value` line per option, decoded
//! best-effort into the typed record.  Unknown names and unparsable
//! values are silently skipped; every field stays optional.

use vstd::prelude::*;

use crate::common::Switch;
use crate::common::spec_switch_of;
use crate::common::switch_of;
use crate::error::Error;
use crate::strutil::line_name;
use crate::strutil::line_value;
use crate::strutil::lines_of;
use crate::strutil::seq_strs;
use crate::strutil::spec_lines;
use crate::strutil::split_name_value;
use crate::strutil::str_eq;
use crate::strutil::view_text;

verus! {

/// A decoded pane option record: every field optional, set only by a
/// decode pass that saw its line.
#[derive(Debug, Clone, PartialEq)]
pub struct PaneOptions {
    /// `allow-rename`: Whether automatic renaming is allowed.
    pub allow_rename: Option<Switch>,
    /// `alternate-screen`: Whether the alternate screen is used.
    pub alternate_screen: Option<Switch>,
    /// `remain-on-exit`: Whether the pane stays after its program exits.
    pub remain_on_exit: Option<Switch>,
    /// `window-active-style`: The style of the active pane.
    pub window_active_style: Option<String>,
    /// `window-style`: The style of the pane.
    pub window_style: Option<String>,
    /// `synchronize-panes`: Whether input is synchronized across panes.
    pub synchronize_panes: Option<Switch>,
}

/// The mathematical view of a [`PaneOptions`].
#[verifier::ext_equal]
pub struct PaneOptionsView {
    pub allow_rename: Option<Switch>,
    pub alternate_screen: Option<Switch>,
    pub remain_on_exit: Option<Switch>,
    pub window_active_style: Option<Seq<char>>,
    pub window_style: Option<Seq<char>>,
    pub synchronize_panes: Option<Switch>,
}

impl View for PaneOptions {
    type V = PaneOptionsView;

    open spec fn view(&self) -> PaneOptionsView {
        PaneOptionsView {
            allow_rename: self.allow_rename,
            alternate_screen: self.alternate_screen,
            remain_on_exit: self.remain_on_exit,
            window_active_style: view_text(self.window_active_style),
            window_style: view_text(self.window_style),
            synchronize_panes: self.synchronize_panes,
        }
    }
}

/// The record with every field unset.
pub open spec fn spec_pane_options_unset() -> PaneOptionsView {
    PaneOptionsView {
        allow_rename: None,
        alternate_screen: None,
        remain_on_exit: None,
        window_active_style: None,
        window_style: None,
        synchronize_panes: None,
    }
}

/// One decode step: the line's name selects the field, its value is
/// parsed best-effort; an unknown name changes nothing.
pub open spec fn spec_pane_options_apply(v: PaneOptionsView, line: Seq<char>) -> PaneOptionsView {
    let name = line_name(line);
    let value = line_value(line);
    if name == "allow-rename"@ {
        PaneOptionsView { allow_rename: spec_switch_of(value), ..v }
    } else if name == "alternate-screen"@ {
        PaneOptionsView { alternate_screen: spec_switch_of(value), ..v }
    } else if name == "remain-on-exit"@ {
        PaneOptionsView { remain_on_exit: spec_switch_of(value), ..v }
    } else if name == "window-active-style"@ {
        PaneOptionsView {
            window_active_style: if value.len() > 0 {
                Some(value)
            } else {
                None
            },
            ..v
        }
    } else if name == "window-style"@ {
        PaneOptionsView {
            window_style: if value.len() > 0 {
                Some(value)
            } else {
                None
            },
            ..v
        }
    } else if name == "synchronize-panes"@ {
        PaneOptionsView { synchronize_panes: spec_switch_of(value), ..v }
    } else {
        v
    }
}

/// The record decoded from the given lines, first to last.
pub open spec fn spec_pane_options_decode(lines: Seq<Seq<char>>) -> PaneOptionsView
    decreases lines.len(),
{
    if lines.len() == 0 {
        spec_pane_options_unset()
    } else {
        spec_pane_options_apply(spec_pane_options_decode(lines.drop_last()), lines.last())
    }
}

impl PaneOptions {
    /// A record with every field unset.
    pub fn new() -> (r: PaneOptions)
        ensures
            r@ == spec_pane_options_unset(),
    {
        PaneOptions {
            allow_rename: None,
            alternate_screen: None,
            remain_on_exit: None,
            window_active_style: None,
            window_style: None,
            synchronize_panes: None,
        }
    }

    /// Decodes `show-options` output over this scope: one `name value`
    /// line per option, applied first to last.  Decoding is best-effort
    /// and never fails.
    pub fn from_str(s: &str) -> (r: Result<PaneOptions, Error>)
        ensures
            r matches Ok(o) && o@ == spec_pane_options_decode(spec_lines(s@)),
    {
        let lines = lines_of(s);
        let mut o = PaneOptions::new();
        let mut i: usize = 0;
        proof {
            assert(seq_strs(lines@).subrange(0, 0) =~= Seq::<Seq<char>>::empty());
        }
        while i < lines.len()
            invariant
                0 <= i <= lines@.len(),
                seq_strs(lines@) == spec_lines(s@),
                o@ == spec_pane_options_decode(seq_strs(lines@).subrange(0, i as int)),
            decreases lines@.len() - i,
        {
            let ghost pre = seq_strs(lines@).subrange(0, i as int);
            let ghost now = seq_strs(lines@).subrange(0, (i + 1) as int);
            let ghost vpre = o@;
            proof {
                assert(now.drop_last() =~= pre);
                assert(now.last() == seq_strs(lines@)[i as int]);
            }
            let nv = split_name_value(lines[i].as_str());
            let name = nv.0;
            let value = nv.1;
            if str_eq(name.as_str(), "allow-rename") {
                o.allow_rename = switch_of(value.as_str());
            } else if str_eq(name.as_str(), "alternate-screen") {
                o.alternate_screen = switch_of(value.as_str());
            } else if str_eq(name.as_str(), "remain-on-exit") {
                o.remain_on_exit = switch_of(value.as_str());
            } else if str_eq(name.as_str(), "window-active-style") {
                if value.as_str().unicode_len() > 0 {
                    o.window_active_style = Some(value);
                } else {
                    o.window_active_style = None;
                }
            } else if str_eq(name.as_str(), "window-style") {
                if value.as_str().unicode_len() > 0 {
                    o.window_style = Some(value);
                } else {
                    o.window_style = None;
                }
            } else if str_eq(name.as_str(), "synchronize-panes") {
                o.synchronize_panes = switch_of(value.as_str());
            }
            proof {
                assert(o@ =~= spec_pane_options_apply(vpre, seq_strs(lines@)[i as int]));
            }
            i = i + 1;
        }
        proof {
            assert(seq_strs(lines@).subrange(0, lines@.len() as int) =~= seq_strs(lines@));
        }
        Ok(o)
    }
}

} // verus!
