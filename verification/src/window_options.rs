//! The decoded window option record, and its scope decoder.
//!
//! The caller runs a `show-options` command over this scope and feeds the
//! raw text back here: one `name value` line per option, decoded
//! best-effort into the typed record.  Unknown names and unparsable
//! values are silently skipped; every field stays optional.

use vstd::prelude::*;

use crate::common::StatusKeys;
use crate::common::Switch;
use crate::common::spec_status_keys_of;
use crate::common::spec_switch_of;
use crate::common::status_keys_of;
use crate::common::switch_of;
use crate::error::Error;
use crate::strutil::line_name;
use crate::strutil::line_value;
use crate::strutil::lines_of;
use crate::strutil::parse_usize;
use crate::strutil::seq_strs;
use crate::strutil::spec_lines;
use crate::strutil::spec_parse_usize;
use crate::strutil::split_name_value;
use crate::strutil::str_eq;

verus! {

/// A decoded window option record: every field optional, set only by a
/// decode pass that saw its line.
#[derive(Debug, Clone, PartialEq)]
pub struct WindowOptions {
    /// `aggressive-resize`: Whether windows resize to the smallest attached session.
    pub aggressive_resize: Option<Switch>,
    /// `automatic-rename`: Whether windows are renamed automatically.
    pub automatic_rename: Option<Switch>,
    /// `clock-mode-style`: The clock style: 12 or 24.
    pub clock_mode_style: Option<usize>,
    /// `main-pane-height`: The height of the main pane.
    pub main_pane_height: Option<usize>,
    /// `main-pane-width`: The width of the main pane.
    pub main_pane_width: Option<usize>,
    /// `mode-keys`: The key style of copy mode.
    pub mode_keys: Option<StatusKeys>,
    /// `monitor-activity`: Whether activity is monitored.
    pub monitor_activity: Option<Switch>,
}

/// The mathematical view of a [`WindowOptions`].
#[verifier::ext_equal]
pub struct WindowOptionsView {
    pub aggressive_resize: Option<Switch>,
    pub automatic_rename: Option<Switch>,
    pub clock_mode_style: Option<usize>,
    pub main_pane_height: Option<usize>,
    pub main_pane_width: Option<usize>,
    pub mode_keys: Option<StatusKeys>,
    pub monitor_activity: Option<Switch>,
}

impl View for WindowOptions {
    type V = WindowOptionsView;

    open spec fn view(&self) -> WindowOptionsView {
        WindowOptionsView {
            aggressive_resize: self.aggressive_resize,
            automatic_rename: self.automatic_rename,
            clock_mode_style: self.clock_mode_style,
            main_pane_height: self.main_pane_height,
            main_pane_width: self.main_pane_width,
            mode_keys: self.mode_keys,
            monitor_activity: self.monitor_activity,
        }
    }
}

/// The record with every field unset.
pub open spec fn spec_window_options_unset() -> WindowOptionsView {
    WindowOptionsView {
        aggressive_resize: None,
        automatic_rename: None,
        clock_mode_style: None,
        main_pane_height: None,
        main_pane_width: None,
        mode_keys: None,
        monitor_activity: None,
    }
}

/// One decode step: the line's name selects the field, its value is
/// parsed best-effort; an unknown name changes nothing.
pub open spec fn spec_window_options_apply(v: WindowOptionsView, line: Seq<char>) -> WindowOptionsView {
    let name = line_name(line);
    let value = line_value(line);
    if name == "aggressive-resize"@ {
        WindowOptionsView { aggressive_resize: spec_switch_of(value), ..v }
    } else if name == "automatic-rename"@ {
        WindowOptionsView { automatic_rename: spec_switch_of(value), ..v }
    } else if name == "clock-mode-style"@ {
        WindowOptionsView { clock_mode_style: spec_parse_usize(value), ..v }
    } else if name == "main-pane-height"@ {
        WindowOptionsView { main_pane_height: spec_parse_usize(value), ..v }
    } else if name == "main-pane-width"@ {
        WindowOptionsView { main_pane_width: spec_parse_usize(value), ..v }
    } else if name == "mode-keys"@ {
        WindowOptionsView { mode_keys: spec_status_keys_of(value), ..v }
    } else if name == "monitor-activity"@ {
        WindowOptionsView { monitor_activity: spec_switch_of(value), ..v }
    } else {
        v
    }
}

/// The record decoded from the given lines, first to last.
pub open spec fn spec_window_options_decode(lines: Seq<Seq<char>>) -> WindowOptionsView
    decreases lines.len(),
{
    if lines.len() == 0 {
        spec_window_options_unset()
    } else {
        spec_window_options_apply(spec_window_options_decode(lines.drop_last()), lines.last())
    }
}

impl WindowOptions {
    /// A record with every field unset.
    pub fn new() -> (r: WindowOptions)
        ensures
            r@ == spec_window_options_unset(),
    {
        WindowOptions {
            aggressive_resize: None,
            automatic_rename: None,
            clock_mode_style: None,
            main_pane_height: None,
            main_pane_width: None,
            mode_keys: None,
            monitor_activity: None,
        }
    }

    /// Decodes `show-options` output over this scope: one `name value`
    /// line per option, applied first to last.  Decoding is best-effort
    /// and never fails.
    pub fn from_str(s: &str) -> (r: Result<WindowOptions, Error>)
        ensures
            r matches Ok(o) && o@ == spec_window_options_decode(spec_lines(s@)),
    {
        let lines = lines_of(s);
        let mut o = WindowOptions::new();
        let mut i: usize = 0;
        proof {
            assert(seq_strs(lines@).subrange(0, 0) =~= Seq::<Seq<char>>::empty());
        }
        while i < lines.len()
            invariant
                0 <= i <= lines@.len(),
                seq_strs(lines@) == spec_lines(s@),
                o@ == spec_window_options_decode(seq_strs(lines@).subrange(0, i as int)),
            decreases lines@.len() - i,
        {
            let ghost pre = seq_strs(lines@).subrange(0, i as int);
            let ghost now = seq_strs(lines@).subrange(0, (i + 1) as int);
            let ghost vpre = o@;
            proof {
                assert(now.drop_last() =~= pre);
                assert(now.last() == seq_strs(lines@)[i as int]);
            }
            let nv = split_name_value(lines[i].as_str());
            let name = nv.0;
            let value = nv.1;
            if str_eq(name.as_str(), "aggressive-resize") {
                o.aggressive_resize = switch_of(value.as_str());
            } else if str_eq(name.as_str(), "automatic-rename") {
                o.automatic_rename = switch_of(value.as_str());
            } else if str_eq(name.as_str(), "clock-mode-style") {
                o.clock_mode_style = parse_usize(value.as_str());
            } else if str_eq(name.as_str(), "main-pane-height") {
                o.main_pane_height = parse_usize(value.as_str());
            } else if str_eq(name.as_str(), "main-pane-width") {
                o.main_pane_width = parse_usize(value.as_str());
            } else if str_eq(name.as_str(), "mode-keys") {
                o.mode_keys = status_keys_of(value.as_str());
            } else if str_eq(name.as_str(), "monitor-activity") {
                o.monitor_activity = switch_of(value.as_str());
            }
            proof {
                assert(o@ =~= spec_window_options_apply(vpre, seq_strs(lines@)[i as int]));
            }
            i = i + 1;
        }
        proof {
            assert(seq_strs(lines@).subrange(0, lines@.len() as int) =~= seq_strs(lines@));
        }
        Ok(o)
    }
}

} // verus!
