//! The window field-descriptor table and its query/decode engine.
//!
//! The same bitmask-driven mechanism as the pane table: one unique bit per
//! decodable window field, one fixed table order driving both the composed
//! query-format string and the positional decode of the delimited response
//! line.  Decoding is best-effort; a missing, empty or unparsable segment
//! leaves its field unset.
//!
//! The window's last-activity time, a duration on the wire, is held as its
//! plain millisecond count.  Tool versions that render that field another
//! way decode to an unset field, like any other unparsable segment.

use vstd::prelude::*;

use crate::strutil::join;
use crate::strutil::lemma_seq_strs_push;
use crate::strutil::lemma_split_join;
use crate::strutil::sep_free;
use crate::strutil::seq_strs;
use crate::strutil::spec_join;
use crate::strutil::spec_parse_flag;
use crate::strutil::spec_parse_usize;
use crate::strutil::spec_split;
use crate::strutil::split_line;
use crate::strutil::take_flag;
use crate::strutil::take_id;
use crate::strutil::take_num;
use crate::strutil::take_text;
use crate::strutil::view_text;

verus! {

// One unique bit per descriptor, in table order.
pub const WINDOW_ACTIVE: u32 = 0x1;

pub const WINDOW_ACTIVITY: u32 = 0x2;

pub const WINDOW_ACTIVITY_FLAG: u32 = 0x4;

pub const WINDOW_BELL_FLAG: u32 = 0x8;

pub const WINDOW_BIGGER: u32 = 0x10;

pub const WINDOW_END_FLAG: u32 = 0x20;

pub const WINDOW_FLAGS: u32 = 0x40;

pub const WINDOW_FORMAT: u32 = 0x80;

pub const WINDOW_HEIGHT: u32 = 0x100;

pub const WINDOW_ID: u32 = 0x200;

pub const WINDOW_INDEX: u32 = 0x400;

pub const WINDOW_LAST_FLAG: u32 = 0x800;

pub const WINDOW_LAYOUT: u32 = 0x1000;

pub const WINDOW_LINKED: u32 = 0x2000;

pub const WINDOW_NAME: u32 = 0x4000;

pub const WINDOW_OFFSET_X: u32 = 0x8000;

pub const WINDOW_OFFSET_Y: u32 = 0x10000;

pub const WINDOW_PANES: u32 = 0x20000;

pub const WINDOW_SILENCE_FLAG: u32 = 0x40000;

pub const WINDOW_STACK_INDEX: u32 = 0x80000;

pub const WINDOW_START_FLAG: u32 = 0x100000;

pub const WINDOW_VISIBLE_LAYOUT: u32 = 0x200000;

pub const WINDOW_WIDTH: u32 = 0x400000;

pub const WINDOW_ZOOMED_FLAG: u32 = 0x800000;

/// The number of descriptors in the window table.
pub const WINDOW_FLAGS_NUM: usize = 24;

/// The empty request.
pub const WINDOW_NONE: u32 = 0;

/// Every descriptor bit set.
pub const WINDOW_ALL: u32 = 0xffffff;

/// The field/segment separator of the window wire format.
pub const WINDOW_VARS_SEPARATOR: char = '\'';

/// A decoded window: a flat set of independently-optional typed fields,
/// each unset until a decode pass sets it.
#[derive(Debug, Clone, PartialEq)]
pub struct Window {
    /// 1 if window active
    pub active: Option<bool>,
    /// Time of window last activity, in milliseconds
    pub activity: Option<usize>,
    /// 1 if window has activity
    pub activity_flag: Option<bool>,
    /// 1 if window has bell
    pub bell_flag: Option<bool>,
    /// 1 if window is larger than client
    pub bigger: Option<bool>,
    /// 1 if window has the highest index
    pub end_flag: Option<bool>,
    /// Window flags
    pub flags: Option<String>,
    /// 1 if format is for a window
    pub format: Option<bool>,
    /// Height of window
    pub height: Option<usize>,
    /// Unique window ID, without its `@` sigil
    pub id: Option<usize>,
    /// Index of window
    pub index: Option<usize>,
    /// 1 if window is the last used
    pub last_flag: Option<bool>,
    /// Window layout description, ignoring zoomed window panes
    pub layout: Option<String>,
    /// 1 if window is linked across sessions
    pub linked: Option<bool>,
    /// Name of window
    pub name: Option<String>,
    /// X offset into window if larger than client
    pub offset_x: Option<usize>,
    /// Y offset into window if larger than client
    pub offset_y: Option<usize>,
    /// Number of panes in window
    pub panes: Option<usize>,
    /// 1 if window has silence alert
    pub silence_flag: Option<bool>,
    /// Index in session most recent stack
    pub stack_index: Option<usize>,
    /// 1 if window has the lowest index
    pub start_flag: Option<bool>,
    /// Window layout description, respecting zoomed window panes
    pub visible_layout: Option<String>,
    /// Width of window
    pub width: Option<usize>,
    /// 1 if window is zoomed
    pub zoomed_flag: Option<bool>,
}

/// The mathematical view of a [`Window`]: text fields as character
/// sequences.
#[verifier::ext_equal]
pub struct WindowView {
    pub active: Option<bool>,
    pub activity: Option<usize>,
    pub activity_flag: Option<bool>,
    pub bell_flag: Option<bool>,
    pub bigger: Option<bool>,
    pub end_flag: Option<bool>,
    pub flags: Option<Seq<char>>,
    pub format: Option<bool>,
    pub height: Option<usize>,
    pub id: Option<usize>,
    pub index: Option<usize>,
    pub last_flag: Option<bool>,
    pub layout: Option<Seq<char>>,
    pub linked: Option<bool>,
    pub name: Option<Seq<char>>,
    pub offset_x: Option<usize>,
    pub offset_y: Option<usize>,
    pub panes: Option<usize>,
    pub silence_flag: Option<bool>,
    pub stack_index: Option<usize>,
    pub start_flag: Option<bool>,
    pub visible_layout: Option<Seq<char>>,
    pub width: Option<usize>,
    pub zoomed_flag: Option<bool>,
}

impl View for Window {
    type V = WindowView;

    open spec fn view(&self) -> WindowView {
        WindowView {
            active: self.active,
            activity: self.activity,
            activity_flag: self.activity_flag,
            bell_flag: self.bell_flag,
            bigger: self.bigger,
            end_flag: self.end_flag,
            flags: view_text(self.flags),
            format: self.format,
            height: self.height,
            id: self.id,
            index: self.index,
            last_flag: self.last_flag,
            layout: view_text(self.layout),
            linked: self.linked,
            name: view_text(self.name),
            offset_x: self.offset_x,
            offset_y: self.offset_y,
            panes: self.panes,
            silence_flag: self.silence_flag,
            stack_index: self.stack_index,
            start_flag: self.start_flag,
            visible_layout: view_text(self.visible_layout),
            width: self.width,
            zoomed_flag: self.zoomed_flag,
        }
    }
}

/// The window with every field unset.
pub open spec fn spec_window_unset() -> WindowView {
    WindowView {
        active: None,
        activity: None,
        activity_flag: None,
        bell_flag: None,
        bigger: None,
        end_flag: None,
        flags: None,
        format: None,
        height: None,
        id: None,
        index: None,
        last_flag: None,
        layout: None,
        linked: None,
        name: None,
        offset_x: None,
        offset_y: None,
        panes: None,
        silence_flag: None,
        stack_index: None,
        start_flag: None,
        visible_layout: None,
        width: None,
        zoomed_flag: None,
    }
}

/// The unique bit of descriptor `i`, in table order.
pub open spec fn window_bit(i: int) -> u32 {
    if i == 0 {
        WINDOW_ACTIVE
    } else if i == 1 {
        WINDOW_ACTIVITY
    } else if i == 2 {
        WINDOW_ACTIVITY_FLAG
    } else if i == 3 {
        WINDOW_BELL_FLAG
    } else if i == 4 {
        WINDOW_BIGGER
    } else if i == 5 {
        WINDOW_END_FLAG
    } else if i == 6 {
        WINDOW_FLAGS
    } else if i == 7 {
        WINDOW_FORMAT
    } else if i == 8 {
        WINDOW_HEIGHT
    } else if i == 9 {
        WINDOW_ID
    } else if i == 10 {
        WINDOW_INDEX
    } else if i == 11 {
        WINDOW_LAST_FLAG
    } else if i == 12 {
        WINDOW_LAYOUT
    } else if i == 13 {
        WINDOW_LINKED
    } else if i == 14 {
        WINDOW_NAME
    } else if i == 15 {
        WINDOW_OFFSET_X
    } else if i == 16 {
        WINDOW_OFFSET_Y
    } else if i == 17 {
        WINDOW_PANES
    } else if i == 18 {
        WINDOW_SILENCE_FLAG
    } else if i == 19 {
        WINDOW_STACK_INDEX
    } else if i == 20 {
        WINDOW_START_FLAG
    } else if i == 21 {
        WINDOW_VISIBLE_LAYOUT
    } else if i == 22 {
        WINDOW_WIDTH
    } else if i == 23 {
        WINDOW_ZOOMED_FLAG
    } else {
        0
    }
}

/// Whether descriptor `i` is requested by the mask.
pub open spec fn window_has(mask: u32, i: int) -> bool {
    mask & window_bit(i) != 0
}

/// How many segments the decoder consumes before reaching descriptor `i`.
pub open spec fn window_rank(mask: u32, i: int) -> int
    decreases i,
{
    if i <= 0 {
        0
    } else {
        window_rank(mask, i - 1) + if window_has(mask, i - 1) {
            1int
        } else {
            0int
        }
    }
}

/// The segment descriptor `i` consumes, if it is requested and the
/// response supplied enough segments.
pub open spec fn window_seg(segs: Seq<Seq<char>>, mask: u32, i: int) -> Option<Seq<char>> {
    if window_has(mask, i) && window_rank(mask, i) < segs.len() {
        Some(segs[window_rank(mask, i)])
    } else {
        None
    }
}

/// Decode of a boolean field: tmux renders `1` for true.
pub open spec fn window_dec_flag(segs: Seq<Seq<char>>, mask: u32, i: int) -> Option<bool> {
    match window_seg(segs, mask, i) {
        Some(seg) => spec_parse_flag(seg),
        None => None,
    }
}

/// Decode of a numeric field.
pub open spec fn window_dec_num(segs: Seq<Seq<char>>, mask: u32, i: int) -> Option<usize> {
    match window_seg(segs, mask, i) {
        Some(seg) => spec_parse_usize(seg),
        None => None,
    }
}

/// Decode of a text field: a nonempty segment is taken verbatim.
pub open spec fn window_dec_text(segs: Seq<Seq<char>>, mask: u32, i: int) -> Option<Seq<char>> {
    match window_seg(segs, mask, i) {
        Some(seg) => if seg.len() > 0 {
            Some(seg)
        } else {
            None
        },
        None => None,
    }
}

/// Decode of an identifier field: the leading sigil character is stripped
/// before the number is parsed.
pub open spec fn window_dec_id(segs: Seq<Seq<char>>, mask: u32, i: int) -> Option<usize> {
    match window_seg(segs, mask, i) {
        Some(seg) => if seg.len() > 0 {
            spec_parse_usize(seg.drop_first())
        } else {
            None
        },
        None => None,
    }
}

/// The record decoded from the given segments under the given mask.
pub open spec fn spec_window_decode(segs: Seq<Seq<char>>, mask: u32) -> WindowView {
    WindowView {
        active: window_dec_flag(segs, mask, 0),
        activity: window_dec_num(segs, mask, 1),
        activity_flag: window_dec_flag(segs, mask, 2),
        bell_flag: window_dec_flag(segs, mask, 3),
        bigger: window_dec_flag(segs, mask, 4),
        end_flag: window_dec_flag(segs, mask, 5),
        flags: window_dec_text(segs, mask, 6),
        format: window_dec_flag(segs, mask, 7),
        height: window_dec_num(segs, mask, 8),
        id: window_dec_id(segs, mask, 9),
        index: window_dec_num(segs, mask, 10),
        last_flag: window_dec_flag(segs, mask, 11),
        layout: window_dec_text(segs, mask, 12),
        linked: window_dec_flag(segs, mask, 13),
        name: window_dec_text(segs, mask, 14),
        offset_x: window_dec_num(segs, mask, 15),
        offset_y: window_dec_num(segs, mask, 16),
        panes: window_dec_num(segs, mask, 17),
        silence_flag: window_dec_flag(segs, mask, 18),
        stack_index: window_dec_num(segs, mask, 19),
        start_flag: window_dec_flag(segs, mask, 20),
        visible_layout: window_dec_text(segs, mask, 21),
        width: window_dec_num(segs, mask, 22),
        zoomed_flag: window_dec_flag(segs, mask, 23),
    }
}

/// Decodes descriptors `0..8` of the table, in order.
#[verifier::rlimit(100)]
fn window_decode_part1(w: &mut Window, segs: &Vec<String>, mask: u32, j: &mut usize)
    requires
        *old(j) as int == window_rank(mask, 0),
        *old(j) <= 0,
        old(w).active is None,
        old(w).activity is None,
        old(w).activity_flag is None,
        old(w).bell_flag is None,
        old(w).bigger is None,
        old(w).end_flag is None,
        old(w).flags is None,
        old(w).format is None,
    ensures
        *final(j) as int == window_rank(mask, 8),
        *final(j) <= 8,
        final(w)@ == (WindowView {
            active: window_dec_flag(seq_strs(segs@), mask, 0),
            activity: window_dec_num(seq_strs(segs@), mask, 1),
            activity_flag: window_dec_flag(seq_strs(segs@), mask, 2),
            bell_flag: window_dec_flag(seq_strs(segs@), mask, 3),
            bigger: window_dec_flag(seq_strs(segs@), mask, 4),
            end_flag: window_dec_flag(seq_strs(segs@), mask, 5),
            flags: window_dec_text(seq_strs(segs@), mask, 6),
            format: window_dec_flag(seq_strs(segs@), mask, 7),
            ..old(w)@
        }),
{
    let ghost gsegs = seq_strs(segs@);
    if mask & WINDOW_ACTIVE != 0 {
        w.active = take_flag(segs, *j);
        *j = *j + 1;
    }
    proof {
        assert(*j as int == window_rank(mask, 1) && *j <= 1);
        assert(w.active == window_dec_flag(gsegs, mask, 0));
    }
    if mask & WINDOW_ACTIVITY != 0 {
        w.activity = take_num(segs, *j);
        *j = *j + 1;
    }
    proof {
        assert(*j as int == window_rank(mask, 2) && *j <= 2);
        assert(w.activity == window_dec_num(gsegs, mask, 1));
    }
    if mask & WINDOW_ACTIVITY_FLAG != 0 {
        w.activity_flag = take_flag(segs, *j);
        *j = *j + 1;
    }
    proof {
        assert(*j as int == window_rank(mask, 3) && *j <= 3);
        assert(w.activity_flag == window_dec_flag(gsegs, mask, 2));
    }
    if mask & WINDOW_BELL_FLAG != 0 {
        w.bell_flag = take_flag(segs, *j);
        *j = *j + 1;
    }
    proof {
        assert(*j as int == window_rank(mask, 4) && *j <= 4);
        assert(w.bell_flag == window_dec_flag(gsegs, mask, 3));
    }
    if mask & WINDOW_BIGGER != 0 {
        w.bigger = take_flag(segs, *j);
        *j = *j + 1;
    }
    proof {
        assert(*j as int == window_rank(mask, 5) && *j <= 5);
        assert(w.bigger == window_dec_flag(gsegs, mask, 4));
    }
    if mask & WINDOW_END_FLAG != 0 {
        w.end_flag = take_flag(segs, *j);
        *j = *j + 1;
    }
    proof {
        assert(*j as int == window_rank(mask, 6) && *j <= 6);
        assert(w.end_flag == window_dec_flag(gsegs, mask, 5));
    }
    if mask & WINDOW_FLAGS != 0 {
        w.flags = take_text(segs, *j);
        *j = *j + 1;
    }
    proof {
        assert(*j as int == window_rank(mask, 7) && *j <= 7);
        assert(view_text(w.flags) == window_dec_text(gsegs, mask, 6));
    }
    if mask & WINDOW_FORMAT != 0 {
        w.format = take_flag(segs, *j);
        *j = *j + 1;
    }
    proof {
        assert(*j as int == window_rank(mask, 8) && *j <= 8);
        assert(w.format == window_dec_flag(gsegs, mask, 7));
    }
    proof {
        assert(w@ =~= (WindowView {
            active: window_dec_flag(gsegs, mask, 0),
            activity: window_dec_num(gsegs, mask, 1),
            activity_flag: window_dec_flag(gsegs, mask, 2),
            bell_flag: window_dec_flag(gsegs, mask, 3),
            bigger: window_dec_flag(gsegs, mask, 4),
            end_flag: window_dec_flag(gsegs, mask, 5),
            flags: window_dec_text(gsegs, mask, 6),
            format: window_dec_flag(gsegs, mask, 7),
            ..old(w)@
        }));
    }
}

/// Decodes descriptors `8..16` of the table, in order.
#[verifier::rlimit(100)]
fn window_decode_part2(w: &mut Window, segs: &Vec<String>, mask: u32, j: &mut usize)
    requires
        *old(j) as int == window_rank(mask, 8),
        *old(j) <= 8,
        old(w).height is None,
        old(w).id is None,
        old(w).index is None,
        old(w).last_flag is None,
        old(w).layout is None,
        old(w).linked is None,
        old(w).name is None,
        old(w).offset_x is None,
    ensures
        *final(j) as int == window_rank(mask, 16),
        *final(j) <= 16,
        final(w)@ == (WindowView {
            height: window_dec_num(seq_strs(segs@), mask, 8),
            id: window_dec_id(seq_strs(segs@), mask, 9),
            index: window_dec_num(seq_strs(segs@), mask, 10),
            last_flag: window_dec_flag(seq_strs(segs@), mask, 11),
            layout: window_dec_text(seq_strs(segs@), mask, 12),
            linked: window_dec_flag(seq_strs(segs@), mask, 13),
            name: window_dec_text(seq_strs(segs@), mask, 14),
            offset_x: window_dec_num(seq_strs(segs@), mask, 15),
            ..old(w)@
        }),
{
    let ghost gsegs = seq_strs(segs@);
    if mask & WINDOW_HEIGHT != 0 {
        w.height = take_num(segs, *j);
        *j = *j + 1;
    }
    proof {
        assert(*j as int == window_rank(mask, 9) && *j <= 9);
        assert(w.height == window_dec_num(gsegs, mask, 8));
    }
    if mask & WINDOW_ID != 0 {
        w.id = take_id(segs, *j);
        *j = *j + 1;
    }
    proof {
        assert(*j as int == window_rank(mask, 10) && *j <= 10);
        assert(w.id == window_dec_id(gsegs, mask, 9));
    }
    if mask & WINDOW_INDEX != 0 {
        w.index = take_num(segs, *j);
        *j = *j + 1;
    }
    proof {
        assert(*j as int == window_rank(mask, 11) && *j <= 11);
        assert(w.index == window_dec_num(gsegs, mask, 10));
    }
    if mask & WINDOW_LAST_FLAG != 0 {
        w.last_flag = take_flag(segs, *j);
        *j = *j + 1;
    }
    proof {
        assert(*j as int == window_rank(mask, 12) && *j <= 12);
        assert(w.last_flag == window_dec_flag(gsegs, mask, 11));
    }
    if mask & WINDOW_LAYOUT != 0 {
        w.layout = take_text(segs, *j);
        *j = *j + 1;
    }
    proof {
        assert(*j as int == window_rank(mask, 13) && *j <= 13);
        assert(view_text(w.layout) == window_dec_text(gsegs, mask, 12));
    }
    if mask & WINDOW_LINKED != 0 {
        w.linked = take_flag(segs, *j);
        *j = *j + 1;
    }
    proof {
        assert(*j as int == window_rank(mask, 14) && *j <= 14);
        assert(w.linked == window_dec_flag(gsegs, mask, 13));
    }
    if mask & WINDOW_NAME != 0 {
        w.name = take_text(segs, *j);
        *j = *j + 1;
    }
    proof {
        assert(*j as int == window_rank(mask, 15) && *j <= 15);
        assert(view_text(w.name) == window_dec_text(gsegs, mask, 14));
    }
    if mask & WINDOW_OFFSET_X != 0 {
        w.offset_x = take_num(segs, *j);
        *j = *j + 1;
    }
    proof {
        assert(*j as int == window_rank(mask, 16) && *j <= 16);
        assert(w.offset_x == window_dec_num(gsegs, mask, 15));
    }
    proof {
        assert(w@ =~= (WindowView {
            height: window_dec_num(gsegs, mask, 8),
            id: window_dec_id(gsegs, mask, 9),
            index: window_dec_num(gsegs, mask, 10),
            last_flag: window_dec_flag(gsegs, mask, 11),
            layout: window_dec_text(gsegs, mask, 12),
            linked: window_dec_flag(gsegs, mask, 13),
            name: window_dec_text(gsegs, mask, 14),
            offset_x: window_dec_num(gsegs, mask, 15),
            ..old(w)@
        }));
    }
}

/// Decodes descriptors `16..24` of the table, in order.
#[verifier::rlimit(100)]
fn window_decode_part3(w: &mut Window, segs: &Vec<String>, mask: u32, j: &mut usize)
    requires
        *old(j) as int == window_rank(mask, 16),
        *old(j) <= 16,
        old(w).offset_y is None,
        old(w).panes is None,
        old(w).silence_flag is None,
        old(w).stack_index is None,
        old(w).start_flag is None,
        old(w).visible_layout is None,
        old(w).width is None,
        old(w).zoomed_flag is None,
    ensures
        *final(j) as int == window_rank(mask, 24),
        *final(j) <= 24,
        final(w)@ == (WindowView {
            offset_y: window_dec_num(seq_strs(segs@), mask, 16),
            panes: window_dec_num(seq_strs(segs@), mask, 17),
            silence_flag: window_dec_flag(seq_strs(segs@), mask, 18),
            stack_index: window_dec_num(seq_strs(segs@), mask, 19),
            start_flag: window_dec_flag(seq_strs(segs@), mask, 20),
            visible_layout: window_dec_text(seq_strs(segs@), mask, 21),
            width: window_dec_num(seq_strs(segs@), mask, 22),
            zoomed_flag: window_dec_flag(seq_strs(segs@), mask, 23),
            ..old(w)@
        }),
{
    let ghost gsegs = seq_strs(segs@);
    if mask & WINDOW_OFFSET_Y != 0 {
        w.offset_y = take_num(segs, *j);
        *j = *j + 1;
    }
    proof {
        assert(*j as int == window_rank(mask, 17) && *j <= 17);
        assert(w.offset_y == window_dec_num(gsegs, mask, 16));
    }
    if mask & WINDOW_PANES != 0 {
        w.panes = take_num(segs, *j);
        *j = *j + 1;
    }
    proof {
        assert(*j as int == window_rank(mask, 18) && *j <= 18);
        assert(w.panes == window_dec_num(gsegs, mask, 17));
    }
    if mask & WINDOW_SILENCE_FLAG != 0 {
        w.silence_flag = take_flag(segs, *j);
        *j = *j + 1;
    }
    proof {
        assert(*j as int == window_rank(mask, 19) && *j <= 19);
        assert(w.silence_flag == window_dec_flag(gsegs, mask, 18));
    }
    if mask & WINDOW_STACK_INDEX != 0 {
        w.stack_index = take_num(segs, *j);
        *j = *j + 1;
    }
    proof {
        assert(*j as int == window_rank(mask, 20) && *j <= 20);
        assert(w.stack_index == window_dec_num(gsegs, mask, 19));
    }
    if mask & WINDOW_START_FLAG != 0 {
        w.start_flag = take_flag(segs, *j);
        *j = *j + 1;
    }
    proof {
        assert(*j as int == window_rank(mask, 21) && *j <= 21);
        assert(w.start_flag == window_dec_flag(gsegs, mask, 20));
    }
    if mask & WINDOW_VISIBLE_LAYOUT != 0 {
        w.visible_layout = take_text(segs, *j);
        *j = *j + 1;
    }
    proof {
        assert(*j as int == window_rank(mask, 22) && *j <= 22);
        assert(view_text(w.visible_layout) == window_dec_text(gsegs, mask, 21));
    }
    if mask & WINDOW_WIDTH != 0 {
        w.width = take_num(segs, *j);
        *j = *j + 1;
    }
    proof {
        assert(*j as int == window_rank(mask, 23) && *j <= 23);
        assert(w.width == window_dec_num(gsegs, mask, 22));
    }
    if mask & WINDOW_ZOOMED_FLAG != 0 {
        w.zoomed_flag = take_flag(segs, *j);
        *j = *j + 1;
    }
    proof {
        assert(*j as int == window_rank(mask, 24) && *j <= 24);
        assert(w.zoomed_flag == window_dec_flag(gsegs, mask, 23));
    }
    proof {
        assert(w@ =~= (WindowView {
            offset_y: window_dec_num(gsegs, mask, 16),
            panes: window_dec_num(gsegs, mask, 17),
            silence_flag: window_dec_flag(gsegs, mask, 18),
            stack_index: window_dec_num(gsegs, mask, 19),
            start_flag: window_dec_flag(gsegs, mask, 20),
            visible_layout: window_dec_text(gsegs, mask, 21),
            width: window_dec_num(gsegs, mask, 22),
            zoomed_flag: window_dec_flag(gsegs, mask, 23),
            ..old(w)@
        }));
    }
}

impl Window {
    /// A window with every field unset.
    pub fn new() -> (r: Window)
        ensures
            r@ == spec_window_unset(),
    {
        Window {
            active: None,
            activity: None,
            activity_flag: None,
            bell_flag: None,
            bigger: None,
            end_flag: None,
            flags: None,
            format: None,
            height: None,
            id: None,
            index: None,
            last_flag: None,
            layout: None,
            linked: None,
            name: None,
            offset_x: None,
            offset_y: None,
            panes: None,
            silence_flag: None,
            stack_index: None,
            start_flag: None,
            visible_layout: None,
            width: None,
            zoomed_flag: None,
        }
    }

    /// Decodes one response line under the request mask: the line is split
    /// at the separator, and each requested descriptor consumes exactly one
    /// segment, in table order.  Missing, empty or unparsable segments
    /// leave their field unset.
    pub fn from_str(s: &str, bitflags: u32) -> (r: Result<Window, crate::error::Error>)
        ensures
            r matches Ok(w) && w@ == spec_window_decode(
                spec_split(s@, WINDOW_VARS_SEPARATOR),
                bitflags,
            ),
    {
        let segs = split_line(s, WINDOW_VARS_SEPARATOR);
        let ghost gsegs = seq_strs(segs@);
        let mask = bitflags;
        let mut w = Window::new();
        let mut j: usize = 0;
        proof {
            assert(window_rank(mask, 0) == 0);
        }
        window_decode_part1(&mut w, &segs, mask, &mut j);
        window_decode_part2(&mut w, &segs, mask, &mut j);
        window_decode_part3(&mut w, &segs, mask, &mut j);
        proof {
            assert(w@ =~= spec_window_decode(gsegs, mask));
        }
        Ok(w)
    }
}

/// The format-variable name of descriptor `i`, in table order.
pub open spec fn spec_window_name(i: int) -> Seq<char> {
    if i == 0 {
        "window_active"@
    } else if i == 1 {
        "window_activity"@
    } else if i == 2 {
        "window_activity_flag"@
    } else if i == 3 {
        "window_bell_flag"@
    } else if i == 4 {
        "window_bigger"@
    } else if i == 5 {
        "window_end_flag"@
    } else if i == 6 {
        "window_flags"@
    } else if i == 7 {
        "window_format"@
    } else if i == 8 {
        "window_height"@
    } else if i == 9 {
        "window_id"@
    } else if i == 10 {
        "window_index"@
    } else if i == 11 {
        "window_last_flag"@
    } else if i == 12 {
        "window_layout"@
    } else if i == 13 {
        "window_linked"@
    } else if i == 14 {
        "window_name"@
    } else if i == 15 {
        "window_offset_x"@
    } else if i == 16 {
        "window_offset_y"@
    } else if i == 17 {
        "window_panes"@
    } else if i == 18 {
        "window_silence_flag"@
    } else if i == 19 {
        "window_stack_index"@
    } else if i == 20 {
        "window_start_flag"@
    } else if i == 21 {
        "window_visible_layout"@
    } else if i == 22 {
        "window_width"@
    } else if i == 23 {
        "window_zoomed_flag"@
    } else {
        Seq::<char>::empty()
    }
}

/// The format-variable name of descriptor `i`.
pub fn window_var_name(i: usize) -> (r: &'static str)
    requires
        i < 24,
    ensures
        r@ == spec_window_name(i as int),
{
    match i {
        0 => "window_active",
        1 => "window_activity",
        2 => "window_activity_flag",
        3 => "window_bell_flag",
        4 => "window_bigger",
        5 => "window_end_flag",
        6 => "window_flags",
        7 => "window_format",
        8 => "window_height",
        9 => "window_id",
        10 => "window_index",
        11 => "window_last_flag",
        12 => "window_layout",
        13 => "window_linked",
        14 => "window_name",
        15 => "window_offset_x",
        16 => "window_offset_y",
        17 => "window_panes",
        18 => "window_silence_flag",
        19 => "window_stack_index",
        20 => "window_start_flag",
        21 => "window_visible_layout",
        22 => "window_width",
        _ => "window_zoomed_flag",
    }
}

/// The bit of descriptor `i`.
pub fn window_bit_at(i: usize) -> (r: u32)
    requires
        i < 24,
    ensures
        r == window_bit(i as int),
{
    match i {
        0 => WINDOW_ACTIVE,
        1 => WINDOW_ACTIVITY,
        2 => WINDOW_ACTIVITY_FLAG,
        3 => WINDOW_BELL_FLAG,
        4 => WINDOW_BIGGER,
        5 => WINDOW_END_FLAG,
        6 => WINDOW_FLAGS,
        7 => WINDOW_FORMAT,
        8 => WINDOW_HEIGHT,
        9 => WINDOW_ID,
        10 => WINDOW_INDEX,
        11 => WINDOW_LAST_FLAG,
        12 => WINDOW_LAYOUT,
        13 => WINDOW_LINKED,
        14 => WINDOW_NAME,
        15 => WINDOW_OFFSET_X,
        16 => WINDOW_OFFSET_Y,
        17 => WINDOW_PANES,
        18 => WINDOW_SILENCE_FLAG,
        19 => WINDOW_STACK_INDEX,
        20 => WINDOW_START_FLAG,
        21 => WINDOW_VISIBLE_LAYOUT,
        22 => WINDOW_WIDTH,
        _ => WINDOW_ZOOMED_FLAG,
    }
}

/// Builds the placeholder fragment for descriptor `i`.
pub fn window_fragment(i: usize) -> (r: String)
    requires
        i < 24,
    ensures
        r@ == crate::pane::spec_fragment(spec_window_name(i as int)),
{
    let mut f = String::from_str("#{");
    f.append(window_var_name(i));
    f.append("}");
    f
}

/// The fragments of the first `i` descriptors requested by the mask, in
/// table order.
pub open spec fn spec_window_frags(mask: u32, i: int) -> Seq<Seq<char>>
    decreases i,
{
    if i <= 0 {
        Seq::<Seq<char>>::empty()
    } else {
        spec_window_frags(mask, i - 1) + if window_has(mask, i - 1) {
            seq![crate::pane::spec_fragment(spec_window_name(i - 1))]
        } else {
            Seq::<Seq<char>>::empty()
        }
    }
}

/// The composed query-format string for the mask.
pub open spec fn spec_window_query(mask: u32) -> Seq<char> {
    spec_join(spec_window_frags(mask, 24), seq![WINDOW_VARS_SEPARATOR])
}

/// The placeholder fragments requested by the mask, in table order.
pub fn window_query_fragments(mask: u32) -> (r: Vec<String>)
    ensures
        seq_strs(r@) == spec_window_frags(mask, 24),
{
    let mut frags: Vec<String> = Vec::new();
    let mut i: usize = 0;
    proof {
        assert(seq_strs(frags@) =~= spec_window_frags(mask, 0));
    }
    while i < WINDOW_FLAGS_NUM
        invariant
            0 <= i <= 24,
            seq_strs(frags@) == spec_window_frags(mask, i as int),
        decreases 24 - i,
    {
        let bit = window_bit_at(i);
        if mask & bit != 0 {
            let f = window_fragment(i);
            proof {
                lemma_seq_strs_push(frags@, f);
                assert(spec_window_frags(mask, (i + 1) as int) =~= seq_strs(frags@).push(f@));
            }
            frags.push(f);
        } else {
            proof {
                assert(spec_window_frags(mask, (i + 1) as int) =~= seq_strs(frags@));
            }
        }
        i = i + 1;
    }
    frags
}

/// Composes the query-format string for the mask.
pub fn window_query(mask: u32) -> (r: String)
    ensures
        r@ == spec_window_query(mask),
{
    let frags = window_query_fragments(mask);
    proof {
        reveal_strlit("'");
        assert("'"@ =~= seq![WINDOW_VARS_SEPARATOR]);
    }
    join(&frags, "'")
}

/// The rank never decreases along the table, and each requested descriptor
/// raises it by exactly one.
pub proof fn lemma_window_rank_step(mask: u32, i: int, j: int)
    requires
        0 <= i <= j,
    ensures
        window_rank(mask, i) <= window_rank(mask, j),
        window_rank(mask, j) <= window_rank(mask, i) + (j - i),
        i < j && window_has(mask, i) ==> window_rank(mask, i) < window_rank(mask, j),
    decreases j - i,
{
    if i < j {
        lemma_window_rank_step(mask, i + 1, j);
    }
}

/// Each descriptor owns one unique, nonzero bit.
pub proof fn lemma_window_bits_unique()
    ensures
        forall|i: int, j: int|
            0 <= i < 24 && 0 <= j < 24 && i != j ==> #[trigger] window_bit(i)
                != #[trigger] window_bit(j),
        forall|i: int| 0 <= i < 24 ==> #[trigger] window_bit(i) != 0,
{
}

/// The bits of the table, folded together with bitwise or, in table order.
pub open spec fn window_bits_or(i: int) -> u32
    decreases i,
{
    if i <= 0 {
        0u32
    } else {
        window_bits_or(i - 1) | window_bit(i - 1)
    }
}

/// Folding every descriptor bit together gives exactly the all-fields mask.
pub proof fn lemma_window_bits_cover()
    ensures
        window_bits_or(24) == WINDOW_ALL,
{
    reveal_with_fuel(window_bits_or, 25);
    assert(((((((((((((((((((((((((0u32 | 0x1) | 0x2) | 0x4) | 0x8) | 0x10) | 0x20) | 0x40) | 0x80) | 0x100) | 0x200) | 0x400) | 0x800) | 0x1000) | 0x2000) | 0x4000) | 0x8000) | 0x10000) | 0x20000) | 0x40000) | 0x80000) | 0x100000) | 0x200000) | 0x400000) | 0x800000) == 0xffffffu32) by (bit_vector);
}

/// The round trip of the engine: joining separator-free canonical segments
/// into a response line and decoding that line under the same mask gives
/// exactly the record decoded from the segments themselves.
pub proof fn lemma_window_round_trip(vals: Seq<Seq<char>>, mask: u32)
    requires
        vals.len() == window_rank(mask, 24),
        forall|k: int| 0 <= k < vals.len() ==> sep_free(#[trigger] vals[k], WINDOW_VARS_SEPARATOR),
    ensures
        spec_window_decode(
            spec_split(spec_join(vals, seq![WINDOW_VARS_SEPARATOR]), WINDOW_VARS_SEPARATOR),
            mask,
        ) == spec_window_decode(vals, mask),
{
    if vals.len() == 0 {
        assert forall|i: int| 0 <= i < 24 implies !window_has(mask, i) by {
            if window_has(mask, i) {
                lemma_window_rank_step(mask, 0, i);
                lemma_window_rank_step(mask, i, 24);
            }
        }
        let split = spec_split(
            spec_join(vals, seq![WINDOW_VARS_SEPARATOR]),
            WINDOW_VARS_SEPARATOR,
        );
        assert(spec_window_decode(split, mask) =~= spec_window_decode(vals, mask));
    } else {
        lemma_split_join(vals, WINDOW_VARS_SEPARATOR);
    }
}


/// The fragment list is indexed by rank: it holds one fragment per
/// requested descriptor, and the fragment of descriptor `k` stands at
/// position `window_rank(mask, k)` — the position whose response segment
/// descriptor `k` consumes on decode.
pub proof fn lemma_window_frags_rank(mask: u32, i: int)
    requires
        0 <= i,
    ensures
        spec_window_frags(mask, i).len() == window_rank(mask, i),
        forall|k: int|
            0 <= k < i && window_has(mask, k) ==> spec_window_frags(mask, i)[window_rank(mask, k)]
                == crate::pane::spec_fragment(#[trigger] spec_window_name(k)),
    decreases i,
{
    if i > 0 {
        lemma_window_frags_rank(mask, i - 1);
        assert forall|k: int|
            0 <= k < i && window_has(mask, k) implies spec_window_frags(mask, i)[window_rank(
            mask,
            k,
        )] == crate::pane::spec_fragment(#[trigger] spec_window_name(k)) by {
            lemma_window_rank_step(mask, 0, k);
            let tail = if window_has(mask, i - 1) {
                seq![crate::pane::spec_fragment(spec_window_name(i - 1))]
            } else {
                Seq::<Seq<char>>::empty()
            };
            assert(spec_window_frags(mask, i) == spec_window_frags(mask, i - 1) + tail);
            if k < i - 1 {
                lemma_window_rank_step(mask, k, i - 1);
                assert(window_rank(mask, k) < window_rank(mask, i - 1));
                assert((spec_window_frags(mask, i - 1) + tail)[window_rank(mask, k)]
                    == spec_window_frags(mask, i - 1)[window_rank(mask, k)]);
            }
        }
    }
}

/// The engine round trip over the composed format string, in full: one
/// fragment per requested descriptor, at the position whose response
/// segment that descriptor consumes, and each requested descriptor reads
/// back its own canonical segment.
pub proof fn lemma_window_query_decode_round_trip(vals: Seq<Seq<char>>, mask: u32)
    requires
        vals.len() == window_rank(mask, 24),
        forall|k: int| 0 <= k < vals.len() ==> sep_free(#[trigger] vals[k], WINDOW_VARS_SEPARATOR),
    ensures
        spec_window_frags(mask, 24).len() == vals.len(),
        forall|i: int|
            0 <= i < 24 && window_has(mask, i) ==> {
                &&& spec_window_frags(mask, 24)[window_rank(mask, i)] == crate::pane::spec_fragment(
                    #[trigger] spec_window_name(i),
                )
                &&& window_seg(
                    spec_split(
                        spec_join(vals, seq![WINDOW_VARS_SEPARATOR]),
                        WINDOW_VARS_SEPARATOR,
                    ),
                    mask,
                    i,
                ) == Some(vals[window_rank(mask, i)])
            },
{
    lemma_window_frags_rank(mask, 24);
    assert forall|i: int| 0 <= i < 24 && window_has(mask, i) implies window_seg(
        spec_split(spec_join(vals, seq![WINDOW_VARS_SEPARATOR]), WINDOW_VARS_SEPARATOR),
        mask,
        i,
    ) == Some(vals[window_rank(mask, i)]) && spec_window_frags(mask, 24)[window_rank(mask, i)]
        == crate::pane::spec_fragment(#[trigger] spec_window_name(i)) by {
        lemma_window_rank_step(mask, 0, i);
        lemma_window_rank_step(mask, i, 24);
        assert(0 <= window_rank(mask, i) < vals.len());
        lemma_split_join(vals, WINDOW_VARS_SEPARATOR);
    }
}

/// Decoding fewer segments than requested fields leaves every later field
/// unset, whatever its kind.
pub proof fn lemma_window_truncated_unset(segs: Seq<Seq<char>>, mask: u32, i: int)
    requires
        window_rank(mask, i) >= segs.len(),
    ensures
        window_dec_flag(segs, mask, i) is None,
        window_dec_num(segs, mask, i) is None,
        window_dec_text(segs, mask, i) is None,
        window_dec_id(segs, mask, i) is None,
{
}


/// An empty segment consumes its position like any other: it changes neither
/// the count nor the order of the segments later descriptors consume.
pub proof fn lemma_window_empty_segment_alignment(
    segs1: Seq<Seq<char>>,
    segs2: Seq<Seq<char>>,
    mask: u32,
    k: int,
    i: int,
)
    requires
        segs1.len() == segs2.len(),
        0 <= k < segs1.len(),
        forall|m: int| 0 <= m < segs1.len() && m != k ==> segs1[m] == segs2[m],
        segs2[k].len() == 0,
        0 <= i < 24,
    ensures
        window_rank(mask, i) != k ==> {
            &&& window_dec_flag(segs1, mask, i) == window_dec_flag(segs2, mask, i)
            &&& window_dec_num(segs1, mask, i) == window_dec_num(segs2, mask, i)
            &&& window_dec_text(segs1, mask, i) == window_dec_text(segs2, mask, i)
            &&& window_dec_id(segs1, mask, i) == window_dec_id(segs2, mask, i)
        },
        window_rank(mask, i) == k ==> {
            &&& window_dec_flag(segs2, mask, i) is None
            &&& window_dec_num(segs2, mask, i) is None
            &&& window_dec_text(segs2, mask, i) is None
            &&& window_dec_id(segs2, mask, i) is None
        },
{
    lemma_window_rank_step(mask, 0, i);
    if window_has(mask, i) && window_rank(mask, i) < segs1.len() && window_rank(mask, i) != k {
        assert(segs1[window_rank(mask, i)] == segs2[window_rank(mask, i)]);
    }
}

/// With no segments at all, every field of the decoded record is unset.
pub proof fn lemma_window_decode_empty(mask: u32)
    ensures
        spec_window_decode(Seq::<Seq<char>>::empty(), mask) == spec_window_unset(),
{
    assert(spec_window_decode(Seq::<Seq<char>>::empty(), mask) =~= spec_window_unset());
}

} // verus!
