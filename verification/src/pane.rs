//! The pane field-descriptor table and its query/decode engine.
//!
//! Each decodable pane field owns one unique bit in a fixed-width bitmask.
//! One fixed table order drives both directions: composing the query-format
//! string (one placeholder fragment per requested field) and decoding the
//! single-line answer (one delimiter-separated segment per requested field,
//! consumed positionally in the same order).  Decoding is best-effort: a
//! missing or empty segment, or one that fails to parse, leaves the field
//! unset and never raises an error.
//!
//! The separator is a printable character that could in principle appear
//! inside free-text fields (titles, paths); values containing it misalign
//! the positional decode.  This is a known limitation of the wire format,
//! kept deliberately because the format string and the response share it.

use vstd::prelude::*;

use crate::strutil::seq_strs;
use crate::strutil::spec_parse_flag;
use crate::strutil::spec_parse_usize;
use crate::strutil::spec_split;
use crate::strutil::split_line;
use crate::strutil::join;
use crate::strutil::spec_join;
use crate::strutil::sep_free;
use crate::strutil::lemma_split_join;
use crate::strutil::lemma_seq_strs_push;
use crate::strutil::view_text;
use crate::strutil::take_flag;
use crate::strutil::take_num;
use crate::strutil::take_text;
use crate::strutil::take_id;

verus! {

// One unique bit per descriptor, in table order.
pub const PANE_ACTIVE: u32 = 0x1;

pub const PANE_AT_BOTTOM: u32 = 0x2;

pub const PANE_AT_LEFT: u32 = 0x4;

pub const PANE_AT_RIGHT: u32 = 0x8;

pub const PANE_AT_TOP: u32 = 0x10;

pub const PANE_BOTTOM: u32 = 0x20;

pub const PANE_CURRENT_COMMAND: u32 = 0x40;

pub const PANE_CURRENT_PATH: u32 = 0x80;

pub const PANE_DEAD: u32 = 0x100;

pub const PANE_DEAD_STATUS: u32 = 0x200;

pub const PANE_FORMAT: u32 = 0x400;

pub const PANE_HEIGHT: u32 = 0x800;

pub const PANE_ID: u32 = 0x1000;

pub const PANE_IN_MODE: u32 = 0x2000;

pub const PANE_INDEX: u32 = 0x4000;

pub const PANE_INPUT_OFF: u32 = 0x8000;

pub const PANE_LEFT: u32 = 0x10000;

pub const PANE_MARKED: u32 = 0x20000;

pub const PANE_MARKED_SET: u32 = 0x40000;

pub const PANE_MODE: u32 = 0x80000;

pub const PANE_PID: u32 = 0x100000;

pub const PANE_PIPE: u32 = 0x200000;

pub const PANE_RIGHT: u32 = 0x400000;

pub const PANE_SEARCH_STRING: u32 = 0x800000;

pub const PANE_START_COMMMAND: u32 = 0x1000000;

pub const PANE_SYNCHRONIZED: u32 = 0x2000000;

pub const PANE_TABS: u32 = 0x4000000;

pub const PANE_TITLE: u32 = 0x8000000;

pub const PANE_TOP: u32 = 0x10000000;

pub const PANE_TTY: u32 = 0x20000000;

pub const PANE_WIDTH: u32 = 0x40000000;

/// The number of descriptors in the pane table.
pub const PANE_FLAGS_NUM: usize = 31;

/// The empty request.
pub const PANE_NONE: u32 = 0;

/// Every descriptor bit set.
pub const PANE_ALL: u32 = 0x7fffffff;

/// The field/segment separator of the pane wire format.
pub const PANE_VARS_SEPARATOR: char = '\'';

/// A decoded pane: a flat set of independently-optional typed fields, each
/// unset until a decode pass sets it.
#[derive(Debug, Clone, PartialEq)]
pub struct Pane {
    /// 1 if active pane
    pub active: Option<bool>,
    /// 1 if pane is at the bottom of window
    pub at_bottom: Option<bool>,
    /// 1 if pane is at the left of window
    pub at_left: Option<bool>,
    /// 1 if pane is at the right of window
    pub at_right: Option<bool>,
    /// 1 if pane is at the top of window
    pub at_top: Option<bool>,
    /// Bottom of pane
    pub bottom: Option<usize>,
    /// Current command if available
    pub current_command: Option<String>,
    /// Current path if available
    pub current_path: Option<String>,
    /// 1 if pane is dead
    pub dead: Option<bool>,
    /// Exit status of process in dead pane
    pub dead_status: Option<usize>,
    /// 1 if format is for a pane
    pub format: Option<bool>,
    /// Height of pane
    pub height: Option<usize>,
    /// Unique pane ID, without its `%` sigil
    pub id: Option<usize>,
    /// 1 if pane is in a mode
    pub in_mode: Option<bool>,
    /// Index of pane
    pub index: Option<usize>,
    /// 1 if input to pane is disabled
    pub input_off: Option<bool>,
    /// Left of pane
    pub left: Option<usize>,
    /// 1 if this is the marked pane
    pub marked: Option<bool>,
    /// 1 if a marked pane is set
    pub marked_set: Option<bool>,
    /// Name of pane mode, if any
    pub mode: Option<usize>,
    /// PID of first process in pane
    pub pid: Option<usize>,
    /// 1 if pane is being piped
    pub pipe: Option<bool>,
    /// Right of pane
    pub right: Option<usize>,
    /// Last search string in copy mode
    pub search_string: Option<usize>,
    /// Command pane started with
    pub start_command: Option<usize>,
    /// 1 if pane is synchronized
    pub synchronized: Option<bool>,
    /// Pane tab positions
    pub tabs: Option<String>,
    /// Title of pane
    pub title: Option<String>,
    /// Top of pane
    pub top: Option<usize>,
    /// Pseudo terminal of pane
    pub tty: Option<String>,
    /// Width of pane
    pub width: Option<usize>,
}

/// The mathematical view of a [`Pane`]: text fields as character sequences.
#[verifier::ext_equal]
pub struct PaneView {
    pub active: Option<bool>,
    pub at_bottom: Option<bool>,
    pub at_left: Option<bool>,
    pub at_right: Option<bool>,
    pub at_top: Option<bool>,
    pub bottom: Option<usize>,
    pub current_command: Option<Seq<char>>,
    pub current_path: Option<Seq<char>>,
    pub dead: Option<bool>,
    pub dead_status: Option<usize>,
    pub format: Option<bool>,
    pub height: Option<usize>,
    pub id: Option<usize>,
    pub in_mode: Option<bool>,
    pub index: Option<usize>,
    pub input_off: Option<bool>,
    pub left: Option<usize>,
    pub marked: Option<bool>,
    pub marked_set: Option<bool>,
    pub mode: Option<usize>,
    pub pid: Option<usize>,
    pub pipe: Option<bool>,
    pub right: Option<usize>,
    pub search_string: Option<usize>,
    pub start_command: Option<usize>,
    pub synchronized: Option<bool>,
    pub tabs: Option<Seq<char>>,
    pub title: Option<Seq<char>>,
    pub top: Option<usize>,
    pub tty: Option<Seq<char>>,
    pub width: Option<usize>,
}

impl View for Pane {
    type V = PaneView;

    open spec fn view(&self) -> PaneView {
        PaneView {
            active: self.active,
            at_bottom: self.at_bottom,
            at_left: self.at_left,
            at_right: self.at_right,
            at_top: self.at_top,
            bottom: self.bottom,
            current_command: view_text(self.current_command),
            current_path: view_text(self.current_path),
            dead: self.dead,
            dead_status: self.dead_status,
            format: self.format,
            height: self.height,
            id: self.id,
            in_mode: self.in_mode,
            index: self.index,
            input_off: self.input_off,
            left: self.left,
            marked: self.marked,
            marked_set: self.marked_set,
            mode: self.mode,
            pid: self.pid,
            pipe: self.pipe,
            right: self.right,
            search_string: self.search_string,
            start_command: self.start_command,
            synchronized: self.synchronized,
            tabs: view_text(self.tabs),
            title: view_text(self.title),
            top: self.top,
            tty: view_text(self.tty),
            width: self.width,
        }
    }
}

/// The pane with every field unset.
pub open spec fn spec_pane_unset() -> PaneView {
    PaneView {
        active: None,
        at_bottom: None,
        at_left: None,
        at_right: None,
        at_top: None,
        bottom: None,
        current_command: None,
        current_path: None,
        dead: None,
        dead_status: None,
        format: None,
        height: None,
        id: None,
        in_mode: None,
        index: None,
        input_off: None,
        left: None,
        marked: None,
        marked_set: None,
        mode: None,
        pid: None,
        pipe: None,
        right: None,
        search_string: None,
        start_command: None,
        synchronized: None,
        tabs: None,
        title: None,
        top: None,
        tty: None,
        width: None,
    }
}

/// The unique bit of descriptor `i`, in table order.
pub open spec fn pane_bit(i: int) -> u32 {
    if i == 0 {
        PANE_ACTIVE
    } else if i == 1 {
        PANE_AT_BOTTOM
    } else if i == 2 {
        PANE_AT_LEFT
    } else if i == 3 {
        PANE_AT_RIGHT
    } else if i == 4 {
        PANE_AT_TOP
    } else if i == 5 {
        PANE_BOTTOM
    } else if i == 6 {
        PANE_CURRENT_COMMAND
    } else if i == 7 {
        PANE_CURRENT_PATH
    } else if i == 8 {
        PANE_DEAD
    } else if i == 9 {
        PANE_DEAD_STATUS
    } else if i == 10 {
        PANE_FORMAT
    } else if i == 11 {
        PANE_HEIGHT
    } else if i == 12 {
        PANE_ID
    } else if i == 13 {
        PANE_IN_MODE
    } else if i == 14 {
        PANE_INDEX
    } else if i == 15 {
        PANE_INPUT_OFF
    } else if i == 16 {
        PANE_LEFT
    } else if i == 17 {
        PANE_MARKED
    } else if i == 18 {
        PANE_MARKED_SET
    } else if i == 19 {
        PANE_MODE
    } else if i == 20 {
        PANE_PID
    } else if i == 21 {
        PANE_PIPE
    } else if i == 22 {
        PANE_RIGHT
    } else if i == 23 {
        PANE_SEARCH_STRING
    } else if i == 24 {
        PANE_START_COMMMAND
    } else if i == 25 {
        PANE_SYNCHRONIZED
    } else if i == 26 {
        PANE_TABS
    } else if i == 27 {
        PANE_TITLE
    } else if i == 28 {
        PANE_TOP
    } else if i == 29 {
        PANE_TTY
    } else if i == 30 {
        PANE_WIDTH
    } else {
        0
    }
}

/// Whether descriptor `i` is requested by the mask.
pub open spec fn pane_has(mask: u32, i: int) -> bool {
    mask & pane_bit(i) != 0
}

/// How many segments the decoder consumes before reaching descriptor `i`:
/// the number of requested descriptors among `0..i`.
pub open spec fn pane_rank(mask: u32, i: int) -> int
    decreases i,
{
    if i <= 0 {
        0
    } else {
        pane_rank(mask, i - 1) + if pane_has(mask, i - 1) {
            1int
        } else {
            0int
        }
    }
}

/// The segment descriptor `i` consumes, if it is requested and the response
/// supplied enough segments.
pub open spec fn pane_seg(segs: Seq<Seq<char>>, mask: u32, i: int) -> Option<Seq<char>> {
    if pane_has(mask, i) && pane_rank(mask, i) < segs.len() {
        Some(segs[pane_rank(mask, i)])
    } else {
        None
    }
}

/// Decode of a boolean field: tmux renders `1` for true.
pub open spec fn pane_dec_flag(segs: Seq<Seq<char>>, mask: u32, i: int) -> Option<bool> {
    match pane_seg(segs, mask, i) {
        Some(seg) => spec_parse_flag(seg),
        None => None,
    }
}

/// Decode of a numeric field.
pub open spec fn pane_dec_num(segs: Seq<Seq<char>>, mask: u32, i: int) -> Option<usize> {
    match pane_seg(segs, mask, i) {
        Some(seg) => spec_parse_usize(seg),
        None => None,
    }
}

/// Decode of a text field: a nonempty segment is taken verbatim.
pub open spec fn pane_dec_text(segs: Seq<Seq<char>>, mask: u32, i: int) -> Option<Seq<char>> {
    match pane_seg(segs, mask, i) {
        Some(seg) => if seg.len() > 0 {
            Some(seg)
        } else {
            None
        },
        None => None,
    }
}

/// Decode of an identifier field: the leading sigil character is stripped
/// before the number is parsed.
pub open spec fn pane_dec_id(segs: Seq<Seq<char>>, mask: u32, i: int) -> Option<usize> {
    match pane_seg(segs, mask, i) {
        Some(seg) => if seg.len() > 0 {
            spec_parse_usize(seg.drop_first())
        } else {
            None
        },
        None => None,
    }
}

/// The record decoded from the given segments under the given mask: each
/// requested descriptor consumes one segment, in table order, and parses it
/// best-effort; everything else stays unset.
pub open spec fn spec_pane_decode(segs: Seq<Seq<char>>, mask: u32) -> PaneView {
    PaneView {
        active: pane_dec_flag(segs, mask, 0),
        at_bottom: pane_dec_flag(segs, mask, 1),
        at_left: pane_dec_flag(segs, mask, 2),
        at_right: pane_dec_flag(segs, mask, 3),
        at_top: pane_dec_flag(segs, mask, 4),
        bottom: pane_dec_num(segs, mask, 5),
        current_command: pane_dec_text(segs, mask, 6),
        current_path: pane_dec_text(segs, mask, 7),
        dead: pane_dec_flag(segs, mask, 8),
        dead_status: pane_dec_num(segs, mask, 9),
        format: pane_dec_flag(segs, mask, 10),
        height: pane_dec_num(segs, mask, 11),
        id: pane_dec_id(segs, mask, 12),
        in_mode: pane_dec_flag(segs, mask, 13),
        index: pane_dec_num(segs, mask, 14),
        input_off: pane_dec_flag(segs, mask, 15),
        left: pane_dec_num(segs, mask, 16),
        marked: pane_dec_flag(segs, mask, 17),
        marked_set: pane_dec_flag(segs, mask, 18),
        mode: pane_dec_num(segs, mask, 19),
        pid: pane_dec_num(segs, mask, 20),
        pipe: pane_dec_flag(segs, mask, 21),
        right: pane_dec_num(segs, mask, 22),
        search_string: pane_dec_num(segs, mask, 23),
        start_command: pane_dec_num(segs, mask, 24),
        synchronized: pane_dec_flag(segs, mask, 25),
        tabs: pane_dec_text(segs, mask, 26),
        title: pane_dec_text(segs, mask, 27),
        top: pane_dec_num(segs, mask, 28),
        tty: pane_dec_text(segs, mask, 29),
        width: pane_dec_num(segs, mask, 30),
    }
}


/// Decodes descriptors `0..8` of the table, in order.
fn pane_decode_part1(p: &mut Pane, segs: &Vec<String>, mask: u32, j: &mut usize)
    requires
        *old(j) as int == pane_rank(mask, 0),
        *old(j) <= 0,
        old(p).active is None,
        old(p).at_bottom is None,
        old(p).at_left is None,
        old(p).at_right is None,
        old(p).at_top is None,
        old(p).bottom is None,
        old(p).current_command is None,
        old(p).current_path is None,
    ensures
        *final(j) as int == pane_rank(mask, 8),
        *final(j) <= 8,
        final(p)@ == (PaneView {
            active: pane_dec_flag(seq_strs(segs@), mask, 0),
            at_bottom: pane_dec_flag(seq_strs(segs@), mask, 1),
            at_left: pane_dec_flag(seq_strs(segs@), mask, 2),
            at_right: pane_dec_flag(seq_strs(segs@), mask, 3),
            at_top: pane_dec_flag(seq_strs(segs@), mask, 4),
            bottom: pane_dec_num(seq_strs(segs@), mask, 5),
            current_command: pane_dec_text(seq_strs(segs@), mask, 6),
            current_path: pane_dec_text(seq_strs(segs@), mask, 7),
            ..old(p)@
        }),
{
    let ghost gsegs = seq_strs(segs@);
    if mask & PANE_ACTIVE != 0 {
        p.active = take_flag(segs, *j);
        *j = *j + 1;
    }
    proof {
        assert(*j as int == pane_rank(mask, 1) && *j <= 1);
        assert(p.active == pane_dec_flag(gsegs, mask, 0));
    }
    if mask & PANE_AT_BOTTOM != 0 {
        p.at_bottom = take_flag(segs, *j);
        *j = *j + 1;
    }
    proof {
        assert(*j as int == pane_rank(mask, 2) && *j <= 2);
        assert(p.at_bottom == pane_dec_flag(gsegs, mask, 1));
    }
    if mask & PANE_AT_LEFT != 0 {
        p.at_left = take_flag(segs, *j);
        *j = *j + 1;
    }
    proof {
        assert(*j as int == pane_rank(mask, 3) && *j <= 3);
        assert(p.at_left == pane_dec_flag(gsegs, mask, 2));
    }
    if mask & PANE_AT_RIGHT != 0 {
        p.at_right = take_flag(segs, *j);
        *j = *j + 1;
    }
    proof {
        assert(*j as int == pane_rank(mask, 4) && *j <= 4);
        assert(p.at_right == pane_dec_flag(gsegs, mask, 3));
    }
    if mask & PANE_AT_TOP != 0 {
        p.at_top = take_flag(segs, *j);
        *j = *j + 1;
    }
    proof {
        assert(*j as int == pane_rank(mask, 5) && *j <= 5);
        assert(p.at_top == pane_dec_flag(gsegs, mask, 4));
    }
    if mask & PANE_BOTTOM != 0 {
        p.bottom = take_num(segs, *j);
        *j = *j + 1;
    }
    proof {
        assert(*j as int == pane_rank(mask, 6) && *j <= 6);
        assert(p.bottom == pane_dec_num(gsegs, mask, 5));
    }
    if mask & PANE_CURRENT_COMMAND != 0 {
        p.current_command = take_text(segs, *j);
        *j = *j + 1;
    }
    proof {
        assert(*j as int == pane_rank(mask, 7) && *j <= 7);
        assert(view_text(p.current_command) == pane_dec_text(gsegs, mask, 6));
    }
    if mask & PANE_CURRENT_PATH != 0 {
        p.current_path = take_text(segs, *j);
        *j = *j + 1;
    }
    proof {
        assert(*j as int == pane_rank(mask, 8) && *j <= 8);
        assert(view_text(p.current_path) == pane_dec_text(gsegs, mask, 7));
    }
    proof {
        assert(p@ =~= (PaneView {
            active: pane_dec_flag(gsegs, mask, 0),
            at_bottom: pane_dec_flag(gsegs, mask, 1),
            at_left: pane_dec_flag(gsegs, mask, 2),
            at_right: pane_dec_flag(gsegs, mask, 3),
            at_top: pane_dec_flag(gsegs, mask, 4),
            bottom: pane_dec_num(gsegs, mask, 5),
            current_command: pane_dec_text(gsegs, mask, 6),
            current_path: pane_dec_text(gsegs, mask, 7),
            ..old(p)@
        }));
    }
}

/// Decodes descriptors `8..16` of the table, in order.
#[verifier::rlimit(100)]
fn pane_decode_part2(p: &mut Pane, segs: &Vec<String>, mask: u32, j: &mut usize)
    requires
        *old(j) as int == pane_rank(mask, 8),
        *old(j) <= 8,
        old(p).dead is None,
        old(p).dead_status is None,
        old(p).format is None,
        old(p).height is None,
        old(p).id is None,
        old(p).in_mode is None,
        old(p).index is None,
        old(p).input_off is None,
    ensures
        *final(j) as int == pane_rank(mask, 16),
        *final(j) <= 16,
        final(p)@ == (PaneView {
            dead: pane_dec_flag(seq_strs(segs@), mask, 8),
            dead_status: pane_dec_num(seq_strs(segs@), mask, 9),
            format: pane_dec_flag(seq_strs(segs@), mask, 10),
            height: pane_dec_num(seq_strs(segs@), mask, 11),
            id: pane_dec_id(seq_strs(segs@), mask, 12),
            in_mode: pane_dec_flag(seq_strs(segs@), mask, 13),
            index: pane_dec_num(seq_strs(segs@), mask, 14),
            input_off: pane_dec_flag(seq_strs(segs@), mask, 15),
            ..old(p)@
        }),
{
    let ghost gsegs = seq_strs(segs@);
    if mask & PANE_DEAD != 0 {
        p.dead = take_flag(segs, *j);
        *j = *j + 1;
    }
    proof {
        assert(*j as int == pane_rank(mask, 9) && *j <= 9);
        assert(p.dead == pane_dec_flag(gsegs, mask, 8));
    }
    if mask & PANE_DEAD_STATUS != 0 {
        p.dead_status = take_num(segs, *j);
        *j = *j + 1;
    }
    proof {
        assert(*j as int == pane_rank(mask, 10) && *j <= 10);
        assert(p.dead_status == pane_dec_num(gsegs, mask, 9));
    }
    if mask & PANE_FORMAT != 0 {
        p.format = take_flag(segs, *j);
        *j = *j + 1;
    }
    proof {
        assert(*j as int == pane_rank(mask, 11) && *j <= 11);
        assert(p.format == pane_dec_flag(gsegs, mask, 10));
    }
    if mask & PANE_HEIGHT != 0 {
        p.height = take_num(segs, *j);
        *j = *j + 1;
    }
    proof {
        assert(*j as int == pane_rank(mask, 12) && *j <= 12);
        assert(p.height == pane_dec_num(gsegs, mask, 11));
    }
    if mask & PANE_ID != 0 {
        p.id = take_id(segs, *j);
        *j = *j + 1;
    }
    proof {
        assert(*j as int == pane_rank(mask, 13) && *j <= 13);
        assert(p.id == pane_dec_id(gsegs, mask, 12));
    }
    if mask & PANE_IN_MODE != 0 {
        p.in_mode = take_flag(segs, *j);
        *j = *j + 1;
    }
    proof {
        assert(*j as int == pane_rank(mask, 14) && *j <= 14);
        assert(p.in_mode == pane_dec_flag(gsegs, mask, 13));
    }
    if mask & PANE_INDEX != 0 {
        p.index = take_num(segs, *j);
        *j = *j + 1;
    }
    proof {
        assert(*j as int == pane_rank(mask, 15) && *j <= 15);
        assert(p.index == pane_dec_num(gsegs, mask, 14));
    }
    if mask & PANE_INPUT_OFF != 0 {
        p.input_off = take_flag(segs, *j);
        *j = *j + 1;
    }
    proof {
        assert(*j as int == pane_rank(mask, 16) && *j <= 16);
        assert(p.input_off == pane_dec_flag(gsegs, mask, 15));
    }
    proof {
        assert(p@ =~= (PaneView {
            dead: pane_dec_flag(gsegs, mask, 8),
            dead_status: pane_dec_num(gsegs, mask, 9),
            format: pane_dec_flag(gsegs, mask, 10),
            height: pane_dec_num(gsegs, mask, 11),
            id: pane_dec_id(gsegs, mask, 12),
            in_mode: pane_dec_flag(gsegs, mask, 13),
            index: pane_dec_num(gsegs, mask, 14),
            input_off: pane_dec_flag(gsegs, mask, 15),
            ..old(p)@
        }));
    }
}

/// Decodes descriptors `16..24` of the table, in order.
fn pane_decode_part3(p: &mut Pane, segs: &Vec<String>, mask: u32, j: &mut usize)
    requires
        *old(j) as int == pane_rank(mask, 16),
        *old(j) <= 16,
        old(p).left is None,
        old(p).marked is None,
        old(p).marked_set is None,
        old(p).mode is None,
        old(p).pid is None,
        old(p).pipe is None,
        old(p).right is None,
        old(p).search_string is None,
    ensures
        *final(j) as int == pane_rank(mask, 24),
        *final(j) <= 24,
        final(p)@ == (PaneView {
            left: pane_dec_num(seq_strs(segs@), mask, 16),
            marked: pane_dec_flag(seq_strs(segs@), mask, 17),
            marked_set: pane_dec_flag(seq_strs(segs@), mask, 18),
            mode: pane_dec_num(seq_strs(segs@), mask, 19),
            pid: pane_dec_num(seq_strs(segs@), mask, 20),
            pipe: pane_dec_flag(seq_strs(segs@), mask, 21),
            right: pane_dec_num(seq_strs(segs@), mask, 22),
            search_string: pane_dec_num(seq_strs(segs@), mask, 23),
            ..old(p)@
        }),
{
    let ghost gsegs = seq_strs(segs@);
    if mask & PANE_LEFT != 0 {
        p.left = take_num(segs, *j);
        *j = *j + 1;
    }
    proof {
        assert(*j as int == pane_rank(mask, 17) && *j <= 17);
        assert(p.left == pane_dec_num(gsegs, mask, 16));
    }
    if mask & PANE_MARKED != 0 {
        p.marked = take_flag(segs, *j);
        *j = *j + 1;
    }
    proof {
        assert(*j as int == pane_rank(mask, 18) && *j <= 18);
        assert(p.marked == pane_dec_flag(gsegs, mask, 17));
    }
    if mask & PANE_MARKED_SET != 0 {
        p.marked_set = take_flag(segs, *j);
        *j = *j + 1;
    }
    proof {
        assert(*j as int == pane_rank(mask, 19) && *j <= 19);
        assert(p.marked_set == pane_dec_flag(gsegs, mask, 18));
    }
    if mask & PANE_MODE != 0 {
        p.mode = take_num(segs, *j);
        *j = *j + 1;
    }
    proof {
        assert(*j as int == pane_rank(mask, 20) && *j <= 20);
        assert(p.mode == pane_dec_num(gsegs, mask, 19));
    }
    if mask & PANE_PID != 0 {
        p.pid = take_num(segs, *j);
        *j = *j + 1;
    }
    proof {
        assert(*j as int == pane_rank(mask, 21) && *j <= 21);
        assert(p.pid == pane_dec_num(gsegs, mask, 20));
    }
    if mask & PANE_PIPE != 0 {
        p.pipe = take_flag(segs, *j);
        *j = *j + 1;
    }
    proof {
        assert(*j as int == pane_rank(mask, 22) && *j <= 22);
        assert(p.pipe == pane_dec_flag(gsegs, mask, 21));
    }
    if mask & PANE_RIGHT != 0 {
        p.right = take_num(segs, *j);
        *j = *j + 1;
    }
    proof {
        assert(*j as int == pane_rank(mask, 23) && *j <= 23);
        assert(p.right == pane_dec_num(gsegs, mask, 22));
    }
    if mask & PANE_SEARCH_STRING != 0 {
        p.search_string = take_num(segs, *j);
        *j = *j + 1;
    }
    proof {
        assert(*j as int == pane_rank(mask, 24) && *j <= 24);
        assert(p.search_string == pane_dec_num(gsegs, mask, 23));
    }
    proof {
        assert(p@ =~= (PaneView {
            left: pane_dec_num(gsegs, mask, 16),
            marked: pane_dec_flag(gsegs, mask, 17),
            marked_set: pane_dec_flag(gsegs, mask, 18),
            mode: pane_dec_num(gsegs, mask, 19),
            pid: pane_dec_num(gsegs, mask, 20),
            pipe: pane_dec_flag(gsegs, mask, 21),
            right: pane_dec_num(gsegs, mask, 22),
            search_string: pane_dec_num(gsegs, mask, 23),
            ..old(p)@
        }));
    }
}

/// Decodes descriptors `24..31` of the table, in order.
fn pane_decode_part4(p: &mut Pane, segs: &Vec<String>, mask: u32, j: &mut usize)
    requires
        *old(j) as int == pane_rank(mask, 24),
        *old(j) <= 24,
        old(p).start_command is None,
        old(p).synchronized is None,
        old(p).tabs is None,
        old(p).title is None,
        old(p).top is None,
        old(p).tty is None,
        old(p).width is None,
    ensures
        *final(j) as int == pane_rank(mask, 31),
        *final(j) <= 31,
        final(p)@ == (PaneView {
            start_command: pane_dec_num(seq_strs(segs@), mask, 24),
            synchronized: pane_dec_flag(seq_strs(segs@), mask, 25),
            tabs: pane_dec_text(seq_strs(segs@), mask, 26),
            title: pane_dec_text(seq_strs(segs@), mask, 27),
            top: pane_dec_num(seq_strs(segs@), mask, 28),
            tty: pane_dec_text(seq_strs(segs@), mask, 29),
            width: pane_dec_num(seq_strs(segs@), mask, 30),
            ..old(p)@
        }),
{
    let ghost gsegs = seq_strs(segs@);
    if mask & PANE_START_COMMMAND != 0 {
        p.start_command = take_num(segs, *j);
        *j = *j + 1;
    }
    proof {
        assert(*j as int == pane_rank(mask, 25) && *j <= 25);
        assert(p.start_command == pane_dec_num(gsegs, mask, 24));
    }
    if mask & PANE_SYNCHRONIZED != 0 {
        p.synchronized = take_flag(segs, *j);
        *j = *j + 1;
    }
    proof {
        assert(*j as int == pane_rank(mask, 26) && *j <= 26);
        assert(p.synchronized == pane_dec_flag(gsegs, mask, 25));
    }
    if mask & PANE_TABS != 0 {
        p.tabs = take_text(segs, *j);
        *j = *j + 1;
    }
    proof {
        assert(*j as int == pane_rank(mask, 27) && *j <= 27);
        assert(view_text(p.tabs) == pane_dec_text(gsegs, mask, 26));
    }
    if mask & PANE_TITLE != 0 {
        p.title = take_text(segs, *j);
        *j = *j + 1;
    }
    proof {
        assert(*j as int == pane_rank(mask, 28) && *j <= 28);
        assert(view_text(p.title) == pane_dec_text(gsegs, mask, 27));
    }
    if mask & PANE_TOP != 0 {
        p.top = take_num(segs, *j);
        *j = *j + 1;
    }
    proof {
        assert(*j as int == pane_rank(mask, 29) && *j <= 29);
        assert(p.top == pane_dec_num(gsegs, mask, 28));
    }
    if mask & PANE_TTY != 0 {
        p.tty = take_text(segs, *j);
        *j = *j + 1;
    }
    proof {
        assert(*j as int == pane_rank(mask, 30) && *j <= 30);
        assert(view_text(p.tty) == pane_dec_text(gsegs, mask, 29));
    }
    if mask & PANE_WIDTH != 0 {
        p.width = take_num(segs, *j);
        *j = *j + 1;
    }
    proof {
        assert(*j as int == pane_rank(mask, 31) && *j <= 31);
        assert(p.width == pane_dec_num(gsegs, mask, 30));
    }
    proof {
        assert(p@ =~= (PaneView {
            start_command: pane_dec_num(gsegs, mask, 24),
            synchronized: pane_dec_flag(gsegs, mask, 25),
            tabs: pane_dec_text(gsegs, mask, 26),
            title: pane_dec_text(gsegs, mask, 27),
            top: pane_dec_num(gsegs, mask, 28),
            tty: pane_dec_text(gsegs, mask, 29),
            width: pane_dec_num(gsegs, mask, 30),
            ..old(p)@
        }));
    }
}

impl Pane {
    /// A pane with every field unset.
    pub fn new() -> (r: Pane)
        ensures
            r@ == spec_pane_unset(),
    {
        Pane {
            active: None,
            at_bottom: None,
            at_left: None,
            at_right: None,
            at_top: None,
            bottom: None,
            current_command: None,
            current_path: None,
            dead: None,
            dead_status: None,
            format: None,
            height: None,
            id: None,
            in_mode: None,
            index: None,
            input_off: None,
            left: None,
            marked: None,
            marked_set: None,
            mode: None,
            pid: None,
            pipe: None,
            right: None,
            search_string: None,
            start_command: None,
            synchronized: None,
            tabs: None,
            title: None,
            top: None,
            tty: None,
            width: None,
        }
    }

    /// Decodes one response line under the request mask: the line is split at
    /// the separator, and each requested descriptor consumes exactly one
    /// segment, in table order.  Missing, empty or unparsable segments leave
    /// their field unset.
    #[verifier::rlimit(100)]
    pub fn from_str(pane_str: &str, bitflags: u32) -> (r: Result<Pane, crate::error::Error>)
        ensures
            r matches Ok(p) && p@ == spec_pane_decode(
                spec_split(pane_str@, PANE_VARS_SEPARATOR),
                bitflags,
            ),
    {
        let segs = split_line(pane_str, PANE_VARS_SEPARATOR);
        let ghost gsegs = seq_strs(segs@);
        let mask = bitflags;
        let mut p = Pane::new();
        let mut j: usize = 0;
        proof {
            assert(pane_rank(mask, 0) == 0);
        }
        pane_decode_part1(&mut p, &segs, mask, &mut j);
        pane_decode_part2(&mut p, &segs, mask, &mut j);
        pane_decode_part3(&mut p, &segs, mask, &mut j);
        pane_decode_part4(&mut p, &segs, mask, &mut j);
        proof {
            assert(p@ =~= spec_pane_decode(gsegs, mask));
        }
        Ok(p)
    }
}

/// The format-variable name of descriptor `i`, in table order.
pub open spec fn spec_pane_name(i: int) -> Seq<char> {
    if i == 0 {
        "pane_active"@
    } else if i == 1 {
        "pane_at_bottom"@
    } else if i == 2 {
        "pane_at_left"@
    } else if i == 3 {
        "pane_at_right"@
    } else if i == 4 {
        "pane_at_top"@
    } else if i == 5 {
        "pane_bottom"@
    } else if i == 6 {
        "pane_current_command"@
    } else if i == 7 {
        "pane_current_path"@
    } else if i == 8 {
        "pane_dead"@
    } else if i == 9 {
        "pane_dead_status"@
    } else if i == 10 {
        "pane_format"@
    } else if i == 11 {
        "pane_height"@
    } else if i == 12 {
        "pane_id"@
    } else if i == 13 {
        "pane_in_mode"@
    } else if i == 14 {
        "pane_index"@
    } else if i == 15 {
        "pane_input_off"@
    } else if i == 16 {
        "pane_left"@
    } else if i == 17 {
        "pane_marked"@
    } else if i == 18 {
        "pane_marked_set"@
    } else if i == 19 {
        "pane_mode"@
    } else if i == 20 {
        "pane_pid"@
    } else if i == 21 {
        "pane_pipe"@
    } else if i == 22 {
        "pane_right"@
    } else if i == 23 {
        "pane_search_string"@
    } else if i == 24 {
        "pane_start_command"@
    } else if i == 25 {
        "pane_synchronized"@
    } else if i == 26 {
        "pane_tabs"@
    } else if i == 27 {
        "pane_title"@
    } else if i == 28 {
        "pane_top"@
    } else if i == 29 {
        "pane_tty"@
    } else if i == 30 {
        "pane_width"@
    } else {
        Seq::<char>::empty()
    }
}

/// The format-variable name of descriptor `i`.
pub fn pane_var_name(i: usize) -> (r: &'static str)
    requires
        i < 31,
    ensures
        r@ == spec_pane_name(i as int),
{
    match i {
        0 => "pane_active",
        1 => "pane_at_bottom",
        2 => "pane_at_left",
        3 => "pane_at_right",
        4 => "pane_at_top",
        5 => "pane_bottom",
        6 => "pane_current_command",
        7 => "pane_current_path",
        8 => "pane_dead",
        9 => "pane_dead_status",
        10 => "pane_format",
        11 => "pane_height",
        12 => "pane_id",
        13 => "pane_in_mode",
        14 => "pane_index",
        15 => "pane_input_off",
        16 => "pane_left",
        17 => "pane_marked",
        18 => "pane_marked_set",
        19 => "pane_mode",
        20 => "pane_pid",
        21 => "pane_pipe",
        22 => "pane_right",
        23 => "pane_search_string",
        24 => "pane_start_command",
        25 => "pane_synchronized",
        26 => "pane_tabs",
        27 => "pane_title",
        28 => "pane_top",
        29 => "pane_tty",
        _ => "pane_width",
    }
}

/// The bit of descriptor `i`.
pub fn pane_bit_at(i: usize) -> (r: u32)
    requires
        i < 31,
    ensures
        r == pane_bit(i as int),
{
    match i {
        0 => PANE_ACTIVE,
        1 => PANE_AT_BOTTOM,
        2 => PANE_AT_LEFT,
        3 => PANE_AT_RIGHT,
        4 => PANE_AT_TOP,
        5 => PANE_BOTTOM,
        6 => PANE_CURRENT_COMMAND,
        7 => PANE_CURRENT_PATH,
        8 => PANE_DEAD,
        9 => PANE_DEAD_STATUS,
        10 => PANE_FORMAT,
        11 => PANE_HEIGHT,
        12 => PANE_ID,
        13 => PANE_IN_MODE,
        14 => PANE_INDEX,
        15 => PANE_INPUT_OFF,
        16 => PANE_LEFT,
        17 => PANE_MARKED,
        18 => PANE_MARKED_SET,
        19 => PANE_MODE,
        20 => PANE_PID,
        21 => PANE_PIPE,
        22 => PANE_RIGHT,
        23 => PANE_SEARCH_STRING,
        24 => PANE_START_COMMMAND,
        25 => PANE_SYNCHRONIZED,
        26 => PANE_TABS,
        27 => PANE_TITLE,
        28 => PANE_TOP,
        29 => PANE_TTY,
        _ => PANE_WIDTH,
    }
}


/// The placeholder fragment asking for one named field.
pub open spec fn spec_fragment(name: Seq<char>) -> Seq<char> {
    "#{"@ + name + "}"@
}

/// Builds the placeholder fragment for descriptor `i`.
pub fn pane_fragment(i: usize) -> (r: String)
    requires
        i < 31,
    ensures
        r@ == spec_fragment(spec_pane_name(i as int)),
{
    let mut f = String::from_str("#{");
    f.append(pane_var_name(i));
    f.append("}");
    f
}

/// The fragments of the first `i` descriptors requested by the mask, in
/// table order.
pub open spec fn spec_pane_frags(mask: u32, i: int) -> Seq<Seq<char>>
    decreases i,
{
    if i <= 0 {
        Seq::<Seq<char>>::empty()
    } else {
        spec_pane_frags(mask, i - 1) + if pane_has(mask, i - 1) {
            seq![spec_fragment(spec_pane_name(i - 1))]
        } else {
            Seq::<Seq<char>>::empty()
        }
    }
}

/// The composed query-format string for the mask: one placeholder fragment
/// per requested field, joined by the separator.
pub open spec fn spec_pane_query(mask: u32) -> Seq<char> {
    spec_join(spec_pane_frags(mask, 31), seq![PANE_VARS_SEPARATOR])
}

/// The placeholder fragments requested by the mask, in table order.
pub fn pane_query_fragments(mask: u32) -> (r: Vec<String>)
    ensures
        seq_strs(r@) == spec_pane_frags(mask, 31),
{
    let mut frags: Vec<String> = Vec::new();
    let mut i: usize = 0;
    proof {
        assert(seq_strs(frags@) =~= spec_pane_frags(mask, 0));
    }
    while i < PANE_FLAGS_NUM
        invariant
            0 <= i <= 31,
            seq_strs(frags@) == spec_pane_frags(mask, i as int),
        decreases 31 - i,
    {
        let bit = pane_bit_at(i);
        if mask & bit != 0 {
            let f = pane_fragment(i);
            proof {
                lemma_seq_strs_push(frags@, f);
                assert(spec_pane_frags(mask, (i + 1) as int) =~= seq_strs(frags@).push(f@));
            }
            frags.push(f);
        } else {
            proof {
                assert(spec_pane_frags(mask, (i + 1) as int) =~= seq_strs(frags@));
            }
        }
        i = i + 1;
    }
    frags
}

/// Composes the query-format string for the mask.
pub fn pane_query(mask: u32) -> (r: String)
    ensures
        r@ == spec_pane_query(mask),
{
    let frags = pane_query_fragments(mask);
    proof {
        reveal_strlit("'");
        assert("'"@ =~= seq![PANE_VARS_SEPARATOR]);
    }
    join(&frags, "'")
}

/// The rank never decreases along the table, and each requested descriptor
/// raises it by exactly one.
pub proof fn lemma_pane_rank_step(mask: u32, i: int, j: int)
    requires
        0 <= i <= j,
    ensures
        pane_rank(mask, i) <= pane_rank(mask, j),
        pane_rank(mask, j) <= pane_rank(mask, i) + (j - i),
        i < j && pane_has(mask, i) ==> pane_rank(mask, i) < pane_rank(mask, j),
    decreases j - i,
{
    if i < j {
        lemma_pane_rank_step(mask, i + 1, j);
    }
}

/// The fragment list is indexed by rank: it holds one fragment per requested
/// descriptor, and the fragment of descriptor `k` stands at position
/// `pane_rank(mask, k)` — the position whose response segment descriptor `k`
/// consumes on decode.
pub proof fn lemma_pane_frags_rank(mask: u32, i: int)
    requires
        0 <= i,
    ensures
        spec_pane_frags(mask, i).len() == pane_rank(mask, i),
        forall|k: int|
            0 <= k < i && pane_has(mask, k) ==> spec_pane_frags(mask, i)[pane_rank(mask, k)]
                == spec_fragment(#[trigger] spec_pane_name(k)),
    decreases i,
{
    if i > 0 {
        lemma_pane_frags_rank(mask, i - 1);
        assert forall|k: int|
            0 <= k < i && pane_has(mask, k) implies spec_pane_frags(mask, i)[pane_rank(mask, k)]
            == spec_fragment(#[trigger] spec_pane_name(k)) by {
            lemma_pane_rank_step(mask, 0, k);
            let tail = if pane_has(mask, i - 1) {
                seq![spec_fragment(spec_pane_name(i - 1))]
            } else {
                Seq::<Seq<char>>::empty()
            };
            assert(spec_pane_frags(mask, i) == spec_pane_frags(mask, i - 1) + tail);
            if k < i - 1 {
                lemma_pane_rank_step(mask, k, i - 1);
                assert(pane_rank(mask, k) < pane_rank(mask, i - 1));
                assert((spec_pane_frags(mask, i - 1) + tail)[pane_rank(mask, k)]
                    == spec_pane_frags(mask, i - 1)[pane_rank(mask, k)]);
            }
        }
    }
}

/// Each descriptor owns one unique, nonzero bit.
pub proof fn lemma_pane_bits_unique()
    ensures
        forall|i: int, j: int|
            0 <= i < 31 && 0 <= j < 31 && i != j ==> #[trigger] pane_bit(i) != #[trigger] pane_bit(
                j,
            ),
        forall|i: int| 0 <= i < 31 ==> #[trigger] pane_bit(i) != 0,
{
}

/// The bits of the table, folded together with bitwise or, in table order.
pub open spec fn pane_bits_or(i: int) -> u32
    decreases i,
{
    if i <= 0 {
        0u32
    } else {
        pane_bits_or(i - 1) | pane_bit(i - 1)
    }
}

/// Folding every descriptor bit together gives exactly the all-fields mask.
pub proof fn lemma_pane_bits_cover()
    ensures
        pane_bits_or(31) == PANE_ALL,
{
    reveal_with_fuel(pane_bits_or, 32);
    assert((((((((((((((((((((((((((((((((0u32 | 0x1) | 0x2) | 0x4) | 0x8) | 0x10) | 0x20) | 0x40)
        | 0x80) | 0x100) | 0x200) | 0x400) | 0x800) | 0x1000) | 0x2000) | 0x4000) | 0x8000)
        | 0x10000) | 0x20000) | 0x40000) | 0x80000) | 0x100000) | 0x200000) | 0x400000) | 0x800000)
        | 0x1000000) | 0x2000000) | 0x4000000) | 0x8000000) | 0x10000000) | 0x20000000)
        | 0x40000000) == 0x7fffffffu32) by (bit_vector);
}

/// The round trip of the engine: joining any separator-free canonical
/// segments into a response line and decoding that line under the same mask
/// gives exactly the record decoded from the segments themselves — provided
/// the line carries one segment per requested field, as the composed query
/// of [`spec_pane_query`] asks.
pub proof fn lemma_pane_round_trip(vals: Seq<Seq<char>>, mask: u32)
    requires
        vals.len() == pane_rank(mask, 31),
        forall|k: int| 0 <= k < vals.len() ==> sep_free(#[trigger] vals[k], PANE_VARS_SEPARATOR),
    ensures
        spec_pane_decode(
            spec_split(spec_join(vals, seq![PANE_VARS_SEPARATOR]), PANE_VARS_SEPARATOR),
            mask,
        ) == spec_pane_decode(vals, mask),
{
    if vals.len() == 0 {
        assert forall|i: int| 0 <= i < 31 implies !pane_has(mask, i) by {
            if pane_has(mask, i) {
                lemma_pane_rank_step(mask, 0, i);
                lemma_pane_rank_step(mask, i, 31);
            }
        }
        let split = spec_split(spec_join(vals, seq![PANE_VARS_SEPARATOR]), PANE_VARS_SEPARATOR);
        assert(spec_pane_decode(split, mask) =~= spec_pane_decode(vals, mask));
    } else {
        lemma_split_join(vals, PANE_VARS_SEPARATOR);
    }
}


/// The engine round trip over the composed format string, in full: the
/// query of a mask carries one placeholder fragment per requested
/// descriptor, standing at exactly the position whose response segment that
/// descriptor consumes on decode; and decoding the line joined from
/// separator-free canonical segments hands each requested descriptor its
/// own segment.
pub proof fn lemma_pane_query_decode_round_trip(vals: Seq<Seq<char>>, mask: u32)
    requires
        vals.len() == pane_rank(mask, 31),
        forall|k: int| 0 <= k < vals.len() ==> sep_free(#[trigger] vals[k], PANE_VARS_SEPARATOR),
    ensures
        spec_pane_frags(mask, 31).len() == vals.len(),
        forall|i: int|
            0 <= i < 31 && pane_has(mask, i) ==> {
                &&& spec_pane_frags(mask, 31)[pane_rank(mask, i)] == spec_fragment(
                    #[trigger] spec_pane_name(i),
                )
                &&& pane_seg(
                    spec_split(
                        spec_join(vals, seq![PANE_VARS_SEPARATOR]),
                        PANE_VARS_SEPARATOR,
                    ),
                    mask,
                    i,
                ) == Some(vals[pane_rank(mask, i)])
            },
{
    lemma_pane_frags_rank(mask, 31);
    assert forall|i: int| 0 <= i < 31 && pane_has(mask, i) implies pane_seg(
        spec_split(spec_join(vals, seq![PANE_VARS_SEPARATOR]), PANE_VARS_SEPARATOR),
        mask,
        i,
    ) == Some(vals[pane_rank(mask, i)]) && spec_pane_frags(mask, 31)[pane_rank(mask, i)]
        == spec_fragment(#[trigger] spec_pane_name(i)) by {
        lemma_pane_rank_step(mask, 0, i);
        lemma_pane_rank_step(mask, i, 31);
        assert(0 <= pane_rank(mask, i) < vals.len());
        lemma_split_join(vals, PANE_VARS_SEPARATOR);
    }
}

/// Decoding fewer segments than requested fields leaves every later field
/// unset: a descriptor whose consumption position lies past the supplied
/// segments decodes to nothing, whatever its kind.
pub proof fn lemma_pane_truncated_unset(segs: Seq<Seq<char>>, mask: u32, i: int)
    requires
        pane_rank(mask, i) >= segs.len(),
    ensures
        pane_dec_flag(segs, mask, i) is None,
        pane_dec_num(segs, mask, i) is None,
        pane_dec_text(segs, mask, i) is None,
        pane_dec_id(segs, mask, i) is None,
{
}

/// With no segments at all, every field of the decoded record is unset.
pub proof fn lemma_pane_decode_empty(mask: u32)
    ensures
        spec_pane_decode(Seq::<Seq<char>>::empty(), mask) == spec_pane_unset(),
{
    assert(spec_pane_decode(Seq::<Seq<char>>::empty(), mask) =~= spec_pane_unset());
}

/// An empty segment consumes its position like any other: it changes neither
/// the count nor the order of the segments later descriptors consume.  Two
/// responses that agree everywhere but in one segment, empty in the second,
/// decode every descriptor reading another position identically, and the
/// descriptor reading the emptied position decodes to nothing.
pub proof fn lemma_pane_empty_segment_alignment(
    segs1: Seq<Seq<char>>,
    segs2: Seq<Seq<char>>,
    mask: u32,
    k: int,
    i: int,
)
    requires
        segs1.len() == segs2.len(),
        0 <= k < segs1.len(),
        forall|m: int| 0 <= m < segs1.len() && m != k ==> segs1[m] == segs2[m],
        segs2[k].len() == 0,
        0 <= i < 31,
    ensures
        pane_rank(mask, i) != k ==> {
            &&& pane_dec_flag(segs1, mask, i) == pane_dec_flag(segs2, mask, i)
            &&& pane_dec_num(segs1, mask, i) == pane_dec_num(segs2, mask, i)
            &&& pane_dec_text(segs1, mask, i) == pane_dec_text(segs2, mask, i)
            &&& pane_dec_id(segs1, mask, i) == pane_dec_id(segs2, mask, i)
        },
        pane_rank(mask, i) == k ==> {
            &&& pane_dec_flag(segs2, mask, i) is None
            &&& pane_dec_num(segs2, mask, i) is None
            &&& pane_dec_text(segs2, mask, i) is None
            &&& pane_dec_id(segs2, mask, i) is None
        },
{
    lemma_pane_rank_step(mask, 0, i);
    if pane_has(mask, i) && pane_rank(mask, i) < segs1.len() && pane_rank(mask, i) != k {
        assert(segs1[pane_rank(mask, i)] == segs2[pane_rank(mask, i)]);
    }
}

} // verus!
