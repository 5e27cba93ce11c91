use tmux_interface::Pane;
use tmux_interface::Panes;
use tmux_interface::Window;
use tmux_interface::pane::PANE_ACTIVE;
use tmux_interface::pane::PANE_ALL;
use tmux_interface::pane::PANE_AT_BOTTOM;
use tmux_interface::pane::PANE_AT_LEFT;
use tmux_interface::pane::PANE_AT_RIGHT;
use tmux_interface::pane::PANE_AT_TOP;
use tmux_interface::pane::PANE_BOTTOM;
use tmux_interface::pane::PANE_CURRENT_COMMAND;
use tmux_interface::pane::PANE_CURRENT_PATH;
use tmux_interface::pane::PANE_DEAD;
use tmux_interface::pane::PANE_DEAD_STATUS;
use tmux_interface::pane::PANE_FORMAT;
use tmux_interface::pane::PANE_HEIGHT;
use tmux_interface::pane::PANE_ID;
use tmux_interface::pane::PANE_IN_MODE;
use tmux_interface::pane::PANE_INDEX;
use tmux_interface::pane::PANE_INPUT_OFF;
use tmux_interface::pane::PANE_LEFT;
use tmux_interface::pane::PANE_MARKED;
use tmux_interface::pane::PANE_MARKED_SET;
use tmux_interface::pane::PANE_MODE;
use tmux_interface::pane::PANE_NONE;
use tmux_interface::pane::PANE_PID;
use tmux_interface::pane::PANE_PIPE;
use tmux_interface::pane::PANE_RIGHT;
use tmux_interface::pane::PANE_SEARCH_STRING;
use tmux_interface::pane::PANE_START_COMMMAND;
use tmux_interface::pane::PANE_SYNCHRONIZED;
use tmux_interface::pane::PANE_TABS;
use tmux_interface::pane::PANE_TITLE;
use tmux_interface::pane::PANE_TOP;
use tmux_interface::pane::PANE_TTY;
use tmux_interface::pane::PANE_WIDTH;
use tmux_interface::pane::pane_query;
use tmux_interface::window::WINDOW_ACTIVE;
use tmux_interface::window::WINDOW_ACTIVITY;
use tmux_interface::window::WINDOW_ALL;
use tmux_interface::window::WINDOW_ID;
use tmux_interface::window::WINDOW_NAME;
use tmux_interface::window::window_query;

#[test]
fn pane_query_fragments_scenario() {
    // requesting pane fields {active, id, width} produces the composed
    // query string, fragments joined by the separator in table order
    let mask = PANE_ACTIVE | PANE_ID | PANE_WIDTH;
    assert_eq!(pane_query(mask), "#{pane_active}'#{pane_id}'#{pane_width}");
}

#[test]
fn pane_decode_scenario() {
    // decoding the canonical response for {active, id, width}
    let mask = PANE_ACTIVE | PANE_ID | PANE_WIDTH;
    let p = Pane::from_str("1'%3'80", mask).unwrap();
    assert_eq!(p.active, Some(true));
    assert_eq!(p.id, Some(3));
    assert_eq!(p.width, Some(80));
    // nothing else was requested, so nothing else is set
    assert_eq!(p.title, None);
    assert_eq!(p.height, None);
}

#[test]
fn pane_decode_truncated_response() {
    // fewer segments than set bits: the remaining fields stay unset, and
    // decoding never fails
    let mask = PANE_ACTIVE | PANE_ID | PANE_WIDTH;
    let p = Pane::from_str("1", mask).unwrap();
    assert_eq!(p.active, Some(true));
    assert_eq!(p.id, None);
    assert_eq!(p.width, None);
}

#[test]
fn pane_decode_empty_segment_keeps_order() {
    // an empty segment still consumes its position: later fields read the
    // same positions as before
    let mask = PANE_ACTIVE | PANE_ID | PANE_WIDTH;
    let p = Pane::from_str("1''80", mask).unwrap();
    assert_eq!(p.active, Some(true));
    assert_eq!(p.id, None);
    assert_eq!(p.width, Some(80));

    let full = Pane::from_str("1'%3'80", mask).unwrap();
    assert_eq!(full.width, p.width);
}

#[test]
fn pane_decode_best_effort() {
    // an unparsable segment leaves its field unset, never an error
    let mask = PANE_ACTIVE | PANE_WIDTH;
    let p = Pane::from_str("x'80", mask).unwrap();
    assert_eq!(p.active, None);
    assert_eq!(p.width, Some(80));
    // a numeric flag other than one decodes as false
    let p = Pane::from_str("2'80", mask).unwrap();
    assert_eq!(p.active, Some(false));
    // the empty mask consumes nothing
    let p = Pane::from_str("whatever", PANE_NONE).unwrap();
    assert_eq!(p, Pane::new());
}

#[test]
fn pane_decode_text_fields() {
    let mask = PANE_CURRENT_COMMAND | PANE_TITLE;
    let p = Pane::from_str("vim'my title", mask).unwrap();
    assert_eq!(p.current_command, Some("vim".to_string()));
    assert_eq!(p.title, Some("my title".to_string()));
}

#[test]
fn pane_bits_unique_and_cover() {
    let bits = [
        PANE_ACTIVE,
        PANE_AT_BOTTOM,
        PANE_AT_LEFT,
        PANE_AT_RIGHT,
        PANE_AT_TOP,
        PANE_BOTTOM,
        PANE_CURRENT_COMMAND,
        PANE_CURRENT_PATH,
        PANE_DEAD,
        PANE_DEAD_STATUS,
        PANE_FORMAT,
        PANE_HEIGHT,
        PANE_ID,
        PANE_IN_MODE,
        PANE_INDEX,
        PANE_INPUT_OFF,
        PANE_LEFT,
        PANE_MARKED,
        PANE_MARKED_SET,
        PANE_MODE,
        PANE_PID,
        PANE_PIPE,
        PANE_RIGHT,
        PANE_SEARCH_STRING,
        PANE_START_COMMMAND,
        PANE_SYNCHRONIZED,
        PANE_TABS,
        PANE_TITLE,
        PANE_TOP,
        PANE_TTY,
        PANE_WIDTH,
    ];
    let mut folded: u32 = 0;
    for (i, b) in bits.iter().enumerate() {
        assert_ne!(*b, 0);
        for (j, c) in bits.iter().enumerate() {
            if i != j {
                assert_ne!(*b, *c);
            }
        }
        folded |= *b;
    }
    assert_eq!(folded, PANE_ALL);
}

#[test]
fn window_bits_cover() {
    assert_eq!(WINDOW_ACTIVE | WINDOW_ACTIVITY, 0x3);
    let mut folded: u32 = 0;
    for i in 0..24u32 {
        folded |= 1 << i;
    }
    assert_eq!(folded, WINDOW_ALL);
}

#[test]
fn window_query_and_decode() {
    let mask = WINDOW_ACTIVE | WINDOW_ID | WINDOW_NAME;
    assert_eq!(window_query(mask), "#{window_active}'#{window_id}'#{window_name}");
    let w = Window::from_str("1'@7'editor", mask).unwrap();
    assert_eq!(w.active, Some(true));
    assert_eq!(w.id, Some(7));
    assert_eq!(w.name, Some("editor".to_string()));
    assert_eq!(w.width, None);
}

#[test]
fn window_decode_activity_millis() {
    let mask = WINDOW_ACTIVITY;
    let w = Window::from_str("1580000000000", mask).unwrap();
    assert_eq!(w.activity, Some(1580000000000));
}

#[test]
fn window_decode_full_mask_truncated() {
    // the full mask with a short response: everything past the supplied
    // segments stays unset, without an error
    let w = Window::from_str("1'123", WINDOW_ALL).unwrap();
    assert_eq!(w.active, Some(true));
    assert_eq!(w.activity, Some(123));
    assert_eq!(w.name, None);
    assert_eq!(w.zoomed_flag, None);
}

#[test]
fn panes_get_and_parse() {
    let cmd = Panes::get("@1");
    let v = cmd.to_vec();
    assert_eq!(v[0], "list-panes");
    assert_eq!(v[1], "-F");
    assert_eq!(v[2], pane_query(PANE_ALL));
    assert_eq!(v[3], "-t");
    assert_eq!(v[4], "@1");

    // one record per line, each decoded under the full mask
    let line_one = "1'0'0'1'1'5";
    let line_two = "0'1'0'0'1'9";
    let text = format!("{}\n{}\n", line_one, line_two);
    let panes = Panes::parse(&text).unwrap();
    assert_eq!(panes.len(), 2);
    assert_eq!(panes[0].active, Some(true));
    assert_eq!(panes[0].bottom, Some(5));
    assert_eq!(panes[1].active, Some(false));
    assert_eq!(panes[1].bottom, Some(9));
    assert_eq!(Panes::parse("").unwrap().len(), 0);
}

#[test]
fn panes_parse_crlf() {
    // a response with carriage-return line endings decodes the same
    let panes = Panes::parse("1'0\r\n0'1\r\n").unwrap();
    assert_eq!(panes.len(), 2);
    assert_eq!(panes[0].active, Some(true));
    assert_eq!(panes[0].at_bottom, Some(false));
    assert_eq!(panes[1].active, Some(false));
    assert_eq!(panes[1].at_bottom, Some(true));
}
