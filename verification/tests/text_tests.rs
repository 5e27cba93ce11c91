use tmux_interface::Avail;
use tmux_interface::Error;
use tmux_interface::StatusKeys;
use tmux_interface::Switch;
use tmux_interface::Version;
use tmux_interface::VersionGate;
use tmux_interface::strutil::join;
use tmux_interface::strutil::lines_of;
use tmux_interface::strutil::parse_flag;
use tmux_interface::strutil::parse_usize;
use tmux_interface::strutil::split_line;
use tmux_interface::strutil::trim_str;
use tmux_interface::strutil::usize_to_string;

#[test]
fn parse_usize_values() {
    assert_eq!(parse_usize("0"), Some(0));
    assert_eq!(parse_usize("50"), Some(50));
    assert_eq!(parse_usize("007"), Some(7));
    assert_eq!(parse_usize(""), None);
    assert_eq!(parse_usize("1a"), None);
    assert_eq!(parse_usize("-1"), None);
    // far past any machine word
    assert_eq!(parse_usize("99999999999999999999999999"), None);
}

#[test]
fn parse_flag_values() {
    assert_eq!(parse_flag("1"), Some(true));
    assert_eq!(parse_flag("0"), Some(false));
    assert_eq!(parse_flag("2"), Some(false));
    assert_eq!(parse_flag(""), None);
    assert_eq!(parse_flag("on"), None);
}

#[test]
fn number_rendering() {
    assert_eq!(usize_to_string(0), "0");
    assert_eq!(usize_to_string(7), "7");
    assert_eq!(usize_to_string(1234), "1234");
    assert_eq!(usize_to_string(1000), "1000");
}

#[test]
fn split_and_join() {
    let segs = split_line("a'b''c", '\'');
    assert_eq!(segs, vec!["a".to_string(), "b".to_string(), "".to_string(), "c".to_string()]);
    assert_eq!(split_line("", '\''), vec!["".to_string()]);
    assert_eq!(split_line("'", '\''), vec!["".to_string(), "".to_string()]);

    // splitting the join of separator-free segments gives them back
    let parts = vec!["one".to_string(), "two".to_string(), "".to_string()];
    let joined = join(&parts, "'");
    assert_eq!(joined, "one'two'");
    assert_eq!(split_line(&joined, '\''), parts);

    assert_eq!(join(&Vec::new(), "'"), "");
    assert_eq!(join(&vec!["only".to_string()], " ; "), "only");
}

#[test]
fn lines_and_trim() {
    assert_eq!(lines_of(""), Vec::<String>::new());
    assert_eq!(lines_of("a"), vec!["a".to_string()]);
    assert_eq!(lines_of("a\nb"), vec!["a".to_string(), "b".to_string()]);
    assert_eq!(lines_of("a\nb\n"), vec!["a".to_string(), "b".to_string()]);
    assert_eq!(lines_of("a\n\n"), vec!["a".to_string(), "".to_string()]);
    // one trailing carriage return per line is stripped
    assert_eq!(lines_of("a\r\nb\r\n"), vec!["a".to_string(), "b".to_string()]);
    assert_eq!(lines_of("80\r"), vec!["80".to_string()]);

    assert_eq!(trim_str("  x  "), "x");
    assert_eq!(trim_str("\tx\r\n"), "x");
    assert_eq!(trim_str(""), "");
    assert_eq!(trim_str(" \n "), "");
    assert_eq!(trim_str("a b"), "a b");
}

#[test]
fn switch_keywords() {
    assert_eq!(Switch::from_str("on"), Ok(Switch::On));
    assert_eq!(Switch::from_str("off"), Ok(Switch::Off));
    assert_eq!(Switch::from_str("ON"), Err(Error::ParseSwitch));
    assert_eq!(Switch::from_str(""), Err(Error::ParseSwitch));
    assert_eq!(Switch::On.to_text(), "on");
    assert_eq!(Switch::Off.to_text(), "off");
    // the round trip over the keyword
    assert_eq!(Switch::from_str(Switch::On.to_text()), Ok(Switch::On));
}

#[test]
fn status_keys_keywords() {
    assert_eq!(StatusKeys::from_str("vi"), Ok(StatusKeys::Vi));
    assert_eq!(StatusKeys::from_str("emacs"), Ok(StatusKeys::Emacs));
    assert_eq!(StatusKeys::from_str("nano"), Err(Error::ParseStatusKeys));
    assert_eq!(StatusKeys::from_str(StatusKeys::Emacs.to_text()), Ok(StatusKeys::Emacs));
}

#[test]
fn version_gate_windows() {
    let since = Avail::Since(Version::new(2, 0));
    assert!(VersionGate::new(2, 0).available(&since));
    assert!(VersionGate::new(3, 1).available(&since));
    assert!(!VersionGate::new(1, 9).available(&since));

    // a half-open window [1.2, 2.0): open at 1.2, closed at 2.0
    let window = Avail::Between(Version::new(1, 2), Version::new(2, 0));
    assert!(!VersionGate::new(1, 1).available(&window));
    assert!(VersionGate::new(1, 2).available(&window));
    assert!(VersionGate::new(1, 9).available(&window));
    assert!(!VersionGate::new(2, 0).available(&window));
    assert!(!VersionGate::new(3, 0).available(&window));
}

#[test]
fn version_order() {
    assert!(Version::new(2, 1).at_least(&Version::new(2, 1)));
    assert!(Version::new(3, 0).at_least(&Version::new(2, 9)));
    assert!(!Version::new(2, 9).at_least(&Version::new(3, 0)));
    assert!(Version::new(2, 9).below(&Version::new(3, 0)));
    assert!(!Version::new(3, 0).below(&Version::new(3, 0)));
}

#[test]
fn error_messages() {
    assert_eq!(Error::ParseSwitch.message(), "expected on or off");
    assert_eq!(Error::ParseStatusKeys.message(), "expected vi or emacs");
}
