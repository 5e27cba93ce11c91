use tmux_interface::PaneOptions;
use tmux_interface::ServerOptions;
use tmux_interface::SessionOptions;
use tmux_interface::StatusKeys;
use tmux_interface::Switch;
use tmux_interface::WindowOptions;

#[test]
fn pane_options_from_str() {
    let output = "allow-rename off\n\
                  alternate-screen on\n\
                  remain-on-exit off\n\
                  window-active-style default\n\
                  window-style fg=colour247\n\
                  synchronize-panes off\n";
    let o = PaneOptions::from_str(output).unwrap();
    assert_eq!(o.allow_rename, Some(Switch::Off));
    assert_eq!(o.alternate_screen, Some(Switch::On));
    assert_eq!(o.remain_on_exit, Some(Switch::Off));
    assert_eq!(o.window_active_style, Some("default".to_string()));
    assert_eq!(o.window_style, Some("fg=colour247".to_string()));
    assert_eq!(o.synchronize_panes, Some(Switch::Off));
}

#[test]
fn pane_options_partial_and_unknown() {
    // unknown names and unparsable values are skipped, not errors
    let output = "allow-rename nonsense\nno-such-option 1\nwindow-style default\n";
    let o = PaneOptions::from_str(output).unwrap();
    assert_eq!(o.allow_rename, None);
    assert_eq!(o.window_style, Some("default".to_string()));
    assert_eq!(o.alternate_screen, None);

    let o = PaneOptions::from_str("").unwrap();
    assert_eq!(o, PaneOptions::new());
}

#[test]
fn pane_options_later_line_wins() {
    let output = "allow-rename off\nallow-rename on\n";
    let o = PaneOptions::from_str(output).unwrap();
    assert_eq!(o.allow_rename, Some(Switch::On));
}

#[test]
fn server_options_from_str() {
    let output = "buffer-limit 50\n\
                  default-terminal screen-256color\n\
                  escape-time 500\n\
                  exit-empty on\n\
                  focus-events off\n\
                  message-limit 1000\n";
    let o = ServerOptions::from_str(output).unwrap();
    assert_eq!(o.buffer_limit, Some(50));
    assert_eq!(o.default_terminal, Some("screen-256color".to_string()));
    assert_eq!(o.escape_time, Some(500));
    assert_eq!(o.exit_empty, Some(Switch::On));
    assert_eq!(o.focus_events, Some(Switch::Off));
    assert_eq!(o.message_limit, Some(1000));
    assert_eq!(o.history_file, None);
}

#[test]
fn session_options_from_str() {
    let output = "base-index 1\nhistory-limit 2000\nstatus on\nstatus-keys emacs\n";
    let o = SessionOptions::from_str(output).unwrap();
    assert_eq!(o.base_index, Some(1));
    assert_eq!(o.history_limit, Some(2000));
    assert_eq!(o.status, Some(Switch::On));
    assert_eq!(o.status_keys, Some(StatusKeys::Emacs));
    assert_eq!(o.default_shell, None);
}

#[test]
fn window_options_from_str() {
    let output = "aggressive-resize off\n\
                  automatic-rename on\n\
                  clock-mode-style 24\n\
                  main-pane-height 24\n\
                  mode-keys vi\n\
                  monitor-activity off\n";
    let o = WindowOptions::from_str(output).unwrap();
    assert_eq!(o.aggressive_resize, Some(Switch::Off));
    assert_eq!(o.automatic_rename, Some(Switch::On));
    assert_eq!(o.clock_mode_style, Some(24));
    assert_eq!(o.main_pane_height, Some(24));
    assert_eq!(o.main_pane_width, None);
    assert_eq!(o.mode_keys, Some(StatusKeys::Vi));
    assert_eq!(o.monitor_activity, Some(Switch::Off));
}

#[test]
fn scope_options_crlf() {
    // carriage-return line endings decode the same as plain newlines
    let o = ServerOptions::from_str("buffer-limit 50\r\nexit-empty on\r\n").unwrap();
    assert_eq!(o.buffer_limit, Some(50));
    assert_eq!(o.exit_empty, Some(Switch::On));
}

#[test]
fn option_value_with_spaces() {
    // the value is everything after the first space
    let o = ServerOptions::from_str("editor vi -e\n").unwrap();
    assert_eq!(o.editor, Some("vi -e".to_string()));
}
