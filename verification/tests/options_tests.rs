use tmux_interface::GetGlobalServerOption;
use tmux_interface::GetPaneOptions;
use tmux_interface::GetServerOption;
use tmux_interface::Getter;
use tmux_interface::LocalSessionOptionsCtl;
use tmux_interface::SetOption;
use tmux_interface::SetServerOption;
use tmux_interface::ShowOptions;
use tmux_interface::TmuxServerOptionOutput;
use tmux_interface::VersionGate;
use tmux_interface::get_server_option::BUFFER_LIMIT;

fn strs(v: &[&str]) -> Vec<String> {
    v.iter().map(|s| s.to_string()).collect()
}

#[test]
fn get_pane_options() {
    let cmd = "show -p";

    let mut v = Vec::new();
    v.push(format!("{} {}", cmd, "allow-rename"));
    v.push(format!("{} {}", cmd, "alternate-screen"));
    v.push(format!("{} {}", cmd, "remain-on-exit"));
    v.push(format!("{} {}", cmd, "window-active-style"));
    v.push(format!("{} {}", cmd, "window-style"));
    v.push(format!("{} {}", cmd, "synchronize-panes"));
    v.push(format!("{} {}", cmd, "@user-option-name"));

    let origin = v.join(" ; ");

    let options = GetPaneOptions::new();
    let options = options.allow_rename();
    let options = options.alternate_screen();
    let options = options.remain_on_exit();
    let options = options.window_active_style();
    let options = options.window_style();
    let options = options.synchronize_panes();
    let options = options.user_option("user-option-name");
    // the short alias preference gives the `show` token
    let gate = VersionGate::new(3, 2).alias(true);
    let options = options.build(&gate).to_text();

    assert_eq!(options, origin);
}

#[test]
fn get_pane_options_version_gated() {
    // synchronize-panes opened at tmux 3.2: at 3.0 it is silently dropped,
    // without disturbing the order of the rest
    let options = GetPaneOptions::new().window_style().synchronize_panes().user_option("u");
    let gate = VersionGate::new(3, 0).alias(true);
    let text = options.build(&gate).to_text();
    assert_eq!(text, "show -p window-style ; show -p @u");
}

#[test]
fn parse_server_option() {
    {
        let origin = "C-?";
        let output = TmuxServerOptionOutput::new("C-?".to_string());
        let value = output.backspace().unwrap();
        assert_eq!(origin, value);
    }

    {
        let origin = 50;
        let output = TmuxServerOptionOutput::new("50".to_string());
        let value = output.buffer_limit().unwrap();
        assert_eq!(origin, value);
    }
}

#[test]
fn get_server_option_c() {
    let cmd = GetServerOption::get(BUFFER_LIMIT);
    println!("{:?}", &cmd);

    let cmd = GetServerOption::buffer_limit();
    println!("{:?}", &cmd);
    let cmd = GetServerOption::set_clipboard();
    println!("{:?}", &cmd);

    let cmd = GetServerOption::command_alias();
    println!("{:?}", &cmd);

    let values = vec!["asdf".to_string(), "a".to_string()];
    let cmds = SetServerOption::command_alias(Some(&values));
    println!("{:?}", &cmds);
}

#[test]
fn getter_trait_queries() {
    // callers generic over the trait see the same composed tokens
    assert_eq!(
        <GetServerOption as Getter>::get("backspace").to_vec(),
        strs(&["show-options", "-s", "-v", "backspace"])
    );
    assert_eq!(
        <GetGlobalServerOption as Getter>::get("backspace").to_vec(),
        strs(&["show-options", "-g", "-s", "-v", "backspace"])
    );
}

#[test]
fn server_option_queries() {
    assert_eq!(
        GetServerOption::backspace().to_vec(),
        strs(&["show-options", "-s", "-v", "backspace"])
    );
    assert_eq!(
        GetServerOption::buffer_limit().to_vec(),
        strs(&["show-options", "-s", "-v", "buffer-limit"])
    );
    assert_eq!(
        GetServerOption::user_option("foo").to_vec(),
        strs(&["show-options", "-s", "-v", "@foo"])
    );
    assert_eq!(
        GetGlobalServerOption::get("escape-time").to_vec(),
        strs(&["show-options", "-g", "-s", "-v", "escape-time"])
    );
}

#[test]
fn set_server_option_array() {
    // an array option is addressed one index per command, never merged
    let values = vec!["v0".to_string(), "v1".to_string(), "v2".to_string()];
    let cmds = SetServerOption::command_alias(Some(&values));
    assert_eq!(cmds.cmds.len(), 3);
    assert_eq!(
        cmds.cmds[0].to_vec(),
        strs(&["set-option", "-s", "command-alias[0]", "v0"])
    );
    assert_eq!(
        cmds.cmds[1].to_vec(),
        strs(&["set-option", "-s", "command-alias[1]", "v1"])
    );
    assert_eq!(
        cmds.cmds[2].to_vec(),
        strs(&["set-option", "-s", "command-alias[2]", "v2"])
    );
    let cmds = SetServerOption::command_alias(None);
    assert_eq!(cmds.cmds.len(), 0);
}

#[test]
fn set_option_pane_scope() {
    // building a "set option" command for scope=pane
    let gate = VersionGate::new(3, 2);
    let cmd = SetOption::new().pane().option("window-style").value("default").build(&gate);
    assert_eq!(cmd.to_vec(), strs(&["set-option", "-p", "window-style", "default"]));
}

#[test]
fn show_options_flag_order() {
    let gate = VersionGate::new(3, 2);
    let cmd = ShowOptions::new()
        .global()
        .server()
        .quiet()
        .value()
        .target("t")
        .option("escape-time")
        .build(&gate);
    assert_eq!(
        cmd.to_vec(),
        strs(&["show-options", "-g", "-s", "-q", "-v", "-t", "t", "escape-time"])
    );
}

#[test]
fn session_options_ctl() {
    let ctl = LocalSessionOptionsCtl::new(Some("mysession"));
    assert_eq!(
        ctl.get("status").to_vec(),
        strs(&["show-options", "-t", "mysession", "status"])
    );
    assert_eq!(
        ctl.set("status", "off").to_vec(),
        strs(&["set-option", "-t", "mysession", "status", "off"])
    );
    let ctl = LocalSessionOptionsCtl::new(None);
    assert_eq!(ctl.get("status").to_vec(), strs(&["show-options", "status"]));

    // the array decoder: one trimmed element per line, nothing on empty
    assert_eq!(
        ctl.get_array("a=1\n  b=2\n"),
        Some(vec!["a=1".to_string(), "b=2".to_string()])
    );
    assert_eq!(ctl.get_array(""), None);
}

#[test]
fn server_option_output_decoders() {
    let out = TmuxServerOptionOutput::new(" 42 \n".to_string());
    assert_eq!(out.value(), "42");
    assert_eq!(out.number(), Some(42));

    let out = TmuxServerOptionOutput::new("not a number".to_string());
    assert_eq!(out.number(), None);

    let out = TmuxServerOptionOutput::new("one\ntwo\n".to_string());
    assert_eq!(out.command_alias(), Some(vec!["one".to_string(), "two".to_string()]));
    let out = TmuxServerOptionOutput::new("".to_string());
    assert_eq!(out.command_alias(), None);
}
