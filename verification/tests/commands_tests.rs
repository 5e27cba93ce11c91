use tmux_interface::AttachSession;
use tmux_interface::AttachSessionBuilder;
use tmux_interface::ClockMode;
use tmux_interface::DeleteBuffer;
use tmux_interface::IfShell;
use tmux_interface::ListBuffers;
use tmux_interface::LockServer;
use tmux_interface::RefreshClient;
use tmux_interface::RunShell;
use tmux_interface::SetBuffer;
use tmux_interface::SplitWindow;
use tmux_interface::TargetPane;
use tmux_interface::TargetSession;
use tmux_interface::TmuxInterface;
use tmux_interface::VersionGate;
use tmux_interface::WaitFor;
use tmux_interface::WaitForMode;

fn strs(v: &[&str]) -> Vec<String> {
    v.iter().map(|s| s.to_string()).collect()
}

#[test]
fn delete_buffer() {
    // Delete the buffer named buffer-name, or the most recently added
    // automatically named buffer if not specified.
    //
    // # Manual
    //
    // tmux ^2.0:
    // ```text
    // tmux delete-buffer [-b buffer-name]
    // (alias: deleteb)
    // ```
    let buffer_name = TargetPane::Raw("1").to_text();
    let delete_buffer = DeleteBuffer::new().buffer_name(buffer_name.as_str());

    // canonical long name, the default; the cmd_alias preference picks the
    // short alias instead
    let gate = VersionGate::new(3, 2);
    let cmd = "delete-buffer";
    let mut s: Vec<String> = Vec::new();
    s.push(cmd.to_string());
    s.extend(strs(&["-b", "1"]));
    assert_eq!(delete_buffer.build(&gate).to_vec(), s);

    let gate = gate.alias(true);
    let cmd = "deleteb";
    let mut s: Vec<String> = Vec::new();
    s.push(cmd.to_string());
    s.extend(strs(&["-b", "1"]));
    assert_eq!(delete_buffer.build(&gate).to_vec(), s);
}

#[test]
fn set_buffer() {
    // Set the contents of the specified buffer to data.
    //
    // # Manual
    //
    // tmux ^3.2:
    // ```text
    // tmux set-buffer [-aw] [-b buffer-name] [-t target-client]
    // [-n new-buffer-name] data
    // (alias: setb)
    // ```
    let set_buffer = SetBuffer::new()
        .append()
        .send_to_clipboard()
        .buffer_name("1")
        .target_client("2")
        .new_buffer_name("3")
        .buffer_index("4")
        .target_session("5")
        .data("6");

    // at tmux 3.2 the buffer-index and target-session windows are closed:
    // those flags are silently omitted
    let gate = VersionGate::new(3, 2);
    let cmd = "set-buffer";
    let s = strs(&["-a", "-w", "-b", "1", "-t", "2", "-n", "3", "6"]);
    let built = set_buffer.build(&gate);
    assert_eq!(built.cmd, Some(cmd.to_string()));
    assert_eq!(built.args, s);

    let gate = gate.alias(true);
    let cmd = "setb";
    let built = set_buffer.build(&gate);
    assert_eq!(built.cmd, Some(cmd.to_string()));
    assert_eq!(built.args, s);
}

#[test]
fn set_buffer_old_versions() {
    // before tmux 2.0 only the index, session and data are emitted
    let set_buffer = SetBuffer::new()
        .append()
        .buffer_name("1")
        .buffer_index("4")
        .target_session("5")
        .data("6");
    let gate = VersionGate::new(1, 0);
    assert_eq!(set_buffer.build(&gate).args, strs(&["-b", "4", "-t", "5", "6"]));
    let gate = VersionGate::new(1, 8);
    assert_eq!(set_buffer.build(&gate).args, strs(&["-b", "4", "6"]));
}

#[test]
fn attach_session() {
    // tmux attach-session [-dErx] [-c working-directory] [-t target-session]
    // (alias: attach)
    let tmux = TmuxInterface::new();

    let attach_session = AttachSession {
        detach_other: Some(true),
        not_update_env: Some(true),
        read_only: Some(true),
        parent_sighup: Some(true),
        cwd: Some("1"),
        target_session: Some(&TargetSession::Raw("2")),
    };
    let cmd = tmux.attach_session(Some(&attach_session));
    assert_eq!(
        format!(r#"{:?} {:?} {:?}"#, cmd.bin, cmd.bin_args, cmd.to_vec()),
        r#""tmux" [] ["attach-session", "-d", "-E", "-r", "-x", "-c", "1", "-t", "2"]"#
    );

    let attach_session = AttachSessionBuilder::new()
        .detach_other()
        .not_update_env()
        .read_only()
        .parent_sighup()
        .cwd("1")
        .target_session(&TargetSession::Raw("2"))
        .build();
    let cmd = tmux.attach_session(Some(&attach_session));
    assert_eq!(
        format!(r#"{:?} {:?} {:?}"#, cmd.bin, cmd.bin_args, cmd.to_vec()),
        r#""tmux" [] ["attach-session", "-d", "-E", "-r", "-x", "-c", "1", "-t", "2"]"#
    );
}

#[test]
fn refresh_client() {
    // tmux refresh-client [-cDlLRSU] [-C XxY] [-F flags] [-t target-client]
    // [adjustment]
    let tmux = TmuxInterface::new();
    let refresh_client = RefreshClient {
        tracking_cursor: Some(true),
        down: Some(true),
        request_clipboard: Some(true),
        left: Some(true),
        right: Some(true),
        status_line: Some(true),
        up: Some(true),
        size: Some((1, 2)),
        flags: Some("3"),
        target_client: Some("4"),
        adjustment: Some(5),
    };
    let cmd = tmux.refresh_client(Some(&refresh_client));
    assert_eq!(
        format!(r#"{:?} {:?} {:?}"#, cmd.bin, cmd.bin_args, cmd.to_vec()),
        r#""tmux" [] ["refresh-client", "-c", "-D", "-l", "-L", "-R", "-S", "-U", "-C", "1x2", "-F", "3", "-t", "4", "5"]"#
    );
}

#[test]
fn rename_session() {
    // tmux rename-session [-t target-session] new-name
    // (alias: rename)
    let tmux = TmuxInterface::new();
    let cmd = tmux.rename_session(Some("1"), "2");
    assert_eq!(
        format!(r#"{:?} {:?} {:?}"#, cmd.bin, cmd.bin_args, cmd.to_vec()),
        r#""tmux" [] ["rename-session", "-t", "1", "2"]"#
    );
}

#[test]
fn split_window_size_last_set_wins() {
    // the two size parameters are mutually exclusive: whichever setter ran
    // last wins, and exactly one size flag is emitted
    let gate = VersionGate::new(3, 2);

    let sw = SplitWindow::new().size(5).percentage(10);
    let args = sw.build(&gate).args;
    assert_eq!(args, strs(&["-l", "10%"]));
    let size_flags = args.iter().filter(|a| *a == "-l" || *a == "-p").count();
    assert_eq!(size_flags, 1);

    let sw = SplitWindow::new().percentage(10).size(5);
    let args = sw.build(&gate).args;
    assert_eq!(args, strs(&["-l", "5"]));
    let size_flags = args.iter().filter(|a| *a == "-l" || *a == "-p").count();
    assert_eq!(size_flags, 1);

    // before tmux 3.1 a percentage is spelled with its own flag
    let gate = VersionGate::new(2, 6);
    let sw = SplitWindow::new().percentage(10);
    let args = sw.build(&gate).args;
    assert_eq!(args, strs(&["-p", "10"]));
    let size_flags = args.iter().filter(|a| *a == "-l" || *a == "-p").count();
    assert_eq!(size_flags, 1);
}

#[test]
fn split_window_full() {
    let gate = VersionGate::new(3, 2);
    let mut sw = SplitWindow::new();
    sw.before = Some(true);
    sw.detached = Some(true);
    sw.full = Some(true);
    sw.horizontal = Some(true);
    sw.stdin_forward = Some(true);
    sw.vertical = Some(true);
    sw.print = Some(true);
    sw.cwd = Some("1".to_string());
    sw.environment = Some("2".to_string());
    let sw = sw.size(3).target_pane("4").shell_command("5");
    let mut sw = sw;
    sw.format = Some("6".to_string());
    let cmd = sw.build(&gate);
    assert_eq!(cmd.cmd, Some("split-window".to_string()));
    // the positional shell command comes last, after every flag
    assert_eq!(
        cmd.args,
        strs(&["-b", "-d", "-f", "-h", "-I", "-v", "-P", "-c", "1", "-e", "2", "-l", "3", "-t", "4", "-F", "6", "5"])
    );
    // the alias preference changes the subcommand token only, never the
    // arguments after it
    let alias_gate = gate.alias(true);
    let alias_cmd = sw.build(&alias_gate);
    assert_eq!(alias_cmd.cmd, Some("splitw".to_string()));
    assert_eq!(alias_cmd.args, cmd.args);
}

#[test]
fn split_window_via_interface() {
    let tmux = TmuxInterface::new();
    let sw = SplitWindow::new().size(7).target_pane("%1");
    let cmd = tmux.split_window(Some(&sw));
    assert_eq!(cmd.to_vec(), strs(&["split-window", "-l", "7", "-t", "%1"]));
    let cmd = tmux.split_window(None);
    assert_eq!(cmd.to_vec(), strs(&["split-window"]));
}

#[test]
fn clock_mode_version_gate() {
    // from tmux 1.0 the command targets a pane; before that a window
    let cm = ClockMode::new().target_pane("%0").target_window("@1");
    let cmd = cm.build(&VersionGate::new(3, 2));
    assert_eq!(cmd.to_vec(), strs(&["clock-mode", "-t", "%0"]));
    let cmd = cm.build(&VersionGate::new(0, 9));
    assert_eq!(cmd.to_vec(), strs(&["clock-mode", "-t", "@1"]));
}

#[test]
fn miscellaneous_builders() {
    let gate = VersionGate::new(3, 2);

    let mut c = IfShell::new();
    c.backgrounded = Some(true);
    c.format = Some(true);
    c.target_pane = Some("%2".to_string());
    c.shell_command = Some("test -e f".to_string());
    c.command = Some("display yes".to_string());
    c.second_command = Some("display no".to_string());
    assert_eq!(
        c.build(&gate).to_vec(),
        strs(&["if-shell", "-b", "-F", "-t", "%2", "test -e f", "display yes", "display no"])
    );
    // before their availability the flags are silently omitted
    assert_eq!(
        c.build(&VersionGate::new(1, 7)).to_vec(),
        strs(&["if-shell", "test -e f", "display yes", "display no"])
    );

    assert_eq!(LockServer::new().build().to_vec(), strs(&["lock-server"]));

    let mut r = RunShell::new();
    r.backgrounded = Some(true);
    r.shell_command = Some("date".to_string());
    assert_eq!(r.build(&gate).to_vec(), strs(&["run-shell", "-b", "date"]));

    let mut w = WaitFor::new();
    w.mode = Some(WaitForMode::Signal);
    w.channel = Some("ch".to_string());
    assert_eq!(w.build().to_vec(), strs(&["wait-for", "-S", "ch"]));
    // the mode flags are mutually exclusive: one field, at most one flag
    w.mode = Some(WaitForMode::Locked);
    assert_eq!(w.build().to_vec(), strs(&["wait-for", "-L", "ch"]));
}

#[test]
fn interface_simple_commands() {
    let tmux = TmuxInterface::new();
    assert_eq!(tmux.kill_server().to_vec(), strs(&["kill-server"]));
    assert_eq!(
        tmux.previous_window(Some(true), Some("s")).to_vec(),
        strs(&["previous-window", "-a", "-t", "s"])
    );
    assert_eq!(
        tmux.list_panes(Some(true), Some(true), Some("#{pane_id}"), Some("w")).to_vec(),
        strs(&["list-panes", "-a", "-s", "-F", "#{pane_id}", "-t", "w"])
    );
    assert_eq!(tmux.delete_buffer(Some("b")).to_vec(), strs(&["delete-buffer", "-b", "b"]));
    assert_eq!(tmux.list_buffers(Some("#{buffer_name}")).to_vec(), strs(&["list-buffers", "-F", "#{buffer_name}"]));
}

#[test]
fn list_buffers_builder() {
    let b = ListBuffers::new().format("f");
    assert_eq!(b.build(&VersionGate::new(3, 2)).to_vec(), strs(&["list-buffers", "-F", "f"]));
    // before tmux 1.7 there is no format flag
    assert_eq!(b.build(&VersionGate::new(1, 6)).to_vec(), strs(&["list-buffers"]));
}

#[test]
fn target_rendering() {
    assert_eq!(TargetSession::Raw("x").to_text(), "x");
    assert_eq!(TargetSession::Id(3).to_text(), "$3");
    assert_eq!(TargetSession::ExactName("main").to_text(), "=main");
    assert_eq!(TargetPane::Raw("y").to_text(), "y");
    assert_eq!(TargetPane::Id(12).to_text(), "%12");
}
