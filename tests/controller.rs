use command::{echo_topic, report_json, report_line, send_topic, Controller, Effect, Sink};

fn fresh() -> Controller {
    Controller::new()
}

#[test]
fn output_prints_locally_without_destination() {
    let c = fresh();
    assert_eq!(c.route_line("hello"), Sink::Print("hello".to_string()));
}

#[test]
fn dest_then_line_yields_one_echo_report() {
    let mut c = fresh();
    let (ack, effect) = c.action("dest", "HomeUbuntu", "");
    assert_eq!(ack, "send");
    assert_eq!(effect, None);
    assert_eq!(
        c.route_line("hello"),
        Sink::Publish(
            "send plugin mqtt report '{\"topic\":\"tln/HomeUbuntu/echo\",\"payload\":\"hello\"}'"
                .to_string()
        )
    );
}

#[test]
fn later_dest_replaces_earlier_one() {
    let mut c = fresh();
    c.action("dest", "a", "");
    c.action("dest", "b", "");
    assert_eq!(
        c.route_line("x"),
        Sink::Publish(report_line("tln/b/echo", "x"))
    );
}

#[test]
fn shell_stop_clears_destination() {
    let mut c = fresh();
    assert_eq!(c.action("shell", "start", ""), ("send".to_string(), Some(Effect::StartShell)));
    c.action("dest", "HomeUbuntu", "");
    assert_eq!(c.action("shell", "stop", ""), ("send".to_string(), Some(Effect::StopShell)));
    assert!(!c.has_shell());
    assert_eq!(c.route_line("bye"), Sink::Print("bye".to_string()));
}

#[test]
fn cmd_without_shell_writes_nothing() {
    let mut c = fresh();
    let (ack, effect) = c.action("cmd", "ls", "");
    assert_eq!(ack, "send");
    assert_eq!(
        effect,
        Some(Effect::Notice(
            "Please start shell first (action plugin command shell start)".to_string()
        ))
    );
    assert!(!c.has_shell());
}

#[test]
fn cmd_with_shell_writes_the_text() {
    let mut c = fresh();
    c.action("shell", "start", "");
    assert_eq!(
        c.action("cmd", "ls -l", ""),
        ("send".to_string(), Some(Effect::WriteLine("ls -l".to_string())))
    );
}

#[test]
fn remote_cmd_without_remote_sends_nothing() {
    let mut c = fresh();
    let (ack, effect) = c.action("remote", "cmd", "ls");
    assert_eq!(ack, "send");
    assert_eq!(
        effect,
        Some(Effect::Notice(
            "Please set the remote device first (action plugin command remote remote {device_name})"
                .to_string()
        ))
    );
}

#[test]
fn remote_cmd_with_remote_forwards_once() {
    let mut c = fresh();
    assert_eq!(c.action("remote", "remote", "pi5"), ("send".to_string(), None));
    assert_eq!(
        c.action("remote", "cmd", "ls").1,
        Some(Effect::Forward {
            topic: "tln/pi5/send".to_string(),
            command: "action plugin command cmd 'ls'".to_string(),
        })
    );
}

#[test]
fn remote_dest_and_shell_are_forwarded() {
    let mut c = fresh();
    assert_eq!(
        c.action("remote", "shell", "start").1,
        Some(Effect::Notice(
            "Please set the remote device first (action plugin command remote remote device_name)"
                .to_string()
        ))
    );
    c.action("remote", "remote", "pi5");
    let fwd = |command: &str| {
        Some(Effect::Forward { topic: "tln/pi5/send".to_string(), command: command.to_string() })
    };
    assert_eq!(c.action("remote", "shell", "start").1, fwd("action plugin command shell start"));
    assert_eq!(c.action("remote", "shell", "stop").1, fwd("action plugin command shell stop"));
    assert_eq!(
        c.action("remote", "dest", "HomeUbuntu").1,
        fwd("action plugin command dest 'HomeUbuntu'")
    );
    assert_eq!(c.action("remote", "shell", "restart").1, None);
}

#[test]
fn remote_target_survives_shell_stop() {
    let mut c = fresh();
    c.action("remote", "remote", "pi5");
    c.action("shell", "start", "");
    c.action("shell", "stop", "");
    assert!(c.status().contains("remote: pi5 (control remotely)\n"));
}

#[test]
fn starting_twice_asks_for_two_sessions() {
    let mut c = fresh();
    assert_eq!(c.action("shell", "start", "").1, Some(Effect::StartShell));
    assert_eq!(c.action("shell", "start", "").1, Some(Effect::StartShell));
    assert!(c.has_shell());
}

#[test]
fn unknown_actions_are_ignored() {
    let mut c = fresh();
    assert_eq!(c.action("reboot", "now", ""), ("send".to_string(), None));
    assert_eq!(c.action("shell", "pause", ""), ("send".to_string(), None));
    assert_eq!(c.action("remote", "reboot", "x"), ("send".to_string(), None));
    assert_eq!(c.status(), fresh().status());
}

#[test]
fn status_of_fresh_controller() {
    assert_eq!(
        fresh().status(),
        "child: no\nstdin: no\ndest: None (the output destination)\nremote: None (control remotely)\n"
    );
}

#[test]
fn status_with_shell_dest_and_remote() {
    let mut c = fresh();
    c.action("shell", "start", "");
    c.action("dest", "HomeUbuntu", "");
    c.action("remote", "remote", "pi5");
    assert_eq!(
        c.status(),
        "child: yes\nstdin: yes\ndest: HomeUbuntu (the output destination)\nremote: pi5 (control remotely)\n"
    );
}

#[test]
fn show_lists_the_actions() {
    let c = fresh();
    let text = c.show();
    assert!(text.starts_with("\naction plugin command shell start\n    Start shell\n"));
    assert!(text.ends_with("Ask the remote device to stop shell\n"));
    assert_eq!(c.name(), "command");
}

#[test]
fn topics_name_the_device() {
    assert_eq!(echo_topic("HomeUbuntu"), "tln/HomeUbuntu/echo");
    assert_eq!(send_topic("pi5"), "tln/pi5/send");
}

#[test]
fn report_json_escapes_strings() {
    assert_eq!(
        report_json("tln/a\"b/echo", "line\tone\\two\n"),
        "{\"topic\":\"tln/a\\\"b/echo\",\"payload\":\"line\\tone\\\\two\\n\"}"
    );
    assert_eq!(report_json("t", "\u{1}é"), "{\"topic\":\"t\",\"payload\":\"\\u0001é\"}");
}

#[test]
fn report_line_wraps_the_json() {
    assert_eq!(
        report_line("tln/pi5/send", "abc"),
        "send plugin mqtt report '{\"topic\":\"tln/pi5/send\",\"payload\":\"abc\"}'"
    );
}

#[test]
fn empty_line_and_empty_destination() {
    let mut c = fresh();
    assert_eq!(c.route_line(""), Sink::Print(String::new()));
    c.action("dest", "", "");
    assert_eq!(
        c.route_line(""),
        Sink::Publish("send plugin mqtt report '{\"topic\":\"tln//echo\",\"payload\":\"\"}'".to_string())
    );
}
