use vstd::prelude::*;

use crate::report::{
    echo_topic, echo_topic_of, report_line, report_line_of, route_of, send_topic, send_topic_of,
    Sink, SinkView,
};

verus! {

/// What the controller knows: whether a shell session is open, where shell
/// output goes (`None`: the local console), and the peer that remote actions
/// are forwarded to.
pub struct Controller {
    shell: bool,
    dest: Option<String>,
    remote: Option<String>,
}

/// The state of a controller as plain values.
pub struct ControllerView {
    pub shell: bool,
    pub dest: Option<Seq<char>>,
    pub remote: Option<Seq<char>>,
}

/// Outside work that an action asks for.
#[derive(Debug, Clone, PartialEq, Eq)]
pub enum Effect {
    /// Spawn the shell with piped streams and start draining its output.
    StartShell,
    /// Write this text and a newline to the shell's input.
    WriteLine(String),
    /// Write `exit` and a newline to the shell's input, then drop the session.
    StopShell,
    /// Encrypt `command` and publish it as a report under `topic`.
    Forward { topic: String, command: String },
    /// Tell the operator why nothing was done.
    Notice(String),
}

/// An effect as plain values.
pub enum EffectView {
    StartShell,
    WriteLine(Seq<char>),
    StopShell,
    Forward { topic: Seq<char>, command: Seq<char> },
    Notice(Seq<char>),
}

pub open spec fn opt_view(o: Option<String>) -> Option<Seq<char>> {
    match o {
        Some(s) => Some(s@),
        None => None,
    }
}

impl View for Controller {
    type V = ControllerView;

    closed spec fn view(&self) -> ControllerView {
        ControllerView { shell: self.shell, dest: opt_view(self.dest), remote: opt_view(self.remote) }
    }
}

impl View for Effect {
    type V = EffectView;

    open spec fn view(&self) -> EffectView {
        match self {
            Effect::StartShell => EffectView::StartShell,
            Effect::WriteLine(t) => EffectView::WriteLine(t@),
            Effect::StopShell => EffectView::StopShell,
            Effect::Forward { topic, command } => EffectView::Forward {
                topic: topic@,
                command: command@,
            },
            Effect::Notice(m) => EffectView::Notice(m@),
        }
    }
}

pub open spec fn ack_of() -> Seq<char> {
    "send"@
}

pub open spec fn no_shell_notice() -> Seq<char> {
    "Please start shell first (action plugin command shell start)"@
}

pub open spec fn no_remote_shell_notice() -> Seq<char> {
    "Please set the remote device first (action plugin command remote remote device_name)"@
}

pub open spec fn no_remote_notice() -> Seq<char> {
    "Please set the remote device first (action plugin command remote remote {device_name})"@
}

/// The command that asks a peer to run `text` in its shell.
pub open spec fn remote_cmd_of(text: Seq<char>) -> Seq<char> {
    "action plugin command cmd '"@ + text + "'"@
}

/// The command that asks a peer to send its shell output to `device`.
pub open spec fn remote_dest_of(device: Seq<char>) -> Seq<char> {
    "action plugin command dest '"@ + device + "'"@
}

/// A command forwarded to the remote peer `r`.
pub open spec fn forward_to(r: Seq<char>, command: Seq<char>) -> Option<EffectView> {
    Some(EffectView::Forward { topic: send_topic_of(r), command })
}

/// An action is allowed unless it stops a shell that was never started.
pub open spec fn action_allowed(s: ControllerView, a: Seq<char>, d: Seq<char>) -> bool {
    !(a == "shell"@ && d == "stop"@ && !s.shell)
}

/// The state after the action `(a, d, d2)` and the outside work it asks for.
pub open spec fn dispatch(s: ControllerView, a: Seq<char>, d: Seq<char>, d2: Seq<char>) -> (
    ControllerView,
    Option<EffectView>,
) {
    if a == "shell"@ {
        if d == "start"@ {
            (ControllerView { shell: true, ..s }, Some(EffectView::StartShell))
        } else if d == "stop"@ {
            (ControllerView { shell: false, dest: None, ..s }, Some(EffectView::StopShell))
        } else {
            (s, None)
        }
    } else if a == "cmd"@ {
        if s.shell {
            (s, Some(EffectView::WriteLine(d)))
        } else {
            (s, Some(EffectView::Notice(no_shell_notice())))
        }
    } else if a == "dest"@ {
        (ControllerView { dest: Some(d), ..s }, None)
    } else if a == "remote"@ {
        if d == "remote"@ {
            (ControllerView { remote: Some(d2), ..s }, None)
        } else if d == "shell"@ {
            match s.remote {
                None => (s, Some(EffectView::Notice(no_remote_shell_notice()))),
                Some(r) => if d2 == "start"@ {
                    (s, forward_to(r, "action plugin command shell start"@))
                } else if d2 == "stop"@ {
                    (s, forward_to(r, "action plugin command shell stop"@))
                } else {
                    (s, None)
                },
            }
        } else if d == "cmd"@ {
            match s.remote {
                None => (s, Some(EffectView::Notice(no_remote_notice()))),
                Some(r) => (s, forward_to(r, remote_cmd_of(d2))),
            }
        } else if d == "dest"@ {
            match s.remote {
                None => (s, Some(EffectView::Notice(no_remote_notice()))),
                Some(r) => (s, forward_to(r, remote_dest_of(d2))),
            }
        } else {
            (s, None)
        }
    } else {
        (s, None)
    }
}

/// Stopping the shell leaves no output destination, whatever it was before.
/// The action words are different words.
pub proof fn lemma_words_differ()
    ensures
        "shell"@ != "cmd"@,
        "shell"@ != "dest"@,
        "shell"@ != "remote"@,
        "cmd"@ != "dest"@,
        "cmd"@ != "remote"@,
        "dest"@ != "remote"@,
        "start"@ != "stop"@,
{
    reveal_strlit("shell");
    reveal_strlit("cmd");
    reveal_strlit("dest");
    reveal_strlit("remote");
    assert("shell"@.len() == 5);
    assert("cmd"@.len() == 3);
    assert("dest"@.len() == 4);
    assert("remote"@.len() == 6);
    reveal_strlit("start");
    reveal_strlit("stop");
    assert("start"@.len() == 5);
    assert("stop"@.len() == 4);
}

pub proof fn lemma_stop_clears_dest(s: ControllerView, d2: Seq<char>)
    requires
        s.shell,
    ensures
        dispatch(s, "shell"@, "stop"@, d2).0.dest is None,
{
    lemma_words_differ();
}

/// After the shell is stopped, every line of output is printed locally.
pub proof fn lemma_stop_then_line_prints(s: ControllerView, d2: Seq<char>, line: Seq<char>)
    requires
        s.shell,
    ensures
        route_of(dispatch(s, "shell"@, "stop"@, d2).0.dest, line) == SinkView::Print(line),
{
    lemma_words_differ();
}

/// A command while no shell runs writes nothing to any shell: the state stays
/// as it was and the operator is told to start the shell first.
pub proof fn lemma_cmd_without_shell(s: ControllerView, text: Seq<char>, d2: Seq<char>)
    requires
        !s.shell,
    ensures
        dispatch(s, "cmd"@, text, d2) == (s, Some(EffectView::Notice(no_shell_notice()))),
{
    lemma_words_differ();
}

/// A remote command is forwarded only when a remote peer is set, then exactly
/// once, to that peer's send topic, as the quoted command.
pub proof fn lemma_remote_cmd(s: ControllerView, text: Seq<char>)
    ensures
        dispatch(s, "remote"@, "cmd"@, text).0 == s,
        s.remote is None ==> dispatch(s, "remote"@, "cmd"@, text).1 == Some(
            EffectView::Notice(no_remote_notice()),
        ),
        s.remote is Some ==> dispatch(s, "remote"@, "cmd"@, text).1 == Some(
            EffectView::Forward {
                topic: send_topic_of(s.remote->Some_0),
                command: remote_cmd_of(text),
            },
        ),
{
    lemma_words_differ();
}

/// Starting the shell always asks for a new session, also while one runs.
pub proof fn lemma_start_always_spawns(s: ControllerView, d2: Seq<char>)
    ensures
        dispatch(s, "shell"@, "start"@, d2) == (
        ControllerView { shell: true, ..s },
        Some(EffectView::StartShell),
    ),
{
}

/// Once the destination is set to `name`, each line of output is relayed as
/// one report to `name`'s echo topic with the line as its payload.
pub proof fn lemma_dest_then_line(s: ControllerView, name: Seq<char>, d2: Seq<char>, line: Seq<char>)
    ensures
        route_of(dispatch(s, "dest"@, name, d2).0.dest, line) == SinkView::Publish(
            report_line_of(echo_topic_of(name), line),
        ),
{
    lemma_words_differ();
}

pub open spec fn effect_view_opt(e: Option<Effect>) -> Option<EffectView> {
    match e {
        Some(x) => Some(x@),
        None => None,
    }
}

/// The operator's help text: every action the controller takes.
pub const HELP: &'static str = r#"
action plugin command shell start
    Start shell

action plugin command cmd {cmd}
    Issue command

action plugin command shell stop
    Stop shell

action plugin command dest HomeUbuntu
    Set the output destination device ('HomeUbuntu')

action plugin command remote remote pi5
    Set the remote device to receive the command

action plugin command remote dest HomeUbuntu
    Ask the remote device to set the output destination ('HomeUbuntu')

action plugin command remote shell start
    Ask the remote device to start shell

action plugin command remote cmd {cmd}
    Ask the remote device to issue command

action plugin command remote shell stop
    Ask the remote device to stop shell
"#;

pub open spec fn yes_no(b: bool) -> Seq<char> {
    if b {
        "yes"@
    } else {
        "no"@
    }
}

pub open spec fn name_or_none(o: Option<Seq<char>>) -> Seq<char> {
    match o {
        Some(n) => n,
        None => "None"@,
    }
}

/// The status summary: whether a shell runs and its input is open, the output
/// destination and the remote peer.
pub open spec fn status_of(s: ControllerView) -> Seq<char> {
    "child: "@ + yes_no(s.shell) + "\n"@
        + "stdin: "@ + yes_no(s.shell) + "\n"@
        + "dest: "@ + name_or_none(s.dest) + " (the output destination)\n"@
        + "remote: "@ + name_or_none(s.remote) + " (control remotely)\n"@
}

fn yes_no_text(b: bool) -> (r: &'static str)
    ensures
        r@ == yes_no(b),
{
    if b {
        "yes"
    } else {
        "no"
    }
}

fn name_or_none_text(o: &Option<String>) -> (r: &str)
    ensures
        r@ == name_or_none(opt_view(*o)),
{
    match o {
        Some(n) => n.as_str(),
        None => "None",
    }
}

fn same(a: &str, b: &str) -> (r: bool)
    ensures
        r == (a@ == b@),
{
    a.to_owned() == b.to_owned()
}

fn forward(remote: &String, command: String) -> (r: Option<Effect>)
    ensures
        effect_view_opt(r) == forward_to(remote@, command@),
{
    Some(Effect::Forward { topic: send_topic(remote.as_str()), command })
}

impl Controller {
    /// A controller with no shell, output on the local console and no remote peer.
    pub fn new() -> (r: Controller)
        ensures
            r@ == (ControllerView { shell: false, dest: None, remote: None }),
    {
        Controller { shell: false, dest: None, remote: None }
    }

    /// Whether a shell session is open.
    pub fn has_shell(&self) -> (r: bool)
        ensures
            r == self@.shell,
    {
        self.shell
    }

    /// The name the controller goes by.
    pub fn name(&self) -> (r: &'static str)
        ensures
            r@ == "command"@,
    {
        "command"
    }

    /// The help text.
    pub fn show(&self) -> (r: String)
        ensures
            r@ == HELP@,
    {
        String::from_str(HELP)
    }

    pub fn status(&self) -> (r: String)
        ensures
            r@ == status_of(self@),
    {
        let mut s = String::from_str("child: ");
        s.append(yes_no_text(self.shell));
        s.append("\n");
        s.append("stdin: ");
        s.append(yes_no_text(self.shell));
        s.append("\n");
        s.append("dest: ");
        s.append(name_or_none_text(&self.dest));
        s.append(" (the output destination)\n");
        s.append("remote: ");
        s.append(name_or_none_text(&self.remote));
        s.append(" (control remotely)\n");
        s
    }

    /// Decides where one line of shell output goes, on the destination as it
    /// stands now.
    pub fn route_line(&self, line: &str) -> (r: Sink)
        ensures
            r@ == route_of(self@.dest, line@),
    {
        match &self.dest {
            None => Sink::Print(line.to_owned()),
            Some(d) => {
                let topic = echo_topic(d.as_str());
                Sink::Publish(report_line(topic.as_str(), line))
            },
        }
    }

    /// Carries out the action `(action, data, data2)`: updates the state and
    /// returns the acknowledgment with the outside work to do, if any.
    pub fn action(&mut self, action: &str, data: &str, data2: &str) -> (r: (String, Option<Effect>))
        requires
            action_allowed(old(self)@, action@, data@),
        ensures
            r.0@ == ack_of(),
            final(self)@ == dispatch(old(self)@, action@, data@, data2@).0,
            effect_view_opt(r.1) == dispatch(old(self)@, action@, data@, data2@).1,
    {
        let effect = if same(action, "shell") {
            if same(data, "start") {
                self.shell = true;
                Some(Effect::StartShell)
            } else if same(data, "stop") {
                self.shell = false;
                self.dest = None;
                Some(Effect::StopShell)
            } else {
                None
            }
        } else if same(action, "cmd") {
            if self.shell {
                Some(Effect::WriteLine(data.to_owned()))
            } else {
                Some(
                    Effect::Notice(
                        String::from_str(
                            "Please start shell first (action plugin command shell start)",
                        ),
                    ),
                )
            }
        } else if same(action, "dest") {
            self.dest = Some(data.to_owned());
            None
        } else if same(action, "remote") {
            if same(data, "remote") {
                self.remote = Some(data2.to_owned());
                None
            } else if same(data, "shell") {
                match &self.remote {
                    None => Some(
                        Effect::Notice(
                            String::from_str(
                                "Please set the remote device first (action plugin command remote remote device_name)",
                            ),
                        ),
                    ),
                    Some(r) => if same(data2, "start") {
                        forward(r, String::from_str("action plugin command shell start"))
                    } else if same(data2, "stop") {
                        forward(r, String::from_str("action plugin command shell stop"))
                    } else {
                        None
                    },
                }
            } else if same(data, "cmd") || same(data, "dest") {
                match &self.remote {
                    None => Some(
                        Effect::Notice(
                            String::from_str(
                                "Please set the remote device first (action plugin command remote remote {device_name})",
                            ),
                        ),
                    ),
                    Some(r) => {
                        let mut c = if same(data, "cmd") {
                            String::from_str("action plugin command cmd '")
                        } else {
                            String::from_str("action plugin command dest '")
                        };
                        c.append(data2);
                        c.append("'");
                        forward(r, c)
                    },
                }
            } else {
                None
            }
        } else {
            None
        };
        (String::from_str("send"), effect)
    }
}

} // verus!
