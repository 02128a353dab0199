use vstd::prelude::*;

verus! {

/// The JSON string literal that serde_json writes for a string.
pub uninterp spec fn json_string_of(s: Seq<char>) -> Seq<char>;

/// No character of `s` is one that a JSON string literal must escape.
pub open spec fn plain_json_chars(s: Seq<char>) -> bool {
    forall|i: int|
        0 <= i < s.len() ==> #[trigger] s[i] != '"' && s[i] != '\\' && (s[i] as u32) >= 0x20
}

/// Relies on `serde_json::to_string` applied to a `str`: it writes a quoted JSON
/// string in which only '"', '\\' and the control characters below 0x20 are
/// escaped, and the other characters stand as they are. Writing into its own
/// `Vec` cannot fail, so the error arm is never taken.
#[verifier::external_body]
fn json_string(s: &str) -> (r: String)
    ensures
        r@ == json_string_of(s@),
        plain_json_chars(s@) ==> r@ == seq!['"'] + s@ + seq!['"'],
{
    serde_json::to_string(s).unwrap_or_default()
}

/// Topic of a report that relays shell output to `device`.
pub open spec fn echo_topic_of(device: Seq<char>) -> Seq<char> {
    "tln/"@ + device + "/echo"@
}

/// Topic of a report that carries a command to `device`.
pub open spec fn send_topic_of(device: Seq<char>) -> Seq<char> {
    "tln/"@ + device + "/send"@
}

/// A report as a compact JSON object with the keys `topic` and `payload`.
pub open spec fn report_json_of(topic: Seq<char>, payload: Seq<char>) -> Seq<char> {
    "{\"topic\":"@ + json_string_of(topic) + ",\"payload\":"@ + json_string_of(payload) + "}"@
}

/// The line handed to the transport to publish a report.
pub open spec fn report_line_of(topic: Seq<char>, payload: Seq<char>) -> Seq<char> {
    "send plugin mqtt report '"@ + report_json_of(topic, payload) + "'"@
}

/// Where one line of shell output goes.
#[derive(Debug, Clone, PartialEq, Eq)]
pub enum Sink {
    /// Printed on the local console, as it is.
    Print(String),
    /// Published through the transport: the whole line to hand it.
    Publish(String),
}

pub enum SinkView {
    Print(Seq<char>),
    Publish(Seq<char>),
}

impl View for Sink {
    type V = SinkView;

    open spec fn view(&self) -> SinkView {
        match self {
            Sink::Print(l) => SinkView::Print(l@),
            Sink::Publish(l) => SinkView::Publish(l@),
        }
    }
}

/// Where a line of shell output goes while the destination is `dest`: printed
/// when there is none, else relayed as a report to the destination's echo topic.
pub open spec fn route_of(dest: Option<Seq<char>>, line: Seq<char>) -> SinkView {
    match dest {
        None => SinkView::Print(line),
        Some(d) => SinkView::Publish(report_line_of(echo_topic_of(d), line)),
    }
}

pub fn echo_topic(device: &str) -> (r: String)
    ensures
        r@ == echo_topic_of(device@),
{
    let mut t = String::from_str("tln/");
    t.append(device);
    t.append("/echo");
    t
}

pub fn send_topic(device: &str) -> (r: String)
    ensures
        r@ == send_topic_of(device@),
{
    let mut t = String::from_str("tln/");
    t.append(device);
    t.append("/send");
    t
}

pub fn report_json(topic: &str, payload: &str) -> (r: String)
    ensures
        r@ == report_json_of(topic@, payload@),
{
    let mut j = String::from_str("{\"topic\":");
    let t = json_string(topic);
    j.append(t.as_str());
    j.append(",\"payload\":");
    let p = json_string(payload);
    j.append(p.as_str());
    j.append("}");
    j
}

pub fn report_line(topic: &str, payload: &str) -> (r: String)
    ensures
        r@ == report_line_of(topic@, payload@),
{
    let mut l = String::from_str("send plugin mqtt report '");
    let j = report_json(topic, payload);
    l.append(j.as_str());
    l.append("'");
    l
}

} // verus!
