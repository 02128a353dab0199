//! Decision core of a command-relay controller: it tracks one interactive shell
//! session, an output destination and a remote peer, decides what each action
//! does, and routes each line of shell output to the console or to a report.

pub mod controller;
pub mod report;

pub use controller::{Controller, Effect};
pub use report::{echo_topic, report_json, report_line, send_topic, Sink};
