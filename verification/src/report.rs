//! What a scan prints: one line for each target that was found open.

use crate::ports::{service_name, spec_service_name};
use crate::target::{socket_text, Target};
use vstd::prelude::*;
use vstd::string::StringExecFns;

verus! {

/// What stands between a target and the description of its service.
pub const SEPARATOR: &'static str = " – ";

/// What a probe found out about a target.
#[derive(Clone, Debug, PartialEq, Eq)]
pub struct ScanResult {
    pub target: Target,
    pub open: bool,
}

/// The line for an open port: host, colon and port, and after them, where the
/// service table knows the port, the separator and the description.
pub open spec fn report_text(host: Seq<char>, port: u16) -> Seq<char> {
    match spec_service_name(port) {
        Some(name) => socket_text(host, port) + SEPARATOR@ + name@,
        None => socket_text(host, port),
    }
}

/// The line that a result is reported with: none for a closed port.
pub open spec fn spec_report(host: Seq<char>, port: u16, open: bool) -> Option<Seq<char>> {
    if open {
        Some(report_text(host, port))
    } else {
        None
    }
}

/// Whether `line` holds the text `text`, or both are absent.
pub open spec fn line_is(line: Option<String>, text: Option<Seq<char>>) -> bool {
    match line {
        Some(l) => text == Some(l@),
        None => text is None,
    }
}

/// The line to print for a result: for an open port the target and, if the
/// port is a well-known one, its service; for a closed port nothing.
pub fn report(result: &ScanResult) -> (line: Option<String>)
    ensures
        line_is(line, spec_report(result.target.host@, result.target.port, result.open)),
{
    if !result.open {
        return None;
    }
    let mut text = result.target.address();
    match service_name(result.target.port) {
        Some(name) => {
            text.append(SEPARATOR);
            text.append(name);
        },
        None => {},
    }
    Some(text)
}

} // verus!
