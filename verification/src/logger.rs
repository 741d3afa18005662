//! The lines of the service's log.

use vstd::prelude::*;
use vstd::string::*;

verus! {

/// How much a log line matters.
#[allow(non_camel_case_types)]
#[derive(Clone, Copy, Debug, PartialEq, Eq, Structural)]
pub enum Header {
    SUCCESS,
    INFO,
    WARNING,
    ERROR,
}

/// The word that a header is written as.
pub open spec fn label_of(header: Header) -> Seq<char> {
    match header {
        Header::SUCCESS => "SUCCESS"@,
        Header::INFO => "INFO"@,
        Header::WARNING => "WARNING"@,
        Header::ERROR => "ERROR"@,
    }
}

/// A log line: the time in square brackets, the header, the message.
pub open spec fn line_of(time: Seq<char>, header: Header, message: Seq<char>) -> Seq<char> {
    "["@ + time + "] "@ + label_of(header) + " "@ + message
}

impl Header {
    /// The word that the header is written as.
    pub fn label(&self) -> (word: &'static str)
        ensures
            word@ == label_of(*self),
    {
        match self {
            Header::SUCCESS => "SUCCESS",
            Header::INFO => "INFO",
            Header::WARNING => "WARNING",
            Header::ERROR => "ERROR",
        }
    }
}

/// The line to log for `message`, stamped with the time `time` as text.
pub fn log(time: &str, header: Header, message: &str) -> (line: String)
    ensures
        line@ == line_of(time@, header, message@),
{
    let mut line = String::from_str("[");
    line.append(time);
    line.append("] ");
    line.append(header.label());
    line.append(" ");
    line.append(message);
    line
}

} // verus!
