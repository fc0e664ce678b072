use vstd::prelude::*;
use vstd::string::StringSliceAdditionalSpecFns;
use vstd::utf8::encode_utf8;

use crate::console::{dec_digits, Console};

verus! {

/// Where in the source a failure was raised.
#[derive(Clone, Debug)]
pub struct Location {
    pub file: String,
    pub line: u32,
    pub column: u32,
}

/// What a failure site hands to the failure handler.
#[derive(Clone, Debug)]
pub struct FailureRecord {
    pub message: Option<String>,
    pub location: Option<Location>,
}

/// The message part of a diagnostic, with a fixed text when there is none.
pub open spec fn message_text(message: Option<String>) -> Seq<u8> {
    match message {
        Some(m) => encode_utf8(m@),
        None => "no message".spec_bytes(),
    }
}

/// The diagnostic payload for a failure: `Panicked at <file>:<line> <message>`
/// with a location, `Panicked: <message>` without one.
pub open spec fn failure_text(rec: FailureRecord) -> Seq<u8> {
    match rec.location {
        Some(loc) => "Panicked at ".spec_bytes() + encode_utf8(loc.file@) + ":".spec_bytes()
            + dec_digits(loc.line as nat) + " ".spec_bytes() + message_text(rec.message),
        None => "Panicked: ".spec_bytes() + message_text(rec.message),
    }
}

impl FailureRecord {
    /// A failure with a message and no location.
    pub fn with_message(message: &str) -> (r: FailureRecord)
        ensures
            r.message is Some,
            r.message->0@ == message@,
            r.location is None,
    {
        FailureRecord { message: Some(String::from_str(message)), location: None }
    }
}

fn write_message(console: &mut Console, message: &Option<String>)
    ensures
        final(console)@ == old(console)@ + message_text(*message),
{
    match message {
        Some(m) => console.write_str(m.as_str()),
        None => console.write_str("no message"),
    }
}

/// Writes the diagnostic payload of `rec`, without the line's framing.
pub fn write_failure_text(console: &mut Console, rec: &FailureRecord)
    ensures
        final(console)@ == old(console)@ + failure_text(*rec),
{
    match &rec.location {
        Some(loc) => {
            console.write_str("Panicked at ");
            console.write_str(loc.file.as_str());
            console.write_str(":");
            console.write_dec(loc.line);
            console.write_str(" ");
            write_message(console, &rec.message);
            assert(console@ =~= old(console)@ + failure_text(*rec));
        },
        None => {
            console.write_str("Panicked: ");
            write_message(console, &rec.message);
            assert(console@ =~= old(console)@ + failure_text(*rec));
        },
    }
}

} // verus!
