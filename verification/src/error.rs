//! Error types of the protocol layer.

use vstd::prelude::*;
use vstd::string::StringExecFns;
use crate::history::{decimal, push_decimal};

verus! {

/// `std::io::Error`, carried through unopened.
#[verifier::external_type_specification]
#[verifier::external_body]
pub struct ExIoError(std::io::Error);

/// Everything that can go wrong while framing or unframing bytes.
#[derive(Debug)]
pub enum ProtocolError {
    /// The first four bytes are not the protocol's magic.
    InvalidMagic,
    /// The version byte is not the supported one.
    UnsupportedVersion(u8),
    /// The payload is longer than the protocol allows.
    FrameTooLarge,
    /// A frame without payload where one is demanded.
    ZeroLengthFrame,
    /// The checksum in the trailer does not match the content.
    IntegrityCheckFailed,
    /// Fewer bytes than a whole frame.
    Incomplete,
    /// The underlying stream failed.
    Io(std::io::Error),
    /// A payload could not be turned into a message.
    SerializationError(String),
}

/// The text of an I/O error, as the error itself words it.
#[verifier::external_body]
pub(crate) fn io_error_text(e: &std::io::Error) -> String {
    e.to_string()
}

impl ProtocolError {
    /// The error in words.
    pub fn message(&self) -> (text: String)
        ensures
            self is InvalidMagic ==> text@ == "Invalid magic bytes in header"@,
            self matches ProtocolError::UnsupportedVersion(v) ==> text@
                == "Unsupported protocol version: "@ + decimal(v as nat),
            self is FrameTooLarge ==> text@ == "Frame payload size exceeds maximum limit"@,
            self is ZeroLengthFrame ==> text@ == "Frame received with zero length payload"@,
            self is IntegrityCheckFailed ==> text@ == "CRC32 integrity check failed"@,
            self is Incomplete ==> text@ == "Incomplete frame data"@,
            self matches ProtocolError::SerializationError(why) ==> text@
                == "Protocol serialization error: "@ + why@,
            self is Io ==> "IO error: "@.is_prefix_of(text@),
    {
        match self {
            ProtocolError::InvalidMagic => String::from_str("Invalid magic bytes in header"),
            ProtocolError::UnsupportedVersion(v) => {
                let mut text = String::from_str("Unsupported protocol version: ");
                push_decimal(&mut text, *v as u64);
                text
            },
            ProtocolError::FrameTooLarge => String::from_str(
                "Frame payload size exceeds maximum limit",
            ),
            ProtocolError::ZeroLengthFrame => String::from_str(
                "Frame received with zero length payload",
            ),
            ProtocolError::IntegrityCheckFailed => String::from_str("CRC32 integrity check failed"),
            ProtocolError::Incomplete => String::from_str("Incomplete frame data"),
            ProtocolError::Io(e) => {
                let mut text = String::from_str("IO error: ");
                text.append(io_error_text(e).as_str());
                assert("IO error: "@.is_prefix_of(text@)) by {
                    assert(text@.subrange(0, "IO error: "@.len() as int) =~= "IO error: "@);
                }
                text
            },
            ProtocolError::SerializationError(why) => {
                let mut text = String::from_str("Protocol serialization error: ");
                text.append(why.as_str());
                text
            },
        }
    }
}

} // verus!
