//! The error taxonomy of the protocol client.
//!
//! Decoding errors are fatal to the current decode only; a timeout is not
//! represented here because in a collection window it is the normal
//! end-of-window signal.  `NoResponse` is the caller-visible escalation of
//! a window that closed without a single frame where one was required.

use vstd::prelude::*;

verus! {

#[derive(Clone, Copy, Debug, PartialEq, Eq, Structural)]
pub enum RmuError {
    /// The input buffer is shorter than a fixed-size field requires.
    MalformedBuffer,
    /// The decoded header's message code differs from the expected one.
    CodeMismatch { found: u16 },
    /// The header carries an error-response code; decoding those replies
    /// is a recognized but unimplemented path.
    UnsupportedErrorResponse { found: u16 },
    /// A register-operation entry's op-type nibble matches no variant.
    UnknownOpType { value: u8 },
    /// A register-operation entry's op-code bits match no variant.
    UnknownOpCode { value: u8 },
    /// A 16-bit message code that names no known message.
    UnknownMessageCode { code: u16 },
    /// The device answered fewer register operations than were requested.
    ShortResponse { expected: usize, got: usize },
    /// A response slot held a different operation than the request asked for.
    UnexpectedOp { index: usize },
    /// A collection window closed without any response where one was owed.
    NoResponse { device_id: u8 },
}

/// The payload of a protocol-level error response: the format and code
/// of the request being answered.  Decoding these replies is a
/// recognized but unimplemented path.
#[derive(Clone, Copy, Debug, PartialEq, Eq, Structural)]
pub struct ResponseError {
    pub request_format: u16,
    pub request_code: u16,
}

/// The payload of an extended protocol-level error response, which adds
/// a device-reported error code.
#[derive(Clone, Copy, Debug, PartialEq, Eq, Structural)]
pub struct ResponseErrorExt {
    pub request_format: u16,
    pub request_code: u16,
    pub error_code: u16,
}

} // verus!
