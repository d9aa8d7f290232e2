//! The message envelope: binding a buffer to a payload type by its
//! 16-bit message code.
//!
//! The header's code field (bytes 26–27 in both directions) must equal
//! the payload type's declared code before the payload is decoded.  A
//! code naming one of the protocol's error responses is a recognized but
//! unimplemented path and is reported as such rather than as a generic
//! mismatch.

use vstd::prelude::*;

use crate::error::RmuError;
use crate::message_code::MessageCode;
use crate::messages::{
    parses_as_customer_info_response, parses_as_fw_version_response, parses_as_register_response,
    parses_as_version_read_response, spec_first_nul, CustomerInfoReadResponse, FwVersionResponse,
    RegisterResponse, VersionReadResponse,
};
use crate::regop::{spec_parse_response_list, RegOpResponse};
use crate::wire::{read_be16, spec_be16};

verus! {

/// The outcome of holding the code found in a buffer against the code a
/// payload type declares.
pub open spec fn spec_code_check(b: Seq<u8>, expected: u16) -> Result<(), RmuError> {
    if b.len() < 28 {
        Err(RmuError::MalformedBuffer)
    } else {
        let found = spec_be16(b[26], b[27]);
        if found == expected {
            Ok(())
        } else if found == 0xFFFF || found == 0xFFFE {
            Err(RmuError::UnsupportedErrorResponse { found })
        } else {
            Err(RmuError::CodeMismatch { found })
        }
    }
}

/// Hold a decoded message code against the expected one.
pub fn validate_code(found: u16, expected: MessageCode) -> (r: Result<(), RmuError>)
    ensures
        r == (if found == expected.spec_value() {
            Ok::<(), RmuError>(())
        } else if found == 0xFFFF || found == 0xFFFE {
            Err::<(), RmuError>(RmuError::UnsupportedErrorResponse { found })
        } else {
            Err::<(), RmuError>(RmuError::CodeMismatch { found })
        }),
{
    if found == expected.value() {
        Ok(())
    } else if found == 0xFFFF || found == 0xFFFE {
        Err(RmuError::UnsupportedErrorResponse { found })
    } else {
        Err(RmuError::CodeMismatch { found })
    }
}

/// The 16-bit message code carried in a frame's header.
pub fn message_code_of(buffer: &[u8]) -> (r: Result<u16, RmuError>)
    ensures
        match r {
            Ok(c) => buffer@.len() >= 28 && c == spec_be16(buffer@[26], buffer@[27]),
            Err(e) => buffer@.len() < 28 && e == RmuError::MalformedBuffer,
        },
{
    if buffer.len() < 28 {
        return Err(RmuError::MalformedBuffer);
    }
    Ok(read_be16(buffer, 26))
}

/// Decode a register response after validating that the buffer's code
/// names the register-access message.
pub fn unmarshal_register_response(buffer: &[u8]) -> (r: Result<RegisterResponse, RmuError>)
    ensures
        match r {
            Ok(m) => spec_code_check(buffer@, 0x2000) == Ok::<(), RmuError>(())
                && parses_as_register_response(buffer@, m),
            Err(e) => spec_code_check(buffer@, 0x2000) == Err::<(), RmuError>(e) || (
            spec_code_check(buffer@, 0x2000) == Ok::<(), RmuError>(()) && spec_parse_response_list(
                buffer@.skip(28),
            ) == Err::<Seq<RegOpResponse>, RmuError>(e)),
        },
{
    let found = match message_code_of(buffer) {
        Ok(c) => c,
        Err(e) => {
            return Err(e);
        },
    };
    match validate_code(found, MessageCode::RwRegister) {
        Ok(_) => RegisterResponse::unmarshal(buffer),
        Err(e) => Err(e),
    }
}

/// Decode a version-read response after validating the buffer's code.
pub fn unmarshal_version_read_response(buffer: &[u8]) -> (r: Result<VersionReadResponse, RmuError>)
    ensures
        match r {
            Ok(m) => spec_code_check(buffer@, 0xF270) == Ok::<(), RmuError>(()) && buffer@.len()
                >= 32 && parses_as_version_read_response(buffer@, m),
            Err(e) => spec_code_check(buffer@, 0xF270) == Err::<(), RmuError>(e) || (
            spec_code_check(buffer@, 0xF270) == Ok::<(), RmuError>(()) && buffer@.len() < 32 && e
                == RmuError::MalformedBuffer),
        },
{
    let found = match message_code_of(buffer) {
        Ok(c) => c,
        Err(e) => {
            return Err(e);
        },
    };
    match validate_code(found, MessageCode::VersionRead) {
        Ok(_) => VersionReadResponse::unmarshal(buffer),
        Err(e) => Err(e),
    }
}

/// Decode a customer-info response after validating the buffer's code.
pub fn unmarshal_customer_info_read_response(buffer: &[u8]) -> (r: Result<
    CustomerInfoReadResponse,
    RmuError,
>)
    ensures
        match r {
            Ok(m) => spec_code_check(buffer@, 0xF278) == Ok::<(), RmuError>(())
                && parses_as_customer_info_response(buffer@, m),
            Err(e) => spec_code_check(buffer@, 0xF278) == Err::<(), RmuError>(e) || (
            spec_code_check(buffer@, 0xF278) == Ok::<(), RmuError>(()) && spec_first_nul(
                buffer@.skip(28),
            ) is None && e == RmuError::MalformedBuffer),
        },
{
    let found = match message_code_of(buffer) {
        Ok(c) => c,
        Err(e) => {
            return Err(e);
        },
    };
    match validate_code(found, MessageCode::CustomerInfoRead) {
        Ok(_) => CustomerInfoReadResponse::unmarshal(buffer),
        Err(e) => Err(e),
    }
}

/// Decode a firmware-version response after validating the buffer's
/// code.
pub fn unmarshal_fw_version_response(buffer: &[u8]) -> (r: Result<FwVersionResponse, RmuError>)
    ensures
        match r {
            Ok(m) => spec_code_check(buffer@, 0xF293) == Ok::<(), RmuError>(()) && buffer@.len()
                >= 290 && parses_as_fw_version_response(buffer@, m),
            Err(e) => spec_code_check(buffer@, 0xF293) == Err::<(), RmuError>(e) || (
            spec_code_check(buffer@, 0xF293) == Ok::<(), RmuError>(()) && buffer@.len() < 290 && e
                == RmuError::MalformedBuffer),
        },
{
    let found = match message_code_of(buffer) {
        Ok(c) => c,
        Err(e) => {
            return Err(e);
        },
    };
    match validate_code(found, MessageCode::FwVersionGet) {
        Ok(_) => FwVersionResponse::unmarshal(buffer),
        Err(e) => Err(e),
    }
}

} // verus!
