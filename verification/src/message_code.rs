//! The 16-bit message codes that tag each request and response, and the
//! mapping between codes and the closed set of known message kinds.

use vstd::prelude::*;

use crate::error::RmuError;

verus! {

#[derive(Clone, Copy, Debug, PartialEq, Eq, Structural)]
pub enum MessageCode {
    GetId,
    RwRegister,
    VersionRead,
    CustomerInfoRead,
    FwVersionGet,
    ErrorResponseEx,
    ErrorResponse,
}

impl MessageCode {
    /// The wire value of this message code.
    pub open spec fn spec_value(self) -> u16 {
        match self {
            MessageCode::GetId => 0x0000,
            MessageCode::RwRegister => 0x2000,
            MessageCode::VersionRead => 0xF270,
            MessageCode::CustomerInfoRead => 0xF278,
            MessageCode::FwVersionGet => 0xF293,
            MessageCode::ErrorResponseEx => 0xFFFE,
            MessageCode::ErrorResponse => 0xFFFF,
        }
    }

    /// The wire value of this message code.
    pub fn value(self) -> (v: u16)
        ensures
            v == self.spec_value(),
    {
        match self {
            MessageCode::GetId => 0x0000,
            MessageCode::RwRegister => 0x2000,
            MessageCode::VersionRead => 0xF270,
            MessageCode::CustomerInfoRead => 0xF278,
            MessageCode::FwVersionGet => 0xF293,
            MessageCode::ErrorResponseEx => 0xFFFE,
            MessageCode::ErrorResponse => 0xFFFF,
        }
    }

    /// Whether `value` is the wire value of some known message code.
    pub open spec fn spec_is_known(value: u16) -> bool {
        value == 0x0000 || value == 0x2000 || value == 0xF270 || value == 0xF278 || value
            == 0xF293 || value == 0xFFFE || value == 0xFFFF
    }

    /// Decode a 16-bit wire value into a message code.
    pub fn from_u16(value: u16) -> (r: Result<MessageCode, RmuError>)
        ensures
            match r {
                Ok(c) => MessageCode::spec_is_known(value) && c.spec_value() == value,
                Err(e) => !MessageCode::spec_is_known(value) && e == (RmuError::UnknownMessageCode { code: value }),
            },
    {
        match value {
            0x0000 => Ok(MessageCode::GetId),
            0x2000 => Ok(MessageCode::RwRegister),
            0xF270 => Ok(MessageCode::VersionRead),
            0xF278 => Ok(MessageCode::CustomerInfoRead),
            0xF293 => Ok(MessageCode::FwVersionGet),
            0xFFFE => Ok(MessageCode::ErrorResponseEx),
            0xFFFF => Ok(MessageCode::ErrorResponse),
            _ => Err(RmuError::UnknownMessageCode { code: value }),
        }
    }
}

} // verus!
