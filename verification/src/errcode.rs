//! Error codes of a small shop protocol, convertible from their wire
//! byte.

use vstd::prelude::*;

verus! {

/// The error conditions the protocol can report.
#[derive(Clone, Copy, Debug, PartialEq, Eq, Structural)]
pub enum ErrorCode {
    ItsRainingEggs,
    ShopIsClosed,
    CartIsEmpty,
    BadCreditCard,
}

/// The wire byte of each error condition.
pub open spec fn code_byte(e: ErrorCode) -> u8 {
    match e {
        ErrorCode::ItsRainingEggs => 0xA0,
        ErrorCode::ShopIsClosed => 0x1F,
        ErrorCode::CartIsEmpty => 0x10,
        ErrorCode::BadCreditCard => 0x04,
    }
}

impl ErrorCode {
    /// Decode a wire byte: succeeds exactly on the four known codes and
    /// returns the condition whose wire byte it is.
    pub fn try_from(code: u8) -> (r: Result<ErrorCode, &'static str>)
        ensures
            r matches Ok(e) ==> code_byte(e) == code,
            r is Err <==> !(code == 0xA0 || code == 0x1F || code == 0x10 || code == 0x04),
            r matches Err(m) ==> m@ == "Unknown error code"@,
    {
        match code {
            0xA0 => Ok(ErrorCode::ItsRainingEggs),
            0x1F => Ok(ErrorCode::ShopIsClosed),
            0x10 => Ok(ErrorCode::CartIsEmpty),
            0x04 => Ok(ErrorCode::BadCreditCard),
            _ => Err("Unknown error code"),
        }
    }

    /// The wire byte of this error condition.
    pub fn code(&self) -> (r: u8)
        ensures
            r == code_byte(*self),
    {
        match self {
            ErrorCode::ItsRainingEggs => 0xA0,
            ErrorCode::ShopIsClosed => 0x1F,
            ErrorCode::CartIsEmpty => 0x10,
            ErrorCode::BadCreditCard => 0x04,
        }
    }
}

} // verus!
