//! The errors with which the gateway refuses a call.
//!
//! All three are terminal for the call: no request is built and nothing is
//! dispatched once one of them is returned.

use vstd::prelude::*;

verus! {

/// Why a signing call was refused before any request was dispatched.
#[derive(Clone, Copy, Debug, PartialEq, Eq, Structural)]
pub enum SignError {
    /// The payload is not a valid hexadecimal string.
    DecodeError,
    /// A non-owner caller submitted a payload outside the public whitelist.
    AuthorizationError,
    /// A non-owner caller attached less than the required fee.
    PaymentError,
}

impl SignError {
    /// The human-readable reason reported to the caller.
    pub fn message(&self) -> (m: String)
        ensures
            *self == SignError::DecodeError ==> m@ == "invalid hex payload"@,
            *self == SignError::AuthorizationError ==> m@
                == "only contract owner can sign arbitrary EVM transactions"@,
            *self == SignError::PaymentError ==> m@ == "pay the piper"@,
    {
        match self {
            SignError::DecodeError => "invalid hex payload".to_owned(),
            SignError::AuthorizationError => {
                "only contract owner can sign arbitrary EVM transactions".to_owned()
            },
            SignError::PaymentError => "pay the piper".to_owned(),
        }
    }
}

} // verus!
