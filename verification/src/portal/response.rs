//! Portal response codes, as the xdg-desktop-portal specification defines them.

use vstd::prelude::*;
use crate::types::error::Error;

verus! {

/// Portal response code.
#[derive(Clone, Copy, Debug, PartialEq, Eq, Structural)]
pub enum ResponseCode {
    /// Success (0).
    Success,
    /// The user cancelled (1).
    Cancelled,
    /// Any other failure (2).
    Other,
}

/// The wire value of a response code.
pub open spec fn response_value(c: ResponseCode) -> u32 {
    match c {
        ResponseCode::Success => 0,
        ResponseCode::Cancelled => 1,
        ResponseCode::Other => 2,
    }
}

impl ResponseCode {
    /// The wire value: Success = 0, Cancelled = 1, Other = 2.
    pub fn as_u32(self) -> (r: u32)
        ensures
            r == response_value(self),
    {
        match self {
            ResponseCode::Success => 0,
            ResponseCode::Cancelled => 1,
            ResponseCode::Other => 2,
        }
    }

    /// The code a portal method answers with: `Success` for a successful
    /// operation, `Other` for a failed one.
    pub fn for_result<T>(r: &Result<T, Error>) -> (c: ResponseCode)
        ensures
            c == (if r is Ok {
                ResponseCode::Success
            } else {
                ResponseCode::Other
            }),
    {
        match r {
            Ok(_) => ResponseCode::Success,
            Err(_) => ResponseCode::Other,
        }
    }
}

} // verus!
