//! Share access right.

use vstd::prelude::*;
use crate::error::{ApiResult, Error};

verus! {

/// Share access right.
#[derive(Debug, Clone, PartialEq, Eq, PartialOrd, Ord)]
pub enum AccessRight {
    /// The owner of the share has full control over it. The remote API
    /// documents no other access right, so every value reads as this one.
    FullControl,
}

impl AccessRight {
    /// Read an access right from a JSON value. Every value yields
    /// `FullControl`, the only right the remote API is known to report.
    pub fn from_json(_value: serde_json::Value) -> (r: ApiResult<AccessRight>)
        ensures
            r == Ok::<AccessRight, Error>(AccessRight::FullControl),
    {
        Ok(AccessRight::FullControl)
    }

    /// Whether the access right is full control.
    pub fn is_full_control(&self) -> (r: bool)
        ensures
            r == true,
    {
        true
    }
}

} // verus!
