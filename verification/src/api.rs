//! REST API entities.

use vstd::prelude::*;

pub mod items;
pub mod multi_option;
pub mod shares;
pub mod users;

pub use multi_option::MultiOption;

verus! {

/// Render a boolean as the query-parameter strings `"true"` / `"false"`.
pub fn bool_to_string(v: bool) -> (r: String)
    ensures
        v ==> r@ == "true"@,
        !v ==> r@ == "false"@,
{
    if v {
        String::from_str("true")
    } else {
        String::from_str("false")
    }
}

} // verus!
