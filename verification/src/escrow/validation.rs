//! Input checks.
use vstd::prelude::*;

verus! {

/// An address is valid when its text is not empty.
pub fn validate_address(addr: &String) -> (r: bool)
    ensures
        r == (addr@.len() > 0),
{
    !addr.as_str().is_empty()
}

/// A match id is valid when its text is not empty.
pub fn validate_match_id(match_id: &String) -> (r: bool)
    ensures
        r == (match_id@.len() > 0),
{
    !match_id.as_str().is_empty()
}

/// An amount is valid when it is positive.
pub fn validate_amount(amount: u128) -> (r: bool)
    ensures
        r == (amount > 0),
{
    amount > 0
}

} // verus!
