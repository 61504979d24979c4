//! Direct access to the stored admin.
use vstd::prelude::*;
use crate::escrow::{EscrowContract, EscrowModel};

verus! {

/// The stored admin, if any.
pub fn get_admin(contract: &EscrowContract) -> (r: Option<String>)
    ensures
        r.deep_view() == contract@.admin,
{
    match contract.require_admin() {
        Ok(a) => Some(a),
        Err(_) => None,
    }
}

/// Store `admin` as the admin, whatever was stored before.
pub fn set_admin(contract: &mut EscrowContract, admin: String)
    ensures
        final(contract)@ == (EscrowModel { admin: Some(admin@), ..old(contract)@ }),
        final(contract).staked_sum() == old(contract).staked_sum(),
{
    contract.admin = Some(admin);
}

} // verus!
