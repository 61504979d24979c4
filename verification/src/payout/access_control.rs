//! Role-based access: an admin, a fee collector and an arbiter; the admin
//! hands roles over.
use vstd::prelude::*;

verus! {

pub struct AdminRole {
    pub admin: String,
    pub fee_collector: String,
    pub arbiter: String,
}

#[derive(Clone, Copy, Debug, PartialEq, Eq, Structural)]
pub enum AccessLevel {
    Admin,
    FeeCollector,
    Arbiter,
    NoAccess,
}

#[derive(Clone, Copy, Debug, PartialEq, Eq, Structural)]
pub enum AccessError {
    /// No admin is stored.
    NoAdmin,
    /// No fee collector is stored.
    NoCollector,
    /// No arbiter is stored.
    NoArbiter,
    /// The caller does not hold the role.
    Unauthorized,
}

/// The stored holders of the three roles.
pub struct RoleStore {
    pub admin: Option<String>,
    pub fee_collector: Option<String>,
    pub arbiter: Option<String>,
}

/// `caller` holds the role stored as `holder`; `missing` is the error when none is stored.
pub open spec fn role_check(holder: Option<String>, caller: Seq<char>, missing: AccessError) -> Result<
    (),
    AccessError,
> {
    match holder {
        None => Err(missing),
        Some(h) => if h@ != caller {
            Err(AccessError::Unauthorized)
        } else {
            Ok(())
        },
    }
}

fn check_role(holder: &Option<String>, caller: &String, missing: AccessError) -> (r: Result<(), AccessError>)
    ensures
        r == role_check(*holder, caller@, missing),
{
    match holder {
        None => Err(missing),
        Some(h) => if !(*h == *caller) {
            Err(AccessError::Unauthorized)
        } else {
            Ok(())
        },
    }
}

/// `caller` is the stored admin.
pub fn check_admin_access(store: &RoleStore, caller: &String) -> (r: Result<(), AccessError>)
    ensures
        r == role_check(store.admin, caller@, AccessError::NoAdmin),
{
    check_role(&store.admin, caller, AccessError::NoAdmin)
}

/// `caller` is the stored fee collector.
pub fn check_fee_collector_access(store: &RoleStore, caller: &String) -> (r: Result<(), AccessError>)
    ensures
        r == role_check(store.fee_collector, caller@, AccessError::NoCollector),
{
    check_role(&store.fee_collector, caller, AccessError::NoCollector)
}

/// `caller` is the stored arbiter.
pub fn check_arbiter_access(store: &RoleStore, caller: &String) -> (r: Result<(), AccessError>)
    ensures
        r == role_check(store.arbiter, caller@, AccessError::NoArbiter),
{
    check_role(&store.arbiter, caller, AccessError::NoArbiter)
}

/// The highest role `caller` holds: admin before fee collector before arbiter.
pub open spec fn access_level(store: &RoleStore, caller: Seq<char>) -> AccessLevel {
    if role_check(store.admin, caller, AccessError::NoAdmin) is Ok {
        AccessLevel::Admin
    } else if role_check(store.fee_collector, caller, AccessError::NoCollector) is Ok {
        AccessLevel::FeeCollector
    } else if role_check(store.arbiter, caller, AccessError::NoArbiter) is Ok {
        AccessLevel::Arbiter
    } else {
        AccessLevel::NoAccess
    }
}

/// The highest role `caller` holds.
pub fn get_access_level(store: &RoleStore, caller: &String) -> (r: AccessLevel)
    ensures
        r == access_level(store, caller@),
{
    if check_admin_access(store, caller).is_ok() {
        return AccessLevel::Admin;
    }
    if check_fee_collector_access(store, caller).is_ok() {
        return AccessLevel::FeeCollector;
    }
    if check_arbiter_access(store, caller).is_ok() {
        return AccessLevel::Arbiter;
    }
    AccessLevel::NoAccess
}

/// Hand the admin role to `new_admin` (admin `caller` only).
pub fn transfer_admin_role(store: &mut RoleStore, caller: &String, new_admin: String) -> (r: Result<(), AccessError>)
    ensures
        r == role_check(old(store).admin, caller@, AccessError::NoAdmin),
        r is Ok ==> final(store).admin == Some(new_admin),
        r is Err ==> final(store).admin == old(store).admin,
        final(store).fee_collector == old(store).fee_collector,
        final(store).arbiter == old(store).arbiter,
{
    check_admin_access(store, caller)?;
    store.admin = Some(new_admin);
    Ok(())
}

/// Replace the fee collector (admin `caller` only).
pub fn set_fee_collector(store: &mut RoleStore, caller: &String, new_collector: String) -> (r: Result<
    (),
    AccessError,
>)
    ensures
        r == role_check(old(store).admin, caller@, AccessError::NoAdmin),
        r is Ok ==> final(store).fee_collector == Some(new_collector),
        r is Err ==> final(store).fee_collector == old(store).fee_collector,
        final(store).admin == old(store).admin,
        final(store).arbiter == old(store).arbiter,
{
    check_admin_access(store, caller)?;
    store.fee_collector = Some(new_collector);
    Ok(())
}

/// Replace the arbiter (admin `caller` only).
pub fn set_arbiter(store: &mut RoleStore, caller: &String, new_arbiter: String) -> (r: Result<(), AccessError>)
    ensures
        r == role_check(old(store).admin, caller@, AccessError::NoAdmin),
        r is Ok ==> final(store).arbiter == Some(new_arbiter),
        r is Err ==> final(store).arbiter == old(store).arbiter,
        final(store).admin == old(store).admin,
        final(store).fee_collector == old(store).fee_collector,
{
    check_admin_access(store, caller)?;
    store.arbiter = Some(new_arbiter);
    Ok(())
}

} // verus!
