//! Events of the resolver contract.
use vstd::prelude::*;

verus! {

pub enum ResolverEvent {
    ResultSubmitted { match_id: String, winner: String, reason: String },
    DisputeFiled { match_id: String, challenger: String },
    ResultFinalized { match_id: String, status: String },
}

} // verus!
