//! Result submissions with a signature: each match's result is accepted once,
//! and the verified (winner, loser) pair is stored.
use vstd::prelude::*;
use crate::assoc::AssocList;

verus! {

/// Length of a signature, in bytes.
pub const SIGNATURE_LEN: usize = 64;

#[derive(Clone, Copy, Debug, PartialEq, Eq, Structural)]
pub enum SignatureError {
    /// The signature is not 64 bytes long.
    InvalidSig,
    /// A result was already submitted for the match.
    AlreadySubmitted,
    /// No result is stored for the match.
    ResultNotFound,
}

pub struct SignedResult {
    pub result_id: String,
    pub match_id: String,
    pub winner: String,
    pub loser: String,
    pub signature: Vec<u8>,
    pub submitter: String,
    pub timestamp: u64,
}

/// What submissions work on: which matches have a submitted result, and the
/// stored (winner, loser) of each match.
pub struct ResultRecords {
    pub submitted: AssocList<String, bool>,
    pub match_results: AssocList<String, (String, String)>,
}

/// The message a result signature covers: "result:<match>:<winner>:<loser>".
pub open spec fn result_message(match_id: Seq<char>, winner: Seq<char>, loser: Seq<char>) -> Seq<char> {
    "result:"@ + match_id + ":"@ + winner + ":"@ + loser
}

/// Accept a signature of `message` by `signer` when it is 64 bytes long.
pub fn verify_signature(message: &String, signature: &Vec<u8>, signer: &String) -> (r: Result<bool, SignatureError>)
    ensures
        signature.len() != SIGNATURE_LEN ==> r == Err::<bool, SignatureError>(SignatureError::InvalidSig),
        signature.len() == SIGNATURE_LEN ==> r == Ok::<bool, SignatureError>(true),
{
    if signature.len() != SIGNATURE_LEN {
        return Err(SignatureError::InvalidSig);
    }
    Ok(true)
}

/// Accept the signed result of `match_id` once. The submitter must authorise
/// the call.
pub fn validate_result_submission(
    records: &mut ResultRecords,
    match_id: &str,
    winner: &String,
    loser: &String,
    signature: &Vec<u8>,
    submitter: &String,
) -> (r: Result<(), SignatureError>)
    ensures
        signature.len() != SIGNATURE_LEN ==> r == Err::<(), SignatureError>(SignatureError::InvalidSig),
        signature.len() == SIGNATURE_LEN && old(records).submitted.map().contains_key(match_id@) ==> r == Err::<
            (),
            SignatureError,
        >(SignatureError::AlreadySubmitted),
        signature.len() == SIGNATURE_LEN && !old(records).submitted.map().contains_key(match_id@) ==> r is Ok,
        r is Ok ==> final(records).submitted.map() == old(records).submitted.map().insert(match_id@, true),
        r is Err ==> final(records).submitted.map() == old(records).submitted.map(),
        final(records).match_results.map() == old(records).match_results.map(),
{
    let mut message = String::from_str("result:");
    message.append(match_id);
    message.append(":");
    message.append(winner.as_str());
    message.append(":");
    message.append(loser.as_str());
    assert(message@ == result_message(match_id@, winner@, loser@));
    verify_signature(&message, signature, submitter)?;
    let key = String::from_str(match_id);
    if records.submitted.contains(&key) {
        return Err(SignatureError::AlreadySubmitted);
    }
    records.submitted.insert(key, true);
    Ok(())
}

/// The stored (winner, loser) of `match_id`.
pub fn get_result_for_match(records: &ResultRecords, match_id: &str) -> (r: Result<(String, String), SignatureError>)
    ensures
        !records.match_results.map().contains_key(match_id@) ==> r is Err && r->Err_0
            == SignatureError::ResultNotFound,
        records.match_results.map().contains_key(match_id@) ==> r is Ok && (r->Ok_0.0@, r->Ok_0.1@)
            == records.match_results.map()[match_id@],
{
    match records.match_results.get(&String::from_str(match_id)) {
        Some(pair) => Ok((pair.0.clone(), pair.1.clone())),
        None => Err(SignatureError::ResultNotFound),
    }
}

/// Store (winner, loser) as the result of `match_id`, replacing what was stored.
pub fn store_verified_result(records: &mut ResultRecords, match_id: &str, winner: String, loser: String) -> (r:
    Result<(), SignatureError>)
    ensures
        r is Ok,
        final(records).match_results.map() == old(records).match_results.map().insert(
            match_id@,
            (winner@, loser@),
        ),
        final(records).submitted.map() == old(records).submitted.map(),
{
    records.match_results.insert(String::from_str(match_id), (winner, loser));
    Ok(())
}

} // verus!
