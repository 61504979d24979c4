//! Stored dispute evidence, by dispute id.
use vstd::prelude::*;
use crate::assoc::AssocList;

verus! {

#[derive(Clone, Copy, Debug, PartialEq, Eq, Structural)]
pub enum EvidenceError {
    /// No evidence is stored under that dispute id.
    EvidenceNotFound,
}

pub struct DisputeEvidence {
    pub dispute_id: String,
    pub match_id: String,
    pub challenger: String,
    pub evidence_type: String,
    pub evidence_data: String,
    pub timestamp: u64,
    pub resolved: bool,
}

pub struct DisputeEvidenceView {
    pub dispute_id: Seq<char>,
    pub match_id: Seq<char>,
    pub challenger: Seq<char>,
    pub evidence_type: Seq<char>,
    pub evidence_data: Seq<char>,
    pub timestamp: u64,
    pub resolved: bool,
}

impl DeepView for DisputeEvidence {
    type V = DisputeEvidenceView;

    open spec fn deep_view(&self) -> DisputeEvidenceView {
        DisputeEvidenceView {
            dispute_id: self.dispute_id@,
            match_id: self.match_id@,
            challenger: self.challenger@,
            evidence_type: self.evidence_type@,
            evidence_data: self.evidence_data@,
            timestamp: self.timestamp,
            resolved: self.resolved,
        }
    }
}

impl DisputeEvidence {
    /// A copy of the evidence record.
    pub fn duplicate(&self) -> (r: Self)
        ensures
            r.deep_view() == self.deep_view(),
    {
        DisputeEvidence {
            dispute_id: self.dispute_id.clone(),
            match_id: self.match_id.clone(),
            challenger: self.challenger.clone(),
            evidence_type: self.evidence_type.clone(),
            evidence_data: self.evidence_data.clone(),
            timestamp: self.timestamp,
            resolved: self.resolved,
        }
    }
}

/// The stored evidence records, by dispute id.
pub struct EvidenceStore {
    pub entries: AssocList<String, DisputeEvidence>,
}

/// Store unresolved evidence under `dispute_id`, taken at time `now`,
/// replacing what was stored there.
pub fn store_dispute_evidence(
    store: &mut EvidenceStore,
    dispute_id: &str,
    match_id: &str,
    challenger: String,
    evidence_type: &str,
    evidence_data: &str,
    now: u64,
) -> (r: Result<(), EvidenceError>)
    ensures
        r is Ok,
        final(store).entries.map() == old(store).entries.map().insert(
            dispute_id@,
            DisputeEvidenceView {
                dispute_id: dispute_id@,
                match_id: match_id@,
                challenger: challenger@,
                evidence_type: evidence_type@,
                evidence_data: evidence_data@,
                timestamp: now,
                resolved: false,
            },
        ),
{
    let evidence = DisputeEvidence {
        dispute_id: String::from_str(dispute_id),
        match_id: String::from_str(match_id),
        challenger,
        evidence_type: String::from_str(evidence_type),
        evidence_data: String::from_str(evidence_data),
        timestamp: now,
        resolved: false,
    };
    store.entries.insert(String::from_str(dispute_id), evidence);
    Ok(())
}

/// The evidence stored under `dispute_id`.
pub fn retrieve_dispute_evidence(store: &EvidenceStore, dispute_id: &str) -> (r: Result<
    DisputeEvidence,
    EvidenceError,
>)
    ensures
        !store.entries.map().contains_key(dispute_id@) ==> r is Err && r->Err_0
            == EvidenceError::EvidenceNotFound,
        store.entries.map().contains_key(dispute_id@) ==> r is Ok && r->Ok_0.deep_view()
            == store.entries.map()[dispute_id@],
{
    match store.entries.get(&String::from_str(dispute_id)) {
        Some(e) => Ok(e.duplicate()),
        None => Err(EvidenceError::EvidenceNotFound),
    }
}

/// Mark the evidence stored under `dispute_id` as resolved.
pub fn mark_dispute_resolved(store: &mut EvidenceStore, dispute_id: &str, resolution: &str) -> (r: Result<
    (),
    EvidenceError,
>)
    ensures
        !old(store).entries.map().contains_key(dispute_id@) ==> r == Err::<(), EvidenceError>(
            EvidenceError::EvidenceNotFound,
        ) && final(store).entries.map() == old(store).entries.map(),
        old(store).entries.map().contains_key(dispute_id@) ==> r is Ok && final(store).entries.map()
            == old(store).entries.map().insert(
            dispute_id@,
            DisputeEvidenceView { resolved: true, ..old(store).entries.map()[dispute_id@] },
        ),
{
    let mut evidence = retrieve_dispute_evidence(store, dispute_id)?;
    evidence.resolved = true;
    store.entries.insert(String::from_str(dispute_id), evidence);
    Ok(())
}

/// The evidence of a match: no index of evidence by match is kept, so the
/// list is empty.
pub fn get_dispute_evidence_for_match(store: &EvidenceStore, match_id: &str) -> (r: Result<
    Vec<DisputeEvidence>,
    EvidenceError,
>)
    ensures
        r is Ok && r->Ok_0.len() == 0,
{
    let disputes: Vec<DisputeEvidence> = Vec::new();
    Ok(disputes)
}

/// Stored evidence reads back as stored and unresolved; marking it resolved
/// changes nothing else about it.
pub proof fn law_store_then_retrieve(
    before: Map<Seq<char>, DisputeEvidenceView>,
    dispute_id: Seq<char>,
    evidence: DisputeEvidenceView,
)
    requires
        !evidence.resolved,
    ensures
        before.insert(dispute_id, evidence).contains_key(dispute_id),
        before.insert(dispute_id, evidence)[dispute_id] == evidence,
        before.insert(dispute_id, evidence).insert(
            dispute_id,
            DisputeEvidenceView { resolved: true, ..before.insert(dispute_id, evidence)[dispute_id] },
        )[dispute_id] == (DisputeEvidenceView { resolved: true, ..evidence }),
{
}

} // verus!
