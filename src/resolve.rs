use vstd::prelude::*;

use crate::status::{status_of, KycApprovalStanding, KycStatus};

verus! {

/// A record whose standing marks it as the account's active verification.
pub open spec fn is_active(s: KycApprovalStanding) -> bool {
    s == KycApprovalStanding::Verified
}

/// Some record among `records` is active.
pub open spec fn some_active(records: Seq<KycApprovalStanding>) -> bool {
    exists|i: int| 0 <= i < records.len() && #[trigger] is_active(records[i])
}

/// The status given by the first record alone, when no record is active.
pub open spec fn first_record_decides(records: Seq<KycApprovalStanding>) -> KycStatus {
    if records.len() == 0 {
        KycStatus::NotSubmitted
    } else {
        status_of(records[0])
    }
}

/// The status of an account whose records, in the store's order, have the
/// standings `records`: an active record wins wherever it stands; else the
/// first record decides; with no record the account has not submitted.
pub open spec fn resolved_status(records: Seq<KycApprovalStanding>) -> KycStatus {
    if some_active(records) {
        status_of(KycApprovalStanding::Verified)
    } else {
        first_record_decides(records)
    }
}

/// Reduces the standings of an account's records, in the store's order, to
/// the account's status.
pub fn resolve_status(records: &Vec<KycApprovalStanding>) -> (r: KycStatus)
    ensures
        r == resolved_status(records@),
{
    let mut i: usize = 0;
    while i < records.len()
        invariant
            i <= records@.len(),
            forall|j: int| 0 <= j < i ==> !#[trigger] is_active(records@[j]),
        decreases records@.len() - i,
    {
        if records[i] == KycApprovalStanding::Verified {
            assert(is_active(records@[i as int]));
            return KycStatus::from(records[i]);
        }
        i = i + 1;
    }
    if records.len() == 0 {
        KycStatus::NotSubmitted
    } else {
        KycStatus::from(records[0])
    }
}

/// A record with the active standing decides the status, at whatever
/// position it stands, and the status is then approved.
pub proof fn lemma_active_record_wins(records: Seq<KycApprovalStanding>, i: int)
    requires
        0 <= i < records.len(),
        records[i] == KycApprovalStanding::Verified,
    ensures
        resolved_status(records) == status_of(records[i]),
        resolved_status(records) == KycStatus::Approved,
{
    assert(is_active(records[i]));
}

/// With no active record, the first record decides the status; an expired
/// standing on it gives an expired status.
pub proof fn lemma_first_record_decides(records: Seq<KycApprovalStanding>)
    requires
        records.len() > 0,
        forall|i: int| 0 <= i < records.len() ==> records[i] != KycApprovalStanding::Verified,
    ensures
        resolved_status(records) == status_of(records[0]),
        records[0] == KycApprovalStanding::Expired ==> resolved_status(records)
            == KycStatus::Expired,
{
    assert(!some_active(records));
}

} // verus!
