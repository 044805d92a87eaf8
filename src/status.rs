use vstd::prelude::*;

verus! {

/// The standing that the record store gives a verification record, in its
/// "Owner Verification Status" field.
#[derive(Clone, Copy, Debug, PartialEq, Eq, Structural)]
pub enum KycApprovalStanding {
    Verified,
    Rejected,
    Pending,
    Expired,
    NotSubmitted,
}

/// The status that this library reports for an account.
#[derive(Clone, Copy, Debug, PartialEq, Eq, Structural)]
pub enum KycStatus {
    NotSubmitted,
    Pending,
    Rejected,
    Approved,
    Expired,
}

/// Why a status could not be resolved.
#[derive(Clone, Copy, Debug, PartialEq, Eq, Structural)]
pub enum KycError {
    /// The account identifier is not a valid NEAR account id.
    InvalidAccountId,
    /// The record store could not be reached, or did not answer with success.
    DatabaseError,
    /// The record store's answer does not have the expected shape.
    DeserializationError,
}

/// The status that a record of the given standing stands for.
pub open spec fn status_of(s: KycApprovalStanding) -> KycStatus {
    match s {
        KycApprovalStanding::Verified => KycStatus::Approved,
        KycApprovalStanding::Rejected => KycStatus::Rejected,
        KycApprovalStanding::Pending => KycStatus::Pending,
        KycApprovalStanding::Expired => KycStatus::Expired,
        KycApprovalStanding::NotSubmitted => KycStatus::NotSubmitted,
    }
}

/// How the record store writes a standing.
pub open spec fn standing_wire(s: KycApprovalStanding) -> Seq<char> {
    match s {
        KycApprovalStanding::Verified => "Verified"@,
        KycApprovalStanding::Rejected => "Rejected"@,
        KycApprovalStanding::Pending => "Pending"@,
        KycApprovalStanding::Expired => "Expired"@,
        KycApprovalStanding::NotSubmitted => "Not Submitted"@,
    }
}

/// The standing that the record store writes as `w`, if any.
pub open spec fn standing_from_wire(w: Seq<char>) -> Option<KycApprovalStanding> {
    if w == "Verified"@ {
        Some(KycApprovalStanding::Verified)
    } else if w == "Rejected"@ {
        Some(KycApprovalStanding::Rejected)
    } else if w == "Pending"@ {
        Some(KycApprovalStanding::Pending)
    } else if w == "Expired"@ {
        Some(KycApprovalStanding::Expired)
    } else if w == "Not Submitted"@ {
        Some(KycApprovalStanding::NotSubmitted)
    } else {
        None
    }
}

/// How a status is written in the service's answers.
pub open spec fn status_wire(s: KycStatus) -> Seq<char> {
    match s {
        KycStatus::NotSubmitted => "NOT_SUBMITTED"@,
        KycStatus::Pending => "PENDING"@,
        KycStatus::Rejected => "REJECTED"@,
        KycStatus::Approved => "APPROVED"@,
        KycStatus::Expired => "EXPIRED"@,
    }
}

/// The status written as `w` in the service's answers, if any.
pub open spec fn status_from_wire(w: Seq<char>) -> Option<KycStatus> {
    if w == "NOT_SUBMITTED"@ {
        Some(KycStatus::NotSubmitted)
    } else if w == "PENDING"@ {
        Some(KycStatus::Pending)
    } else if w == "REJECTED"@ {
        Some(KycStatus::Rejected)
    } else if w == "APPROVED"@ {
        Some(KycStatus::Approved)
    } else if w == "EXPIRED"@ {
        Some(KycStatus::Expired)
    } else {
        None
    }
}

proof fn lemma_standing_words_distinct()
    ensures
        "Verified"@ != "Rejected"@,
        "Verified"@ != "Pending"@,
        "Verified"@ != "Expired"@,
        "Verified"@ != "Not Submitted"@,
        "Rejected"@ != "Pending"@,
        "Rejected"@ != "Expired"@,
        "Rejected"@ != "Not Submitted"@,
        "Pending"@ != "Expired"@,
        "Pending"@ != "Not Submitted"@,
        "Expired"@ != "Not Submitted"@,
{
    reveal_strlit("Verified");
    reveal_strlit("Rejected");
    reveal_strlit("Pending");
    reveal_strlit("Expired");
    reveal_strlit("Not Submitted");
    assert("Verified"@[0] != "Rejected"@[0]);
    assert("Verified"@[0] != "Pending"@[0]);
    assert("Verified"@[0] != "Expired"@[0]);
    assert("Verified"@[0] != "Not Submitted"@[0]);
    assert("Rejected"@[0] != "Pending"@[0]);
    assert("Rejected"@[0] != "Expired"@[0]);
    assert("Rejected"@[0] != "Not Submitted"@[0]);
    assert("Pending"@[0] != "Expired"@[0]);
    assert("Pending"@[0] != "Not Submitted"@[0]);
    assert("Expired"@[0] != "Not Submitted"@[0]);
}

proof fn lemma_status_words_distinct()
    ensures
        "NOT_SUBMITTED"@ != "PENDING"@,
        "NOT_SUBMITTED"@ != "REJECTED"@,
        "NOT_SUBMITTED"@ != "APPROVED"@,
        "NOT_SUBMITTED"@ != "EXPIRED"@,
        "PENDING"@ != "REJECTED"@,
        "PENDING"@ != "APPROVED"@,
        "PENDING"@ != "EXPIRED"@,
        "REJECTED"@ != "APPROVED"@,
        "REJECTED"@ != "EXPIRED"@,
        "APPROVED"@ != "EXPIRED"@,
{
    reveal_strlit("NOT_SUBMITTED");
    reveal_strlit("PENDING");
    reveal_strlit("REJECTED");
    reveal_strlit("APPROVED");
    reveal_strlit("EXPIRED");
    assert("NOT_SUBMITTED"@[0] != "PENDING"@[0]);
    assert("NOT_SUBMITTED"@[0] != "REJECTED"@[0]);
    assert("NOT_SUBMITTED"@[0] != "APPROVED"@[0]);
    assert("NOT_SUBMITTED"@[0] != "EXPIRED"@[0]);
    assert("PENDING"@[0] != "REJECTED"@[0]);
    assert("PENDING"@[0] != "APPROVED"@[0]);
    assert("PENDING"@[0] != "EXPIRED"@[0]);
    assert("REJECTED"@[0] != "APPROVED"@[0]);
    assert("REJECTED"@[0] != "EXPIRED"@[0]);
    assert("APPROVED"@[0] != "EXPIRED"@[0]);
}

/// Every standing of the record store's vocabulary is read back as itself from
/// the word that stands for it, no two standings share a word, and no two
/// standings lead to the same status.
pub proof fn lemma_standing_vocabulary(a: KycApprovalStanding, b: KycApprovalStanding)
    ensures
        standing_from_wire(standing_wire(a)) == Some(a),
        standing_wire(a) == standing_wire(b) ==> a == b,
        status_of(a) == status_of(b) ==> a == b,
{
    lemma_standing_words_distinct();
}

/// Every status is read back as itself from the word that it is written as,
/// and no two statuses share a word.
pub proof fn lemma_status_vocabulary(a: KycStatus, b: KycStatus)
    ensures
        status_from_wire(status_wire(a)) == Some(a),
        status_wire(a) == status_wire(b) ==> a == b,
{
    lemma_status_words_distinct();
}

impl From<KycApprovalStanding> for KycStatus {
    fn from(approval_standing: KycApprovalStanding) -> (r: Self)
        ensures
            r == status_of(approval_standing),
    {
        match approval_standing {
            KycApprovalStanding::Verified => KycStatus::Approved,
            KycApprovalStanding::Rejected => KycStatus::Rejected,
            KycApprovalStanding::Pending => KycStatus::Pending,
            KycApprovalStanding::Expired => KycStatus::Expired,
            KycApprovalStanding::NotSubmitted => KycStatus::NotSubmitted,
        }
    }
}

impl vstd::std_specs::convert::FromSpecImpl<KycApprovalStanding> for KycStatus {
    open spec fn obeys_from_spec() -> bool {
        true
    }

    open spec fn from_spec(v: KycApprovalStanding) -> KycStatus {
        status_of(v)
    }
}

impl KycApprovalStanding {
    /// Reads a standing as the record store writes it; `None` for a word
    /// outside its vocabulary.
    pub fn parse(w: &String) -> (r: Option<KycApprovalStanding>)
        ensures
            r == standing_from_wire(w@),
    {
        if *w == String::from_str("Verified") {
            Some(KycApprovalStanding::Verified)
        } else if *w == String::from_str("Rejected") {
            Some(KycApprovalStanding::Rejected)
        } else if *w == String::from_str("Pending") {
            Some(KycApprovalStanding::Pending)
        } else if *w == String::from_str("Expired") {
            Some(KycApprovalStanding::Expired)
        } else if *w == String::from_str("Not Submitted") {
            Some(KycApprovalStanding::NotSubmitted)
        } else {
            None
        }
    }

    /// The word that the record store writes for this standing.
    pub fn wire_name(&self) -> (r: String)
        ensures
            r@ == standing_wire(*self),
    {
        match self {
            KycApprovalStanding::Verified => String::from_str("Verified"),
            KycApprovalStanding::Rejected => String::from_str("Rejected"),
            KycApprovalStanding::Pending => String::from_str("Pending"),
            KycApprovalStanding::Expired => String::from_str("Expired"),
            KycApprovalStanding::NotSubmitted => String::from_str("Not Submitted"),
        }
    }
}

impl KycStatus {
    /// The word that this status is written as in the service's answers.
    pub fn wire_name(&self) -> (r: String)
        ensures
            r@ == status_wire(*self),
    {
        match self {
            KycStatus::NotSubmitted => String::from_str("NOT_SUBMITTED"),
            KycStatus::Pending => String::from_str("PENDING"),
            KycStatus::Rejected => String::from_str("REJECTED"),
            KycStatus::Approved => String::from_str("APPROVED"),
            KycStatus::Expired => String::from_str("EXPIRED"),
        }
    }

    /// Reads a status as it is written in the service's answers.
    pub fn parse(w: &String) -> (r: Option<KycStatus>)
        ensures
            r == status_from_wire(w@),
    {
        if *w == String::from_str("NOT_SUBMITTED") {
            Some(KycStatus::NotSubmitted)
        } else if *w == String::from_str("PENDING") {
            Some(KycStatus::Pending)
        } else if *w == String::from_str("REJECTED") {
            Some(KycStatus::Rejected)
        } else if *w == String::from_str("APPROVED") {
            Some(KycStatus::Approved)
        } else if *w == String::from_str("EXPIRED") {
            Some(KycStatus::Expired)
        } else {
            None
        }
    }
}

impl KycError {
    /// The HTTP status code that the service answers with on this error:
    /// a client error for a bad account id, a server error otherwise.
    pub fn status_code(&self) -> (r: u16)
        ensures
            r == (if *self == KycError::InvalidAccountId { 400u16 } else { 500u16 }),
    {
        match self {
            KycError::InvalidAccountId => 400,
            KycError::DatabaseError => 500,
            KycError::DeserializationError => 500,
        }
    }

    /// The plain-text body that the service answers with on this error.
    pub fn message(&self) -> (r: String)
        ensures
            r@ == error_message(*self),
    {
        match self {
            KycError::InvalidAccountId => String::from_str("Invalid account id"),
            KycError::DatabaseError => String::from_str("Database error"),
            KycError::DeserializationError => String::from_str("Deserialization error"),
        }
    }
}

/// The plain-text body that the service answers with on an error.
pub open spec fn error_message(e: KycError) -> Seq<char> {
    match e {
        KycError::InvalidAccountId => "Invalid account id"@,
        KycError::DatabaseError => "Database error"@,
        KycError::DeserializationError => "Deserialization error"@,
    }
}

} // verus!
