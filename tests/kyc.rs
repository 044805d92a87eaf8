use kyc_status::{
    kyc_response, AccountId, KycApprovalStanding, KycError, KycResolver, KycStatus, UpstreamReply,
};

fn account(s: &str) -> AccountId {
    match AccountId::parse(s) {
        Ok(a) => a,
        Err(_) => panic!("expected a valid account id: {}", s),
    }
}

fn answered(words: &[&str]) -> UpstreamReply {
    UpstreamReply::Answered {
        status: 200,
        standings: Some(words.iter().map(|w| w.to_string()).collect()),
    }
}

fn status_for(words: &[&str]) -> KycStatus {
    let acc = account("petersalomonsen.near");
    match kyc_response(&acc, &answered(words)) {
        Ok(resp) => {
            assert_eq!(resp.account_id, "petersalomonsen.near");
            resp.kyc_status
        }
        Err(e) => panic!("unexpected error {:?}", e),
    }
}

fn error_for(reply: UpstreamReply) -> KycError {
    let acc = account("alice.near");
    match kyc_response(&acc, &reply) {
        Ok(resp) => panic!("unexpected status {:?}", resp.kyc_status),
        Err(e) => e,
    }
}

#[test]
fn empty_records_are_not_submitted() {
    let status = status_for(&[]);
    assert_eq!(status, KycStatus::NotSubmitted);
    assert_eq!(status.wire_name(), "NOT_SUBMITTED");
}

#[test]
fn single_verified_record_is_approved() {
    let status = status_for(&["Verified"]);
    assert_eq!(status, KycStatus::Approved);
    assert_eq!(status.wire_name(), "APPROVED");
}

#[test]
fn active_record_wins_over_earlier_pending_one() {
    assert_eq!(status_for(&["Pending", "Verified"]), KycStatus::Approved);
}

#[test]
fn active_record_wins_in_last_position() {
    assert_eq!(
        status_for(&["Rejected", "Expired", "Pending", "Not Submitted", "Verified"]),
        KycStatus::Approved
    );
}

#[test]
fn first_record_decides_without_active_one() {
    assert_eq!(status_for(&["Rejected", "Pending"]), KycStatus::Rejected);
    assert_eq!(status_for(&["Pending", "Rejected"]), KycStatus::Pending);
    assert_eq!(status_for(&["Not Submitted", "Expired"]), KycStatus::NotSubmitted);
}

#[test]
fn expired_first_record_gives_expired() {
    assert_eq!(status_for(&["Expired", "Pending"]), KycStatus::Expired);
}

#[test]
fn unreachable_store_is_database_error() {
    let e = error_for(UpstreamReply::Unreachable);
    assert_eq!(e, KycError::DatabaseError);
    assert_eq!(e.status_code(), 500);
    assert_eq!(e.message(), "Database error");
}

#[test]
fn failed_status_is_database_error() {
    let reply = UpstreamReply::Answered { status: 503, standings: Some(vec!["Verified".to_string()]) };
    assert_eq!(error_for(reply), KycError::DatabaseError);
    let reply = UpstreamReply::Answered { status: 404, standings: None };
    assert_eq!(error_for(reply), KycError::DatabaseError);
}

#[test]
fn missing_field_is_deserialization_error() {
    let e = error_for(UpstreamReply::Answered { status: 200, standings: None });
    assert_eq!(e, KycError::DeserializationError);
    assert_eq!(e.status_code(), 500);
    assert_eq!(e.message(), "Deserialization error");
}

#[test]
fn unknown_standing_is_deserialization_error() {
    let e = error_for(answered(&["Verified", "verified"]));
    assert_eq!(e, KycError::DeserializationError);
    let e = error_for(answered(&["Approved"]));
    assert_eq!(e, KycError::DeserializationError);
}

#[test]
fn standing_vocabulary_round_trips() {
    let all = [
        KycApprovalStanding::Verified,
        KycApprovalStanding::Rejected,
        KycApprovalStanding::Pending,
        KycApprovalStanding::Expired,
        KycApprovalStanding::NotSubmitted,
    ];
    let mut seen: Vec<KycStatus> = Vec::new();
    for s in all {
        assert_eq!(KycApprovalStanding::parse(&s.wire_name()), Some(s));
        let status = KycStatus::from(s);
        assert!(!seen.contains(&status));
        seen.push(status);
    }
    assert_eq!(KycApprovalStanding::Verified.wire_name(), "Verified");
    assert_eq!(KycApprovalStanding::NotSubmitted.wire_name(), "Not Submitted");
    assert_eq!(KycApprovalStanding::parse(&"Not Submitted".to_string()), Some(KycApprovalStanding::NotSubmitted));
    assert_eq!(KycApprovalStanding::parse(&"NotSubmitted".to_string()), None);
}

#[test]
fn standing_maps_to_status() {
    assert_eq!(KycStatus::from(KycApprovalStanding::Verified), KycStatus::Approved);
    assert_eq!(KycStatus::from(KycApprovalStanding::Rejected), KycStatus::Rejected);
    assert_eq!(KycStatus::from(KycApprovalStanding::Pending), KycStatus::Pending);
    assert_eq!(KycStatus::from(KycApprovalStanding::Expired), KycStatus::Expired);
    assert_eq!(KycStatus::from(KycApprovalStanding::NotSubmitted), KycStatus::NotSubmitted);
}

#[test]
fn status_vocabulary_round_trips() {
    let all = [
        KycStatus::NotSubmitted,
        KycStatus::Pending,
        KycStatus::Rejected,
        KycStatus::Approved,
        KycStatus::Expired,
    ];
    let words = ["NOT_SUBMITTED", "PENDING", "REJECTED", "APPROVED", "EXPIRED"];
    for (s, w) in all.iter().zip(words.iter()) {
        assert_eq!(s.wire_name(), *w);
        assert_eq!(KycStatus::parse(&w.to_string()), Some(*s));
    }
    assert_eq!(KycStatus::parse(&"Approved".to_string()), None);
}

#[test]
fn valid_account_ids_are_accepted() {
    for id in ["aa", "a-a", "100", "b-o_w_e-n", "illia.cheapaccounts.near", "petersalomonsen.near"] {
        let acc = account(id);
        assert_eq!(acc.as_str(), id);
    }
    let longest = "0123456789012345678901234567890123456789012345678901234567890123";
    assert_eq!(longest.len(), 64);
    assert_eq!(account(longest).as_str(), longest);
}

#[test]
fn invalid_account_ids_are_refused() {
    let too_long = "01234567890123456789012345678901234567890123456789012345678901234";
    for id in ["", "a", "A.near", "a..near", ".near", "near.", "-near", "alice near", "a'b", "ƒoo", too_long] {
        match AccountId::parse(id) {
            Ok(_) => panic!("accepted {:?}", id),
            Err(e) => {
                assert_eq!(e, KycError::InvalidAccountId);
                assert_eq!(e.status_code(), 400);
                assert_eq!(e.message(), "Invalid account id");
            }
        }
    }
}

#[test]
fn request_filters_on_wallet_address() {
    let resolver = KycResolver::new("SECRET-REDACTED".to_string());
    let req = resolver.request(&account("petersalomonsen.near"));
    assert_eq!(req.url, "https://api.airtable.com/v0/appc0ZVhbKj8hMLvH/tblIxT2t2gHoZMucn");
    assert_eq!(req.query.len(), 3);
    assert_eq!(req.query[0], ("maxRecords".to_string(), "5".to_string()));
    assert_eq!(req.query[1], ("view".to_string(), "Grid view".to_string()));
    assert_eq!(req.query[2].0, "filterByFormula");
    assert_eq!(
        req.query[2].1,
        "REGEX_MATCH({Wallet Address}, '(^|,)petersalomonsen[.]near(,|$)')"
    );
    assert_eq!(req.authorization, "Bearer SECRET-REDACTED");
}

#[test]
fn request_keeps_plain_account_ids() {
    let resolver = KycResolver::new("k".to_string());
    let req = resolver.request(&account("b-o_w_e-n"));
    assert_eq!(req.query[2].1, "REGEX_MATCH({Wallet Address}, '(^|,)b-o_w_e-n(,|$)')");
    assert_eq!(req.authorization, "Bearer k");
}

#[test]
fn no_records_is_not_submitted_for_any_account() {
    for id in ["aa", "alice.near", "10-4.8-2", "no_lols"] {
        let acc = account(id);
        let reply = UpstreamReply::Answered { status: 200, standings: Some(Vec::new()) };
        match kyc_response(&acc, &reply) {
            Ok(resp) => {
                assert_eq!(resp.account_id, id);
                assert_eq!(resp.kyc_status, KycStatus::NotSubmitted);
            }
            Err(e) => panic!("unexpected error {:?}", e),
        }
    }
}
