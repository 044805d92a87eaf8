//! Resolves the KYC (know-your-customer) status of a NEAR account from the
//! verification records that an Airtable base holds for it.
//!
//! The library holds the logic: validating the account id, building the
//! filtered query for the record store, reading the standings that come back
//! and reducing them to one status. Sending the request and serving the answer
//! over HTTP is left to the caller, which hands the reply back as an
//! `UpstreamReply`.

pub mod account;
pub mod resolve;
pub mod status;
pub mod upstream;

pub use account::{valid_account_id, AccountId};
pub use resolve::{resolve_status, resolved_status};
pub use status::{KycApprovalStanding, KycError, KycStatus};
pub use upstream::{kyc_response, reply_outcome, KycResolver, KycResponse, UpstreamReply, UpstreamRequest};
