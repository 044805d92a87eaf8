use vstd::prelude::*;
use vstd::string::{StrSliceExecFns, StringExecFns};

use crate::account::AccountId;
use crate::resolve::{resolve_status, resolved_status};
use crate::status::{standing_from_wire, KycApprovalStanding, KycError, KycStatus};

verus! {

/// The table of the record store that holds the verification records.
pub open spec fn table_url() -> Seq<char> {
    "https://api.airtable.com/v0/appc0ZVhbKj8hMLvH/tblIxT2t2gHoZMucn"@
}

/// How one character of an account id is written inside the filter's
/// regular expression: a dot stands for itself only inside a class.
pub open spec fn regex_piece(c: char) -> Seq<char> {
    if c == '.' {
        "[.]"@
    } else {
        seq![c]
    }
}

/// A regular expression that matches exactly the text `s`, for a text made
/// of account id characters.
pub open spec fn regex_literal(s: Seq<char>) -> Seq<char>
    decreases s.len(),
{
    if s.len() == 0 {
        Seq::empty()
    } else {
        regex_literal(s.drop_last()) + regex_piece(s.last())
    }
}

/// The store's formula that selects the records whose wallet address field,
/// a comma-separated list, holds the account id `id`.
pub open spec fn filter_formula(id: Seq<char>) -> Seq<char> {
    "REGEX_MATCH({Wallet Address}, '(^|,)"@ + regex_literal(id) + "(,|$)')"@
}

/// The value of the `Authorization` header for the API key `key`.
pub open spec fn authorization_text(key: Seq<char>) -> Seq<char> {
    "Bearer "@ + key
}

/// The request to send to the record store.
pub struct UpstreamRequest {
    pub url: String,
    /// The query parameters, in order, as names and values.
    pub query: Vec<(String, String)>,
    /// The value of the `Authorization` header.
    pub authorization: String,
}

/// What came back from the record store.
pub enum UpstreamReply {
    /// The store could not be reached, or did not answer in time.
    Unreachable,
    /// The store answered with the HTTP status `status`; `standings` holds
    /// the standing field of each record in the store's order, or is `None`
    /// when the body does not have the expected shape.
    Answered { status: u16, standings: Option<Vec<String>> },
}

/// The answer for an account: the account id and its status.
pub struct KycResponse {
    pub account_id: String,
    pub kyc_status: KycStatus,
}

/// The resolver's configuration: the API key of the record store.
pub struct KycResolver {
    pub api_key: String,
}

/// Every word is one of the store's standings.
pub open spec fn words_known(words: Seq<Seq<char>>) -> bool {
    forall|i: int| 0 <= i < words.len() ==> (#[trigger] standing_from_wire(words[i])) is Some
}

/// The standings that the words stand for.
pub open spec fn standings_of(words: Seq<Seq<char>>) -> Seq<KycApprovalStanding> {
    words.map_values(|w: Seq<char>| standing_from_wire(w)->0)
}

/// The texts of a sequence of strings.
pub open spec fn words_of(v: Seq<String>) -> Seq<Seq<char>> {
    v.map_values(|s: String| s@)
}

/// The outcome for records whose standing fields read `words`: a word out of
/// the store's vocabulary means the body is not of the expected shape.
pub open spec fn records_outcome(words: Seq<Seq<char>>) -> Result<KycStatus, KycError> {
    if words_known(words) {
        Ok(resolved_status(standings_of(words)))
    } else {
        Err(KycError::DeserializationError)
    }
}

/// The outcome of a reply: no answer or an answer other than success is a
/// database error, a body of another shape a deserialization error.
pub open spec fn reply_outcome(reply: UpstreamReply) -> Result<KycStatus, KycError> {
    match reply {
        UpstreamReply::Unreachable => Err(KycError::DatabaseError),
        UpstreamReply::Answered { status, standings } => {
            if status != 200 {
                Err(KycError::DatabaseError)
            } else {
                match standings {
                    None => Err(KycError::DeserializationError),
                    Some(v) => records_outcome(words_of(v@)),
                }
            }
        },
    }
}

/// Writes `s` as a regular expression that matches exactly that text.
fn regex_escape(s: &str) -> (r: String)
    ensures
        r@ == regex_literal(s@),
{
    let mut out = String::new();
    let n = s.unicode_len();
    let mut i: usize = 0;
    while i < n
        invariant
            n == s@.len(),
            i <= n,
            out@ == regex_literal(s@.subrange(0, i as int)),
        decreases n - i,
    {
        let c = s.get_char(i);
        if c == '.' {
            out.append("[.]");
        } else {
            let one = s.substring_char(i, i + 1);
            assert(one@ =~= seq![c]);
            out.append(one);
        }
        assert(s@.subrange(0, i + 1).drop_last() =~= s@.subrange(0, i as int));
        i = i + 1;
    }
    assert(s@.subrange(0, n as int) =~= s@);
    out
}

impl KycResolver {
    /// A resolver that authenticates to the record store with `api_key`.
    pub fn new(api_key: String) -> (r: KycResolver)
        ensures
            r.api_key@ == api_key@,
    {
        KycResolver { api_key }
    }

    /// The request that asks the store for up to five records of `account`.
    pub fn request(&self, account: &AccountId) -> (r: UpstreamRequest)
        ensures
            r.url@ == table_url(),
            r.query@.len() == 3,
            r.query@[0].0@ == "maxRecords"@,
            r.query@[0].1@ == "5"@,
            r.query@[1].0@ == "view"@,
            r.query@[1].1@ == "Grid view"@,
            r.query@[2].0@ == "filterByFormula"@,
            r.query@[2].1@ == filter_formula(account@),
            r.authorization@ == authorization_text(self.api_key@),
    {
        let escaped = regex_escape(account.as_str());
        let formula = String::from_str("REGEX_MATCH({Wallet Address}, '(^|,)").concat(
            escaped.as_str(),
        ).concat("(,|$)')");
        let mut query: Vec<(String, String)> = Vec::new();
        query.push((String::from_str("maxRecords"), String::from_str("5")));
        query.push((String::from_str("view"), String::from_str("Grid view")));
        query.push((String::from_str("filterByFormula"), formula));
        UpstreamRequest {
            url: String::from_str("https://api.airtable.com/v0/appc0ZVhbKj8hMLvH/tblIxT2t2gHoZMucn"),
            query,
            authorization: String::from_str("Bearer ").concat(self.api_key.as_str()),
        }
    }
}

/// Reads the standing fields of the records; `None` when one of them is out
/// of the store's vocabulary.
fn parse_standings(words: &Vec<String>) -> (r: Option<Vec<KycApprovalStanding>>)
    ensures
        r is Some <==> words_known(words_of(words@)),
        r matches Some(v) ==> v@ == standings_of(words_of(words@)),
{
    let mut out: Vec<KycApprovalStanding> = Vec::new();
    let mut i: usize = 0;
    while i < words.len()
        invariant
            i <= words@.len(),
            out@.len() == i,
            forall|j: int| 0 <= j < i ==> standing_from_wire(#[trigger] words@[j]@) == Some(out@[j]),
        decreases words@.len() - i,
    {
        match KycApprovalStanding::parse(&words[i]) {
            Some(s) => out.push(s),
            None => {
                assert(standing_from_wire(words_of(words@)[i as int]) is None);
                return None;
            },
        }
        i = i + 1;
    }
    assert(words_known(words_of(words@))) by {
        assert forall|j: int| 0 <= j < words_of(words@).len() implies (#[trigger] standing_from_wire(
            words_of(words@)[j],
        )) is Some by {
            assert(standing_from_wire(words@[j]@) == Some(out@[j]));
        }
    }
    assert(out@ =~= standings_of(words_of(words@))) by {
        assert forall|j: int| 0 <= j < out@.len() implies out@[j] == standings_of(
            words_of(words@),
        )[j] by {
            assert(standing_from_wire(words@[j]@) == Some(out@[j]));
        }
    }
    Some(out)
}

/// Turns the store's reply into the answer for `account`.
pub fn kyc_response(account: &AccountId, reply: &UpstreamReply) -> (r: Result<KycResponse, KycError>)
    ensures
        r matches Ok(resp) ==> reply_outcome(*reply) == Ok::<KycStatus, KycError>(resp.kyc_status)
            && resp.account_id@ == account@,
        r matches Err(e) ==> reply_outcome(*reply) == Err::<KycStatus, KycError>(e),
{
    match reply {
        UpstreamReply::Unreachable => Err(KycError::DatabaseError),
        UpstreamReply::Answered { status, standings } => {
            if *status != 200 {
                return Err(KycError::DatabaseError);
            }
            match standings {
                None => Err(KycError::DeserializationError),
                Some(words) => match parse_standings(words) {
                    None => Err(KycError::DeserializationError),
                    Some(records) => Ok(
                        KycResponse {
                            account_id: String::from_str(account.as_str()),
                            kyc_status: resolve_status(&records),
                        },
                    ),
                },
            }
        },
    }
}

/// For any account, a successful answer with no records at all means that
/// the account has not submitted.
pub proof fn lemma_no_records_not_submitted(standings: Vec<String>)
    requires
        standings@.len() == 0,
    ensures
        reply_outcome(UpstreamReply::Answered { status: 200, standings: Some(standings) })
            == Ok::<KycStatus, KycError>(KycStatus::NotSubmitted),
{
    let words = words_of(standings@);
    assert(standings_of(words).len() == 0);
    assert(!crate::resolve::some_active(standings_of(words)));
}

} // verus!
