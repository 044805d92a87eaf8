use vstd::prelude::*;
use vstd::string::StringExecFns;

use crate::status::KycError;

verus! {

/// The error that near_account_id reports for a malformed account id.
#[verifier::external_type_specification]
#[verifier::external_body]
pub struct ExParseAccountError(near_account_id::ParseAccountError);

/// Relies on near_account_id's `AccountId::validate`, which accepts exactly
/// the ids of 2 to 64 bytes made of `a-z`, `0-9` and the separators `-`, `_`,
/// `.`, that neither start nor end with a separator nor hold two in a row.
#[verifier::external_body]
fn validate_account_id(s: &str) -> (r: Result<(), near_account_id::ParseAccountError>)
    ensures
        r is Ok <==> valid_account_id(s@),
{
    near_account_id::AccountId::validate(s)
}

/// A separator between the parts of an account id.
pub open spec fn is_separator(c: char) -> bool {
    c == '-' || c == '_' || c == '.'
}

/// A character that may appear in an account id.
pub open spec fn is_id_char(c: char) -> bool {
    ('a' <= c && c <= 'z') || ('0' <= c && c <= '9') || is_separator(c)
}

/// A valid NEAR account id: 2 to 64 characters of `a-z`, `0-9`, `-`, `_`,
/// `.`, with no separator first, last, or next to another.
pub open spec fn valid_account_id(s: Seq<char>) -> bool {
    &&& 2 <= s.len() <= 64
    &&& forall|i: int| 0 <= i < s.len() ==> #[trigger] is_id_char(s[i])
    &&& !is_separator(s[0])
    &&& !is_separator(s[s.len() - 1])
    &&& forall|i: int|
        0 <= i < s.len() - 1 ==> !(#[trigger] is_separator(s[i]) && is_separator(s[i + 1]))
}

/// A NEAR account id that has been checked to be valid.
#[derive(Debug)]
pub struct AccountId {
    id: String,
}

impl View for AccountId {
    type V = Seq<char>;

    closed spec fn view(&self) -> Seq<char> {
        self.id@
    }
}

impl AccountId {
    #[verifier::type_invariant]
    spec fn inv(&self) -> bool {
        valid_account_id(self.id@)
    }

    /// Checks `s` and keeps it as an account id; a malformed id is refused
    /// with `InvalidAccountId`.
    pub fn parse(s: &str) -> (r: Result<AccountId, KycError>)
        ensures
            r is Ok <==> valid_account_id(s@),
            r matches Ok(a) ==> a@ == s@,
            r matches Err(e) ==> e == KycError::InvalidAccountId,
    {
        match validate_account_id(s) {
            Ok(()) => Ok(AccountId { id: String::from_str(s) }),
            Err(_) => Err(KycError::InvalidAccountId),
        }
    }

    /// The account id as text; it is always a valid one.
    pub fn as_str(&self) -> (r: &str)
        ensures
            r@ == self@,
            valid_account_id(self@),
    {
        proof {
            use_type_invariant(self);
        }
        self.id.as_str()
    }
}

} // verus!
