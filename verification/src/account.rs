use vstd::prelude::*;

verus! {

/// One of the separator characters the ledger's identifier syntax allows.
pub open spec fn id_separator(c: char) -> bool {
    c == '-' || c == '_' || c == '.'
}

/// A character the ledger's identifier syntax accepts: an ASCII lowercase
/// letter, a digit, or a separator.
pub open spec fn id_char(c: char) -> bool {
    ('a' <= c && c <= 'z') || ('0' <= c && c <= '9') || id_separator(c)
}

/// The ledger's identifier syntax: 2 to 64 characters, each a lowercase
/// letter, digit or separator, with no separator at either end and no two
/// separators adjacent.
///
/// This is syntax only.  Whether an identifier denotes an existing account
/// cannot be checked ahead of an actual transfer attempt, so the engine
/// deliberately does not try.
pub open spec fn valid_account_id(s: Seq<char>) -> bool {
    &&& 2 <= s.len() <= 64
    &&& forall|i: int| 0 <= i < s.len() ==> id_char(#[trigger] s[i])
    &&& !id_separator(s[0])
    &&& !id_separator(s[s.len() - 1])
    &&& forall|i: int|
        1 <= i < s.len() ==> !(id_separator(#[trigger] s[i]) && id_separator(s[i - 1]))
}

/// Relies on near_sdk::AccountId::validate, which accepts a string exactly
/// when it is 2 to 64 characters of lowercase letters, digits and the
/// separators '-', '_' and '.', with no separator first or last and no two
/// separators adjacent.  (Its length bounds are on bytes; a string within
/// the character bounds is all ASCII or is rejected for its characters, so
/// the two readings agree.)
#[verifier::external_body]
pub(crate) fn host_account_id_is_valid(s: &str) -> (r: bool)
    ensures
        r == valid_account_id(s@),
{
    near_sdk::AccountId::validate(s).is_ok()
}

} // verus!
