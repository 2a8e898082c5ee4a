//! Account identifiers: 128-bit universally unique identifiers.

use vstd::prelude::*;

verus! {

/// The identifier of an account, held as the 128-bit value of its UUID.
#[derive(Clone, Copy, Debug, PartialEq, Eq, Structural, Hash)]
pub struct AccountId {
    pub value: u128,
}

/// The text that `uuid` prints for the UUID with the given 128-bit value:
/// lower-case hexadecimal digits in hyphenated groups.
pub uninterp spec fn hyphenated_text(value: u128) -> Seq<char>;

/// What `uuid` reads a text as: the 128-bit value of the UUID it spells, or
/// `None` where it spells none.
pub uninterp spec fn parsed_uuid(text: Seq<char>) -> Option<u128>;

impl AccountId {
    /// Draws a random identifier with `uuid::Uuid::new_v4`. Nothing is
    /// claimed of it, not even that it differs from those drawn before.
    #[verifier::external_body]
    pub(crate) fn random() -> AccountId {
        AccountId { value: uuid::Uuid::new_v4().as_u128() }
    }

    /// Prints the identifier as `uuid::Uuid` does through `Display`; the
    /// result is named `hyphenated_text`.
    #[verifier::external_body]
    pub(crate) fn to_text(&self) -> (text: String)
        ensures
            text@ == hyphenated_text(self.value),
    {
        uuid::Uuid::from_u128(self.value).to_string()
    }

    /// Reads a text with `uuid::Uuid::parse_str`; the result is named
    /// `parsed_uuid`, and the parser's error is dropped.
    #[verifier::external_body]
    pub(crate) fn parse(text: &str) -> (id: Option<AccountId>)
        ensures
            match parsed_uuid(text@) {
                Some(value) => id == Some((AccountId { value })),
                None => id.is_none(),
            },
    {
        match uuid::Uuid::parse_str(text) {
            Ok(uuid) => Some(AccountId { value: uuid.as_u128() }),
            Err(_) => None,
        }
    }
}

} // verus!
