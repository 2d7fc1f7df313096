//! Identifier classification: is the submitted identifier a syntactically
//! valid email address, and which account-store column must be queried for it.

use vstd::prelude::*;

verus! {

/// Whether a string is a syntactically valid email address, exactly as
/// `email_address::EmailAddress::is_valid` decides it.
pub uninterp spec fn is_email(s: Seq<char>) -> bool;

/// Relies on `email_address::EmailAddress::is_valid`: a pure syntactic
/// check, deterministic in the string alone, with no side effects.
#[verifier::external_body]
pub(crate) fn email_is_valid(s: &str) -> (r: bool)
    ensures
        r == is_email(s@),
{
    email_address::EmailAddress::is_valid(s)
}

/// A login identifier, tagged once with its classification so that callers
/// never re-derive it.
pub enum Identifier {
    Email(String),
    Username(String),
}

impl Identifier {
    /// The identifier text, whatever its classification.
    pub open spec fn text(&self) -> Seq<char> {
        match self {
            Identifier::Email(s) => s@,
            Identifier::Username(s) => s@,
        }
    }
}

/// Classify an identifier: `Email` exactly when it is a syntactically valid
/// email address. Empty or malformed identifiers are ordinary usernames;
/// nothing is rejected before the store is consulted.
pub fn classify(identifier: String) -> (r: Identifier)
    ensures
        r is Email <==> is_email(identifier@),
        r.text() == identifier@,
{
    if email_is_valid(identifier.as_str()) {
        Identifier::Email(identifier)
    } else {
        Identifier::Username(identifier)
    }
}

} // verus!
