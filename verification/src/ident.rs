//! User identifiers, as `ruma_identifiers` parses and holds them.

use ruma_identifiers::UserId;
use vstd::prelude::*;

verus! {

/// `ruma_identifiers::UserId`, opaque to the verifier.
#[verifier::external_type_specification]
#[verifier::external_body]
pub struct ExUserId(UserId);

/// The characters of a user identifier, sigil and server name included.
pub uninterp spec fn user_id_text(user_id: &UserId) -> Seq<char>;

/// The localpart of a user identifier.
pub uninterp spec fn user_id_localpart(user_id: &UserId) -> Seq<char>;

/// `UserId::to_string`: the whole identifier as a `String`.
///
/// Trusted: the result is the text that the identifier holds. The crate's
/// `Display` for `UserId` writes `as_str()`, the string it was made from.
#[verifier::external_body]
pub(crate) fn full_text(user_id: &UserId) -> (text: String)
    ensures
        text@ == user_id_text(user_id),
{
    user_id.to_string()
}

/// `UserId::localpart`, copied into a `String`.
///
/// Trusted: the result is the localpart that the identifier reports, the
/// stretch of its text between the sigil and the colon that it recorded
/// when it was made.
#[verifier::external_body]
pub(crate) fn localpart(user_id: &UserId) -> (text: String)
    ensures
        text@ == user_id_localpart(user_id),
{
    user_id.localpart().to_owned()
}

} // verus!
