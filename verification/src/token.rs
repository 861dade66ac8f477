//! Random tokens for e-mail links.

use vstd::prelude::*;

verus! {

/// Whether `s` is a UUID in the hyphenated lower-case form
/// `xxxxxxxx-xxxx-xxxx-xxxx-xxxxxxxxxxxx`.
pub open spec fn is_hyphenated_uuid(s: Seq<char>) -> bool {
    &&& s.len() == 36
    &&& forall|i: int| 0 <= i < 36 ==> (
        if i == 8 || i == 13 || i == 18 || i == 23 {
            #[trigger] s[i] == '-'
        } else {
            ('0' <= s[i] && s[i] <= '9') || ('a' <= s[i] && s[i] <= 'f')
        })
}

/// A fresh version-4 UUID, rendered by its `Display` implementation.
///
/// Trusted: `Uuid::new_v4` and `Uuid`'s `Display`, which the crate documents as
/// the hyphenated lower-case hexadecimal form. The value is random, so only its
/// form is stated.
#[verifier::external_body]
fn new_uuid_text() -> (res: String)
    ensures
        is_hyphenated_uuid(res@),
{
    uuid::Uuid::new_v4().to_string()
}

/// A fresh token for a link sent by e-mail.
pub fn issue_token() -> (res: String)
    ensures
        is_hyphenated_uuid(res@),
{
    new_uuid_text()
}

} // verus!
