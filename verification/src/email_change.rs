//! Confirming an e-mail change, and the redirects of the account pages.

use vstd::prelude::*;
use crate::forms::EmailChangeStoreInfo;
use vstd::utf8::encode_utf8;

verus! {

/// Whether `urlencoding` leaves a byte as it is: ASCII letters, digits and `-._~`.
pub open spec fn is_url_safe(b: u8) -> bool {
    (48 <= b && b <= 57) || (65 <= b && b <= 90) || (97 <= b && b <= 122)
        || b == 45 || b == 46 || b == 95 || b == 126
}

/// The upper-case hexadecimal digit for a value below sixteen.
pub open spec fn hex_digit(d: int) -> char {
    if d < 10 { (48 + d) as char } else { (55 + d) as char }
}

/// Percent-encoding of a byte string: safe bytes stay, every other byte
/// becomes `%` and two upper-case hexadecimal digits.
pub open spec fn percent_encoded(bytes: Seq<u8>) -> Seq<char>
    decreases bytes.len(),
{
    if bytes.len() == 0 {
        seq![]
    } else {
        let b = bytes[0];
        (if is_url_safe(b) {
            seq![b as char]
        } else {
            seq!['%', hex_digit(b as int / 16), hex_digit(b as int % 16)]
        }) + percent_encoded(bytes.skip(1))
    }
}

/// Percent-encodes the UTF-8 bytes of `s` with `urlencoding::encode`.
///
/// Trusted: the crate documents and implements that every byte except ASCII
/// alphanumerics and `-`, `_`, `.`, `~` becomes `%` with two upper-case
/// hexadecimal digits; the contract states exactly that.
#[verifier::external_body]
fn url_encode(s: &str) -> (res: String)
    ensures
        res@ == percent_encoded(encode_utf8(s@)),
{
    urlencoding::encode(s).into_owned()
}

/// How the confirmation of an e-mail change ends.
#[derive(Debug, Clone, PartialEq)]
pub enum EmailChangeOutcome {
    /// No change waits under the token.
    Expired,
    /// Store the new address for the account.
    Apply(EmailChangeStoreInfo),
}

impl EmailChangeOutcome {
    /// The text reported for this outcome once carried out.
    pub fn message(&self) -> (res: String)
        ensures
            res@ == (match *self {
                EmailChangeOutcome::Expired => "口令不正确或已过期！"@,
                EmailChangeOutcome::Apply(_) => "修改成功！"@,
            }),
    {
        match self {
            EmailChangeOutcome::Expired => String::from_str("口令不正确或已过期！"),
            EmailChangeOutcome::Apply(_) => String::from_str("修改成功！"),
        }
    }
}

/// Decides an e-mail change from what the cache held under the token.
pub fn handle_change_email(stored: Option<EmailChangeStoreInfo>) -> (res: EmailChangeOutcome)
    ensures
        res == (match stored {
            Some(info) => EmailChangeOutcome::Apply(info),
            None => EmailChangeOutcome::Expired,
        }),
{
    match stored {
        Some(info) => EmailChangeOutcome::Apply(info),
        None => EmailChangeOutcome::Expired,
    }
}

/// Where the browser is sent after an e-mail change: the success page with
/// the message, or the error page with the error's text.
pub fn change_email(result: &Result<String, String>) -> (res: String)
    ensures
        res@ == (match *result {
            Ok(m) => "/success?message="@ + percent_encoded(encode_utf8(m@)),
            Err(e) => "/error?message="@ + percent_encoded(encode_utf8(e@)),
        }),
{
    match result {
        Ok(m) => {
            let mut s = String::from_str("/success?message=");
            let enc = url_encode(m.as_str());
            s.append(enc.as_str());
            s
        },
        Err(e) => {
            let mut s = String::from_str("/error?message=");
            let enc = url_encode(e.as_str());
            s.append(enc.as_str());
            s
        },
    }
}

/// Where the old confirmation link of an e-mail change now points.
pub fn redirect_change_email(token: &str) -> (res: String)
    ensures
        res@ == "/api/user/change_email/"@ + token@,
{
    let mut s = String::from_str("/api/user/change_email/");
    s.append(token);
    s
}

/// The old path of a user endpoint and the path it now redirects to.
pub fn user_redirect(name: &str) -> (res: (String, String))
    ensures
        res.0@ == "/"@ + name@,
        res.1@ == "/api/user/"@ + name@,
{
    let mut from = String::from_str("/");
    from.append(name);
    let mut to = String::from_str("/api/user/");
    to.append(name);
    (from, to)
}

} // verus!
