//! Composing the notification e-mails the service sends.

use vstd::prelude::*;
use vstd::utf8::is_ascii_chars;
use lettre::message::Mailbox;
use lettre::address::AddressError;

verus! {

/// A parsed mailbox of `lettre`.
#[verifier::external_type_specification]
#[verifier::external_body]
pub struct ExMailbox(lettre::message::Mailbox);

/// The error `lettre` gives for text that is not a mailbox.
#[verifier::external_type_specification]
#[verifier::external_body]
pub struct ExAddressError(lettre::address::AddressError);

/// Whether `lettre` parses `text` as a mailbox (`name <user@domain>` or a
/// bare address).
pub uninterp spec fn mailbox_parses(text: Seq<char>) -> bool;

/// Parses a mailbox with `Mailbox`'s `FromStr`.
///
/// Trusted: the contract claims that parsing succeeds exactly when
/// `mailbox_parses` holds of the text, a function of the text alone (the
/// parser splits at the angle brackets and checks the address's user and
/// domain). What the parsed mailbox holds is not stated.
#[verifier::external_body]
fn parse_mailbox(text: &str) -> (res: Result<Mailbox, AddressError>)
    ensures
        res is Ok <==> mailbox_parses(text@),
{
    text.parse::<Mailbox>()
}

/// The bytes `encoding_rs` produces when it encodes `s` in GBK.
pub uninterp spec fn gbk_bytes(s: Seq<char>) -> Seq<u8>;

/// Encodes a string in GBK with `encoding_rs::GBK.encode`.
///
/// Trusted: the contract names the result `gbk_bytes` of the input alone, and
/// states the documented fact that ASCII-only input is returned as it is,
/// one byte per character.
#[verifier::external_body]
fn encode_gbk(s: &str) -> (res: Vec<u8>)
    ensures
        res@ == gbk_bytes(s@),
        is_ascii_chars(s@) ==> res@ == Seq::new(s@.len(), |i: int| s@[i] as u8),
{
    encoding_rs::GBK.encode(s).0.to_vec()
}

/// A message ready to be handed to the mail transport; both mailboxes parse.
#[derive(Debug, Clone, PartialEq)]
pub struct MailDraft {
    /// `name <address>` of the recipient.
    pub to: String,
    /// `name <address>` of the sender.
    pub from: String,
    pub subject: String,
    /// The content, encoded in GBK.
    pub body: Vec<u8>,
}

/// The mailbox text `name <address>`.
pub open spec fn mailbox(name: Seq<char>, address: Seq<char>) -> Seq<char> {
    name + " <"@ + address + ">"@
}

fn mailbox_text(name: &str, address: &str) -> (res: String)
    ensures
        res@ == mailbox(name@, address@),
{
    let mut s = String::from_str(name);
    s.append(" <");
    s.append(address);
    s.append(">");
    s
}

/// Why a message cannot be composed.
#[derive(Debug, Clone, Copy, PartialEq, Eq)]
pub enum MailError {
    /// `name <address>` of the recipient is not a mailbox.
    InvalidRecipient,
    /// `name <address>` of the sender is not a mailbox.
    InvalidSender,
}

/// Composes a message from the application to `receiver_username <target>`.
/// Both mailboxes must parse, the recipient's first.
pub fn simple_sendmail(app_name: &str, sender: &str, content: &str, subject: &str, target: &str, receiver_username: &str) -> (res: Result<MailDraft, MailError>)
    ensures
        !mailbox_parses(mailbox(receiver_username@, target@)) ==> res == Err::<MailDraft, MailError>(MailError::InvalidRecipient),
        mailbox_parses(mailbox(receiver_username@, target@)) && !mailbox_parses(mailbox(app_name@, sender@))
            ==> res == Err::<MailDraft, MailError>(MailError::InvalidSender),
        mailbox_parses(mailbox(receiver_username@, target@)) && mailbox_parses(mailbox(app_name@, sender@))
            ==> (res matches Ok(d) && {
                &&& d.to@ == mailbox(receiver_username@, target@)
                &&& d.from@ == mailbox(app_name@, sender@)
                &&& d.subject@ == subject@
                &&& d.body@ == gbk_bytes(content@)
            }),
{
    let to = mailbox_text(receiver_username, target);
    if parse_mailbox(to.as_str()).is_err() {
        return Err(MailError::InvalidRecipient);
    }
    let from = mailbox_text(app_name, sender);
    if parse_mailbox(from.as_str()).is_err() {
        return Err(MailError::InvalidSender);
    }
    Ok(MailDraft { to, from, subject: String::from_str(subject), body: encode_gbk(content) })
}

} // verus!
