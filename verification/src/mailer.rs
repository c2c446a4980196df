//! Mail payloads: the message structure handed to the mail transport,
//! its validation, and the exact construction of the registration
//! confirmation email. Sending is I/O and lives with the enclosing
//! service; everything up to the handover is verified here.

use vstd::prelude::*;
use vstd::string::{StrSliceExecFns, StringExecFns};

use crate::error::Error;
use crate::text::{dec_digits, push_u64_decimal};
use crate::validation::{email_is_valid, is_valid_email};

verus! {

/// A message for the mail transport.
pub struct EmailPayload {
    pub sender: String,
    pub recipients: Vec<String>,
    pub subject: String,
    pub html: String,
    pub text: String,
}

/// The recipient addresses as character sequences.
pub open spec fn recipients_view(p: &EmailPayload) -> Seq<Seq<char>> {
    p.recipients@.map_values(|s: String| s@)
}

/// The first rule a payload breaks, with its message, or `None`: the
/// sender and every recipient must be well-formed addresses, and there
/// must be at least one recipient.
pub open spec fn payload_issue(p: &EmailPayload) -> Option<Seq<char>> {
    if !is_valid_email(p.sender@) {
        Some("sender must be a valid email address"@)
    } else if p.recipients@.len() == 0 {
        Some("at least one recipient is required"@)
    } else if exists|i: int|
        0 <= i < p.recipients@.len() && !is_valid_email(#[trigger] p.recipients@[i]@) {
        Some("recipient must be a valid email address"@)
    } else {
        None
    }
}

impl EmailPayload {
    /// A payload from its parts.
    pub fn new(
        sender: String,
        recipients: Vec<String>,
        subject: String,
        html: String,
        text: String,
    ) -> (r: EmailPayload)
        ensures
            r.sender == sender,
            r.recipients == recipients,
            r.subject == subject,
            r.html == html,
            r.text == text,
    {
        EmailPayload { sender, recipients, subject, html, text }
    }

    /// Checks the payload; rejected input carries the broken rule's
    /// message.
    pub fn validate(&self) -> (r: Result<(), Error>)
        ensures
            match r {
                Ok(()) => payload_issue(self) is None,
                Err(e) => match e {
                    Error::Validation(m) => Some(m@) == payload_issue(self),
                    _ => false,
                },
            },
    {
        if !email_is_valid(self.sender.as_str()) {
            return Err(
                Error::Validation(String::from_str("sender must be a valid email address")),
            );
        }
        let n = self.recipients.len();
        if n == 0 {
            return Err(Error::Validation(String::from_str("at least one recipient is required")));
        }
        let mut i: usize = 0;
        while i < n
            invariant
                is_valid_email(self.sender@),
                n == self.recipients@.len(),
                0 < n,
                0 <= i <= n,
                forall|k: int| 0 <= k < i ==> is_valid_email(#[trigger] self.recipients@[k]@),
            decreases n - i,
        {
            if !email_is_valid(self.recipients[i].as_str()) {
                return Err(
                    Error::Validation(
                        String::from_str("recipient must be a valid email address"),
                    ),
                );
            }
            i = i + 1;
        }
        Ok(())
    }
}

/// The confirmation link for a registration token, against the
/// server's host and port.
pub open spec fn confirmation_link(host: Seq<char>, port: u16, token: Seq<char>) -> Seq<char> {
    host + ":"@ + dec_digits(port as u64) + "/auth/register/confirm?register_token="@ + token
}

/// The plain-text body of the confirmation email.
pub open spec fn confirmation_text(app_name: Seq<char>, link: Seq<char>) -> Seq<char> {
    "Welcome to "@ + app_name + "!\nVisit "@ + link + " to confirm your subscription."@
}

/// The HTML body of the confirmation email.
pub open spec fn confirmation_html(app_name: Seq<char>, link: Seq<char>) -> Seq<char> {
    "Welcome to "@ + app_name + "!<br />Click <a href=\""@ + link
        + "\">here</a> to confirm your subscription."@
}

/// Builds the confirmation link as a string.
fn build_confirmation_link(host: &str, port: u16, token: &str) -> (r: String)
    ensures
        r@ == confirmation_link(host@, port, token@),
{
    let mut s = String::new();
    s.append(host);
    s.append(":");
    push_u64_decimal(&mut s, port as u64);
    s.append("/auth/register/confirm?register_token=");
    s.append(token);
    proof {
        assert(s@ =~= confirmation_link(host@, port, token@));
    }
    s
}

/// Composes registration confirmation emails.
pub struct AuthMailer;

impl AuthMailer {
    /// The confirmation email for a freshly registered address: the
    /// subject, and a text and an HTML body that carry the
    /// confirmation link for the token. The enclosing service hands
    /// the result to the mail transport.
    pub fn send_confirmation(
        app_name: &str,
        host: &str,
        port: u16,
        sender: String,
        email_recipient: &str,
        register_token: &str,
    ) -> (r: EmailPayload)
        ensures
            r.sender@ == sender@,
            recipients_view(&r) == seq![email_recipient@],
            r.subject@ == "Please confirm your registration"@,
            r.text@ == confirmation_text(
                app_name@,
                confirmation_link(host@, port, register_token@),
            ),
            r.html@ == confirmation_html(
                app_name@,
                confirmation_link(host@, port, register_token@),
            ),
    {
        let link = build_confirmation_link(host, port, register_token);

        let subject = String::from_str("Please confirm your registration");

        let mut text = String::from_str("Welcome to ");
        text.append(app_name);
        text.append("!\nVisit ");
        text.append(link.as_str());
        text.append(" to confirm your subscription.");

        let mut html = String::from_str("Welcome to ");
        html.append(app_name);
        html.append("!<br />Click <a href=\"");
        html.append(link.as_str());
        html.append("\">here</a> to confirm your subscription.");

        let mut recipients: Vec<String> = Vec::new();
        recipients.push(email_recipient.to_owned());

        let r = EmailPayload::new(sender, recipients, subject, html, text);
        proof {
            assert(r.text@ =~= confirmation_text(
                app_name@,
                confirmation_link(host@, port, register_token@),
            ));
            assert(r.html@ =~= confirmation_html(
                app_name@,
                confirmation_link(host@, port, register_token@),
            ));
            assert(recipients_view(&r) =~= seq![email_recipient@]);
        }
        r
    }
}

/// The confirmation link against a ready base URL instead of host and
/// port.
pub open spec fn confirmation_link_from_base(base_url: Seq<char>, token: Seq<char>) -> Seq<char> {
    base_url + "/auth/register/confirm?register_token="@ + token
}

/// The confirmation email built against a base URL, with the fixed
/// product greeting.
pub fn send_register_confirm_email(
    base_url: &str,
    sender: String,
    email_recipient: &str,
    register_token: &str,
) -> (r: EmailPayload)
    ensures
        r.sender@ == sender@,
        recipients_view(&r) == seq![email_recipient@],
        r.subject@ == "Please confirm your registration"@,
        r.text@ == confirmation_text(
            "Nohead"@,
            confirmation_link_from_base(base_url@, register_token@),
        ),
        r.html@ == confirmation_html(
            "Nohead"@,
            confirmation_link_from_base(base_url@, register_token@),
        ),
{
    let mut link = String::new();
    link.append(base_url);
    link.append("/auth/register/confirm?register_token=");
    link.append(register_token);
    proof {
        assert(link@ =~= confirmation_link_from_base(base_url@, register_token@));
    }

    let subject = String::from_str("Please confirm your registration");

    let mut text = String::from_str("Welcome to Nohead!\nVisit ");
    text.append(link.as_str());
    text.append(" to confirm your subscription.");

    let mut html = String::from_str("Welcome to Nohead!<br />Click <a href=\"");
    html.append(link.as_str());
    html.append("\">here</a> to confirm your subscription.");

    let mut recipients: Vec<String> = Vec::new();
    recipients.push(email_recipient.to_owned());

    let r = EmailPayload::new(sender, recipients, subject, html, text);
    proof {
        reveal_strlit("Welcome to Nohead!\nVisit ");
        reveal_strlit("Welcome to ");
        reveal_strlit("Nohead");
        reveal_strlit("!\nVisit ");
        assert(r.text@ =~= confirmation_text(
            "Nohead"@,
            confirmation_link_from_base(base_url@, register_token@),
        ));
        reveal_strlit("Welcome to Nohead!<br />Click <a href=\"");
        reveal_strlit("!<br />Click <a href=\"");
        assert(r.html@ =~= confirmation_html(
            "Nohead"@,
            confirmation_link_from_base(base_url@, register_token@),
        ));
        assert(recipients_view(&r) =~= seq![email_recipient@]);
    }
    r
}

} // verus!
