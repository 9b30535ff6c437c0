//! The mails that the flows ask for. Rendering and sending them is left to
//! the caller.

use crate::config::EmailConfig;
use vstd::prelude::*;

verus! {

/// What is known of the client that asked for a mail.
pub struct ClientInfo {
    /// The family of its operating system.
    pub os: String,
    /// The family of its device.
    pub device: String,
}

/// A mail to send.
#[derive(Debug)]
pub struct EmailParams {
    pub name: String,
    /// The link that the mail asks its reader to follow.
    pub action_url: String,
    pub subject: String,
    pub from: String,
    pub to: String,
    pub reply_to: String,
    pub os: String,
    pub device: String,
}

/// A mail as contracts speak of it.
pub ghost struct EmailParamsView {
    pub name: Seq<char>,
    pub action_url: Seq<char>,
    pub subject: Seq<char>,
    pub from: Seq<char>,
    pub to: Seq<char>,
    pub reply_to: Seq<char>,
    pub os: Seq<char>,
    pub device: Seq<char>,
}

impl View for EmailParams {
    type V = EmailParamsView;

    open spec fn view(&self) -> EmailParamsView {
        EmailParamsView {
            name: self.name@,
            action_url: self.action_url@,
            subject: self.subject@,
            from: self.from@,
            to: self.to@,
            reply_to: self.reply_to@,
            os: self.os@,
            device: self.device@,
        }
    }
}

/// The mail that a flow asked for, if it asked for one.
pub open spec fn mail_of(mail: Option<EmailParams>) -> Option<EmailParamsView> {
    match mail {
        Some(m) => Some(m@),
        None => None,
    }
}

/// The operating system to name in a mail: `Unknown` where nothing is known
/// of the client.
pub open spec fn os_of(client: Option<ClientInfo>) -> Seq<char> {
    match client {
        Some(c) => c.os@,
        None => "Unknown"@,
    }
}

/// The device to name in a mail: `Unknown` where nothing is known of the
/// client.
pub open spec fn device_of(client: Option<ClientInfo>) -> Seq<char> {
    match client {
        Some(c) => c.device@,
        None => "Unknown"@,
    }
}

/// The mail with the given reader, link and subject, sent as the
/// configuration says and naming what is known of the client.
pub open spec fn mail_view(
    email: EmailConfig,
    name: Seq<char>,
    to: Seq<char>,
    action_url: Seq<char>,
    subject: Seq<char>,
    client: Option<ClientInfo>,
) -> EmailParamsView {
    EmailParamsView {
        name,
        action_url,
        subject,
        from: email.from@,
        to,
        reply_to: email.reply_to@,
        os: os_of(client),
        device: device_of(client),
    }
}

/// Writes the mail with the given reader, link and subject.
pub fn compose(
    email: &EmailConfig,
    name: &str,
    to: &str,
    action_url: String,
    subject: &str,
    client: &Option<ClientInfo>,
) -> (r: EmailParams)
    ensures
        r@ == mail_view(*email, name@, to@, action_url@, subject@, *client),
{
    let (os, device) = match client {
        Some(c) => (c.os.clone(), c.device.clone()),
        None => ("Unknown".to_string(), "Unknown".to_string()),
    };
    EmailParams {
        name: name.to_string(),
        action_url,
        subject: subject.to_string(),
        from: email.from.clone(),
        to: to.to_string(),
        reply_to: email.reply_to.clone(),
        os,
        device,
    }
}

} // verus!
