//! Configuration types of the notification channels. Dispatching an alert
//! over mail or a webhook is network work and lives outside this crate;
//! only the channel descriptions and the request-building stub are here.

use vstd::prelude::*;

verus! {

/// Where and as whom the mail notifier connects.
pub struct SmtpConfig {
    pub server: String,
    pub port: u16,
    pub username: String,
    pub password: String,
}

/// An alert sink that mails through an SMTP relay.
pub struct EmailNotifier {
    pub smtp_config: SmtpConfig,
}

/// An alert sink that posts to a Slack webhook.
pub struct SlackNotifier {
    pub webhook_url: String,
}

/// A placeholder request builder: it records nothing and sends nothing,
/// standing in until a real HTTP client is wired up.
pub struct Client();

impl Client {
    pub fn new() -> (r: Self)
        ensures
            r == Client(),
    {
        Client()
    }

    pub fn post(&self, _url: &str) -> (r: Self)
        ensures
            r == Client(),
    {
        Client()
    }
}

} // verus!
