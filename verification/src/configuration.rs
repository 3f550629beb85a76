use vstd::prelude::*;

verus! {

use crate::domain::ValidationError;
use crate::email_client::EmailClient;
use crate::subscriber_email::{SubscriberEmail, email_ok, email_parse_post};

/// Connection settings for the storage backend, as plain already-parsed
/// values.  Opening the actual connection from them is the boundary's work.
pub struct DatabaseSettings {
    pub username: String,
    pub password: String,
    pub port: u16,
    pub host: String,
    pub name: String,
    pub require_ssl: bool,
}

/// Where the application binds.
pub struct ApplicationSettings {
    pub port: u16,
    pub host: String,
}

/// Configuration for the notification client.
pub struct EmailClientSettings {
    pub base_url: String,
    pub sender_email: String,
    pub api_key: String,
    pub timeout_milliseconds: u64,
}

impl EmailClientSettings {
    /// Validate the configured sender address.
    pub fn sender(&self) -> (r: Result<SubscriberEmail, ValidationError>)
        ensures
            email_parse_post(self.sender_email@, r),
    {
        SubscriberEmail::parse(self.sender_email.clone())
    }

    /// The configured per-call timeout, in milliseconds.
    pub fn timeout(&self) -> (r: u64)
        ensures
            r == self.timeout_milliseconds,
    {
        self.timeout_milliseconds
    }

    /// Build the notification client this configuration describes; fails
    /// exactly when the configured sender address is invalid.
    pub fn client(&self) -> (r: Result<EmailClient, ValidationError>)
        ensures
            match r {
                Ok(c) => {
                    &&& email_ok(self.sender_email@)
                    &&& c.base_url@ == self.base_url@
                    &&& c.sender@ == self.sender_email@
                    &&& c.api_key@ == self.api_key@
                    &&& c.timeout_milliseconds == self.timeout_milliseconds
                },
                Err(e) => !email_ok(self.sender_email@) && e == ValidationError::InvalidEmail,
            },
    {
        let sender = match self.sender() {
            Ok(s) => s,
            Err(e) => {
                return Err(e);
            },
        };
        Ok(
            EmailClient::new(
                self.base_url.clone(),
                sender,
                self.api_key.clone(),
                self.timeout_milliseconds,
            ),
        )
    }
}

/// The whole immutable configuration value: built once at process start by
/// the boundary, then passed by value or reference into every component
/// constructor, never held as ambient global state.
pub struct Settings {
    pub database: DatabaseSettings,
    pub application: ApplicationSettings,
    pub email_client: EmailClientSettings,
}

} // verus!
