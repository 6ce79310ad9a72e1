//! The configuration of the service. It is read once, by the caller, and
//! handed to whatever needs it.

use crate::text::join;
use vstd::prelude::*;

verus! {

/// Where the store is and how to log in to it.
#[derive(Debug)]
pub struct Database {
    pub host: String,
    pub port: Option<String>,
    pub user: String,
    pub password: String,
    pub dbname: String,
    /// Whether the tables are dropped before they are created.
    pub clear: bool,
}

/// Where mail is sent from and through what.
#[derive(Debug)]
pub struct Email {
    pub host: String,
    pub port: String,
    pub user: String,
    pub password: String,
    pub from: String,
    pub reply_to: String,
}

/// What holds of the service as a whole.
#[derive(Debug)]
pub struct GeneralSettings {
    /// The address under which the service is reached, without a slash at
    /// its end.
    pub base_url: String,
    /// Whether this is the production service.
    pub is_prod: bool,
}

/// The keys of the payment provider.
#[derive(Debug)]
pub struct StripeSettings {
    pub publishable_key: String,
    pub secret_key: String,
    pub webhook_signature_secret: String,
}

/// The whole configuration.
#[derive(Debug)]
pub struct Settings {
    pub database: Database,
    pub email: Email,
    pub general: GeneralSettings,
    pub stripe: StripeSettings,
}

impl Settings {
    /// The configuration made of its four parts.
    pub fn new(
        database: Database,
        email: Email,
        general: GeneralSettings,
        stripe: StripeSettings,
    ) -> (settings: Settings)
        ensures
            settings.database == database,
            settings.email == email,
            settings.general == general,
            settings.stripe == stripe,
    {
        Settings { database, email, general, stripe }
    }

    /// The name of the database the service works on: the configured name,
    /// with `-PROD` behind it in production.
    pub open spec fn spec_database_name(&self) -> Seq<char> {
        if self.general.is_prod {
            self.database.dbname@ + "-PROD"@
        } else {
            self.database.dbname@
        }
    }

    /// The name of the database the service works on.
    pub fn database_name(&self) -> (name: String)
        ensures
            name@ == self.spec_database_name(),
    {
        if self.general.is_prod {
            join(self.database.dbname.as_str(), "-PROD")
        } else {
            self.database.dbname.clone()
        }
    }

    /// Whether the tables are dropped before they are created: only where
    /// the configuration asks for it, and never in production.
    pub fn clears_store(&self) -> (clears: bool)
        ensures
            clears == (!self.general.is_prod && self.database.clear),
    {
        !self.general.is_prod && self.database.clear
    }
}

} // verus!
