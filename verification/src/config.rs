//! How the service is set up: the options of the store connection, and the
//! fixed sizes and addresses.

use vstd::prelude::*;
use vstd::string::StringExecFns;

verus! {

/// The most connections that the pool holds open at a time.
pub const POOL_MAX_SIZE: usize = 16;

/// The port on which the service listens, on all interfaces.
pub const LISTEN_PORT: u16 = 80;

/// An option of the store connection.
#[derive(Clone, Copy, Debug, PartialEq, Eq, Structural)]
pub enum Setting {
    Host,
    User,
    Database,
    Password,
}

/// The environment variable that sets an option.
pub open spec fn variable_of(setting: Setting) -> Seq<char> {
    match setting {
        Setting::Host => "DB_HOST"@,
        Setting::User => "DB_USER"@,
        Setting::Database => "DB_NAME"@,
        Setting::Password => "DB_PASS"@,
    }
}

/// The value of an option where the environment sets none: those of a local
/// development store.
pub open spec fn fallback_of(setting: Setting) -> Seq<char> {
    match setting {
        Setting::Host => "localhost"@,
        Setting::User => "postgres"@,
        Setting::Database => "postgres"@,
        Setting::Password => "password"@,
    }
}

/// The value of an option, given what the environment holds for it.
pub open spec fn resolved(setting: Setting, found: Option<String>) -> Seq<char> {
    match found {
        Some(value) => value@,
        None => fallback_of(setting),
    }
}

impl Setting {
    /// The environment variable that sets this option.
    pub fn variable(&self) -> (name: &'static str)
        ensures
            name@ == variable_of(*self),
    {
        match self {
            Setting::Host => "DB_HOST",
            Setting::User => "DB_USER",
            Setting::Database => "DB_NAME",
            Setting::Password => "DB_PASS",
        }
    }

    /// The value where the environment sets none.
    pub fn fallback(&self) -> (value: &'static str)
        ensures
            value@ == fallback_of(*self),
    {
        match self {
            Setting::Host => "localhost",
            Setting::User => "postgres",
            Setting::Database => "postgres",
            Setting::Password => "password",
        }
    }

    /// The value of this option: what the environment holds for it, or the
    /// fallback.
    pub fn resolve(&self, found: Option<String>) -> (value: String)
        ensures
            value@ == resolved(*self, found),
    {
        match found {
            Some(value) => value,
            None => String::from_str(self.fallback()),
        }
    }
}

/// The options of the store connection.
#[derive(Clone, Debug, PartialEq, Eq)]
pub struct StoreSettings {
    pub host: String,
    pub user: String,
    pub dbname: String,
    pub password: String,
}

impl StoreSettings {
    /// The options, given what the environment holds for each.
    pub fn from_environment(
        host: Option<String>,
        user: Option<String>,
        dbname: Option<String>,
        password: Option<String>,
    ) -> (settings: StoreSettings)
        ensures
            settings.host@ == resolved(Setting::Host, host),
            settings.user@ == resolved(Setting::User, user),
            settings.dbname@ == resolved(Setting::Database, dbname),
            settings.password@ == resolved(Setting::Password, password),
    {
        StoreSettings {
            host: Setting::Host.resolve(host),
            user: Setting::User.resolve(user),
            dbname: Setting::Database.resolve(dbname),
            password: Setting::Password.resolve(password),
        }
    }
}

} // verus!
