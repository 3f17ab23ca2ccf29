//! The configuration of the service, decided once from the environment.

use crate::text::{join, same_text};
use vstd::prelude::*;
use vstd::string::StringExecFns;

verus! {

/// The storage behind the service.
#[derive(Clone, Copy, Debug, PartialEq, Eq, Structural)]
pub enum DatabaseBackend {
    Sqlite,
    Postgres,
}

/// The settings of a running service.
#[derive(Clone, Debug, PartialEq, Eq)]
pub struct Config {
    pub bind_address: String,
    pub database_url: String,
    pub database_backend: DatabaseBackend,
    pub auth_enabled: bool,
}

/// A fault in the environment.
#[derive(Clone, Debug, PartialEq, Eq)]
pub enum ConfigError {
    MissingEnvVar(String),
}

/// The variables that configure the service, as they were found at startup;
/// a variable that is unset or not text is absent.
#[derive(Clone, Debug, PartialEq, Eq)]
pub struct Environment {
    /// `DATABASE_BACKEND`
    pub database_backend: Option<String>,
    /// `DATABASE_URL`
    pub database_url: Option<String>,
    /// `BIND_ADDRESS`
    pub bind_address: Option<String>,
    /// `AUTH_ENABLED`
    pub auth_enabled: Option<String>,
}

/// The backend that a value of `DATABASE_BACKEND` selects: `postgres` and
/// nothing else selects Postgres.
pub open spec fn selected_backend(value: Option<String>) -> DatabaseBackend {
    match value {
        Some(value) => if value@ == "postgres"@ {
            DatabaseBackend::Postgres
        } else {
            DatabaseBackend::Sqlite
        },
        None => DatabaseBackend::Sqlite,
    }
}

/// The connection string used where `DATABASE_URL` is absent.
pub open spec fn default_database_url(backend: DatabaseBackend) -> Seq<char> {
    match backend {
        DatabaseBackend::Sqlite => "sqlite:./data/app.db?mode=rwc"@,
        DatabaseBackend::Postgres => "postgres://localhost/native_leptos"@,
    }
}

/// Whether a value of `AUTH_ENABLED` switches authentication on: `true` and
/// `1` do.
pub open spec fn auth_switch(value: Option<String>) -> bool {
    match value {
        Some(value) => value@ == "true"@ || value@ == "1"@,
        None => false,
    }
}

/// The text to use where a variable may be absent.
pub open spec fn text_or(value: Option<String>, default: Seq<char>) -> Seq<char> {
    match value {
        Some(value) => value@,
        None => default,
    }
}

impl ConfigError {
    /// The description of the fault.
    pub open spec fn text(self) -> Seq<char> {
        match self {
            ConfigError::MissingEnvVar(name) => "Missing required environment variable: "@
                + name@,
        }
    }

    /// The description of the fault, as its display form.
    pub fn message(&self) -> (text: String)
        ensures
            text@ == self.text(),
    {
        match self {
            ConfigError::MissingEnvVar(name) => join(
                "Missing required environment variable: ",
                name.as_str(),
            ),
        }
    }
}

impl Config {
    /// The configuration that the environment asks for. Every variable has a
    /// default, so this always succeeds.
    pub fn from_env(environment: Environment) -> (r: Result<Config, ConfigError>)
        ensures
            r matches Ok(config) && ({
                &&& config.database_backend == selected_backend(environment.database_backend)
                &&& config.database_url@ == text_or(
                    environment.database_url,
                    default_database_url(config.database_backend),
                )
                &&& config.bind_address@ == text_or(
                    environment.bind_address,
                    "127.0.0.1:3000"@,
                )
                &&& config.auth_enabled == auth_switch(environment.auth_enabled)
            }),
    {
        let database_backend = match &environment.database_backend {
            Some(value) => if same_text(value.as_str(), "postgres") {
                DatabaseBackend::Postgres
            } else {
                DatabaseBackend::Sqlite
            },
            None => DatabaseBackend::Sqlite,
        };
        let database_url = match environment.database_url {
            Some(value) => value,
            None => match database_backend {
                DatabaseBackend::Sqlite => String::from_str("sqlite:./data/app.db?mode=rwc"),
                DatabaseBackend::Postgres => String::from_str(
                    "postgres://localhost/native_leptos",
                ),
            },
        };
        let bind_address = match environment.bind_address {
            Some(value) => value,
            None => String::from_str("127.0.0.1:3000"),
        };
        let auth_enabled = match &environment.auth_enabled {
            Some(value) => same_text(value.as_str(), "true") || same_text(value.as_str(), "1"),
            None => false,
        };
        Ok(Config { bind_address, database_url, database_backend, auth_enabled })
    }
}

} // verus!
