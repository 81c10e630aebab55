//! The settings of the users service, made from what the environment holds.

use vstd::prelude::*;
use vstd::string::*;

verus! {

/// Why a variable of the environment could not be read.
#[derive(Clone, Copy, Debug, PartialEq, Eq, Structural)]
pub enum VarError {
    /// The variable is not set.
    NotPresent,
    /// Its value is no valid Unicode.
    NotUnicode,
}

/// The settings of the service.
#[derive(Debug, Clone)]
pub struct Config {
    pub database_url: String,
    pub server_address: String,
    pub log_level: String,
}

/// The value of a variable, or `fallback` where it could not be read.
pub open spec fn value_or(looked_up: Result<String, VarError>, fallback: Seq<char>) -> Seq<char> {
    match looked_up {
        Ok(value) => value@,
        Err(_) => fallback,
    }
}

impl Config {
    /// Makes the settings from the three lookups `DATABASE_URL`,
    /// `SERVER_ADDRESS` and `LOG_LEVEL`.
    ///
    /// The database URL has to be there: its error is the error of the whole.
    /// The address falls back to `0.0.0.0:8080` and the log level to `info`,
    /// whatever the reason why they could not be read.
    pub fn from_env(
        database_url: Result<String, VarError>,
        server_address: Result<String, VarError>,
        log_level: Result<String, VarError>,
    ) -> (config: Result<Config, VarError>)
        ensures
            match config {
                Ok(c) => database_url is Ok && c.database_url@ == database_url->Ok_0@
                    && c.server_address@ == value_or(server_address, "0.0.0.0:8080"@)
                    && c.log_level@ == value_or(log_level, "info"@),
                Err(e) => database_url == Err::<String, VarError>(e),
            },
    {
        let database_url = match database_url {
            Ok(value) => value,
            Err(e) => {
                return Err(e);
            },
        };
        let server_address = match server_address {
            Ok(value) => value,
            Err(_) => String::from_str("0.0.0.0:8080"),
        };
        let log_level = match log_level {
            Ok(value) => value,
            Err(_) => String::from_str("info"),
        };
        Ok(Config { database_url, server_address, log_level })
    }
}

} // verus!
