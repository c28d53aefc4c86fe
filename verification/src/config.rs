//! Application settings, read from named text values (the environment,
//! where the program runs), with defaults for the optional ones.

use vstd::prelude::*;

use crate::text::{owned, parse_unsigned, spec_parse_uint};

verus! {

/// Application-wide settings.
#[derive(Debug, Clone)]
pub struct Config {
    pub database_url: String,
    pub max_connections: u32,
    pub acquire_timeout_seconds: u64,
    pub jwt_secret: String,
    pub jwt_expires_in_seconds: u64,
    pub server_port: u16,
}

/// The text of an optional setting, or its default.
pub open spec fn or_default(v: Option<String>, default: Seq<char>) -> Seq<char> {
    match v {
        Some(s) => s@,
        None => default,
    }
}

/// Reading a number setting that may go up to `max`.
pub open spec fn number_setting(v: Option<String>, default: Seq<char>, max: nat) -> Option<nat> {
    match spec_parse_uint(or_default(v, default), max) {
        Ok(n) => Some(n),
        Err(_) => None,
    }
}

/// The first problem with the given settings, if any, as its message;
/// the settings are checked in a fixed order.
pub open spec fn config_problem(
    database_url: Option<String>,
    max_connections: Option<String>,
    acquire_timeout: Option<String>,
    jwt_secret: Option<String>,
    jwt_expires_in: Option<String>,
    server_port: Option<String>,
) -> Option<Seq<char>> {
    if database_url is None {
        Some("DATABASE_URL not set"@)
    } else if number_setting(max_connections, "5"@, u32::MAX as nat) is None {
        Some("DB_MAX_CONNECTIONS must be a valid number"@)
    } else if number_setting(acquire_timeout, "3"@, u64::MAX as nat) is None {
        Some("DB_ACQUIRE_TIMEOUT_SECONDS must be a valid number"@)
    } else if jwt_secret is None {
        Some("JWT_SECRET not set"@)
    } else if number_setting(jwt_expires_in, "86400"@, u64::MAX as nat) is None {
        Some("JWT_EXPIRES_IN_SECONDS must be a valid number"@)
    } else if number_setting(server_port, "3000"@, u16::MAX as nat) is None {
        Some("SERVER_PORT must be a valid number"@)
    } else {
        None
    }
}

fn read_number(v: &Option<String>, default: &str, max: u64) -> (r: Option<u64>)
    requires
        max >= 9,
    ensures
        match number_setting(*v, default@, max as nat) {
            Some(n) => r == Some(n as u64) && n <= max,
            None => r is None,
        },
{
    let text: &str = match v {
        Some(s) => s.as_str(),
        None => default,
    };
    match parse_unsigned(text, max) {
        Ok(n) => Some(n),
        Err(_) => None,
    }
}

impl Config {
    /// Reads the settings from their values, where set: `DATABASE_URL`,
    /// `DB_MAX_CONNECTIONS` (default 5), `DB_ACQUIRE_TIMEOUT_SECONDS`
    /// (default 3), `JWT_SECRET`, `JWT_EXPIRES_IN_SECONDS` (default 86400)
    /// and `SERVER_PORT` (default 3000). Numbers are read as `str::parse`
    /// reads them into the field's type.
    pub fn from_values(
        database_url: Option<String>,
        max_connections: Option<String>,
        acquire_timeout: Option<String>,
        jwt_secret: Option<String>,
        jwt_expires_in: Option<String>,
        server_port: Option<String>,
    ) -> (r: Result<Config, String>)
        ensures
            match config_problem(
                database_url,
                max_connections,
                acquire_timeout,
                jwt_secret,
                jwt_expires_in,
                server_port,
            ) {
                Some(m) => r matches Err(e) && e@ == m,
                None => r matches Ok(c) && Some(c.database_url) == database_url && Some(
                    c.max_connections as nat,
                ) == number_setting(max_connections, "5"@, u32::MAX as nat) && Some(
                    c.acquire_timeout_seconds as nat,
                ) == number_setting(acquire_timeout, "3"@, u64::MAX as nat) && Some(c.jwt_secret)
                    == jwt_secret && Some(c.jwt_expires_in_seconds as nat) == number_setting(
                    jwt_expires_in,
                    "86400"@,
                    u64::MAX as nat,
                ) && Some(c.server_port as nat) == number_setting(
                    server_port,
                    "3000"@,
                    u16::MAX as nat,
                ),
            },
    {
        let database_url = match database_url {
            Some(s) => s,
            None => return Err(owned("DATABASE_URL not set")),
        };
        let max_connections = match read_number(&max_connections, "5", 0xffff_ffff) {
            Some(n) => n as u32,
            None => return Err(owned("DB_MAX_CONNECTIONS must be a valid number")),
        };
        let acquire_timeout_seconds = match read_number(
            &acquire_timeout,
            "3",
            0xffff_ffff_ffff_ffff,
        ) {
            Some(n) => n,
            None => return Err(owned("DB_ACQUIRE_TIMEOUT_SECONDS must be a valid number")),
        };
        let jwt_secret = match jwt_secret {
            Some(s) => s,
            None => return Err(owned("JWT_SECRET not set")),
        };
        let jwt_expires_in_seconds = match read_number(
            &jwt_expires_in,
            "86400",
            0xffff_ffff_ffff_ffff,
        ) {
            Some(n) => n,
            None => return Err(owned("JWT_EXPIRES_IN_SECONDS must be a valid number")),
        };
        let server_port = match read_number(&server_port, "3000", 0xffff) {
            Some(n) => n as u16,
            None => return Err(owned("SERVER_PORT must be a valid number")),
        };
        Ok(
            Config {
                database_url,
                max_connections,
                acquire_timeout_seconds,
                jwt_secret,
                jwt_expires_in_seconds,
                server_port,
            },
        )
    }
}

} // verus!
