//! Settings of the server.

use crate::text::{parse_u16, parsed_u16};
use vstd::prelude::*;

verus! {

/// Where the database is and where the server listens.
#[derive(Debug, PartialEq, Eq)]
pub struct Config {
    pub database_url: String,
    pub server_host: String,
    pub server_port: u16,
}

/// The text of a setting: what was given, else the default.
pub open spec fn setting_or(given: Option<String>, default: Seq<char>) -> Seq<char> {
    match given {
        Some(text) => text@,
        None => default,
    }
}

/// The port of a setting: the number that was read, else 3000.
pub open spec fn port_or(read: Option<u16>) -> u16 {
    match read {
        Some(port) => port,
        None => 3000,
    }
}

/// The number that a port setting denotes, if it was given and is one.
pub open spec fn port_read(given: Option<String>) -> Option<u16> {
    match given {
        Some(text) => parsed_u16(text@),
        None => None,
    }
}

/// The port to listen on: the number that was read, else 3000.
pub fn port_or_default(read: Option<u16>) -> (port: u16)
    ensures
        port == port_or(read),
{
    match read {
        Some(port) => port,
        None => 3000,
    }
}

impl Config {
    /// The settings from what the environment gave, with a default for each
    /// setting that is missing and for a port that is no number.
    pub fn from_values(
        database_url: Option<String>,
        server_host: Option<String>,
        server_port: Option<String>,
    ) -> (config: Self)
        ensures
            config.database_url@ == setting_or(
                database_url,
                "postgresql://localhost/rust_boilerplate"@,
            ),
            config.server_host@ == setting_or(server_host, "127.0.0.1"@),
            config.server_port == port_or(port_read(server_port)),
    {
        let read = match &server_port {
            Some(text) => parse_u16(text.as_str()),
            None => None,
        };
        Config {
            database_url: match database_url {
                Some(text) => text,
                None => "postgresql://localhost/rust_boilerplate".to_owned(),
            },
            server_host: match server_host {
                Some(text) => text,
                None => "127.0.0.1".to_owned(),
            },
            server_port: port_or_default(read),
        }
    }
}

} // verus!
