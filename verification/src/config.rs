//! Settings of the server that runs the sessions.

use crate::fixed::Fixed;
use crate::text::{parse_number, parsed};
use vstd::prelude::*;

verus! {

#[derive(Debug, Clone)]
pub struct AppConfig {
    pub server_id: String,
    pub server_name: String,
    pub server_ip: String,
    /// Degrees north.
    pub server_lat: Fixed,
    /// Degrees east.
    pub server_lon: Fixed,
    pub bind_host: String,
    pub bind_port: u16,
    pub max_concurrent_tests: usize,
    pub database_path: String,
    pub default_test_duration_ms: u64,
    pub chunk_size_bytes: usize,
    pub min_test_duration_ms: u64,
    pub max_test_duration_ms: u64,
}

/// What the environment of the process holds for each setting; `None` where
/// the variable is not set. The two coordinates come as numbers: `None` also
/// where the variable holds no number.
#[derive(Debug, Clone)]
pub struct Environment {
    pub server_id: Option<String>,
    pub server_name: Option<String>,
    pub server_ip: Option<String>,
    pub server_lat: Option<Fixed>,
    pub server_lon: Option<Fixed>,
    pub bind_host: Option<String>,
    pub bind_port: Option<String>,
    pub max_concurrent_tests: Option<String>,
    pub database_path: Option<String>,
    pub default_test_duration_ms: Option<String>,
    pub chunk_size_bytes: Option<String>,
    pub min_test_duration_ms: Option<String>,
    pub max_test_duration_ms: Option<String>,
}

/// The text of a setting: what the environment holds, or the default.
pub open spec fn text_or(value: Option<String>, default: Seq<char>) -> Seq<char> {
    match value {
        Some(text) => text@,
        None => default,
    }
}

/// The number of a setting: what the environment holds where that is a
/// decimal number of at most `max`, or the default.
pub open spec fn number_or(value: Option<String>, max: int, default: int) -> int {
    match value {
        Some(text) => match parsed(text@, max) {
            Some(v) => v,
            None => default,
        },
        None => default,
    }
}

/// The coordinate of a setting: what the environment holds, or the default.
pub open spec fn fixed_or(value: Option<Fixed>, default: int) -> int {
    match value {
        Some(v) => v@,
        None => default,
    }
}

fn take_text(value: Option<String>, default: &str) -> (r: String)
    ensures
        r@ == text_or(value, default@),
{
    match value {
        Some(text) => text,
        None => String::from_str(default),
    }
}

fn take_number(value: &Option<String>, max: u64, default: u64) -> (r: u64)
    requires
        default <= max,
    ensures
        r == number_or(*value, max as int, default as int),
        r <= max,
{
    match value {
        Some(text) => match parse_number(text.as_str(), max) {
            Some(v) => v,
            None => default,
        },
        None => default,
    }
}

fn take_fixed(value: Option<Fixed>, default: i64) -> (r: Fixed)
    ensures
        r@ == fixed_or(value, default as int),
{
    match value {
        Some(v) => v,
        None => Fixed::from_micros(default),
    }
}

impl AppConfig {
    /// These are the settings that the environment `env` gives: for each
    /// setting what it holds, and the default where it holds nothing that
    /// can be used.
    pub open spec fn is_from(self, env: Environment) -> bool {
        &&& self.server_id@ == text_or(env.server_id, "mumbai-01"@)
        &&& self.server_name@ == text_or(env.server_name, "Mumbai, India"@)
        &&& self.server_ip@ == text_or(env.server_ip, "127.0.0.1"@)
        &&& self.server_lat@ == fixed_or(env.server_lat, 19_076_000)
        &&& self.server_lon@ == fixed_or(env.server_lon, 72_877_700)
        &&& self.bind_host@ == text_or(env.bind_host, "0.0.0.0"@)
        &&& self.bind_port == number_or(env.bind_port, u16::MAX as int, 8080)
        &&& self.max_concurrent_tests == number_or(
            env.max_concurrent_tests,
            usize::MAX as int,
            50,
        )
        &&& self.database_path@ == text_or(env.database_path, "./data/speedtest.db"@)
        &&& self.default_test_duration_ms == number_or(
            env.default_test_duration_ms,
            u64::MAX as int,
            10000,
        )
        &&& self.chunk_size_bytes == number_or(env.chunk_size_bytes, usize::MAX as int, 65536)
        &&& self.min_test_duration_ms == number_or(
            env.min_test_duration_ms,
            u64::MAX as int,
            5000,
        )
        &&& self.max_test_duration_ms == number_or(
            env.max_test_duration_ms,
            u64::MAX as int,
            30000,
        )
    }

    /// The settings that the environment gives.
    pub fn from_env(env: Environment) -> (c: AppConfig)
        ensures
            c.is_from(env),
    {
        let bind_port = take_number(&env.bind_port, 0xffff, 8080);
        let max_concurrent_tests = take_number(&env.max_concurrent_tests, usize::MAX as u64, 50);
        let default_test_duration_ms = take_number(&env.default_test_duration_ms, u64::MAX, 10000);
        let chunk_size_bytes = take_number(&env.chunk_size_bytes, usize::MAX as u64, 65536);
        let min_test_duration_ms = take_number(&env.min_test_duration_ms, u64::MAX, 5000);
        let max_test_duration_ms = take_number(&env.max_test_duration_ms, u64::MAX, 30000);
        AppConfig {
            server_id: take_text(env.server_id, "mumbai-01"),
            server_name: take_text(env.server_name, "Mumbai, India"),
            server_ip: take_text(env.server_ip, "127.0.0.1"),
            server_lat: take_fixed(env.server_lat, 19_076_000),
            server_lon: take_fixed(env.server_lon, 72_877_700),
            bind_host: take_text(env.bind_host, "0.0.0.0"),
            bind_port: bind_port as u16,
            max_concurrent_tests: max_concurrent_tests as usize,
            database_path: take_text(env.database_path, "./data/speedtest.db"),
            default_test_duration_ms,
            chunk_size_bytes: chunk_size_bytes as usize,
            min_test_duration_ms,
            max_test_duration_ms,
        }
    }

    /// These are the settings of a server for which nothing was set.
    pub open spec fn is_default(self) -> bool {
        &&& self.server_id@ == "mumbai-01"@
        &&& self.server_name@ == "Mumbai, India"@
        &&& self.server_ip@ == "127.0.0.1"@
        &&& self.server_lat@ == 19_076_000
        &&& self.server_lon@ == 72_877_700
        &&& self.bind_host@ == "0.0.0.0"@
        &&& self.bind_port == 8080
        &&& self.max_concurrent_tests == 50
        &&& self.database_path@ == "./data/speedtest.db"@
        &&& self.default_test_duration_ms == 10000
        &&& self.chunk_size_bytes == 65536
        &&& self.min_test_duration_ms == 5000
        &&& self.max_test_duration_ms == 30000
    }
}

impl Default for AppConfig {
    fn default() -> (c: AppConfig)
        ensures
            c.is_default(),
    {
        AppConfig {
            server_id: String::from_str("mumbai-01"),
            server_name: String::from_str("Mumbai, India"),
            server_ip: String::from_str("127.0.0.1"),
            server_lat: Fixed::from_micros(19_076_000),
            server_lon: Fixed::from_micros(72_877_700),
            bind_host: String::from_str("0.0.0.0"),
            bind_port: 8080,
            max_concurrent_tests: 50,
            database_path: String::from_str("./data/speedtest.db"),
            default_test_duration_ms: 10000,
            chunk_size_bytes: 65536,
            min_test_duration_ms: 5000,
            max_test_duration_ms: 30000,
        }
    }
}

} // verus!
