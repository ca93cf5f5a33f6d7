//! The servers that a client can test against.

use crate::config::AppConfig;
use crate::fixed::Fixed;
use crate::models::{Location, ServerInfo};
use vstd::prelude::*;

verus! {

/// The load that is reported of the server, as a share of one.
pub const REPORTED_LOAD: i64 = 300_000;

/// The list of servers: this one, at the place its settings name.
pub fn get_servers(config: &AppConfig) -> (servers: Vec<ServerInfo>)
    ensures
        servers@.len() == 1,
        servers@[0].id == config.server_id,
        servers@[0].name == config.server_name,
        servers@[0].location == (Location { lat: config.server_lat, lon: config.server_lon }),
        servers@[0].available,
        servers@[0].load@ == 300_000,
{
    let mut servers: Vec<ServerInfo> = Vec::new();
    servers.push(
        ServerInfo {
            id: config.server_id.clone(),
            name: config.server_name.clone(),
            location: Location { lat: config.server_lat, lon: config.server_lon },
            available: true,
            load: Fixed::from_micros(REPORTED_LOAD),
        },
    );
    servers
}

} // verus!
