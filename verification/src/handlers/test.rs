//! The basic test: its start, and the replies to lookups of results.

use crate::config::AppConfig;
use crate::models::{fresh_id, StartTestRequest, StartTestResponse};
use crate::text::{decimal, u64_text};
use vstd::prelude::*;

verus! {

/// The address at which a client opens the socket of a test.
pub open spec fn socket_url(config: AppConfig, path: Seq<char>, test_id: Seq<char>) -> Seq<char> {
    "ws://"@ + config.server_ip@ + ":"@ + decimal(config.bind_port as nat) + path + test_id
}

/// The address of the server as its probes name it.
pub open spec fn target_text(config: AppConfig) -> Seq<char> {
    config.server_ip@ + ":"@ + decimal(config.bind_port as nat)
}

/// How long a test runs: what the request asks for, the default where it
/// asks for nothing, and within the limits that the settings draw.
pub open spec fn planned_duration(req: StartTestRequest, config: AppConfig) -> int {
    let asked = match req.duration_ms {
        Some(ms) => ms,
        None => config.default_test_duration_ms,
    };
    if asked < config.min_test_duration_ms {
        config.min_test_duration_ms as int
    } else if asked > config.max_test_duration_ms {
        config.max_test_duration_ms as int
    } else {
        asked as int
    }
}

/// How long a test runs.
pub fn test_duration_ms(req: &StartTestRequest, config: &AppConfig) -> (ms: u64)
    requires
        config.min_test_duration_ms <= config.max_test_duration_ms,
    ensures
        ms == planned_duration(*req, *config),
{
    let asked: u64 = match req.duration_ms {
        Some(ms) => ms,
        None => config.default_test_duration_ms,
    };
    if asked < config.min_test_duration_ms {
        config.min_test_duration_ms
    } else if asked > config.max_test_duration_ms {
        config.max_test_duration_ms
    } else {
        asked
    }
}

/// The address at which a client opens the socket of the test `test_id`,
/// under the given path.
pub fn websocket_url(config: &AppConfig, path: &str, test_id: &str) -> (url: String)
    ensures
        url@ == socket_url(*config, path@, test_id@),
{
    let mut url = String::from_str("ws://");
    url.append(config.server_ip.as_str());
    url.append(":");
    url.append(u64_text(config.bind_port as u64).as_str());
    url.append(path);
    url.append(test_id);
    url
}

/// The address of the server as its probes name it.
pub fn probe_target(config: &AppConfig) -> (target: String)
    ensures
        target@ == target_text(*config),
{
    let mut target = String::from_str(config.server_ip.as_str());
    target.append(":");
    target.append(u64_text(config.bind_port as u64).as_str());
    target
}

/// The response to the start of a basic test: a fresh identifier of 36
/// characters, and the address of the socket of the test.
pub fn start_test(config: &AppConfig) -> (response: StartTestResponse)
    ensures
        response.test_id@.len() == 36,
        response.server_id == config.server_id,
        response.websocket_url@ == socket_url(*config, "/ws/test/"@, response.test_id@),
{
    let test_id = fresh_id();
    let websocket_url = websocket_url(config, "/ws/test/", test_id.as_str());
    StartTestResponse { test_id, server_id: config.server_id.clone(), websocket_url }
}

/// What a failed test tells its client.
pub open spec fn failure_text(error: Seq<char>) -> Seq<char> {
    "{\"error\": \""@ + error + "\"}"@
}

/// What a failed test tells its client.
pub fn failure_message(error: &str) -> (message: String)
    ensures
        message@ == failure_text(error@),
{
    let mut message = String::from_str("{\"error\": \"");
    message.append(error);
    message.append("\"}");
    message
}

/// How a lookup in the store ended.
#[derive(Debug, Clone, Copy, PartialEq, Eq, Structural)]
pub enum Lookup {
    Found,
    Missing,
    Failed,
}

/// The reply to a lookup: its status and, where there is no result to send,
/// the error to name.
#[derive(Debug, Clone)]
pub struct LookupReply {
    pub status: u16,
    pub error: Option<String>,
}

/// The status of the reply to a lookup.
pub open spec fn status_of(lookup: Lookup) -> int {
    match lookup {
        Lookup::Found => 200,
        Lookup::Missing => 404,
        Lookup::Failed => 500,
    }
}

/// The reply to the lookup of one result.
pub fn get_result(lookup: Lookup) -> (reply: LookupReply)
    ensures
        reply.status == status_of(lookup),
        match lookup {
            Lookup::Found => reply.error is None,
            Lookup::Missing => reply.error is Some && reply.error->Some_0@
                == "Test result not found"@,
            Lookup::Failed => reply.error is Some && reply.error->Some_0@
                == "Failed to fetch test result"@,
        },
{
    match lookup {
        Lookup::Found => LookupReply { status: 200, error: None },
        Lookup::Missing => LookupReply {
            status: 404,
            error: Some(String::from_str("Test result not found")),
        },
        Lookup::Failed => LookupReply {
            status: 500,
            error: Some(String::from_str("Failed to fetch test result")),
        },
    }
}

/// The reply to the lookup of the history: there is a list, or the lookup
/// failed.
pub fn get_history(found: bool) -> (reply: LookupReply)
    ensures
        reply.status == if found {
            200int
        } else {
            500int
        },
        found ==> reply.error is None,
        !found ==> reply.error is Some && reply.error->Some_0@ == "Failed to fetch test history"@,
{
    if found {
        LookupReply { status: 200, error: None }
    } else {
        LookupReply { status: 500, error: Some(String::from_str("Failed to fetch test history")) }
    }
}

} // verus!
