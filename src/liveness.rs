//! Decisions of the server liveness monitor.
use vstd::prelude::*;
use crate::models::{Server, ServerStatus, WsEvent};
use crate::text::{concat2, decimal, push_decimal};

verus! {

/// SSH port of a server registered without one.
pub fn default_port() -> (r: u16)
    ensures
        r == 22,
{
    22
}

/// Login of a server registered without one.
pub fn default_username() -> (r: String)
    ensures
        r@ == "root"@,
{
    String::from_str("root")
}

/// The address probed: `{host}:{port}`.
pub fn probe_address(host: &str, port: u16) -> (r: String)
    ensures
        r@ == host@ + ":"@ + decimal(port as nat),
{
    let mut s = concat2(host, ":");
    push_decimal(&mut s, port as u64);
    s
}

/// The status a probe shows: the local host is always online; a remote one
/// is online only when the probe connected (`reachable` is none when the
/// probe itself failed).
pub open spec fn observed(is_local: bool, reachable: Option<bool>) -> ServerStatus {
    if is_local || reachable == Some(true) {
        ServerStatus::Online
    } else {
        ServerStatus::Offline
    }
}

pub fn observed_status(is_local: bool, reachable: Option<bool>) -> (r: ServerStatus)
    ensures
        r == observed(is_local, reachable),
{
    if is_local {
        ServerStatus::Online
    } else {
        match reachable {
            Some(true) => ServerStatus::Online,
            _ => ServerStatus::Offline,
        }
    }
}

/// Applies one probe to a server. On a change of status the server takes
/// the new status and `last_seen_at = now`, and the change is announced;
/// otherwise nothing changes.
pub fn server_tick(server: &mut Server, reachable: Option<bool>, now: i64) -> (r: Option<WsEvent>)
    ensures
        observed(old(server).is_local, reachable) == old(server).status ==> *final(server) == *old(
            server,
        ) && r is None,
        observed(old(server).is_local, reachable) != old(server).status ==> final(server).status
            == observed(old(server).is_local, reachable) && final(server).last_seen_at == Some(now)
            && final(server).id == old(server).id && final(server).is_local == old(server).is_local
            && (r matches Some(WsEvent::ServerHealth { server_id, status }) && server_id
            == old(server).id && status == final(server).status),
{
    let new_status = observed_status(server.is_local, reachable);
    if new_status == server.status {
        None
    } else {
        server.status = new_status;
        server.last_seen_at = Some(now);
        Some(WsEvent::ServerHealth { server_id: server.id.clone(), status: new_status })
    }
}

} // verus!
