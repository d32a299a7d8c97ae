//! The commands a caller may submit and the typed responses they produce.

use vstd::prelude::*;

verus! {

/// Which external operation a caller wants performed. Variants carry only
/// the parameters that operation needs (none, so far). A value is created by
/// a caller task and consumed exactly once by the dispatcher.
#[derive(Clone, Copy, PartialEq, Eq, Structural, Debug)]
pub enum NetworkCommand {
    CheckConnectivity,
    ListConnections,
    ListWiFiNetworks,
}

/// The connectivity state of the system, as one human-readable word.
pub struct Connectivity {
    pub connectivity: String,
}

impl Connectivity {
    pub fn new(connectivity: String) -> (r: Connectivity)
        ensures
            r.connectivity == connectivity,
    {
        Connectivity { connectivity }
    }
}

/// One saved connection profile: its human-readable id and its uuid.
pub struct ConnectionDetails {
    pub id: String,
    pub uuid: String,
}

impl ConnectionDetails {
    pub fn new(id: String, uuid: String) -> (r: ConnectionDetails)
        ensures
            r.id == id,
            r.uuid == uuid,
    {
        ConnectionDetails { id, uuid }
    }
}

/// The ordered list of saved connection profiles.
pub struct ConnectionList {
    pub connections: Vec<ConnectionDetails>,
}

impl ConnectionList {
    pub fn new(connections: Vec<ConnectionDetails>) -> (r: ConnectionList)
        ensures
            r.connections == connections,
    {
        ConnectionList { connections }
    }
}

/// A typed response, mirroring the command variants one for one.
pub enum NetworkResponse {
    CheckConnectivity(Connectivity),
    ListConnections(ConnectionList),
    ListWiFiNetworks(Vec<String>),
}

/// The handlers the dispatcher can schedule, one per command variant.
#[derive(Clone, Copy, PartialEq, Eq, Structural, Debug)]
pub enum HandlerKind {
    CheckConnectivity,
    ListConnections,
    ListWiFiNetworks,
}

pub open spec fn spec_handler_for(c: NetworkCommand) -> HandlerKind {
    match c {
        NetworkCommand::CheckConnectivity => HandlerKind::CheckConnectivity,
        NetworkCommand::ListConnections => HandlerKind::ListConnections,
        NetworkCommand::ListWiFiNetworks => HandlerKind::ListWiFiNetworks,
    }
}

/// The dispatcher's table: which handler serves which command. The match is
/// exhaustive, so adding a command variant forces exactly one new entry
/// here and one new handler, and nothing else.
pub fn handler_for(command: &NetworkCommand) -> (h: HandlerKind)
    ensures
        h == spec_handler_for(*command),
{
    match command {
        NetworkCommand::CheckConnectivity => HandlerKind::CheckConnectivity,
        NetworkCommand::ListConnections => HandlerKind::ListConnections,
        NetworkCommand::ListWiFiNetworks => HandlerKind::ListWiFiNetworks,
    }
}

/// A response answers the command it was produced for: the variants must
/// correspond. Every handler promises this of what it returns.
pub open spec fn response_matches(c: NetworkCommand, r: NetworkResponse) -> bool {
    match c {
        NetworkCommand::CheckConnectivity => r is CheckConnectivity,
        NetworkCommand::ListConnections => r is ListConnections,
        NetworkCommand::ListWiFiNetworks => r is ListWiFiNetworks,
    }
}

} // verus!
