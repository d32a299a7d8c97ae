//! The decision logic of the command handlers.
//!
//! The handlers run on the worker's own scheduler and drive the external
//! client through asynchronous calls. The calls themselves stay outside the
//! library; each function here takes what such a call reported, as plain
//! values, and decides what the handler answers.

use vstd::prelude::*;

use crate::command::ConnectionDetails;
use crate::command::ConnectionList;
use crate::command::Connectivity;
use crate::command::NetworkCommand;
use crate::command::NetworkResponse;
use crate::command::response_matches;
use crate::fault::CauseChain;
use crate::fault::FaultKind;

verus! {

/// What the attempt to create the external client reported: whether the
/// construction call itself failed, and whether the daemon answered as
/// running.
pub fn client_outcome(creation: Result<(), CauseChain>, daemon_running: bool) -> (r: Result<
    (),
    CauseChain,
>)
    ensures
        creation matches Err(e) ==> (r matches Err(c) && c.wf() && c.kind_spec() == e.kind_spec()
            && c.frames_spec() =~= e.frames_spec().push(
            "Failed to create NetworkManager client"@,
        )),
        creation is Ok && !daemon_running ==> (r matches Err(c) && c.wf() && c.kind_spec()
            == FaultKind::Transport && c.frames_spec() =~= seq![
            "NetworkManager daemon is not running"@,
        ]),
        creation is Ok && daemon_running ==> r is Ok,
{
    match creation {
        Err(cause) => Err(cause.context("Failed to create NetworkManager client".to_owned())),
        Ok(_) => {
            if !daemon_running {
                Err(
                    CauseChain::root(
                        FaultKind::Transport,
                        "NetworkManager daemon is not running".to_owned(),
                    ),
                )
            } else {
                Ok(())
            }
        },
    }
}

/// What the connectivity check reported: the state word on success, the
/// cause of the failed call otherwise. A failure is wrapped in the frame
/// naming the operation; a success becomes the typed response.
pub fn connectivity_outcome(checked: Result<String, CauseChain>) -> (r: Result<
    NetworkResponse,
    CauseChain,
>)
    ensures
        checked matches Ok(state) ==> (r matches Ok(resp) && resp matches
            NetworkResponse::CheckConnectivity(c) && c.connectivity == state && response_matches(
            NetworkCommand::CheckConnectivity,
            resp,
        )),
        checked matches Err(e) ==> (r matches Err(c) && c.wf() && c.kind_spec() == e.kind_spec()
            && c.frames_spec() =~= e.frames_spec().push(
            "Failed to execute check connectivity"@,
        )),
{
    match checked {
        Ok(state) => Ok(NetworkResponse::CheckConnectivity(Connectivity::new(state))),
        Err(cause) => Err(cause.context("Failed to execute check connectivity".to_owned())),
    }
}

/// What the client knows of one saved connection: its settings block, if it
/// has one, and the id and uuid recorded there, if any.
pub struct RawConnection {
    pub settings: Option<RawConnectionSettings>,
}

pub struct RawConnectionSettings {
    pub id: Option<String>,
    pub uuid: Option<String>,
}

/// A connection is listed exactly when it has a settings block that records
/// both an id and a uuid.
pub open spec fn listed(c: RawConnection) -> bool {
    c.settings matches Some(s) && s.id is Some && s.uuid is Some
}

/// The details the listing keeps of the connections worth listing, in the
/// order the client reported them.
pub open spec fn spec_collect(raw: Seq<RawConnection>) -> Seq<(Seq<char>, Seq<char>)>
    decreases raw.len(),
{
    if raw.len() == 0 {
        Seq::empty()
    } else {
        let rest = spec_collect(raw.drop_last());
        if listed(raw.last()) {
            rest.push(
                (
                    raw.last().settings.unwrap().id.unwrap()@,
                    raw.last().settings.unwrap().uuid.unwrap()@,
                ),
            )
        } else {
            rest
        }
    }
}

/// Lists the connections the client reported: those with an id and a uuid,
/// in reported order. Always a success — a subsystem with nothing saved
/// yields an empty list, not an error.
pub fn connections_outcome(raw: Vec<RawConnection>) -> (r: Result<NetworkResponse, CauseChain>)
    ensures
        r matches Ok(resp) && resp matches NetworkResponse::ListConnections(list) && ({
            let entries = spec_collect(raw@);
            &&& list.connections@.len() == entries.len()
            &&& forall|i: int|
                0 <= i < entries.len() ==> (list.connections@[i].id@, list.connections@[i].uuid@)
                    == entries[i]
        }),
        r matches Ok(resp) && response_matches(NetworkCommand::ListConnections, resp),
{
    let mut connections: Vec<ConnectionDetails> = Vec::new();
    let mut i: usize = 0;
    while i < raw.len()
        invariant
            i <= raw.len(),
            connections@.len() == spec_collect(raw@.take(i as int)).len(),
            forall|j: int|
                0 <= j < connections@.len() ==> (connections@[j].id@, connections@[j].uuid@)
                    == spec_collect(raw@.take(i as int))[j],
        decreases raw.len() - i,
    {
        proof {
            assert(raw@.take(i + 1 as int).drop_last() =~= raw@.take(i as int));
            assert(raw@.take(i + 1 as int).last() == raw@[i as int]);
        }
        let entry = &raw[i];
        match &entry.settings {
            Some(settings) => match (&settings.id, &settings.uuid) {
                (Some(id), Some(uuid)) => {
                    connections.push(ConnectionDetails::new(id.clone(), uuid.clone()));
                },
                _ => {},
            },
            None => {},
        }
        i = i + 1;
    }
    proof {
        assert(raw@.take(raw@.len() as int) =~= raw@);
    }
    Ok(NetworkResponse::ListConnections(ConnectionList::new(connections)))
}

/// What the worker reads of one device the client reported: whether it is a
/// wireless device, and whether the daemon manages it.
#[derive(Clone, Copy, PartialEq, Eq, Structural, Debug)]
pub struct DeviceInfo {
    pub is_wifi: bool,
    pub unmanaged: bool,
}

pub open spec fn usable_wifi(d: DeviceInfo) -> bool {
    d.is_wifi && !d.unmanaged
}

/// Picks the first managed wireless device among those the client reported,
/// by position. Fails exactly when there is none.
pub fn find_any_wifi_device(devices: &Vec<DeviceInfo>) -> (r: Result<usize, CauseChain>)
    ensures
        r matches Ok(i) ==> i < devices@.len() && usable_wifi(devices@[i as int]) && forall|j: int|
            0 <= j < i ==> !usable_wifi(devices@[j]),
        r matches Err(c) ==> (forall|j: int| 0 <= j < devices@.len() ==> !usable_wifi(devices@[j]))
            && c.wf() && c.kind_spec() == FaultKind::Call && c.frames_spec() =~= seq![
            "Failed to find a managed WiFi device"@,
        ],
{
    let mut i: usize = 0;
    while i < devices.len()
        invariant
            i <= devices.len(),
            forall|j: int| 0 <= j < i ==> !usable_wifi(devices@[j]),
        decreases devices.len() - i,
    {
        let d = devices[i];
        if d.is_wifi && !d.unmanaged {
            return Ok(i);
        }
        i = i + 1;
    }
    Err(CauseChain::root(FaultKind::Call, "Failed to find a managed WiFi device".to_owned()))
}

/// The typed response of a finished wireless listing: the filtered labels,
/// unchanged and in order.
pub fn wifi_networks_outcome(ssids: Vec<String>) -> (r: Result<NetworkResponse, CauseChain>)
    ensures
        r matches Ok(resp) && resp == NetworkResponse::ListWiFiNetworks(ssids),
        r matches Ok(resp) && response_matches(NetworkCommand::ListWiFiNetworks, resp),
{
    Ok(NetworkResponse::ListWiFiNetworks(ssids))
}

} // verus!
