//! The command router: device commands to the endpoint bridge, and the
//! endpoint's results back to the device that asked.
use vstd::prelude::*;

use crate::bridge::{BridgePhase, EndpointBridge, EndpointRequest};
use crate::correlation::{dispatched, resolved, CorrelationTable};
use crate::messages::{OutboundFrame, WillowMsgCmd, WillowMsgCmdDataType, WillowMsgCmdType};
use crate::registry::{ConnectionRegistry, RegistryError};

verus! {

/// Why an endpoint result did not reach a device.
#[derive(Clone, Copy, Debug, PartialEq, Eq)]
pub enum RouteError {
    /// No outstanding request has that id: it was never made, was already
    /// answered, or belonged to a connection that has been replaced.
    UnknownRequest,
    /// The request's device could not take the result.
    Delivery(RegistryError),
}

/// The free-text command that a device's command carries for the endpoint,
/// if it is one.
pub open spec fn endpoint_text(cmd: WillowMsgCmd) -> Option<Seq<char>> {
    if cmd.cmd == WillowMsgCmdType::Endpoint {
        match cmd.data {
            Some(WillowMsgCmdDataType::Endpoint(d)) => Some(d.text@),
            None => None,
        }
    } else {
        None
    }
}

/// Hands a device's command to the bridge, with the device as the owner of
/// the request. Only endpoint commands with a text are bridged; the bridge
/// sends it at once or queues it (see `EndpointBridge::submit`).
pub fn route_device_command(bridge: &mut EndpointBridge, owner: u128, cmd: WillowMsgCmd) -> (r: Option<EndpointRequest>)
    requires
        old(bridge).wf(),
    ensures
        final(bridge).wf(),
        endpoint_text(cmd) is None ==> *final(bridge) == *old(bridge) && r is None,
        endpoint_text(cmd) matches Some(text) ==> {
            &&& final(bridge).phase() == old(bridge).phase()
            &&& old(bridge).phase() == BridgePhase::Ready && old(bridge).table().next_id() < u64::MAX ==> {
                let id = old(bridge).table().next_id();
                &&& dispatched(old(bridge).table(), final(bridge).table(), owner, id)
                &&& r matches Some(EndpointRequest::Command { id: rid, text: t }) && rid == id && t@ == text
                &&& final(bridge).queued() == old(bridge).queued()
            }
            &&& old(bridge).phase() == BridgePhase::Ready && old(bridge).table().next_id() == u64::MAX ==> {
                &&& final(bridge).table() == old(bridge).table()
                &&& final(bridge).queued() == old(bridge).queued()
                &&& r is None
            }
            &&& old(bridge).phase() == BridgePhase::Stopped ==> *final(bridge) == *old(bridge) && r is None
            &&& old(bridge).phase() != BridgePhase::Ready && old(bridge).phase() != BridgePhase::Stopped
                ==> final(bridge).queued() == old(bridge).queued().push((owner, text)) && r is None
        },
{
    match cmd.cmd {
        WillowMsgCmdType::Endpoint => {},
        WillowMsgCmdType::GetConfig => {
            return None;
        },
    }
    match cmd.data {
        Some(WillowMsgCmdDataType::Endpoint(d)) => bridge.submit(owner, d.text),
        None => None,
    }
}

/// Delivers the endpoint's answer to request `id` to the device that issued
/// it, as a result frame on the device's outbound queue.
pub fn route_endpoint_result(
    bridge: &mut EndpointBridge,
    reg: &ConnectionRegistry,
    id: u64,
    success: bool,
    speech: String,
) -> (r: Result<u128, RouteError>)
    requires
        old(bridge).wf(),
    ensures
        final(bridge).wf(),
        final(bridge).phase() == old(bridge).phase(),
        final(bridge).config() == old(bridge).config(),
        final(bridge).queued() == old(bridge).queued(),
        ({
            let known = old(bridge).table().entries().contains_key(id);
            let owner = old(bridge).table().entries()[id].owner;
            &&& resolved(old(bridge).table(), final(bridge).table(), id, if known { Some(owner) } else { None })
            &&& r == Err::<u128, RouteError>(RouteError::UnknownRequest) <==> !known
            &&& known ==> (r == Ok::<u128, RouteError>(owner) || r matches Err(RouteError::Delivery(_)))
            &&& known ==> (r == Err::<u128, RouteError>(RouteError::Delivery(RegistryError::NotFound))
                <==> !reg.channels().contains(owner))
        }),
{
    match bridge.on_result(id, success, speech) {
        None => Err(RouteError::UnknownRequest),
        Some((owner, result)) => match reg.send(owner, OutboundFrame::Result(result)) {
            Ok(()) => Ok(owner),
            Err(e) => Err(RouteError::Delivery(e)),
        },
    }
}

/// A command that the router dispatched for a device is answered to that
/// device: resolving the target's answer under the request's id names it.
pub proof fn lemma_routed_command_answered_to_owner(
    before: EndpointBridge,
    after: EndpointBridge,
    owner: u128,
    id: u64,
    later: CorrelationTable,
    first: Option<u128>,
)
    requires
        before.wf(),
        dispatched(before.table(), after.table(), owner, id),
        resolved(after.table(), later, id, first),
    ensures
        first == Some(owner),
{
}

} // verus!
