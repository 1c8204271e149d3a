//! Messages of the device protocol, as values.
//!
//! Frames on the wire are JSON text; turning text into these values and back
//! happens at the edge of the program. What the core decides depends only on
//! the values below.
use vstd::prelude::*;

use crate::config::{WillowConfig, WillowNvsConfig};

verus! {

/// A message that a device sends to the server.
#[derive(Clone, Debug, PartialEq, Eq)]
pub enum WillowMsg {
    Goodbye(WillowMsgGoodbyeHello),
    Hello(WillowMsgGoodbyeHello),
    WakeEnd(WillowMsgWakeEnd),
    WakeStart(WillowMsgWakeStart),
    Cmd(WillowMsgCmd),
}

/// What a device asks the server to do.
#[derive(Clone, Copy, Debug, PartialEq, Eq)]
pub enum WillowMsgCmdType {
    Endpoint,
    GetConfig,
}

/// A command request from a device.
#[derive(Clone, Debug, PartialEq, Eq)]
pub struct WillowMsgCmd {
    pub cmd: WillowMsgCmdType,
    pub data: Option<WillowMsgCmdDataType>,
}

/// The payload of a command request.
#[derive(Clone, Debug, PartialEq, Eq)]
pub enum WillowMsgCmdDataType {
    Endpoint(WillowMsgCmdEndpointData),
}

/// The free-text command that a device hands to the command endpoint.
#[derive(Clone, Debug, PartialEq, Eq)]
pub struct WillowMsgCmdEndpointData {
    pub text: String,
}

/// The device configuration pushed to a device.
#[derive(Clone, Debug)]
pub struct WillowMsgConfig {
    pub config: WillowConfig,
}

/// The non-volatile settings pushed to a device.
#[derive(Clone, Debug)]
pub struct WillowMsgNvs {
    pub config: WillowNvsConfig,
}

/// Body of the `hello` and `goodbye` messages: how a device presents itself.
#[derive(Clone, Debug, PartialEq, Eq)]
pub struct WillowMsgGoodbyeHello {
    hostname: String,
    hw_type: String,
    mac_addr: [u8; 6],
}

/// Body of the `wake_end` message.
#[derive(Clone, Copy, Debug, PartialEq, Eq)]
pub struct WillowMsgWakeEnd {}

/// Body of the `wake_start` message. The wake volume that devices send with it
/// is read by nothing in the core and is not carried here.
#[derive(Clone, Copy, Debug, PartialEq, Eq)]
pub struct WillowMsgWakeStart {}

impl WillowMsgGoodbyeHello {
    pub closed spec fn spec_hostname(&self) -> Seq<char> {
        self.hostname@
    }

    pub closed spec fn spec_hw_type(&self) -> Seq<char> {
        self.hw_type@
    }

    pub closed spec fn spec_mac_addr(&self) -> Seq<u8> {
        self.mac_addr@
    }

    pub fn new(hostname: String, hw_type: String, mac_addr: [u8; 6]) -> (r: Self)
        ensures
            r.spec_hostname() == hostname@,
            r.spec_hw_type() == hw_type@,
            r.spec_mac_addr() == mac_addr@,
    {
        WillowMsgGoodbyeHello { hostname, hw_type, mac_addr }
    }

    pub fn hostname(&self) -> (r: &String)
        ensures
            r@ == self.spec_hostname(),
    {
        &self.hostname
    }

    pub fn hw_type(&self) -> (r: &String)
        ensures
            r@ == self.spec_hw_type(),
    {
        &self.hw_type
    }

    /// The six bytes of the device's hardware address.
    pub fn mac_addr(&self) -> (r: [u8; 6])
        ensures
            r@ == self.spec_mac_addr(),
    {
        self.mac_addr
    }
}

/// A command that the server sends to a device.
#[derive(Clone, Debug, PartialEq, Eq)]
pub enum WillowAction {
    OtaStart(WillowOtaStart),
    Restart,
}

/// Parameters of a firmware update.
#[derive(Clone, Debug, PartialEq, Eq)]
pub struct WillowOtaStart {
    pub ota_url: String,
}

/// The outcome of a bridged command, as delivered to the device.
#[derive(Clone, Debug, PartialEq, Eq)]
pub struct WillowCommandResult {
    pub ok: bool,
    pub speech: String,
}

/// A frame queued for delivery to a device, in submission order.
#[derive(Clone, Debug)]
pub enum OutboundFrame {
    Ping,
    Action(WillowAction),
    Result(WillowCommandResult),
    Config(WillowConfig),
}

} // verus!
