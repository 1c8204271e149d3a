//! The record that the server keeps for each connected device.
use vstd::prelude::*;

use crate::text::{remove_all, without_all};

verus! {

/// What a device record holds, in mathematical terms.
pub struct DeviceRecord {
    pub hostname: Option<Seq<char>>,
    pub mac_addr: Option<Seq<char>>,
    pub notification_active: bool,
    pub platform: Option<Seq<char>>,
    pub version: Seq<char>,
}

pub open spec fn opt_text(o: Option<String>) -> Option<Seq<char>> {
    match o {
        Some(s) => Some(s@),
        None => None,
    }
}

/// The lowercase hexadecimal digits.
pub open spec fn hex_digits() -> Seq<char> {
    seq!['0', '1', '2', '3', '4', '5', '6', '7', '8', '9', 'a', 'b', 'c', 'd', 'e', 'f']
}

/// A byte as two lowercase hexadecimal digits.
pub open spec fn hex_pair(b: u8) -> Seq<char> {
    seq![hex_digits()[b as int / 16], hex_digits()[b as int % 16]]
}

/// A hardware address written as six colon-separated pairs of lowercase
/// hexadecimal digits, `00:1a:2b:3c:4d:5e`.
pub open spec fn mac_text(b: Seq<u8>) -> Seq<char>
    recommends
        b.len() == 6,
{
    hex_pair(b[0]) + seq![':'] + hex_pair(b[1]) + seq![':'] + hex_pair(b[2]) + seq![':']
        + hex_pair(b[3]) + seq![':'] + hex_pair(b[4]) + seq![':'] + hex_pair(b[5])
}

/// Relies on eui48's `MacAddress::to_hex_string`, which formats the six bytes
/// as `{:02x}` pairs joined by colons.
#[verifier::external_body]
fn mac_hex_string(bytes: [u8; 6]) -> (r: String)
    ensures
        r@ == mac_text(bytes@),
{
    eui48::MacAddress::new(bytes).to_hex_string()
}

/// A connected device, as the registry knows it.
#[derive(Clone, Debug)]
pub struct WillowClient {
    hostname: Option<String>,
    mac_addr: Option<String>,
    notification_active: bool,
    platform: Option<String>,
    version: String,
}

impl View for WillowClient {
    type V = DeviceRecord;

    closed spec fn view(&self) -> DeviceRecord {
        DeviceRecord {
            hostname: opt_text(self.hostname),
            mac_addr: opt_text(self.mac_addr),
            notification_active: self.notification_active,
            platform: opt_text(self.platform),
            version: self.version@,
        }
    }
}

impl WillowClient {
    /// A fresh record for a device that connected with the given user agent.
    /// The version is the user agent with the product prefix `Willow/` removed.
    pub fn new(user_agent: &str) -> (r: Self)
        ensures
            r@.hostname is None,
            r@.mac_addr is None,
            r@.platform is None,
            !r@.notification_active,
            r@.version == without_all(user_agent@, "Willow/"@),
    {
        WillowClient {
            hostname: None,
            mac_addr: None,
            notification_active: false,
            platform: None,
            version: remove_all(user_agent, "Willow/"),
        }
    }

    pub fn hostname(&self) -> (r: &Option<String>)
        ensures
            opt_text(*r) == self@.hostname,
    {
        &self.hostname
    }

    pub fn platform(&self) -> (r: &Option<String>)
        ensures
            opt_text(*r) == self@.platform,
    {
        &self.platform
    }

    pub fn mac_addr(&self) -> (r: &Option<String>)
        ensures
            opt_text(*r) == self@.mac_addr,
    {
        &self.mac_addr
    }

    pub fn version(&self) -> (r: &String)
        ensures
            r@ == self@.version,
    {
        &self.version
    }

    pub fn notification_active(&self) -> (r: bool)
        ensures
            r == self@.notification_active,
    {
        self.notification_active
    }

    pub fn set_hostname(&mut self, hostname: String)
        ensures
            final(self)@ == (DeviceRecord { hostname: Some(hostname@), ..old(self)@ }),
    {
        self.hostname = Some(hostname);
    }

    /// Records the hardware address, written as `mac_text` gives it.
    pub fn set_mac_addr(&mut self, mac_addr: [u8; 6])
        ensures
            final(self)@ == (DeviceRecord { mac_addr: Some(mac_text(mac_addr@)), ..old(self)@ }),
    {
        self.mac_addr = Some(mac_hex_string(mac_addr));
    }

    pub fn set_platform(&mut self, hw_type: String)
        ensures
            final(self)@ == (DeviceRecord { platform: Some(hw_type@), ..old(self)@ }),
    {
        self.platform = Some(hw_type);
    }
}

} // verus!
