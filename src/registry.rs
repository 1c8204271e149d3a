//! The connection registry: who is connected, what is known of each device,
//! and where its outbound frames go.
use vstd::prelude::*;

use std::collections::HashMap;

use vstd::std_specs::iter::IteratorSpec;

use tokio::sync::mpsc::{Receiver, Sender};

use crate::client::{mac_text, DeviceRecord, WillowClient};
use crate::messages::{OutboundFrame, WillowMsgGoodbyeHello};
use crate::outbound::{bounded_queue, queue_bound, random_identity, try_push, PushError};
use crate::text::{same_text, without_all};

verus! {

broadcast use vstd::std_specs::hash::group_hash_axioms;

/// How many frames a device's outbound queue holds before senders are
/// refused.
pub const OUTBOUND_CAPACITY: usize = 32;

/// Why a registry operation did not take place.
#[derive(Clone, Copy, Debug, PartialEq, Eq)]
pub enum RegistryError {
    /// The identity is already registered.
    DuplicateIdentity,
    /// No device with that identity or hostname is connected.
    NotFound,
    /// The device's outbound queue is full.
    ChannelFull,
    /// The device's outbound queue has no consumer any more.
    ChannelClosed,
}

/// The record of a device that has just connected with the given user agent.
pub open spec fn fresh_record(user_agent: Seq<char>) -> DeviceRecord {
    DeviceRecord {
        hostname: None,
        mac_addr: None,
        notification_active: false,
        platform: None,
        version: without_all(user_agent, "Willow/"@),
    }
}

/// A record after a `hello`: hostname, platform and hardware address are
/// those the device announced; the rest is kept.
pub open spec fn after_hello(r: DeviceRecord, hostname: Seq<char>, hw_type: Seq<char>, mac: Seq<u8>) -> DeviceRecord {
    DeviceRecord {
        hostname: Some(hostname),
        platform: Some(hw_type),
        mac_addr: Some(mac_text(mac)),
        ..r
    }
}

/// Connected devices: a record and an outbound queue for each identity.
pub struct ConnectionRegistry {
    clients: HashMap<u128, WillowClient>,
    connmgr: HashMap<u128, Sender<OutboundFrame>>,
}

impl ConnectionRegistry {
    /// The record of each registered identity.
    pub closed spec fn records(&self) -> Map<u128, DeviceRecord> {
        self.clients@.map_values(|c: WillowClient| c@)
    }

    /// The identities that have an outbound queue.
    pub closed spec fn channels(&self) -> Set<u128> {
        self.connmgr@.dom()
    }

    /// How many frames the outbound queue of `id` holds at most.
    pub closed spec fn channel_bound(&self, id: u128) -> usize {
        queue_bound(self.connmgr@[id])
    }

    /// Records and queues come in pairs: an identity has both or neither.
    pub open spec fn wf(&self) -> bool {
        self.records().dom() == self.channels()
    }

    /// Whether some connected device announced this hostname.
    pub open spec fn has_hostname(&self, hostname: Seq<char>) -> bool {
        exists|id: u128| #[trigger]
            self.records().contains_key(id) && self.records()[id].hostname == Some(hostname)
    }

    pub fn new() -> (r: Self)
        ensures
            r.wf(),
            r.records() == Map::<u128, DeviceRecord>::empty(),
    {
        let r = ConnectionRegistry { clients: HashMap::new(), connmgr: HashMap::new() };
        assert(r.records() =~= Map::<u128, DeviceRecord>::empty());
        r
    }

    /// Inserts a fresh record and the device's outbound queue together.
    pub fn register(&mut self, id: u128, tx: Sender<OutboundFrame>, user_agent: &str) -> (r: Result<(), RegistryError>)
        requires
            old(self).wf(),
        ensures
            final(self).wf(),
            r is Err <==> old(self).records().contains_key(id),
            r is Err ==> r == Err::<(), RegistryError>(RegistryError::DuplicateIdentity)
                && final(self).records() == old(self).records(),
            r is Ok ==> final(self).records() == old(self).records().insert(id, fresh_record(user_agent@))
                && final(self).channel_bound(id) == queue_bound(tx),
    {
        if self.clients.contains_key(&id) {
            return Err(RegistryError::DuplicateIdentity);
        }
        let client = WillowClient::new(user_agent);
        self.connmgr.insert(id, tx);
        self.clients.insert(id, client);
        assert(self.records() =~= old(self).records().insert(id, fresh_record(user_agent@)));
        assert(self.records().dom() =~= self.channels());
        Ok(())
    }

    /// Registers a newly connected device under a random identity, with an
    /// outbound queue of `OUTBOUND_CAPACITY` frames. Hands back the identity
    /// and the consuming end of the queue.
    pub fn connect(&mut self, user_agent: &str) -> (r: Result<(u128, Receiver<OutboundFrame>), RegistryError>)
        requires
            old(self).wf(),
        ensures
            final(self).wf(),
            match r {
                Ok((id, _)) => !old(self).records().contains_key(id)
                    && final(self).records() == old(self).records().insert(id, fresh_record(user_agent@))
                    && final(self).channel_bound(id) == OUTBOUND_CAPACITY,
                Err(e) => e == RegistryError::DuplicateIdentity
                    && final(self).records() == old(self).records(),
            },
    {
        let id = random_identity();
        let (tx, rx) = bounded_queue(OUTBOUND_CAPACITY);
        match self.register(id, tx, user_agent) {
            Ok(()) => Ok((id, rx)),
            Err(e) => Err(e),
        }
    }

    pub fn lookup_by_identity(&self, id: u128) -> (r: Option<&WillowClient>)
        ensures
            match r {
                Some(c) => self.records().contains_key(id) && c@ == self.records()[id],
                None => !self.records().contains_key(id),
            },
    {
        self.clients.get(&id)
    }

    /// The identity of a connected device that announced `hostname`.
    pub fn lookup_by_hostname(&self, hostname: &str) -> (r: Option<u128>)
        ensures
            match r {
                Some(id) => self.records().contains_key(id) && self.records()[id].hostname == Some(hostname@),
                None => !self.has_hostname(hostname@),
            },
    {
        let ghost items = vstd::std_specs::hash::spec_hash_map_iter(&self.clients).remaining();
        let ghost mut seen: int = 0;
        for (id, client) in it: self.clients.iter()
            invariant
                it.seq() == items,
                seen == it.index(),
                forall|k: int| #![trigger items[k]] 0 <= k < seen
                    ==> self.records()[*items[k].0].hostname != Some(hostname@),
        {
            proof {
                assert(self.clients@.contains_key(*id));
            }
            match client.hostname() {
                Some(h) => {
                    if same_text(h.as_str(), hostname) {
                        return Some(*id);
                    }
                },
                None => {},
            }
            proof {
                seen = seen + 1;
            }
        }
        proof {
            assert(seen == items.len());
            assert forall|id: u128| #[trigger] self.records().contains_key(id)
                implies self.records()[id].hostname != Some(hostname@) by {
                assert(items.contains((&id, &self.clients@[id])));
            }
        }
        None
    }

    /// Fills the record of `id` from a `hello`: hostname, platform and
    /// hardware address; a later `hello` overwrites an earlier one.
    pub fn apply_hello(&mut self, id: u128, hello: &WillowMsgGoodbyeHello) -> (r: Result<(), RegistryError>)
        requires
            old(self).wf(),
        ensures
            final(self).wf(),
            final(self).channels() == old(self).channels(),
            r is Err <==> !old(self).records().contains_key(id),
            r is Err ==> r == Err::<(), RegistryError>(RegistryError::NotFound)
                && final(self).records() == old(self).records(),
            r is Ok ==> final(self).records() == old(self).records().insert(
                id,
                after_hello(old(self).records()[id], hello.spec_hostname(), hello.spec_hw_type(), hello.spec_mac_addr()),
            ),
    {
        match self.clients.remove(&id) {
            None => {
                assert(self.clients@ =~= old(self).clients@);
                Err(RegistryError::NotFound)
            },
            Some(mut client) => {
                client.set_hostname(hello.hostname().clone());
                client.set_platform(hello.hw_type().clone());
                client.set_mac_addr(hello.mac_addr());
                self.clients.insert(id, client);
                assert(self.records() =~= old(self).records().insert(
                    id,
                    after_hello(old(self).records()[id], hello.spec_hostname(), hello.spec_hw_type(), hello.spec_mac_addr()),
                ));
                Ok(())
            },
        }
    }

    /// Queues `frame` on the outbound queue of `id`, without waiting.
    pub fn send(&self, id: u128, frame: OutboundFrame) -> (r: Result<(), RegistryError>)
        ensures
            r == Err::<(), RegistryError>(RegistryError::NotFound) <==> !self.channels().contains(id),
            r is Err ==> r == Err::<(), RegistryError>(RegistryError::NotFound)
                || r == Err::<(), RegistryError>(RegistryError::ChannelFull)
                || r == Err::<(), RegistryError>(RegistryError::ChannelClosed),
    {
        match self.connmgr.get(&id) {
            None => Err(RegistryError::NotFound),
            Some(tx) => match try_push(tx, frame) {
                Ok(()) => Ok(()),
                Err(PushError::Full) => Err(RegistryError::ChannelFull),
                Err(PushError::Closed) => Err(RegistryError::ChannelClosed),
            },
        }
    }

    /// Queues `frame` for the device that announced `hostname`; hands back
    /// its identity.
    pub fn send_to_hostname(&self, hostname: &str, frame: OutboundFrame) -> (r: Result<u128, RegistryError>)
        requires
            self.wf(),
        ensures
            r == Err::<u128, RegistryError>(RegistryError::NotFound) <==> !self.has_hostname(hostname@),
            r matches Ok(id) ==> self.records().contains_key(id)
                && self.records()[id].hostname == Some(hostname@),
    {
        match self.lookup_by_hostname(hostname) {
            None => Err(RegistryError::NotFound),
            Some(id) => match self.send(id, frame) {
                Ok(()) => Ok(id),
                Err(e) => Err(e),
            },
        }
    }

    /// Removes the record and the queue of `id`. Removing an identity that
    /// is not registered changes nothing. Tells whether it was registered.
    pub fn remove(&mut self, id: u128) -> (r: bool)
        requires
            old(self).wf(),
        ensures
            final(self).wf(),
            removed(*old(self), *final(self), id),
            r == old(self).records().contains_key(id),
    {
        let had = self.clients.remove(&id);
        self.connmgr.remove(&id);
        assert(self.records() =~= old(self).records().remove(id));
        assert(self.records().dom() =~= self.channels());
        had.is_some()
    }

    /// The identities of all connected devices, each once.
    pub fn connected_ids(&self) -> (r: Vec<u128>)
        ensures
            r@.to_set() == self.channels(),
            r@.no_duplicates(),
    {
        let ghost items = vstd::std_specs::hash::spec_keys_iter(&self.connmgr).remaining();
        let mut ids: Vec<u128> = Vec::new();
        for id in it: self.connmgr.keys()
            invariant
                it.seq() == items,
                ids@.len() == it.index(),
                forall|k: int| 0 <= k < ids@.len() ==> ids@[k] == *items[k],
        {
            ids.push(*id);
        }
        assert(ids@ =~= items.unref());
        ids
    }

    /// Queues a liveness probe, through `send`, for every connected device,
    /// and hands back the identities probed. A device whose queue refuses the
    /// probe is left to the heartbeat timeout.
    pub fn ping_all(&self) -> (r: Vec<u128>)
        ensures
            r@.to_set() == self.channels(),
            r@.no_duplicates(),
    {
        let ids = self.connected_ids();
        let mut i: usize = 0;
        while i < ids.len()
            invariant
                i <= ids@.len(),
            decreases ids@.len() - i,
        {
            let _ = self.send(ids[i], OutboundFrame::Ping);
            i = i + 1;
        }
        ids
    }
}

/// `after` is `before` with `id` deregistered.
pub open spec fn removed(before: ConnectionRegistry, after: ConnectionRegistry, id: u128) -> bool {
    &&& after.records() == before.records().remove(id)
    &&& after.channels() == before.channels().remove(id)
}

/// In a well-formed registry an identity has a record exactly when it has an
/// outbound queue; every operation keeps the registry well formed.
pub proof fn lemma_record_iff_channel(reg: ConnectionRegistry, id: u128)
    requires
        reg.wf(),
    ensures
        reg.records().contains_key(id) <==> reg.channels().contains(id),
{
}

/// Removing an identity twice is the same as removing it once: the second
/// removal finds nothing and changes nothing.
pub proof fn lemma_remove_idempotent(
    before: ConnectionRegistry,
    once: ConnectionRegistry,
    twice: ConnectionRegistry,
    id: u128,
)
    requires
        before.wf(),
        removed(before, once, id),
        removed(once, twice, id),
    ensures
        !once.records().contains_key(id),
        !once.channels().contains(id),
        twice.records() == once.records(),
        twice.channels() == once.channels(),
{
    assert(twice.records() =~= once.records());
    assert(twice.channels() =~= once.channels());
}

} // verus!
