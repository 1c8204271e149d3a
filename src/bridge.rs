//! The endpoint bridge: one logical connection to the external command
//! target, and the correlation of its requests with the devices that issued
//! them.
//!
//! The bridge's connection loop performs the I/O; every event it observes is
//! handed to a method here, which decides the next phase and what the loop
//! does next.
use vstd::prelude::*;

use crate::config::BridgeConfig;
use crate::correlation::{dispatched, dispatched_all, reconnected, resolved, CorrelationTable, PendingRequest};
use crate::messages::WillowCommandResult;

verus! {

/// Delay before a new connection attempt, in milliseconds.
pub const RECONNECT_BACKOFF_MS: u64 = 5_000;

/// Interval between two liveness probes to the target, in milliseconds.
pub const BRIDGE_PING_INTERVAL_MS: u64 = 10_000;

#[derive(Clone, Copy, Debug, PartialEq, Eq, Structural)]
pub enum BridgePhase {
    /// No connection and no attempt under way.
    Disconnected,
    /// A connection attempt is under way.
    Connecting,
    /// Connected; the target has not yet accepted the credentials.
    Authenticating,
    /// Connected and authenticated: commands go out as they come.
    Ready,
    /// Waiting before the next connection attempt.
    Backoff,
    /// Shut down on request; no further attempts.
    Stopped,
}

/// A request for the command target.
#[derive(Clone, Debug, PartialEq, Eq)]
pub enum EndpointRequest {
    /// The answer to the target's authentication challenge.
    Auth { access_token: String },
    /// A device's free-text command, under its request id.
    Command { id: u64, text: String },
}

/// What the connection loop does next.
#[derive(Clone, Debug, PartialEq, Eq)]
pub enum BridgeAction {
    /// Open a connection to this address.
    Connect { url: String },
    /// Start this generation's sender and heartbeat tasks.
    SpawnWorkers,
    /// Signal this generation's sender and heartbeat tasks to stop.
    StopWorkers,
    /// Wait this long, then attempt to connect again.
    Wait { ms: u64 },
}

/// A device command that waits for the connection to be ready.
#[derive(Clone, Debug)]
pub struct QueuedCommand {
    pub owner: u128,
    pub text: String,
}

/// Whether the generation's worker tasks are running in this phase.
pub open spec fn has_workers(p: BridgePhase) -> bool {
    p == BridgePhase::Authenticating || p == BridgePhase::Ready
}

pub struct EndpointBridge {
    config: BridgeConfig,
    phase: BridgePhase,
    table: CorrelationTable,
    queued: Vec<QueuedCommand>,
}

impl EndpointBridge {
    pub closed spec fn config(&self) -> BridgeConfig {
        self.config
    }

    pub closed spec fn phase(&self) -> BridgePhase {
        self.phase
    }

    pub closed spec fn table(&self) -> CorrelationTable {
        self.table
    }

    /// Commands waiting for the connection, in arrival order: owner and text.
    pub closed spec fn queued(&self) -> Seq<(u128, Seq<char>)> {
        self.queued@.map_values(|q: QueuedCommand| (q.owner, q.text@))
    }

    /// The table is well formed, and requests are outstanding only while a
    /// connection is ready: every teardown drops them.
    pub open spec fn wf(&self) -> bool {
        &&& self.table().wf()
        &&& self.phase() != BridgePhase::Ready ==> self.table().entries().is_empty()
    }

    pub fn new(config: BridgeConfig) -> (r: Self)
        ensures
            r.wf(),
            r.config() == config,
            r.phase() == BridgePhase::Disconnected,
            r.table().entries().is_empty(),
            r.table().next_id() == 1,
            r.queued().len() == 0,
    {
        let r = EndpointBridge {
            config,
            phase: BridgePhase::Disconnected,
            table: CorrelationTable::new(),
            queued: Vec::new(),
        };
        assert(r.queued() =~= Seq::<(u128, Seq<char>)>::empty());
        r
    }

    pub fn current_phase(&self) -> (r: BridgePhase)
        ensures
            r == self.phase(),
    {
        self.phase
    }

    pub fn current_config(&self) -> (r: &BridgeConfig)
        ensures
            *r == self.config(),
    {
        &self.config
    }

    /// How many requests are outstanding.
    pub fn outstanding(&self) -> (r: usize)
        ensures
            r == self.table().entries().len(),
    {
        self.table.len()
    }

    /// Every outstanding request id with the device that issued it.
    pub fn outstanding_requests(&self) -> (r: Vec<(u64, u128)>)
        ensures
            r@.len() == self.table().entries().len(),
            forall|k: int| 0 <= k < r@.len() ==> #[trigger] self.table().entries().contains_key(r@[k].0)
                && self.table().entries()[r@[k].0].owner == r@[k].1,
            forall|id: u64| #[trigger] self.table().entries().contains_key(id) ==> exists|k: int| 0 <= k < r@.len()
                && r@[k].0 == id,
    {
        let r = self.table.snapshot();
        assert forall|k: int| 0 <= k < r@.len() implies #[trigger] self.table().entries().contains_key(r@[k].0)
            && self.table().entries()[r@[k].0].owner == r@[k].1 by {
            assert(self.table.entries().contains_key(r@[k].0));
        }
        r
    }

    /// Starts a connection attempt with the current configuration, unless one
    /// is under way, a connection is up, or the bridge was shut down.
    pub fn begin_connect(&mut self) -> (r: Option<BridgeAction>)
        requires
            old(self).wf(),
        ensures
            final(self).wf(),
            final(self).config() == old(self).config(),
            final(self).table() == old(self).table(),
            final(self).queued() == old(self).queued(),
            if old(self).phase() == BridgePhase::Disconnected || old(self).phase() == BridgePhase::Backoff {
                &&& final(self).phase() == BridgePhase::Connecting
                &&& r == Some(BridgeAction::Connect { url: old(self).config().url })
            } else {
                final(self).phase() == old(self).phase() && r is None
            },
    {
        if self.phase == BridgePhase::Disconnected || self.phase == BridgePhase::Backoff {
            self.phase = BridgePhase::Connecting;
            Some(BridgeAction::Connect { url: self.config.url.clone() })
        } else {
            None
        }
    }

    /// The connection attempt succeeded: start the workers and wait for the
    /// target's authentication exchange. A connection that no attempt of
    /// this bridge is waiting for gets `None`, and the loop drops it.
    pub fn connected(&mut self) -> (r: Option<BridgeAction>)
        requires
            old(self).wf(),
        ensures
            final(self).wf(),
            final(self).config() == old(self).config(),
            final(self).table() == old(self).table(),
            final(self).queued() == old(self).queued(),
            if old(self).phase() == BridgePhase::Connecting {
                final(self).phase() == BridgePhase::Authenticating && r == Some(BridgeAction::SpawnWorkers)
            } else {
                final(self).phase() == old(self).phase() && r is None
            },
    {
        if self.phase == BridgePhase::Connecting {
            self.phase = BridgePhase::Authenticating;
            Some(BridgeAction::SpawnWorkers)
        } else {
            None
        }
    }

    /// The connection attempt failed: wait, then try again.
    pub fn connect_failed(&mut self) -> (r: Option<BridgeAction>)
        requires
            old(self).wf(),
        ensures
            final(self).wf(),
            final(self).config() == old(self).config(),
            final(self).table() == old(self).table(),
            final(self).queued() == old(self).queued(),
            if old(self).phase() == BridgePhase::Connecting {
                &&& final(self).phase() == BridgePhase::Backoff
                &&& r == Some(BridgeAction::Wait { ms: RECONNECT_BACKOFF_MS })
            } else {
                final(self).phase() == old(self).phase() && r is None
            },
    {
        if self.phase == BridgePhase::Connecting {
            self.phase = BridgePhase::Backoff;
            Some(BridgeAction::Wait { ms: RECONNECT_BACKOFF_MS })
        } else {
            None
        }
    }

    /// The target asked for credentials: answer with the configured token.
    pub fn auth_required(&self) -> (r: Option<EndpointRequest>)
        ensures
            self.phase() == BridgePhase::Authenticating
                ==> r == Some(EndpointRequest::Auth { access_token: self.config().token }),
            self.phase() != BridgePhase::Authenticating ==> r is None,
    {
        if self.phase == BridgePhase::Authenticating {
            Some(EndpointRequest::Auth { access_token: self.config.token.clone() })
        } else {
            None
        }
    }

    /// The target accepted the credentials: the connection is ready, and the
    /// commands that waited for it go out in arrival order, each under a
    /// fresh request id.
    pub fn auth_ok(&mut self) -> (r: Vec<EndpointRequest>)
        requires
            old(self).wf(),
        ensures
            final(self).wf(),
            final(self).config() == old(self).config(),
            old(self).phase() != BridgePhase::Authenticating ==> *final(self) == *old(self) && r@.len() == 0,
            old(self).phase() == BridgePhase::Authenticating ==> final(self).phase() == BridgePhase::Ready
                && final(self).queued().len() == 0,
            old(self).phase() == BridgePhase::Authenticating && old(self).table().next_id() + old(
                self,
            ).queued().len() < u64::MAX ==> {
                let q = old(self).queued();
                &&& dispatched_all(old(self).table(), final(self).table(), q.map_values(|c: (u128, Seq<char>)| c.0))
                &&& r@.len() == q.len()
                &&& forall|k: int| 0 <= k < q.len() ==> (#[trigger] r@[k] matches EndpointRequest::Command { id, text }
                    && id == old(self).table().next_id() + k && text@ == q[k].1)
            },
    {
        let mut out: Vec<EndpointRequest> = Vec::new();
        if self.phase != BridgePhase::Authenticating {
            return out;
        }
        self.phase = BridgePhase::Ready;
        let ghost t0 = self.table;
        let ghost q = self.queued();
        let ghost owners = q.map_values(|c: (u128, Seq<char>)| c.0);
        let n = self.queued.len();
        let mut i: usize = 0;
        while i < n
            invariant
                n == self.queued@.len(),
                q == self.queued(),
                owners == q.map_values(|c: (u128, Seq<char>)| c.0),
                i <= n,
                self.table.wf(),
                t0.wf(),
                self.config == old(self).config,
                self.phase == BridgePhase::Ready,
                t0.next_id() + n < u64::MAX ==> {
                    &&& dispatched_all(t0, self.table, owners.take(i as int))
                    &&& out@.len() == i
                    &&& forall|k: int| 0 <= k < i ==> (#[trigger] out@[k] matches EndpointRequest::Command { id, text }
                        && id == t0.next_id() + k && text@ == q[k].1)
                },
            decreases n - i,
        {
            let owner = self.queued[i].owner;
            let text = self.queued[i].text.clone();
            let ghost before = self.table;
            let ghost out0 = out@;
            match self.table.dispatch(owner) {
                Ok(id) => {
                    out.push(EndpointRequest::Command { id, text });
                    proof {
                        if t0.next_id() + n < u64::MAX {
                            let o1 = owners.take(i as int);
                            let o2 = owners.take(i + 1);
                            assert(o2[i as int] == owner);
                            assert forall|k: int| 0 <= k < o2.len() implies self.table.entries()[(t0.next_id() + k) as u64]
                                == (PendingRequest { owner: #[trigger] o2[k], generation: t0.generation() }) by {
                                if k < i {
                                    assert(o2[k] == o1[k]);
                                    assert(before.entries().contains_key((t0.next_id() + k) as u64));
                                }
                            }
                            assert forall|id: u64| #[trigger] t0.entries().contains_key(id)
                                implies self.table.entries()[id] == t0.entries()[id] by {
                                assert(before.entries().contains_key(id));
                            }
                            assert forall|id: u64| #[trigger] self.table.entries().contains_key(id) <==> (
                            t0.entries().contains_key(id) || (t0.next_id() <= id < t0.next_id() + o2.len())) by {
                                if id != before.next_id() {
                                    assert(self.table.entries().contains_key(id) == before.entries().contains_key(id));
                                }
                            }
                            assert forall|k: int| 0 <= k < i + 1 implies (#[trigger] out@[k] matches EndpointRequest::Command {
                                id,
                                text,
                            } && id == t0.next_id() + k && text@ == q[k].1) by {
                                if k < i {
                                    assert(out@[k] == out0[k]);
                                }
                            }
                        }
                    }
                },
                Err(_) => {},
            }
            i = i + 1;
        }
        self.queued = Vec::new();
        assert(self.queued() =~= Seq::<(u128, Seq<char>)>::empty());
        proof {
            if t0.next_id() + n < u64::MAX {
                assert(owners.take(n as int) =~= owners);
            }
        }
        out
    }

    /// A device's command for the target. When the connection is ready it
    /// goes out at once under a fresh request id; before that it waits in
    /// arrival order. After a shutdown it is dropped.
    pub fn submit(&mut self, owner: u128, text: String) -> (r: Option<EndpointRequest>)
        requires
            old(self).wf(),
        ensures
            final(self).wf(),
            final(self).config() == old(self).config(),
            final(self).phase() == old(self).phase(),
            old(self).phase() == BridgePhase::Ready ==> final(self).queued() == old(self).queued() && if old(
                self,
            ).table().next_id() < u64::MAX {
                let id = old(self).table().next_id();
                &&& dispatched(old(self).table(), final(self).table(), owner, id)
                &&& r == Some(EndpointRequest::Command { id, text })
            } else {
                final(self).table() == old(self).table() && r is None
            },
            old(self).phase() == BridgePhase::Stopped ==> *final(self) == *old(self) && r is None,
            old(self).phase() != BridgePhase::Ready && old(self).phase() != BridgePhase::Stopped ==> {
                &&& final(self).table() == old(self).table()
                &&& final(self).queued() == old(self).queued().push((owner, text@))
                &&& r is None
            },
    {
        if self.phase == BridgePhase::Ready {
            match self.table.dispatch(owner) {
                Ok(id) => Some(EndpointRequest::Command { id, text }),
                Err(_) => None,
            }
        } else if self.phase == BridgePhase::Stopped {
            None
        } else {
            self.queued.push(QueuedCommand { owner, text });
            assert(self.queued() =~= old(self).queued().push((owner, text@)));
            None
        }
    }

    /// The target answered request `id`. Hands back the device that issued
    /// it with the result to deliver; `None` for an unknown or already
    /// answered id, whose response is dropped.
    pub fn on_result(&mut self, id: u64, success: bool, speech: String) -> (r: Option<(u128, WillowCommandResult)>)
        requires
            old(self).wf(),
        ensures
            final(self).wf(),
            final(self).config() == old(self).config(),
            final(self).phase() == old(self).phase(),
            final(self).queued() == old(self).queued(),
            resolved(
                old(self).table(),
                final(self).table(),
                id,
                match r {
                    Some((owner, _)) => Some(owner),
                    None => None,
                },
            ),
            r matches Some((_, res)) ==> res == (WillowCommandResult { ok: success, speech }),
    {
        match self.table.resolve(id) {
            Some(owner) => Some((owner, WillowCommandResult { ok: success, speech })),
            None => None,
        }
    }

    /// Ends the current connection generation: its workers are told to stop
    /// when they run, and its outstanding requests are dropped.
    fn end_generation(&mut self, out: &mut Vec<BridgeAction>)
        requires
            old(self).wf(),
        ensures
            final(self).wf(),
            final(self).config() == old(self).config(),
            final(self).phase() == old(self).phase(),
            final(self).queued() == old(self).queued(),
            reconnected(old(self).table(), final(self).table()),
            has_workers(old(self).phase()) ==> final(out)@ == old(out)@.push(BridgeAction::StopWorkers),
            !has_workers(old(self).phase()) ==> final(out)@ == old(out)@,
    {
        if self.phase == BridgePhase::Authenticating || self.phase == BridgePhase::Ready {
            out.push(BridgeAction::StopWorkers);
        }
        self.table.begin_generation();
    }

    /// The configuration was replaced. A connection that is up or being
    /// made is torn down, its outstanding requests are dropped, and the next
    /// attempt, after the backoff, uses the new configuration.
    pub fn config_changed(&mut self, config: BridgeConfig) -> (r: Vec<BridgeAction>)
        requires
            old(self).wf(),
        ensures
            final(self).wf(),
            reconfigured(*old(self), *final(self), config),
            old(self).phase() == BridgePhase::Connecting || has_workers(old(self).phase()) ==> {
                &&& reconnected(old(self).table(), final(self).table())
                &&& final(self).phase() == BridgePhase::Backoff
                &&& r@ == if has_workers(old(self).phase()) {
                    seq![BridgeAction::StopWorkers, BridgeAction::Wait { ms: RECONNECT_BACKOFF_MS }]
                } else {
                    seq![BridgeAction::Wait { ms: RECONNECT_BACKOFF_MS }]
                }
            },
            !(old(self).phase() == BridgePhase::Connecting || has_workers(old(self).phase())) ==> {
                &&& final(self).table() == old(self).table()
                &&& final(self).phase() == old(self).phase()
                &&& r@.len() == 0
            },
    {
        let mut out: Vec<BridgeAction> = Vec::new();
        self.config = config;
        if self.phase == BridgePhase::Connecting || self.phase == BridgePhase::Authenticating
            || self.phase == BridgePhase::Ready {
            self.end_generation(&mut out);
            out.push(BridgeAction::Wait { ms: RECONNECT_BACKOFF_MS });
            self.phase = BridgePhase::Backoff;
        }
        out
    }

    /// The connection to the target broke: tear this generation down and
    /// try again after the backoff.
    pub fn connection_lost(&mut self) -> (r: Vec<BridgeAction>)
        requires
            old(self).wf(),
        ensures
            final(self).wf(),
            final(self).config() == old(self).config(),
            final(self).queued() == old(self).queued(),
            has_workers(old(self).phase()) ==> {
                &&& reconnected(old(self).table(), final(self).table())
                &&& final(self).phase() == BridgePhase::Backoff
                &&& r@ == seq![BridgeAction::StopWorkers, BridgeAction::Wait { ms: RECONNECT_BACKOFF_MS }]
            },
            !has_workers(old(self).phase()) ==> *final(self) == *old(self) && r@.len() == 0,
            final(self).table().entries().is_empty(),
    {
        let mut out: Vec<BridgeAction> = Vec::new();
        if self.phase == BridgePhase::Authenticating || self.phase == BridgePhase::Ready {
            self.end_generation(&mut out);
            out.push(BridgeAction::Wait { ms: RECONNECT_BACKOFF_MS });
            self.phase = BridgePhase::Backoff;
        }
        out
    }

    /// A clean shutdown was requested: tear the generation down and make no
    /// further attempts.
    pub fn shutdown(&mut self) -> (r: Vec<BridgeAction>)
        requires
            old(self).wf(),
        ensures
            final(self).wf(),
            final(self).config() == old(self).config(),
            final(self).queued() == old(self).queued(),
            final(self).phase() == BridgePhase::Stopped,
            reconnected(old(self).table(), final(self).table()),
            final(self).table().entries().is_empty(),
            has_workers(old(self).phase()) ==> r@ == seq![BridgeAction::StopWorkers],
            !has_workers(old(self).phase()) ==> r@.len() == 0,
    {
        let mut out: Vec<BridgeAction> = Vec::new();
        self.end_generation(&mut out);
        self.phase = BridgePhase::Stopped;
        out
    }
}

/// `after` runs with configuration `config`, keeps the waiting commands,
/// and has no request outstanding.
pub open spec fn reconfigured(before: EndpointBridge, after: EndpointBridge, config: BridgeConfig) -> bool {
    &&& after.config() == config
    &&& after.queued() == before.queued()
    &&& after.table().entries().is_empty()
}

/// Every request in flight when the configuration changes is dropped: an
/// answer for it that arrives afterwards is resolved to no device.
pub proof fn lemma_config_change_drops_in_flight(
    before: EndpointBridge,
    after: EndpointBridge,
    config: BridgeConfig,
    id: u64,
    later: CorrelationTable,
    owner: Option<u128>,
)
    requires
        before.wf(),
        before.table().entries().contains_key(id),
        reconfigured(before, after, config),
        resolved(after.table(), later, id, owner),
    ensures
        !after.table().entries().contains_key(id),
        owner is None,
{
}

} // verus!
