//! The per-connection state machine of a device session.
//!
//! The connection's read loop and heartbeat timer hand every event to
//! `DeviceSession::on_event`; the session applies what it decides to the
//! registry and hands back any command that must go on to the router.
use vstd::prelude::*;

use tokio::sync::mpsc::Receiver;

use crate::messages::{OutboundFrame, WillowMsg, WillowMsgCmd};
use crate::registry::{after_hello, fresh_record, removed, ConnectionRegistry, RegistryError, OUTBOUND_CAPACITY};

verus! {

/// Interval between two liveness probes, in milliseconds.
pub const PING_INTERVAL_MS: u64 = 10_000;

/// How long a session lives without a liveness acknowledgment, in
/// milliseconds.
pub const PONG_TIMEOUT_MS: u64 = 15_000;

#[derive(Clone, Copy, Debug, PartialEq, Eq, Structural)]
pub enum SessionState {
    Connecting,
    Active,
    Closing,
    Closed,
}

/// Something that happened on a device connection.
#[derive(Clone, Debug)]
pub enum SessionEvent {
    /// A text frame that decoded into a device message.
    Message(WillowMsg),
    /// A text frame that did not decode.
    Malformed,
    /// A binary frame; the protocol has none.
    Binary,
    /// A liveness acknowledgment, at time `now_ms`.
    Pong { now_ms: u64 },
    /// The heartbeat timer fired at time `now_ms`.
    Tick { now_ms: u64 },
    /// The device closed the connection, or reading from it failed.
    TransportClosed,
}

/// Whether a session whose last acknowledgment came at `last_pong` has
/// lapsed at time `now`.
pub open spec fn lapsed(last_pong: u64, now: u64) -> bool {
    now > last_pong && now - last_pong > PONG_TIMEOUT_MS
}

/// One device connection: its identity, where it stands, and when it last
/// acknowledged a liveness probe.
pub struct DeviceSession {
    pub id: u128,
    pub state: SessionState,
    pub last_pong_ms: u64,
}

impl DeviceSession {
    pub fn new() -> (r: Self)
        ensures
            r.state == SessionState::Connecting,
    {
        DeviceSession { id: 0, state: SessionState::Connecting, last_pong_ms: 0 }
    }

    /// Completes the upgrade: registers the device under a fresh identity
    /// and becomes active. Hands back the consuming end of the device's
    /// outbound queue, for the task that writes frames to the device.
    pub fn open(&mut self, reg: &mut ConnectionRegistry, user_agent: &str, now_ms: u64) -> (r: Result<Receiver<OutboundFrame>, RegistryError>)
        requires
            old(self).state == SessionState::Connecting,
            old(reg).wf(),
        ensures
            final(reg).wf(),
            r is Ok ==> final(self).state == SessionState::Active
                && final(self).last_pong_ms == now_ms
                && !old(reg).records().contains_key(final(self).id)
                && final(reg).records() == old(reg).records().insert(final(self).id, fresh_record(user_agent@))
                && final(reg).channel_bound(final(self).id) == OUTBOUND_CAPACITY,
            r is Err ==> r == Err::<Receiver<OutboundFrame>, RegistryError>(RegistryError::DuplicateIdentity)
                && final(self).state == SessionState::Closed
                && final(reg).records() == old(reg).records(),
    {
        match reg.connect(user_agent) {
            Ok((id, rx)) => {
                self.id = id;
                self.state = SessionState::Active;
                self.last_pong_ms = now_ms;
                Ok(rx)
            },
            Err(e) => {
                self.state = SessionState::Closed;
                Err(e)
            },
        }
    }

    /// Starts closing, and deregisters the device. Only the first trigger
    /// does the cleanup; later ones find the session closing and do nothing.
    fn close(&mut self, reg: &mut ConnectionRegistry)
        requires
            old(self).state == SessionState::Active,
            old(reg).wf(),
        ensures
            final(reg).wf(),
            final(self).state == SessionState::Closing,
            final(self).id == old(self).id,
            final(self).last_pong_ms == old(self).last_pong_ms,
            removed(*old(reg), *final(reg), old(self).id),
    {
        reg.remove(self.id);
        self.state = SessionState::Closing;
    }

    /// Applies one event. Hands back the command to route, when the event
    /// was a command from an active device.
    pub fn on_event(&mut self, reg: &mut ConnectionRegistry, event: SessionEvent) -> (r: Option<WillowMsgCmd>)
        requires
            old(reg).wf(),
        ensures
            final(reg).wf(),
            final(self).id == old(self).id,
            session_step(*old(self), *final(self), *old(reg), *final(reg), event, r),
    {
        if self.state != SessionState::Active {
            return None;
        }
        match event {
            SessionEvent::Message(msg) => match msg {
                WillowMsg::Goodbye(_) => {
                    self.close(reg);
                    None
                },
                WillowMsg::Hello(hello) => {
                    let _ = reg.apply_hello(self.id, &hello);
                    None
                },
                WillowMsg::WakeEnd(_) => None,
                WillowMsg::WakeStart(_) => None,
                WillowMsg::Cmd(cmd) => Some(cmd),
            },
            SessionEvent::Malformed => None,
            SessionEvent::Binary => None,
            SessionEvent::Pong { now_ms } => {
                self.last_pong_ms = now_ms;
                None
            },
            SessionEvent::Tick { now_ms } => {
                if now_ms > self.last_pong_ms && now_ms - self.last_pong_ms > PONG_TIMEOUT_MS {
                    self.close(reg);
                }
                None
            },
            SessionEvent::TransportClosed => {
                self.close(reg);
                None
            },
        }
    }

    /// Marks the cleanup of a closing session as complete.
    pub fn finish(&mut self)
        ensures
            old(self).state == SessionState::Closing ==> final(self).state == SessionState::Closed,
            old(self).state != SessionState::Closing ==> final(self).state == old(self).state,
            final(self).id == old(self).id,
    {
        if self.state == SessionState::Closing {
            self.state = SessionState::Closed;
        }
    }

    /// Whether the read loop should stop: the session is closing or closed.
    pub fn is_done(&self) -> (r: bool)
        ensures
            r == (self.state == SessionState::Closing || self.state == SessionState::Closed),
    {
        self.state == SessionState::Closing || self.state == SessionState::Closed
    }
}

/// What one event does to a session and the registry.
pub open spec fn session_step(
    s0: DeviceSession,
    s1: DeviceSession,
    reg0: ConnectionRegistry,
    reg1: ConnectionRegistry,
    event: SessionEvent,
    r: Option<WillowMsgCmd>,
) -> bool {
    if s0.state != SessionState::Active {
        s1 == s0 && reg1.records() == reg0.records() && reg1.channels() == reg0.channels() && r is None
    } else {
        match event {
            SessionEvent::Message(WillowMsg::Goodbye(_)) | SessionEvent::TransportClosed => {
                closes(s0, s1, reg0, reg1) && r is None
            },
            SessionEvent::Message(WillowMsg::Hello(h)) => {
                &&& s1 == s0
                &&& r is None
                &&& reg1.channels() == reg0.channels()
                &&& reg1.records() == if reg0.records().contains_key(s0.id) {
                    reg0.records().insert(
                        s0.id,
                        after_hello(reg0.records()[s0.id], h.spec_hostname(), h.spec_hw_type(), h.spec_mac_addr()),
                    )
                } else {
                    reg0.records()
                }
            },
            SessionEvent::Message(WillowMsg::Cmd(cmd)) => {
                s1 == s0 && reg1.records() == reg0.records() && reg1.channels() == reg0.channels() && r == Some(cmd)
            },
            SessionEvent::Pong { now_ms } => {
                &&& s1 == DeviceSession { last_pong_ms: now_ms, ..s0 }
                &&& reg1.records() == reg0.records() && reg1.channels() == reg0.channels()
                &&& r is None
            },
            SessionEvent::Tick { now_ms } => {
                &&& r is None
                &&& if lapsed(s0.last_pong_ms, now_ms) {
                    closes(s0, s1, reg0, reg1)
                } else {
                    s1 == s0 && reg1.records() == reg0.records() && reg1.channels() == reg0.channels()
                }
            },
            _ => s1 == s0 && reg1.records() == reg0.records() && reg1.channels() == reg0.channels() && r is None,
        }
    }
}

/// The session starts closing and its device is deregistered.
pub open spec fn closes(s0: DeviceSession, s1: DeviceSession, reg0: ConnectionRegistry, reg1: ConnectionRegistry) -> bool {
    &&& s1 == DeviceSession { state: SessionState::Closing, ..s0 }
    &&& removed(reg0, reg1, s0.id)
}

/// A session that has gone without a liveness acknowledgment for longer than
/// the timeout starts closing at the next heartbeat tick, and its device is
/// then absent from the registry.
pub proof fn lemma_lapsed_session_closes(
    s0: DeviceSession,
    s1: DeviceSession,
    reg0: ConnectionRegistry,
    reg1: ConnectionRegistry,
    now_ms: u64,
    r: Option<WillowMsgCmd>,
)
    requires
        s0.state == SessionState::Active,
        lapsed(s0.last_pong_ms, now_ms),
        session_step(s0, s1, reg0, reg1, SessionEvent::Tick { now_ms }, r),
    ensures
        s1.state == SessionState::Closing,
        !reg1.records().contains_key(s0.id),
        !reg1.channels().contains(s0.id),
{
}

/// Cleanup runs once: after a session has started closing, no event, whichever
/// trigger comes second, changes the session or the registry.
pub proof fn lemma_cleanup_runs_once(
    s1: DeviceSession,
    s2: DeviceSession,
    reg1: ConnectionRegistry,
    reg2: ConnectionRegistry,
    event: SessionEvent,
    r: Option<WillowMsgCmd>,
)
    requires
        s1.state == SessionState::Closing || s1.state == SessionState::Closed,
        session_step(s1, s2, reg1, reg2, event, r),
    ensures
        s2 == s1,
        reg2.records() == reg1.records(),
        reg2.channels() == reg1.channels(),
        r is None,
{
}

} // verus!
