//! The tunnel agent's state machine: connect, register, then bridge
//! relay-delivered requests to the local service, reconnecting with a fixed
//! backoff when the control channel is lost. The machine turns each event
//! into the next phase and the actions to perform; the sockets, timers and
//! the local TCP bridge that carry those actions out live outside.

use vstd::prelude::*;
use crate::codec::{decode, encode, spec_decode, spec_encode};
use crate::msg::{FrameModel, TunnelMessage, clone_domain, opt_text, opt_wire_text, wire_text};

verus! {

/// How long a lost connection waits before the next attempt.
pub const RETRY_BACKOFF_MS: u64 = 5000;

/// How many bytes of the local service's response one bridge read takes.
pub const LOCAL_READ_BUFFER: usize = 8192;

/// Where the agent stands in its connection lifecycle.
#[derive(Clone, Copy, Debug, PartialEq, Eq, Structural)]
pub enum AgentPhase {
    /// No control channel; waiting to be started or backing off.
    Disconnected,
    /// Opening the control channel.
    Connecting,
    /// Channel open, registration sent, awaiting confirmation.
    Registering,
    /// Registered; bridging requests until the channel fails.
    Active,
}

/// What the world tells the agent.
#[derive(Debug)]
pub enum AgentEvent {
    /// Begin (or, after a backoff, retry) connecting.
    Start,
    /// The control channel is open.
    ConnectSucceeded,
    /// The control channel could not be opened.
    ConnectFailed,
    /// A payload arrived on the control channel.
    Frame { payload: Vec<u8> },
    /// The registration confirmation did not arrive in time.
    RegisterTimeout,
    /// The local service answered a bridged request with these bytes.
    BridgeResponse { request_id: u64, data: Vec<u8> },
    /// The local service could not be reached or failed mid-request.
    BridgeFailed { request_id: u64 },
    /// The control channel closed or failed.
    TransportLost,
}

/// What the agent asks the world to do.
#[derive(Debug)]
pub enum AgentAction {
    /// Open the control channel to the relay.
    Connect,
    /// Write this payload to the control channel.
    SendFrame { payload: Vec<u8> },
    /// Forward these bytes to the local service and report what comes back.
    OpenBridge { request_id: u64, data: Vec<u8> },
    /// Registration confirmed: the tunnel is public under this URL.
    ReportUrl { url: String },
    /// This start attempt failed for good; report upward, do not retry it.
    ReportStartFailure,
    /// Wait this long, then raise `Start` again.
    Backoff { wait_ms: u64 },
}

/// The agent: its lifecycle phase and the identity it registers under.
#[derive(Debug)]
pub struct Agent {
    pub phase: AgentPhase,
    /// The client's opaque identifier, stable across reconnects.
    pub client_id: String,
    /// Custom hostname to ask for, if any.
    pub domain: Option<String>,
}

impl Agent {
    /// The identity is wire-ready: the registration frame always encodes.
    pub open spec fn wf(self) -> bool {
        &&& wire_text(self.client_id@)
        &&& opt_wire_text(opt_text(self.domain))
    }

    /// A fresh agent, not yet connected.
    pub fn new(client_id: String, domain: Option<String>) -> (r: Agent)
        requires
            wire_text(client_id@),
            opt_wire_text(opt_text(domain)),
        ensures
            r.wf(),
            r.phase is Disconnected,
            r.client_id@ == client_id@,
            opt_text(r.domain) == opt_text(domain),
    {
        Agent { phase: AgentPhase::Disconnected, client_id, domain }
    }

    /// Advances the machine by one event, returning the actions to perform,
    /// in order. Every transition of the lifecycle is decided here:
    /// connect attempts, the registration exchange, request bridging,
    /// keep-alive echoes, and the backoff after a lost channel. An event
    /// that does not belong to the current phase changes nothing.
    pub fn step(&mut self, event: AgentEvent) -> (actions: Vec<AgentAction>)
        requires
            old(self).wf(),
        ensures
            final(self).wf(),
            final(self).client_id == old(self).client_id,
            final(self).domain == old(self).domain,
            ({
                let pre = old(self).phase;
                let post = final(self).phase;
                match event {
                    AgentEvent::Start => if pre is Disconnected {
                        post is Connecting && actions@.len() == 1 && actions@[0] is Connect
                    } else {
                        post == pre && actions@.len() == 0
                    },
                    AgentEvent::ConnectSucceeded => if pre is Connecting {
                        &&& post is Registering
                        &&& actions@.len() == 1
                        &&& actions@[0] matches AgentAction::SendFrame { payload } && payload@
                            == spec_encode(
                            FrameModel::Register {
                                client_id: old(self).client_id@,
                                domain: opt_text(old(self).domain),
                            },
                        )
                    } else {
                        post == pre && actions@.len() == 0
                    },
                    AgentEvent::ConnectFailed => if pre is Connecting {
                        post is Disconnected && actions@.len() == 1 && (actions@[0] matches
                            AgentAction::Backoff { wait_ms } && wait_ms == RETRY_BACKOFF_MS)
                    } else {
                        post == pre && actions@.len() == 0
                    },
                    AgentEvent::RegisterTimeout => if pre is Registering {
                        post is Disconnected && actions@.len() == 1 && actions@[0]
                            is ReportStartFailure
                    } else {
                        post == pre && actions@.len() == 0
                    },
                    AgentEvent::TransportLost => match pre {
                        AgentPhase::Active => post is Disconnected && actions@.len() == 1 && (
                        actions@[0] matches AgentAction::Backoff { wait_ms } && wait_ms
                            == RETRY_BACKOFF_MS),
                        AgentPhase::Connecting => post is Disconnected && actions@.len() == 1 && (
                        actions@[0] matches AgentAction::Backoff { wait_ms } && wait_ms
                            == RETRY_BACKOFF_MS),
                        AgentPhase::Registering => post is Disconnected && actions@.len() == 1
                            && actions@[0] is ReportStartFailure,
                        AgentPhase::Disconnected => post is Disconnected && actions@.len() == 0,
                    },
                    AgentEvent::Frame { payload } => match pre {
                        AgentPhase::Registering => match spec_decode(payload@) {
                            Some(f) => match f {
                                FrameModel::Registered { url } => post is Active && actions@.len()
                                    == 1 && (actions@[0] matches AgentAction::ReportUrl { url: u }
                                    && u@ == url),
                                _ => post is Disconnected && actions@.len() == 1 && actions@[0]
                                    is ReportStartFailure,
                            },
                            None => post is Disconnected && actions@.len() == 1 && actions@[0]
                                is ReportStartFailure,
                        },
                        AgentPhase::Active => match spec_decode(payload@) {
                            Some(f) => match f {
                                FrameModel::HttpRequest { request_id, data } => post is Active
                                    && actions@.len() == 1 && (actions@[0] matches
                                    AgentAction::OpenBridge { request_id: rid, data: d } && rid
                                    == request_id && d@ == data),
                                FrameModel::KeepAlive => post is Active && actions@.len() == 1 && (
                                actions@[0] matches AgentAction::SendFrame { payload: p } && p@
                                    == spec_encode(FrameModel::KeepAlive)),
                                _ => post is Active && actions@.len() == 0,
                            },
                            None => post is Active && actions@.len() == 0,
                        },
                        _ => post == pre && actions@.len() == 0,
                    },
                    AgentEvent::BridgeResponse { request_id, data } => if pre is Active {
                        if data@.len() <= u32::MAX {
                            post is Active && actions@.len() == 1 && (actions@[0] matches
                                AgentAction::SendFrame { payload } && payload@ == spec_encode(
                                FrameModel::HttpResponse { request_id, data: data@ },
                            ))
                        } else {
                            post is Active && actions@.len() == 0
                        }
                    } else {
                        post == pre && actions@.len() == 0
                    },
                    AgentEvent::BridgeFailed { request_id } => post == pre && actions@.len() == 0,
                }
            }),
    {
        let mut actions: Vec<AgentAction> = Vec::new();
        match event {
            AgentEvent::Start => {
                if self.phase == AgentPhase::Disconnected {
                    self.phase = AgentPhase::Connecting;
                    actions.push(AgentAction::Connect);
                }
            },
            AgentEvent::ConnectSucceeded => {
                if self.phase == AgentPhase::Connecting {
                    self.phase = AgentPhase::Registering;
                    let frame = TunnelMessage::Register {
                        client_id: self.client_id.clone(),
                        domain: clone_domain(&self.domain),
                    };
                    let payload = encode(&frame);
                    actions.push(AgentAction::SendFrame { payload });
                }
            },
            AgentEvent::ConnectFailed => {
                if self.phase == AgentPhase::Connecting {
                    self.phase = AgentPhase::Disconnected;
                    actions.push(AgentAction::Backoff { wait_ms: RETRY_BACKOFF_MS });
                }
            },
            AgentEvent::RegisterTimeout => {
                if self.phase == AgentPhase::Registering {
                    self.phase = AgentPhase::Disconnected;
                    actions.push(AgentAction::ReportStartFailure);
                }
            },
            AgentEvent::TransportLost => {
                match self.phase {
                    AgentPhase::Active | AgentPhase::Connecting => {
                        self.phase = AgentPhase::Disconnected;
                        actions.push(AgentAction::Backoff { wait_ms: RETRY_BACKOFF_MS });
                    },
                    AgentPhase::Registering => {
                        self.phase = AgentPhase::Disconnected;
                        actions.push(AgentAction::ReportStartFailure);
                    },
                    AgentPhase::Disconnected => {},
                }
            },
            AgentEvent::Frame { payload } => {
                match self.phase {
                    AgentPhase::Registering => {
                        match decode(&payload) {
                            Ok(TunnelMessage::Registered { url }) => {
                                self.phase = AgentPhase::Active;
                                actions.push(AgentAction::ReportUrl { url });
                            },
                            _ => {
                                self.phase = AgentPhase::Disconnected;
                                actions.push(AgentAction::ReportStartFailure);
                            },
                        }
                    },
                    AgentPhase::Active => {
                        match decode(&payload) {
                            Ok(TunnelMessage::HttpRequest { request_id, data }) => {
                                actions.push(AgentAction::OpenBridge { request_id, data });
                            },
                            Ok(TunnelMessage::KeepAlive) => {
                                let reply = encode(&TunnelMessage::KeepAlive);
                                actions.push(AgentAction::SendFrame { payload: reply });
                            },
                            _ => {},
                        }
                    },
                    _ => {},
                }
            },
            AgentEvent::BridgeResponse { request_id, data } => {
                if self.phase == AgentPhase::Active {
                    if data.len() <= (u32::MAX as usize) {
                        let frame = TunnelMessage::HttpResponse { request_id, data };
                        let payload = encode(&frame);
                        actions.push(AgentAction::SendFrame { payload });
                    }
                }
            },
            AgentEvent::BridgeFailed { request_id: _ } => {},
        }
        actions
    }
}

} // verus!
