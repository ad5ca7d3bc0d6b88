//! Decisions of the node's event loop. The loop itself waits on the network
//! and on the command bridge; each input it takes is handed to
//! [`LoopState::step`], which says what to do and what to count.

use vstd::prelude::*;
use libp2p::Multiaddr;
use crate::bridge::Command;

verus! {

/// Why a connection closed.
#[derive(Clone, Debug, PartialEq, Eq)]
pub enum CloseCause {
    /// This side closed it.
    LocalClose,
    /// The remote side reset it.
    Reset,
    /// It stayed idle past the keep-alive timeout.
    Timeout,
    /// It failed with another error, described.
    ProtocolError(String),
}

/// Why a liveness probe failed.
#[derive(Clone, Debug, PartialEq, Eq)]
pub enum ProbeFailure {
    Timeout,
    Unsupported,
    Other(String),
}

/// Result of one liveness probe.
#[derive(Clone, Debug, PartialEq, Eq)]
pub enum ProbeOutcome {
    /// The peer answered; round-trip time in microseconds.
    RoundTrip(u64),
    Failed(ProbeFailure),
}

/// A network event, with peers, addresses and connections given as text.
#[derive(Clone, Debug, PartialEq, Eq)]
pub enum NetEvent {
    /// A listen address was bound.
    Listening { address: String },
    /// A remote is attempting to connect.
    Incoming { connection: String, local: String, remote: String },
    /// A connection to a peer is established over the given remote address.
    Established { peer: String, remote: String },
    /// A connection to a peer was closed.
    Closed { peer: String, cause: CloseCause },
    /// An incoming connection failed.
    IncomingError { connection: String, local: String, remote: String, detail: String },
    /// An outgoing connection failed.
    OutgoingError { connection: String, peer: Option<String>, detail: String },
    /// An outgoing connection attempt started.
    Dialing { connection: String, peer: Option<String> },
    /// A liveness probe to a peer completed.
    Probe { peer: String, outcome: ProbeOutcome },
    /// A validated gossip message arrived, relayed by `source`.
    Message { source: String, topic: String, data: Vec<u8> },
    /// Anything else the network stack reports.
    Other { description: String },
}

/// One input to the event loop.
#[derive(Debug)]
pub enum LoopInput {
    /// The network stack produced an event.
    Network(NetEvent),
    /// The network stack terminated.
    NetworkEnded,
    /// The host issued a command through the bridge.
    Host(Command),
    /// Every bridge sender is gone.
    HostEnded,
    /// The network stack answered a dial request: `None` if it was initiated.
    DialOutcome { address: String, error: Option<String> },
    /// The gossip behaviour answered a publish request: `None` if it was sent.
    PublishOutcome { error: Option<String> },
}

/// What the loop asks its driver to do for one input.
#[derive(Debug)]
pub enum Action {
    /// Make the event observable (a status line).
    Report(NetEvent),
    /// Hand an inbound message to the host's notification path.
    Notify { peer: String, payload: Vec<u8> },
    /// Ask the network stack to dial the address.
    Dial(Multiaddr),
    /// Ask the gossip behaviour to publish the payload on the topic.
    Publish { topic: String, data: Vec<u8> },
    /// Report how a dial request went.
    ReportDial { address: String, error: Option<String> },
    /// Report how a publish request went.
    ReportPublish { error: Option<String> },
    /// Both sources are exhausted: leave the loop.
    Stop,
}

/// Counts of what the loop has seen; each saturates at `u64::MAX`.
#[derive(Clone, Copy, Debug, PartialEq, Eq, Structural)]
pub struct LoopStats {
    pub listening: u64,
    pub established: u64,
    pub closed: u64,
    pub delivered: u64,
    pub dials: u64,
    pub publishes: u64,
    pub probes_ok: u64,
    pub probes_failed: u64,
}

/// State of a node's event loop.
#[derive(Clone, Debug)]
pub struct LoopState {
    /// The topic the node subscribed to.
    pub topic: String,
    /// Whether inbound messages go to the host's notification path rather
    /// than to a status line.
    pub notify_host: bool,
    /// Whether the network stack may still produce events.
    pub network_open: bool,
    /// Whether the bridge may still deliver commands.
    pub commands_open: bool,
    pub stats: LoopStats,
}

/// `x + 1`, held at `u64::MAX`.
pub open spec fn bumped(x: u64) -> u64 {
    if x < u64::MAX { (x + 1) as u64 } else { x }
}

fn bump(x: u64) -> (r: u64)
    ensures
        r == bumped(x),
{
    if x < u64::MAX { x + 1 } else { x }
}

impl LoopStats {
    /// All counts zero.
    pub open spec fn zero() -> LoopStats {
        LoopStats {
            listening: 0,
            established: 0,
            closed: 0,
            delivered: 0,
            dials: 0,
            publishes: 0,
            probes_ok: 0,
            probes_failed: 0,
        }
    }
}

impl LoopState {
    /// The loop has ended: neither source can produce anything more.
    pub open spec fn terminated(self) -> bool {
        !self.network_open && !self.commands_open
    }

    /// Whether a message event is on the node's topic.
    pub open spec fn on_topic(self, topic: String) -> bool {
        topic@ == self.topic@
    }

    /// The action the loop takes for `input`, if any.
    pub open spec fn reaction(self, input: LoopInput) -> Option<Action> {
        if self.terminated() {
            None
        } else {
            match input {
                LoopInput::Network(event) => match event {
                    NetEvent::Message { source, topic, data } => {
                        if !self.on_topic(topic) {
                            None
                        } else if self.notify_host {
                            Some(Action::Notify { peer: source, payload: data })
                        } else {
                            Some(Action::Report(NetEvent::Message { source, topic, data }))
                        }
                    },
                    _ => Some(Action::Report(event)),
                },
                LoopInput::NetworkEnded => if self.commands_open { None } else { Some(Action::Stop) },
                LoopInput::Host(Command::Dial(address)) => Some(Action::Dial(address)),
                LoopInput::Host(Command::Publish(data)) => Some(Action::Publish { topic: self.topic, data }),
                LoopInput::HostEnded => if self.network_open { None } else { Some(Action::Stop) },
                LoopInput::DialOutcome { address, error } => Some(Action::ReportDial { address, error }),
                LoopInput::PublishOutcome { error } => Some(Action::ReportPublish { error }),
            }
        }
    }

    /// The counts after `input`.
    pub open spec fn stats_after(self, input: LoopInput) -> LoopStats {
        let s = self.stats;
        match input {
            LoopInput::Network(NetEvent::Listening { .. }) => LoopStats { listening: bumped(s.listening), ..s },
            LoopInput::Network(NetEvent::Established { .. }) => LoopStats { established: bumped(s.established), ..s },
            LoopInput::Network(NetEvent::Closed { .. }) => LoopStats { closed: bumped(s.closed), ..s },
            LoopInput::Network(NetEvent::Message { topic, .. }) => if self.on_topic(topic) {
                LoopStats { delivered: bumped(s.delivered), ..s }
            } else {
                s
            },
            LoopInput::Network(NetEvent::Probe { outcome: ProbeOutcome::RoundTrip(_), .. }) =>
                LoopStats { probes_ok: bumped(s.probes_ok), ..s },
            LoopInput::Network(NetEvent::Probe { outcome: ProbeOutcome::Failed(_), .. }) =>
                LoopStats { probes_failed: bumped(s.probes_failed), ..s },
            LoopInput::Host(Command::Dial(_)) => LoopStats { dials: bumped(s.dials), ..s },
            LoopInput::Host(Command::Publish(_)) => LoopStats { publishes: bumped(s.publishes), ..s },
            _ => s,
        }
    }

    /// The state after `input`.
    pub open spec fn after(self, input: LoopInput) -> LoopState {
        if self.terminated() {
            self
        } else {
            LoopState {
                network_open: self.network_open && !(input is NetworkEnded),
                commands_open: self.commands_open && !(input is HostEnded),
                stats: self.stats_after(input),
                ..self
            }
        }
    }

    /// A loop that has seen nothing yet, subscribed to `topic`.
    pub fn new(topic: String, notify_host: bool) -> (r: LoopState)
        ensures
            r.topic == topic,
            r.notify_host == notify_host,
            r.network_open,
            r.commands_open,
            r.stats == LoopStats::zero(),
    {
        LoopState {
            topic,
            notify_host,
            network_open: true,
            commands_open: true,
            stats: LoopStats {
                listening: 0,
                established: 0,
                closed: 0,
                delivered: 0,
                dials: 0,
                publishes: 0,
                probes_ok: 0,
                probes_failed: 0,
            },
        }
    }

    /// Whether the loop has ended.
    pub fn is_terminated(&self) -> (r: bool)
        ensures
            r == self.terminated(),
    {
        !self.network_open && !self.commands_open
    }

    /// Takes one input: updates the state and returns the action to perform.
    pub fn step(&mut self, input: LoopInput) -> (r: Option<Action>)
        ensures
            r == old(self).reaction(input),
            *final(self) == old(self).after(input),
    {
        if self.is_terminated() {
            return None;
        }
        match input {
            LoopInput::Network(event) => self.on_network(event),
            LoopInput::NetworkEnded => {
                self.network_open = false;
                if self.commands_open { None } else { Some(Action::Stop) }
            },
            LoopInput::Host(Command::Dial(address)) => {
                self.stats.dials = bump(self.stats.dials);
                Some(Action::Dial(address))
            },
            LoopInput::Host(Command::Publish(data)) => {
                self.stats.publishes = bump(self.stats.publishes);
                Some(Action::Publish { topic: self.topic.clone(), data })
            },
            LoopInput::HostEnded => {
                self.commands_open = false;
                if self.network_open { None } else { Some(Action::Stop) }
            },
            LoopInput::DialOutcome { address, error } => Some(Action::ReportDial { address, error }),
            LoopInput::PublishOutcome { error } => Some(Action::ReportPublish { error }),
        }
    }

    fn on_network(&mut self, event: NetEvent) -> (r: Option<Action>)
        requires
            !old(self).terminated(),
        ensures
            r == old(self).reaction(LoopInput::Network(event)),
            *final(self) == old(self).after(LoopInput::Network(event)),
    {
        match event {
            NetEvent::Message { source, topic, data } => {
                if topic != self.topic {
                    None
                } else {
                    self.stats.delivered = bump(self.stats.delivered);
                    if self.notify_host {
                        Some(Action::Notify { peer: source, payload: data })
                    } else {
                        Some(Action::Report(NetEvent::Message { source, topic, data }))
                    }
                }
            },
            NetEvent::Listening { address } => {
                self.stats.listening = bump(self.stats.listening);
                Some(Action::Report(NetEvent::Listening { address }))
            },
            NetEvent::Established { peer, remote } => {
                self.stats.established = bump(self.stats.established);
                Some(Action::Report(NetEvent::Established { peer, remote }))
            },
            NetEvent::Closed { peer, cause } => {
                self.stats.closed = bump(self.stats.closed);
                Some(Action::Report(NetEvent::Closed { peer, cause }))
            },
            NetEvent::Probe { peer, outcome } => {
                match &outcome {
                    ProbeOutcome::RoundTrip(_) => {
                        self.stats.probes_ok = bump(self.stats.probes_ok);
                    },
                    ProbeOutcome::Failed(_) => {
                        self.stats.probes_failed = bump(self.stats.probes_failed);
                    },
                }
                Some(Action::Report(NetEvent::Probe { peer, outcome }))
            },
            other => Some(Action::Report(other)),
        }
    }
}

} // verus!
