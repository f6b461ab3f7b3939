//! Coordination of one inbound HTTP forward-proxy connection.
//!
//! Three participants share a connection: the inbound HTTP server that runs
//! each request through the user rewriter, the single-shot target-publication
//! outlet, and the write-once upstream-sender slot that the finalize path
//! populates. The decisions — when the outlet fires, when a request parks,
//! when the slot is written — are made here; the unverified glue performs
//! the sends and awaits they name.

use crate::endpoint::Endpoint;
use crate::http::{effective_port, spec_effective_port};
use vstd::prelude::*;

verus! {

/// What the user rewriter decided for one inbound request, reduced to the
/// pieces the coordinator reads: forward the (possibly rewritten) request
/// upstream, naming the host, explicit port and scheme of its URI, or answer
/// it locally with a synthetic response.
#[derive(Debug)]
pub enum RewriteDecision {
    Forward { host: Option<String>, port: Option<u16>, https: bool },
    Respond,
}

/// What the inbound server must do with one request.
#[derive(Debug)]
pub enum RequestAction {
    /// Answer the rewriter's synthetic response directly; no upstream work.
    RespondSynthetic,
    /// Publish this endpoint through the target outlet, then dispatch the
    /// request upstream once the sender slot is populated.
    PublishThenDispatch(Endpoint),
    /// Dispatch upstream once the sender slot is populated; until then the
    /// request stays parked, neither dropped nor failed.
    DispatchWhenReady,
}

/// Coordination state of one inbound connection: whether the
/// target-publication outlet is still armed, and whether the upstream-sender
/// slot has been written.
#[derive(Clone, Copy, Debug)]
pub struct RewriteConnection {
    pub outlet_armed: bool,
    pub sender_installed: bool,
}

/// The events a connection's coordination state steps through.
pub enum ConnectionEvent {
    /// The inbound server received a request and the rewriter decided this.
    Request(RewriteDecision),
    /// The finalize path connected the upstream and offers the sender.
    InstallSender,
}

/// The state a connection starts in: outlet armed, slot empty.
pub open spec fn initial_connection() -> RewriteConnection {
    RewriteConnection { outlet_armed: true, sender_installed: false }
}

/// Whether this request decision fires the target outlet: the outlet is
/// still armed and the rewriter forwards a request with a usable host.
pub open spec fn request_fires(s: RewriteConnection, d: RewriteDecision) -> bool {
    s.outlet_armed && (d matches RewriteDecision::Forward { host: Some(_), .. })
}

/// Whether this event fires the target outlet.
pub open spec fn event_fires(s: RewriteConnection, e: ConnectionEvent) -> bool {
    e matches ConnectionEvent::Request(d) && request_fires(s, d)
}

/// Whether this event writes the upstream-sender slot: the slot is
/// write-once, so only an install against an empty slot writes.
pub open spec fn event_writes(s: RewriteConnection, e: ConnectionEvent) -> bool {
    e is InstallSender && !s.sender_installed
}

/// The coordination state after one event.
pub open spec fn step(s: RewriteConnection, e: ConnectionEvent) -> RewriteConnection {
    match e {
        ConnectionEvent::Request(d) => RewriteConnection {
            outlet_armed: s.outlet_armed && !request_fires(s, d),
            sender_installed: s.sender_installed,
        },
        ConnectionEvent::InstallSender => RewriteConnection {
            outlet_armed: s.outlet_armed,
            sender_installed: true,
        },
    }
}

/// How often the outlet fires over a sequence of events starting in `s`.
pub open spec fn fire_count(s: RewriteConnection, es: Seq<ConnectionEvent>) -> int
    decreases es.len(),
{
    if es.len() == 0 {
        0
    } else {
        (if event_fires(s, es[0]) {
            1int
        } else {
            0int
        }) + fire_count(step(s, es[0]), es.drop_first())
    }
}

/// How often the slot is written over a sequence of events starting in `s`.
pub open spec fn write_count(s: RewriteConnection, es: Seq<ConnectionEvent>) -> int
    decreases es.len(),
{
    if es.len() == 0 {
        0
    } else {
        (if event_writes(s, es[0]) {
            1int
        } else {
            0int
        }) + write_count(step(s, es[0]), es.drop_first())
    }
}

proof fn lemma_fire_count_bound(s: RewriteConnection, es: Seq<ConnectionEvent>)
    ensures
        0 <= fire_count(s, es) <= if s.outlet_armed {
            1int
        } else {
            0int
        },
    decreases es.len(),
{
    if es.len() > 0 {
        lemma_fire_count_bound(step(s, es[0]), es.drop_first());
    }
}

proof fn lemma_write_count_bound(s: RewriteConnection, es: Seq<ConnectionEvent>)
    ensures
        0 <= write_count(s, es) <= if s.sender_installed {
            0int
        } else {
            1int
        },
    decreases es.len(),
{
    if es.len() > 0 {
        lemma_write_count_bound(step(s, es[0]), es.drop_first());
    }
}

/// Law: over any sequence of events on one inbound connection, the
/// target-publication outlet fires at most once and the upstream-sender
/// slot is written at most once.
pub proof fn lemma_coupling_at_most_once(es: Seq<ConnectionEvent>)
    ensures
        fire_count(initial_connection(), es) <= 1,
        write_count(initial_connection(), es) <= 1,
{
    lemma_fire_count_bound(initial_connection(), es);
    lemma_write_count_bound(initial_connection(), es);
}

impl RewriteConnection {
    /// A fresh connection: outlet armed, sender slot empty.
    pub fn new() -> (r: RewriteConnection)
        ensures
            r == initial_connection(),
    {
        RewriteConnection { outlet_armed: true, sender_installed: false }
    }

    /// Decide what the inbound server does with one request, given the
    /// rewriter's decision, and advance the coordination state.
    ///
    /// A synthetic response is answered directly. A forwarded request fires
    /// the armed outlet when its URI has a usable host — building the
    /// endpoint from the host and the defaulted port — and otherwise parks
    /// until the sender slot is populated.
    pub fn on_request(&mut self, d: RewriteDecision) -> (a: RequestAction)
        ensures
            *final(self) == step(*old(self), ConnectionEvent::Request(d)),
            d is Respond ==> a is RespondSynthetic,
            event_fires(*old(self), ConnectionEvent::Request(d)) ==> ({
                &&& a matches RequestAction::PublishThenDispatch(ep)
                &&& d matches RewriteDecision::Forward { host, port, https }
                &&& host matches Some(h)
                &&& ep matches Endpoint::HostName(h2, p)
                &&& h2@ == h@
                &&& p == spec_effective_port(port, https)
            }),
            d matches RewriteDecision::Forward { .. } && !event_fires(
                *old(self),
                ConnectionEvent::Request(d),
            ) ==> a is DispatchWhenReady,
    {
        match d {
            RewriteDecision::Respond => RequestAction::RespondSynthetic,
            RewriteDecision::Forward { host, port, https } => {
                if self.outlet_armed {
                    match host {
                        Some(h) => {
                            self.outlet_armed = false;
                            RequestAction::PublishThenDispatch(
                                Endpoint::HostName(h, effective_port(&port, https)),
                            )
                        },
                        None => RequestAction::DispatchWhenReady,
                    }
                } else {
                    RequestAction::DispatchWhenReady
                }
            },
        }
    }

    /// Record that the finalize path wrote the upstream sender into the
    /// slot. The slot is write-once: it must still be empty.
    pub fn install_sender(&mut self)
        requires
            !old(self).sender_installed,
        ensures
            *final(self) == step(*old(self), ConnectionEvent::InstallSender),
    {
        self.sender_installed = true;
    }

    /// Whether a parked request may dispatch: the sender slot is populated.
    pub fn can_dispatch(&self) -> (r: bool)
        ensures
            r == self.sender_installed,
    {
        self.sender_installed
    }
}

/// The four ways the finalize-phase race between the inbound server and the
/// upstream driver can end.
pub enum FinalizeEvent {
    /// The inbound server finished: the client closed.
    InboundFinished,
    /// The upstream driver finished: the upstream closed.
    UpstreamFinished,
    InboundFailed,
    UpstreamFailed,
}

/// What `finalize` does when its race ends.
pub enum FinalizeAction {
    /// Succeed; the upstream driver is dropped (the client is gone anyway).
    Succeed,
    /// Keep draining the inbound server until it also ends, letting the last
    /// response flush through.
    DrainInbound,
    /// Propagate the failure.
    Fail,
}

/// Decide how `finalize` ends, from which future of its race finished first.
pub fn finalize_race_action(e: &FinalizeEvent) -> (a: FinalizeAction)
    ensures
        *e is InboundFinished ==> a is Succeed,
        *e is UpstreamFinished ==> a is DrainInbound,
        *e is InboundFailed || *e is UpstreamFailed ==> a is Fail,
{
    match e {
        FinalizeEvent::InboundFinished => FinalizeAction::Succeed,
        FinalizeEvent::UpstreamFinished => FinalizeAction::DrainInbound,
        FinalizeEvent::InboundFailed => FinalizeAction::Fail,
        FinalizeEvent::UpstreamFailed => FinalizeAction::Fail,
    }
}

/// Carrier for a forward-proxy handshake that published a target: it holds
/// the decoded endpoint; the still-running inbound server and the shared
/// sender slot live beside it in the unverified glue.
pub struct RewriteMidHandshake {
    pub target: Endpoint,
}

impl RewriteMidHandshake {
    /// Wrap the published target endpoint.
    pub fn new(target: Endpoint) -> (r: RewriteMidHandshake)
        ensures
            r.target == target,
    {
        RewriteMidHandshake { target }
    }

    /// The decoded target endpoint; pure, callable any number of times
    /// before finalize, always returning the stored target.
    pub fn target_endpoint(&self) -> (r: &Endpoint)
        ensures
            *r == self.target,
    {
        &self.target
    }
}

} // verus!
