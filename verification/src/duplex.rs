use vstd::prelude::*;

use crate::ascii::copy_bytes;
use crate::directory::Directory;
use crate::errors::RelayError;
use crate::hub::{Hub, published_one};

verus! {

/// One frame on a duplex leg, its payload normalized to bytes. A data
/// frame remembers whether it was a text or a binary frame so that it can
/// be forwarded as the equivalent frame type.
pub enum Frame {
    Data { text: bool, payload: Vec<u8> },
    Ping(Vec<u8>),
    Pong(Vec<u8>),
    Close,
}

/// The lifecycle of a duplex session. `Closing` is entered when either leg
/// observes a close frame or an error; the session drains no further
/// messages and both sockets are released, after which it is `Closed`.
#[derive(Clone, Copy, Debug, PartialEq, Eq, Structural)]
pub enum SessionState {
    Connecting,
    Active,
    Closing,
    Closed,
}

/// One observation made by the session's pump: a frame, or a failure, on
/// one of the two legs.
pub enum DuplexEvent {
    Downstream(Frame),
    Upstream(Frame),
    DownstreamFailed,
    UpstreamFailed,
    /// The downstream leg has carried no traffic for the liveness interval.
    DownstreamIdle,
}

/// What the pump must do in reaction to one event.
pub enum DuplexAction {
    /// Send this frame on the upstream leg.
    ForwardUpstream(Frame),
    /// Send this frame on the downstream leg.
    ForwardDownstream(Frame),
    /// Answer a ping locally: send an empty pong downstream.
    PongDownstream,
    /// Probe a silent downstream leg: send an empty ping downstream.
    PingDownstream,
    /// Answer a ping locally: send an empty pong upstream.
    PongUpstream,
    /// Close the downstream socket.
    CloseDownstream,
    /// Close the upstream socket.
    CloseUpstream,
}

/// A duplex relay session: one downstream client socket paired with one
/// upstream socket for the endpoint's duplex URL, for the lifetime of a
/// single client connection.
pub struct DuplexSession {
    pub endpoint_id: String,
    pub target: String,
    pub state: SessionState,
    /// Whether a liveness probe of the downstream leg is outstanding: set
    /// when the leg falls silent and a ping is sent, cleared by any
    /// downstream traffic. A second silent interval with the probe still
    /// outstanding means the client socket is dead and ends the session.
    pub probe_outstanding: bool,
}

/// The target resolution of the duplex surface: the endpoint's duplex URL,
/// a client-addressing failure for an unknown identifier, or
/// `UnsupportedTransport` for an endpoint that has no duplex URL.
pub open spec fn spec_resolve_duplex(d: Directory, id: Seq<char>) -> Result<Seq<char>, RelayError> {
    match d.spec_get(id) {
        Some(e) => match e.rpc_ws {
            Some(u) => Ok(u@),
            None => Err(RelayError::UnsupportedTransport),
        },
        None => Err(RelayError::EndpointNotFound),
    }
}

/// Whether an event is terminal for the session: a close frame or a
/// failure on either leg. A duplex session has no partial-failure mode;
/// any of these tears the whole session down.
pub open spec fn spec_terminal(event: DuplexEvent) -> bool {
    match event {
        DuplexEvent::Downstream(f) => f is Close,
        DuplexEvent::Upstream(f) => f is Close,
        DuplexEvent::DownstreamFailed => true,
        DuplexEvent::UpstreamFailed => true,
        DuplexEvent::DownstreamIdle => false,
    }
}

/// Whether this event, arriving with the given probe flag, ends the
/// session: a terminal event always does, and a silent interval does when
/// the previous probe went unanswered.
pub open spec fn spec_ends_session(event: DuplexEvent, probe_outstanding: bool) -> bool {
    spec_terminal(event) || (event is DownstreamIdle && probe_outstanding)
}

/// The probe flag after an event: raised by a silent interval, cleared by
/// any downstream traffic, untouched by upstream traffic.
pub open spec fn spec_probe_after(event: DuplexEvent, probe_outstanding: bool) -> bool {
    match event {
        DuplexEvent::Downstream(_) => false,
        DuplexEvent::Upstream(_) => probe_outstanding,
        DuplexEvent::DownstreamFailed => probe_outstanding,
        DuplexEvent::UpstreamFailed => probe_outstanding,
        DuplexEvent::DownstreamIdle => true,
    }
}

/// Open a duplex session towards `endpoint_id`: resolve the endpoint and
/// its duplex URL. The session starts out `Connecting`; the caller must
/// establish the upstream socket to `target` and report the outcome
/// through `connected` or `connect_failed` before pumping frames.
pub fn open_duplex(directory: &Directory, endpoint_id: &String) -> (r: Result<
    DuplexSession,
    RelayError,
>)
    ensures
        r is Ok <==> spec_resolve_duplex(*directory, endpoint_id@) is Ok,
        r matches Err(e) ==> Err::<Seq<char>, RelayError>(e) == spec_resolve_duplex(
            *directory,
            endpoint_id@,
        ),
        r matches Ok(s) ==> s.endpoint_id@ == endpoint_id@ && s.state == SessionState::Connecting
            && Ok::<Seq<char>, RelayError>(s.target@) == spec_resolve_duplex(
            *directory,
            endpoint_id@,
        ),
{
    match directory.get(endpoint_id) {
        Ok(e) => match &e.rpc_ws {
            Some(url) => Ok(
                DuplexSession {
                    endpoint_id: endpoint_id.clone(),
                    target: url.clone(),
                    state: SessionState::Connecting,
                    probe_outstanding: false,
                },
            ),
            None => Err(RelayError::UnsupportedTransport),
        },
        Err(err) => Err(err),
    }
}

impl DuplexSession {
    /// The upstream handshake completed; the session becomes active.
    pub fn connected(&mut self)
        requires
            old(self).state == SessionState::Connecting,
        ensures
            final(self).state == SessionState::Active,
            final(self).endpoint_id == old(self).endpoint_id,
            final(self).target == old(self).target,
            final(self).probe_outstanding == old(self).probe_outstanding,
    {
        self.state = SessionState::Active;
    }

    /// The upstream handshake failed; the session is over before it ever
    /// became active, and the failure is surfaced as `UpstreamUnreachable`.
    pub fn connect_failed(&mut self) -> (r: RelayError)
        requires
            old(self).state == SessionState::Connecting,
        ensures
            final(self).state == SessionState::Closed,
            final(self).endpoint_id == old(self).endpoint_id,
            final(self).target == old(self).target,
            r == RelayError::UpstreamUnreachable,
    {
        self.state = SessionState::Closed;
        RelayError::UpstreamUnreachable
    }

    /// React to one event on an active session. Data frames are forwarded
    /// verbatim to the opposite leg, and every upstream-originated data
    /// frame is additionally published to the endpoint's fan-out entry;
    /// pings and pongs are answered locally on the leg they arrived on and
    /// never forwarded; a close frame or a leg failure tears the whole
    /// session down, closing both sockets in the same step. A downstream
    /// leg that stays silent for the liveness interval is probed with a
    /// ping once; a second silent interval with the probe unanswered ends
    /// the session, so a dead client socket is never held open.
    pub fn step(&mut self, hub: &mut Hub, event: DuplexEvent) -> (r: Vec<DuplexAction>)
        requires
            old(self).state == SessionState::Active,
            old(hub).wf(),
        ensures
            final(self).endpoint_id == old(self).endpoint_id,
            final(self).target == old(self).target,
            final(hub).wf(),
            final(self).state == if spec_ends_session(event, old(self).probe_outstanding) {
                SessionState::Closing
            } else {
                SessionState::Active
            },
            final(self).probe_outstanding == spec_probe_after(event, old(self).probe_outstanding),
            spec_ends_session(event, old(self).probe_outstanding) ==> r@ == seq![
                DuplexAction::CloseDownstream,
                DuplexAction::CloseUpstream,
            ] && *final(hub) == *old(hub),
            event is DownstreamIdle && !old(self).probe_outstanding ==> r@ == seq![
                DuplexAction::PingDownstream,
            ] && *final(hub) == *old(hub),
            (match event {
                DuplexEvent::Downstream(f) => match f {
                    Frame::Data { text, payload } => r@ == seq![
                        DuplexAction::ForwardUpstream(Frame::Data { text, payload }),
                    ] && *final(hub) == *old(hub),
                    Frame::Ping(_) => r@ == seq![DuplexAction::PongDownstream] && *final(hub)
                        == *old(hub),
                    Frame::Pong(_) => r@ == seq![DuplexAction::PongDownstream] && *final(hub)
                        == *old(hub),
                    Frame::Close => true,
                },
                DuplexEvent::Upstream(f) => match f {
                    Frame::Data { text, payload } => r@ == seq![
                        DuplexAction::ForwardDownstream(Frame::Data { text, payload }),
                    ] && published_one(*old(hub), *final(hub), old(self).endpoint_id@, payload@),
                    Frame::Ping(_) => r@ == seq![DuplexAction::PongUpstream] && *final(hub)
                        == *old(hub),
                    Frame::Pong(_) => r@ == seq![DuplexAction::PongUpstream] && *final(hub)
                        == *old(hub),
                    Frame::Close => true,
                },
                DuplexEvent::DownstreamFailed => true,
                DuplexEvent::UpstreamFailed => true,
                DuplexEvent::DownstreamIdle => true,
            }),
    {
        let mut actions: Vec<DuplexAction> = Vec::new();
        match event {
            DuplexEvent::Downstream(f) => {
                self.probe_outstanding = false;
                match f {
                    Frame::Data { text, payload } => {
                        actions.push(DuplexAction::ForwardUpstream(Frame::Data { text, payload }));
                    },
                    Frame::Ping(_) => {
                        actions.push(DuplexAction::PongDownstream);
                    },
                    Frame::Pong(_) => {
                        actions.push(DuplexAction::PongDownstream);
                    },
                    Frame::Close => {
                        self.state = SessionState::Closing;
                        actions.push(DuplexAction::CloseDownstream);
                        actions.push(DuplexAction::CloseUpstream);
                    },
                }
            },
            DuplexEvent::Upstream(f) => match f {
                Frame::Data { text, payload } => {
                    let copy = copy_bytes(&payload);
                    hub.publish(&self.endpoint_id, copy);
                    actions.push(DuplexAction::ForwardDownstream(Frame::Data { text, payload }));
                },
                Frame::Ping(_) => {
                    actions.push(DuplexAction::PongUpstream);
                },
                Frame::Pong(_) => {
                    actions.push(DuplexAction::PongUpstream);
                },
                Frame::Close => {
                    self.state = SessionState::Closing;
                    actions.push(DuplexAction::CloseDownstream);
                    actions.push(DuplexAction::CloseUpstream);
                },
            },
            DuplexEvent::DownstreamFailed => {
                self.state = SessionState::Closing;
                actions.push(DuplexAction::CloseDownstream);
                actions.push(DuplexAction::CloseUpstream);
            },
            DuplexEvent::UpstreamFailed => {
                self.state = SessionState::Closing;
                actions.push(DuplexAction::CloseDownstream);
                actions.push(DuplexAction::CloseUpstream);
            },
            DuplexEvent::DownstreamIdle => {
                if self.probe_outstanding {
                    self.state = SessionState::Closing;
                    actions.push(DuplexAction::CloseDownstream);
                    actions.push(DuplexAction::CloseUpstream);
                } else {
                    self.probe_outstanding = true;
                    actions.push(DuplexAction::PingDownstream);
                }
            },
        }
        actions
    }

    /// Both sockets have been released; the session is closed.
    pub fn released(&mut self)
        requires
            old(self).state == SessionState::Closing,
        ensures
            final(self).state == SessionState::Closed,
            final(self).endpoint_id == old(self).endpoint_id,
            final(self).target == old(self).target,
    {
        self.state = SessionState::Closed;
    }
}


} // verus!
