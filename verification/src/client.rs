//! The client side of a session: resolving the target, dialling with
//! retries, judging the handshake and supervising the local endpoint.

use crate::close::CloseReason;
use crate::config::{ClientConfig, Host};
use crate::constants::{MAX_RETRIES, RETRY_DELAY_SECS};
use crate::hosts::{check_host_name, position_by_identity, position_by_name};
use crate::config::book_is_sound;
use crate::hosts::{add_keeps_book_sound, first_identified, first_named, identified, named};
use crate::hosts::{HostError, NameCheck};
use crate::identity::{identity_bytes, parsed_key, NodeIdentity};
use crate::protocol::Protocol;
use vstd::prelude::*;

verus! {

/// What a target string stands for.
#[derive(Clone, Copy, Debug, PartialEq, Eq)]
pub enum Target {
    /// A host of the book, by its name or by its identity.
    Known(NodeIdentity),
    /// A well-formed identity that the book does not hold: the user may be
    /// asked whether to add it.
    Unlisted(NodeIdentity),
    /// Neither the name of a host nor an identity.
    Invalid,
}

/// Whether `target` stands for `outcome`, given the hosts of the book and
/// what the key parser made of the text. A name of the book wins over the
/// text read as an identity.
pub open spec fn resolves(
    hosts: Seq<Host>,
    target: Seq<char>,
    parsed: Option<Seq<u8>>,
    outcome: Target,
) -> bool {
    match outcome {
        Target::Known(id) => {
            ||| exists|i: int| first_named(hosts, target, i) && id@ == hosts[i].id@
            ||| (!named(hosts, target) && parsed == Some(id@) && identified(hosts, id@))
        },
        Target::Unlisted(id) => !named(hosts, target) && parsed == Some(id@) && !identified(
            hosts,
            id@,
        ),
        Target::Invalid => !named(hosts, target) && parsed.is_none(),
    }
}

/// Resolves a target, given what the key parser made of its text.
pub fn resolve_parsed(config: &ClientConfig, target: &str, parsed: Option<NodeIdentity>) -> (r:
    Target)
    ensures
        resolves(config.hosts@, target@, identity_bytes(parsed), r),
{
    match position_by_name(&config.hosts, target) {
        Some(i) => Target::Known(config.hosts[i].id),
        None => match parsed {
            Some(id) => {
                if position_by_identity(&config.hosts, &id).is_some() {
                    Target::Known(id)
                } else {
                    Target::Unlisted(id)
                }
            },
            None => Target::Invalid,
        },
    }
}

/// Resolves a target: the name of a known host, or else the text of an
/// identity.
pub fn resolve_node_id(config: &ClientConfig, target: &str) -> (r: Target)
    ensures
        resolves(config.hosts@, target@, parsed_key(target@), r),
{
    let parsed = NodeIdentity::parse(target);
    resolve_parsed(config, target, parsed)
}

/// Adds a host that the user has named to the book, first seen at `now`.
/// An empty name is refused, then a name and then an identity that the book
/// already holds; the book then stays as it is.
pub fn add_host_interactive(config: &mut ClientConfig, name: String, node_id: NodeIdentity, now: u64) -> (r:
    Result<(), HostError>)
    ensures
        match r {
            Ok(_) => {
                &&& name@.len() > 0
                &&& !named(old(config).hosts@, name@)
                &&& !identified(old(config).hosts@, node_id@)
                &&& final(config).hosts@ == old(config).hosts@.push(
                    Host {
                        name,
                        id: node_id,
                        description: None,
                        added_at: now,
                        last_connected: None,
                    },
                )
            },
            Err(HostError::EmptyName) => {
                &&& name@.len() == 0
                &&& final(config).hosts@ == old(config).hosts@
            },
            Err(HostError::NameExists { name: taken }) => {
                &&& name@.len() > 0
                &&& named(old(config).hosts@, name@)
                &&& taken == name
                &&& final(config).hosts@ == old(config).hosts@
            },
            Err(HostError::IdentityExists { name: owner }) => {
                &&& name@.len() > 0
                &&& !named(old(config).hosts@, name@)
                &&& final(config).hosts@ == old(config).hosts@
                &&& exists|i: int|
                    first_identified(old(config).hosts@, node_id@, i) && owner
                        == old(config).hosts@[i].name
            },
            Err(HostError::NotFound { .. }) => false,
        },
        final(config).settings == old(config).settings,
        book_is_sound(old(config).hosts@) ==> book_is_sound(final(config).hosts@),
{
    match check_host_name(&config.hosts, name.as_str()) {
        NameCheck::Empty => {
            return Err(HostError::EmptyName);
        },
        NameCheck::Taken => {
            return Err(HostError::NameExists { name });
        },
        NameCheck::Valid => {},
    }
    match position_by_identity(&config.hosts, &node_id) {
        Some(i) => {
            let owner = config.hosts[i].name.clone();
            return Err(HostError::IdentityExists { name: owner });
        },
        None => {},
    }
    let host = Host::new(name, node_id, now);
    proof {
        if book_is_sound(config.hosts@) {
            add_keeps_book_sound(config.hosts@, host);
        }
    }
    config.hosts.push(host);
    Ok(())
}

/// A target that resolves to an identity not in the book can be added under
/// any name that is new and not empty: its identity is new by the resolution.
pub proof fn unlisted_target_is_new(
    hosts: Seq<Host>,
    target: Seq<char>,
    parsed: Option<Seq<u8>>,
    id: NodeIdentity,
)
    requires
        resolves(hosts, target, parsed, Target::Unlisted(id)),
    ensures
        !identified(hosts, id@),
        !named(hosts, target),
{
}

/// How a dial attempt ended.
#[derive(Clone, Copy, Debug, PartialEq, Eq, Structural)]
pub enum DialOutcome {
    /// The session stands and the handshake was not refused.
    Connected,
    /// The peer closed the session with this reason.
    Closed(CloseReason),
    /// Anything else went wrong.
    Failed,
}

/// What the client does after a dial attempt.
#[derive(Clone, Copy, Debug, PartialEq, Eq, Structural)]
pub enum DialStep {
    /// Go on with the session.
    Proceed,
    /// Give the peer's refusal to the user; do not try again.
    Refused(CloseReason),
    /// Wait `delay_secs` seconds and dial again, with `retries` retries spent.
    Retry { retries: usize, delay_secs: u64 },
    /// Give the last error to the user.
    GiveUp,
}

/// The step after a dial attempt, with `retries` retries spent so far.
pub open spec fn dial_step(retries: usize, outcome: DialOutcome) -> DialStep {
    match outcome {
        DialOutcome::Connected => DialStep::Proceed,
        DialOutcome::Closed(reason) => DialStep::Refused(reason),
        DialOutcome::Failed => if retries < MAX_RETRIES {
            DialStep::Retry { retries: (retries + 1) as usize, delay_secs: RETRY_DELAY_SECS }
        } else {
            DialStep::GiveUp
        },
    }
}

/// One turn of the dial loop: a refusal by the peer ends it at once; any
/// other failure is tried again after a second, five times at most.
pub fn establish_connection(retries: usize, outcome: DialOutcome) -> (next: DialStep)
    ensures
        next == dial_step(retries, outcome),
        (outcome == DialOutcome::Failed && retries < 5) ==> next == (DialStep::Retry {
            retries: (retries + 1) as usize,
            delay_secs: 1,
        }),
        (outcome == DialOutcome::Failed && retries >= 5) ==> next == DialStep::GiveUp,
{
    match outcome {
        DialOutcome::Connected => DialStep::Proceed,
        DialOutcome::Closed(reason) => DialStep::Refused(reason),
        DialOutcome::Failed => {
            if retries < MAX_RETRIES {
                DialStep::Retry { retries: retries + 1, delay_secs: RETRY_DELAY_SECS }
            } else {
                DialStep::GiveUp
            }
        },
    }
}

/// The number of dials made when every one fails, starting with `retries`
/// retries spent.
pub open spec fn dials_when_all_fail(retries: usize) -> nat
    decreases MAX_RETRIES - retries,
{
    match dial_step(retries, DialOutcome::Failed) {
        DialStep::Retry { retries: spent, .. } => 1 + dials_when_all_fail(spent),
        _ => 1,
    }
}

/// A client whose every dial fails dials six times: once, and five retries.
pub proof fn dials_are_bounded()
    ensures
        dials_when_all_fail(0) == MAX_RETRIES + 1,
{
    reveal_with_fuel(dials_when_all_fail, 7);
}

/// How the transport says a session was closed.
#[derive(Clone, Copy, Debug, PartialEq, Eq, Structural)]
pub enum CloseCause {
    /// The peer closed it with an application code.
    Application { code: u64 },
    /// The transport failed or closed it otherwise.
    Transport,
    /// The transport gives no cause.
    Unreported,
}

/// What happened in the window after the handshake was sent.
#[derive(Clone, Copy, Debug, PartialEq, Eq, Structural)]
pub enum HandshakeEvent {
    /// The window passed and the session still stands.
    WindowElapsed,
    /// The session was closed within the window.
    Closed(CloseCause),
}

/// Why a handshake did not lead to a session.
#[derive(Clone, Copy, Debug, PartialEq, Eq, Structural)]
pub enum HandshakeError {
    /// The peer refused, for this reason.
    ConnectionClosed { reason: CloseReason },
    /// The session was closed, but not by a refusal of the peer.
    ClosedUnexpectedly,
}

pub open spec fn handshake_verdict(event: HandshakeEvent) -> Result<(), HandshakeError> {
    match event {
        HandshakeEvent::WindowElapsed => Ok(()),
        HandshakeEvent::Closed(CloseCause::Application { code }) => Err(
            HandshakeError::ConnectionClosed { reason: CloseReason::of_number(code) },
        ),
        HandshakeEvent::Closed(CloseCause::Transport) => Err(HandshakeError::ClosedUnexpectedly),
        HandshakeEvent::Closed(CloseCause::Unreported) => Err(
            HandshakeError::ConnectionClosed { reason: CloseReason::Unknown },
        ),
    }
}

/// Judges the handshake by what happened in the window after it was sent:
/// a session that still stands counts as authorized; a close by the peer is
/// turned into the reason that its code stands for.
pub fn try_connect(event: HandshakeEvent) -> (r: Result<(), HandshakeError>)
    ensures
        r == handshake_verdict(event),
{
    match event {
        HandshakeEvent::WindowElapsed => Ok(()),
        HandshakeEvent::Closed(CloseCause::Application { code }) => Err(
            HandshakeError::ConnectionClosed { reason: CloseReason::from_code(code) },
        ),
        HandshakeEvent::Closed(CloseCause::Transport) => Err(HandshakeError::ClosedUnexpectedly),
        HandshakeEvent::Closed(CloseCause::Unreported) => Err(
            HandshakeError::ConnectionClosed { reason: CloseReason::Unknown },
        ),
    }
}

/// How the outcome of a dial follows from the handshake's verdict; a dial
/// that never reached the handshake has failed.
pub fn dial_outcome(verdict: Option<Result<(), HandshakeError>>) -> (r: DialOutcome)
    ensures
        r == match verdict {
            Some(Ok(_)) => DialOutcome::Connected,
            Some(Err(HandshakeError::ConnectionClosed { reason })) => DialOutcome::Closed(reason),
            Some(Err(HandshakeError::ClosedUnexpectedly)) => DialOutcome::Failed,
            None => DialOutcome::Failed,
        },
{
    match verdict {
        Some(Ok(_)) => DialOutcome::Connected,
        Some(Err(HandshakeError::ConnectionClosed { reason })) => DialOutcome::Closed(reason),
        Some(Err(HandshakeError::ClosedUnexpectedly)) => DialOutcome::Failed,
        None => DialOutcome::Failed,
    }
}

/// The local endpoint that a client opens for its protocol.
#[derive(Clone, Copy, Debug, PartialEq, Eq, Structural)]
pub enum LocalEndpoint {
    /// A TCP listener; each accepted connection gets a stream of its own.
    TcpListener { port: u16 },
    /// A UDP socket; all its datagrams go onto one stream.
    UdpSocket { port: u16 },
}

/// Chooses the local endpoint on `127.0.0.1` for the session's protocol.
pub fn handle_local_connections(protocol: Protocol, local_port: u16) -> (r: LocalEndpoint)
    ensures
        r == match protocol {
            Protocol::Tcp => (LocalEndpoint::TcpListener { port: local_port }),
            Protocol::Udp => (LocalEndpoint::UdpSocket { port: local_port }),
        },
{
    match protocol {
        Protocol::Tcp => LocalEndpoint::TcpListener { port: local_port },
        Protocol::Udp => LocalEndpoint::UdpSocket { port: local_port },
    }
}

/// What the client's supervisor sees.
#[derive(Clone, Copy, Debug, PartialEq, Eq, Structural)]
pub enum SupervisorEvent {
    /// The interrupt signal changed; `raised` is its value now.
    Interrupt { raised: bool },
    /// The watch on the session changed; `closed` is its value now.
    TunnelWatch { closed: bool },
    /// A local connection was accepted.
    Accepted,
    /// Accepting a local connection failed.
    AcceptFailed,
    /// The forwarding of local datagrams ended.
    IngestEnded,
}

/// Why the supervisor stops.
#[derive(Clone, Copy, Debug, PartialEq, Eq, Structural)]
pub enum StopCause {
    Interrupted,
    TunnelClosed,
    AcceptFailed,
    IngestEnded,
}

/// What the supervisor does next.
#[derive(Clone, Copy, Debug, PartialEq, Eq, Structural)]
pub enum SupervisorStep {
    /// Nothing changed: wait for the next event.
    Continue,
    /// Open a bidirectional stream for the accepted connection and bridge
    /// the two on a task of its own; go on accepting.
    Bridge,
    /// Stop accepting, cancel the bridges and return.
    Stop(StopCause),
}

pub open spec fn tcp_supervision(event: SupervisorEvent) -> SupervisorStep {
    match event {
        SupervisorEvent::Interrupt { raised } => if raised {
            SupervisorStep::Stop(StopCause::Interrupted)
        } else {
            SupervisorStep::Continue
        },
        SupervisorEvent::TunnelWatch { closed } => if closed {
            SupervisorStep::Stop(StopCause::TunnelClosed)
        } else {
            SupervisorStep::Continue
        },
        SupervisorEvent::Accepted => SupervisorStep::Bridge,
        SupervisorEvent::AcceptFailed => SupervisorStep::Stop(StopCause::AcceptFailed),
        SupervisorEvent::IngestEnded => SupervisorStep::Continue,
    }
}

pub open spec fn udp_supervision(event: SupervisorEvent) -> SupervisorStep {
    match event {
        SupervisorEvent::Interrupt { .. } => SupervisorStep::Stop(StopCause::Interrupted),
        SupervisorEvent::TunnelWatch { .. } => SupervisorStep::Stop(StopCause::TunnelClosed),
        SupervisorEvent::IngestEnded => SupervisorStep::Stop(StopCause::IngestEnded),
        SupervisorEvent::Accepted => SupervisorStep::Continue,
        SupervisorEvent::AcceptFailed => SupervisorStep::Continue,
    }
}

/// One turn of the supervisor of a TCP client: it stops when the interrupt
/// is raised, when the session has closed or when accepting fails, and
/// bridges every accepted connection.
pub fn handle_tcp_connections_with_shutdown(event: SupervisorEvent) -> (next: SupervisorStep)
    ensures
        next == tcp_supervision(event),
{
    match event {
        SupervisorEvent::Interrupt { raised } => {
            if raised {
                SupervisorStep::Stop(StopCause::Interrupted)
            } else {
                SupervisorStep::Continue
            }
        },
        SupervisorEvent::TunnelWatch { closed } => {
            if closed {
                SupervisorStep::Stop(StopCause::TunnelClosed)
            } else {
                SupervisorStep::Continue
            }
        },
        SupervisorEvent::Accepted => SupervisorStep::Bridge,
        SupervisorEvent::AcceptFailed => SupervisorStep::Stop(StopCause::AcceptFailed),
        SupervisorEvent::IngestEnded => SupervisorStep::Continue,
    }
}

/// The supervisor of a UDP client waits for one thing only: the first of the
/// end of the forwarding, the end of the session and a change of the
/// interrupt signal stops it.
pub fn handle_udp_connections_with_shutdown(event: SupervisorEvent) -> (next: SupervisorStep)
    ensures
        next == udp_supervision(event),
{
    match event {
        SupervisorEvent::Interrupt { .. } => SupervisorStep::Stop(StopCause::Interrupted),
        SupervisorEvent::TunnelWatch { .. } => SupervisorStep::Stop(StopCause::TunnelClosed),
        SupervisorEvent::IngestEnded => SupervisorStep::Stop(StopCause::IngestEnded),
        SupervisorEvent::Accepted => SupervisorStep::Continue,
        SupervisorEvent::AcceptFailed => SupervisorStep::Continue,
    }
}

} // verus!
