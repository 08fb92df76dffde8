//! The server side of a session: the handshake checks, the table of intents
//! and the count of sessions in progress.

use crate::close::CloseReason;
use crate::config::ServerConfig;
use crate::identity::NodeIdentity;
use crate::protocol::{decode_port, decoded_port, port_of, Protocol};
use crate::tunnel::ConnectionHandler;
use dashmap::DashMap;
use vstd::prelude::*;

verus! {

/// `dashmap::DashMap`, the concurrent map that holds the intents; what it
/// holds is known only through `recorded`.
#[verifier::external_type_specification]
#[verifier::external_body]
#[verifier::reject_recursive_types(K)]
#[verifier::reject_recursive_types(V)]
#[verifier::reject_recursive_types(S)]
pub struct ExDashMap<K, V, S>(DashMap<K, V, S>);

/// What a peer asked for in its handshake.
#[derive(Clone, Copy, Debug, PartialEq, Eq, Structural)]
pub struct PeerIntent {
    pub port: u16,
    pub protocol: Protocol,
}

/// The entries of a concurrent map of intents, keyed by the peer's bytes.
pub uninterp spec fn recorded(map: DashMap<[u8; 32], PeerIntent>) -> Map<Seq<u8>, PeerIntent>;

/// Calls `DashMap::new`: a map without entries.
#[verifier::external_body]
fn intents_new() -> (table: DashMap<[u8; 32], PeerIntent>)
    ensures
        recorded(table).dom() == Set::<Seq<u8>>::empty(),
{
    DashMap::new()
}

/// Calls `DashMap::insert`: afterwards the key maps to the value, whatever it
/// mapped to before; the other entries stay. Returns the value that the key
/// had, if it had one.
#[verifier::external_body]
fn intents_insert(map: &mut DashMap<[u8; 32], PeerIntent>, key: [u8; 32], value: PeerIntent) -> (prior:
    Option<PeerIntent>)
    ensures
        recorded(*final(map)) == recorded(*old(map)).insert(key@, value),
        prior == if recorded(*old(map)).contains_key(key@) {
            Some(recorded(*old(map))[key@])
        } else {
            None
        },
{
    map.insert(key, value)
}

/// Calls `DashMap::get` and copies the value out: the value of the key, if
/// the map has the key.
#[verifier::external_body]
fn intents_get(map: &DashMap<[u8; 32], PeerIntent>, key: &[u8; 32]) -> (found: Option<PeerIntent>)
    ensures
        found == if recorded(*map).contains_key(key@) {
            Some(recorded(*map)[key@])
        } else {
            None
        },
{
    map.get(key).map(|entry| *entry.value())
}

/// Calls `DashMap::remove`: afterwards the map has no entry for the key; the
/// other entries stay. Returns the value that the key had, if it had one.
#[verifier::external_body]
fn intents_remove(map: &mut DashMap<[u8; 32], PeerIntent>, key: &[u8; 32]) -> (prior: Option<
    PeerIntent,
>)
    ensures
        recorded(*final(map)) == recorded(*old(map)).remove(key@),
        prior == if recorded(*old(map)).contains_key(key@) {
            Some(recorded(*old(map))[key@])
        } else {
            None
        },
{
    map.remove(key).map(|pair| pair.1)
}

/// Why the server turns a session away.
#[derive(Clone, Copy, Debug, PartialEq, Eq, Structural)]
pub enum Refusal {
    /// The peer is not one of the authorized keys.
    Unauthorized,
    /// As many sessions are in progress as the server allows.
    LimitReached { max: usize },
    /// The first datagram is empty.
    MissingProtocol,
    /// The first byte of the first datagram names no protocol.
    InvalidProtocol,
    /// The second datagram is not two bytes long.
    InvalidPortBytes,
    /// The port asked for lies outside the allowed range.
    PortNotAllowed { port: u16 },
}

impl Refusal {
    /// The code with which the session is closed; none where the session is
    /// dropped without one.
    pub open spec fn close_reason(self) -> Option<CloseReason> {
        match self {
            Refusal::Unauthorized => Some(CloseReason::Unauthorized),
            Refusal::LimitReached { .. } => None,
            Refusal::MissingProtocol => None,
            Refusal::InvalidProtocol => Some(CloseReason::InvalidProtocol),
            Refusal::InvalidPortBytes => Some(CloseReason::InvalidPort),
            Refusal::PortNotAllowed { .. } => Some(CloseReason::InvalidPort),
        }
    }

    /// The code to close the session with, if any.
    pub fn close_code(&self) -> (r: Option<CloseReason>)
        ensures
            r == self.close_reason(),
    {
        match self {
            Refusal::Unauthorized => Some(CloseReason::Unauthorized),
            Refusal::LimitReached { .. } => None,
            Refusal::MissingProtocol => None,
            Refusal::InvalidProtocol => Some(CloseReason::InvalidProtocol),
            Refusal::InvalidPortBytes => Some(CloseReason::InvalidPort),
            Refusal::PortNotAllowed { .. } => Some(CloseReason::InvalidPort),
        }
    }
}

/// A handshake that waits for its next datagram.
#[derive(Clone, Copy, Debug, PartialEq, Eq, Structural)]
pub enum Handshake {
    /// The peer is authorized; the protocol datagram is awaited.
    AuthorizedPending,
    /// The protocol is known; the port datagram is awaited.
    ProtocolKnown { protocol: Protocol },
}

/// Where a handshake stands after a step.
#[derive(Clone, Copy, Debug, PartialEq, Eq, Structural)]
pub enum Progress {
    /// Read the next datagram and hand it to the next step.
    Await(Handshake),
    /// The handshake is complete: record the intent.
    Accepted(PeerIntent),
    /// Close with the refusal's code, if it has one, and drop the session.
    Refused(Refusal),
}

/// The check made before any datagram is read: the peer must be authorized,
/// and fewer sessions than the limit must be in progress.
pub open spec fn screening(config: ServerConfig, active: nat, peer: Seq<u8>) -> Option<Refusal> {
    if !config.authorizes(peer) {
        Some(Refusal::Unauthorized)
    } else if active >= config.settings.max_connections {
        Some(Refusal::LimitReached { max: config.settings.max_connections })
    } else {
        None
    }
}

/// The protocol named by the first datagram: its first byte decides.
pub open spec fn protocol_in(datagram: Seq<u8>) -> Result<Protocol, Refusal> {
    if datagram.len() == 0 {
        Err(Refusal::MissingProtocol)
    } else {
        match Protocol::of_byte(datagram[0]) {
            Some(p) => Ok(p),
            None => Err(Refusal::InvalidProtocol),
        }
    }
}

/// The port carried by the second datagram, of exactly two bytes.
pub open spec fn port_in(datagram: Seq<u8>) -> Result<u16, Refusal> {
    match decoded_port(datagram) {
        Some(port) => Ok(port),
        None => Err(Refusal::InvalidPortBytes),
    }
}

/// The port carried by the second datagram, if the server allows it.
pub open spec fn allowed_port_in(config: ServerConfig, datagram: Seq<u8>) -> Result<u16, Refusal> {
    match port_in(datagram) {
        Ok(port) => if config.allows_port(port) {
            Ok(port)
        } else {
            Err(Refusal::PortNotAllowed { port })
        },
        Err(r) => Err(r),
    }
}

/// The first step of a handshake, before any datagram is read.
pub open spec fn begun(config: ServerConfig, active: nat, peer: Seq<u8>) -> Progress {
    match screening(config, active, peer) {
        Some(r) => Progress::Refused(r),
        None => Progress::Await(Handshake::AuthorizedPending),
    }
}

/// The step that a datagram causes in a waiting handshake.
pub open spec fn advanced(config: ServerConfig, state: Handshake, datagram: Seq<u8>) -> Progress {
    match state {
        Handshake::AuthorizedPending => match protocol_in(datagram) {
            Ok(protocol) => Progress::Await(Handshake::ProtocolKnown { protocol }),
            Err(r) => Progress::Refused(r),
        },
        Handshake::ProtocolKnown { protocol } => match allowed_port_in(config, datagram) {
            Ok(port) => Progress::Accepted(PeerIntent { port, protocol }),
            Err(r) => Progress::Refused(r),
        },
    }
}

/// The outcome of a whole handshake: the screening, then the protocol
/// datagram, then the port datagram; the first failure decides.
pub open spec fn validation(
    config: ServerConfig,
    active: nat,
    peer: Seq<u8>,
    first: Seq<u8>,
    second: Seq<u8>,
) -> Result<PeerIntent, Refusal> {
    match screening(config, active, peer) {
        Some(r) => Err(r),
        None => match protocol_in(first) {
            Err(r) => Err(r),
            Ok(protocol) => match allowed_port_in(config, second) {
                Err(r) => Err(r),
                Ok(port) => Ok(PeerIntent { port, protocol }),
            },
        },
    }
}

/// What the server keeps about its sessions.
pub struct Ledger {
    /// The intent recorded for each peer that has one.
    pub intents: Map<Seq<u8>, PeerIntent>,
    /// The number of sessions in progress.
    pub active: nat,
}

impl Ledger {
    /// The ledger after a session of `peer` was admitted with `intent`.
    pub open spec fn admitted(self, peer: Seq<u8>, intent: PeerIntent) -> Ledger {
        Ledger { intents: self.intents.insert(peer, intent), active: self.active + 1 }
    }

    /// The ledger after a session of `peer` has ended.
    pub open spec fn released(self, peer: Seq<u8>) -> Ledger {
        Ledger {
            intents: self.intents.remove(peer),
            active: if self.active > 0 {
                (self.active - 1) as nat
            } else {
                0
            },
        }
    }
}

/// The server's shared state: the intents by peer and the session count.
pub struct Server {
    connections: DashMap<[u8; 32], PeerIntent>,
    active_connections: usize,
}

impl View for Server {
    type V = Ledger;

    closed spec fn view(&self) -> Ledger {
        Ledger { intents: recorded(self.connections), active: self.active_connections as nat }
    }
}

impl Server {
    /// A server without sessions.
    pub fn new() -> (s: Server)
        ensures
            s@.intents == Map::<Seq<u8>, PeerIntent>::empty(),
            s@.active == 0,
    {
        let s = Server { connections: intents_new(), active_connections: 0 };
        assert(s@.intents =~= Map::<Seq<u8>, PeerIntent>::empty());
        s
    }

    /// Whether the server starts with a warning: where no key is authorized,
    /// no client will be able to connect.
    pub fn start(config: &ServerConfig) -> (warn: bool)
        ensures
            warn == (config.authorized_keys@.len() == 0),
            warn ==> forall|peer: Seq<u8>| !config.authorizes(peer),
    {
        config.authorized_keys.len() == 0
    }

    /// The number of sessions in progress.
    pub fn active_connections(&self) -> (n: usize)
        ensures
            n == self@.active,
    {
        self.active_connections
    }

    /// The intent recorded for `peer`, if one is.
    pub fn intent_of(&self, peer: &NodeIdentity) -> (r: Option<PeerIntent>)
        ensures
            r == if self@.intents.contains_key(peer@) {
                Some(self@.intents[peer@])
            } else {
                None
            },
    {
        intents_get(&self.connections, &peer.bytes)
    }

    /// Refuses a session where as many are in progress as the configuration
    /// allows.
    pub fn check_connection_limit(&self, config: &ServerConfig) -> (r: Result<(), Refusal>)
        ensures
            r == if self@.active >= config.settings.max_connections {
                Err::<(), Refusal>(Refusal::LimitReached { max: config.settings.max_connections })
            } else {
                Ok::<(), Refusal>(())
            },
    {
        if self.active_connections >= config.settings.max_connections {
            Err(Refusal::LimitReached { max: config.settings.max_connections })
        } else {
            Ok(())
        }
    }

    /// The first step for an incoming session, taken before any datagram is
    /// read: an unauthorized peer is refused, then a session over the limit.
    pub fn begin(&self, config: &ServerConfig, peer: &NodeIdentity) -> (r: Progress)
        ensures
            r == begun(*config, self@.active, peer@),
    {
        if !crate::auth::contains_key(&config.authorized_keys, peer) {
            return Progress::Refused(Refusal::Unauthorized);
        }
        match self.check_connection_limit(config) {
            Err(r) => Progress::Refused(r),
            Ok(_) => Progress::Await(Handshake::AuthorizedPending),
        }
    }

    /// Reads the protocol from the first datagram.
    pub fn read_protocol(datagram: &[u8]) -> (r: Result<Protocol, Refusal>)
        ensures
            r == protocol_in(datagram@),
    {
        if datagram.len() == 0 {
            return Err(Refusal::MissingProtocol);
        }
        match Protocol::try_from(datagram[0]) {
            Ok(p) => Ok(p),
            Err(_) => Err(Refusal::InvalidProtocol),
        }
    }

    /// Reads the port from the second datagram.
    pub fn read_port(datagram: &[u8]) -> (r: Result<u16, Refusal>)
        ensures
            r == port_in(datagram@),
    {
        match decode_port(datagram) {
            Some(port) => Ok(port),
            None => Err(Refusal::InvalidPortBytes),
        }
    }

    /// The step that a datagram causes in a waiting handshake.
    pub fn on_datagram(config: &ServerConfig, state: Handshake, datagram: &[u8]) -> (r: Progress)
        ensures
            r == advanced(*config, state, datagram@),
    {
        match state {
            Handshake::AuthorizedPending => match Server::read_protocol(datagram) {
                Ok(protocol) => Progress::Await(Handshake::ProtocolKnown { protocol }),
                Err(r) => Progress::Refused(r),
            },
            Handshake::ProtocolKnown { protocol } => match Server::read_port(datagram) {
                Err(r) => Progress::Refused(r),
                Ok(port) => {
                    if port >= config.settings.allowed_ports.0 && port
                        <= config.settings.allowed_ports.1 {
                        Progress::Accepted(PeerIntent { port, protocol })
                    } else {
                        Progress::Refused(Refusal::PortNotAllowed { port })
                    }
                },
            },
        }
    }

    /// Runs a whole handshake on its two datagrams.
    pub fn validate_connection(
        &self,
        config: &ServerConfig,
        peer: &NodeIdentity,
        first: &[u8],
        second: &[u8],
    ) -> (r: Result<PeerIntent, Refusal>)
        ensures
            r == validation(*config, self@.active, peer@, first@, second@),
    {
        match self.begin(config, peer) {
            Progress::Refused(r) => Err(r),
            Progress::Accepted(intent) => Ok(intent),
            Progress::Await(state) => match Server::on_datagram(config, state, first) {
                Progress::Refused(r) => Err(r),
                Progress::Accepted(intent) => Ok(intent),
                Progress::Await(next) => match Server::on_datagram(config, next, second) {
                    Progress::Refused(r) => Err(r),
                    Progress::Accepted(intent) => Ok(intent),
                    Progress::Await(_) => Err(Refusal::InvalidPortBytes),
                },
            },
        }
    }

    /// Records the intent of an accepted handshake and counts its session,
    /// unless the limit has been reached meanwhile; a prior intent of the
    /// same peer is replaced.
    pub fn record(&mut self, config: &ServerConfig, peer: &NodeIdentity, intent: PeerIntent) -> (r:
        Result<(), Refusal>)
        ensures
            r == if old(self)@.active >= config.settings.max_connections {
                Err::<(), Refusal>(Refusal::LimitReached { max: config.settings.max_connections })
            } else {
                Ok::<(), Refusal>(())
            },
            r.is_ok() ==> final(self)@ == old(self)@.admitted(peer@, intent),
            r.is_err() ==> final(self)@ == old(self)@,
            r.is_ok() ==> final(self)@.active <= config.settings.max_connections,
    {
        if self.active_connections >= config.settings.max_connections {
            return Err(Refusal::LimitReached { max: config.settings.max_connections });
        }
        let _ = intents_insert(&mut self.connections, peer.bytes, intent);
        self.active_connections = self.active_connections + 1;
        Ok(())
    }

    /// Handles an incoming session: validates its handshake and, where it
    /// passes, records the intent. A refused session leaves no trace.
    pub fn on_connecting(
        &mut self,
        config: &ServerConfig,
        peer: &NodeIdentity,
        first: &[u8],
        second: &[u8],
    ) -> (r: Result<PeerIntent, Refusal>)
        ensures
            r == validation(*config, old(self)@.active, peer@, first@, second@),
            match r {
                Ok(intent) => final(self)@ == old(self)@.admitted(peer@, intent),
                Err(_) => final(self)@ == old(self)@,
            },
            old(self)@.active <= config.settings.max_connections ==> final(self)@.active
                <= config.settings.max_connections,
    {
        match self.validate_connection(config, peer, first, second) {
            Err(r) => Err(r),
            Ok(intent) => {
                let admitted = self.record(config, peer, intent);
                assert(admitted.is_ok());
                Ok(intent)
            },
        }
    }

    /// The handler for the streams of `peer`'s session, from its recorded
    /// intent; none where no intent is recorded.
    pub fn handle_connection(&self, peer: &NodeIdentity) -> (r: Option<ConnectionHandler>)
        ensures
            r == if self@.intents.contains_key(peer@) {
                Some(
                    ConnectionHandler {
                        port: self@.intents[peer@].port,
                        protocol: self@.intents[peer@].protocol,
                    },
                )
            } else {
                None
            },
    {
        match intents_get(&self.connections, &peer.bytes) {
            Some(intent) => Some(ConnectionHandler::new(intent.port, intent.protocol)),
            None => None,
        }
    }

    /// Ends a session of `peer`, whatever the cause: its intent is removed
    /// and the session is no longer counted.
    pub fn release(&mut self, peer: &NodeIdentity)
        ensures
            final(self)@ == old(self)@.released(peer@),
            !final(self)@.intents.contains_key(peer@),
    {
        let _ = intents_remove(&mut self.connections, &peer.bytes);
        if self.active_connections > 0 {
            self.active_connections = self.active_connections - 1;
        }
    }
}

/// Taking the handshake step by step gives what the whole validation gives.
pub proof fn steps_compose(
    config: ServerConfig,
    active: nat,
    peer: Seq<u8>,
    first: Seq<u8>,
    second: Seq<u8>,
)
    ensures
        validation(config, active, peer, first, second) == match begun(config, active, peer) {
            Progress::Refused(r) => Err::<PeerIntent, Refusal>(r),
            Progress::Accepted(intent) => Ok(intent),
            Progress::Await(state) => match advanced(config, state, first) {
                Progress::Refused(r) => Err(r),
                Progress::Accepted(intent) => Ok(intent),
                Progress::Await(next) => match advanced(config, next, second) {
                    Progress::Refused(r) => Err(r),
                    Progress::Accepted(intent) => Ok(intent),
                    Progress::Await(_) => Err(Refusal::InvalidPortBytes),
                },
            },
        },
{
}

/// A handshake `[p]`, `[hi, lo]` with `p` the byte of a protocol, from an
/// authorized peer, under the limit and for an allowed port, yields the
/// intent with that protocol and the port `hi * 256 + lo`.
pub proof fn handshake_yields_intent(
    config: ServerConfig,
    active: nat,
    peer: Seq<u8>,
    p: u8,
    hi: u8,
    lo: u8,
)
    requires
        p == 0 || p == 1,
        config.authorizes(peer),
        active < config.settings.max_connections,
        config.allows_port(port_of(hi, lo)),
    ensures
        Protocol::of_byte(p).is_some(),
        validation(config, active, peer, seq![p], seq![hi, lo]) == Ok::<PeerIntent, Refusal>(
            PeerIntent { port: port_of(hi, lo), protocol: Protocol::of_byte(p).unwrap() },
        ),
        port_of(hi, lo) == ((hi as u16) << 8) | (lo as u16),
{
    crate::protocol::port_of_is_shift(hi, lo);
}

/// A first byte that names no protocol has the session of an authorized
/// peer under the limit closed with `InvalidProtocol`, whatever follows.
pub proof fn unknown_protocol_is_refused(
    config: ServerConfig,
    active: nat,
    peer: Seq<u8>,
    first: Seq<u8>,
    second: Seq<u8>,
)
    requires
        first.len() > 0,
        first[0] != 0 && first[0] != 1,
        config.authorizes(peer),
        active < config.settings.max_connections,
    ensures
        validation(config, active, peer, first, second) == Err::<PeerIntent, Refusal>(
            Refusal::InvalidProtocol,
        ),
        Refusal::InvalidProtocol.close_reason() == Some(CloseReason::InvalidProtocol),
{
}

/// A port outside the allowed range is never accepted, whoever asks; where
/// the handshake is sound up to the port, the session is closed with
/// `InvalidPort`.
pub proof fn port_outside_range_is_refused(
    config: ServerConfig,
    active: nat,
    peer: Seq<u8>,
    first: Seq<u8>,
    hi: u8,
    lo: u8,
)
    requires
        !config.allows_port(port_of(hi, lo)),
    ensures
        validation(config, active, peer, first, seq![hi, lo]).is_err(),
        (config.authorizes(peer) && active < config.settings.max_connections && protocol_in(
            first,
        ).is_ok()) ==> {
            &&& validation(config, active, peer, first, seq![hi, lo]) == Err::<PeerIntent, Refusal>(
                Refusal::PortNotAllowed { port: port_of(hi, lo) },
            )
            &&& (Refusal::PortNotAllowed { port: port_of(hi, lo) }).close_reason() == Some(
                CloseReason::InvalidPort,
            )
        },
{
}

/// A peer that is not authorized is refused with `Unauthorized` at the first
/// step, which reads no datagram, and so whatever the datagrams hold.
pub proof fn unauthorized_is_refused_first(
    config: ServerConfig,
    active: nat,
    peer: Seq<u8>,
    first: Seq<u8>,
    second: Seq<u8>,
)
    requires
        !config.authorizes(peer),
    ensures
        begun(config, active, peer) == Progress::Refused(Refusal::Unauthorized),
        validation(config, active, peer, first, second) == Err::<PeerIntent, Refusal>(
            Refusal::Unauthorized,
        ),
        Refusal::Unauthorized.close_reason() == Some(CloseReason::Unauthorized),
{
}

/// When a session ends, its peer has no intent left and the count is what it
/// was before the session was admitted.
pub proof fn release_undoes_admission(ledger: Ledger, peer: Seq<u8>, intent: PeerIntent)
    ensures
        !ledger.admitted(peer, intent).released(peer).intents.contains_key(peer),
        ledger.admitted(peer, intent).released(peer).active == ledger.active,
        !ledger.released(peer).intents.contains_key(peer),
{
}

/// The count never passes the limit: a session is admitted only below it, and
/// a release never raises it.
pub proof fn count_stays_within_limit(
    config: ServerConfig,
    ledger: Ledger,
    peer: Seq<u8>,
    first: Seq<u8>,
    second: Seq<u8>,
)
    requires
        ledger.active <= config.settings.max_connections,
    ensures
        validation(config, ledger.active, peer, first, second) matches Ok(intent)
            ==> ledger.admitted(peer, intent).active <= config.settings.max_connections,
        ledger.active >= config.settings.max_connections ==> validation(
            config,
            ledger.active,
            peer,
            first,
            second,
        ).is_err(),
        ledger.released(peer).active <= config.settings.max_connections,
{
}

/// A peer has at most one intent: admitting it again replaces the intent it
/// had, and touches no other peer's.
pub proof fn one_intent_per_peer(
    ledger: Ledger,
    peer: Seq<u8>,
    earlier: PeerIntent,
    later: PeerIntent,
    other: Seq<u8>,
)
    requires
        other != peer,
    ensures
        ledger.admitted(peer, earlier).admitted(peer, later).intents == ledger.admitted(
            peer,
            later,
        ).intents,
        ledger.admitted(peer, later).intents[peer] == later,
        ledger.admitted(peer, later).intents.contains_key(other) == ledger.intents.contains_key(
            other,
        ),
        ledger.intents.contains_key(other) ==> ledger.admitted(peer, later).intents[other]
            == ledger.intents[other],
{
    assert(ledger.admitted(peer, earlier).admitted(peer, later).intents =~= ledger.admitted(
        peer,
        later,
    ).intents);
}

/// Something that happens to the server: a session arrives with its two
/// datagrams, or a session of a peer ends.
pub enum SessionOp {
    Connect { peer: Seq<u8>, first: Seq<u8>, second: Seq<u8> },
    End { peer: Seq<u8> },
}

impl Ledger {
    /// The ledger of a server without sessions.
    pub open spec fn empty() -> Ledger {
        Ledger { intents: Map::empty(), active: 0 }
    }

    /// The ledger after `op`, under a configuration that stays the same.
    pub open spec fn after(self, config: ServerConfig, op: SessionOp) -> Ledger {
        match op {
            SessionOp::Connect { peer, first, second } => match validation(
                config,
                self.active,
                peer,
                first,
                second,
            ) {
                Ok(intent) => self.admitted(peer, intent),
                Err(_) => self,
            },
            SessionOp::End { peer } => self.released(peer),
        }
    }

    /// The ledger after all of `ops`, in their order.
    pub open spec fn after_all(self, config: ServerConfig, ops: Seq<SessionOp>) -> Ledger
        decreases ops.len(),
    {
        if ops.len() == 0 {
            self
        } else {
            self.after_all(config, ops.drop_last()).after(config, ops.last())
        }
    }

    /// Every recorded intent is one that the configuration lets through: its
    /// peer is authorized and its port is allowed; and the count is within
    /// the limit.
    pub open spec fn sound(self, config: ServerConfig) -> bool {
        &&& self.active <= config.settings.max_connections
        &&& forall|peer: Seq<u8>| #[trigger]
            self.intents.contains_key(peer) ==> config.authorizes(peer) && config.allows_port(
                self.intents[peer].port,
            )
    }
}

/// Whatever happens to a server that starts without sessions, in whatever
/// order, the count of sessions never passes the limit, and every intent on
/// record is that of an authorized peer for an allowed port.
pub proof fn server_stays_sound(config: ServerConfig, ops: Seq<SessionOp>)
    ensures
        Ledger::empty().after_all(config, ops).sound(config),
    decreases ops.len(),
{
    if ops.len() > 0 {
        server_stays_sound(config, ops.drop_last());
    }
}

} // verus!
