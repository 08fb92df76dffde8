//! What a session does with the streams and datagrams that reach it.

use crate::protocol::Protocol;
use vstd::prelude::*;

verus! {

/// The two kinds of stream that a session can carry.
#[derive(Clone, Copy, Debug, PartialEq, Eq, Structural)]
pub enum StreamKind {
    Bidirectional,
    Unidirectional,
}

/// The work to start for an accepted stream.
#[derive(Clone, Copy, Debug, PartialEq, Eq, Structural)]
pub enum StreamTask {
    /// Connect to the loopback TCP port and copy bytes both ways.
    BridgeTcp { port: u16 },
    /// Forward each chunk read as one datagram to the loopback UDP port.
    ForwardUdp { port: u16 },
}

/// A stream of a kind that the session's protocol does not use.
#[derive(Clone, Copy, Debug, PartialEq, Eq, Structural)]
pub enum StreamError {
    BidirectionalUdp,
    UnidirectionalTcp,
}

/// What the stream-accept loop sees.
#[derive(Clone, Copy, Debug, PartialEq, Eq, Structural)]
pub enum TunnelEvent {
    /// The session ended.
    Closed,
    /// The peer opened a stream.
    Stream(StreamKind),
    /// Accepting a stream failed.
    AcceptFailed,
}

/// What the stream-accept loop does next.
#[derive(Clone, Copy, Debug, PartialEq, Eq, Structural)]
pub enum TunnelStep {
    /// Leave the loop; the session is over.
    Exit,
    /// Start the task on its own and go on accepting.
    Spawn(StreamTask),
    /// Drop the stream, report the error and go on accepting.
    Reject(StreamError),
}

/// Serves the streams of one session: the loopback port and the protocol that
/// the peer asked for.
#[derive(Clone, Copy, Debug, PartialEq, Eq, Structural)]
pub struct ConnectionHandler {
    pub port: u16,
    pub protocol: Protocol,
}

impl StreamError {
    pub open spec fn text(self) -> Seq<char> {
        match self {
            StreamError::BidirectionalUdp => "Bidirectional UDP streams are not supported"@,
            StreamError::UnidirectionalTcp => "Unidirectional TCP streams are not supported"@,
        }
    }

    /// The message reported for the dropped stream.
    pub fn message(&self) -> (s: String)
        ensures
            s@ == self.text(),
    {
        match self {
            StreamError::BidirectionalUdp => "Bidirectional UDP streams are not supported".to_owned(),
            StreamError::UnidirectionalTcp => "Unidirectional TCP streams are not supported".to_owned(),
        }
    }
}

impl ConnectionHandler {
    /// The kind of stream that carries this handler's protocol.
    pub open spec fn stream_kind(self) -> StreamKind {
        match self.protocol {
            Protocol::Tcp => StreamKind::Bidirectional,
            Protocol::Udp => StreamKind::Unidirectional,
        }
    }

    /// The task for a stream of the right kind.
    pub open spec fn task(self) -> StreamTask {
        match self.protocol {
            Protocol::Tcp => StreamTask::BridgeTcp { port: self.port },
            Protocol::Udp => StreamTask::ForwardUdp { port: self.port },
        }
    }

    /// What becomes of a stream of the given kind.
    pub open spec fn dispatch(self, kind: StreamKind) -> Result<StreamTask, StreamError> {
        if kind == self.stream_kind() {
            Ok(self.task())
        } else {
            match kind {
                StreamKind::Bidirectional => Err(StreamError::BidirectionalUdp),
                StreamKind::Unidirectional => Err(StreamError::UnidirectionalTcp),
            }
        }
    }

    /// What the accept loop does on an event.
    pub open spec fn step(self, event: TunnelEvent) -> TunnelStep {
        match event {
            TunnelEvent::Closed => TunnelStep::Exit,
            TunnelEvent::AcceptFailed => TunnelStep::Exit,
            TunnelEvent::Stream(kind) => match self.dispatch(kind) {
                Ok(task) => TunnelStep::Spawn(task),
                Err(e) => TunnelStep::Reject(e),
            },
        }
    }

    pub fn new(port: u16, protocol: Protocol) -> (h: ConnectionHandler)
        ensures
            h.port == port,
            h.protocol == protocol,
    {
        ConnectionHandler { port, protocol }
    }

    /// The kind of stream to accept for this handler's protocol.
    pub fn handle_connection(&self) -> (kind: StreamKind)
        ensures
            kind == self.stream_kind(),
    {
        match self.protocol {
            Protocol::Tcp => StreamKind::Bidirectional,
            Protocol::Udp => StreamKind::Unidirectional,
        }
    }

    /// A bidirectional stream is bridged to the loopback TCP port; under UDP
    /// it is an error.
    pub fn handle_bidirectional_stream(&self) -> (r: Result<StreamTask, StreamError>)
        ensures
            r == self.dispatch(StreamKind::Bidirectional),
            r.is_ok() == (self.protocol == Protocol::Tcp),
    {
        match self.protocol {
            Protocol::Tcp => Ok(StreamTask::BridgeTcp { port: self.port }),
            Protocol::Udp => Err(StreamError::BidirectionalUdp),
        }
    }

    /// A unidirectional stream is forwarded to the loopback UDP port; under
    /// TCP it is an error.
    pub fn handle_unidirectional_stream(&self) -> (r: Result<StreamTask, StreamError>)
        ensures
            r == self.dispatch(StreamKind::Unidirectional),
            r.is_ok() == (self.protocol == Protocol::Udp),
    {
        match self.protocol {
            Protocol::Tcp => Err(StreamError::UnidirectionalTcp),
            Protocol::Udp => Ok(StreamTask::ForwardUdp { port: self.port }),
        }
    }

    /// One turn of the stream-accept loop.
    pub fn accept_streams(&self, event: TunnelEvent) -> (next: TunnelStep)
        ensures
            next == self.step(event),
    {
        match event {
            TunnelEvent::Closed => TunnelStep::Exit,
            TunnelEvent::AcceptFailed => TunnelStep::Exit,
            TunnelEvent::Stream(StreamKind::Bidirectional) => {
                match self.handle_bidirectional_stream() {
                    Ok(task) => TunnelStep::Spawn(task),
                    Err(e) => TunnelStep::Reject(e),
                }
            },
            TunnelEvent::Stream(StreamKind::Unidirectional) => {
                match self.handle_unidirectional_stream() {
                    Ok(task) => TunnelStep::Spawn(task),
                    Err(e) => TunnelStep::Reject(e),
                }
            },
        }
    }
}

/// What one read from the inbound stream gave.
#[derive(Clone, Copy, Debug, PartialEq, Eq, Structural)]
pub enum ReadOutcome {
    /// So many bytes are in the buffer; none means the stream has ended.
    Read(usize),
    Failed,
}

/// What the forwarder of inbound datagrams does next.
#[derive(Clone, Copy, Debug, PartialEq, Eq, Structural)]
pub enum ForwardStep {
    /// Send the first `len` bytes of the buffer as one datagram.
    Send { len: usize },
    Stop,
}

pub open spec fn forward_step(outcome: ReadOutcome) -> ForwardStep {
    match outcome {
        ReadOutcome::Read(n) => if n == 0 {
            ForwardStep::Stop
        } else {
            ForwardStep::Send { len: n }
        },
        ReadOutcome::Failed => ForwardStep::Stop,
    }
}

/// One turn of the forwarder from the inbound stream to the loopback UDP
/// port: every read that is not empty is sent as one datagram; the end of the
/// stream or an error stops it.
pub fn forward_udp_packets(outcome: ReadOutcome) -> (next: ForwardStep)
    ensures
        next == forward_step(outcome),
        next != (ForwardStep::Send { len: 0 }),
{
    match outcome {
        ReadOutcome::Read(n) => {
            if n == 0 {
                ForwardStep::Stop
            } else {
                ForwardStep::Send { len: n }
            }
        },
        ReadOutcome::Failed => ForwardStep::Stop,
    }
}

/// What becomes of a datagram received on the local UDP socket.
#[derive(Clone, Copy, Debug, PartialEq, Eq, Structural)]
pub enum Ingest {
    /// Write the bytes onto the outbound stream as a single write.
    Forward,
    /// The datagram is larger than the transport takes: drop it and warn.
    Drop,
}

/// The largest datagram that the session takes, from what the transport
/// reports; a session that takes no datagrams has room for none.
pub fn datagram_mtu(max_datagram_size: Option<usize>) -> (mtu: usize)
    ensures
        mtu == match max_datagram_size {
            Some(n) => n,
            None => 0,
        },
{
    match max_datagram_size {
        Some(n) => n,
        None => 0,
    }
}

/// A local datagram is forwarded exactly when it is no larger than the
/// transport's datagram limit.
pub fn handle_udp_socket(size: usize, datagram_mtu: usize) -> (r: Ingest)
    ensures
        r == if size > datagram_mtu {
            Ingest::Drop
        } else {
            Ingest::Forward
        },
        (r == Ingest::Forward) == (size <= datagram_mtu),
{
    if size > datagram_mtu {
        Ingest::Drop
    } else {
        Ingest::Forward
    }
}

/// A stream is served exactly when its kind is that of the handler's
/// protocol, and then on the handler's own port.
pub proof fn streams_match_protocol(handler: ConnectionHandler, kind: StreamKind)
    ensures
        handler.dispatch(kind).is_ok() == (kind == handler.stream_kind()),
        handler.dispatch(kind).is_ok() ==> handler.dispatch(kind) == Ok::<StreamTask, StreamError>(
            handler.task(),
        ),
        handler.protocol == Protocol::Tcp ==> handler.task() == (StreamTask::BridgeTcp {
            port: handler.port,
        }),
        handler.protocol == Protocol::Udp ==> handler.task() == (StreamTask::ForwardUdp {
            port: handler.port,
        }),
{
}

/// The two ways in which bytes can move through a task on the server.
#[derive(Clone, Copy, Debug, PartialEq, Eq, Structural)]
pub enum Direction {
    /// From the session to the loopback port.
    ToLoopback,
    /// From the loopback port back to the session.
    FromLoopback,
}

impl StreamTask {
    /// Whether the task moves bytes in the given direction: a TCP bridge
    /// copies both ways; a UDP forwarder only sends to the loopback port and
    /// never reads what comes back from it.
    pub open spec fn carries(self, direction: Direction) -> bool {
        match self {
            StreamTask::BridgeTcp { .. } => true,
            StreamTask::ForwardUdp { .. } => direction == Direction::ToLoopback,
        }
    }
}

/// The datagrams that the forwarder sends for a series of reads from the
/// inbound stream, by their lengths: one for each read, up to the first read
/// that is empty or fails. The reads are the forwarder's only input.
pub open spec fn forwarded(reads: Seq<ReadOutcome>) -> Seq<usize>
    decreases reads.len(),
{
    if reads.len() == 0 {
        Seq::empty()
    } else {
        match forward_step(reads[0]) {
            ForwardStep::Send { len } => seq![len] + forwarded(reads.skip(1)),
            ForwardStep::Stop => Seq::empty(),
        }
    }
}

/// UDP is forwarded one way only: under UDP every task that the server
/// starts sends to the loopback port and carries nothing back, and it is
/// started for a unidirectional stream, which has no way back either.
pub proof fn udp_has_no_reverse_path(handler: ConnectionHandler, kind: StreamKind)
    requires
        handler.protocol == Protocol::Udp,
    ensures
        handler.dispatch(kind).is_ok() ==> kind == StreamKind::Unidirectional,
        handler.dispatch(kind).is_ok() ==> handler.dispatch(kind) == Ok::<StreamTask, StreamError>(
            (StreamTask::ForwardUdp { port: handler.port }),
        ),
        !handler.task().carries(Direction::FromLoopback),
        handler.task().carries(Direction::ToLoopback),
{
}

/// As long as the reads are not empty and do not fail, each is sent as one
/// datagram of its own length, in the order of the reads: nothing but the
/// end of the stream or an error stops the forwarding.
pub proof fn every_read_is_forwarded(reads: Seq<ReadOutcome>, lens: Seq<usize>)
    requires
        reads.len() == lens.len(),
        forall|i: int| 0 <= i < reads.len() ==> reads[i] == ReadOutcome::Read(lens[i]) && lens[i] > 0,
    ensures
        forwarded(reads) == lens,
    decreases reads.len(),
{
    if reads.len() == 0 {
        assert(forwarded(reads) =~= lens);
    } else {
        let rest = reads.skip(1);
        let rest_lens = lens.skip(1);
        assert forall|i: int| 0 <= i < rest.len() implies rest[i] == ReadOutcome::Read(rest_lens[i])
            && rest_lens[i] > 0 by {
            assert(rest[i] == reads[i + 1]);
            assert(rest_lens[i] == lens[i + 1]);
        }
        every_read_is_forwarded(rest, rest_lens);
        assert(reads[0] == ReadOutcome::Read(lens[0]));
        assert(forwarded(reads) =~= lens);
    }
}

/// The forwarding ends at the first read that is empty or fails: what was
/// read before is sent, and nothing after.
pub proof fn forwarding_stops_at_the_end(
    before: Seq<ReadOutcome>,
    lens: Seq<usize>,
    last: ReadOutcome,
    after: Seq<ReadOutcome>,
)
    requires
        before.len() == lens.len(),
        forall|i: int| 0 <= i < before.len() ==> before[i] == ReadOutcome::Read(lens[i]) && lens[i] > 0,
        last == ReadOutcome::Read(0) || last == ReadOutcome::Failed,
    ensures
        forwarded(before + seq![last] + after) == lens,
    decreases before.len(),
{
    let all = before + seq![last] + after;
    if before.len() == 0 {
        assert(all[0] == last);
        assert(forwarded(all) =~= lens);
    } else {
        let rest = before.skip(1);
        let rest_lens = lens.skip(1);
        assert forall|i: int| 0 <= i < rest.len() implies rest[i] == ReadOutcome::Read(rest_lens[i])
            && rest_lens[i] > 0 by {
            assert(rest[i] == before[i + 1]);
            assert(rest_lens[i] == lens[i + 1]);
        }
        forwarding_stops_at_the_end(rest, rest_lens, last, after);
        assert(all.skip(1) =~= rest + seq![last] + after);
        assert(all[0] == before[0]);
        assert(before[0] == ReadOutcome::Read(lens[0]));
        assert(forwarded(all) =~= lens);
    }
}

} // verus!
