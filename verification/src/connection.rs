use vstd::prelude::*;

use crate::error::CaptureError;
use crate::stats::ConnectionStats;
use crate::text::{decimal, push_decimal, push_text};
use crate::time::Timestamp;

verus! {

/// The life-cycle state of a connection.
#[derive(Debug, Clone, Copy, PartialEq, Eq, Structural)]
pub enum ConnectionStatus {
    Available,
    /// A socket is attached, but nothing has gone through it yet.
    Initialized,
    Active,
    Paused,
    Error,
    Closed,
}

/// An IPv4 address and port.
#[derive(Debug, Clone, Copy, PartialEq, Eq)]
pub struct SocketAddress {
    pub ip: [u8; 4],
    pub port: u16,
}

/// The role of a message socket.
#[derive(Debug, Clone, Copy, PartialEq, Eq, Structural)]
pub enum SocketKind {
    /// Publisher.
    Pub,
    /// Publisher that also forwards subscriptions (proxy back end).
    XPub,
    /// Subscriber.
    Sub,
    /// Subscriber that also forwards subscriptions (proxy front end).
    XSub,
    /// Any other socket role.
    Other,
}

/// How a socket is attached to its endpoint.
#[derive(Debug, Clone, Copy, PartialEq, Eq, Structural)]
pub enum AttachMode {
    /// Listen on the endpoint.
    Bind,
    /// Connect to the endpoint and subscribe to every topic.
    ConnectAndSubscribe,
}

impl SocketKind {
    /// Publishers bind, subscribers connect and subscribe to every topic; other
    /// roles are not supported.
    pub fn attach_mode(self) -> (mode: Result<AttachMode, CaptureError>)
        ensures
            mode == (match self {
                SocketKind::Pub | SocketKind::XPub => Ok(AttachMode::Bind),
                SocketKind::Sub | SocketKind::XSub => Ok(AttachMode::ConnectAndSubscribe),
                SocketKind::Other => Err(CaptureError::UnsupportedSocketType),
            }),
    {
        match self {
            SocketKind::Pub | SocketKind::XPub => Ok(AttachMode::Bind),
            SocketKind::Sub | SocketKind::XSub => Ok(AttachMode::ConnectAndSubscribe),
            SocketKind::Other => Err(CaptureError::UnsupportedSocketType),
        }
    }
}

/// The TCP endpoint text of an address: `tcp://a.b.c.d:port`.
pub open spec fn endpoint_text(address: SocketAddress) -> Seq<char> {
    "tcp://"@ + decimal(address.ip@[0] as nat) + "."@ + decimal(address.ip@[1] as nat) + "."@
        + decimal(address.ip@[2] as nat) + "."@ + decimal(address.ip@[3] as nat) + ":"@ + decimal(
        address.port as nat,
    )
}

/// One end of a message link: where it goes, how deep its queue is, how large the
/// chunks of a frame are, the socket once attached, its state and its counters.
pub struct Connection<S> {
    pub address: SocketAddress,
    pub queue_size: u32,
    pub data_chunk_size: u32,
    pub socket: Option<S>,
    pub status: ConnectionStatus,
    pub stats: ConnectionStats,
}

impl<S> Connection<S> {
    /// The counters are well formed.
    pub open spec fn wf(self) -> bool {
        self.stats.wf()
    }

    /// The connection after `socket` was attached at `now`: active, with fresh counters.
    pub open spec fn opened(self, socket: S, now: Timestamp) -> Connection<S> {
        Connection {
            socket: Some(socket),
            status: ConnectionStatus::Active,
            stats: ConnectionStats::fresh(now),
            ..self
        }
    }

    /// The connection after `socket` was attached at `now` without marking it active:
    /// initialized, with fresh counters.
    pub open spec fn initialized(self, socket: S, now: Timestamp) -> Connection<S> {
        Connection {
            socket: Some(socket),
            status: ConnectionStatus::Initialized,
            stats: ConnectionStats::fresh(now),
            ..self
        }
    }

    /// The connection after it was closed: without socket and closed; closing a
    /// connection that has no socket changes nothing.
    pub open spec fn closed(self) -> Connection<S> {
        if self.socket is None {
            self
        } else {
            Connection { socket: None, status: ConnectionStatus::Closed, ..self }
        }
    }

    /// A connection to `host:port` created at `now`, available and without socket.
    pub fn new(host: [u8; 4], port: u16, queue_size: u32, data_chunk_size: u32, now: Timestamp) -> (conn:
        Connection<S>)
        requires
            now.wf(),
        ensures
            conn.address == (SocketAddress { ip: host, port }),
            conn.queue_size == queue_size,
            conn.data_chunk_size == data_chunk_size,
            conn.socket is None,
            conn.status == ConnectionStatus::Available,
            conn.stats == ConnectionStats::fresh(now),
            conn.wf(),
    {
        Connection {
            address: SocketAddress { ip: host, port },
            queue_size,
            data_chunk_size,
            socket: None,
            status: ConnectionStatus::Available,
            stats: ConnectionStats::new(now),
        }
    }

    /// The state of the connection.
    pub fn connection_status(&self) -> (status: &ConnectionStatus)
        ensures
            *status == self.status,
    {
        &self.status
    }

    /// The attached socket, or an error when none is attached.
    pub fn get_socket(&self) -> (socket: Result<&S, CaptureError>)
        ensures
            self.socket matches Some(s) ==> socket == Ok::<&S, CaptureError>(&s),
            self.socket is None ==> socket == Err::<&S, CaptureError>(CaptureError::SocketNotInitialized),
    {
        match &self.socket {
            Some(s) => Ok(s),
            None => Err(CaptureError::SocketNotInitialized),
        }
    }

    /// Sets the state of the connection.
    pub fn set_status(&mut self, status: ConnectionStatus)
        ensures
            *final(self) == (Connection { status, ..*old(self) }),
    {
        self.status = status;
    }

    /// The TCP endpoint of the connection.
    pub fn endpoint(&self) -> (text: String)
        ensures
            text@ == endpoint_text(self.address),
    {
        let ip = self.address.ip;
        let mut s = String::new();
        push_text(&mut s, "tcp://");
        push_decimal(&mut s, ip[0] as u64);
        push_text(&mut s, ".");
        push_decimal(&mut s, ip[1] as u64);
        push_text(&mut s, ".");
        push_decimal(&mut s, ip[2] as u64);
        push_text(&mut s, ".");
        push_decimal(&mut s, ip[3] as u64);
        push_text(&mut s, ":");
        push_decimal(&mut s, self.address.port as u64);
        s
    }

    /// Attaches a socket that was just bound or connected to the endpoint: the
    /// connection becomes active with fresh counters started at `now`.
    pub fn open(&mut self, socket: S, now: Timestamp)
        requires
            now.wf(),
        ensures
            *final(self) == old(self).opened(socket, now),
            final(self).wf(),
    {
        self.socket = Some(socket);
        self.stats = ConnectionStats::new(now);
        self.status = ConnectionStatus::Active;
    }

    /// Attaches a socket that was just bound or connected to the endpoint, leaving the
    /// connection initialized with fresh counters started at `now`; it becomes active
    /// when the first frame goes through.
    pub fn initialize(&mut self, socket: S, now: Timestamp)
        requires
            now.wf(),
        ensures
            *final(self) == old(self).initialized(socket, now),
            final(self).wf(),
    {
        self.socket = Some(socket);
        self.stats = ConnectionStats::new(now);
        self.status = ConnectionStatus::Initialized;
    }

    /// Detaches the socket so that it can be released from its endpoint; the
    /// connection is then closed, and keeps its traffic counters for inspection.
    /// Returns `None`, changing nothing, when no socket
    /// is attached.
    pub fn close(&mut self) -> (socket: Option<S>)
        ensures
            socket == old(self).socket,
            *final(self) == old(self).closed(),
    {
        let socket = self.socket.take();
        if socket.is_some() {
            self.status = ConnectionStatus::Closed;
        }
        socket
    }

    /// Counts a frame of `bytes` bytes carried at `now`.
    pub fn update_stats(&mut self, bytes: u64, now: Timestamp)
        requires
            old(self).wf(),
            old(self).stats.can_count(bytes, now),
        ensures
            *final(self) == (Connection { stats: old(self).stats.counted(bytes, now), ..*old(self) }),
            final(self).wf(),
    {
        self.stats.update(bytes, now);
    }
}

/// Closing is idempotent: a closed connection closes to itself.
pub proof fn lemma_close_idempotent<S>(conn: Connection<S>)
    ensures
        conn.closed().closed() == conn.closed(),
{
}

/// A connection that was opened and then closed has no socket and is closed, and
/// keeps its address, queue and chunk sizes and the counters of the opening.
pub proof fn lemma_open_then_close<S>(conn: Connection<S>, socket: S, now: Timestamp)
    ensures
        conn.opened(socket, now).closed().socket is None,
        conn.opened(socket, now).closed().status == ConnectionStatus::Closed,
        conn.opened(socket, now).closed().address == conn.address,
        conn.opened(socket, now).closed().queue_size == conn.queue_size,
        conn.opened(socket, now).closed().data_chunk_size == conn.data_chunk_size,
        conn.opened(socket, now).closed().stats == ConnectionStats::fresh(now),
{
}

/// Reopening forgets what came before: the counters start again from zero.
pub proof fn lemma_reopen_resets_counters<S>(conn: Connection<S>, first: S, second: S, t1: Timestamp, t2: Timestamp)
    ensures
        conn.opened(first, t1).closed().opened(second, t2) == conn.opened(second, t2),
{
}

/// Closing a connection that holds a socket leaves it closed and without socket,
/// whatever state it was in, and keeps its address, queue and chunk sizes and
/// counters; closing one without socket changes nothing.
pub proof fn lemma_close_always_closes<S>(conn: Connection<S>)
    ensures
        conn.socket is Some ==> {
            &&& conn.closed().socket is None
            &&& conn.closed().status == ConnectionStatus::Closed
            &&& conn.closed().address == conn.address
            &&& conn.closed().queue_size == conn.queue_size
            &&& conn.closed().data_chunk_size == conn.data_chunk_size
            &&& conn.closed().stats == conn.stats
        },
        conn.socket is None ==> conn.closed() == conn,
{
}

/// Initializing attaches the socket and starts the counters afresh at `now`, whatever
/// they held before: no frame, no byte, an empty last interval, started and last
/// touched at `now`; the link is initialized and keeps its address, queue and chunk
/// sizes.
pub proof fn lemma_initialize_starts_fresh<S>(conn: Connection<S>, socket: S, now: Timestamp)
    ensures
        conn.initialized(socket, now).socket == Some(socket),
        conn.initialized(socket, now).status == ConnectionStatus::Initialized,
        conn.initialized(socket, now).stats.frames == 0,
        conn.initialized(socket, now).stats.bytes == 0,
        conn.initialized(socket, now).stats.last_interval.secs == 0,
        conn.initialized(socket, now).stats.last_interval.nanos == 0,
        conn.initialized(socket, now).stats.start_time == now,
        conn.initialized(socket, now).stats.last_frame_time == now,
        conn.initialized(socket, now).address == conn.address,
        conn.initialized(socket, now).queue_size == conn.queue_size,
        conn.initialized(socket, now).data_chunk_size == conn.data_chunk_size,
{
}

/// Opening attaches the socket and starts the counters afresh at `now`, whatever they
/// held before; the link is active and keeps its address, queue and chunk sizes.
pub proof fn lemma_open_starts_fresh<S>(conn: Connection<S>, socket: S, now: Timestamp)
    ensures
        conn.opened(socket, now).socket == Some(socket),
        conn.opened(socket, now).status == ConnectionStatus::Active,
        conn.opened(socket, now).stats.frames == 0,
        conn.opened(socket, now).stats.bytes == 0,
        conn.opened(socket, now).stats.last_interval.secs == 0,
        conn.opened(socket, now).stats.last_interval.nanos == 0,
        conn.opened(socket, now).stats.start_time == now,
        conn.opened(socket, now).stats.last_frame_time == now,
        conn.opened(socket, now).address == conn.address,
        conn.opened(socket, now).queue_size == conn.queue_size,
        conn.opened(socket, now).data_chunk_size == conn.data_chunk_size,
{
}

} // verus!
