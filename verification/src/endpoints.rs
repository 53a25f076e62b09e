use vstd::prelude::*;

use crate::connection::{Connection, ConnectionStatus, SocketKind};
use crate::error::CaptureError;
use crate::framing::{join_payload, message_payload, parts_view};
use crate::packet::{FramePacket, FramePacketInformation};
use crate::stats::ConnectionStats;
use crate::time::Timestamp;

verus! {

/// What the transport reported for one attempt to receive a message.
pub enum RecvOutcome {
    /// A multipart message arrived.
    Message(Vec<Vec<u8>>),
    /// No message was waiting.
    WouldBlock,
    /// The transport failed.
    Failed,
}

/// A received frame before its information is decoded: the encoded information and
/// the frame bytes.
pub struct RawFrame {
    pub header: Vec<u8>,
    pub data: Vec<u8>,
}

/// The receiving end of a frame link: a subscriber.
pub struct Receiver<S>(pub Connection<S>);

/// The sending end of a frame link: a publisher.
pub struct Sender<S>(pub Connection<S>);

/// A forwarder between publishers on one side and subscribers on the other.
pub struct Proxy<S> {
    pub from: Connection<S>,
    pub to: Connection<S>,
}

/// The information of a frame as it leaves a sender at `now`.
pub open spec fn stamped_for_sending(info: FramePacketInformation, now: Timestamp) -> FramePacketInformation {
    FramePacketInformation { tx_timestamp: Some(now), ..info }
}

/// The information of a frame as it reaches a receiver at `now`.
pub open spec fn stamped_on_receipt(info: FramePacketInformation, now: Timestamp) -> FramePacketInformation {
    FramePacketInformation { rx_timestamp: Some(now), ..info }
}

impl<S> Receiver<S> {
    /// A subscriber for `host:port`, available and without socket.
    pub fn new(host: [u8; 4], port: u16, queue_size: u32, data_chunk_size: u32, now: Timestamp) -> (r:
        Receiver<S>)
        requires
            now.wf(),
        ensures
            r.0.address.ip == host,
            r.0.address.port == port,
            r.0.queue_size == queue_size,
            r.0.data_chunk_size == data_chunk_size,
            r.0.socket is None,
            r.0.status == ConnectionStatus::Available,
            r.0.stats == ConnectionStats::fresh(now),
            r.0.wf(),
    {
        Receiver(Connection::new(host, port, queue_size, data_chunk_size, now))
    }

    /// The socket role of a receiver.
    pub fn socket_kind() -> (kind: SocketKind)
        ensures
            kind == SocketKind::Sub,
    {
        SocketKind::Sub
    }

    /// The state of the connection.
    pub fn connection_status(&self) -> (status: &ConnectionStatus)
        ensures
            *status == self.0.status,
    {
        &self.0.status
    }

    /// The chunk size of the frames on this link.
    pub fn data_chunk_size(&self) -> (size: u32)
        ensures
            size == self.0.data_chunk_size,
    {
        self.0.data_chunk_size
    }

    /// Attaches the socket connected to the publisher's endpoint.
    pub fn start(&mut self, socket: S, now: Timestamp)
        requires
            now.wf(),
        ensures
            final(self).0 == old(self).0.opened(socket, now),
            final(self).0.wf(),
    {
        self.0.open(socket, now)
    }

    /// Attaches the socket without marking the link active: it is initialized until
    /// the first frame goes through.
    pub fn initialize(&mut self, socket: S, now: Timestamp)
        requires
            now.wf(),
        ensures
            final(self).0 == old(self).0.initialized(socket, now),
            final(self).0.wf(),
    {
        self.0.initialize(socket, now)
    }

    /// Detaches the socket; the link is closed.
    pub fn stop(&mut self) -> (socket: Option<S>)
        ensures
            socket == old(self).0.socket,
            final(self).0 == old(self).0.closed(),
    {
        self.0.close()
    }

    /// Whether the transport should be asked for a message: not while paused.
    pub fn wants_message(&self) -> (wants: bool)
        ensures
            wants == (self.0.status != ConnectionStatus::Paused),
    {
        self.0.status != ConnectionStatus::Paused
    }

    /// Handles what the transport reported. A paused link ignores it and yields
    /// nothing; a message yields its first part (the encoded frame information) and
    /// the rest concatenated (the frame bytes); an empty queue yields nothing; a
    /// transport failure puts the link in the error state. The link must be open,
    /// and a message must have at least two parts.
    pub fn receive(&mut self, outcome: RecvOutcome) -> (res: Result<Option<RawFrame>, CaptureError>)
        requires
            old(self).0.status != ConnectionStatus::Closed,
            old(self).0.socket is Some,
            outcome matches RecvOutcome::Message(parts) ==> parts@.len() >= 2,
        ensures
            old(self).0.status == ConnectionStatus::Paused ==> {
                &&& res matches Ok(None)
                &&& final(self).0 == old(self).0
            },
            old(self).0.status != ConnectionStatus::Paused ==> match outcome {
                RecvOutcome::Message(parts) => {
                    &&& res matches Ok(Some(frame))
                    &&& frame.header@ == parts@[0]@
                    &&& frame.data@ == message_payload(parts_view(parts@))
                    &&& final(self).0 == old(self).0
                },
                RecvOutcome::WouldBlock => {
                    &&& res matches Ok(None)
                    &&& final(self).0 == old(self).0
                },
                RecvOutcome::Failed => {
                    &&& res == Err::<Option<RawFrame>, CaptureError>(CaptureError::ReceiveFailed)
                    &&& final(self).0 == (Connection { status: ConnectionStatus::Error, ..old(self).0 })
                },
            },
    {
        if self.0.status == ConnectionStatus::Paused {
            return Ok(None);
        }
        match outcome {
            RecvOutcome::Message(parts) => {
                let data = join_payload(parts.as_slice());
                let header = vstd::slice::slice_to_vec(parts[0].as_slice());
                Ok(Some(RawFrame { header, data }))
            },
            RecvOutcome::WouldBlock => Ok(None),
            RecvOutcome::Failed => {
                self.0.set_status(ConnectionStatus::Error);
                Err(CaptureError::ReceiveFailed)
            },
        }
    }

    /// Completes the receipt of a frame whose information was decoded from the first
    /// part of its message: the information is stamped with the receive time, the
    /// link becomes active and the frame bytes are counted. The information must
    /// carry the time it was sent.
    pub fn deliver(&mut self, info: FramePacketInformation, data: Vec<u8>, now: Timestamp) -> (packet:
        FramePacket)
        requires
            info.tx_timestamp is Some,
            old(self).0.wf(),
            old(self).0.stats.can_count(data@.len() as u64, now),
        ensures
            packet.frame_info == stamped_on_receipt(info, now),
            packet.data@ == data@,
            final(self).0 == (Connection {
                status: ConnectionStatus::Active,
                stats: old(self).0.stats.counted(data@.len() as u64, now),
                ..old(self).0
            }),
            final(self).0.wf(),
    {
        let mut info = info;
        info.rx_timestamp = Some(now);
        let count = data.len() as u64;
        self.0.set_status(ConnectionStatus::Active);
        self.0.update_stats(count, now);
        FramePacket::new(info, data)
    }
}

impl<S> Sender<S> {
    /// A publisher for `host:port`, available and without socket.
    pub fn new(host: [u8; 4], port: u16, queue_size: u32, data_chunk_size: u32, now: Timestamp) -> (s:
        Sender<S>)
        requires
            now.wf(),
        ensures
            s.0.address.ip == host,
            s.0.address.port == port,
            s.0.queue_size == queue_size,
            s.0.data_chunk_size == data_chunk_size,
            s.0.socket is None,
            s.0.status == ConnectionStatus::Available,
            s.0.stats == ConnectionStats::fresh(now),
            s.0.wf(),
    {
        Sender(Connection::new(host, port, queue_size, data_chunk_size, now))
    }

    /// The socket role of a sender.
    pub fn socket_kind() -> (kind: SocketKind)
        ensures
            kind == SocketKind::Pub,
    {
        SocketKind::Pub
    }

    /// The state of the connection.
    pub fn connection_status(&self) -> (status: &ConnectionStatus)
        ensures
            *status == self.0.status,
    {
        &self.0.status
    }

    /// The chunk size of the frames on this link.
    pub fn data_chunk_size(&self) -> (size: u32)
        ensures
            size == self.0.data_chunk_size,
    {
        self.0.data_chunk_size
    }

    /// Attaches the socket bound to the publishing endpoint.
    pub fn start(&mut self, socket: S, now: Timestamp)
        requires
            now.wf(),
        ensures
            final(self).0 == old(self).0.opened(socket, now),
            final(self).0.wf(),
    {
        self.0.open(socket, now)
    }

    /// Attaches the socket without marking the link active: it is initialized until
    /// the first frame goes through.
    pub fn initialize(&mut self, socket: S, now: Timestamp)
        requires
            now.wf(),
        ensures
            final(self).0 == old(self).0.initialized(socket, now),
            final(self).0.wf(),
    {
        self.0.initialize(socket, now)
    }

    /// Detaches the socket; the link is closed.
    pub fn stop(&mut self) -> (socket: Option<S>)
        ensures
            socket == old(self).0.socket,
            final(self).0 == old(self).0.closed(),
    {
        self.0.close()
    }

    /// The information to encode for sending `packet` at `now`: the packet's
    /// information stamped with the send time; `None` while the link is paused,
    /// when nothing is sent. The link must be open and the chunk size positive.
    pub fn stamp_outgoing(&self, packet: &FramePacket, data_chunk_size: u32, now: Timestamp) -> (info:
        Option<FramePacketInformation>)
        requires
            data_chunk_size > 0,
            self.0.status != ConnectionStatus::Closed,
            self.0.socket is Some,
        ensures
            self.0.status == ConnectionStatus::Paused ==> info is None,
            self.0.status != ConnectionStatus::Paused ==> (info matches Some(i) && {
                &&& i.device_info == packet.frame_info.device_info
                &&& i.rx_timestamp == packet.frame_info.rx_timestamp
                &&& i.tx_timestamp == Some(now)
                &&& i.frame_shape@ == packet.frame_info.frame_shape@
            }),
    {
        if self.0.status == ConnectionStatus::Paused {
            return None;
        }
        let mut info = packet.frame_info.duplicate();
        info.tx_timestamp = Some(now);
        Some(info)
    }

    /// Records that a message of `header_len` bytes of information and `data_len`
    /// frame bytes went out at `now`: the link becomes active and the bytes are counted.
    pub fn record_sent(&mut self, header_len: usize, data_len: usize, now: Timestamp)
        requires
            header_len + data_len <= usize::MAX,
            old(self).0.wf(),
            old(self).0.stats.can_count((header_len + data_len) as u64, now),
        ensures
            final(self).0 == (Connection {
                status: ConnectionStatus::Active,
                stats: old(self).0.stats.counted((header_len + data_len) as u64, now),
                ..old(self).0
            }),
            final(self).0.wf(),
    {
        self.0.set_status(ConnectionStatus::Active);
        self.0.update_stats((header_len + data_len) as u64, now);
    }
}

impl<S> Proxy<S> {
    /// A forwarder from `from_ip:from_port` to `to_ip:to_port`, both ends available.
    pub fn new(
        from_ip: [u8; 4],
        from_port: u16,
        to_ip: [u8; 4],
        to_port: u16,
        queue_size: u32,
        data_chunk_size: u32,
        now: Timestamp,
    ) -> (p: Proxy<S>)
        requires
            now.wf(),
        ensures
            p.from.address.ip == from_ip,
            p.from.address.port == from_port,
            p.to.address.ip == to_ip,
            p.to.address.port == to_port,
            p.from.queue_size == queue_size && p.to.queue_size == queue_size,
            p.from.data_chunk_size == data_chunk_size && p.to.data_chunk_size == data_chunk_size,
            p.from.socket is None && p.to.socket is None,
            p.from.status == ConnectionStatus::Available,
            p.to.status == ConnectionStatus::Available,
            p.from.stats == ConnectionStats::fresh(now),
            p.to.stats == ConnectionStats::fresh(now),
            p.from.wf() && p.to.wf(),
    {
        Proxy {
            from: Connection::new(from_ip, from_port, queue_size, data_chunk_size, now),
            to: Connection::new(to_ip, to_port, queue_size, data_chunk_size, now),
        }
    }

    /// The socket roles of the two ends: the front end subscribes, the back end
    /// publishes.
    pub fn socket_kinds() -> (kinds: (SocketKind, SocketKind))
        ensures
            kinds == (SocketKind::XSub, SocketKind::XPub),
    {
        (SocketKind::XSub, SocketKind::XPub)
    }

    /// The states of the front and back ends.
    pub fn connection_status(&self) -> (status: (&ConnectionStatus, &ConnectionStatus))
        ensures
            *status.0 == self.from.status,
            *status.1 == self.to.status,
    {
        (&self.from.status, &self.to.status)
    }

    /// The chunk size of the frames on this link.
    pub fn data_chunk_size(&self) -> (size: u32)
        ensures
            size == self.from.data_chunk_size,
    {
        self.from.data_chunk_size
    }

    /// Attaches the front-end socket.
    pub fn start_from(&mut self, socket: S, now: Timestamp)
        requires
            now.wf(),
        ensures
            final(self).from == old(self).from.opened(socket, now),
            final(self).to == old(self).to,
    {
        self.from.open(socket, now)
    }

    /// Attaches the back-end socket.
    pub fn start_to(&mut self, socket: S, now: Timestamp)
        requires
            now.wf(),
        ensures
            final(self).to == old(self).to.opened(socket, now),
            final(self).from == old(self).from,
    {
        self.to.open(socket, now)
    }

    /// Attaches the front-end socket without marking it active.
    pub fn initialize_from(&mut self, socket: S, now: Timestamp)
        requires
            now.wf(),
        ensures
            final(self).from == old(self).from.initialized(socket, now),
            final(self).to == old(self).to,
    {
        self.from.initialize(socket, now)
    }

    /// Attaches the back-end socket without marking it active.
    pub fn initialize_to(&mut self, socket: S, now: Timestamp)
        requires
            now.wf(),
        ensures
            final(self).to == old(self).to.initialized(socket, now),
            final(self).from == old(self).from,
    {
        self.to.initialize(socket, now)
    }

    /// Detaches both sockets, front end first; both ends are then closed.
    pub fn stop(&mut self) -> (sockets: (Option<S>, Option<S>))
        ensures
            sockets.0 == old(self).from.socket,
            sockets.1 == old(self).to.socket,
            final(self).from == old(self).from.closed(),
            final(self).to == old(self).to.closed(),
    {
        let from = self.from.close();
        let to = self.to.close();
        (from, to)
    }
}

/// A frame survives the link: a frame's information stamped by the sender and then
/// by the receiver keeps its device, its shape and its send time, and gains its
/// receive time.
pub proof fn lemma_stamps_keep_frame(info: FramePacketInformation, sent: Timestamp, received: Timestamp)
    ensures
        stamped_on_receipt(stamped_for_sending(info, sent), received).device_info == info.device_info,
        stamped_on_receipt(stamped_for_sending(info, sent), received).frame_shape == info.frame_shape,
        stamped_on_receipt(stamped_for_sending(info, sent), received).tx_timestamp == Some(sent),
        stamped_on_receipt(stamped_for_sending(info, sent), received).rx_timestamp == Some(received),
{
}

} // verus!
