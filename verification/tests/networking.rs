use std::time::{Duration, SystemTime, UNIX_EPOCH};

use device_capture_system::{
    frame_message, CaptureError, Connection, ConnectionStatus, DeviceInformation, DeviceStatus,
    DeviceType, FramePacket, FramePacketInformation, Proxy, Receiver, RecvOutcome, Sender,
    Timestamp,
};

/// The encoded frame information: the fields in order, each enumeration as its
/// variant index, each time as the span since the UNIX epoch.
type Header = (String, String, u32, u32, Option<SystemTime>, Option<SystemTime>, Vec<u32>);

fn to_system(ts: Timestamp) -> SystemTime {
    UNIX_EPOCH + Duration::new(ts.secs, ts.nanos)
}

fn from_system(t: SystemTime) -> Timestamp {
    let d = t.duration_since(UNIX_EPOCH).unwrap();
    Timestamp { secs: d.as_secs(), nanos: d.subsec_nanos() }
}

fn encode_info(info: &FramePacketInformation) -> Vec<u8> {
    let d = &info.device_info;
    let header: Header = (
        d.id.clone(),
        d.name.clone(),
        match d.device_type {
            DeviceType::Camera => 0,
            DeviceType::Microphone => 1,
        },
        match d.device_status {
            DeviceStatus::Available => 0,
            DeviceStatus::Running => 1,
            DeviceStatus::Stopped => 2,
        },
        info.rx_timestamp.map(to_system),
        info.tx_timestamp.map(to_system),
        info.frame_shape.clone(),
    );
    bincode::encode_to_vec(header, bincode::config::standard()).unwrap()
}

fn decode_info(bytes: &[u8]) -> FramePacketInformation {
    let ((id, name, t, st, rx, tx, shape), _): (Header, usize) =
        bincode::decode_from_slice(bytes, bincode::config::standard()).unwrap();
    FramePacketInformation {
        device_info: DeviceInformation {
            id,
            name,
            device_type: if t == 0 { DeviceType::Camera } else { DeviceType::Microphone },
            device_status: match st {
                0 => DeviceStatus::Available,
                1 => DeviceStatus::Running,
                _ => DeviceStatus::Stopped,
            },
        },
        rx_timestamp: rx.map(from_system),
        tx_timestamp: tx.map(from_system),
        frame_shape: shape,
    }
}

fn generate_dummy_frame(size: usize) -> Vec<u8> {
    vec![0u8; size]
}

fn generate_dummy_frame_packet_info(size: usize) -> FramePacketInformation {
    let device_info = DeviceInformation {
        id: "0".to_string(),
        name: "test-device".to_string(),
        device_type: DeviceType::Camera,
        device_status: DeviceStatus::Available,
    };
    FramePacketInformation {
        device_info: device_info,
        rx_timestamp: None,
        tx_timestamp: None,
        frame_shape: vec![size as u32],
    }
}

fn generate_dummy_frame_packet() -> FramePacket {
    let frame = generate_dummy_frame(1920 * 1080 * 3);
    let frame_packet_info = generate_dummy_frame_packet_info(1920 * 1080 * 3);
    FramePacket::new(frame_packet_info, frame)
}

fn at(secs: u64) -> Timestamp {
    Timestamp { secs, nanos: 0 }
}

#[test]
fn send_and_receive() {
    let mut sender: Sender<()> = Sender::new([127, 0, 0, 1], 5555, 10, 1024 * 100, at(1));
    let mut receiver: Receiver<()> = Receiver::new([127, 0, 0, 1], 5555, 10, 1024 * 100, at(1));
    sender.start((), at(2));
    receiver.start((), at(2));

    let in_fp = generate_dummy_frame_packet();
    let info = sender
        .stamp_outgoing(&in_fp, 1024 * 100, at(3))
        .expect("sender is not paused");
    let header = encode_info(&info);
    let header_len = header.len();
    let parts = frame_message(header.clone(), &in_fp.data, 1024 * 100);
    sender.record_sent(header_len, in_fp.data.len(), at(3));

    let rcv = receiver.receive(RecvOutcome::Message(parts));
    let val = rcv.expect("not able to receive a message");
    let raw = val.expect("frame packet is none");
    assert_eq!(raw.header, header);
    let decoded = decode_info(&raw.header);
    assert!(decoded.tx_timestamp.is_some(), "tx_timestamp is not set");
    let out_fp = receiver.deliver(decoded, raw.data, at(4));

    assert!(in_fp.data == out_fp.data, "data is not the same");
    assert!(
        in_fp.frame_info.device_info == out_fp.frame_info.device_info,
        "device info is not the same\n\n{:?}\n!=\n{:?}",
        in_fp.frame_info.device_info,
        out_fp.frame_info.device_info
    );
    assert!(
        in_fp.frame_info.frame_shape == out_fp.frame_info.frame_shape,
        "frame shape is not the same\n\n{:?}\n!=\n{:?}",
        in_fp.frame_info.frame_shape,
        out_fp.frame_info.frame_shape
    );
    assert_eq!(out_fp.frame_info.tx_timestamp, Some(at(3)));
    assert_eq!(out_fp.frame_info.rx_timestamp, Some(at(4)));
    assert_eq!(*sender.connection_status(), ConnectionStatus::Active);
    assert_eq!(*receiver.connection_status(), ConnectionStatus::Active);
    assert_eq!(sender.0.stats.frames, 1);
    assert_eq!(sender.0.stats.bytes, (header_len + 1920 * 1080 * 3) as u64);
    assert_eq!(receiver.0.stats.bytes, (1920 * 1080 * 3) as u64);
}

#[test]
fn frame_message_chunks_data() {
    let data: Vec<u8> = (0..10u8).collect();
    let parts = frame_message(vec![9], &data, 4);
    assert_eq!(parts, vec![vec![9], vec![0, 1, 2, 3], vec![4, 5, 6, 7], vec![8, 9]]);
    let exact = frame_message(vec![9], &data[..8], 4);
    assert_eq!(exact, vec![vec![9], vec![0, 1, 2, 3], vec![4, 5, 6, 7]]);
    let empty = frame_message(vec![9], &[], 4);
    assert_eq!(empty, vec![vec![9]]);
}

#[test]
fn receive_joins_chunks() {
    let mut receiver: Receiver<u8> = Receiver::new([10, 0, 0, 2], 80, 4, 2, at(0));
    receiver.start(3, at(1));
    let parts = vec![vec![1, 1], vec![5, 6], vec![7], vec![8, 9]];
    let raw = receiver.receive(RecvOutcome::Message(parts)).unwrap().unwrap();
    assert_eq!(raw.header, vec![1, 1]);
    assert_eq!(raw.data, vec![5, 6, 7, 8, 9]);
    // nothing changes until the frame is delivered
    assert_eq!(*receiver.connection_status(), ConnectionStatus::Active);
    assert_eq!(receiver.0.stats.frames, 0);
}

#[test]
fn receive_without_message_yields_nothing() {
    let mut receiver: Receiver<u8> = Receiver::new([10, 0, 0, 2], 80, 4, 2, at(0));
    receiver.start(3, at(1));
    assert!(receiver.receive(RecvOutcome::WouldBlock).unwrap().is_none());
    assert_eq!(*receiver.connection_status(), ConnectionStatus::Active);
}

#[test]
fn receive_failure_sets_error_state() {
    let mut receiver: Receiver<u8> = Receiver::new([10, 0, 0, 2], 80, 4, 2, at(0));
    receiver.start(3, at(1));
    let res = receiver.receive(RecvOutcome::Failed);
    assert_eq!(res.err(), Some(CaptureError::ReceiveFailed));
    assert_eq!(*receiver.connection_status(), ConnectionStatus::Error);
}

#[test]
fn paused_receiver_ignores_messages() {
    let mut receiver: Receiver<u8> = Receiver::new([10, 0, 0, 2], 80, 4, 2, at(0));
    receiver.start(3, at(1));
    receiver.0.set_status(ConnectionStatus::Paused);
    assert!(!receiver.wants_message());
    let res = receiver.receive(RecvOutcome::Message(vec![vec![1], vec![2]]));
    assert!(res.unwrap().is_none());
    let res = receiver.receive(RecvOutcome::Failed);
    assert!(res.unwrap().is_none());
    assert_eq!(*receiver.connection_status(), ConnectionStatus::Paused);
}

#[test]
fn paused_sender_sends_nothing() {
    let mut sender: Sender<u8> = Sender::new([10, 0, 0, 2], 80, 4, 2, at(0));
    sender.start(1, at(1));
    sender.0.set_status(ConnectionStatus::Paused);
    let packet = generate_dummy_frame_packet();
    assert!(sender.stamp_outgoing(&packet, 2, at(2)).is_none());
}

#[test]
fn receiver_accessors() {
    let receiver: Receiver<u8> = Receiver::new([192, 168, 1, 20], 6000, 16, 512, at(0));
    assert_eq!(receiver.data_chunk_size(), 512);
    assert_eq!(*receiver.connection_status(), ConnectionStatus::Available);
    assert_eq!(receiver.0.endpoint(), "tcp://192.168.1.20:6000");
}

#[test]
fn stop_detaches_socket_and_closes() {
    let mut sender: Sender<u8> = Sender::new([127, 0, 0, 1], 1, 1, 1, at(0));
    assert_eq!(sender.stop(), None);
    assert_eq!(*sender.connection_status(), ConnectionStatus::Available);
    sender.start(42, at(5));
    assert_eq!(sender.stop(), Some(42));
    assert_eq!(*sender.connection_status(), ConnectionStatus::Closed);
    // closing again changes nothing
    assert_eq!(sender.stop(), None);
    assert_eq!(*sender.connection_status(), ConnectionStatus::Closed);
}

#[test]
fn proxy_ends() {
    let mut proxy: Proxy<u8> = Proxy::new([0, 0, 0, 0], 5559, [0, 0, 0, 0], 5560, 8, 64, at(0));
    assert_eq!(proxy.data_chunk_size(), 64);
    proxy.start_from(1, at(1));
    assert_eq!(
        proxy.connection_status(),
        (&ConnectionStatus::Active, &ConnectionStatus::Available)
    );
    proxy.start_to(2, at(1));
    assert_eq!(proxy.stop(), (Some(1), Some(2)));
    assert_eq!(
        proxy.connection_status(),
        (&ConnectionStatus::Closed, &ConnectionStatus::Closed)
    );
}

#[test]
fn initialize_attaches_without_activating() {
    let mut conn: Connection<u8> = Connection::new([127, 0, 0, 1], 7, 3, 1, at(1));
    conn.initialize(4, at(2));
    assert_eq!(conn.status, ConnectionStatus::Initialized);
    assert_eq!(conn.socket, Some(4));
    assert_eq!((conn.stats.frames, conn.stats.bytes), (0, 0));
    assert_eq!(conn.stats.start_time, at(2));

    let mut receiver: Receiver<u8> = Receiver::new([127, 0, 0, 1], 7, 3, 1, at(1));
    receiver.initialize(5, at(2));
    assert_eq!(*receiver.connection_status(), ConnectionStatus::Initialized);
    assert!(receiver.wants_message());
    let mut sender: Sender<u8> = Sender::new([127, 0, 0, 1], 7, 3, 1, at(1));
    sender.initialize(6, at(2));
    assert_eq!(*sender.connection_status(), ConnectionStatus::Initialized);
    sender.record_sent(2, 3, at(3));
    assert_eq!(*sender.connection_status(), ConnectionStatus::Active);
}

#[test]
fn timestamped_frame_information() {
    let info = DeviceInformation::new("0".to_string(), "cam".to_string(), DeviceType::Camera);
    let fpi = FramePacketInformation::new(at(9), info.clone(), vec![640, 480]);
    assert_eq!(fpi.tx_timestamp, Some(at(9)));
    assert_eq!(fpi.rx_timestamp, None);
    assert_eq!(fpi.device_info, info);
    assert_eq!(fpi.frame_shape, vec![640, 480]);
}

#[test]
fn new_links_start_fresh_counters() {
    let r: Receiver<u8> = Receiver::new([1, 2, 3, 4], 5, 6, 7, at(8));
    let s: Sender<u8> = Sender::new([1, 2, 3, 4], 5, 6, 7, at(8));
    let p: Proxy<u8> = Proxy::new([1, 2, 3, 4], 5, [4, 3, 2, 1], 6, 7, 8, at(9));
    for stats in [r.0.stats, s.0.stats] {
        assert_eq!((stats.frames, stats.bytes), (0, 0));
        assert_eq!((stats.start_time, stats.last_frame_time), (at(8), at(8)));
    }
    for stats in [p.from.stats, p.to.stats] {
        assert_eq!((stats.frames, stats.bytes), (0, 0));
        assert_eq!((stats.start_time, stats.last_frame_time), (at(9), at(9)));
    }
}

#[test]
fn proxy_initialize_leaves_ends_initialized() {
    let mut proxy: Proxy<u8> = Proxy::new([0, 0, 0, 0], 5559, [0, 0, 0, 0], 5560, 8, 64, at(0));
    proxy.initialize_from(1, at(1));
    proxy.initialize_to(2, at(1));
    assert_eq!(
        proxy.connection_status(),
        (&ConnectionStatus::Initialized, &ConnectionStatus::Initialized)
    );
    assert_eq!(proxy.stop(), (Some(1), Some(2)));
}
