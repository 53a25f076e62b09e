//! Data model and verified control logic for a distributed capture system:
//! capture devices (cameras, microphones) publish frame packets that are split
//! into multipart messages and reassembled on the receiving side.
//!
//! The library holds no transport, clock or device handle itself: sockets are a
//! type parameter of the connections, times are passed in as [`Timestamp`]s, and
//! what devices report is passed in as plain values.

pub mod camera;
pub mod cli;
pub mod connection;
pub mod devices;
pub mod endpoints;
pub mod error;
pub mod framing;
pub mod microphone;
pub mod packet;
pub mod stats;
pub mod text;
pub mod time;

pub use camera::{
    camera_config_from_interval, camera_configs, capture_action, take_command_channel, CaptureAction, CommandPoll,
    FormatModes, Fraction, FrameInterval, FrameSizeModes,
};
pub use cli::{Cli, Commands};
pub use connection::{AttachMode, Connection, ConnectionStatus, SocketAddress, SocketKind};
pub use devices::{
    CameraConfig, CameraDevice, DeviceCommand, DeviceId, DeviceInformation, DeviceStatus,
    DeviceType, MicrophoneConfig, MicrophoneDevice, OperatingSystem, ThreadControlMessage,
};
pub use endpoints::{Proxy, RawFrame, Receiver, RecvOutcome, Sender};
pub use error::CaptureError;
pub use framing::{chunk_data, frame_message, join_payload};
pub use microphone::{
    build_stream_configs, config_ranges_to_configs, resolve_stream_settings, BufferSize,
    BufferSizeRange, InputDefaults, SampleFormat, StreamConfigRange, StreamSettings,
};
pub use packet::{sum_of_squares, FramePacket, FramePacketInformation};
pub use stats::ConnectionStats;
pub use time::{Interval, Timestamp, NANOS_PER_SEC};
