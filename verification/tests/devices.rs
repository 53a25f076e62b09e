use device_capture_system::{
    build_stream_configs, camera_config_from_interval, camera_configs, capture_action,
    config_ranges_to_configs, resolve_stream_settings, sum_of_squares, BufferSize,
    BufferSizeRange, CameraConfig, CameraDevice, CaptureAction, CommandPoll, DeviceCommand,
    DeviceInformation, DeviceStatus, DeviceType, FormatModes, Fraction, FrameInterval,
    FramePacket, FrameSizeModes, InputDefaults, MicrophoneConfig, OperatingSystem, SampleFormat,
    StreamConfigRange, StreamSettings,
};
use device_capture_system::{take_command_channel, CaptureError};

fn range(channels: u16, min: u32, max: u32, buffers: BufferSizeRange, format: SampleFormat) -> StreamConfigRange {
    StreamConfigRange {
        channels,
        min_sample_rate: min,
        max_sample_rate: max,
        buffer_size: buffers,
        sample_format: format,
    }
}

#[test]
fn decode_i16_le_samples() {
    let bytes = [0x01, 0x00, 0xff, 0xff, 0x00, 0x80, 0xff, 0x7f, 0x34, 0x12];
    let samples = FramePacket::decode_to_i16_le(&bytes).unwrap();
    assert_eq!(samples, vec![1, -1, i16::MIN, i16::MAX, 0x1234]);
    assert_eq!(FramePacket::decode_to_i16_le(&[]).unwrap(), Vec::<i16>::new());
}

#[test]
fn power_sums_squares() {
    assert_eq!(sum_of_squares(&[1, -2, 3, i16::MIN]), 1 + 4 + 9 + 32768 * 32768);
    assert_eq!(sum_of_squares(&[i16::MAX; 3]), 3 * 32767 * 32767);
    assert_eq!(sum_of_squares(&[]), 0);
}

#[test]
fn microphone_configs_from_ranges() {
    let ranges = vec![
        range(1, 8000, 16000, BufferSizeRange::Range { min: 200, max: 600 }, SampleFormat::I16),
        // three channels are not offered
        range(3, 8000, 16000, BufferSizeRange::Range { min: 0, max: 9000 }, SampleFormat::I16),
        // only 16-bit signed samples are offered
        range(2, 8000, 16000, BufferSizeRange::Range { min: 0, max: 9000 }, SampleFormat::F32),
        // no stated buffer range offers nothing
        range(2, 8000, 16000, BufferSizeRange::Unknown, SampleFormat::I16),
    ];
    let configs = config_ranges_to_configs(ranges).unwrap();
    // every listed rate is kept (a rate is passed over only below the minimum and
    // above the maximum at once), each with the sizes 256 and 512
    let rates = [8000, 16000, 22050, 44100, 48000, 96000];
    let mut expected = Vec::new();
    for rate in rates {
        for size in [256, 512] {
            expected.push(MicrophoneConfig { sample_rate: rate, channels: 1, buffer_size: size });
        }
    }
    assert_eq!(configs, expected);
}

#[test]
fn microphone_configs_skip_rates_in_an_inverted_range() {
    // min above max: rates strictly between max and min are passed over
    let ranges = vec![range(2, 45000, 20000, BufferSizeRange::Range { min: 4096, max: 4096 }, SampleFormat::I16)];
    let configs = config_ranges_to_configs(ranges).unwrap();
    let got: Vec<u32> = configs.iter().map(|c| c.sample_rate).collect();
    assert_eq!(got, vec![8000, 16000, 48000, 96000]);
    assert!(configs.iter().all(|c| c.channels == 2 && c.buffer_size == 4096));
}

#[test]
fn stream_settings_from_config() {
    let cfg = MicrophoneConfig { sample_rate: 16000, channels: 1, buffer_size: 512 };
    assert_eq!(
        build_stream_configs(&cfg).unwrap(),
        StreamSettings { channels: 1, sample_rate: 16000, buffer_size: BufferSize::Fixed(512) }
    );
}

#[test]
fn stream_settings_defaults_and_overrides() {
    let defaults = InputDefaults { channels: 2, sample_rate: 44100, sample_format: SampleFormat::F32 };
    let (s, f) = resolve_stream_settings(&defaults, None, None, None, None);
    assert_eq!(s, StreamSettings { channels: 2, sample_rate: 44100, buffer_size: BufferSize::Default });
    assert_eq!(f, SampleFormat::F32);
    let (s, f) = resolve_stream_settings(&defaults, Some(16000), Some(1), Some(256), Some(SampleFormat::I16));
    assert_eq!(s, StreamSettings { channels: 1, sample_rate: 16000, buffer_size: BufferSize::Fixed(256) });
    assert_eq!(f, SampleFormat::I16);
}

#[test]
fn camera_config_uses_interval_or_step() {
    let yuyv = *b"YUYV";
    let d = camera_config_from_interval(yuyv, 640, 480, &FrameInterval::Discrete(Fraction { numerator: 1, denominator: 30 }));
    assert_eq!(d.fps, (1, 30));
    let s = camera_config_from_interval(
        yuyv,
        640,
        480,
        &FrameInterval::Stepwise {
            min: Fraction { numerator: 1, denominator: 60 },
            max: Fraction { numerator: 1, denominator: 5 },
            step: Fraction { numerator: 1, denominator: 15 },
        },
    );
    assert_eq!(s.fps, (1, 15));
    assert_eq!((s.width, s.height, s.fourcc), (640, 480, yuyv));
}

#[test]
fn camera_configs_enumerate_all_modes() {
    let f = |n, d| FrameInterval::Discrete(Fraction { numerator: n, denominator: d });
    let formats = vec![
        FormatModes {
            fourcc: *b"YUYV",
            sizes: vec![
                FrameSizeModes { width: 640, height: 480, intervals: vec![f(1, 30), f(1, 15)] },
                FrameSizeModes { width: 1920, height: 1080, intervals: vec![f(1, 5)] },
            ],
        },
        FormatModes { fourcc: *b"MJPG", sizes: vec![] },
        FormatModes {
            fourcc: *b"NV12",
            sizes: vec![FrameSizeModes { width: 320, height: 240, intervals: vec![f(1, 60)] }],
        },
    ];
    let configs = camera_configs(&formats);
    let got: Vec<(u32, u32, (u32, u32), [u8; 4])> =
        configs.iter().map(|c| (c.width, c.height, c.fps, c.fourcc)).collect();
    assert_eq!(
        got,
        vec![
            (640, 480, (1, 30), *b"YUYV"),
            (640, 480, (1, 15), *b"YUYV"),
            (1920, 1080, (1, 5), *b"YUYV"),
            (320, 240, (1, 60), *b"NV12"),
        ]
    );
}

#[test]
fn capture_loop_finishes_on_stop_or_disconnect() {
    assert_eq!(capture_action(CommandPoll::Empty), CaptureAction::Capture);
    assert_eq!(capture_action(CommandPoll::Disconnected), CaptureAction::Finish);
    assert_eq!(capture_action(CommandPoll::Received(DeviceCommand::Stop)), CaptureAction::Finish);
    assert_eq!(capture_action(CommandPoll::Received(DeviceCommand::Pause)), CaptureAction::Capture);
    assert_eq!(capture_action(CommandPoll::Received(DeviceCommand::Start)), CaptureAction::Capture);
}

#[test]
fn captured_frame_packet() {
    let info = DeviceInformation::new("/dev/video0".to_string(), "cam".to_string(), DeviceType::Camera);
    let cfg = CameraConfig { width: 1920, height: 1080, fps: (1, 30), fourcc: *b"YUYV" };
    let packet = FramePacket::from_capture(&info, &cfg, &[1, 2, 3]);
    assert_eq!(packet.frame_info.device_info, info);
    assert_eq!(packet.frame_info.frame_shape, vec![1920, 1080]);
    assert_eq!(packet.frame_info.tx_timestamp, None);
    assert_eq!(packet.frame_info.rx_timestamp, None);
    assert_eq!(packet.data, vec![1, 2, 3]);
}

#[test]
fn device_information_starts_available() {
    let info = DeviceInformation::new("id".to_string(), "mic".to_string(), DeviceType::Microphone);
    assert_eq!(info.device_status, DeviceStatus::Available);
    assert_eq!(info.device_type, DeviceType::Microphone);
    assert_eq!(info.duplicate(), info);
}

#[test]
fn camera_device_id_is_low_byte() {
    let cam = CameraDevice::new(258, "front".to_string());
    assert_eq!(cam.get_info().id, "2");
    assert_eq!(cam.get_info().name, "front");
    assert_eq!(CameraDevice::new(0, String::new()).0.id, "0");
    assert_eq!(CameraDevice::new(255, String::new()).0.id, "255");
}

#[test]
fn camera_config_description() {
    let cfg = CameraConfig { width: 1920, height: 1080, fps: (1, 30), fourcc: *b"YUYV" };
    assert_eq!(cfg.describe(), "CameraConfig { width: 1920, height: 1080, fps: 1/30, fourcc: YUYV }");
    assert_eq!(cfg.try_describe().as_deref(), Some(cfg.describe().as_str()));
    let bad = CameraConfig { fourcc: [0xff, b'U', b'Y', b'V'], ..cfg };
    assert_eq!(bad.try_describe(), None);
}

#[test]
fn operating_system_names() {
    assert_eq!(OperatingSystem::from_name("linux"), Some(OperatingSystem::Linux));
    assert_eq!(OperatingSystem::from_name("windows"), Some(OperatingSystem::Windows));
    assert_eq!(OperatingSystem::from_name("macos"), Some(OperatingSystem::MacOS));
    assert_eq!(OperatingSystem::from_name("freebsd"), None);
    assert_eq!(OperatingSystem::from_name("Linux"), None);
}

#[test]
fn stopping_takes_the_command_channel() {
    let mut tx: Option<u32> = Some(9);
    assert_eq!(take_command_channel(&mut tx), Ok(9));
    assert_eq!(tx, None);
    assert_eq!(take_command_channel(&mut tx), Err(CaptureError::DeviceNotStarted));
    assert_eq!(tx, None);
}

#[test]
fn capture_loop_hands_out_frames_until_stop() {
    // a loop polls before each frame; count the frames it hands out
    fn run(polls: &[CommandPoll]) -> usize {
        let mut frames = 0;
        for poll in polls {
            if capture_action(*poll) == CaptureAction::Finish {
                break;
            }
            frames += 1;
        }
        frames
    }
    let pause = CommandPoll::Received(DeviceCommand::Pause);
    let stop = CommandPoll::Received(DeviceCommand::Stop);
    assert_eq!(run(&[CommandPoll::Empty, pause, stop, CommandPoll::Empty]), 2);
    assert_eq!(run(&[CommandPoll::Empty, CommandPoll::Disconnected]), 1);
    assert_eq!(run(&[pause, CommandPoll::Received(DeviceCommand::Resume), CommandPoll::Empty]), 3);
}

#[test]
fn decoding_undoes_little_endian_encoding() {
    let samples: Vec<i16> = vec![0, 1, -1, 255, 256, -256, 0x1234, i16::MIN, i16::MAX];
    let bytes: Vec<u8> = samples.iter().flat_map(|s| s.to_le_bytes()).collect();
    assert_eq!(FramePacket::decode_to_i16_le(&bytes).unwrap(), samples);
    let stream: Vec<u8> = (0..=255u8).collect();
    let decoded = FramePacket::decode_to_i16_le(&stream).unwrap();
    let again: Vec<u8> = decoded.iter().flat_map(|s| s.to_le_bytes()).collect();
    assert_eq!(again, stream);
}

#[test]
fn only_available_devices_start() {
    assert!(DeviceStatus::Available.can_start());
    assert!(!DeviceStatus::Running.can_start());
    assert!(!DeviceStatus::Stopped.can_start());
}
