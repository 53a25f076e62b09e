use vstd::prelude::*;
use vstd::utf8::{decode_utf8, valid_utf8};

use crate::text::{decimal, decimal_string, push_decimal, push_text, text_equals, utf8_text};

verus! {

/// A command sent to a running capture device.
#[derive(Debug, Clone, Copy, PartialEq, Eq, Structural)]
pub enum DeviceCommand {
    Start,
    Stop,
    Pause,
    Resume,
}

/// The kind of a capture device.
#[derive(Debug, Clone, Copy, PartialEq, Eq, Structural)]
pub enum DeviceType {
    Camera,
    Microphone,
}

/// The life-cycle state of a capture device.
#[derive(Debug, Clone, Copy, PartialEq, Eq, Structural)]
pub enum DeviceStatus {
    Available,
    Running,
    Stopped,
}

impl DeviceStatus {
    /// A device can start capturing only while it is available.
    pub fn can_start(&self) -> (ok: bool)
        ensures
            ok == (*self == DeviceStatus::Available),
    {
        *self == DeviceStatus::Available
    }
}

/// A message controlling a capture thread.
#[derive(Debug, Clone, Copy, PartialEq, Eq, Structural)]
pub enum ThreadControlMessage {
    Start,
    Stop,
}

/// A numeric device identifier.
#[derive(Debug, Clone, Copy, PartialEq, Eq, Structural)]
pub struct DeviceId(pub u32);

/// What identifies and describes a capture device.
#[derive(Debug, Clone, PartialEq)]
pub struct DeviceInformation {
    pub id: String,
    pub name: String,
    pub device_type: DeviceType,
    pub device_status: DeviceStatus,
}

impl DeviceInformation {
    /// A newly discovered device: it starts out available.
    pub fn new(id: String, name: String, device_type: DeviceType) -> (info: DeviceInformation)
        ensures
            info.id@ == id@,
            info.name@ == name@,
            info.device_type == device_type,
            info.device_status == DeviceStatus::Available,
    {
        DeviceInformation { id, name, device_type, device_status: DeviceStatus::Available }
    }

    /// A copy of this information, equal to it field by field.
    pub fn duplicate(&self) -> (copy: DeviceInformation)
        ensures
            copy == *self,
    {
        DeviceInformation {
            id: self.id.clone(),
            name: self.name.clone(),
            device_type: self.device_type,
            device_status: self.device_status,
        }
    }
}

/// A capture setting supported by a microphone.
#[derive(Debug, Clone, Copy, PartialEq, Eq, Structural)]
pub struct MicrophoneConfig {
    pub sample_rate: u32,
    pub channels: u16,
    pub buffer_size: u32,
}

/// A capture setting supported by a camera: frame size, frame interval as a
/// fraction (numerator, denominator) and pixel format code.
#[derive(Clone, Copy, PartialEq, Eq)]
pub struct CameraConfig {
    pub width: u32,
    pub height: u32,
    pub fps: (u32, u32),
    pub fourcc: [u8; 4],
}

/// The human-readable description of a camera configuration.
pub open spec fn camera_config_text(config: CameraConfig) -> Seq<char> {
    "CameraConfig { width: "@ + decimal(config.width as nat) + ", height: "@ + decimal(
        config.height as nat,
    ) + ", fps: "@ + decimal(config.fps.0 as nat) + "/"@ + decimal(config.fps.1 as nat)
        + ", fourcc: "@ + decode_utf8(config.fourcc@) + " }"@
}

impl CameraConfig {
    /// Describes the configuration; the pixel format code must be valid UTF-8.
    pub fn describe(&self) -> (text: String)
        requires
            valid_utf8(self.fourcc@),
        ensures
            text@ == camera_config_text(*self),
    {
        let fourcc = utf8_text(self.fourcc.as_slice());
        let fourcc = fourcc.unwrap();
        let mut s = String::new();
        push_text(&mut s, "CameraConfig { width: ");
        push_decimal(&mut s, self.width as u64);
        push_text(&mut s, ", height: ");
        push_decimal(&mut s, self.height as u64);
        push_text(&mut s, ", fps: ");
        push_decimal(&mut s, self.fps.0 as u64);
        push_text(&mut s, "/");
        push_decimal(&mut s, self.fps.1 as u64);
        push_text(&mut s, ", fourcc: ");
        push_text(&mut s, fourcc.as_str());
        push_text(&mut s, " }");
        s
    }

    /// Describes the configuration, or `None` when the pixel format code is not
    /// valid UTF-8.
    pub fn try_describe(&self) -> (text: Option<String>)
        ensures
            text is Some <==> valid_utf8(self.fourcc@),
            text matches Some(t) ==> t@ == camera_config_text(*self),
    {
        if utf8_text(self.fourcc.as_slice()).is_some() {
            Some(self.describe())
        } else {
            None
        }
    }
}

/// A camera known by index and name.
#[derive(Debug)]
pub struct CameraDevice(pub DeviceInformation);

/// A microphone known by its information.
#[derive(Debug)]
pub struct MicrophoneDevice(pub DeviceInformation);

impl CameraDevice {
    /// A camera whose identifier is the decimal rendering of the low byte of `id`.
    pub fn new(id: u32, name: String) -> (cam: CameraDevice)
        ensures
            cam.0.id@ == decimal((id % 256) as nat),
            cam.0.name@ == name@,
            cam.0.device_type == DeviceType::Camera,
            cam.0.device_status == DeviceStatus::Available,
    {
        let low: u32 = id % 256;
        CameraDevice(DeviceInformation::new(decimal_string(low as u64), name, DeviceType::Camera))
    }

    /// The camera's information.
    pub fn get_info(&self) -> (info: DeviceInformation)
        ensures
            info == self.0,
    {
        self.0.duplicate()
    }
}

/// An operating system the capture system can run on.
#[derive(Debug, Clone, Copy, PartialEq, Eq, Structural)]
pub enum OperatingSystem {
    Windows,
    Linux,
    MacOS,
}

impl OperatingSystem {
    /// The operating system with the given platform name, if it is a known one.
    pub fn from_name(name: &str) -> (os: Option<OperatingSystem>)
        ensures
            os == (if name@ == "windows"@ {
                Some(OperatingSystem::Windows)
            } else if name@ == "linux"@ {
                Some(OperatingSystem::Linux)
            } else if name@ == "macos"@ {
                Some(OperatingSystem::MacOS)
            } else {
                None::<OperatingSystem>
            }),
    {
        if text_equals(name, "windows") {
            Some(OperatingSystem::Windows)
        } else if text_equals(name, "linux") {
            Some(OperatingSystem::Linux)
        } else if text_equals(name, "macos") {
            Some(OperatingSystem::MacOS)
        } else {
            None
        }
    }
}

} // verus!
