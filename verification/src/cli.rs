use vstd::prelude::*;

verus! {

/// The command line of the capture tool: one command.
#[derive(Debug, Clone, Copy, PartialEq, Eq, Structural)]
pub struct Cli {
    pub command: Commands,
}

/// The commands of the capture tool.
#[derive(Debug, Clone, Copy, PartialEq, Eq, Structural)]
pub enum Commands {
    /// List the devices.
    List,
    /// Act on the camera with the given index.
    Camera { index: u8, device_command: DeviceCommand },
    /// Act on the microphone with the given index.
    Microphone { index: u8, device_command: DeviceCommand },
}

/// What to do with one device.
#[derive(Debug, Clone, Copy, PartialEq, Eq, Structural)]
pub enum DeviceCommand {
    ListConfigs,
    Info,
    Start,
    Stop,
    Pause,
    Resume,
    Terminate,
}

} // verus!
