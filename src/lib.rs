//! A runtime gate in front of a network device: a controller can block the
//! receive path, the transmit path, or both, on a live device through shared
//! control handles, without the device knowing.

pub mod device;
pub mod gate;
pub mod kill_switch;

pub use device::{Device, DeviceCapabilities};
pub use gate::GateState;
pub use kill_switch::{KillSwitch, Switch};

