//! Driver binding for the piControl process-image device of the Revolution Pi.
//!
//! The library holds the kernel ABI layouts, the value codec for process-image
//! variables, the module naming table and the decisions of the driver handle.
//! The system calls themselves (open, seek, read, write, ioctl) are made by the
//! program around it, which hands their results back to the functions here.

pub mod codec;
pub mod control;
pub mod error;
pub mod modules;
pub mod picontrol;

pub use crate::codec::{decode_value, num_to_bytes};
pub use crate::control::RevPiControl;
pub use crate::error::ControlError;
pub use crate::modules::{get_module_name, is_module_connected};
pub use crate::picontrol::{CstrToStrError, SDeviceInfo, SPIValue, SPIVariable};
