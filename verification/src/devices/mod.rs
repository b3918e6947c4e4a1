//! One decoder for each supported device model, and the factory that
//! picks the decoder for a discovered device.

pub mod contour;
pub mod device;
pub mod huawei;
pub mod soehnle;
pub mod utils;
