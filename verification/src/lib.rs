//! Decoding of measurements from wireless health devices: glucose meters,
//! bioimpedance scales, blood-pressure cuffs and activity bands.
//!
//! The crate holds the protocol logic only. Every function here works on
//! plain values (bytes, integers, the crate's own types); the Bluetooth
//! transport and the record store are driven by the caller.

pub mod api;
pub mod client;
pub mod devices;
pub mod loader;
pub mod macaddress;
pub mod measurement;
pub mod time;
pub mod user;

pub use api::{
    BleCharacteristicEvent,
    CharacteristicId,
    DeviceError,
    NotBleCharacteristicEvent,
    TimedEvent,
};
pub use loader::Loader;
pub use macaddress::MacAddress;
