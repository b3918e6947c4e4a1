//! What the decoders exchange with the Bluetooth transport.

use vstd::prelude::*;

use crate::time::Timestamp;

verus! {

/// Why an operation on a device failed.
#[derive(Debug)]
pub enum DeviceError {
    /// The device could not be connected or disconnected.
    ConnectionFailure(String),
    /// Any other failure of the Bluetooth stack.
    BluetoothError(String),
}

/// One notification of a characteristic: the bytes the device sent.
#[derive(Clone, Debug, PartialEq, Eq)]
pub struct BleCharacteristicEvent {
    pub value: Vec<u8>,
}

impl View for BleCharacteristicEvent {
    type V = Seq<u8>;

    open spec fn view(&self) -> Seq<u8> {
        self.value@
    }
}

impl DeepView for BleCharacteristicEvent {
    type V = Seq<u8>;

    open spec fn deep_view(&self) -> Seq<u8> {
        self.value@
    }
}

/// What a conversion answers for a transport event that is no
/// notification of a characteristic's value.
#[derive(Clone, Copy, Debug, PartialEq, Eq, Structural)]
pub struct NotBleCharacteristicEvent;

/// A notification together with the time at which it arrived.
#[derive(Clone, Debug, PartialEq, Eq)]
pub struct TimedEvent {
    pub event: BleCharacteristicEvent,
    pub received: Timestamp,
}

impl DeepView for TimedEvent {
    type V = (Seq<u8>, Timestamp);

    open spec fn deep_view(&self) -> (Seq<u8>, Timestamp) {
        (self.event@, self.received)
    }
}

/// A characteristic of a device, named by the 128-bit UUIDs of its service
/// and of the characteristic itself.
#[derive(Clone, Copy, Debug, PartialEq, Eq, Structural)]
pub struct CharacteristicId {
    pub service: u128,
    pub characteristic: u128,
}

} // verus!
