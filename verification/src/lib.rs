//! Command/transport protocol layer for an SX128x-class SPI radio transceiver.
//!
//! The driver issues opcoded commands over a shared SPI bus, frames each
//! command with a chip-select window, observes the hardware busy line before
//! issuing work, and sequences the power-on reset. It is generic over a
//! [`port::Port`] capability, so any concrete bus/pin/delay implementation can
//! be plugged in; every operation's effect on the hardware is captured as a
//! trace of [`trace::Event`]s and pinned down in the contracts.

pub mod device;

pub mod mock;

pub mod port;

pub mod trace;

pub use device::RadioHandle;
pub use device::Settings;
pub use device::Sx128x;
pub use device::Sx128xError;
pub use device::RADIO_GET_STATUS;
pub use mock::MockOp;
pub use mock::MockPort;
pub use mock::MOCK_FAULT;
pub use port::Port;
pub use trace::Event;
