//! A fixed-width parallel digital bus whose electrical direction can be
//! switched at run time.
//!
//! A handle owns the bus in exactly one direction at a time. Switching
//! consumes the bus in its present direction and stores whatever the
//! conversion hands back, so the handle is never left without a bus.

pub mod bidirection;
pub mod bus;
pub mod erased;
pub mod width;

pub use embedded_hal as hal;
pub use hal::digital::v2::PinState;

pub use bidirection::BidirectionBus;
pub use bus::{InputBus, IoBus, OutputBus, ParallelBus, SwitchableBus};
pub use erased::DirectionErasedBus;
pub use width::{PinCount, Pins, Same};
