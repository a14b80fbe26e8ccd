//! Protocol layer for a USB HID mouse whose DPI preset table is read and
//! written through fixed-size vendor-specific reports.
//!
//! The crate is organised as a stack: `transport` is the abstraction over a
//! report channel, `codec` maps protocol intents to and from raw byte
//! buffers, `engine` sequences the two into the device operations, and
//! `config` is the validated in-memory model the caller consumes. `mock` is
//! an in-memory transport for driving the engine without hardware, and
//! `selection` holds the one computation the presentation layer makes.

pub mod codec;
pub mod config;
pub mod engine;
pub mod error;
pub mod mock;
pub mod selection;
pub mod transport;
