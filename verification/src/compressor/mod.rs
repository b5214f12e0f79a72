//! Core of the dual-wire serial protocol shared by compressor drivers.

pub mod command;
pub mod driver;
pub mod error;

pub use command::{Command, CommandFields};
pub use error::{CommunicationError, Error, ResponseError};
pub use driver::{decode_reply, Action, Driver, Event, Stage, Transaction};
