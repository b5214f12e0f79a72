//! DWI inverter driver: command table, frame codec and status decoding.

pub mod driver;
pub mod error;
pub mod frame;
pub mod status;

pub use error::{CommunicationError, Error, ResponseError};
pub use status::{Faults, OperationStatus};
pub use frame::{validate, Command};
pub use driver::{finish_exchange, Config, Driver, Exchange};
