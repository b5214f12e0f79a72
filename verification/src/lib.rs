//! Dual Wire Interface (DWI): the five-byte serial protocol of variable-speed
//! compressor inverters, and the request tables of the devices that speak it.

pub mod wire;
pub mod compressor;
pub mod dwi;
pub mod embraco;
pub mod secop;
