//! The PRIMASK register of Cortex-M cores: the single bit that gates every
//! exception with configurable priority.

pub mod register;

pub use register::{decode, read, read_raw, write_raw, Primask, Register};
