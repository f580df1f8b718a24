//! Secure ID (SID).

mod register;

pub use register::{Address, BromPriv, Control, EfuseStatus, RegisterBlock, TimingLow};
