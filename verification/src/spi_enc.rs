//! Serial Peripheral Interface Encryption (SPI ENC).

mod instance;
mod register;

pub use instance::SpiEnc;
pub use register::{Control, EncBus, IntControl, IntStatus, RegisterBlock};
