//! ArtInChip HAL instances.
pub use crate::rtc::Rtc;
pub use crate::spi_enc::SpiEnc;
pub use crate::xspi::Xspi;
