//! SoC peripheral support for ArtInChip chips.
//!
//! Every hardware register is a type of its own around the raw 32-bit word,
//! with one accessor pair for each of its bit-fields. The accessors change
//! nothing in place: a setter hands back the new word. What each of them
//! reads or writes is stated over the arithmetic of [`bits`], which also holds
//! the laws that all fields obey. Each peripheral's `RegisterBlock` gives the
//! addresses of its registers.
pub mod bits;
pub mod instances;
pub mod rtc;
pub mod sid;
pub mod spi_enc;
pub mod sys_cfg;
pub mod xspi;
