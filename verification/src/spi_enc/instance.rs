//! SPI ENC instance.
use super::register::RegisterBlock;
use vstd::prelude::*;

verus! {

/// SPI ENC instance.
pub struct SpiEnc {
    base: usize,
}

impl SpiEnc {
    /// The whole register block, up to its last byte, lies inside the address
    /// space.
    #[verifier::type_invariant]
    spec fn block_fits(&self) -> bool {
        self.base + RegisterBlock::SIZE - 1 <= usize::MAX
    }

    /// The address at which the instance's register block starts.
    pub closed spec fn base(&self) -> usize {
        self.base
    }

    /// Create a new SPI ENC instance, whose register block starts at `base`.
    pub fn __new(base: usize) -> (r: Self)
        requires
            base + RegisterBlock::SIZE - 1 <= usize::MAX,
        ensures
            r.base() == base,
    {
        Self { base }
    }

    /// Get the register block.
    pub fn register_block(&self) -> (r: RegisterBlock)
        ensures
            r.is_at(self.base()),
    {
        proof {
            use_type_invariant(self);
        }
        RegisterBlock::at(self.base)
    }
}

} // verus!
