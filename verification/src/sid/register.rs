//! SID register blocks and registers.
use crate::bits::{
    field, flag, lemma_clear, lemma_read, lemma_set, lemma_write, rest_is_kept, with_field,
    with_flag,
};
use vstd::pervasive::runtime_assert;
use vstd::prelude::*;

verus! {

/// Secure ID (SID) registers.
///
/// Each field holds the address of the register of that name, or of the first
/// of them where several stand in a row.
#[derive(Clone, Copy, Debug, PartialEq, Eq, Structural)]
pub struct RegisterBlock {
    /// EFUSE control register (`EFUSE_CTL`).
    pub ctrl: usize,
    /// EFUSE address register (`EFUSE_ADDR`).
    pub addr: usize,
    /// EFUSE write data register (`EFUSE_WDATA`).
    pub wdata: usize,
    /// EFUSE read data register (`EFUSE_RDATA`).
    pub rdata: usize,
    /// EFUSE timing low register (`EFUSE_TIMING_LOW`).
    pub timing_low: usize,
    /// BROM privilege register (`BROM_PRIV`).
    pub brom_priv: usize,
    /// SID version register (`SID_VER`).
    pub version: usize,
    /// EFUSE data buffer register (`EFUSE_BUFFER`).
    pub buffer: usize,
}

impl RegisterBlock {
    /// The number of bytes that the block takes up.
    pub const SIZE: usize = 0x300;

    /// Whether the fields are the addresses of the registers of the block that
    /// starts at `base`.
    pub open spec fn is_at(self, base: usize) -> bool {
        &&& self.ctrl == base + 0x0
        &&& self.addr == base + 0x4
        &&& self.wdata == base + 0x8
        &&& self.rdata == base + 0xC
        &&& self.timing_low == base + 0x10
        &&& self.brom_priv == base + 0x80
        &&& self.version == base + 0xFC
        &&& self.buffer == base + 0x200
    }

    /// The block that starts at `base`.
    ///
    /// The registers follow one another in the order of the memory map, four
    /// bytes each, with the reserved ranges between them.
    pub fn at(base: usize) -> (r: Self)
        requires
            base + Self::SIZE - 1 <= usize::MAX,
        ensures
            r.is_at(base),
    {
        let ctrl: usize = base;
        let addr: usize = ctrl + 4;
        let wdata: usize = addr + 4;
        let rdata: usize = wdata + 4;
        let timing_low: usize = rdata + 4;
        let brom_priv: usize = timing_low + 4 + 0x6C;
        let version: usize = brom_priv + 4 + 0x78;
        let buffer: usize = version + 4 + 0x100;
        Self { ctrl, addr, wdata, rdata, timing_low, brom_priv, version, buffer }
    }
}

/// Efuse state machine status.
///
/// The variants are not numbered by their codes: `bits` gives the code of a
/// value, a cast does not.
#[derive(Clone, Copy, Debug, PartialEq, Eq, Structural)]
pub enum EfuseStatus {
    /// Boot auto-reading in progress.
    BootReading,
    /// Idle state.
    Idle,
    /// Programming/burning in progress.
    Programming,
    /// Reading in progress.
    Reading,
    /// A bit pattern to which the hardware gives no meaning.
    Reserved,
}

impl EfuseStatus {
    /// The number that stands for this value in its register field. Of the
    /// numbers that stand for no other value, `Reserved` is written as the lowest.
    pub open spec fn code(self) -> int {
        match self {
            Self::BootReading => 1,
            Self::Idle => 2,
            Self::Programming => 4,
            Self::Reading => 8,
            Self::Reserved => 0,
        }
    }

    /// The value that `code` stands for: `Reserved`, where it stands for none.
    pub open spec fn decode(code: int) -> Self {
        if code == 1 {
            Self::BootReading
        } else if code == 2 {
            Self::Idle
        } else if code == 4 {
            Self::Programming
        } else if code == 8 {
            Self::Reading
        } else {
            Self::Reserved
        }
    }

    /// Whether `code` stands for a value other than `Reserved`.
    pub open spec fn is_code(code: int) -> bool {
        code == 1 || code == 2 || code == 4 || code == 8
    }

    /// The number that stands for this value in its register field.
    #[inline]
    pub fn bits(self) -> (r: u32)
        ensures
            r == self.code(),
    {
        match self {
            Self::BootReading => 1,
            Self::Idle => 2,
            Self::Programming => 4,
            Self::Reading => 8,
            Self::Reserved => 0,
        }
    }
}

/// EFUSE control register.
#[derive(Clone, Copy, Debug, PartialEq, Eq, PartialOrd, Ord, Hash, Structural)]
pub struct Control(pub u32);

impl Control {
    const SID_ERROR: u32 = 0x2000_0000;
    const BROM_PRIV_LOCK: u32 = 0x1000_0000;
    const EFUSE_OP_CODE: u32 = 0xFFF_0000;
    const EFUSE_STATUS: u32 = 0x1F00;
    const EFUSE_READ_START: u32 = 0x10;
    const EFUSE_WRITE_START: u32 = 0x1;

    /// Set the sid error bit (`SID_ERROR`).
    ///
    /// - 0: Normal.
    /// - 1: Start reading and writing when busy.
    #[inline]
    pub fn set_sid_error(self, set: bool) -> (r: Self)
        ensures
            r.0 == with_flag(self.0, 29, set),
            flag(r.0, 29) == set,
            rest_is_kept(self.0, r.0, 29, 1),
    {
        proof {
            lemma_set(self.0, Self::SID_ERROR, 29, 1);
            lemma_clear(self.0, Self::SID_ERROR, 29, 1);
        }
        if set {
            Self(self.0 | Self::SID_ERROR)
        } else {
            Self(self.0 & !Self::SID_ERROR)
        }
    }

    /// Get the sid error bit.
    #[inline]
    pub fn sid_error(self) -> (r: bool)
        ensures
            r == flag(self.0, 29),
    {
        proof {
            lemma_read(self.0, Self::SID_ERROR, 29, 1);
        }
        (self.0 & Self::SID_ERROR) != 0
    }

    /// Set the brom privilege lock bit (`BROM_PRIV_LOCK`).
    ///
    /// - 0: BROM privileges are available, and the software can use the related privileged functions.
    /// - 1: BROM privileges are disabled, and the software cannot use the related privileged functions.
    ///
    /// Once set to 1, it cannot be reset to 0 before the next POR.
    ///
    /// BROM privilege lock privileges include:
    /// - The JTAG unlocking function can be enabled.
    /// - The CE computation result of the eFuse SSK can be output to SRAM.
    ///
    /// This bit is configured as 1 in BROM to ensure that the related privileged functions are only available in BROM and cannot be modified by other software.
    #[inline]
    pub fn set_brom_priv_lock(self, set: bool) -> (r: Self)
        ensures
            r.0 == with_flag(self.0, 28, set),
            flag(r.0, 28) == set,
            rest_is_kept(self.0, r.0, 28, 1),
    {
        proof {
            lemma_set(self.0, Self::BROM_PRIV_LOCK, 28, 1);
            lemma_clear(self.0, Self::BROM_PRIV_LOCK, 28, 1);
        }
        if set {
            Self(self.0 | Self::BROM_PRIV_LOCK)
        } else {
            Self(self.0 & !Self::BROM_PRIV_LOCK)
        }
    }

    /// Get the brom privilege lock bit.
    #[inline]
    pub fn brom_priv_lock(self) -> (r: bool)
        ensures
            r == flag(self.0, 28),
    {
        proof {
            lemma_read(self.0, Self::BROM_PRIV_LOCK, 28, 1);
        }
        (self.0 & Self::BROM_PRIV_LOCK) != 0
    }

    /// Set the efuse operation code (`EFUSE_OP_CODE`).
    ///
    /// To prevent accidental operations, set it to write 0xA1C before allowing eFuse to perform read and write operations.
    ///
    /// Aborts if `code` is not below `0x1000`.
    #[inline]
    pub fn set_efuse_op_code(self, code: u16) -> (r: Self)
        requires
            code < 0x1000,
        ensures
            r.0 == with_field(self.0, 16, 12, code as int),
            field(r.0, 16, 12) == code,
            rest_is_kept(self.0, r.0, 16, 12),
    {
        runtime_assert(code < 0x1000);
        proof {
            lemma_write(self.0, Self::EFUSE_OP_CODE, 16, 12, code as u32);
        }
        Self((self.0 & !Self::EFUSE_OP_CODE) | (Self::EFUSE_OP_CODE & ((code as u32) << 16)))
    }

    /// Get the efuse operation code.
    #[inline]
    pub fn efuse_op_code(self) -> (r: u16)
        ensures
            r == field(self.0, 16, 12),
    {
        proof {
            lemma_read(self.0, Self::EFUSE_OP_CODE, 16, 12);
        }
        ((self.0 & Self::EFUSE_OP_CODE) >> 16) as u16
    }

    /// Get the efuse state machine status (`EFUSE_STATUS`).
    ///
    /// - It is recommended to check EFUSE_DATA_READY when in idle state.
    /// - It is recommended to check EFUSE_WRITE_START when the write operation is completed.
    /// - It is recommended to check EFUSE_READ_START when the read operation is completed.
    #[inline]
    pub fn efuse_status(self) -> (r: EfuseStatus)
        ensures
            r == EfuseStatus::decode(field(self.0, 8, 5)),
            EfuseStatus::is_code(field(self.0, 8, 5)) ==> r.code() == field(self.0, 8, 5),
    {
        proof {
            lemma_read(self.0, Self::EFUSE_STATUS, 8, 5);
        }
        match (self.0 & Self::EFUSE_STATUS) >> 8 {
            1 => EfuseStatus::BootReading,
            2 => EfuseStatus::Idle,
            4 => EfuseStatus::Programming,
            8 => EfuseStatus::Reading,
            _ => EfuseStatus::Reserved,
        }
    }

    /// Set the efuse read start bit (`EFUSE_READ_START`).
    ///
    /// - 0: No operation
    /// - 1: Start eFuse read operation
    ///
    ///  When writing to this bit, it is written simultaneously with EFUSE_OP_CODE = 0xA1C.
    ///  Writing 1 initiates the eFuse read, and this bit automatically clears once the read is complete.
    #[inline]
    pub fn set_efuse_read_start(self, set: bool) -> (r: Self)
        ensures
            r.0 == with_flag(self.0, 4, set),
            flag(r.0, 4) == set,
            rest_is_kept(self.0, r.0, 4, 1),
    {
        proof {
            lemma_set(self.0, Self::EFUSE_READ_START, 4, 1);
            lemma_clear(self.0, Self::EFUSE_READ_START, 4, 1);
        }
        if set {
            Self(self.0 | Self::EFUSE_READ_START)
        } else {
            Self(self.0 & !Self::EFUSE_READ_START)
        }
    }

    /// Get the efuse read start bit.
    #[inline]
    pub fn efuse_read_start(self) -> (r: bool)
        ensures
            r == flag(self.0, 4),
    {
        proof {
            lemma_read(self.0, Self::EFUSE_READ_START, 4, 1);
        }
        (self.0 & Self::EFUSE_READ_START) != 0
    }

    /// Set the efuse write start bit (`EFUSE_WRITE_START`).
    ///
    /// - 0: No operation
    /// - 1: Start eFuse write operation
    ///
    ///  When writing to this bit, it is written simultaneously with EFUSE_OP_CODE = 0xA1C.
    ///  Writing 1 initiates the eFuse write, and this bit automatically clears once the write is complete.
    ///  The LDO will automatically turn on and off during this period, and there is no need to configure the LDO switch.
    #[inline]
    pub fn set_efuse_write_start(self, set: bool) -> (r: Self)
        ensures
            r.0 == with_flag(self.0, 0, set),
            flag(r.0, 0) == set,
            rest_is_kept(self.0, r.0, 0, 1),
    {
        proof {
            lemma_set(self.0, Self::EFUSE_WRITE_START, 0, 1);
            lemma_clear(self.0, Self::EFUSE_WRITE_START, 0, 1);
        }
        if set {
            Self(self.0 | Self::EFUSE_WRITE_START)
        } else {
            Self(self.0 & !Self::EFUSE_WRITE_START)
        }
    }

    /// Get the efuse write start bit.
    #[inline]
    pub fn efuse_write_start(self) -> (r: bool)
        ensures
            r == flag(self.0, 0),
    {
        proof {
            lemma_read(self.0, Self::EFUSE_WRITE_START, 0, 1);
        }
        (self.0 & Self::EFUSE_WRITE_START) != 0
    }
}

/// EFUSE address register.
#[derive(Debug, Clone, Copy, PartialEq, Eq, PartialOrd, Ord, Hash, Structural)]
pub struct Address(pub u32);

impl Address {
    const EFUSE_ADDR: u32 = 0x1FF;

    /// Set the efuse address (`EFUSE_ADDR`).
    ///
    /// Read and write operations cover the entire space in byte units.
    /// Since the operations are performed in 32-bit increments, the lowest two bits need to be set to 0.
    ///
    /// Aborts if `addr` is not below `0x200`.
    #[inline]
    pub fn set_efuse_addr(self, addr: u16) -> (r: Self)
        requires
            addr < 0x200,
        ensures
            r.0 == with_field(self.0, 0, 9, addr as int),
            field(r.0, 0, 9) == addr,
            rest_is_kept(self.0, r.0, 0, 9),
    {
        runtime_assert(addr < 0x200);
        proof {
            lemma_write(self.0, Self::EFUSE_ADDR, 0, 9, addr as u32);
        }
        Self((self.0 & !Self::EFUSE_ADDR) | (Self::EFUSE_ADDR & (addr as u32)))
    }

    /// Get the efuse address.
    #[inline]
    pub fn efuse_addr(self) -> (r: u16)
        ensures
            r == field(self.0, 0, 9),
    {
        proof {
            lemma_read(self.0, Self::EFUSE_ADDR, 0, 9);
        }
        (self.0 & Self::EFUSE_ADDR) as u16
    }
}

/// EFUSE timing low register.
#[derive(Debug, Clone, Copy, PartialEq, Eq, PartialOrd, Ord, Hash, Structural)]
pub struct TimingLow(pub u32);

impl TimingLow {
    const TAEN_RD: u32 = 0xFF00_0000;
    const TRD: u32 = 0xFF_0000;
    const TAEN_PGM: u32 = 0xFF00;
    const TPGM: u32 = 0xFF;

    /// Set the read data processing time (`TAEN_RD`).
    #[inline]
    pub fn set_rd_data_proc_time(self, cycles: u8) -> (r: Self)
        ensures
            r.0 == with_field(self.0, 24, 8, cycles as int),
            field(r.0, 24, 8) == cycles,
            rest_is_kept(self.0, r.0, 24, 8),
    {
        proof {
            lemma_write(self.0, Self::TAEN_RD, 24, 8, cycles as u32);
        }
        Self((self.0 & !Self::TAEN_RD) | (Self::TAEN_RD & ((cycles as u32) << 24)))
    }

    /// Get the read data processing time.
    #[inline]
    pub fn rd_data_proc_time(self) -> (r: u8)
        ensures
            r == field(self.0, 24, 8),
    {
        proof {
            lemma_read(self.0, Self::TAEN_RD, 24, 8);
        }
        ((self.0 & Self::TAEN_RD) >> 24) as u8
    }

    /// Set the read data high level duration (`TRD`).
    #[inline]
    pub fn set_rd_high_level_duration(self, cycles: u8) -> (r: Self)
        ensures
            r.0 == with_field(self.0, 16, 8, cycles as int),
            field(r.0, 16, 8) == cycles,
            rest_is_kept(self.0, r.0, 16, 8),
    {
        proof {
            lemma_write(self.0, Self::TRD, 16, 8, cycles as u32);
        }
        Self((self.0 & !Self::TRD) | (Self::TRD & ((cycles as u32) << 16)))
    }

    /// Get the read data high level duration.
    #[inline]
    pub fn rd_high_level_duration(self) -> (r: u8)
        ensures
            r == field(self.0, 16, 8),
    {
        proof {
            lemma_read(self.0, Self::TRD, 16, 8);
        }
        ((self.0 & Self::TRD) >> 16) as u8
    }

    /// Set the write data processing time (`TAEN_PGM`).
    #[inline]
    pub fn set_wr_data_proc_time(self, cycles: u8) -> (r: Self)
        ensures
            r.0 == with_field(self.0, 8, 8, cycles as int),
            field(r.0, 8, 8) == cycles,
            rest_is_kept(self.0, r.0, 8, 8),
    {
        proof {
            lemma_write(self.0, Self::TAEN_PGM, 8, 8, cycles as u32);
        }
        Self((self.0 & !Self::TAEN_PGM) | (Self::TAEN_PGM & ((cycles as u32) << 8)))
    }

    /// Get the write data processing time.
    #[inline]
    pub fn wr_data_proc_time(self) -> (r: u8)
        ensures
            r == field(self.0, 8, 8),
    {
        proof {
            lemma_read(self.0, Self::TAEN_PGM, 8, 8);
        }
        ((self.0 & Self::TAEN_PGM) >> 8) as u8
    }

    /// Set the write data high level duration (`TPGM`).
    #[inline]
    pub fn set_wr_high_level_duration(self, cycles: u8) -> (r: Self)
        ensures
            r.0 == with_field(self.0, 0, 8, cycles as int),
            field(r.0, 0, 8) == cycles,
            rest_is_kept(self.0, r.0, 0, 8),
    {
        proof {
            lemma_write(self.0, Self::TPGM, 0, 8, cycles as u32);
        }
        Self((self.0 & !Self::TPGM) | (Self::TPGM & (cycles as u32)))
    }

    /// Get the write data high level duration.
    #[inline]
    pub fn wr_high_level_duration(self) -> (r: u8)
        ensures
            r == field(self.0, 0, 8),
    {
        proof {
            lemma_read(self.0, Self::TPGM, 0, 8);
        }
        (self.0 & Self::TPGM) as u8
    }
}

/// BROM privilege register.
#[derive(Debug, Clone, Copy, PartialEq, Eq, PartialOrd, Ord, Hash, Structural)]
pub struct BromPriv(pub u32);

impl BromPriv {
    const JTAG_UNLOCK: u32 = 0x1;

    /// Enable jtag unlock (`JTAG_UNLOCK`).
    ///
    /// Effective only when JTAG_LOCK = 1.
    ///
    /// Has a higher priority than JTAG_LOCK (from eFuse); the unlock function is only effective when BROM_PRIVILEGE_LOCK is 0.
    ///
    /// If BROM_PRIVILEGE_LOCK is 1, JTAG unlocking will not be enabled even if JTAG_UNLOCK is set to 1.
    #[inline]
    pub fn enable_jtag_unlock(self) -> (r: Self)
        ensures
            r.0 == with_flag(self.0, 0, true),
            flag(r.0, 0),
            rest_is_kept(self.0, r.0, 0, 1),
    {
        proof {
            lemma_set(self.0, Self::JTAG_UNLOCK, 0, 1);
        }
        Self(self.0 | Self::JTAG_UNLOCK)
    }

    /// Disable jtag unlock.
    #[inline]
    pub fn disable_jtag_unlock(self) -> (r: Self)
        ensures
            r.0 == with_flag(self.0, 0, false),
            !flag(r.0, 0),
            rest_is_kept(self.0, r.0, 0, 1),
    {
        proof {
            lemma_clear(self.0, Self::JTAG_UNLOCK, 0, 1);
        }
        Self(self.0 & !Self::JTAG_UNLOCK)
    }

    /// Check if jtag unlock is enabled.
    #[inline]
    pub fn is_jtag_unlock_enabled(self) -> (r: bool)
        ensures
            r == flag(self.0, 0),
    {
        proof {
            lemma_read(self.0, Self::JTAG_UNLOCK, 0, 1);
        }
        (self.0 & Self::JTAG_UNLOCK) != 0
    }
}

} // verus!
