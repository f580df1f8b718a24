//! SPI ENC register blocks and registers.
use crate::bits::{
    field, flag, lemma_clear, lemma_read, lemma_set, lemma_write, rest_is_kept, with_field,
    with_flag,
};
use vstd::prelude::*;

verus! {

/// Serial Peripheral Interface Encryption registers.
///
/// Each field holds the address of the register of that name, or of the first
/// of them where several stand in a row.
#[derive(Clone, Copy, Debug, PartialEq, Eq, Structural)]
pub struct RegisterBlock {
    /// SPI ENC control register (`SPIE_CTL`).
    pub ctrl: usize,
    /// SPI ENC interrupt control register (`SPIE_ICR`).
    pub int_ctrl: usize,
    /// SPI ENC interrupt status register (`SPIE_ISR`).
    pub int_status: usize,
    /// SPI ENC key counter register (`SPIE_KCNT`).
    pub key_cnt: usize,
    /// SPI ENC output counter register (`SPIE_OCNT`).
    pub output_cnt: usize,
    /// SPI ENC data address register (`SPIE_ADDR`).
    pub addr: usize,
    /// SPI ENC tweak register (`SPIE_TWEAK`).
    pub tweak: usize,
    /// SPI ENC ciphertext position register (`SPIE_CPOS`).
    pub cipher_pos: usize,
    /// SPI ENC ciphertext length register (`SPIE_CLEN`).
    pub cipher_len: usize,
    /// SPI ENC version register (`SPIE_VER`).
    pub version: usize,
}

impl RegisterBlock {
    /// The number of bytes that the block takes up.
    pub const SIZE: usize = 0x1000;

    /// Whether the fields are the addresses of the registers of the block that
    /// starts at `base`.
    pub open spec fn is_at(self, base: usize) -> bool {
        &&& self.ctrl == base + 0x0
        &&& self.int_ctrl == base + 0x4
        &&& self.int_status == base + 0x8
        &&& self.key_cnt == base + 0xC
        &&& self.output_cnt == base + 0x10
        &&& self.addr == base + 0x14
        &&& self.tweak == base + 0x18
        &&& self.cipher_pos == base + 0x1C
        &&& self.cipher_len == base + 0x20
        &&& self.version == base + 0xFFC
    }

    /// The block that starts at `base`.
    ///
    /// The registers follow one another in the order of the memory map, four
    /// bytes each, with the reserved ranges between them.
    pub fn at(base: usize) -> (r: Self)
        requires
            base + Self::SIZE - 1 <= usize::MAX,
        ensures
            r.is_at(base),
    {
        let ctrl: usize = base;
        let int_ctrl: usize = ctrl + 4;
        let int_status: usize = int_ctrl + 4;
        let key_cnt: usize = int_status + 4;
        let output_cnt: usize = key_cnt + 4;
        let addr: usize = output_cnt + 4;
        let tweak: usize = addr + 4;
        let cipher_pos: usize = tweak + 4;
        let cipher_len: usize = cipher_pos + 4;
        let version: usize = cipher_len + 4 + 0xFD8;
        Self {
            ctrl,
            int_ctrl,
            int_status,
            key_cnt,
            output_cnt,
            addr,
            tweak,
            cipher_pos,
            cipher_len,
            version,
        }
    }
}

/// Encryption bus connection.
#[derive(Clone, Copy, Debug, PartialEq, Eq, Structural)]
pub enum EncBus {
    /// Bypass, not connected to any bus.
    Bypass,
    /// Connected to SPI0 bus.
    Spi0,
    /// Connected to SPI1 bus.
    Spi1,
    /// A bit pattern to which the hardware gives no meaning.
    Reserved,
}

impl EncBus {
    /// The number that stands for this value in its register field. Of the
    /// numbers that stand for no other value, `Reserved` is written as the lowest.
    pub open spec fn code(self) -> int {
        match self {
            Self::Bypass => 0,
            Self::Spi0 => 1,
            Self::Spi1 => 2,
            Self::Reserved => 3,
        }
    }

    /// The value that `code` stands for: `Reserved`, where it stands for none.
    pub open spec fn decode(code: int) -> Self {
        if code == 0 {
            Self::Bypass
        } else if code == 1 {
            Self::Spi0
        } else if code == 2 {
            Self::Spi1
        } else {
            Self::Reserved
        }
    }

    /// Whether `code` stands for a value other than `Reserved`.
    pub open spec fn is_code(code: int) -> bool {
        0 <= code <= 2
    }
}

/// SPI ENC control register.
#[derive(Clone, Copy, Debug, PartialEq, Eq, PartialOrd, Ord, Hash, Structural)]
pub struct Control(pub u32);

impl Control {
    const XIP_EN: u32 = 0x1_0000;
    const SPI_SEL: u32 = 0x3000;
    const KEY_START: u32 = 0x1;

    /// Enable spi xip encryption (`XIP_EN`).
    ///
    /// Once enabled, the hardware automatically connects to the SPI controller.
    #[inline]
    pub fn enable_xip_enc(self) -> (r: Self)
        ensures
            r.0 == with_flag(self.0, 16, true),
            flag(r.0, 16),
            rest_is_kept(self.0, r.0, 16, 1),
    {
        proof {
            lemma_set(self.0, Self::XIP_EN, 16, 1);
        }
        Self(self.0 | Self::XIP_EN)
    }

    /// Disable spi xip encryption.
    #[inline]
    pub fn disable_xip_enc(self) -> (r: Self)
        ensures
            r.0 == with_flag(self.0, 16, false),
            !flag(r.0, 16),
            rest_is_kept(self.0, r.0, 16, 1),
    {
        proof {
            lemma_clear(self.0, Self::XIP_EN, 16, 1);
        }
        Self(self.0 & !Self::XIP_EN)
    }

    /// Check if spi xip encryption is enabled.
    #[inline]
    pub fn is_xip_enc_enabled(self) -> (r: bool)
        ensures
            r == flag(self.0, 16),
    {
        proof {
            lemma_read(self.0, Self::XIP_EN, 16, 1);
        }
        self.0 & Self::XIP_EN != 0
    }

    /// Set encryption bus (`SPI_SEL`).
    ///
    /// When XIP encryption is enabled, setting the encryption bus is invalid.
    #[inline]
    pub fn set_enc_bus(self, bus: EncBus) -> (r: Self)
        ensures
            r.0 == with_field(self.0, 12, 2, bus.code()),
            field(r.0, 12, 2) == bus.code(),
            EncBus::decode(field(r.0, 12, 2)) == bus,
            rest_is_kept(self.0, r.0, 12, 2),
    {
        proof {
            lemma_write(self.0, Self::SPI_SEL, 12, 2, bus as u32);
        }
        Self((self.0 & !Self::SPI_SEL) | (Self::SPI_SEL & ((bus as u32) << 12)))
    }

    /// Get encryption bus.
    #[inline]
    pub fn enc_bus(self) -> (r: EncBus)
        ensures
            r == EncBus::decode(field(self.0, 12, 2)),
            EncBus::is_code(field(self.0, 12, 2)) ==> r.code() == field(self.0, 12, 2),
    {
        proof {
            lemma_read(self.0, Self::SPI_SEL, 12, 2);
        }
        match (self.0 & Self::SPI_SEL) >> 12 {
            0 => EncBus::Bypass,
            1 => EncBus::Spi0,
            2 => EncBus::Spi1,
            _ => EncBus::Reserved,
        }
    }

    /// Set key start bit (`KEY_START`).
    ///
    /// Before or during data encryption and decryption, the group key must be calculated first;
    /// otherwise, the encryption and decryption unit will keep waiting for the key to be generated, leading to transmission failure.
    /// After the transmission is complete, the key must be cleared to stop the key calculation.
    ///
    /// When XIP encryption is enabled, setting the key start bit is invalid.
    #[inline]
    pub fn set_key_start(self, set: bool) -> (r: Self)
        ensures
            r.0 == with_flag(self.0, 0, set),
            flag(r.0, 0) == set,
            rest_is_kept(self.0, r.0, 0, 1),
    {
        proof {
            lemma_set(self.0, Self::KEY_START, 0, 1);
            lemma_clear(self.0, Self::KEY_START, 0, 1);
        }
        if set {
            Self(self.0 | Self::KEY_START)
        } else {
            Self(self.0 & !Self::KEY_START)
        }
    }

    /// Get key start bit.
    #[inline]
    pub fn key_start(self) -> (r: bool)
        ensures
            r == flag(self.0, 0),
    {
        proof {
            lemma_read(self.0, Self::KEY_START, 0, 1);
        }
        self.0 & Self::KEY_START != 0
    }
}

/// SPI ENC interrupt control register.
#[derive(Clone, Copy, Debug, PartialEq, Eq, PartialOrd, Ord, Hash, Structural)]
pub struct IntControl(pub u32);

impl IntControl {
    const KEY_OVF: u32 = 0x20;
    const KEY_UDF: u32 = 0x10;
    const READ_HALF_EMPTY: u32 = 0x8;
    const READ_EMPTY_DATA: u32 = 0x4;
    const ENC_DEC_FINISHED: u32 = 0x2;
    const KEY_GEN: u32 = 0x1;

    /// Enable group key fifo overflow interrupt (`KEY_OVF`).
    #[inline]
    pub fn enable_key_ovf_int(self) -> (r: Self)
        ensures
            r.0 == with_flag(self.0, 5, true),
            flag(r.0, 5),
            rest_is_kept(self.0, r.0, 5, 1),
    {
        proof {
            lemma_set(self.0, Self::KEY_OVF, 5, 1);
        }
        Self(self.0 | Self::KEY_OVF)
    }

    /// Disable group key fifo overflow interrupt.
    #[inline]
    pub fn disable_key_ovf_int(self) -> (r: Self)
        ensures
            r.0 == with_flag(self.0, 5, false),
            !flag(r.0, 5),
            rest_is_kept(self.0, r.0, 5, 1),
    {
        proof {
            lemma_clear(self.0, Self::KEY_OVF, 5, 1);
        }
        Self(self.0 & !Self::KEY_OVF)
    }

    /// Check if group key fifo overflow interrupt is enabled.
    #[inline]
    pub fn is_key_ovf_int_enabled(self) -> (r: bool)
        ensures
            r == flag(self.0, 5),
    {
        proof {
            lemma_read(self.0, Self::KEY_OVF, 5, 1);
        }
        self.0 & Self::KEY_OVF != 0
    }

    /// Enable group key fifo underflow interrupt (`KEY_UDF`).
    #[inline]
    pub fn enable_key_udf_int(self) -> (r: Self)
        ensures
            r.0 == with_flag(self.0, 4, true),
            flag(r.0, 4),
            rest_is_kept(self.0, r.0, 4, 1),
    {
        proof {
            lemma_set(self.0, Self::KEY_UDF, 4, 1);
        }
        Self(self.0 | Self::KEY_UDF)
    }

    /// Disable group key fifo underflow interrupt.
    #[inline]
    pub fn disable_key_udf_int(self) -> (r: Self)
        ensures
            r.0 == with_flag(self.0, 4, false),
            !flag(r.0, 4),
            rest_is_kept(self.0, r.0, 4, 1),
    {
        proof {
            lemma_clear(self.0, Self::KEY_UDF, 4, 1);
        }
        Self(self.0 & !Self::KEY_UDF)
    }

    /// Check if group key fifo underflow interrupt is enabled.
    #[inline]
    pub fn is_key_udf_int_enabled(self) -> (r: bool)
        ensures
            r == flag(self.0, 4),
    {
        proof {
            lemma_read(self.0, Self::KEY_UDF, 4, 1);
        }
        self.0 & Self::KEY_UDF != 0
    }

    /// Enable read half empty interrupt (`READ_HALF_EMPTY`).
    #[inline]
    pub fn enable_read_half_empty_int(self) -> (r: Self)
        ensures
            r.0 == with_flag(self.0, 3, true),
            flag(r.0, 3),
            rest_is_kept(self.0, r.0, 3, 1),
    {
        proof {
            lemma_set(self.0, Self::READ_HALF_EMPTY, 3, 1);
        }
        Self(self.0 | Self::READ_HALF_EMPTY)
    }

    /// Disable read half empty interrupt.
    #[inline]
    pub fn disable_read_half_empty_int(self) -> (r: Self)
        ensures
            r.0 == with_flag(self.0, 3, false),
            !flag(r.0, 3),
            rest_is_kept(self.0, r.0, 3, 1),
    {
        proof {
            lemma_clear(self.0, Self::READ_HALF_EMPTY, 3, 1);
        }
        Self(self.0 & !Self::READ_HALF_EMPTY)
    }

    /// Check if read half empty interrupt is enabled.
    #[inline]
    pub fn is_read_half_empty_int_enabled(self) -> (r: bool)
        ensures
            r == flag(self.0, 3),
    {
        proof {
            lemma_read(self.0, Self::READ_HALF_EMPTY, 3, 1);
        }
        self.0 & Self::READ_HALF_EMPTY != 0
    }

    /// Enable read empty data interrupt (`READ_EMPTY_DATA`).
    #[inline]
    pub fn enable_read_empty_data_int(self) -> (r: Self)
        ensures
            r.0 == with_flag(self.0, 2, true),
            flag(r.0, 2),
            rest_is_kept(self.0, r.0, 2, 1),
    {
        proof {
            lemma_set(self.0, Self::READ_EMPTY_DATA, 2, 1);
        }
        Self(self.0 | Self::READ_EMPTY_DATA)
    }

    /// Disable read empty data interrupt.
    #[inline]
    pub fn disable_read_empty_data_int(self) -> (r: Self)
        ensures
            r.0 == with_flag(self.0, 2, false),
            !flag(r.0, 2),
            rest_is_kept(self.0, r.0, 2, 1),
    {
        proof {
            lemma_clear(self.0, Self::READ_EMPTY_DATA, 2, 1);
        }
        Self(self.0 & !Self::READ_EMPTY_DATA)
    }

    /// Check if read empty data interrupt is enabled.
    #[inline]
    pub fn is_read_empty_data_int_enabled(self) -> (r: bool)
        ensures
            r == flag(self.0, 2),
    {
        proof {
            lemma_read(self.0, Self::READ_EMPTY_DATA, 2, 1);
        }
        self.0 & Self::READ_EMPTY_DATA != 0
    }

    /// Enable encryption/decryption finished interrupt (`ENC_DEC_FINISHED`).
    #[inline]
    pub fn enable_enc_dec_finished_int(self) -> (r: Self)
        ensures
            r.0 == with_flag(self.0, 1, true),
            flag(r.0, 1),
            rest_is_kept(self.0, r.0, 1, 1),
    {
        proof {
            lemma_set(self.0, Self::ENC_DEC_FINISHED, 1, 1);
        }
        Self(self.0 | Self::ENC_DEC_FINISHED)
    }

    /// Disable encryption/decryption finished interrupt.
    #[inline]
    pub fn disable_enc_dec_finished_int(self) -> (r: Self)
        ensures
            r.0 == with_flag(self.0, 1, false),
            !flag(r.0, 1),
            rest_is_kept(self.0, r.0, 1, 1),
    {
        proof {
            lemma_clear(self.0, Self::ENC_DEC_FINISHED, 1, 1);
        }
        Self(self.0 & !Self::ENC_DEC_FINISHED)
    }

    /// Check if encryption/decryption finished interrupt is enabled.
    #[inline]
    pub fn is_enc_dec_finished_int_enabled(self) -> (r: bool)
        ensures
            r == flag(self.0, 1),
    {
        proof {
            lemma_read(self.0, Self::ENC_DEC_FINISHED, 1, 1);
        }
        self.0 & Self::ENC_DEC_FINISHED != 0
    }

    /// Enable the first group key generation interrupt (`KEY_GEN`).
    #[inline]
    pub fn enable_key_gen_int(self) -> (r: Self)
        ensures
            r.0 == with_flag(self.0, 0, true),
            flag(r.0, 0),
            rest_is_kept(self.0, r.0, 0, 1),
    {
        proof {
            lemma_set(self.0, Self::KEY_GEN, 0, 1);
        }
        Self(self.0 | Self::KEY_GEN)
    }

    /// Disable the first group key generation interrupt.
    #[inline]
    pub fn disable_key_gen_int(self) -> (r: Self)
        ensures
            r.0 == with_flag(self.0, 0, false),
            !flag(r.0, 0),
            rest_is_kept(self.0, r.0, 0, 1),
    {
        proof {
            lemma_clear(self.0, Self::KEY_GEN, 0, 1);
        }
        Self(self.0 & !Self::KEY_GEN)
    }

    /// Check if the first group key generation interrupt is enabled.
    #[inline]
    pub fn is_key_gen_int_enabled(self) -> (r: bool)
        ensures
            r == flag(self.0, 0),
    {
        proof {
            lemma_read(self.0, Self::KEY_GEN, 0, 1);
        }
        self.0 & Self::KEY_GEN != 0
    }
}

/// SPI ENC interrupt status register.
#[derive(Debug, Clone, Copy, PartialEq, Eq, PartialOrd, Ord, Hash, Structural)]
pub struct IntStatus(pub u32);

impl IntStatus {
    const KEY_OVF: u32 = 0x20;
    const KEY_UDF: u32 = 0x10;
    const READ_HALF_EMPTY: u32 = 0x8;
    const READ_EMPTY_DATA: u32 = 0x4;
    const ENC_DEC_FINISHED: u32 = 0x2;
    const KEY_GEN: u32 = 0x1;

    /// Check if group key fifo overflow interrupt is pending (`KEY_OVF`).
    #[inline]
    pub fn is_key_ovf_int_pending(self) -> (r: bool)
        ensures
            r == flag(self.0, 5),
    {
        proof {
            lemma_read(self.0, Self::KEY_OVF, 5, 1);
        }
        self.0 & Self::KEY_OVF != 0
    }

    /// Clear group key fifo overflow interrupt.
    #[inline]
    pub fn clear_key_ovf_int(self) -> (r: Self)
        ensures
            r.0 == with_flag(self.0, 5, true),
            flag(r.0, 5),
            rest_is_kept(self.0, r.0, 5, 1),
    {
        proof {
            lemma_set(self.0, Self::KEY_OVF, 5, 1);
        }
        Self(self.0 | Self::KEY_OVF)
    }

    /// Check if group key fifo underflow interrupt is pending (`KEY_UDF`).
    #[inline]
    pub fn is_key_udf_int_pending(self) -> (r: bool)
        ensures
            r == flag(self.0, 4),
    {
        proof {
            lemma_read(self.0, Self::KEY_UDF, 4, 1);
        }
        self.0 & Self::KEY_UDF != 0
    }

    /// Clear group key fifo underflow interrupt.
    #[inline]
    pub fn clear_key_udf_int(self) -> (r: Self)
        ensures
            r.0 == with_flag(self.0, 4, true),
            flag(r.0, 4),
            rest_is_kept(self.0, r.0, 4, 1),
    {
        proof {
            lemma_set(self.0, Self::KEY_UDF, 4, 1);
        }
        Self(self.0 | Self::KEY_UDF)
    }

    /// Check if read half empty interrupt is pending (`READ_HALF_EMPTY`).
    #[inline]
    pub fn is_read_half_empty_int_pending(self) -> (r: bool)
        ensures
            r == flag(self.0, 3),
    {
        proof {
            lemma_read(self.0, Self::READ_HALF_EMPTY, 3, 1);
        }
        self.0 & Self::READ_HALF_EMPTY != 0
    }

    /// Clear read half empty interrupt.
    #[inline]
    pub fn clear_read_half_empty_int(self) -> (r: Self)
        ensures
            r.0 == with_flag(self.0, 3, true),
            flag(r.0, 3),
            rest_is_kept(self.0, r.0, 3, 1),
    {
        proof {
            lemma_set(self.0, Self::READ_HALF_EMPTY, 3, 1);
        }
        Self(self.0 | Self::READ_HALF_EMPTY)
    }

    /// Check if read empty data interrupt is pending (`READ_EMPTY_DATA`).
    #[inline]
    pub fn is_read_empty_data_int_pending(self) -> (r: bool)
        ensures
            r == flag(self.0, 2),
    {
        proof {
            lemma_read(self.0, Self::READ_EMPTY_DATA, 2, 1);
        }
        self.0 & Self::READ_EMPTY_DATA != 0
    }

    /// Clear read empty data interrupt.
    #[inline]
    pub fn clear_read_empty_data_int(self) -> (r: Self)
        ensures
            r.0 == with_flag(self.0, 2, true),
            flag(r.0, 2),
            rest_is_kept(self.0, r.0, 2, 1),
    {
        proof {
            lemma_set(self.0, Self::READ_EMPTY_DATA, 2, 1);
        }
        Self(self.0 | Self::READ_EMPTY_DATA)
    }

    /// Check if encryption/decryption finished interrupt is pending (`ENC_DEC_FINISHED`).
    #[inline]
    pub fn is_enc_dec_finished_int_pending(self) -> (r: bool)
        ensures
            r == flag(self.0, 1),
    {
        proof {
            lemma_read(self.0, Self::ENC_DEC_FINISHED, 1, 1);
        }
        self.0 & Self::ENC_DEC_FINISHED != 0
    }

    /// Clear encryption/decryption finished interrupt.
    #[inline]
    pub fn clear_enc_dec_finished_int(self) -> (r: Self)
        ensures
            r.0 == with_flag(self.0, 1, true),
            flag(r.0, 1),
            rest_is_kept(self.0, r.0, 1, 1),
    {
        proof {
            lemma_set(self.0, Self::ENC_DEC_FINISHED, 1, 1);
        }
        Self(self.0 | Self::ENC_DEC_FINISHED)
    }

    /// Check if the first group key generation interrupt is pending (`KEY_GEN`).
    #[inline]
    pub fn is_key_gen_int_pending(self) -> (r: bool)
        ensures
            r == flag(self.0, 0),
    {
        proof {
            lemma_read(self.0, Self::KEY_GEN, 0, 1);
        }
        self.0 & Self::KEY_GEN != 0
    }

    /// Clear the first group key generation interrupt.
    #[inline]
    pub fn clear_key_gen_int(self) -> (r: Self)
        ensures
            r.0 == with_flag(self.0, 0, true),
            flag(r.0, 0),
            rest_is_kept(self.0, r.0, 0, 1),
    {
        proof {
            lemma_set(self.0, Self::KEY_GEN, 0, 1);
        }
        Self(self.0 | Self::KEY_GEN)
    }
}

} // verus!
