//! XSPI register blocks and registers.
use crate::bits::{
    field, flag, lemma_clear, lemma_read, lemma_set, lemma_write, rest_is_kept, with_field,
    with_flag,
};
use vstd::pervasive::{runtime_assert, unreached};
use vstd::prelude::*;

verus! {

/// eXpanded Serial Peripheral Interface (XSPI) registers.
///
/// Each field holds the address of the register of that name, or of the first
/// of them where several stand in a row.
#[derive(Clone, Copy, Debug, PartialEq, Eq, Structural)]
pub struct RegisterBlock {
    /// XSPI control register (`XSPI_CTL`).
    pub ctrl: usize,
    /// XSPI clock register (`XSPI_CLK`).
    pub clk: usize,
    /// XSPI transfer control register (`XSPI_TCR`).
    pub trans_ctrl: usize,
    /// XSPI status register (`XSPI_STAS`).
    pub status: usize,
    /// XSPI chip select 0 control register (`XSPI_CS0_CTL`).
    pub cs0_ctrl: usize,
    /// XSPI chip select 0 dll control register (`XSPI_CS0_DCTL`).
    pub cs0_dll_ctrl: usize,
    /// XSPI chip select 1 control register (`XSPI_CS1_CTL`).
    pub cs1_ctrl: usize,
    /// XSPI chip select 1 dll control register (`XSPI_CS1_DCTL`).
    pub cs1_dll_ctrl: usize,
    /// XSPI interrupt enable register (`XSPI_IER`).
    pub int_en: usize,
    /// XSPI interrupt status register (`XSPI_ISR`).
    pub int_status: usize,
    /// XSPI fifo control register (`XSPI_FCR`).
    pub fifo_ctrl: usize,
    /// XSPI fifo status register (`XSPI_FSR`).
    pub fifo_status: usize,
    /// XSPI start register (`XSPI_START`).
    pub start: usize,
    /// XSPI address configuration register (`XSPI_ADDR`).
    pub addr: usize,
    /// XSPI format configuration register (`XSPI_FMR`).
    pub fmt_config: usize,
    /// XSPI burst type register (`XSPI_BTR`).
    pub burst_type: usize,
    /// XSPI read command control register (`XSPI_RCC`).
    pub rd_cmd_ctrl: usize,
    /// XSPI dma mode control register (`XSPI_NDMA_MODE_CTL`).
    pub dma_mode_ctrl: usize,
    /// XSPI timeout configuration register (`XSPI_TO`).
    pub timeout_config: usize,
    /// XSPI lock configuration register (`XSPI_LCKCR`).
    pub lock_config: usize,
    /// XSPI lookup table update register (`XSPI_LUT_UP`).
    pub lut_up: usize,
    /// XSPI channel 0 sequence register (`XSPI_CS0_SEQUENCE`).
    pub cs0_sequence: usize,
    /// XSPI channel 1 sequence register (`XSPI_CS1_SEQUENCE`).
    pub cs1_sequence: usize,
    /// XSPI io control register (`XSPI_IO_CTL`).
    pub io_ctrl: usize,
    /// XSPI chip select 0 io configuration 1 register (`XSPI_CS0_IOCFG1`).
    pub cs0_io_cfg1: usize,
    /// XSPI chip select 0 io configuration 2 register (`XSPI_CS0_IOCFG2`).
    pub cs0_io_cfg2: usize,
    /// XSPI chip select 0 io configuration 3 register (`XSPI_CS0_IOCFG3`).
    pub cs0_io_cfg3: usize,
    /// XSPI chip select 0 io configuration 4 register (`XSPI_CS0_IOCFG4`).
    pub cs0_io_cfg4: usize,
    /// XSPI chip select 1 io configuration 1 register (`XSPI_CS1_IOCFG1`).
    pub cs1_io_cfg1: usize,
    /// XSPI chip select 1 io configuration 2 register (`XSPI_CS1_IOCFG2`).
    pub cs1_io_cfg2: usize,
    /// XSPI chip select 1 io configuration 3 register (`XSPI_CS1_IOCFG3`).
    pub cs1_io_cfg3: usize,
    /// XSPI chip select 1 io configuration 4 register (`XSPI_CS1_IOCFG4`).
    pub cs1_io_cfg4: usize,
    /// XSPI training configuration register (`XSPI_TRAINING_CFG`).
    pub training_cfg: usize,
    /// XSPI training pattern register (`XSPI_TRAINING_PATTERN`).
    pub training_pattern: usize,
    /// XSPI lookup tables (`XSPI_LUTn`).
    pub luts: usize,
    /// XSPI transmit data register (`XSPI_TDR`).
    pub tx_data: usize,
    /// XSPI receive data register (`XSPI_RDR`).
    pub rx_data: usize,
    /// XSPI debug register (`XSPI_DEBUG`).
    pub debug: usize,
    /// XSPI debug select register (`XSPI_DEBUG_SEL`).
    pub debug_sel: usize,
    /// XSPI version register (`VERSION`).
    pub version: usize,
}

impl RegisterBlock {
    /// The number of bytes that the block takes up.
    pub const SIZE: usize = 0x1000;

    /// Whether the fields are the addresses of the registers of the block that
    /// starts at `base`.
    pub open spec fn is_at(self, base: usize) -> bool {
        &&& self.ctrl == base + 0x0
        &&& self.clk == base + 0x4
        &&& self.trans_ctrl == base + 0x8
        &&& self.status == base + 0xC
        &&& self.cs0_ctrl == base + 0x10
        &&& self.cs0_dll_ctrl == base + 0x14
        &&& self.cs1_ctrl == base + 0x18
        &&& self.cs1_dll_ctrl == base + 0x1C
        &&& self.int_en == base + 0x20
        &&& self.int_status == base + 0x24
        &&& self.fifo_ctrl == base + 0x28
        &&& self.fifo_status == base + 0x2C
        &&& self.start == base + 0x30
        &&& self.addr == base + 0x34
        &&& self.fmt_config == base + 0x38
        &&& self.burst_type == base + 0x40
        &&& self.rd_cmd_ctrl == base + 0x44
        &&& self.dma_mode_ctrl == base + 0x48
        &&& self.timeout_config == base + 0x50
        &&& self.lock_config == base + 0x54
        &&& self.lut_up == base + 0x58
        &&& self.cs0_sequence == base + 0x60
        &&& self.cs1_sequence == base + 0x64
        &&& self.io_ctrl == base + 0x68
        &&& self.cs0_io_cfg1 == base + 0x70
        &&& self.cs0_io_cfg2 == base + 0x74
        &&& self.cs0_io_cfg3 == base + 0x78
        &&& self.cs0_io_cfg4 == base + 0x7C
        &&& self.cs1_io_cfg1 == base + 0x80
        &&& self.cs1_io_cfg2 == base + 0x84
        &&& self.cs1_io_cfg3 == base + 0x88
        &&& self.cs1_io_cfg4 == base + 0x8C
        &&& self.training_cfg == base + 0x90
        &&& self.training_pattern == base + 0x94
        &&& self.luts == base + 0x100
        &&& self.tx_data == base + 0x200
        &&& self.rx_data == base + 0x300
        &&& self.debug == base + 0x400
        &&& self.debug_sel == base + 0x404
        &&& self.version == base + 0xFFC
    }

    /// The block that starts at `base`.
    ///
    /// The registers follow one another in the order of the memory map, four
    /// bytes each, with the reserved ranges between them.
    pub fn at(base: usize) -> (r: Self)
        requires
            base + Self::SIZE - 1 <= usize::MAX,
        ensures
            r.is_at(base),
    {
        let ctrl: usize = base;
        let clk: usize = ctrl + 4;
        let trans_ctrl: usize = clk + 4;
        let status: usize = trans_ctrl + 4;
        let cs0_ctrl: usize = status + 4;
        let cs0_dll_ctrl: usize = cs0_ctrl + 4;
        let cs1_ctrl: usize = cs0_dll_ctrl + 4;
        let cs1_dll_ctrl: usize = cs1_ctrl + 4;
        let int_en: usize = cs1_dll_ctrl + 4;
        let int_status: usize = int_en + 4;
        let fifo_ctrl: usize = int_status + 4;
        let fifo_status: usize = fifo_ctrl + 4;
        let start: usize = fifo_status + 4;
        let addr: usize = start + 4;
        let fmt_config: usize = addr + 4;
        let burst_type: usize = fmt_config + 4 + 0x4;
        let rd_cmd_ctrl: usize = burst_type + 4;
        let dma_mode_ctrl: usize = rd_cmd_ctrl + 4;
        let timeout_config: usize = dma_mode_ctrl + 4 + 0x4;
        let lock_config: usize = timeout_config + 4;
        let lut_up: usize = lock_config + 4;
        let cs0_sequence: usize = lut_up + 4 + 0x4;
        let cs1_sequence: usize = cs0_sequence + 4;
        let io_ctrl: usize = cs1_sequence + 4;
        let cs0_io_cfg1: usize = io_ctrl + 4 + 0x4;
        let cs0_io_cfg2: usize = cs0_io_cfg1 + 4;
        let cs0_io_cfg3: usize = cs0_io_cfg2 + 4;
        let cs0_io_cfg4: usize = cs0_io_cfg3 + 4;
        let cs1_io_cfg1: usize = cs0_io_cfg4 + 4;
        let cs1_io_cfg2: usize = cs1_io_cfg1 + 4;
        let cs1_io_cfg3: usize = cs1_io_cfg2 + 4;
        let cs1_io_cfg4: usize = cs1_io_cfg3 + 4;
        let training_cfg: usize = cs1_io_cfg4 + 4;
        let training_pattern: usize = training_cfg + 4;
        let luts: usize = training_pattern + 4 + 0x68;
        let tx_data: usize = luts + 32 * 4 + 0x80;
        let rx_data: usize = tx_data + 4 + 0xFC;
        let debug: usize = rx_data + 4 + 0xFC;
        let debug_sel: usize = debug + 4;
        let version: usize = debug_sel + 4 + 0xBF4;
        Self {
            ctrl,
            clk,
            trans_ctrl,
            status,
            cs0_ctrl,
            cs0_dll_ctrl,
            cs1_ctrl,
            cs1_dll_ctrl,
            int_en,
            int_status,
            fifo_ctrl,
            fifo_status,
            start,
            addr,
            fmt_config,
            burst_type,
            rd_cmd_ctrl,
            dma_mode_ctrl,
            timeout_config,
            lock_config,
            lut_up,
            cs0_sequence,
            cs1_sequence,
            io_ctrl,
            cs0_io_cfg1,
            cs0_io_cfg2,
            cs0_io_cfg3,
            cs0_io_cfg4,
            cs1_io_cfg1,
            cs1_io_cfg2,
            cs1_io_cfg3,
            cs1_io_cfg4,
            training_cfg,
            training_pattern,
            luts,
            tx_data,
            rx_data,
            debug,
            debug_sel,
            version,
        }
    }
}

/// Column address control.
#[derive(Clone, Copy, Debug, PartialEq, Eq, Structural)]
pub enum ColAddrCtrl {
    ByteAddr,
    WordAddr,
}

impl ColAddrCtrl {
    /// The number that stands for this value in its register field.
    pub open spec fn code(self) -> int {
        match self {
            Self::ByteAddr => 0,
            Self::WordAddr => 1,
        }
    }

    /// The value that `code` stands for. Every larger number is read as the
    /// last value.
    pub open spec fn decode(code: int) -> Self {
        if code == 0 {
            Self::ByteAddr
        } else {
            Self::WordAddr
        }
    }
}

/// Pin width control.
#[derive(Clone, Copy, Debug, PartialEq, Eq, Structural)]
pub enum PinWidth {
    X8,
    X16,
}

impl PinWidth {
    /// The number that stands for this value in its register field.
    pub open spec fn code(self) -> int {
        match self {
            Self::X8 => 0,
            Self::X16 => 1,
        }
    }

    /// The value that `code` stands for. Every larger number is read as the
    /// last value.
    pub open spec fn decode(code: int) -> Self {
        if code == 0 {
            Self::X8
        } else {
            Self::X16
        }
    }
}

/// Boundary size control.
#[derive(Clone, Copy, Debug, PartialEq, Eq, Structural)]
pub enum BoundarySize {
    Size2K,
    Size1K,
    /// A bit pattern to which the hardware gives no meaning.
    Reserved,
}

impl BoundarySize {
    /// The number that stands for this value in its register field. Of the
    /// numbers that stand for no other value, `Reserved` is written as the lowest.
    pub open spec fn code(self) -> int {
        match self {
            Self::Size2K => 0,
            Self::Size1K => 1,
            Self::Reserved => 2,
        }
    }

    /// The value that `code` stands for: `Reserved`, where it stands for none.
    pub open spec fn decode(code: int) -> Self {
        if code == 0 {
            Self::Size2K
        } else if code == 1 {
            Self::Size1K
        } else {
            Self::Reserved
        }
    }

    /// Whether `code` stands for a value other than `Reserved`.
    pub open spec fn is_code(code: int) -> bool {
        0 <= code <= 1
    }
}

/// XSPI mode selection.
#[derive(Clone, Copy, Debug, PartialEq, Eq, Structural)]
pub enum XspiMode {
    Xccela,
    Hyperbus,
    OPI,
    SPI,
}

impl XspiMode {
    /// The number that stands for this value in its register field.
    pub open spec fn code(self) -> int {
        match self {
            Self::Xccela => 0,
            Self::Hyperbus => 1,
            Self::OPI => 2,
            Self::SPI => 3,
        }
    }

    /// The value that `code` stands for. Every larger number is read as the
    /// last value.
    pub open spec fn decode(code: int) -> Self {
        if code == 0 {
            Self::Xccela
        } else if code == 1 {
            Self::Hyperbus
        } else if code == 2 {
            Self::OPI
        } else {
            Self::SPI
        }
    }
}

/// XSPI control register.
#[derive(Clone, Copy, Debug, PartialEq, Eq, PartialOrd, Ord, Hash, Structural)]
pub struct Control(pub u32);

impl Control {
    const AXI_ABITER_EN: u32 = 0x4_0000;
    const COLUMN_ADDRESS_CONTROL: u32 = 0x2_0000;
    const PIN_CTL: u32 = 0x1_0000;
    const BOUNDARY_CONTROL: u32 = 0x6000;
    const BOUNDARY_EN: u32 = 0x1000;
    const RESET_EN: u32 = 0x200;
    const RESET_LEVEL: u32 = 0x100;
    const TIMEOUT_EN: u32 = 0x80;
    const PARALLEL_MODE: u32 = 0x40;
    const XSPI_MODE_SEL: u32 = 0x30;
    const AXI_WRAP_BURST_CTL: u32 = 0x8;
    const XIP_EN: u32 = 0x4;
    const IDL_LOW_POWER_EN: u32 = 0x2;
    const XSPI_EN: u32 = 0x1;

    /// Enable axi arbiter (`AXI_ABITER_EN`).
    ///
    /// Respond to AXI read requests while delaying write requests.
    #[inline]
    pub fn enable_axi_arbiter(self) -> (r: Self)
        ensures
            r.0 == with_flag(self.0, 18, true),
            flag(r.0, 18),
            rest_is_kept(self.0, r.0, 18, 1),
    {
        proof {
            lemma_set(self.0, Self::AXI_ABITER_EN, 18, 1);
        }
        Self(self.0 | Self::AXI_ABITER_EN)
    }

    /// Disable axi arbiter.
    #[inline]
    pub fn disable_axi_arbiter(self) -> (r: Self)
        ensures
            r.0 == with_flag(self.0, 18, false),
            !flag(r.0, 18),
            rest_is_kept(self.0, r.0, 18, 1),
    {
        proof {
            lemma_clear(self.0, Self::AXI_ABITER_EN, 18, 1);
        }
        Self(self.0 & !Self::AXI_ABITER_EN)
    }

    /// Check if axi arbiter is enabled.
    #[inline]
    pub fn is_axi_arbiter_enabled(self) -> (r: bool)
        ensures
            r == flag(self.0, 18),
    {
        proof {
            lemma_read(self.0, Self::AXI_ABITER_EN, 18, 1);
        }
        self.0 & Self::AXI_ABITER_EN != 0
    }

    /// Set column address control (`COLUMN_ADDRESS_CONTROL`).
    #[inline]
    pub fn set_col_addr_ctrl(self, ctrl: ColAddrCtrl) -> (r: Self)
        ensures
            r.0 == with_field(self.0, 17, 1, ctrl.code()),
            field(r.0, 17, 1) == ctrl.code(),
            ColAddrCtrl::decode(field(r.0, 17, 1)) == ctrl,
            rest_is_kept(self.0, r.0, 17, 1),
    {
        proof {
            lemma_write(self.0, Self::COLUMN_ADDRESS_CONTROL, 17, 1, ctrl as u32);
        }
        Self(
            (self.0 & !Self::COLUMN_ADDRESS_CONTROL)
                | (Self::COLUMN_ADDRESS_CONTROL & ((ctrl as u32) << 17)),
        )
    }

    /// Get column address control.
    #[inline]
    pub fn col_addr_ctrl(self) -> (r: ColAddrCtrl)
        ensures
            r == ColAddrCtrl::decode(field(self.0, 17, 1)),
            r.code() == field(self.0, 17, 1),
    {
        proof {
            lemma_read(self.0, Self::COLUMN_ADDRESS_CONTROL, 17, 1);
        }
        match (self.0 & Self::COLUMN_ADDRESS_CONTROL) >> 17 {
            0 => ColAddrCtrl::ByteAddr,
            1 => ColAddrCtrl::WordAddr,
            _ => unreached(),
        }
    }

    /// Set pin width control (`PIN_CTL`).
    ///
    /// When pin width is set to x16, parallel mode must be enabled.
    /// At this time, DQ[7:0] of CS0 corresponds to x16 DQ[7:0], and DQ[7:0] of CS1 corresponds to x16 DQ[15:8].
    #[inline]
    pub fn set_pin_width(self, width: PinWidth) -> (r: Self)
        ensures
            r.0 == with_field(self.0, 16, 1, width.code()),
            field(r.0, 16, 1) == width.code(),
            PinWidth::decode(field(r.0, 16, 1)) == width,
            rest_is_kept(self.0, r.0, 16, 1),
    {
        proof {
            lemma_write(self.0, Self::PIN_CTL, 16, 1, width as u32);
        }
        Self((self.0 & !Self::PIN_CTL) | (Self::PIN_CTL & ((width as u32) << 16)))
    }

    /// Get pin width control.
    #[inline]
    pub fn pin_width(self) -> (r: PinWidth)
        ensures
            r == PinWidth::decode(field(self.0, 16, 1)),
            r.code() == field(self.0, 16, 1),
    {
        proof {
            lemma_read(self.0, Self::PIN_CTL, 16, 1);
        }
        match (self.0 & Self::PIN_CTL) >> 16 {
            0 => PinWidth::X8,
            1 => PinWidth::X16,
            _ => unreached(),
        }
    }

    /// Set boundary size control (`BOUNDARY_CONTROL`).
    ///
    /// Boundary control must be enabled for this setting to take effect.
    #[inline]
    pub fn set_boundary_size(self, size: BoundarySize) -> (r: Self)
        ensures
            r.0 == with_field(self.0, 13, 2, size.code()),
            field(r.0, 13, 2) == size.code(),
            BoundarySize::decode(field(r.0, 13, 2)) == size,
            rest_is_kept(self.0, r.0, 13, 2),
    {
        proof {
            lemma_write(self.0, Self::BOUNDARY_CONTROL, 13, 2, size as u32);
        }
        Self((self.0 & !Self::BOUNDARY_CONTROL) | (Self::BOUNDARY_CONTROL & ((size as u32) << 13)))
    }

    /// Get boundary size control.
    #[inline]
    pub fn boundary_size(self) -> (r: BoundarySize)
        ensures
            r == BoundarySize::decode(field(self.0, 13, 2)),
            BoundarySize::is_code(field(self.0, 13, 2)) ==> r.code() == field(self.0, 13, 2),
    {
        proof {
            lemma_read(self.0, Self::BOUNDARY_CONTROL, 13, 2);
        }
        match (self.0 & Self::BOUNDARY_CONTROL) >> 13 {
            0 => BoundarySize::Size2K,
            1 => BoundarySize::Size1K,
            _ => BoundarySize::Reserved,
        }
    }

    /// Enable boundary control (`BOUNDARY_EN`).
    #[inline]
    pub fn enable_boundary(self) -> (r: Self)
        ensures
            r.0 == with_flag(self.0, 12, true),
            flag(r.0, 12),
            rest_is_kept(self.0, r.0, 12, 1),
    {
        proof {
            lemma_set(self.0, Self::BOUNDARY_EN, 12, 1);
        }
        Self(self.0 | Self::BOUNDARY_EN)
    }

    /// Disable boundary control.
    #[inline]
    pub fn disable_boundary(self) -> (r: Self)
        ensures
            r.0 == with_flag(self.0, 12, false),
            !flag(r.0, 12),
            rest_is_kept(self.0, r.0, 12, 1),
    {
        proof {
            lemma_clear(self.0, Self::BOUNDARY_EN, 12, 1);
        }
        Self(self.0 & !Self::BOUNDARY_EN)
    }

    /// Check if boundary control is enabled.
    #[inline]
    pub fn is_boundary_enabled(self) -> (r: bool)
        ensures
            r == flag(self.0, 12),
    {
        proof {
            lemma_read(self.0, Self::BOUNDARY_EN, 12, 1);
        }
        self.0 & Self::BOUNDARY_EN != 0
    }

    /// Enable reset function (`RESET_EN`).
    ///
    /// The DM pin functions as the RESET pin, with the `RESET_LEVEL` controlling the voltage level.
    #[inline]
    pub fn enable_reset(self) -> (r: Self)
        ensures
            r.0 == with_flag(self.0, 9, true),
            flag(r.0, 9),
            rest_is_kept(self.0, r.0, 9, 1),
    {
        proof {
            lemma_set(self.0, Self::RESET_EN, 9, 1);
        }
        Self(self.0 | Self::RESET_EN)
    }

    /// Disable reset function.
    #[inline]
    pub fn disable_reset(self) -> (r: Self)
        ensures
            r.0 == with_flag(self.0, 9, false),
            !flag(r.0, 9),
            rest_is_kept(self.0, r.0, 9, 1),
    {
        proof {
            lemma_clear(self.0, Self::RESET_EN, 9, 1);
        }
        Self(self.0 & !Self::RESET_EN)
    }

    /// Check if reset function is enabled.
    #[inline]
    pub fn is_reset_enabled(self) -> (r: bool)
        ensures
            r == flag(self.0, 9),
    {
        proof {
            lemma_read(self.0, Self::RESET_EN, 9, 1);
        }
        self.0 & Self::RESET_EN != 0
    }

    /// Set reset level (`RESET_LEVEL`).
    #[inline]
    pub fn set_reset_level(self, high: bool) -> (r: Self)
        ensures
            r.0 == with_flag(self.0, 8, high),
            flag(r.0, 8) == high,
            rest_is_kept(self.0, r.0, 8, 1),
    {
        proof {
            lemma_set(self.0, Self::RESET_LEVEL, 8, 1);
            lemma_clear(self.0, Self::RESET_LEVEL, 8, 1);
        }
        if high {
            Self(self.0 | Self::RESET_LEVEL)
        } else {
            Self(self.0 & !Self::RESET_LEVEL)
        }
    }

    /// Get reset level.
    #[inline]
    pub fn reset_level(self) -> (r: bool)
        ensures
            r == flag(self.0, 8),
    {
        proof {
            lemma_read(self.0, Self::RESET_LEVEL, 8, 1);
        }
        self.0 & Self::RESET_LEVEL != 0
    }

    /// Enable timeout (`TIMEOUT_EN`).
    #[inline]
    pub fn enable_timeout(self) -> (r: Self)
        ensures
            r.0 == with_flag(self.0, 7, true),
            flag(r.0, 7),
            rest_is_kept(self.0, r.0, 7, 1),
    {
        proof {
            lemma_set(self.0, Self::TIMEOUT_EN, 7, 1);
        }
        Self(self.0 | Self::TIMEOUT_EN)
    }

    /// Disable timeout.
    #[inline]
    pub fn disable_timeout(self) -> (r: Self)
        ensures
            r.0 == with_flag(self.0, 7, false),
            !flag(r.0, 7),
            rest_is_kept(self.0, r.0, 7, 1),
    {
        proof {
            lemma_clear(self.0, Self::TIMEOUT_EN, 7, 1);
        }
        Self(self.0 & !Self::TIMEOUT_EN)
    }

    /// Check if timeout is enabled.
    #[inline]
    pub fn is_timeout_enabled(self) -> (r: bool)
        ensures
            r == flag(self.0, 7),
    {
        proof {
            lemma_read(self.0, Self::TIMEOUT_EN, 7, 1);
        }
        self.0 & Self::TIMEOUT_EN != 0
    }

    /// Enable parallel mode (`PARALLEL_MODE`).
    #[inline]
    pub fn enable_parallel_mode(self) -> (r: Self)
        ensures
            r.0 == with_flag(self.0, 6, true),
            flag(r.0, 6),
            rest_is_kept(self.0, r.0, 6, 1),
    {
        proof {
            lemma_set(self.0, Self::PARALLEL_MODE, 6, 1);
        }
        Self(self.0 | Self::PARALLEL_MODE)
    }

    /// Disable parallel mode.
    #[inline]
    pub fn disable_parallel_mode(self) -> (r: Self)
        ensures
            r.0 == with_flag(self.0, 6, false),
            !flag(r.0, 6),
            rest_is_kept(self.0, r.0, 6, 1),
    {
        proof {
            lemma_clear(self.0, Self::PARALLEL_MODE, 6, 1);
        }
        Self(self.0 & !Self::PARALLEL_MODE)
    }

    /// Check if parallel mode is enabled.
    #[inline]
    pub fn is_parallel_mode_enabled(self) -> (r: bool)
        ensures
            r == flag(self.0, 6),
    {
        proof {
            lemma_read(self.0, Self::PARALLEL_MODE, 6, 1);
        }
        self.0 & Self::PARALLEL_MODE != 0
    }

    /// Set xspi mode selection (`XSPI_MODE_SEL`).
    #[inline]
    pub fn set_xspi_mode(self, mode: XspiMode) -> (r: Self)
        ensures
            r.0 == with_field(self.0, 4, 2, mode.code()),
            field(r.0, 4, 2) == mode.code(),
            XspiMode::decode(field(r.0, 4, 2)) == mode,
            rest_is_kept(self.0, r.0, 4, 2),
    {
        proof {
            lemma_write(self.0, Self::XSPI_MODE_SEL, 4, 2, mode as u32);
        }
        Self((self.0 & !Self::XSPI_MODE_SEL) | (Self::XSPI_MODE_SEL & ((mode as u32) << 4)))
    }

    /// Get xspi mode selection.
    #[inline]
    pub fn xspi_mode(self) -> (r: XspiMode)
        ensures
            r == XspiMode::decode(field(self.0, 4, 2)),
            r.code() == field(self.0, 4, 2),
    {
        proof {
            lemma_read(self.0, Self::XSPI_MODE_SEL, 4, 2);
        }
        match (self.0 & Self::XSPI_MODE_SEL) >> 4 {
            0 => XspiMode::Xccela,
            1 => XspiMode::Hyperbus,
            2 => XspiMode::OPI,
            3 => XspiMode::SPI,
            _ => unreached(),
        }
    }

    /// Set axi wrap burst control (`AXI_WRAP_BURST_CTL`).
    ///
    /// - 0: wrap burst.
    /// - 1: wrap burst is split into linear burst output.
    ///
    /// Wrap burst only supports wrap4.
    #[inline]
    pub fn set_axi_wrap_burst_ctrl(self, set: bool) -> (r: Self)
        ensures
            r.0 == with_flag(self.0, 3, set),
            flag(r.0, 3) == set,
            rest_is_kept(self.0, r.0, 3, 1),
    {
        proof {
            lemma_set(self.0, Self::AXI_WRAP_BURST_CTL, 3, 1);
            lemma_clear(self.0, Self::AXI_WRAP_BURST_CTL, 3, 1);
        }
        if set {
            Self(self.0 | Self::AXI_WRAP_BURST_CTL)
        } else {
            Self(self.0 & !Self::AXI_WRAP_BURST_CTL)
        }
    }

    /// Get axi wrap burst control.
    #[inline]
    pub fn axi_wrap_burst_ctrl(self) -> (r: bool)
        ensures
            r == flag(self.0, 3),
    {
        proof {
            lemma_read(self.0, Self::AXI_WRAP_BURST_CTL, 3, 1);
        }
        self.0 & Self::AXI_WRAP_BURST_CTL != 0
    }

    /// Enable xip mode (`XIP_EN`).
    ///
    /// Used to control the AXI access channel.
    /// If there is AXI access, the AXI bus must not stall at this time.
    #[inline]
    pub fn enable_xip(self) -> (r: Self)
        ensures
            r.0 == with_flag(self.0, 2, true),
            flag(r.0, 2),
            rest_is_kept(self.0, r.0, 2, 1),
    {
        proof {
            lemma_set(self.0, Self::XIP_EN, 2, 1);
        }
        Self(self.0 | Self::XIP_EN)
    }

    /// Disable xip mode.
    #[inline]
    pub fn disable_xip(self) -> (r: Self)
        ensures
            r.0 == with_flag(self.0, 2, false),
            !flag(r.0, 2),
            rest_is_kept(self.0, r.0, 2, 1),
    {
        proof {
            lemma_clear(self.0, Self::XIP_EN, 2, 1);
        }
        Self(self.0 & !Self::XIP_EN)
    }

    /// Check if xip mode is enabled.
    #[inline]
    pub fn is_xip_enabled(self) -> (r: bool)
        ensures
            r == flag(self.0, 2),
    {
        proof {
            lemma_read(self.0, Self::XIP_EN, 2, 1);
        }
        self.0 & Self::XIP_EN != 0
    }

    /// Enable idle low power mode (`IDL_LOW_POWER_EN`).
    #[inline]
    pub fn enable_idle_lp(self) -> (r: Self)
        ensures
            r.0 == with_flag(self.0, 1, true),
            flag(r.0, 1),
            rest_is_kept(self.0, r.0, 1, 1),
    {
        proof {
            lemma_set(self.0, Self::IDL_LOW_POWER_EN, 1, 1);
        }
        Self(self.0 | Self::IDL_LOW_POWER_EN)
    }

    /// Disable idle low power mode.
    #[inline]
    pub fn disable_idle_lp(self) -> (r: Self)
        ensures
            r.0 == with_flag(self.0, 1, false),
            !flag(r.0, 1),
            rest_is_kept(self.0, r.0, 1, 1),
    {
        proof {
            lemma_clear(self.0, Self::IDL_LOW_POWER_EN, 1, 1);
        }
        Self(self.0 & !Self::IDL_LOW_POWER_EN)
    }

    /// Check if idle low power mode is enabled.
    #[inline]
    pub fn is_idle_lp_enabled(self) -> (r: bool)
        ensures
            r == flag(self.0, 1),
    {
        proof {
            lemma_read(self.0, Self::IDL_LOW_POWER_EN, 1, 1);
        }
        self.0 & Self::IDL_LOW_POWER_EN != 0
    }

    /// Enable xspi module (`XSPI_EN`).
    #[inline]
    pub fn enable_xspi(self) -> (r: Self)
        ensures
            r.0 == with_flag(self.0, 0, true),
            flag(r.0, 0),
            rest_is_kept(self.0, r.0, 0, 1),
    {
        proof {
            lemma_set(self.0, Self::XSPI_EN, 0, 1);
        }
        Self(self.0 | Self::XSPI_EN)
    }

    /// Disable xspi module.
    #[inline]
    pub fn disable_xspi(self) -> (r: Self)
        ensures
            r.0 == with_flag(self.0, 0, false),
            !flag(r.0, 0),
            rest_is_kept(self.0, r.0, 0, 1),
    {
        proof {
            lemma_clear(self.0, Self::XSPI_EN, 0, 1);
        }
        Self(self.0 & !Self::XSPI_EN)
    }

    /// Check if xspi module is enabled.
    #[inline]
    pub fn is_xspi_enabled(self) -> (r: bool)
        ensures
            r == flag(self.0, 0),
    {
        proof {
            lemma_read(self.0, Self::XSPI_EN, 0, 1);
        }
        self.0 & Self::XSPI_EN != 0
    }
}

/// Clock divider selection.
#[derive(Clone, Copy, Debug, PartialEq, Eq, Structural)]
pub enum ClockDivider {
    Divider1,
    Divider2,
}

impl ClockDivider {
    /// The number that stands for this value in its register field.
    pub open spec fn code(self) -> int {
        match self {
            Self::Divider1 => 0,
            Self::Divider2 => 1,
        }
    }

    /// The value that `code` stands for. Every larger number is read as the
    /// last value.
    pub open spec fn decode(code: int) -> Self {
        if code == 0 {
            Self::Divider1
        } else {
            Self::Divider2
        }
    }
}

/// XSPI clock register.
#[derive(Clone, Copy, Debug, PartialEq, Eq, PartialOrd, Ord, Hash, Structural)]
pub struct Clock(pub u32);

impl Clock {
    const CLK_SEL: u32 = 0x1000;
    const CDR1_M: u32 = 0xF00;
    const CDR2_N: u32 = 0xFF;

    /// Set clock divider selection (`CLK_SEL`).
    #[inline]
    pub fn set_clock_divider(self, divider: ClockDivider) -> (r: Self)
        ensures
            r.0 == with_field(self.0, 12, 1, divider.code()),
            field(r.0, 12, 1) == divider.code(),
            ClockDivider::decode(field(r.0, 12, 1)) == divider,
            rest_is_kept(self.0, r.0, 12, 1),
    {
        proof {
            lemma_write(self.0, Self::CLK_SEL, 12, 1, divider as u32);
        }
        Self((self.0 & !Self::CLK_SEL) | (Self::CLK_SEL & ((divider as u32) << 12)))
    }

    /// Get clock divider selection.
    #[inline]
    pub fn clock_divider(self) -> (r: ClockDivider)
        ensures
            r == ClockDivider::decode(field(self.0, 12, 1)),
            r.code() == field(self.0, 12, 1),
    {
        proof {
            lemma_read(self.0, Self::CLK_SEL, 12, 1);
        }
        match (self.0 & Self::CLK_SEL) >> 12 {
            0 => ClockDivider::Divider1,
            1 => ClockDivider::Divider2,
            _ => unreached(),
        }
    }

    /// Set clock divider 1 (`CDR1_M`).
    ///
    /// SPI_CLK = source clock / (2^`CDR1_M`).
    ///
    /// Aborts if `val` is not below `0x10`.
    #[inline]
    pub fn set_clk_div1(self, val: u8) -> (r: Self)
        requires
            val < 0x10,
        ensures
            r.0 == with_field(self.0, 8, 4, val as int),
            field(r.0, 8, 4) == val,
            rest_is_kept(self.0, r.0, 8, 4),
    {
        runtime_assert(val < 0x10);
        proof {
            lemma_write(self.0, Self::CDR1_M, 8, 4, val as u32);
        }
        Self((self.0 & !Self::CDR1_M) | (Self::CDR1_M & ((val as u32) << 8)))
    }

    /// Get clock divider 1.
    #[inline]
    pub fn clk_div1(self) -> (r: u8)
        ensures
            r == field(self.0, 8, 4),
    {
        proof {
            lemma_read(self.0, Self::CDR1_M, 8, 4);
        }
        ((self.0 & Self::CDR1_M) >> 8) as u8
    }

    /// Set clock divider 2 (`CDR2_N`).
    ///
    /// SPI_CLK = source clock / (2 * (`CDR2_N` + 1)).
    #[inline]
    pub fn set_clk_div2(self, val: u8) -> (r: Self)
        ensures
            r.0 == with_field(self.0, 0, 8, val as int),
            field(r.0, 0, 8) == val,
            rest_is_kept(self.0, r.0, 0, 8),
    {
        proof {
            lemma_write(self.0, Self::CDR2_N, 0, 8, val as u32);
        }
        Self((self.0 & !Self::CDR2_N) | (Self::CDR2_N & (val as u32)))
    }

    /// Get clock divider 2.
    #[inline]
    pub fn clk_div2(self) -> (r: u8)
        ensures
            r == field(self.0, 0, 8),
    {
        proof {
            lemma_read(self.0, Self::CDR2_N, 0, 8);
        }
        (self.0 & Self::CDR2_N) as u8
    }
}

/// DQS clock gating control.
#[derive(Clone, Copy, Debug, PartialEq, Eq, Structural)]
pub enum DqsClkGating {
    Normal,
    Before,
    Delay,
    Bypass,
    /// A bit pattern to which the hardware gives no meaning.
    Reserved,
}

impl DqsClkGating {
    /// The number that stands for this value in its register field. Of the
    /// numbers that stand for no other value, `Reserved` is written as the lowest.
    pub open spec fn code(self) -> int {
        match self {
            Self::Normal => 0,
            Self::Before => 1,
            Self::Delay => 2,
            Self::Bypass => 3,
            Self::Reserved => 4,
        }
    }

    /// The value that `code` stands for: `Reserved`, where it stands for none.
    pub open spec fn decode(code: int) -> Self {
        if code == 0 {
            Self::Normal
        } else if code == 1 {
            Self::Before
        } else if code == 2 {
            Self::Delay
        } else if code == 3 {
            Self::Bypass
        } else {
            Self::Reserved
        }
    }

    /// Whether `code` stands for a value other than `Reserved`.
    pub open spec fn is_code(code: int) -> bool {
        0 <= code <= 3
    }
}

/// Dummy cycles data fill type.
#[derive(Clone, Copy, Debug, PartialEq, Eq, Structural)]
pub enum DummyType {
    Fill0,
    Fill1,
}

impl DummyType {
    /// The number that stands for this value in its register field.
    pub open spec fn code(self) -> int {
        match self {
            Self::Fill0 => 0,
            Self::Fill1 => 1,
        }
    }
}

/// CS level.
#[derive(Clone, Copy, Debug, PartialEq, Eq, Structural)]
pub enum CsLevel {
    Low,
    High,
}

impl CsLevel {
    /// The number that stands for this value in its register field.
    pub open spec fn code(self) -> int {
        match self {
            Self::Low => 0,
            Self::High => 1,
        }
    }

    /// The value that `code` stands for. Every larger number is read as the
    /// last value.
    pub open spec fn decode(code: int) -> Self {
        if code == 0 {
            Self::Low
        } else {
            Self::High
        }
    }
}

/// CS control mode.
#[derive(Clone, Copy, Debug, PartialEq, Eq, Structural)]
pub enum CsCtrlMode {
    SpiController,
    Software,
}

impl CsCtrlMode {
    /// The number that stands for this value in its register field.
    pub open spec fn code(self) -> int {
        match self {
            Self::SpiController => 0,
            Self::Software => 1,
        }
    }

    /// The value that `code` stands for. Every larger number is read as the
    /// last value.
    pub open spec fn decode(code: int) -> Self {
        if code == 0 {
            Self::SpiController
        } else {
            Self::Software
        }
    }
}

/// CS selection.
#[derive(Clone, Copy, Debug, PartialEq, Eq, Structural)]
pub enum CsSel {
    Cs0,
    Cs1,
}

impl CsSel {
    /// The number that stands for this value in its register field.
    pub open spec fn code(self) -> int {
        match self {
            Self::Cs0 => 0,
            Self::Cs1 => 1,
        }
    }

    /// The value that `code` stands for. Every larger number is read as the
    /// last value.
    pub open spec fn decode(code: int) -> Self {
        if code == 0 {
            Self::Cs0
        } else {
            Self::Cs1
        }
    }
}

/// CS polarity.
#[derive(Clone, Copy, Debug, PartialEq, Eq, Structural)]
pub enum CsPolarity {
    /// CS is high when idle.
    IdleHigh,
    /// CS is low when idle.
    IdleLow,
}

impl CsPolarity {
    /// The number that stands for this value in its register field.
    pub open spec fn code(self) -> int {
        match self {
            Self::IdleHigh => 0,
            Self::IdleLow => 1,
        }
    }

    /// The value that `code` stands for. Every larger number is read as the
    /// last value.
    pub open spec fn decode(code: int) -> Self {
        if code == 0 {
            Self::IdleHigh
        } else {
            Self::IdleLow
        }
    }
}

/// Dummy cycles data fill type.
#[derive(Clone, Copy, Debug, PartialEq, Eq, Structural)]
pub enum DummyFillType {
    Fill0,
    Fill1,
}

impl DummyFillType {
    /// The number that stands for this value in its register field.
    pub open spec fn code(self) -> int {
        match self {
            Self::Fill0 => 0,
            Self::Fill1 => 1,
        }
    }

    /// The value that `code` stands for. Every larger number is read as the
    /// last value.
    pub open spec fn decode(code: int) -> Self {
        if code == 0 {
            Self::Fill0
        } else {
            Self::Fill1
        }
    }
}

/// Level of the serial clock between transfers.
#[derive(Clone, Copy, Debug, PartialEq, Eq, Structural)]
pub enum Polarity {
    /// The clock rests low.
    IdleLow,
    /// The clock rests high.
    IdleHigh,
}

impl Polarity {
    /// The number that stands for this value in its register field.
    pub open spec fn code(self) -> int {
        match self {
            Self::IdleLow => 0,
            Self::IdleHigh => 1,
        }
    }

    /// The value that `code` stands for. Every larger number is read as the
    /// last value.
    pub open spec fn decode(code: int) -> Self {
        if code == 0 {
            Self::IdleLow
        } else {
            Self::IdleHigh
        }
    }
}

/// Clock edge on which the data lines are sampled.
#[derive(Clone, Copy, Debug, PartialEq, Eq, Structural)]
pub enum Phase {
    /// The edge on which the clock leaves its rest level.
    CaptureOnFirstTransition,
    /// The edge on which the clock returns to its rest level.
    CaptureOnSecondTransition,
}

impl Phase {
    /// The number that stands for this value in its register field.
    pub open spec fn code(self) -> int {
        match self {
            Self::CaptureOnFirstTransition => 0,
            Self::CaptureOnSecondTransition => 1,
        }
    }

    /// The value that `code` stands for. Every larger number is read as the
    /// last value.
    pub open spec fn decode(code: int) -> Self {
        if code == 0 {
            Self::CaptureOnFirstTransition
        } else {
            Self::CaptureOnSecondTransition
        }
    }
}

/// XSPI transfer control register.
#[derive(Clone, Copy, Debug, PartialEq, Eq, PartialOrd, Ord, Hash, Structural)]
pub struct TransControl(pub u32);

impl TransControl {
    const OPI_HOLD_EX: u32 = 0xF000_0000;
    const DQS_CLK_GATING_CTL: u32 = 0xF00_0000;
    const CS_RD_HOLD_CTL: u32 = 0xF0_0000;
    const CS_WR_HOLD_CTL: u32 = 0xF_0000;
    const CS_SETUP_CTL: u32 = 0xF000;
    const JUMP_INS_EN: u32 = 0x800;
    const DUMMY_TYPE: u32 = 0x100;
    const CS_LEVEL: u32 = 0x80;
    const CS_OWNER: u32 = 0x40;
    const CS_SEL: u32 = 0x10;
    const CS_POL: u32 = 0x4;
    const CPOL: u32 = 0x2;
    const CPHA: u32 = 0x1;

    /// Set opi hold extension (`OPI_HOLD_EX`).
    ///
    /// Aborts if `val` is not below `0x10`.
    #[inline]
    pub fn set_opi_hold_ex(self, val: u8) -> (r: Self)
        requires
            val < 0x10,
        ensures
            r.0 == with_field(self.0, 28, 4, val as int),
            field(r.0, 28, 4) == val,
            rest_is_kept(self.0, r.0, 28, 4),
    {
        runtime_assert(val < 0x10);
        proof {
            lemma_write(self.0, Self::OPI_HOLD_EX, 28, 4, val as u32);
        }
        Self((self.0 & !Self::OPI_HOLD_EX) | (Self::OPI_HOLD_EX & ((val as u32) << 28)))
    }

    /// Get opi hold extension.
    #[inline]
    pub fn opi_hold_ex(self) -> (r: u8)
        ensures
            r == field(self.0, 28, 4),
    {
        proof {
            lemma_read(self.0, Self::OPI_HOLD_EX, 28, 4);
        }
        ((self.0 & Self::OPI_HOLD_EX) >> 28) as u8
    }

    /// Set dqs clock gating control (`DQS_CLK_GATING_CTL`).
    #[inline]
    pub fn set_dqs_clk_gating(self, gating: DqsClkGating) -> (r: Self)
        ensures
            r.0 == with_field(self.0, 24, 4, gating.code()),
            field(r.0, 24, 4) == gating.code(),
            DqsClkGating::decode(field(r.0, 24, 4)) == gating,
            rest_is_kept(self.0, r.0, 24, 4),
    {
        proof {
            lemma_write(self.0, Self::DQS_CLK_GATING_CTL, 24, 4, gating as u32);
        }
        Self(
            (self.0 & !Self::DQS_CLK_GATING_CTL)
                | (Self::DQS_CLK_GATING_CTL & ((gating as u32) << 24)),
        )
    }

    /// Get dqs clock gating control.
    #[inline]
    pub fn dqs_clk_gating(self) -> (r: DqsClkGating)
        ensures
            r == DqsClkGating::decode(field(self.0, 24, 4)),
            DqsClkGating::is_code(field(self.0, 24, 4)) ==> r.code() == field(self.0, 24, 4),
    {
        proof {
            lemma_read(self.0, Self::DQS_CLK_GATING_CTL, 24, 4);
        }
        match (self.0 & Self::DQS_CLK_GATING_CTL) >> 24 {
            0 => DqsClkGating::Normal,
            1 => DqsClkGating::Before,
            2 => DqsClkGating::Delay,
            3 => DqsClkGating::Bypass,
            _ => DqsClkGating::Reserved,
        }
    }

    /// Set cs read hold control (`CS_RD_HOLD_CTL`).
    ///
    /// CS read hold time indicates the minimum time CS must remain invalid between two command operations.
    /// N represents n cycles.
    /// Cannot be configured when `XSPI_BUSY` is 1.
    ///
    /// Aborts if `val` is not below `0x10`.
    #[inline]
    pub fn set_cs_rd_hold(self, val: u8) -> (r: Self)
        requires
            val < 0x10,
        ensures
            r.0 == with_field(self.0, 20, 4, val as int),
            field(r.0, 20, 4) == val,
            rest_is_kept(self.0, r.0, 20, 4),
    {
        runtime_assert(val < 0x10);
        proof {
            lemma_write(self.0, Self::CS_RD_HOLD_CTL, 20, 4, val as u32);
        }
        Self((self.0 & !Self::CS_RD_HOLD_CTL) | (Self::CS_RD_HOLD_CTL & ((val as u32) << 20)))
    }

    /// Get cs read hold control.
    #[inline]
    pub fn cs_rd_hold(self) -> (r: u8)
        ensures
            r == field(self.0, 20, 4),
    {
        proof {
            lemma_read(self.0, Self::CS_RD_HOLD_CTL, 20, 4);
        }
        ((self.0 & Self::CS_RD_HOLD_CTL) >> 20) as u8
    }

    /// Set cs write hold control (`CS_WR_HOLD_CTL`).
    ///
    /// CS write hold time indicates the minimum time CS must remain invalid between two command operations.
    /// N represents n cycles.
    /// Cannot be configured when `XSPI_BUSY` is 1.
    ///
    /// Aborts if `val` is not below `0x10`.
    #[inline]
    pub fn set_cs_wr_hold(self, val: u8) -> (r: Self)
        requires
            val < 0x10,
        ensures
            r.0 == with_field(self.0, 16, 4, val as int),
            field(r.0, 16, 4) == val,
            rest_is_kept(self.0, r.0, 16, 4),
    {
        runtime_assert(val < 0x10);
        proof {
            lemma_write(self.0, Self::CS_WR_HOLD_CTL, 16, 4, val as u32);
        }
        Self((self.0 & !Self::CS_WR_HOLD_CTL) | (Self::CS_WR_HOLD_CTL & ((val as u32) << 16)))
    }

    /// Get cs write hold control.
    #[inline]
    pub fn cs_wr_hold(self) -> (r: u8)
        ensures
            r == field(self.0, 16, 4),
    {
        proof {
            lemma_read(self.0, Self::CS_WR_HOLD_CTL, 16, 4);
        }
        ((self.0 & Self::CS_WR_HOLD_CTL) >> 16) as u8
    }

    /// Set cs setup control (`CS_SETUP_CTL`).
    ///
    /// After chip select is active, the setup time between data and CLK indicates when to output valid data.
    /// 0 and 1 represent 1 cycle, n (n>1) represents n XSPI_CLK cycles, and so on.
    /// Cannot be configured when `XSPI_BUSY` is 1.
    ///
    /// Aborts if `val` is not below `0x10`.
    #[inline]
    pub fn set_cs_setup(self, val: u8) -> (r: Self)
        requires
            val < 0x10,
        ensures
            r.0 == with_field(self.0, 12, 4, val as int),
            field(r.0, 12, 4) == val,
            rest_is_kept(self.0, r.0, 12, 4),
    {
        runtime_assert(val < 0x10);
        proof {
            lemma_write(self.0, Self::CS_SETUP_CTL, 12, 4, val as u32);
        }
        Self((self.0 & !Self::CS_SETUP_CTL) | (Self::CS_SETUP_CTL & ((val as u32) << 12)))
    }

    /// Get cs setup control.
    #[inline]
    pub fn cs_setup(self) -> (r: u8)
        ensures
            r == field(self.0, 12, 4),
    {
        proof {
            lemma_read(self.0, Self::CS_SETUP_CTL, 12, 4);
        }
        ((self.0 & Self::CS_SETUP_CTL) >> 12) as u8
    }

    /// Enable jump instruction (`JUMP_INS_EN`).
    ///
    /// After XIP mode is enabled, for example, in NORFLASH continuous read data application scenarios,
    /// the LUT-defined JUMP_INS instruction can be used.
    #[inline]
    pub fn enable_jump_ins(self) -> (r: Self)
        ensures
            r.0 == with_flag(self.0, 11, true),
            flag(r.0, 11),
            rest_is_kept(self.0, r.0, 11, 1),
    {
        proof {
            lemma_set(self.0, Self::JUMP_INS_EN, 11, 1);
        }
        Self(self.0 | Self::JUMP_INS_EN)
    }

    /// Disable jump instruction.
    #[inline]
    pub fn disable_jump_ins(self) -> (r: Self)
        ensures
            r.0 == with_flag(self.0, 11, false),
            !flag(r.0, 11),
            rest_is_kept(self.0, r.0, 11, 1),
    {
        proof {
            lemma_clear(self.0, Self::JUMP_INS_EN, 11, 1);
        }
        Self(self.0 & !Self::JUMP_INS_EN)
    }

    /// Check if jump instruction is enabled.
    #[inline]
    pub fn is_jump_ins_enabled(self) -> (r: bool)
        ensures
            r == flag(self.0, 11),
    {
        proof {
            lemma_read(self.0, Self::JUMP_INS_EN, 11, 1);
        }
        self.0 & Self::JUMP_INS_EN != 0
    }

    /// Set dummy cycles data fill type (`DUMMY_TYPE`).
    #[inline]
    pub fn set_dummy_fill_type(self, fill_type: DummyFillType) -> (r: Self)
        ensures
            r.0 == with_field(self.0, 8, 1, fill_type.code()),
            field(r.0, 8, 1) == fill_type.code(),
            DummyFillType::decode(field(r.0, 8, 1)) == fill_type,
            rest_is_kept(self.0, r.0, 8, 1),
    {
        proof {
            lemma_write(self.0, Self::DUMMY_TYPE, 8, 1, fill_type as u32);
        }
        Self((self.0 & !Self::DUMMY_TYPE) | (Self::DUMMY_TYPE & ((fill_type as u32) << 8)))
    }

    /// Get dummy cycles data fill type.
    #[inline]
    pub fn dummy_fill_type(self) -> (r: DummyFillType)
        ensures
            r == DummyFillType::decode(field(self.0, 8, 1)),
            r.code() == field(self.0, 8, 1),
    {
        proof {
            lemma_read(self.0, Self::DUMMY_TYPE, 8, 1);
        }
        match (self.0 & Self::DUMMY_TYPE) >> 8 {
            0 => DummyFillType::Fill0,
            1 => DummyFillType::Fill1,
            _ => unreached(),
        }
    }

    /// Set cs level (`CS_LEVEL`).
    ///
    /// In single-channel mode, this configuration is for CS0 or CS1 as determined by CS_SEL.
    /// In dual-channel mode, both CS0 and CS1 take effect simultaneously.
    /// Cannot be configured when `XSPI_BUSY` is 1.
    #[inline]
    pub fn set_cs_level(self, level: CsLevel) -> (r: Self)
        ensures
            r.0 == with_field(self.0, 7, 1, level.code()),
            field(r.0, 7, 1) == level.code(),
            CsLevel::decode(field(r.0, 7, 1)) == level,
            rest_is_kept(self.0, r.0, 7, 1),
    {
        proof {
            lemma_write(self.0, Self::CS_LEVEL, 7, 1, level as u32);
        }
        Self((self.0 & !Self::CS_LEVEL) | (Self::CS_LEVEL & ((level as u32) << 7)))
    }

    /// Get cs level.
    #[inline]
    pub fn cs_level(self) -> (r: CsLevel)
        ensures
            r == CsLevel::decode(field(self.0, 7, 1)),
            r.code() == field(self.0, 7, 1),
    {
        proof {
            lemma_read(self.0, Self::CS_LEVEL, 7, 1);
        }
        match (self.0 & Self::CS_LEVEL) >> 7 {
            0 => CsLevel::Low,
            1 => CsLevel::High,
            _ => unreached(),
        }
    }

    /// Set cs control mode (`CS_OWNER`).
    ///
    /// Usually, the CS signal is automatically sent by the controller.
    /// When this bit is set to 1, the CS_LEVEL voltage state must be manually configured.
    /// Cannot be configured when `XSPI_BUSY` is 1.
    #[inline]
    pub fn set_cs_ctrl_mode(self, mode: CsCtrlMode) -> (r: Self)
        ensures
            r.0 == with_field(self.0, 6, 1, mode.code()),
            field(r.0, 6, 1) == mode.code(),
            CsCtrlMode::decode(field(r.0, 6, 1)) == mode,
            rest_is_kept(self.0, r.0, 6, 1),
    {
        proof {
            lemma_write(self.0, Self::CS_OWNER, 6, 1, mode as u32);
        }
        Self((self.0 & !Self::CS_OWNER) | (Self::CS_OWNER & ((mode as u32) << 6)))
    }

    /// Get cs control.
    #[inline]
    pub fn cs_ctrl_mode(self) -> (r: CsCtrlMode)
        ensures
            r == CsCtrlMode::decode(field(self.0, 6, 1)),
            r.code() == field(self.0, 6, 1),
    {
        proof {
            lemma_read(self.0, Self::CS_OWNER, 6, 1);
        }
        match (self.0 & Self::CS_OWNER) >> 6 {
            0 => CsCtrlMode::SpiController,
            1 => CsCtrlMode::Software,
            _ => unreached(),
        }
    }

    /// Set cs selection (`CS_SEL`).
    ///
    /// Determines whether channel 0 or channel 1 is selected.
    /// Cannot be configured when `XSPI_BUSY` is 1.
    #[inline]
    pub fn set_cs_sel(self, sel: CsSel) -> (r: Self)
        ensures
            r.0 == with_field(self.0, 4, 1, sel.code()),
            field(r.0, 4, 1) == sel.code(),
            CsSel::decode(field(r.0, 4, 1)) == sel,
            rest_is_kept(self.0, r.0, 4, 1),
    {
        proof {
            lemma_write(self.0, Self::CS_SEL, 4, 1, sel as u32);
        }
        Self((self.0 & !Self::CS_SEL) | (Self::CS_SEL & ((sel as u32) << 4)))
    }

    /// Get cs selection.
    #[inline]
    pub fn cs_sel(self) -> (r: CsSel)
        ensures
            r == CsSel::decode(field(self.0, 4, 1)),
            r.code() == field(self.0, 4, 1),
    {
        proof {
            lemma_read(self.0, Self::CS_SEL, 4, 1);
        }
        match (self.0 & Self::CS_SEL) >> 4 {
            0 => CsSel::Cs0,
            1 => CsSel::Cs1,
            _ => unreached(),
        }
    }

    /// Set cs polarity (`CS_POL`).
    ///
    /// Cannot be configured when `XSPI_BUSY` is 1.
    #[inline]
    pub fn set_cs_pol(self, pol: CsPolarity) -> (r: Self)
        ensures
            r.0 == with_field(self.0, 2, 1, pol.code()),
            field(r.0, 2, 1) == pol.code(),
            CsPolarity::decode(field(r.0, 2, 1)) == pol,
            rest_is_kept(self.0, r.0, 2, 1),
    {
        proof {
            lemma_write(self.0, Self::CS_POL, 2, 1, pol as u32);
        }
        Self((self.0 & !Self::CS_POL) | (Self::CS_POL & ((pol as u32) << 2)))
    }

    /// Get cs polarity.
    #[inline]
    pub fn cs_pol(self) -> (r: CsPolarity)
        ensures
            r == CsPolarity::decode(field(self.0, 2, 1)),
            r.code() == field(self.0, 2, 1),
    {
        proof {
            lemma_read(self.0, Self::CS_POL, 2, 1);
        }
        match (self.0 & Self::CS_POL) >> 2 {
            0 => CsPolarity::IdleHigh,
            1 => CsPolarity::IdleLow,
            _ => unreached(),
        }
    }

    /// Set clock polarity control (`CPOL`).
    ///
    /// Cannot be configured when `XSPI_BUSY` is 1.
    #[inline]
    pub fn set_clk_pol(self, pol: Polarity) -> (r: Self)
        ensures
            r.0 == with_field(self.0, 1, 1, pol.code()),
            field(r.0, 1, 1) == pol.code(),
            Polarity::decode(field(r.0, 1, 1)) == pol,
            rest_is_kept(self.0, r.0, 1, 1),
    {
        proof {
            lemma_write(self.0, Self::CPOL, 1, 1, pol as u32);
        }
        Self((self.0 & !Self::CPOL) | (Self::CPOL & ((pol as u32) << 1)))
    }

    /// Get clock polarity control.
    #[inline]
    pub fn clk_pol(self) -> (r: Polarity)
        ensures
            r == Polarity::decode(field(self.0, 1, 1)),
            r.code() == field(self.0, 1, 1),
    {
        proof {
            lemma_read(self.0, Self::CPOL, 1, 1);
        }
        match (self.0 & Self::CPOL) >> 1 {
            0 => Polarity::IdleLow,
            1 => Polarity::IdleHigh,
            _ => unreached(),
        }
    }

    /// Set SPI clock/data phase control (`CPHA`).
    ///
    /// Cannot be configured when `XSPI_BUSY` is 1.
    #[inline]
    pub fn set_clk_pha(self, pha: Phase) -> (r: Self)
        ensures
            r.0 == with_field(self.0, 0, 1, pha.code()),
            field(r.0, 0, 1) == pha.code(),
            Phase::decode(field(r.0, 0, 1)) == pha,
            rest_is_kept(self.0, r.0, 0, 1),
    {
        proof {
            lemma_write(self.0, Self::CPHA, 0, 1, pha as u32);
        }
        Self((self.0 & !Self::CPHA) | (Self::CPHA & (pha as u32)))
    }

    /// Get SPI clock/data phase control.
    #[inline]
    pub fn clk_pha(self) -> (r: Phase)
        ensures
            r == Phase::decode(field(self.0, 0, 1)),
            r.code() == field(self.0, 0, 1),
    {
        proof {
            lemma_read(self.0, Self::CPHA, 0, 1);
        }
        match self.0 & Self::CPHA {
            0 => Phase::CaptureOnFirstTransition,
            1 => Phase::CaptureOnSecondTransition,
            _ => unreached(),
        }
    }
}

/// XSPI status register.
#[derive(Clone, Copy, Debug, PartialEq, Eq, PartialOrd, Ord, Hash, Structural)]
pub struct Status(pub u32);

impl Status {
    const AHB_TRANS: u32 = 0x4;
    const AXI_TRANS: u32 = 0x2;
    const XSPI_BUSY: u32 = 0x1;

    /// Check if ahb transaction is in progress (`AHB_TRANS`).
    #[inline]
    pub fn is_ahb_transfer(self) -> (r: bool)
        ensures
            r == flag(self.0, 2),
    {
        proof {
            lemma_read(self.0, Self::AHB_TRANS, 2, 1);
        }
        self.0 & Self::AHB_TRANS != 0
    }

    /// Check if axi transaction is in progress (`AXI_TRANS`).
    #[inline]
    pub fn is_axi_transfer(self) -> (r: bool)
        ensures
            r == flag(self.0, 1),
    {
        proof {
            lemma_read(self.0, Self::AXI_TRANS, 1, 1);
        }
        self.0 & Self::AXI_TRANS != 0
    }

    /// Check if xspi is busy (`XSPI_BUSY`).
    #[inline]
    pub fn is_busy(self) -> (r: bool)
        ensures
            r == flag(self.0, 0),
    {
        proof {
            lemma_read(self.0, Self::XSPI_BUSY, 0, 1);
        }
        self.0 & Self::XSPI_BUSY != 0
    }
}

/// Read phase selection.
#[derive(Clone, Copy, Debug, PartialEq, Eq, Structural)]
pub enum RdPha {
    /// 0°.
    Deg0,
    /// 90°.
    Deg90,
    /// 180°.
    Deg180,
    /// 360°.
    Deg360,
}

impl RdPha {
    /// The number that stands for this value in its register field.
    pub open spec fn code(self) -> int {
        match self {
            Self::Deg0 => 0,
            Self::Deg90 => 1,
            Self::Deg180 => 2,
            Self::Deg360 => 3,
        }
    }

    /// The value that `code` stands for. Every larger number is read as the
    /// last value.
    pub open spec fn decode(code: int) -> Self {
        if code == 0 {
            Self::Deg0
        } else if code == 1 {
            Self::Deg90
        } else if code == 2 {
            Self::Deg180
        } else {
            Self::Deg360
        }
    }
}

/// Read data sampling control.
#[derive(Clone, Copy, Debug, PartialEq, Eq, Structural)]
pub enum RdSampleCtrl {
    /// DQS input clock sampling DLL control.
    DqsDll,
    /// Internal clock sampling delay chain control.
    InternalDelayChain,
    /// DQS input clock sampling delay chain control.
    DqsDelayChain,
}

impl RdSampleCtrl {
    /// The number that stands for this value in its register field.
    pub open spec fn code(self) -> int {
        match self {
            Self::DqsDll => 0,
            Self::InternalDelayChain => 1,
            Self::DqsDelayChain => 2,
        }
    }

    /// The value that `code` stands for. Every larger number is read as the
    /// last value.
    pub open spec fn decode(code: int) -> Self {
        if code == 0 {
            Self::DqsDll
        } else if code == 1 {
            Self::InternalDelayChain
        } else {
            Self::DqsDelayChain
        }
    }
}

/// XSPI chip select control register.
#[derive(Clone, Copy, Debug, PartialEq, Eq, PartialOrd, Ord, Hash, Structural)]
pub struct CsControl(pub u32);

impl CsControl {
    const WR_DELAY_CHAIN_SEL: u32 = 0x1F00_0000;
    const WR_PHASE_SEL: u32 = 0x20_0000;
    const WR_DELAY_CHAIN_EN: u32 = 0x10_0000;
    const RD_PHASE: u32 = 0x3_0000;
    const RD_DELAY_CYCLE: u32 = 0x7000;
    const RD_DELAY_CHAIN_SEL: u32 = 0x1F0;
    const RD_VALID_CONTROL: u32 = 0x8;
    const RD_DELAY_CHAIN_EN: u32 = 0x4;
    const RD_SAMPLE_CTL: u32 = 0x3;

    /// Set write delay chain selection (`WR_DELAY_CHAIN_SEL`).
    ///
    /// Aborts if `val` is not below `0x20`.
    #[inline]
    pub fn set_wr_delay_chain_sel(self, val: u8) -> (r: Self)
        requires
            val < 0x20,
        ensures
            r.0 == with_field(self.0, 24, 5, val as int),
            field(r.0, 24, 5) == val,
            rest_is_kept(self.0, r.0, 24, 5),
    {
        runtime_assert(val < 0x20);
        proof {
            lemma_write(self.0, Self::WR_DELAY_CHAIN_SEL, 24, 5, val as u32);
        }
        Self(
            (self.0 & !Self::WR_DELAY_CHAIN_SEL)
                | (Self::WR_DELAY_CHAIN_SEL & ((val as u32) << 24)),
        )
    }

    /// Get write delay chain selection.
    #[inline]
    pub fn wr_delay_chain_sel(self) -> (r: u8)
        ensures
            r == field(self.0, 24, 5),
    {
        proof {
            lemma_read(self.0, Self::WR_DELAY_CHAIN_SEL, 24, 5);
        }
        ((self.0 & Self::WR_DELAY_CHAIN_SEL) >> 24) as u8
    }

    /// Set write phase selection (`WR_PHASE_SEL`).
    ///
    /// When SPI CPHA=1:
    /// - 0: 0°.
    /// - 1: 90°.
    ///
    /// When SPI CPHA=0:
    /// - 0: 180°.
    /// - 1: 270°.
    ///
    /// Note: When using SPI quad mode, this bit must be set to 0.
    #[inline]
    pub fn set_wr_phase_sel(self, set: bool) -> (r: Self)
        ensures
            r.0 == with_flag(self.0, 21, set),
            flag(r.0, 21) == set,
            rest_is_kept(self.0, r.0, 21, 1),
    {
        proof {
            lemma_set(self.0, Self::WR_PHASE_SEL, 21, 1);
            lemma_clear(self.0, Self::WR_PHASE_SEL, 21, 1);
        }
        if set {
            Self(self.0 | Self::WR_PHASE_SEL)
        } else {
            Self(self.0 & !Self::WR_PHASE_SEL)
        }
    }

    /// Get write phase selection.
    #[inline]
    pub fn wr_phase_sel(self) -> (r: bool)
        ensures
            r == flag(self.0, 21),
    {
        proof {
            lemma_read(self.0, Self::WR_PHASE_SEL, 21, 1);
        }
        self.0 & Self::WR_PHASE_SEL != 0
    }

    /// Enable write delay chain (`WR_DELAY_CHAIN_EN`).
    #[inline]
    pub fn enable_wr_delay_chain(self) -> (r: Self)
        ensures
            r.0 == with_flag(self.0, 20, true),
            flag(r.0, 20),
            rest_is_kept(self.0, r.0, 20, 1),
    {
        proof {
            lemma_set(self.0, Self::WR_DELAY_CHAIN_EN, 20, 1);
        }
        Self(self.0 | Self::WR_DELAY_CHAIN_EN)
    }

    /// Disable write delay chain.
    #[inline]
    pub fn disable_wr_delay_chain(self) -> (r: Self)
        ensures
            r.0 == with_flag(self.0, 20, false),
            !flag(r.0, 20),
            rest_is_kept(self.0, r.0, 20, 1),
    {
        proof {
            lemma_clear(self.0, Self::WR_DELAY_CHAIN_EN, 20, 1);
        }
        Self(self.0 & !Self::WR_DELAY_CHAIN_EN)
    }

    /// Check if write delay chain is enabled.
    #[inline]
    pub fn is_wr_delay_chain_enabled(self) -> (r: bool)
        ensures
            r == flag(self.0, 20),
    {
        proof {
            lemma_read(self.0, Self::WR_DELAY_CHAIN_EN, 20, 1);
        }
        self.0 & Self::WR_DELAY_CHAIN_EN != 0
    }

    /// Set read phase (`RD_PHASE`).
    #[inline]
    pub fn set_rd_phase(self, phase: RdPha) -> (r: Self)
        ensures
            r.0 == with_field(self.0, 16, 2, phase.code()),
            field(r.0, 16, 2) == phase.code(),
            RdPha::decode(field(r.0, 16, 2)) == phase,
            rest_is_kept(self.0, r.0, 16, 2),
    {
        proof {
            lemma_write(self.0, Self::RD_PHASE, 16, 2, phase as u32);
        }
        Self((self.0 & !Self::RD_PHASE) | (Self::RD_PHASE & ((phase as u32) << 16)))
    }

    /// Get read phase.
    #[inline]
    pub fn rd_phase(self) -> (r: RdPha)
        ensures
            r == RdPha::decode(field(self.0, 16, 2)),
            r.code() == field(self.0, 16, 2),
    {
        proof {
            lemma_read(self.0, Self::RD_PHASE, 16, 2);
        }
        match (self.0 & Self::RD_PHASE) >> 16 {
            0 => RdPha::Deg0,
            1 => RdPha::Deg90,
            2 => RdPha::Deg180,
            3 => RdPha::Deg360,
            _ => unreached(),
        }
    }

    /// Set read delay cycle (`RD_DELAY_CYCLE`).
    ///
    /// Aborts if `val` is not below `0x8`.
    #[inline]
    pub fn set_rd_delay_cycle(self, val: u8) -> (r: Self)
        requires
            val < 0x8,
        ensures
            r.0 == with_field(self.0, 12, 3, val as int),
            field(r.0, 12, 3) == val,
            rest_is_kept(self.0, r.0, 12, 3),
    {
        runtime_assert(val < 0x8);
        proof {
            lemma_write(self.0, Self::RD_DELAY_CYCLE, 12, 3, val as u32);
        }
        Self((self.0 & !Self::RD_DELAY_CYCLE) | (Self::RD_DELAY_CYCLE & ((val as u32) << 12)))
    }

    /// Get read delay cycle.
    #[inline]
    pub fn rd_delay_cycle(self) -> (r: u8)
        ensures
            r == field(self.0, 12, 3),
    {
        proof {
            lemma_read(self.0, Self::RD_DELAY_CYCLE, 12, 3);
        }
        ((self.0 & Self::RD_DELAY_CYCLE) >> 12) as u8
    }

    /// Set read delay chain selection (`RD_DELAY_CHAIN_SEL`).
    ///
    /// Aborts if `val` is not below `0x20`.
    #[inline]
    pub fn set_rd_delay_chain_sel(self, val: u8) -> (r: Self)
        requires
            val < 0x20,
        ensures
            r.0 == with_field(self.0, 4, 5, val as int),
            field(r.0, 4, 5) == val,
            rest_is_kept(self.0, r.0, 4, 5),
    {
        runtime_assert(val < 0x20);
        proof {
            lemma_write(self.0, Self::RD_DELAY_CHAIN_SEL, 4, 5, val as u32);
        }
        Self(
            (self.0 & !Self::RD_DELAY_CHAIN_SEL) | (Self::RD_DELAY_CHAIN_SEL & ((val as u32) << 4)),
        )
    }

    /// Get read delay chain selection.
    #[inline]
    pub fn rd_delay_chain_sel(self) -> (r: u8)
        ensures
            r == field(self.0, 4, 5),
    {
        proof {
            lemma_read(self.0, Self::RD_DELAY_CHAIN_SEL, 4, 5);
        }
        ((self.0 & Self::RD_DELAY_CHAIN_SEL) >> 4) as u8
    }

    /// Set read valid control (`RD_VALID_CONTROL`).
    ///
    /// Control timing for internal control logic accessing asynchronous FIFO during read operations.
    #[inline]
    pub fn set_rd_valid_control(self, set: bool) -> (r: Self)
        ensures
            r.0 == with_flag(self.0, 3, set),
            flag(r.0, 3) == set,
            rest_is_kept(self.0, r.0, 3, 1),
    {
        proof {
            lemma_set(self.0, Self::RD_VALID_CONTROL, 3, 1);
            lemma_clear(self.0, Self::RD_VALID_CONTROL, 3, 1);
        }
        if set {
            Self(self.0 | Self::RD_VALID_CONTROL)
        } else {
            Self(self.0 & !Self::RD_VALID_CONTROL)
        }
    }

    /// Get read valid control.
    #[inline]
    pub fn rd_valid_control(self) -> (r: bool)
        ensures
            r == flag(self.0, 3),
    {
        proof {
            lemma_read(self.0, Self::RD_VALID_CONTROL, 3, 1);
        }
        self.0 & Self::RD_VALID_CONTROL != 0
    }

    /// Enable read delay chain (`RD_DELAY_CHAIN_EN`).
    #[inline]
    pub fn enable_rd_delay_chain(self) -> (r: Self)
        ensures
            r.0 == with_flag(self.0, 2, true),
            flag(r.0, 2),
            rest_is_kept(self.0, r.0, 2, 1),
    {
        proof {
            lemma_set(self.0, Self::RD_DELAY_CHAIN_EN, 2, 1);
        }
        Self(self.0 | Self::RD_DELAY_CHAIN_EN)
    }

    /// Disable read delay chain.
    #[inline]
    pub fn disable_rd_delay_chain(self) -> (r: Self)
        ensures
            r.0 == with_flag(self.0, 2, false),
            !flag(r.0, 2),
            rest_is_kept(self.0, r.0, 2, 1),
    {
        proof {
            lemma_clear(self.0, Self::RD_DELAY_CHAIN_EN, 2, 1);
        }
        Self(self.0 & !Self::RD_DELAY_CHAIN_EN)
    }

    /// Check if read delay chain is enabled.
    #[inline]
    pub fn is_rd_delay_chain_enabled(self) -> (r: bool)
        ensures
            r == flag(self.0, 2),
    {
        proof {
            lemma_read(self.0, Self::RD_DELAY_CHAIN_EN, 2, 1);
        }
        self.0 & Self::RD_DELAY_CHAIN_EN != 0
    }

    /// Set read sample control (`RD_SAMPLE_CTL`).
    #[inline]
    pub fn set_rd_sample_ctrl(self, ctrl: RdSampleCtrl) -> (r: Self)
        ensures
            r.0 == with_field(self.0, 0, 2, ctrl.code()),
            field(r.0, 0, 2) == ctrl.code(),
            RdSampleCtrl::decode(field(r.0, 0, 2)) == ctrl,
            rest_is_kept(self.0, r.0, 0, 2),
    {
        proof {
            lemma_write(self.0, Self::RD_SAMPLE_CTL, 0, 2, ctrl as u32);
        }
        Self((self.0 & !Self::RD_SAMPLE_CTL) | (Self::RD_SAMPLE_CTL & (ctrl as u32)))
    }

    /// Get read sample control.
    #[inline]
    pub fn rd_sample_ctrl(self) -> (r: RdSampleCtrl)
        ensures
            r == RdSampleCtrl::decode(field(self.0, 0, 2)),
    {
        proof {
            lemma_read(self.0, Self::RD_SAMPLE_CTL, 0, 2);
        }
        match self.0 & Self::RD_SAMPLE_CTL {
            0 => RdSampleCtrl::DqsDll,
            1 => RdSampleCtrl::InternalDelayChain,
            2 | 3 => RdSampleCtrl::DqsDelayChain,
            _ => unreached(),
        }
    }
}

/// Bypass selection.
#[derive(Clone, Copy, Debug, PartialEq, Eq, Structural)]
pub enum Bypass {
    /// 772p-935p-1.191n.
    Range0,
    /// 2.2n-2.92n-4.1n.
    Range1,
    /// 3.63n-4.92n-6.87n.
    Range2,
    /// 5.04n-6.91n-9.66n.
    Range3,
}

impl Bypass {
    /// The number that stands for this value in its register field.
    pub open spec fn code(self) -> int {
        match self {
            Self::Range0 => 0,
            Self::Range1 => 1,
            Self::Range2 => 2,
            Self::Range3 => 3,
        }
    }

    /// The value that `code` stands for. Every larger number is read as the
    /// last value.
    pub open spec fn decode(code: int) -> Self {
        if code == 0 {
            Self::Range0
        } else if code == 1 {
            Self::Range1
        } else if code == 2 {
            Self::Range2
        } else {
            Self::Range3
        }
    }
}

/// Reference clock range.
#[derive(Clone, Copy, Debug, PartialEq, Eq, Structural)]
pub enum Icp {
    /// 50~100MHz.
    Range50To100M,
    /// 100~150MHz.
    Range100To150M,
    /// 150~200MHz.
    Range150To200M,
    /// 200~266MHz.
    Range200To266M,
}

impl Icp {
    /// The number that stands for this value in its register field.
    pub open spec fn code(self) -> int {
        match self {
            Self::Range50To100M => 0,
            Self::Range100To150M => 1,
            Self::Range150To200M => 2,
            Self::Range200To266M => 3,
        }
    }

    /// The value that `code` stands for. Every larger number is read as the
    /// last value.
    pub open spec fn decode(code: int) -> Self {
        if code == 0 {
            Self::Range50To100M
        } else if code == 1 {
            Self::Range100To150M
        } else if code == 2 {
            Self::Range150To200M
        } else {
            Self::Range200To266M
        }
    }
}

/// Input clock phase selection.
#[derive(Clone, Copy, Debug, PartialEq, Eq, Structural)]
pub enum PhaseSel {
    /// 22.5°.
    Deg22_5,
    /// 45°.
    Deg45,
    /// 67.5°.
    Deg67_5,
    /// 90°.
    Deg90,
    /// 112.5°.
    Deg112_5,
    /// 135°.
    Deg135,
    /// 157.5°.
    Deg157_5,
    /// 180°.
    Deg180,
    /// 202.5°.
    Deg202_5,
    /// 225°.
    Deg225,
    /// 247.5°.
    Deg247_5,
    /// 270°.
    Deg270,
    /// 292.5°.
    Deg292_5,
    /// 315°.
    Deg315,
    /// 337.5°.
    Deg337_5,
    /// BYPASS.
    Bypass,
}

impl PhaseSel {
    /// The number that stands for this value in its register field.
    pub open spec fn code(self) -> int {
        match self {
            Self::Deg22_5 => 0,
            Self::Deg45 => 1,
            Self::Deg67_5 => 2,
            Self::Deg90 => 3,
            Self::Deg112_5 => 4,
            Self::Deg135 => 5,
            Self::Deg157_5 => 6,
            Self::Deg180 => 7,
            Self::Deg202_5 => 8,
            Self::Deg225 => 9,
            Self::Deg247_5 => 10,
            Self::Deg270 => 11,
            Self::Deg292_5 => 12,
            Self::Deg315 => 13,
            Self::Deg337_5 => 14,
            Self::Bypass => 15,
        }
    }

    /// The value that `code` stands for. Every larger number is read as the
    /// last value.
    pub open spec fn decode(code: int) -> Self {
        if code == 0 {
            Self::Deg22_5
        } else if code == 1 {
            Self::Deg45
        } else if code == 2 {
            Self::Deg67_5
        } else if code == 3 {
            Self::Deg90
        } else if code == 4 {
            Self::Deg112_5
        } else if code == 5 {
            Self::Deg135
        } else if code == 6 {
            Self::Deg157_5
        } else if code == 7 {
            Self::Deg180
        } else if code == 8 {
            Self::Deg202_5
        } else if code == 9 {
            Self::Deg225
        } else if code == 10 {
            Self::Deg247_5
        } else if code == 11 {
            Self::Deg270
        } else if code == 12 {
            Self::Deg292_5
        } else if code == 13 {
            Self::Deg315
        } else if code == 14 {
            Self::Deg337_5
        } else {
            Self::Bypass
        }
    }
}

/// XSPI chip select dll control register.
#[derive(Clone, Copy, Debug, PartialEq, Eq, PartialOrd, Ord, Hash, Structural)]
pub struct CsDllControl(pub u32);

impl CsDllControl {
    const FORCE_LOCK: u32 = 0x2000_0000;
    const EN_ATB: u32 = 0x1000_0000;
    const REG_ATBSEL: u32 = 0x700_0000;
    const REG_BYPASS: u32 = 0x30_0000;
    const REG_DLY: u32 = 0x3_0000;
    const REG_ICP: u32 = 0x3000;
    const PHASE_SEL: u32 = 0xF00;
    const EN_LVS: u32 = 0x20;
    const EN_LDO: u32 = 0x10;
    const EN_BYPASS: u32 = 0x8;
    const EN_CP: u32 = 0x4;
    const EN_VCDL: u32 = 0x2;
    const EN_DLL: u32 = 0x1;

    /// Set force lock (`FORCE_LOCK`).
    #[inline]
    pub fn set_force_lock(self, set: bool) -> (r: Self)
        ensures
            r.0 == with_flag(self.0, 29, set),
            flag(r.0, 29) == set,
            rest_is_kept(self.0, r.0, 29, 1),
    {
        proof {
            lemma_set(self.0, Self::FORCE_LOCK, 29, 1);
            lemma_clear(self.0, Self::FORCE_LOCK, 29, 1);
        }
        if set {
            Self(self.0 | Self::FORCE_LOCK)
        } else {
            Self(self.0 & !Self::FORCE_LOCK)
        }
    }

    /// Get force lock.
    #[inline]
    pub fn force_lock(self) -> (r: bool)
        ensures
            r == flag(self.0, 29),
    {
        proof {
            lemma_read(self.0, Self::FORCE_LOCK, 29, 1);
        }
        self.0 & Self::FORCE_LOCK != 0
    }

    /// Enable atb (`EN_ATB`).
    #[inline]
    pub fn enable_atb(self) -> (r: Self)
        ensures
            r.0 == with_flag(self.0, 28, true),
            flag(r.0, 28),
            rest_is_kept(self.0, r.0, 28, 1),
    {
        proof {
            lemma_set(self.0, Self::EN_ATB, 28, 1);
        }
        Self(self.0 | Self::EN_ATB)
    }

    /// Disable atb.
    #[inline]
    pub fn disable_atb(self) -> (r: Self)
        ensures
            r.0 == with_flag(self.0, 28, false),
            !flag(r.0, 28),
            rest_is_kept(self.0, r.0, 28, 1),
    {
        proof {
            lemma_clear(self.0, Self::EN_ATB, 28, 1);
        }
        Self(self.0 & !Self::EN_ATB)
    }

    /// Check if atb is enabled.
    #[inline]
    pub fn is_atb_enabled(self) -> (r: bool)
        ensures
            r == flag(self.0, 28),
    {
        proof {
            lemma_read(self.0, Self::EN_ATB, 28, 1);
        }
        self.0 & Self::EN_ATB != 0
    }

    /// Set atb selection (`REG_ATBSEL`).
    ///
    /// Aborts if `val` is not below `0x8`.
    #[inline]
    pub fn set_atbsel(self, val: u8) -> (r: Self)
        requires
            val < 0x8,
        ensures
            r.0 == with_field(self.0, 24, 3, val as int),
            field(r.0, 24, 3) == val,
            rest_is_kept(self.0, r.0, 24, 3),
    {
        runtime_assert(val < 0x8);
        proof {
            lemma_write(self.0, Self::REG_ATBSEL, 24, 3, val as u32);
        }
        Self((self.0 & !Self::REG_ATBSEL) | (Self::REG_ATBSEL & ((val as u32) << 24)))
    }

    /// Get atb selection.
    #[inline]
    pub fn atbsel(self) -> (r: u8)
        ensures
            r == field(self.0, 24, 3),
    {
        proof {
            lemma_read(self.0, Self::REG_ATBSEL, 24, 3);
        }
        ((self.0 & Self::REG_ATBSEL) >> 24) as u8
    }

    /// Set bypass selection (`REG_BYPASS`).
    #[inline]
    pub fn set_bypass(self, bypass: Bypass) -> (r: Self)
        ensures
            r.0 == with_field(self.0, 20, 2, bypass.code()),
            field(r.0, 20, 2) == bypass.code(),
            Bypass::decode(field(r.0, 20, 2)) == bypass,
            rest_is_kept(self.0, r.0, 20, 2),
    {
        proof {
            lemma_write(self.0, Self::REG_BYPASS, 20, 2, bypass as u32);
        }
        Self((self.0 & !Self::REG_BYPASS) | (Self::REG_BYPASS & ((bypass as u32) << 20)))
    }

    /// Get bypass selection.
    #[inline]
    pub fn bypass(self) -> (r: Bypass)
        ensures
            r == Bypass::decode(field(self.0, 20, 2)),
            r.code() == field(self.0, 20, 2),
    {
        proof {
            lemma_read(self.0, Self::REG_BYPASS, 20, 2);
        }
        match (self.0 & Self::REG_BYPASS) >> 20 {
            0 => Bypass::Range0,
            1 => Bypass::Range1,
            2 => Bypass::Range2,
            3 => Bypass::Range3,
            _ => unreached(),
        }
    }

    /// Set delay (`REG_DLY`).
    ///
    /// Aborts if `val` is not below `0x4`.
    #[inline]
    pub fn set_delay(self, val: u8) -> (r: Self)
        requires
            val < 0x4,
        ensures
            r.0 == with_field(self.0, 16, 2, val as int),
            field(r.0, 16, 2) == val,
            rest_is_kept(self.0, r.0, 16, 2),
    {
        runtime_assert(val < 0x4);
        proof {
            lemma_write(self.0, Self::REG_DLY, 16, 2, val as u32);
        }
        Self((self.0 & !Self::REG_DLY) | (Self::REG_DLY & ((val as u32) << 16)))
    }

    /// Get delay.
    #[inline]
    pub fn delay(self) -> (r: u8)
        ensures
            r == field(self.0, 16, 2),
    {
        proof {
            lemma_read(self.0, Self::REG_DLY, 16, 2);
        }
        ((self.0 & Self::REG_DLY) >> 16) as u8
    }

    /// Set icp (`REG_ICP`).
    #[inline]
    pub fn set_icp(self, icp: Icp) -> (r: Self)
        ensures
            r.0 == with_field(self.0, 12, 2, icp.code()),
            field(r.0, 12, 2) == icp.code(),
            Icp::decode(field(r.0, 12, 2)) == icp,
            rest_is_kept(self.0, r.0, 12, 2),
    {
        proof {
            lemma_write(self.0, Self::REG_ICP, 12, 2, icp as u32);
        }
        Self((self.0 & !Self::REG_ICP) | (Self::REG_ICP & ((icp as u32) << 12)))
    }

    /// Get icp.
    #[inline]
    pub fn icp(self) -> (r: Icp)
        ensures
            r == Icp::decode(field(self.0, 12, 2)),
            r.code() == field(self.0, 12, 2),
    {
        proof {
            lemma_read(self.0, Self::REG_ICP, 12, 2);
        }
        match (self.0 & Self::REG_ICP) >> 12 {
            0 => Icp::Range50To100M,
            1 => Icp::Range100To150M,
            2 => Icp::Range150To200M,
            3 => Icp::Range200To266M,
            _ => unreached(),
        }
    }

    /// Set phase selection (`PHASE_SEL`).
    ///
    /// When configuring 0~14, the following values must be configured:
    /// - `EN_DLL` = 1
    /// - `EN_VCDL` = 1
    /// - `EN_CP` = 1
    /// - `EN_BYPASS` = 0
    ///
    /// When configuring 15 (BYPASS), the following values must be configured:
    /// - `EN_DLL` = 0
    /// - `EN_VCDL` = 1
    /// - `EN_CP` = 0
    /// - `EN_BYPASS` = 1
    ///
    /// If `EN_DLL` = 0, `EN_VCDL` = 0, `EN_CP` = 0, `EN_BYPASS` = 0, then input clock is 0 phase.
    #[inline]
    pub fn set_phase_sel(self, phase: PhaseSel) -> (r: Self)
        ensures
            r.0 == with_field(self.0, 8, 4, phase.code()),
            field(r.0, 8, 4) == phase.code(),
            PhaseSel::decode(field(r.0, 8, 4)) == phase,
            rest_is_kept(self.0, r.0, 8, 4),
    {
        proof {
            lemma_write(self.0, Self::PHASE_SEL, 8, 4, phase as u32);
        }
        Self((self.0 & !Self::PHASE_SEL) | (Self::PHASE_SEL & ((phase as u32) << 8)))
    }

    /// Get phase selection.
    #[inline]
    pub fn phase_sel(self) -> (r: PhaseSel)
        ensures
            r == PhaseSel::decode(field(self.0, 8, 4)),
            r.code() == field(self.0, 8, 4),
    {
        proof {
            lemma_read(self.0, Self::PHASE_SEL, 8, 4);
        }
        match (self.0 & Self::PHASE_SEL) >> 8 {
            0 => PhaseSel::Deg22_5,
            1 => PhaseSel::Deg45,
            2 => PhaseSel::Deg67_5,
            3 => PhaseSel::Deg90,
            4 => PhaseSel::Deg112_5,
            5 => PhaseSel::Deg135,
            6 => PhaseSel::Deg157_5,
            7 => PhaseSel::Deg180,
            8 => PhaseSel::Deg202_5,
            9 => PhaseSel::Deg225,
            10 => PhaseSel::Deg247_5,
            11 => PhaseSel::Deg270,
            12 => PhaseSel::Deg292_5,
            13 => PhaseSel::Deg315,
            14 => PhaseSel::Deg337_5,
            15 => PhaseSel::Bypass,
            _ => unreached(),
        }
    }

    /// Enable lvs (`EN_LVS`).
    #[inline]
    pub fn enable_lvs(self) -> (r: Self)
        ensures
            r.0 == with_flag(self.0, 5, true),
            flag(r.0, 5),
            rest_is_kept(self.0, r.0, 5, 1),
    {
        proof {
            lemma_set(self.0, Self::EN_LVS, 5, 1);
        }
        Self(self.0 | Self::EN_LVS)
    }

    /// Disable lvs.
    #[inline]
    pub fn disable_lvs(self) -> (r: Self)
        ensures
            r.0 == with_flag(self.0, 5, false),
            !flag(r.0, 5),
            rest_is_kept(self.0, r.0, 5, 1),
    {
        proof {
            lemma_clear(self.0, Self::EN_LVS, 5, 1);
        }
        Self(self.0 & !Self::EN_LVS)
    }

    /// Check if lvs is enabled.
    #[inline]
    pub fn is_lvs_enabled(self) -> (r: bool)
        ensures
            r == flag(self.0, 5),
    {
        proof {
            lemma_read(self.0, Self::EN_LVS, 5, 1);
        }
        self.0 & Self::EN_LVS != 0
    }

    /// Enable ldo (`EN_LDO`).
    #[inline]
    pub fn enable_ldo(self) -> (r: Self)
        ensures
            r.0 == with_flag(self.0, 4, true),
            flag(r.0, 4),
            rest_is_kept(self.0, r.0, 4, 1),
    {
        proof {
            lemma_set(self.0, Self::EN_LDO, 4, 1);
        }
        Self(self.0 | Self::EN_LDO)
    }

    /// Disable ldo.
    #[inline]
    pub fn disable_ldo(self) -> (r: Self)
        ensures
            r.0 == with_flag(self.0, 4, false),
            !flag(r.0, 4),
            rest_is_kept(self.0, r.0, 4, 1),
    {
        proof {
            lemma_clear(self.0, Self::EN_LDO, 4, 1);
        }
        Self(self.0 & !Self::EN_LDO)
    }

    /// Check if ldo is enabled.
    #[inline]
    pub fn is_ldo_enabled(self) -> (r: bool)
        ensures
            r == flag(self.0, 4),
    {
        proof {
            lemma_read(self.0, Self::EN_LDO, 4, 1);
        }
        self.0 & Self::EN_LDO != 0
    }

    /// Enable bypass (`EN_BYPASS`).
    #[inline]
    pub fn enable_bypass(self) -> (r: Self)
        ensures
            r.0 == with_flag(self.0, 3, true),
            flag(r.0, 3),
            rest_is_kept(self.0, r.0, 3, 1),
    {
        proof {
            lemma_set(self.0, Self::EN_BYPASS, 3, 1);
        }
        Self(self.0 | Self::EN_BYPASS)
    }

    /// Disable bypass.
    #[inline]
    pub fn disable_bypass(self) -> (r: Self)
        ensures
            r.0 == with_flag(self.0, 3, false),
            !flag(r.0, 3),
            rest_is_kept(self.0, r.0, 3, 1),
    {
        proof {
            lemma_clear(self.0, Self::EN_BYPASS, 3, 1);
        }
        Self(self.0 & !Self::EN_BYPASS)
    }

    /// Check if bypass is enabled.
    #[inline]
    pub fn is_bypass_enabled(self) -> (r: bool)
        ensures
            r == flag(self.0, 3),
    {
        proof {
            lemma_read(self.0, Self::EN_BYPASS, 3, 1);
        }
        self.0 & Self::EN_BYPASS != 0
    }

    /// Enable cp (`EN_CP`).
    #[inline]
    pub fn enable_cp(self) -> (r: Self)
        ensures
            r.0 == with_flag(self.0, 2, true),
            flag(r.0, 2),
            rest_is_kept(self.0, r.0, 2, 1),
    {
        proof {
            lemma_set(self.0, Self::EN_CP, 2, 1);
        }
        Self(self.0 | Self::EN_CP)
    }

    /// Disable cp.
    #[inline]
    pub fn disable_cp(self) -> (r: Self)
        ensures
            r.0 == with_flag(self.0, 2, false),
            !flag(r.0, 2),
            rest_is_kept(self.0, r.0, 2, 1),
    {
        proof {
            lemma_clear(self.0, Self::EN_CP, 2, 1);
        }
        Self(self.0 & !Self::EN_CP)
    }

    /// Check if cp is enabled.
    #[inline]
    pub fn is_cp_enabled(self) -> (r: bool)
        ensures
            r == flag(self.0, 2),
    {
        proof {
            lemma_read(self.0, Self::EN_CP, 2, 1);
        }
        self.0 & Self::EN_CP != 0
    }

    /// Enable vcdl (`EN_VCDL`).
    #[inline]
    pub fn enable_vcdl(self) -> (r: Self)
        ensures
            r.0 == with_flag(self.0, 1, true),
            flag(r.0, 1),
            rest_is_kept(self.0, r.0, 1, 1),
    {
        proof {
            lemma_set(self.0, Self::EN_VCDL, 1, 1);
        }
        Self(self.0 | Self::EN_VCDL)
    }

    /// Disable vcdl.
    #[inline]
    pub fn disable_vcdl(self) -> (r: Self)
        ensures
            r.0 == with_flag(self.0, 1, false),
            !flag(r.0, 1),
            rest_is_kept(self.0, r.0, 1, 1),
    {
        proof {
            lemma_clear(self.0, Self::EN_VCDL, 1, 1);
        }
        Self(self.0 & !Self::EN_VCDL)
    }

    /// Check if vcdl is enabled.
    #[inline]
    pub fn is_vcdl_enabled(self) -> (r: bool)
        ensures
            r == flag(self.0, 1),
    {
        proof {
            lemma_read(self.0, Self::EN_VCDL, 1, 1);
        }
        self.0 & Self::EN_VCDL != 0
    }

    /// Enable dll (`EN_DLL`).
    ///
    /// After reconfiguring the clock frequency, reconfigure this bit to enable DLL function.
    #[inline]
    pub fn enable_dll(self) -> (r: Self)
        ensures
            r.0 == with_flag(self.0, 0, true),
            flag(r.0, 0),
            rest_is_kept(self.0, r.0, 0, 1),
    {
        proof {
            lemma_set(self.0, Self::EN_DLL, 0, 1);
        }
        Self(self.0 | Self::EN_DLL)
    }

    /// Disable dll.
    #[inline]
    pub fn disable_dll(self) -> (r: Self)
        ensures
            r.0 == with_flag(self.0, 0, false),
            !flag(r.0, 0),
            rest_is_kept(self.0, r.0, 0, 1),
    {
        proof {
            lemma_clear(self.0, Self::EN_DLL, 0, 1);
        }
        Self(self.0 & !Self::EN_DLL)
    }

    /// Check if dll is enabled.
    #[inline]
    pub fn is_dll_enabled(self) -> (r: bool)
        ensures
            r == flag(self.0, 0),
    {
        proof {
            lemma_read(self.0, Self::EN_DLL, 0, 1);
        }
        self.0 & Self::EN_DLL != 0
    }
}

/// XSPI interrupt enable register.
#[derive(Clone, Copy, Debug, PartialEq, Eq, PartialOrd, Ord, Hash, Structural)]
pub struct IntEnable(pub u32);

impl IntEnable {
    const XIP_ERROR: u32 = 0x100_0000;
    const AXI_ERROR: u32 = 0x80_0000;
    const OPI_ERROR: u32 = 0x40_0000;
    const HYPERBUS_ERROR: u32 = 0x20_0000;
    const XCCELA_ERROR: u32 = 0x10_0000;
    const AXI_TRAN_ERROR_EN: u32 = 0x8_0000;
    const AHB_TRAN_ERROR_EN: u32 = 0x4_0000;
    const LUT_INSTRUCTION_ERROR_EN: u32 = 0x2_0000;
    const LUT_ADDR_OPRAND_ERROR_EN: u32 = 0x1_0000;
    const CS1_TO_EN: u32 = 0x8000;
    const CS0_TO_EN: u32 = 0x4000;
    const CS1_DONE_EN: u32 = 0x2000;
    const CS0_DONE_EN: u32 = 0x1000;
    const TF_UDR_INT_EN: u32 = 0x800;
    const TF_OVF_INT_EN: u32 = 0x400;
    const RF_UDR_INT_EN: u32 = 0x200;
    const RF_OVF_INT_EN: u32 = 0x100;
    const TX_FULL_INT_EN: u32 = 0x40;
    const TX_EMP_INT_EN: u32 = 0x20;
    const TX_ERQ_INT_EN: u32 = 0x10;
    const RX_FULL_INT_EN: u32 = 0x4;
    const RX_EMP_INT_EN: u32 = 0x2;
    const RX_ERQ_INT_EN: u32 = 0x1;

    /// Enable xip error interrupt (`XIP_ERROR`).
    #[inline]
    pub fn enable_xip_error(self) -> (r: Self)
        ensures
            r.0 == with_flag(self.0, 24, true),
            flag(r.0, 24),
            rest_is_kept(self.0, r.0, 24, 1),
    {
        proof {
            lemma_set(self.0, Self::XIP_ERROR, 24, 1);
        }
        Self(self.0 | Self::XIP_ERROR)
    }

    /// Disable xip error interrupt.
    #[inline]
    pub fn disable_xip_error(self) -> (r: Self)
        ensures
            r.0 == with_flag(self.0, 24, false),
            !flag(r.0, 24),
            rest_is_kept(self.0, r.0, 24, 1),
    {
        proof {
            lemma_clear(self.0, Self::XIP_ERROR, 24, 1);
        }
        Self(self.0 & !Self::XIP_ERROR)
    }

    /// Check if xip error interrupt is enabled.
    #[inline]
    pub fn is_xip_error_enabled(self) -> (r: bool)
        ensures
            r == flag(self.0, 24),
    {
        proof {
            lemma_read(self.0, Self::XIP_ERROR, 24, 1);
        }
        self.0 & Self::XIP_ERROR != 0
    }

    /// Enable axi error interrupt (`AXI_ERROR`).
    #[inline]
    pub fn enable_axi_error(self) -> (r: Self)
        ensures
            r.0 == with_flag(self.0, 23, true),
            flag(r.0, 23),
            rest_is_kept(self.0, r.0, 23, 1),
    {
        proof {
            lemma_set(self.0, Self::AXI_ERROR, 23, 1);
        }
        Self(self.0 | Self::AXI_ERROR)
    }

    /// Disable axi error interrupt.
    #[inline]
    pub fn disable_axi_error(self) -> (r: Self)
        ensures
            r.0 == with_flag(self.0, 23, false),
            !flag(r.0, 23),
            rest_is_kept(self.0, r.0, 23, 1),
    {
        proof {
            lemma_clear(self.0, Self::AXI_ERROR, 23, 1);
        }
        Self(self.0 & !Self::AXI_ERROR)
    }

    /// Check if axi error interrupt is enabled.
    #[inline]
    pub fn is_axi_error_enabled(self) -> (r: bool)
        ensures
            r == flag(self.0, 23),
    {
        proof {
            lemma_read(self.0, Self::AXI_ERROR, 23, 1);
        }
        self.0 & Self::AXI_ERROR != 0
    }

    /// Enable opi error interrupt (`OPI_ERROR`).
    ///
    /// OPI protocol behavior configuration error.
    /// When XSPI is configured as OPI mode and LUT configuration does not comply with OPI protocol.
    #[inline]
    pub fn enable_opi_error(self) -> (r: Self)
        ensures
            r.0 == with_flag(self.0, 22, true),
            flag(r.0, 22),
            rest_is_kept(self.0, r.0, 22, 1),
    {
        proof {
            lemma_set(self.0, Self::OPI_ERROR, 22, 1);
        }
        Self(self.0 | Self::OPI_ERROR)
    }

    /// Disable opi error interrupt.
    #[inline]
    pub fn disable_opi_error(self) -> (r: Self)
        ensures
            r.0 == with_flag(self.0, 22, false),
            !flag(r.0, 22),
            rest_is_kept(self.0, r.0, 22, 1),
    {
        proof {
            lemma_clear(self.0, Self::OPI_ERROR, 22, 1);
        }
        Self(self.0 & !Self::OPI_ERROR)
    }

    /// Check if opi error interrupt is enabled.
    #[inline]
    pub fn is_opi_error_enabled(self) -> (r: bool)
        ensures
            r == flag(self.0, 22),
    {
        proof {
            lemma_read(self.0, Self::OPI_ERROR, 22, 1);
        }
        self.0 & Self::OPI_ERROR != 0
    }

    /// Enable hyperbus error interrupt (`HYPERBUS_ERROR`).
    ///
    /// HYPERBUS protocol behavior configuration error.
    /// When XSPI is configured as HYPERBUS mode and LUT configuration does not comply with HYPERBUS protocol.
    #[inline]
    pub fn enable_hyperbus_error(self) -> (r: Self)
        ensures
            r.0 == with_flag(self.0, 21, true),
            flag(r.0, 21),
            rest_is_kept(self.0, r.0, 21, 1),
    {
        proof {
            lemma_set(self.0, Self::HYPERBUS_ERROR, 21, 1);
        }
        Self(self.0 | Self::HYPERBUS_ERROR)
    }

    /// Disable hyperbus error interrupt.
    #[inline]
    pub fn disable_hyperbus_error(self) -> (r: Self)
        ensures
            r.0 == with_flag(self.0, 21, false),
            !flag(r.0, 21),
            rest_is_kept(self.0, r.0, 21, 1),
    {
        proof {
            lemma_clear(self.0, Self::HYPERBUS_ERROR, 21, 1);
        }
        Self(self.0 & !Self::HYPERBUS_ERROR)
    }

    /// Check if hyperbus error interrupt is enabled.
    #[inline]
    pub fn is_hyperbus_error_enabled(self) -> (r: bool)
        ensures
            r == flag(self.0, 21),
    {
        proof {
            lemma_read(self.0, Self::HYPERBUS_ERROR, 21, 1);
        }
        self.0 & Self::HYPERBUS_ERROR != 0
    }

    /// Enable xccela error interrupt (`XCCELA_ERROR`).
    ///
    /// XCCELA protocol behavior configuration error.
    /// When XSPI is configured as XCCELA mode and LUT configuration does not comply with XCCELA protocol.
    #[inline]
    pub fn enable_xccela_error(self) -> (r: Self)
        ensures
            r.0 == with_flag(self.0, 20, true),
            flag(r.0, 20),
            rest_is_kept(self.0, r.0, 20, 1),
    {
        proof {
            lemma_set(self.0, Self::XCCELA_ERROR, 20, 1);
        }
        Self(self.0 | Self::XCCELA_ERROR)
    }

    /// Disable xccela error interrupt.
    #[inline]
    pub fn disable_xccela_error(self) -> (r: Self)
        ensures
            r.0 == with_flag(self.0, 20, false),
            !flag(r.0, 20),
            rest_is_kept(self.0, r.0, 20, 1),
    {
        proof {
            lemma_clear(self.0, Self::XCCELA_ERROR, 20, 1);
        }
        Self(self.0 & !Self::XCCELA_ERROR)
    }

    /// Check if xccela error interrupt is enabled.
    #[inline]
    pub fn is_xccela_error_enabled(self) -> (r: bool)
        ensures
            r == flag(self.0, 20),
    {
        proof {
            lemma_read(self.0, Self::XCCELA_ERROR, 20, 1);
        }
        self.0 & Self::XCCELA_ERROR != 0
    }

    /// Enable axi transmission error interrupt (`AXI_TRAN_ERROR_EN`).
    #[inline]
    pub fn enable_axi_trans_error(self) -> (r: Self)
        ensures
            r.0 == with_flag(self.0, 19, true),
            flag(r.0, 19),
            rest_is_kept(self.0, r.0, 19, 1),
    {
        proof {
            lemma_set(self.0, Self::AXI_TRAN_ERROR_EN, 19, 1);
        }
        Self(self.0 | Self::AXI_TRAN_ERROR_EN)
    }

    /// Disable axi transmission error interrupt.
    #[inline]
    pub fn disable_axi_trans_error(self) -> (r: Self)
        ensures
            r.0 == with_flag(self.0, 19, false),
            !flag(r.0, 19),
            rest_is_kept(self.0, r.0, 19, 1),
    {
        proof {
            lemma_clear(self.0, Self::AXI_TRAN_ERROR_EN, 19, 1);
        }
        Self(self.0 & !Self::AXI_TRAN_ERROR_EN)
    }

    /// Check if axi transmission error interrupt is enabled.
    #[inline]
    pub fn is_axi_trans_error_enabled(self) -> (r: bool)
        ensures
            r == flag(self.0, 19),
    {
        proof {
            lemma_read(self.0, Self::AXI_TRAN_ERROR_EN, 19, 1);
        }
        self.0 & Self::AXI_TRAN_ERROR_EN != 0
    }

    /// Enable ahb transmission error interrupt (`AHB_TRAN_ERROR_EN`).
    #[inline]
    pub fn enable_ahb_trans_error(self) -> (r: Self)
        ensures
            r.0 == with_flag(self.0, 18, true),
            flag(r.0, 18),
            rest_is_kept(self.0, r.0, 18, 1),
    {
        proof {
            lemma_set(self.0, Self::AHB_TRAN_ERROR_EN, 18, 1);
        }
        Self(self.0 | Self::AHB_TRAN_ERROR_EN)
    }

    /// Disable ahb transmission error interrupt.
    #[inline]
    pub fn disable_ahb_trans_error(self) -> (r: Self)
        ensures
            r.0 == with_flag(self.0, 18, false),
            !flag(r.0, 18),
            rest_is_kept(self.0, r.0, 18, 1),
    {
        proof {
            lemma_clear(self.0, Self::AHB_TRAN_ERROR_EN, 18, 1);
        }
        Self(self.0 & !Self::AHB_TRAN_ERROR_EN)
    }

    /// Check if ahb transmission error interrupt is enabled.
    #[inline]
    pub fn is_ahb_trans_error_enabled(self) -> (r: bool)
        ensures
            r == flag(self.0, 18),
    {
        proof {
            lemma_read(self.0, Self::AHB_TRAN_ERROR_EN, 18, 1);
        }
        self.0 & Self::AHB_TRAN_ERROR_EN != 0
    }

    /// Enable lut instruction error interrupt (`LUT_INSTRUCTION_ERROR_EN`).
    #[inline]
    pub fn enable_lut_instr_error(self) -> (r: Self)
        ensures
            r.0 == with_flag(self.0, 17, true),
            flag(r.0, 17),
            rest_is_kept(self.0, r.0, 17, 1),
    {
        proof {
            lemma_set(self.0, Self::LUT_INSTRUCTION_ERROR_EN, 17, 1);
        }
        Self(self.0 | Self::LUT_INSTRUCTION_ERROR_EN)
    }

    /// Disable lut instruction error interrupt.
    #[inline]
    pub fn disable_lut_instr_error(self) -> (r: Self)
        ensures
            r.0 == with_flag(self.0, 17, false),
            !flag(r.0, 17),
            rest_is_kept(self.0, r.0, 17, 1),
    {
        proof {
            lemma_clear(self.0, Self::LUT_INSTRUCTION_ERROR_EN, 17, 1);
        }
        Self(self.0 & !Self::LUT_INSTRUCTION_ERROR_EN)
    }

    /// Check if lut instruction error interrupt is enabled.
    #[inline]
    pub fn is_lut_instr_error_enabled(self) -> (r: bool)
        ensures
            r == flag(self.0, 17),
    {
        proof {
            lemma_read(self.0, Self::LUT_INSTRUCTION_ERROR_EN, 17, 1);
        }
        self.0 & Self::LUT_INSTRUCTION_ERROR_EN != 0
    }

    /// Enable lut address operand error interrupt (`LUT_ADDR_OPRAND_ERROR_EN`).
    #[inline]
    pub fn enable_lut_addr_operand_error(self) -> (r: Self)
        ensures
            r.0 == with_flag(self.0, 16, true),
            flag(r.0, 16),
            rest_is_kept(self.0, r.0, 16, 1),
    {
        proof {
            lemma_set(self.0, Self::LUT_ADDR_OPRAND_ERROR_EN, 16, 1);
        }
        Self(self.0 | Self::LUT_ADDR_OPRAND_ERROR_EN)
    }

    /// Disable lut address operand error interrupt.
    #[inline]
    pub fn disable_lut_addr_operand_error(self) -> (r: Self)
        ensures
            r.0 == with_flag(self.0, 16, false),
            !flag(r.0, 16),
            rest_is_kept(self.0, r.0, 16, 1),
    {
        proof {
            lemma_clear(self.0, Self::LUT_ADDR_OPRAND_ERROR_EN, 16, 1);
        }
        Self(self.0 & !Self::LUT_ADDR_OPRAND_ERROR_EN)
    }

    /// Check if lut address operand error interrupt is enabled.
    #[inline]
    pub fn is_lut_addr_operand_error_enabled(self) -> (r: bool)
        ensures
            r == flag(self.0, 16),
    {
        proof {
            lemma_read(self.0, Self::LUT_ADDR_OPRAND_ERROR_EN, 16, 1);
        }
        self.0 & Self::LUT_ADDR_OPRAND_ERROR_EN != 0
    }

    /// Enable cs1 timeout interrupt (`CS1_TO_EN`).
    #[inline]
    pub fn enable_cs1_timeout(self) -> (r: Self)
        ensures
            r.0 == with_flag(self.0, 15, true),
            flag(r.0, 15),
            rest_is_kept(self.0, r.0, 15, 1),
    {
        proof {
            lemma_set(self.0, Self::CS1_TO_EN, 15, 1);
        }
        Self(self.0 | Self::CS1_TO_EN)
    }

    /// Disable cs1 timeout interrupt.
    #[inline]
    pub fn disable_cs1_timeout(self) -> (r: Self)
        ensures
            r.0 == with_flag(self.0, 15, false),
            !flag(r.0, 15),
            rest_is_kept(self.0, r.0, 15, 1),
    {
        proof {
            lemma_clear(self.0, Self::CS1_TO_EN, 15, 1);
        }
        Self(self.0 & !Self::CS1_TO_EN)
    }

    /// Check if cs1 timeout interrupt is enabled.
    #[inline]
    pub fn is_cs1_timeout_enabled(self) -> (r: bool)
        ensures
            r == flag(self.0, 15),
    {
        proof {
            lemma_read(self.0, Self::CS1_TO_EN, 15, 1);
        }
        self.0 & Self::CS1_TO_EN != 0
    }

    /// Enable cs0 timeout interrupt (`CS0_TO_EN`).
    #[inline]
    pub fn enable_cs0_timeout(self) -> (r: Self)
        ensures
            r.0 == with_flag(self.0, 14, true),
            flag(r.0, 14),
            rest_is_kept(self.0, r.0, 14, 1),
    {
        proof {
            lemma_set(self.0, Self::CS0_TO_EN, 14, 1);
        }
        Self(self.0 | Self::CS0_TO_EN)
    }

    /// Disable cs0 timeout interrupt.
    #[inline]
    pub fn disable_cs0_timeout(self) -> (r: Self)
        ensures
            r.0 == with_flag(self.0, 14, false),
            !flag(r.0, 14),
            rest_is_kept(self.0, r.0, 14, 1),
    {
        proof {
            lemma_clear(self.0, Self::CS0_TO_EN, 14, 1);
        }
        Self(self.0 & !Self::CS0_TO_EN)
    }

    /// Check if cs0 timeout interrupt is enabled.
    #[inline]
    pub fn is_cs0_timeout_enabled(self) -> (r: bool)
        ensures
            r == flag(self.0, 14),
    {
        proof {
            lemma_read(self.0, Self::CS0_TO_EN, 14, 1);
        }
        self.0 & Self::CS0_TO_EN != 0
    }

    /// Enable cs1 done interrupt (`CS1_DONE_EN`).
    #[inline]
    pub fn enable_cs1_done(self) -> (r: Self)
        ensures
            r.0 == with_flag(self.0, 13, true),
            flag(r.0, 13),
            rest_is_kept(self.0, r.0, 13, 1),
    {
        proof {
            lemma_set(self.0, Self::CS1_DONE_EN, 13, 1);
        }
        Self(self.0 | Self::CS1_DONE_EN)
    }

    /// Disable cs1 done interrupt.
    #[inline]
    pub fn disable_cs1_done(self) -> (r: Self)
        ensures
            r.0 == with_flag(self.0, 13, false),
            !flag(r.0, 13),
            rest_is_kept(self.0, r.0, 13, 1),
    {
        proof {
            lemma_clear(self.0, Self::CS1_DONE_EN, 13, 1);
        }
        Self(self.0 & !Self::CS1_DONE_EN)
    }

    /// Check if cs1 done interrupt is enabled.
    #[inline]
    pub fn is_cs1_done_enabled(self) -> (r: bool)
        ensures
            r == flag(self.0, 13),
    {
        proof {
            lemma_read(self.0, Self::CS1_DONE_EN, 13, 1);
        }
        self.0 & Self::CS1_DONE_EN != 0
    }

    /// Enable cs0 done interrupt (`CS0_DONE_EN`).
    #[inline]
    pub fn enable_cs0_done(self) -> (r: Self)
        ensures
            r.0 == with_flag(self.0, 12, true),
            flag(r.0, 12),
            rest_is_kept(self.0, r.0, 12, 1),
    {
        proof {
            lemma_set(self.0, Self::CS0_DONE_EN, 12, 1);
        }
        Self(self.0 | Self::CS0_DONE_EN)
    }

    /// Disable cs0 done interrupt.
    #[inline]
    pub fn disable_cs0_done(self) -> (r: Self)
        ensures
            r.0 == with_flag(self.0, 12, false),
            !flag(r.0, 12),
            rest_is_kept(self.0, r.0, 12, 1),
    {
        proof {
            lemma_clear(self.0, Self::CS0_DONE_EN, 12, 1);
        }
        Self(self.0 & !Self::CS0_DONE_EN)
    }

    /// Check if cs0 done interrupt is enabled.
    #[inline]
    pub fn is_cs0_done_enabled(self) -> (r: bool)
        ensures
            r == flag(self.0, 12),
    {
        proof {
            lemma_read(self.0, Self::CS0_DONE_EN, 12, 1);
        }
        self.0 & Self::CS0_DONE_EN != 0
    }

    /// Enable tx fifo underflow interrupt (`TF_UDR_INT_EN`).
    ///
    /// Generated when hardware reads from empty TX FIFO.
    #[inline]
    pub fn enable_tx_fifo_underflow(self) -> (r: Self)
        ensures
            r.0 == with_flag(self.0, 11, true),
            flag(r.0, 11),
            rest_is_kept(self.0, r.0, 11, 1),
    {
        proof {
            lemma_set(self.0, Self::TF_UDR_INT_EN, 11, 1);
        }
        Self(self.0 | Self::TF_UDR_INT_EN)
    }

    /// Disable tx fifo underflow interrupt.
    #[inline]
    pub fn disable_tx_fifo_underflow(self) -> (r: Self)
        ensures
            r.0 == with_flag(self.0, 11, false),
            !flag(r.0, 11),
            rest_is_kept(self.0, r.0, 11, 1),
    {
        proof {
            lemma_clear(self.0, Self::TF_UDR_INT_EN, 11, 1);
        }
        Self(self.0 & !Self::TF_UDR_INT_EN)
    }

    /// Check if tx fifo underflow interrupt is enabled.
    #[inline]
    pub fn is_tx_fifo_underflow_enabled(self) -> (r: bool)
        ensures
            r == flag(self.0, 11),
    {
        proof {
            lemma_read(self.0, Self::TF_UDR_INT_EN, 11, 1);
        }
        self.0 & Self::TF_UDR_INT_EN != 0
    }

    /// Enable tx fifo overflow interrupt (`TF_OVF_INT_EN`).
    ///
    /// Generated when CPU/DMA writes to full TX FIFO.
    #[inline]
    pub fn enable_tx_fifo_overflow(self) -> (r: Self)
        ensures
            r.0 == with_flag(self.0, 10, true),
            flag(r.0, 10),
            rest_is_kept(self.0, r.0, 10, 1),
    {
        proof {
            lemma_set(self.0, Self::TF_OVF_INT_EN, 10, 1);
        }
        Self(self.0 | Self::TF_OVF_INT_EN)
    }

    /// Disable tx fifo overflow interrupt.
    #[inline]
    pub fn disable_tx_fifo_overflow(self) -> (r: Self)
        ensures
            r.0 == with_flag(self.0, 10, false),
            !flag(r.0, 10),
            rest_is_kept(self.0, r.0, 10, 1),
    {
        proof {
            lemma_clear(self.0, Self::TF_OVF_INT_EN, 10, 1);
        }
        Self(self.0 & !Self::TF_OVF_INT_EN)
    }

    /// Check if tx fifo overflow interrupt is enabled.
    #[inline]
    pub fn is_tx_fifo_overflow_enabled(self) -> (r: bool)
        ensures
            r == flag(self.0, 10),
    {
        proof {
            lemma_read(self.0, Self::TF_OVF_INT_EN, 10, 1);
        }
        self.0 & Self::TF_OVF_INT_EN != 0
    }

    /// Enable rx fifo underflow interrupt (`RF_UDR_INT_EN`).
    ///
    /// Generated when CPU/DMA reads from empty RX FIFO.
    #[inline]
    pub fn enable_rx_fifo_underflow(self) -> (r: Self)
        ensures
            r.0 == with_flag(self.0, 9, true),
            flag(r.0, 9),
            rest_is_kept(self.0, r.0, 9, 1),
    {
        proof {
            lemma_set(self.0, Self::RF_UDR_INT_EN, 9, 1);
        }
        Self(self.0 | Self::RF_UDR_INT_EN)
    }

    /// Disable rx fifo underflow interrupt.
    #[inline]
    pub fn disable_rx_fifo_underflow(self) -> (r: Self)
        ensures
            r.0 == with_flag(self.0, 9, false),
            !flag(r.0, 9),
            rest_is_kept(self.0, r.0, 9, 1),
    {
        proof {
            lemma_clear(self.0, Self::RF_UDR_INT_EN, 9, 1);
        }
        Self(self.0 & !Self::RF_UDR_INT_EN)
    }

    /// Check if rx fifo underflow interrupt is enabled.
    #[inline]
    pub fn is_rx_fifo_underflow_enabled(self) -> (r: bool)
        ensures
            r == flag(self.0, 9),
    {
        proof {
            lemma_read(self.0, Self::RF_UDR_INT_EN, 9, 1);
        }
        self.0 & Self::RF_UDR_INT_EN != 0
    }

    /// Enable rx fifo overflow interrupt (`RF_OVF_INT_EN`).
    ///
    /// Generated when hardware writes to full RX FIFO.
    #[inline]
    pub fn enable_rx_fifo_overflow(self) -> (r: Self)
        ensures
            r.0 == with_flag(self.0, 8, true),
            flag(r.0, 8),
            rest_is_kept(self.0, r.0, 8, 1),
    {
        proof {
            lemma_set(self.0, Self::RF_OVF_INT_EN, 8, 1);
        }
        Self(self.0 | Self::RF_OVF_INT_EN)
    }

    /// Disable rx fifo overflow interrupt.
    #[inline]
    pub fn disable_rx_fifo_overflow(self) -> (r: Self)
        ensures
            r.0 == with_flag(self.0, 8, false),
            !flag(r.0, 8),
            rest_is_kept(self.0, r.0, 8, 1),
    {
        proof {
            lemma_clear(self.0, Self::RF_OVF_INT_EN, 8, 1);
        }
        Self(self.0 & !Self::RF_OVF_INT_EN)
    }

    /// Check if rx fifo overflow interrupt is enabled.
    #[inline]
    pub fn is_rx_fifo_overflow_enabled(self) -> (r: bool)
        ensures
            r == flag(self.0, 8),
    {
        proof {
            lemma_read(self.0, Self::RF_OVF_INT_EN, 8, 1);
        }
        self.0 & Self::RF_OVF_INT_EN != 0
    }

    /// Enable tx fifo full interrupt (`TX_FULL_INT_EN`).
    #[inline]
    pub fn enable_tx_fifo_full(self) -> (r: Self)
        ensures
            r.0 == with_flag(self.0, 6, true),
            flag(r.0, 6),
            rest_is_kept(self.0, r.0, 6, 1),
    {
        proof {
            lemma_set(self.0, Self::TX_FULL_INT_EN, 6, 1);
        }
        Self(self.0 | Self::TX_FULL_INT_EN)
    }

    /// Disable tx fifo full interrupt.
    #[inline]
    pub fn disable_tx_fifo_full(self) -> (r: Self)
        ensures
            r.0 == with_flag(self.0, 6, false),
            !flag(r.0, 6),
            rest_is_kept(self.0, r.0, 6, 1),
    {
        proof {
            lemma_clear(self.0, Self::TX_FULL_INT_EN, 6, 1);
        }
        Self(self.0 & !Self::TX_FULL_INT_EN)
    }

    /// Check if tx fifo full interrupt is enabled.
    #[inline]
    pub fn is_tx_fifo_full_enabled(self) -> (r: bool)
        ensures
            r == flag(self.0, 6),
    {
        proof {
            lemma_read(self.0, Self::TX_FULL_INT_EN, 6, 1);
        }
        self.0 & Self::TX_FULL_INT_EN != 0
    }

    /// Enable tx fifo empty interrupt (`TX_EMP_INT_EN`).
    #[inline]
    pub fn enable_tx_fifo_empty(self) -> (r: Self)
        ensures
            r.0 == with_flag(self.0, 5, true),
            flag(r.0, 5),
            rest_is_kept(self.0, r.0, 5, 1),
    {
        proof {
            lemma_set(self.0, Self::TX_EMP_INT_EN, 5, 1);
        }
        Self(self.0 | Self::TX_EMP_INT_EN)
    }

    /// Disable tx fifo empty interrupt.
    #[inline]
    pub fn disable_tx_fifo_empty(self) -> (r: Self)
        ensures
            r.0 == with_flag(self.0, 5, false),
            !flag(r.0, 5),
            rest_is_kept(self.0, r.0, 5, 1),
    {
        proof {
            lemma_clear(self.0, Self::TX_EMP_INT_EN, 5, 1);
        }
        Self(self.0 & !Self::TX_EMP_INT_EN)
    }

    /// Check if tx fifo empty interrupt is enabled.
    #[inline]
    pub fn is_tx_fifo_empty_enabled(self) -> (r: bool)
        ensures
            r == flag(self.0, 5),
    {
        proof {
            lemma_read(self.0, Self::TX_EMP_INT_EN, 5, 1);
        }
        self.0 & Self::TX_EMP_INT_EN != 0
    }

    /// Enable tx fifo empty request interrupt (`TX_ERQ_INT_EN`).
    #[inline]
    pub fn enable_tx_fifo_empty_req(self) -> (r: Self)
        ensures
            r.0 == with_flag(self.0, 4, true),
            flag(r.0, 4),
            rest_is_kept(self.0, r.0, 4, 1),
    {
        proof {
            lemma_set(self.0, Self::TX_ERQ_INT_EN, 4, 1);
        }
        Self(self.0 | Self::TX_ERQ_INT_EN)
    }

    /// Disable tx fifo empty request interrupt.
    #[inline]
    pub fn disable_tx_fifo_empty_req(self) -> (r: Self)
        ensures
            r.0 == with_flag(self.0, 4, false),
            !flag(r.0, 4),
            rest_is_kept(self.0, r.0, 4, 1),
    {
        proof {
            lemma_clear(self.0, Self::TX_ERQ_INT_EN, 4, 1);
        }
        Self(self.0 & !Self::TX_ERQ_INT_EN)
    }

    /// Check if tx fifo empty request interrupt is enabled.
    #[inline]
    pub fn is_tx_fifo_empty_req_enabled(self) -> (r: bool)
        ensures
            r == flag(self.0, 4),
    {
        proof {
            lemma_read(self.0, Self::TX_ERQ_INT_EN, 4, 1);
        }
        self.0 & Self::TX_ERQ_INT_EN != 0
    }

    /// Enable rx fifo full interrupt (`RX_FULL_INT_EN`).
    #[inline]
    pub fn enable_rx_fifo_full(self) -> (r: Self)
        ensures
            r.0 == with_flag(self.0, 2, true),
            flag(r.0, 2),
            rest_is_kept(self.0, r.0, 2, 1),
    {
        proof {
            lemma_set(self.0, Self::RX_FULL_INT_EN, 2, 1);
        }
        Self(self.0 | Self::RX_FULL_INT_EN)
    }

    /// Disable rx fifo full interrupt.
    #[inline]
    pub fn disable_rx_fifo_full(self) -> (r: Self)
        ensures
            r.0 == with_flag(self.0, 2, false),
            !flag(r.0, 2),
            rest_is_kept(self.0, r.0, 2, 1),
    {
        proof {
            lemma_clear(self.0, Self::RX_FULL_INT_EN, 2, 1);
        }
        Self(self.0 & !Self::RX_FULL_INT_EN)
    }

    /// Check if rx fifo full interrupt is enabled.
    #[inline]
    pub fn is_rx_fifo_full_enabled(self) -> (r: bool)
        ensures
            r == flag(self.0, 2),
    {
        proof {
            lemma_read(self.0, Self::RX_FULL_INT_EN, 2, 1);
        }
        self.0 & Self::RX_FULL_INT_EN != 0
    }

    /// Enable rx fifo empty interrupt (`RX_EMP_INT_EN`).
    #[inline]
    pub fn enable_rx_fifo_empty(self) -> (r: Self)
        ensures
            r.0 == with_flag(self.0, 1, true),
            flag(r.0, 1),
            rest_is_kept(self.0, r.0, 1, 1),
    {
        proof {
            lemma_set(self.0, Self::RX_EMP_INT_EN, 1, 1);
        }
        Self(self.0 | Self::RX_EMP_INT_EN)
    }

    /// Disable rx fifo empty interrupt.
    #[inline]
    pub fn disable_rx_fifo_empty(self) -> (r: Self)
        ensures
            r.0 == with_flag(self.0, 1, false),
            !flag(r.0, 1),
            rest_is_kept(self.0, r.0, 1, 1),
    {
        proof {
            lemma_clear(self.0, Self::RX_EMP_INT_EN, 1, 1);
        }
        Self(self.0 & !Self::RX_EMP_INT_EN)
    }

    /// Check if rx fifo empty interrupt is enabled.
    #[inline]
    pub fn is_rx_fifo_empty_enabled(self) -> (r: bool)
        ensures
            r == flag(self.0, 1),
    {
        proof {
            lemma_read(self.0, Self::RX_EMP_INT_EN, 1, 1);
        }
        self.0 & Self::RX_EMP_INT_EN != 0
    }

    /// Enable rx fifo empty request interrupt (`RX_ERQ_INT_EN`).
    #[inline]
    pub fn enable_rx_fifo_empty_req(self) -> (r: Self)
        ensures
            r.0 == with_flag(self.0, 0, true),
            flag(r.0, 0),
            rest_is_kept(self.0, r.0, 0, 1),
    {
        proof {
            lemma_set(self.0, Self::RX_ERQ_INT_EN, 0, 1);
        }
        Self(self.0 | Self::RX_ERQ_INT_EN)
    }

    /// Disable rx fifo empty request interrupt.
    #[inline]
    pub fn disable_rx_fifo_empty_req(self) -> (r: Self)
        ensures
            r.0 == with_flag(self.0, 0, false),
            !flag(r.0, 0),
            rest_is_kept(self.0, r.0, 0, 1),
    {
        proof {
            lemma_clear(self.0, Self::RX_ERQ_INT_EN, 0, 1);
        }
        Self(self.0 & !Self::RX_ERQ_INT_EN)
    }

    /// Check if rx fifo empty request interrupt is enabled.
    #[inline]
    pub fn is_rx_fifo_empty_req_enabled(self) -> (r: bool)
        ensures
            r == flag(self.0, 0),
    {
        proof {
            lemma_read(self.0, Self::RX_ERQ_INT_EN, 0, 1);
        }
        self.0 & Self::RX_ERQ_INT_EN != 0
    }
}

/// XSPI interrupt status register.
#[derive(Clone, Copy, Debug, PartialEq, Eq, PartialOrd, Ord, Hash, Structural)]
pub struct IntStatus(pub u32);

impl IntStatus {
    const XIP_ERROR: u32 = 0x100_0000;
    const AXI_ERROR: u32 = 0x80_0000;
    const OPI_ERROR: u32 = 0x40_0000;
    const HYPERBUS_ERROR: u32 = 0x20_0000;
    const XCCELA_ERROR: u32 = 0x10_0000;
    const AXI_TRAN_ERROR: u32 = 0x8_0000;
    const AHB_TRAN_ERROR: u32 = 0x4_0000;
    const LUT_INSTRUCTION_ERROR: u32 = 0x2_0000;
    const LUT_ADDR_OPRAND_ERROR: u32 = 0x1_0000;
    const CS1_TO: u32 = 0x8000;
    const CS0_TO: u32 = 0x4000;
    const CS1_DONE: u32 = 0x2000;
    const CS0_DONE: u32 = 0x1000;
    const TF_UDF: u32 = 0x800;
    const TF_OVF: u32 = 0x400;
    const RF_UDF: u32 = 0x200;
    const RF_OVF: u32 = 0x100;
    const TX_FULL: u32 = 0x40;
    const TX_EMP: u32 = 0x20;
    const TX_READY: u32 = 0x10;
    const RX_FULL: u32 = 0x4;
    const RX_EMP: u32 = 0x2;
    const RX_READY: u32 = 0x1;

    /// Check if xip error interrupt is pending (`XIP_ERROR`).
    #[inline]
    pub fn is_xip_err_pending(self) -> (r: bool)
        ensures
            r == flag(self.0, 24),
    {
        proof {
            lemma_read(self.0, Self::XIP_ERROR, 24, 1);
        }
        self.0 & Self::XIP_ERROR != 0
    }

    /// Clear xip error interrupt.
    #[inline]
    pub fn clear_xip_err(self) -> (r: Self)
        ensures
            r.0 == with_flag(self.0, 24, true),
            flag(r.0, 24),
            rest_is_kept(self.0, r.0, 24, 1),
    {
        proof {
            lemma_set(self.0, Self::XIP_ERROR, 24, 1);
        }
        Self(self.0 | Self::XIP_ERROR)
    }

    /// Check if axi error interrupt is pending (`AXI_ERROR`).
    #[inline]
    pub fn is_axi_err_pending(self) -> (r: bool)
        ensures
            r == flag(self.0, 23),
    {
        proof {
            lemma_read(self.0, Self::AXI_ERROR, 23, 1);
        }
        self.0 & Self::AXI_ERROR != 0
    }

    /// Clear axi error interrupt.
    #[inline]
    pub fn clear_axi_err(self) -> (r: Self)
        ensures
            r.0 == with_flag(self.0, 23, true),
            flag(r.0, 23),
            rest_is_kept(self.0, r.0, 23, 1),
    {
        proof {
            lemma_set(self.0, Self::AXI_ERROR, 23, 1);
        }
        Self(self.0 | Self::AXI_ERROR)
    }

    /// Check if opi error interrupt is pending (`OPI_ERROR`).
    ///
    /// Set to 1 indicates XSPI is configured as OPI mode and LUT configuration does not comply with OPI protocol.
    #[inline]
    pub fn is_opi_err_pending(self) -> (r: bool)
        ensures
            r == flag(self.0, 22),
    {
        proof {
            lemma_read(self.0, Self::OPI_ERROR, 22, 1);
        }
        self.0 & Self::OPI_ERROR != 0
    }

    /// Clear opi error interrupt.
    #[inline]
    pub fn clear_opi_err(self) -> (r: Self)
        ensures
            r.0 == with_flag(self.0, 22, true),
            flag(r.0, 22),
            rest_is_kept(self.0, r.0, 22, 1),
    {
        proof {
            lemma_set(self.0, Self::OPI_ERROR, 22, 1);
        }
        Self(self.0 | Self::OPI_ERROR)
    }

    /// Check if hyperbus error interrupt is pending (`HYPERBUS_ERROR`).
    ///
    /// Set to 1 indicates XSPI is configured as HYPERBUS mode and LUT configuration does not comply with HYPERBUS protocol.
    #[inline]
    pub fn is_hyperbus_err_pending(self) -> (r: bool)
        ensures
            r == flag(self.0, 21),
    {
        proof {
            lemma_read(self.0, Self::HYPERBUS_ERROR, 21, 1);
        }
        self.0 & Self::HYPERBUS_ERROR != 0
    }

    /// Clear hyperbus error interrupt.
    #[inline]
    pub fn clear_hyperbus_err(self) -> (r: Self)
        ensures
            r.0 == with_flag(self.0, 21, true),
            flag(r.0, 21),
            rest_is_kept(self.0, r.0, 21, 1),
    {
        proof {
            lemma_set(self.0, Self::HYPERBUS_ERROR, 21, 1);
        }
        Self(self.0 | Self::HYPERBUS_ERROR)
    }

    /// Check if xccela error interrupt is pending (`XCCELA_ERROR`).
    ///
    /// Set to 1 indicates XSPI is configured as XCCELA mode and LUT configuration does not comply with XCCELA protocol.
    #[inline]
    pub fn is_xccela_err_pending(self) -> (r: bool)
        ensures
            r == flag(self.0, 20),
    {
        proof {
            lemma_read(self.0, Self::XCCELA_ERROR, 20, 1);
        }
        self.0 & Self::XCCELA_ERROR != 0
    }

    /// Clear xccela error interrupt.
    #[inline]
    pub fn clear_xccela_err(self) -> (r: Self)
        ensures
            r.0 == with_flag(self.0, 20, true),
            flag(r.0, 20),
            rest_is_kept(self.0, r.0, 20, 1),
    {
        proof {
            lemma_set(self.0, Self::XCCELA_ERROR, 20, 1);
        }
        Self(self.0 | Self::XCCELA_ERROR)
    }

    /// Check if axi transmission error interrupt is pending (`AXI_TRAN_ERROR`).
    ///
    /// Set to 1 indicates AXI transfer request while AHB is transmitting.
    /// Need to end AHB transfer immediately and start AXI transfer.
    #[inline]
    pub fn is_axi_trans_err_pending(self) -> (r: bool)
        ensures
            r == flag(self.0, 19),
    {
        proof {
            lemma_read(self.0, Self::AXI_TRAN_ERROR, 19, 1);
        }
        self.0 & Self::AXI_TRAN_ERROR != 0
    }

    /// Clear axi transmission error interrupt.
    #[inline]
    pub fn clear_axi_trans_err(self) -> (r: Self)
        ensures
            r.0 == with_flag(self.0, 19, true),
            flag(r.0, 19),
            rest_is_kept(self.0, r.0, 19, 1),
    {
        proof {
            lemma_set(self.0, Self::AXI_TRAN_ERROR, 19, 1);
        }
        Self(self.0 | Self::AXI_TRAN_ERROR)
    }

    /// Check if ahb transmission error interrupt is pending (`AHB_TRAN_ERROR`).
    ///
    /// Set to 1 indicates AHB transfer request while AXI is transmitting.
    #[inline]
    pub fn is_ahb_trans_err_pending(self) -> (r: bool)
        ensures
            r == flag(self.0, 18),
    {
        proof {
            lemma_read(self.0, Self::AHB_TRAN_ERROR, 18, 1);
        }
        self.0 & Self::AHB_TRAN_ERROR != 0
    }

    /// Clear ahb transmission error interrupt.
    #[inline]
    pub fn clear_ahb_trans_err(self) -> (r: Self)
        ensures
            r.0 == with_flag(self.0, 18, true),
            flag(r.0, 18),
            rest_is_kept(self.0, r.0, 18, 1),
    {
        proof {
            lemma_set(self.0, Self::AHB_TRAN_ERROR, 18, 1);
        }
        Self(self.0 | Self::AHB_TRAN_ERROR)
    }

    /// Check if lut instruction error interrupt is pending (`LUT_INSTRUCTION_ERROR`).
    ///
    /// Set to 1 indicates LUT configuration has undefined instruction.
    #[inline]
    pub fn is_lut_instr_err_pending(self) -> (r: bool)
        ensures
            r == flag(self.0, 17),
    {
        proof {
            lemma_read(self.0, Self::LUT_INSTRUCTION_ERROR, 17, 1);
        }
        self.0 & Self::LUT_INSTRUCTION_ERROR != 0
    }

    /// Clear lut instruction error interrupt.
    #[inline]
    pub fn clear_lut_instr_err(self) -> (r: Self)
        ensures
            r.0 == with_flag(self.0, 17, true),
            flag(r.0, 17),
            rest_is_kept(self.0, r.0, 17, 1),
    {
        proof {
            lemma_set(self.0, Self::LUT_INSTRUCTION_ERROR, 17, 1);
        }
        Self(self.0 | Self::LUT_INSTRUCTION_ERROR)
    }

    /// Check if lut address operand error interrupt is pending (`LUT_ADDR_OPRAND_ERROR`).
    ///
    /// Set to 1 indicates LUT address width configuration error.
    #[inline]
    pub fn is_lut_addr_operand_err_pending(self) -> (r: bool)
        ensures
            r == flag(self.0, 16),
    {
        proof {
            lemma_read(self.0, Self::LUT_ADDR_OPRAND_ERROR, 16, 1);
        }
        self.0 & Self::LUT_ADDR_OPRAND_ERROR != 0
    }

    /// Clear lut address operand error interrupt.
    #[inline]
    pub fn clear_lut_addr_operand_err(self) -> (r: Self)
        ensures
            r.0 == with_flag(self.0, 16, true),
            flag(r.0, 16),
            rest_is_kept(self.0, r.0, 16, 1),
    {
        proof {
            lemma_set(self.0, Self::LUT_ADDR_OPRAND_ERROR, 16, 1);
        }
        Self(self.0 | Self::LUT_ADDR_OPRAND_ERROR)
    }

    /// Check if cs1 timeout interrupt is pending (`CS1_TO`).
    #[inline]
    pub fn is_cs1_timeout_pending(self) -> (r: bool)
        ensures
            r == flag(self.0, 15),
    {
        proof {
            lemma_read(self.0, Self::CS1_TO, 15, 1);
        }
        self.0 & Self::CS1_TO != 0
    }

    /// Clear cs1 timeout interrupt.
    #[inline]
    pub fn clear_cs1_timeout(self) -> (r: Self)
        ensures
            r.0 == with_flag(self.0, 15, true),
            flag(r.0, 15),
            rest_is_kept(self.0, r.0, 15, 1),
    {
        proof {
            lemma_set(self.0, Self::CS1_TO, 15, 1);
        }
        Self(self.0 | Self::CS1_TO)
    }

    /// Check if cs0 timeout interrupt is pending (`CS0_TO`).
    #[inline]
    pub fn is_cs0_timeout_pending(self) -> (r: bool)
        ensures
            r == flag(self.0, 14),
    {
        proof {
            lemma_read(self.0, Self::CS0_TO, 14, 1);
        }
        self.0 & Self::CS0_TO != 0
    }

    /// Clear cs0 timeout interrupt.
    #[inline]
    pub fn clear_cs0_timeout(self) -> (r: Self)
        ensures
            r.0 == with_flag(self.0, 14, true),
            flag(r.0, 14),
            rest_is_kept(self.0, r.0, 14, 1),
    {
        proof {
            lemma_set(self.0, Self::CS0_TO, 14, 1);
        }
        Self(self.0 | Self::CS0_TO)
    }

    /// Check if cs1 done interrupt is pending (`CS1_DONE`).
    #[inline]
    pub fn is_cs1_done_pending(self) -> (r: bool)
        ensures
            r == flag(self.0, 13),
    {
        proof {
            lemma_read(self.0, Self::CS1_DONE, 13, 1);
        }
        self.0 & Self::CS1_DONE != 0
    }

    /// Clear cs1 done interrupt.
    #[inline]
    pub fn clear_cs1_done(self) -> (r: Self)
        ensures
            r.0 == with_flag(self.0, 13, true),
            flag(r.0, 13),
            rest_is_kept(self.0, r.0, 13, 1),
    {
        proof {
            lemma_set(self.0, Self::CS1_DONE, 13, 1);
        }
        Self(self.0 | Self::CS1_DONE)
    }

    /// Check if cs0 done interrupt is pending (`CS0_DONE`).
    #[inline]
    pub fn is_cs0_done_pending(self) -> (r: bool)
        ensures
            r == flag(self.0, 12),
    {
        proof {
            lemma_read(self.0, Self::CS0_DONE, 12, 1);
        }
        self.0 & Self::CS0_DONE != 0
    }

    /// Clear cs0 done interrupt.
    #[inline]
    pub fn clear_cs0_done(self) -> (r: Self)
        ensures
            r.0 == with_flag(self.0, 12, true),
            flag(r.0, 12),
            rest_is_kept(self.0, r.0, 12, 1),
    {
        proof {
            lemma_set(self.0, Self::CS0_DONE, 12, 1);
        }
        Self(self.0 | Self::CS0_DONE)
    }

    /// Check if tx fifo underflow interrupt is pending (`TF_UDF`).
    #[inline]
    pub fn is_tx_fifo_underflow_pending(self) -> (r: bool)
        ensures
            r == flag(self.0, 11),
    {
        proof {
            lemma_read(self.0, Self::TF_UDF, 11, 1);
        }
        self.0 & Self::TF_UDF != 0
    }

    /// Clear tx fifo underflow interrupt.
    #[inline]
    pub fn clear_tx_fifo_underflow(self) -> (r: Self)
        ensures
            r.0 == with_flag(self.0, 11, true),
            flag(r.0, 11),
            rest_is_kept(self.0, r.0, 11, 1),
    {
        proof {
            lemma_set(self.0, Self::TF_UDF, 11, 1);
        }
        Self(self.0 | Self::TF_UDF)
    }

    /// Check if tx fifo overflow interrupt is pending (`TF_OVF`).
    #[inline]
    pub fn is_tx_fifo_overflow_pending(self) -> (r: bool)
        ensures
            r == flag(self.0, 10),
    {
        proof {
            lemma_read(self.0, Self::TF_OVF, 10, 1);
        }
        self.0 & Self::TF_OVF != 0
    }

    /// Clear tx fifo overflow interrupt.
    #[inline]
    pub fn clear_tx_fifo_overflow(self) -> (r: Self)
        ensures
            r.0 == with_flag(self.0, 10, true),
            flag(r.0, 10),
            rest_is_kept(self.0, r.0, 10, 1),
    {
        proof {
            lemma_set(self.0, Self::TF_OVF, 10, 1);
        }
        Self(self.0 | Self::TF_OVF)
    }

    /// Check if rx fifo underflow interrupt is pending (`RF_UDF`).
    #[inline]
    pub fn is_rx_fifo_underflow_pending(self) -> (r: bool)
        ensures
            r == flag(self.0, 9),
    {
        proof {
            lemma_read(self.0, Self::RF_UDF, 9, 1);
        }
        self.0 & Self::RF_UDF != 0
    }

    /// Clear rx fifo underflow interrupt.
    #[inline]
    pub fn clear_rx_fifo_underflow(self) -> (r: Self)
        ensures
            r.0 == with_flag(self.0, 9, true),
            flag(r.0, 9),
            rest_is_kept(self.0, r.0, 9, 1),
    {
        proof {
            lemma_set(self.0, Self::RF_UDF, 9, 1);
        }
        Self(self.0 | Self::RF_UDF)
    }

    /// Check if rx fifo overflow interrupt is pending (`RF_OVF`).
    #[inline]
    pub fn is_rx_fifo_overflow_pending(self) -> (r: bool)
        ensures
            r == flag(self.0, 8),
    {
        proof {
            lemma_read(self.0, Self::RF_OVF, 8, 1);
        }
        self.0 & Self::RF_OVF != 0
    }

    /// Clear rx fifo overflow interrupt.
    #[inline]
    pub fn clear_rx_fifo_overflow(self) -> (r: Self)
        ensures
            r.0 == with_flag(self.0, 8, true),
            flag(r.0, 8),
            rest_is_kept(self.0, r.0, 8, 1),
    {
        proof {
            lemma_set(self.0, Self::RF_OVF, 8, 1);
        }
        Self(self.0 | Self::RF_OVF)
    }

    /// Check if tx fifo full interrupt is pending (`TX_FULL`).
    #[inline]
    pub fn is_tx_fifo_full_pending(self) -> (r: bool)
        ensures
            r == flag(self.0, 6),
    {
        proof {
            lemma_read(self.0, Self::TX_FULL, 6, 1);
        }
        self.0 & Self::TX_FULL != 0
    }

    /// Clear tx fifo full interrupt.
    #[inline]
    pub fn clear_tx_fifo_full(self) -> (r: Self)
        ensures
            r.0 == with_flag(self.0, 6, true),
            flag(r.0, 6),
            rest_is_kept(self.0, r.0, 6, 1),
    {
        proof {
            lemma_set(self.0, Self::TX_FULL, 6, 1);
        }
        Self(self.0 | Self::TX_FULL)
    }

    /// Check if tx fifo empty interrupt is pending (`TX_EMP`).
    #[inline]
    pub fn is_tx_fifo_empty_pending(self) -> (r: bool)
        ensures
            r == flag(self.0, 5),
    {
        proof {
            lemma_read(self.0, Self::TX_EMP, 5, 1);
        }
        self.0 & Self::TX_EMP != 0
    }

    /// Clear tx fifo empty interrupt.
    #[inline]
    pub fn clear_tx_fifo_empty(self) -> (r: Self)
        ensures
            r.0 == with_flag(self.0, 5, true),
            flag(r.0, 5),
            rest_is_kept(self.0, r.0, 5, 1),
    {
        proof {
            lemma_set(self.0, Self::TX_EMP, 5, 1);
        }
        Self(self.0 | Self::TX_EMP)
    }

    /// Check if tx fifo ready interrupt is pending (`TX_READY`).
    #[inline]
    pub fn is_tx_fifo_ready_pending(self) -> (r: bool)
        ensures
            r == flag(self.0, 4),
    {
        proof {
            lemma_read(self.0, Self::TX_READY, 4, 1);
        }
        self.0 & Self::TX_READY != 0
    }

    /// Clear tx fifo ready interrupt.
    #[inline]
    pub fn clear_tx_fifo_ready(self) -> (r: Self)
        ensures
            r.0 == with_flag(self.0, 4, true),
            flag(r.0, 4),
            rest_is_kept(self.0, r.0, 4, 1),
    {
        proof {
            lemma_set(self.0, Self::TX_READY, 4, 1);
        }
        Self(self.0 | Self::TX_READY)
    }

    /// Check if rx fifo full interrupt is pending (`RX_FULL`).
    #[inline]
    pub fn is_rx_fifo_full_pending(self) -> (r: bool)
        ensures
            r == flag(self.0, 2),
    {
        proof {
            lemma_read(self.0, Self::RX_FULL, 2, 1);
        }
        self.0 & Self::RX_FULL != 0
    }

    /// Clear rx fifo full interrupt.
    #[inline]
    pub fn clear_rx_fifo_full(self) -> (r: Self)
        ensures
            r.0 == with_flag(self.0, 2, true),
            flag(r.0, 2),
            rest_is_kept(self.0, r.0, 2, 1),
    {
        proof {
            lemma_set(self.0, Self::RX_FULL, 2, 1);
        }
        Self(self.0 | Self::RX_FULL)
    }

    /// Check if rx fifo empty interrupt is pending (`RX_EMP`).
    #[inline]
    pub fn is_rx_fifo_empty_pending(self) -> (r: bool)
        ensures
            r == flag(self.0, 1),
    {
        proof {
            lemma_read(self.0, Self::RX_EMP, 1, 1);
        }
        self.0 & Self::RX_EMP != 0
    }

    /// Clear rx fifo empty interrupt.
    #[inline]
    pub fn clear_rx_fifo_empty(self) -> (r: Self)
        ensures
            r.0 == with_flag(self.0, 1, true),
            flag(r.0, 1),
            rest_is_kept(self.0, r.0, 1, 1),
    {
        proof {
            lemma_set(self.0, Self::RX_EMP, 1, 1);
        }
        Self(self.0 | Self::RX_EMP)
    }

    /// Check if rx fifo ready interrupt is pending (`RX_READY`).
    #[inline]
    pub fn is_rx_fifo_ready_pending(self) -> (r: bool)
        ensures
            r == flag(self.0, 0),
    {
        proof {
            lemma_read(self.0, Self::RX_READY, 0, 1);
        }
        self.0 & Self::RX_READY != 0
    }

    /// Clear rx fifo ready interrupt.
    #[inline]
    pub fn clear_rx_fifo_ready(self) -> (r: Self)
        ensures
            r.0 == with_flag(self.0, 0, true),
            flag(r.0, 0),
            rest_is_kept(self.0, r.0, 0, 1),
    {
        proof {
            lemma_set(self.0, Self::RX_READY, 0, 1);
        }
        Self(self.0 | Self::RX_READY)
    }
}

/// XSPI fifo control register.
#[derive(Clone, Copy, Debug, PartialEq, Eq, PartialOrd, Ord, Hash, Structural)]
pub struct FifoControl(pub u32);

impl FifoControl {
    const TX_FIFO_RST: u32 = 0x8000_0000;
    const TF_DRQ_EN: u32 = 0x100_0000;
    const TX_TRIG_LEVEL: u32 = 0x7F_0000;
    const RF_RST: u32 = 0x8000;
    const RF_DRQ_EN: u32 = 0x100;
    const RX_TRIG_LEVEL: u32 = 0x7F;

    /// Set tx fifo reset bit (`TX_FIFO_RST`).
    #[inline]
    pub fn set_tx_fifo_reset(self, set: bool) -> (r: Self)
        ensures
            r.0 == with_flag(self.0, 31, set),
            flag(r.0, 31) == set,
            rest_is_kept(self.0, r.0, 31, 1),
    {
        proof {
            lemma_set(self.0, Self::TX_FIFO_RST, 31, 1);
            lemma_clear(self.0, Self::TX_FIFO_RST, 31, 1);
        }
        if set {
            Self(self.0 | Self::TX_FIFO_RST)
        } else {
            Self(self.0 & !Self::TX_FIFO_RST)
        }
    }

    /// Get tx fifo reset bit.
    #[inline]
    pub fn tx_fifo_reset(self) -> (r: bool)
        ensures
            r == flag(self.0, 31),
    {
        proof {
            lemma_read(self.0, Self::TX_FIFO_RST, 31, 1);
        }
        self.0 & Self::TX_FIFO_RST != 0
    }

    /// Enable tx fifo dma request (`TF_DRQ_EN`).
    ///
    /// DMA transfer is requested when TX FIFO data depth is less than the trigger level.
    #[inline]
    pub fn enable_tx_dma_req(self) -> (r: Self)
        ensures
            r.0 == with_flag(self.0, 24, true),
            flag(r.0, 24),
            rest_is_kept(self.0, r.0, 24, 1),
    {
        proof {
            lemma_set(self.0, Self::TF_DRQ_EN, 24, 1);
        }
        Self(self.0 | Self::TF_DRQ_EN)
    }

    /// Disable tx fifo dma request.
    #[inline]
    pub fn disable_tx_dma_req(self) -> (r: Self)
        ensures
            r.0 == with_flag(self.0, 24, false),
            !flag(r.0, 24),
            rest_is_kept(self.0, r.0, 24, 1),
    {
        proof {
            lemma_clear(self.0, Self::TF_DRQ_EN, 24, 1);
        }
        Self(self.0 & !Self::TF_DRQ_EN)
    }

    /// Check if tx fifo dma request is enabled.
    #[inline]
    pub fn is_tx_dma_req_enabled(self) -> (r: bool)
        ensures
            r == flag(self.0, 24),
    {
        proof {
            lemma_read(self.0, Self::TF_DRQ_EN, 24, 1);
        }
        self.0 & Self::TF_DRQ_EN != 0
    }

    /// Set tx fifo trigger level (`TX_TRIG_LEVEL`).
    ///
    /// Aborts if `level` is not below `0x80`.
    #[inline]
    pub fn set_tx_trigger_level(self, level: u8) -> (r: Self)
        requires
            level < 0x80,
        ensures
            r.0 == with_field(self.0, 16, 7, level as int),
            field(r.0, 16, 7) == level,
            rest_is_kept(self.0, r.0, 16, 7),
    {
        runtime_assert(level < 0x80);
        proof {
            lemma_write(self.0, Self::TX_TRIG_LEVEL, 16, 7, level as u32);
        }
        Self((self.0 & !Self::TX_TRIG_LEVEL) | (Self::TX_TRIG_LEVEL & ((level as u32) << 16)))
    }

    /// Get tx fifo trigger level.
    #[inline]
    pub fn tx_trigger_level(self) -> (r: u8)
        ensures
            r == field(self.0, 16, 7),
    {
        proof {
            lemma_read(self.0, Self::TX_TRIG_LEVEL, 16, 7);
        }
        ((self.0 & Self::TX_TRIG_LEVEL) >> 16) as u8
    }

    /// Set rx fifo reset bit (`RF_RST`).
    #[inline]
    pub fn set_rx_fifo_reset(self, set: bool) -> (r: Self)
        ensures
            r.0 == with_flag(self.0, 15, set),
            flag(r.0, 15) == set,
            rest_is_kept(self.0, r.0, 15, 1),
    {
        proof {
            lemma_set(self.0, Self::RF_RST, 15, 1);
            lemma_clear(self.0, Self::RF_RST, 15, 1);
        }
        if set {
            Self(self.0 | Self::RF_RST)
        } else {
            Self(self.0 & !Self::RF_RST)
        }
    }

    /// Get rx fifo reset bit.
    #[inline]
    pub fn rx_fifo_reset(self) -> (r: bool)
        ensures
            r == flag(self.0, 15),
    {
        proof {
            lemma_read(self.0, Self::RF_RST, 15, 1);
        }
        self.0 & Self::RF_RST != 0
    }

    /// Enable rx fifo dma request (`RF_DRQ_EN`).
    ///
    /// DMA transfer is requested when RX FIFO data depth is greater than the trigger level.
    #[inline]
    pub fn enable_rx_dma_req(self) -> (r: Self)
        ensures
            r.0 == with_flag(self.0, 8, true),
            flag(r.0, 8),
            rest_is_kept(self.0, r.0, 8, 1),
    {
        proof {
            lemma_set(self.0, Self::RF_DRQ_EN, 8, 1);
        }
        Self(self.0 | Self::RF_DRQ_EN)
    }

    /// Disable rx fifo dma request.
    #[inline]
    pub fn disable_rx_dma_req(self) -> (r: Self)
        ensures
            r.0 == with_flag(self.0, 8, false),
            !flag(r.0, 8),
            rest_is_kept(self.0, r.0, 8, 1),
    {
        proof {
            lemma_clear(self.0, Self::RF_DRQ_EN, 8, 1);
        }
        Self(self.0 & !Self::RF_DRQ_EN)
    }

    /// Check if rx fifo dma request is enabled.
    #[inline]
    pub fn is_rx_dma_req_enabled(self) -> (r: bool)
        ensures
            r == flag(self.0, 8),
    {
        proof {
            lemma_read(self.0, Self::RF_DRQ_EN, 8, 1);
        }
        self.0 & Self::RF_DRQ_EN != 0
    }

    /// Set rx fifo trigger level (`RX_TRIG_LEVEL`).
    ///
    /// Aborts if `level` is not below `0x80`.
    #[inline]
    pub fn set_rx_trigger_level(self, level: u8) -> (r: Self)
        requires
            level < 0x80,
        ensures
            r.0 == with_field(self.0, 0, 7, level as int),
            field(r.0, 0, 7) == level,
            rest_is_kept(self.0, r.0, 0, 7),
    {
        runtime_assert(level < 0x80);
        proof {
            lemma_write(self.0, Self::RX_TRIG_LEVEL, 0, 7, level as u32);
        }
        Self((self.0 & !Self::RX_TRIG_LEVEL) | (Self::RX_TRIG_LEVEL & (level as u32)))
    }

    /// Get rx fifo trigger level.
    #[inline]
    pub fn rx_trigger_level(self) -> (r: u8)
        ensures
            r == field(self.0, 0, 7),
    {
        proof {
            lemma_read(self.0, Self::RX_TRIG_LEVEL, 0, 7);
        }
        (self.0 & Self::RX_TRIG_LEVEL) as u8
    }
}

/// XSPI FIFO status register.
#[derive(Clone, Copy, Debug, PartialEq, Eq, PartialOrd, Ord, Hash, Structural)]
pub struct FifoStatus(pub u32);

impl FifoStatus {
    const TB_WR: u32 = 0x8000_0000;
    const TB_CNT: u32 = 0x7000_0000;
    const TF_CNT: u32 = 0xFF_0000;
    const RB_WR: u32 = 0x8000;
    const RB_CNT: u32 = 0x7000;
    const RF_CNT: u32 = 0xFF;

    /// Check if tx fifo write buffer is enabled (`TB_WR`).
    #[inline]
    pub fn is_tx_buffer_write_enabled(self) -> (r: bool)
        ensures
            r == flag(self.0, 31),
    {
        proof {
            lemma_read(self.0, Self::TB_WR, 31, 1);
        }
        self.0 & Self::TB_WR != 0
    }

    /// Get tx fifo write buffer counter (`TB_CNT`).
    #[inline]
    pub fn tx_buffer_count(self) -> (r: u8)
        ensures
            r == field(self.0, 28, 3),
    {
        proof {
            lemma_read(self.0, Self::TB_CNT, 28, 3);
        }
        ((self.0 & Self::TB_CNT) >> 28) as u8
    }

    /// Get tx fifo counter (`TF_CNT`).
    #[inline]
    pub fn tx_fifo_count(self) -> (r: u8)
        ensures
            r == field(self.0, 16, 8),
    {
        proof {
            lemma_read(self.0, Self::TF_CNT, 16, 8);
        }
        ((self.0 & Self::TF_CNT) >> 16) as u8
    }

    /// Check if rx fifo read buffer write is enabled (`RB_WR`).
    #[inline]
    pub fn is_rx_buffer_write_enabled(self) -> (r: bool)
        ensures
            r == flag(self.0, 15),
    {
        proof {
            lemma_read(self.0, Self::RB_WR, 15, 1);
        }
        self.0 & Self::RB_WR != 0
    }

    /// Get rx fifo read buffer counter (`RB_CNT`).
    #[inline]
    pub fn rx_buffer_count(self) -> (r: u8)
        ensures
            r == field(self.0, 12, 3),
    {
        proof {
            lemma_read(self.0, Self::RB_CNT, 12, 3);
        }
        ((self.0 & Self::RB_CNT) >> 12) as u8
    }

    /// Get rx fifo counter (`RF_CNT`).
    #[inline]
    pub fn rx_fifo_count(self) -> (r: u8)
        ensures
            r == field(self.0, 0, 8),
    {
        proof {
            lemma_read(self.0, Self::RF_CNT, 0, 8);
        }
        (self.0 & Self::RF_CNT) as u8
    }
}

/// XSPI start register.
#[derive(Clone, Copy, Debug, PartialEq, Eq, PartialOrd, Ord, Hash, Structural)]
pub struct Start(pub u32);

impl Start {
    const START_CTL: u32 = 0xF;

    /// Set start group (`START_CTL`).
    ///
    /// AHB channel start group:
    /// - 0: start execution from LUT0
    /// - 1: start execution from LUT4
    /// - ...
    /// - 7: start execution from LUT28
    ///
    /// LUT registers are divided into eight groups, with four LUTs per group.
    /// The register will be automatically cleared to 0 after startup is complete.
    ///
    /// Aborts if `group` is not below `0x8`.
    #[inline]
    pub fn set_start_group(self, group: u8) -> (r: Self)
        requires
            group < 0x8,
        ensures
            r.0 == with_field(self.0, 0, 4, group as int),
            field(r.0, 0, 4) == group,
            rest_is_kept(self.0, r.0, 0, 4),
    {
        runtime_assert(group < 0x8);
        proof {
            lemma_write(self.0, Self::START_CTL, 0, 4, group as u32);
        }
        Self((self.0 & !Self::START_CTL) | (Self::START_CTL & (group as u32)))
    }
}

/// Format selection for simple operations.
#[derive(Clone, Copy, Debug, PartialEq, Eq, Structural)]
pub enum FormatSel {
    /// LUT configuration, AHB/AXI read/write access.
    LutConfig,
    /// COMMAND, 1S.
    Command1S,
    /// COMMAND + 3-byte address, 1S-1S.
    Command3Addr,
    /// COMMAND + 4-byte address, 1S-1S.
    Command4Addr,
    /// COMMAND, 8D.
    Command8D,
    /// COMMAND + COMMAND_EX, 8D.
    CommandEx8D,
    /// COMMAND + COMMAND_EX + 4-byte address, 8D-8D.
    CommandExAddr8D,
    /// A bit pattern to which the hardware gives no meaning.
    Reserved,
}

impl FormatSel {
    /// The number that stands for this value in its register field. Of the
    /// numbers that stand for no other value, `Reserved` is written as the lowest.
    pub open spec fn code(self) -> int {
        match self {
            Self::LutConfig => 0,
            Self::Command1S => 1,
            Self::Command3Addr => 2,
            Self::Command4Addr => 3,
            Self::Command8D => 4,
            Self::CommandEx8D => 5,
            Self::CommandExAddr8D => 6,
            Self::Reserved => 7,
        }
    }

    /// The value that `code` stands for: `Reserved`, where it stands for none.
    pub open spec fn decode(code: int) -> Self {
        if code == 0 {
            Self::LutConfig
        } else if code == 1 {
            Self::Command1S
        } else if code == 2 {
            Self::Command3Addr
        } else if code == 3 {
            Self::Command4Addr
        } else if code == 4 {
            Self::Command8D
        } else if code == 5 {
            Self::CommandEx8D
        } else if code == 6 {
            Self::CommandExAddr8D
        } else {
            Self::Reserved
        }
    }

    /// Whether `code` stands for a value other than `Reserved`.
    pub open spec fn is_code(code: int) -> bool {
        0 <= code <= 6
    }
}

/// XSPI format configuration register.
#[derive(Clone, Copy, Debug, PartialEq, Eq, PartialOrd, Ord, Hash, Structural)]
pub struct Format(pub u32);

impl Format {
    const FORMAT_CMD: u32 = 0xFF00_0000;
    const FORMAT_CMD_EX: u32 = 0xFF_0000;
    const FORMAT_SEL: u32 = 0x7;

    /// Set format command (`FORMAT_CMD`).
    #[inline]
    pub fn set_format_cmd(self, cmd: u8) -> (r: Self)
        ensures
            r.0 == with_field(self.0, 24, 8, cmd as int),
            field(r.0, 24, 8) == cmd,
            rest_is_kept(self.0, r.0, 24, 8),
    {
        proof {
            lemma_write(self.0, Self::FORMAT_CMD, 24, 8, cmd as u32);
        }
        Self((self.0 & !Self::FORMAT_CMD) | (Self::FORMAT_CMD & ((cmd as u32) << 24)))
    }

    /// Get format command.
    #[inline]
    pub fn format_cmd(self) -> (r: u8)
        ensures
            r == field(self.0, 24, 8),
    {
        proof {
            lemma_read(self.0, Self::FORMAT_CMD, 24, 8);
        }
        ((self.0 & Self::FORMAT_CMD) >> 24) as u8
    }

    /// Set format command extension (`FORMAT_CMD_EX`).
    #[inline]
    pub fn set_format_cmd_ex(self, cmd_ex: u8) -> (r: Self)
        ensures
            r.0 == with_field(self.0, 16, 8, cmd_ex as int),
            field(r.0, 16, 8) == cmd_ex,
            rest_is_kept(self.0, r.0, 16, 8),
    {
        proof {
            lemma_write(self.0, Self::FORMAT_CMD_EX, 16, 8, cmd_ex as u32);
        }
        Self((self.0 & !Self::FORMAT_CMD_EX) | (Self::FORMAT_CMD_EX & ((cmd_ex as u32) << 16)))
    }

    /// Get format command extension.
    #[inline]
    pub fn format_cmd_ex(self) -> (r: u8)
        ensures
            r == field(self.0, 16, 8),
    {
        proof {
            lemma_read(self.0, Self::FORMAT_CMD_EX, 16, 8);
        }
        ((self.0 & Self::FORMAT_CMD_EX) >> 16) as u8
    }

    /// Set format selection (`FORMAT_SEL`).
    ///
    /// This bit is write-autoclear. Writing a value will trigger the corresponding operation.
    /// The operation will be executed without LUT configuration.
    /// After transmission ends, this bit is automatically cleared.
    #[inline]
    pub fn set_format_sel(self, sel: FormatSel) -> (r: Self)
        ensures
            r.0 == with_field(self.0, 0, 3, sel.code()),
            field(r.0, 0, 3) == sel.code(),
            FormatSel::decode(field(r.0, 0, 3)) == sel,
            rest_is_kept(self.0, r.0, 0, 3),
    {
        proof {
            lemma_write(self.0, Self::FORMAT_SEL, 0, 3, sel as u32);
        }
        Self((self.0 & !Self::FORMAT_SEL) | (Self::FORMAT_SEL & (sel as u32)))
    }

    /// Get format selection value.
    #[inline]
    pub fn format_sel(self) -> (r: FormatSel)
        ensures
            r == FormatSel::decode(field(self.0, 0, 3)),
            FormatSel::is_code(field(self.0, 0, 3)) ==> r.code() == field(self.0, 0, 3),
    {
        proof {
            lemma_read(self.0, Self::FORMAT_SEL, 0, 3);
        }
        match self.0 & Self::FORMAT_SEL {
            0 => FormatSel::LutConfig,
            1 => FormatSel::Command1S,
            2 => FormatSel::Command3Addr,
            3 => FormatSel::Command4Addr,
            4 => FormatSel::Command8D,
            5 => FormatSel::CommandEx8D,
            6 => FormatSel::CommandExAddr8D,
            _ => FormatSel::Reserved,
        }
    }
}

/// XSPI burst type register.
#[derive(Clone, Copy, Debug, PartialEq, Eq, PartialOrd, Ord, Hash, Structural)]
pub struct BurstType(pub u32);

impl BurstType {
    const SPI_BURST_WRAPPED: u32 = 0xFF00;
    const SPI_BURST_LINEAR: u32 = 0xFF;

    /// Set SPI burst wrapped command (`SPI_BURST_WRAPPED`).
    ///
    /// When SPI mode XIP is enabled, if AXI burst type switches from linear to wrapped,
    /// this command is triggered for sending.
    #[inline]
    pub fn set_spi_burst_wrapped(self, cmd: u8) -> (r: Self)
        ensures
            r.0 == with_field(self.0, 8, 8, cmd as int),
            field(r.0, 8, 8) == cmd,
            rest_is_kept(self.0, r.0, 8, 8),
    {
        proof {
            lemma_write(self.0, Self::SPI_BURST_WRAPPED, 8, 8, cmd as u32);
        }
        Self((self.0 & !Self::SPI_BURST_WRAPPED) | (Self::SPI_BURST_WRAPPED & ((cmd as u32) << 8)))
    }

    /// Get SPI burst wrapped command.
    #[inline]
    pub fn spi_burst_wrapped(self) -> (r: u8)
        ensures
            r == field(self.0, 8, 8),
    {
        proof {
            lemma_read(self.0, Self::SPI_BURST_WRAPPED, 8, 8);
        }
        ((self.0 & Self::SPI_BURST_WRAPPED) >> 8) as u8
    }

    /// Set SPI burst linear command (`SPI_BURST_LINEAR`).
    ///
    /// When SPI mode XIP is enabled, if AXI burst type switches from wrapped to linear,
    /// this command is triggered for sending.
    #[inline]
    pub fn set_spi_burst_linear(self, cmd: u8) -> (r: Self)
        ensures
            r.0 == with_field(self.0, 0, 8, cmd as int),
            field(r.0, 0, 8) == cmd,
            rest_is_kept(self.0, r.0, 0, 8),
    {
        proof {
            lemma_write(self.0, Self::SPI_BURST_LINEAR, 0, 8, cmd as u32);
        }
        Self((self.0 & !Self::SPI_BURST_LINEAR) | (Self::SPI_BURST_LINEAR & (cmd as u32)))
    }

    /// Get SPI burst linear command.
    #[inline]
    pub fn spi_burst_linear(self) -> (r: u8)
        ensures
            r == field(self.0, 0, 8),
    {
        proof {
            lemma_read(self.0, Self::SPI_BURST_LINEAR, 0, 8);
        }
        (self.0 & Self::SPI_BURST_LINEAR) as u8
    }
}

/// XSPI read command control register.
#[derive(Clone, Copy, Debug, PartialEq, Eq, PartialOrd, Ord, Hash, Structural)]
pub struct RdCmdControl(pub u32);

impl RdCmdControl {
    const READ_MODE_BYTE_EN: u32 = 0x2_0000;
    const RDCMD_BYPASS_EN: u32 = 0x1_0000;
    const RDCMD_BYPASS_CODE: u32 = 0xFF00;
    const RDCMD_NORMAL_CODE: u32 = 0xFF;

    /// Enable read mode byte (`READ_MODE_BYTE_EN`).
    ///
    /// When enabled, 1 byte mode bit is added after the address.
    /// The line width of the mode bit is the same as the address bit.
    /// The setting value of the mode bit is determined by `RDCMD_BYPASS_EN`.
    ///
    /// Note: This bit must be enabled when SPI works in Dual I/O, Quad I/O, QPI, DTR Quad I/O modes.
    #[inline]
    pub fn enable_read_mode_byte(self) -> (r: Self)
        ensures
            r.0 == with_flag(self.0, 17, true),
            flag(r.0, 17),
            rest_is_kept(self.0, r.0, 17, 1),
    {
        proof {
            lemma_set(self.0, Self::READ_MODE_BYTE_EN, 17, 1);
        }
        Self(self.0 | Self::READ_MODE_BYTE_EN)
    }

    /// Disable read mode byte.
    #[inline]
    pub fn disable_read_mode_byte(self) -> (r: Self)
        ensures
            r.0 == with_flag(self.0, 17, false),
            !flag(r.0, 17),
            rest_is_kept(self.0, r.0, 17, 1),
    {
        proof {
            lemma_clear(self.0, Self::READ_MODE_BYTE_EN, 17, 1);
        }
        Self(self.0 & !Self::READ_MODE_BYTE_EN)
    }

    /// Check if read mode byte is enabled.
    #[inline]
    pub fn is_read_mode_byte_enabled(self) -> (r: bool)
        ensures
            r == flag(self.0, 17),
    {
        proof {
            lemma_read(self.0, Self::READ_MODE_BYTE_EN, 17, 1);
        }
        self.0 & Self::READ_MODE_BYTE_EN != 0
    }

    /// Enable read command bypass mode (`RDCMD_BYPASS_EN`).
    ///
    /// When enabled, the mode bit setting value is `RDCMD_BYPASS_CODE`, otherwise it is `RDCMD_NORMAL_CODE`.
    /// After enabling, subsequent read operations do not need to send read commands again.
    #[inline]
    pub fn enable_rdcmd_bypass(self) -> (r: Self)
        ensures
            r.0 == with_flag(self.0, 16, true),
            flag(r.0, 16),
            rest_is_kept(self.0, r.0, 16, 1),
    {
        proof {
            lemma_set(self.0, Self::RDCMD_BYPASS_EN, 16, 1);
        }
        Self(self.0 | Self::RDCMD_BYPASS_EN)
    }

    /// Disable read command bypass mode.
    #[inline]
    pub fn disable_rdcmd_bypass(self) -> (r: Self)
        ensures
            r.0 == with_flag(self.0, 16, false),
            !flag(r.0, 16),
            rest_is_kept(self.0, r.0, 16, 1),
    {
        proof {
            lemma_clear(self.0, Self::RDCMD_BYPASS_EN, 16, 1);
        }
        Self(self.0 & !Self::RDCMD_BYPASS_EN)
    }

    /// Check if read command bypass mode is enabled.
    #[inline]
    pub fn is_rdcmd_bypass_enabled(self) -> (r: bool)
        ensures
            r == flag(self.0, 16),
    {
        proof {
            lemma_read(self.0, Self::RDCMD_BYPASS_EN, 16, 1);
        }
        self.0 & Self::RDCMD_BYPASS_EN != 0
    }

    /// Set read command bypass code (`RDCMD_BYPASS_CODE`).
    ///
    /// Defines the setting value in read command bypass mode.
    #[inline]
    pub fn set_rdcmd_bypass_code(self, code: u8) -> (r: Self)
        ensures
            r.0 == with_field(self.0, 8, 8, code as int),
            field(r.0, 8, 8) == code,
            rest_is_kept(self.0, r.0, 8, 8),
    {
        proof {
            lemma_write(self.0, Self::RDCMD_BYPASS_CODE, 8, 8, code as u32);
        }
        Self((self.0 & !Self::RDCMD_BYPASS_CODE) | (Self::RDCMD_BYPASS_CODE & ((code as u32) << 8)))
    }

    /// Get read command bypass code.
    #[inline]
    pub fn rdcmd_bypass_code(self) -> (r: u8)
        ensures
            r == field(self.0, 8, 8),
    {
        proof {
            lemma_read(self.0, Self::RDCMD_BYPASS_CODE, 8, 8);
        }
        ((self.0 & Self::RDCMD_BYPASS_CODE) >> 8) as u8
    }

    /// Set read command normal code (`RDCMD_NORMAL_CODE`).
    ///
    /// Defines the setting value in normal mode. Each read operation requires sending a read command.
    #[inline]
    pub fn set_rdcmd_normal_code(self, code: u8) -> (r: Self)
        ensures
            r.0 == with_field(self.0, 0, 8, code as int),
            field(r.0, 0, 8) == code,
            rest_is_kept(self.0, r.0, 0, 8),
    {
        proof {
            lemma_write(self.0, Self::RDCMD_NORMAL_CODE, 0, 8, code as u32);
        }
        Self((self.0 & !Self::RDCMD_NORMAL_CODE) | (Self::RDCMD_NORMAL_CODE & (code as u32)))
    }

    /// Get read command normal code.
    #[inline]
    pub fn rdcmd_normal_code(self) -> (r: u8)
        ensures
            r == field(self.0, 0, 8),
    {
        proof {
            lemma_read(self.0, Self::RDCMD_NORMAL_CODE, 0, 8);
        }
        (self.0 & Self::RDCMD_NORMAL_CODE) as u8
    }
}

/// DMA active signal control mode.
#[derive(Clone, Copy, Debug, PartialEq, Eq, Structural)]
pub enum DmaActiveMode {
    /// Dma active signal is low.
    Low,
    /// Dma active signal is high.
    High,
    /// Dma active signal is controlled by DMA request.
    DmaRequest,
    /// Dma active signal is controlled by controller.
    Controller,
}

impl DmaActiveMode {
    /// The number that stands for this value in its register field.
    pub open spec fn code(self) -> int {
        match self {
            Self::Low => 0,
            Self::High => 1,
            Self::DmaRequest => 2,
            Self::Controller => 3,
        }
    }

    /// The value that `code` stands for. Every larger number is read as the
    /// last value.
    pub open spec fn decode(code: int) -> Self {
        if code == 0 {
            Self::Low
        } else if code == 1 {
            Self::High
        } else if code == 2 {
            Self::DmaRequest
        } else {
            Self::Controller
        }
    }
}

/// Active fall behavior control.
#[derive(Clone, Copy, Debug, PartialEq, Eq, Structural)]
pub enum ActiveFallBehavior {
    /// Active fall do not care ack.
    DoNotCareAck,
    /// Active fall must after detect ack is high.
    MustAfterAckHigh,
}

impl ActiveFallBehavior {
    /// The number that stands for this value in its register field.
    pub open spec fn code(self) -> int {
        match self {
            Self::DoNotCareAck => 0,
            Self::MustAfterAckHigh => 1,
        }
    }

    /// The value that `code` stands for. Every larger number is read as the
    /// last value.
    pub open spec fn decode(code: int) -> Self {
        if code == 0 {
            Self::DoNotCareAck
        } else {
            Self::MustAfterAckHigh
        }
    }
}

/// XSPI DMA mode control register.
#[derive(Clone, Copy, Debug, PartialEq, Eq, PartialOrd, Ord, Hash, Structural)]
pub struct DmaModeControl(pub u32);

impl DmaModeControl {
    const DMA_ACTIVE_MODE: u32 = 0xC0;
    const ACTIVE_FALL_BEHAVIOR: u32 = 0x20;
    const DELAY_CLOCKS: u32 = 0x1F;

    /// Set dma active mode (`DMA_ACTIVE_MODE`).
    #[inline]
    pub fn set_dma_active_mode(self, mode: DmaActiveMode) -> (r: Self)
        ensures
            r.0 == with_field(self.0, 6, 2, mode.code()),
            field(r.0, 6, 2) == mode.code(),
            DmaActiveMode::decode(field(r.0, 6, 2)) == mode,
            rest_is_kept(self.0, r.0, 6, 2),
    {
        proof {
            lemma_write(self.0, Self::DMA_ACTIVE_MODE, 6, 2, mode as u32);
        }
        Self((self.0 & !Self::DMA_ACTIVE_MODE) | (Self::DMA_ACTIVE_MODE & ((mode as u32) << 6)))
    }

    /// Get dma active mode.
    #[inline]
    pub fn dma_active_mode(self) -> (r: DmaActiveMode)
        ensures
            r == DmaActiveMode::decode(field(self.0, 6, 2)),
            r.code() == field(self.0, 6, 2),
    {
        proof {
            lemma_read(self.0, Self::DMA_ACTIVE_MODE, 6, 2);
        }
        match (self.0 & Self::DMA_ACTIVE_MODE) >> 6 {
            0 => DmaActiveMode::Low,
            1 => DmaActiveMode::High,
            2 => DmaActiveMode::DmaRequest,
            3 => DmaActiveMode::Controller,
            _ => unreached(),
        }
    }

    /// Set active fall behavior (`ACTIVE_FALL_BEHAVIOR`).
    #[inline]
    pub fn set_active_fall_behavior(self, behavior: ActiveFallBehavior) -> (r: Self)
        ensures
            r.0 == with_field(self.0, 5, 1, behavior.code()),
            field(r.0, 5, 1) == behavior.code(),
            ActiveFallBehavior::decode(field(r.0, 5, 1)) == behavior,
            rest_is_kept(self.0, r.0, 5, 1),
    {
        proof {
            lemma_write(self.0, Self::ACTIVE_FALL_BEHAVIOR, 5, 1, behavior as u32);
        }
        Self(
            (self.0 & !Self::ACTIVE_FALL_BEHAVIOR)
                | (Self::ACTIVE_FALL_BEHAVIOR & ((behavior as u32) << 5)),
        )
    }

    /// Get active fall behavior.
    #[inline]
    pub fn active_fall_behavior(self) -> (r: ActiveFallBehavior)
        ensures
            r == ActiveFallBehavior::decode(field(self.0, 5, 1)),
            r.code() == field(self.0, 5, 1),
    {
        proof {
            lemma_read(self.0, Self::ACTIVE_FALL_BEHAVIOR, 5, 1);
        }
        match (self.0 & Self::ACTIVE_FALL_BEHAVIOR) >> 5 {
            0 => ActiveFallBehavior::DoNotCareAck,
            1 => ActiveFallBehavior::MustAfterAckHigh,
            _ => unreached(),
        }
    }

    /// Set delay clock count (`DELAY_CLOCKS`).
    ///
    /// Delay clock count from the last DMA signal going high to Dma active signal staying high.
    ///
    /// Aborts if `clocks` is not below `0x20`.
    #[inline]
    pub fn set_delay_clocks(self, clocks: u8) -> (r: Self)
        requires
            clocks < 0x20,
        ensures
            r.0 == with_field(self.0, 0, 5, clocks as int),
            field(r.0, 0, 5) == clocks,
            rest_is_kept(self.0, r.0, 0, 5),
    {
        runtime_assert(clocks < 0x20);
        proof {
            lemma_write(self.0, Self::DELAY_CLOCKS, 0, 5, clocks as u32);
        }
        Self((self.0 & !Self::DELAY_CLOCKS) | (Self::DELAY_CLOCKS & (clocks as u32)))
    }

    /// Get delay clock count.
    #[inline]
    pub fn delay_clocks(self) -> (r: u8)
        ensures
            r == field(self.0, 0, 5),
    {
        proof {
            lemma_read(self.0, Self::DELAY_CLOCKS, 0, 5);
        }
        (self.0 & Self::DELAY_CLOCKS) as u8
    }
}

/// Lock configuration state.
#[derive(Clone, Copy, Debug, PartialEq, Eq, Structural)]
pub enum LockCfg {
    /// A bit pattern to which the hardware gives no meaning.
    Reserved,
    /// Locked: LUT cannot be configured.
    Locked,
    /// Unlocked: LUT can be configured.
    Unlocked,
}

impl LockCfg {
    /// The number that stands for this value in its register field. Of the
    /// numbers that stand for no other value, `Reserved` is written as the lowest.
    pub open spec fn code(self) -> int {
        match self {
            Self::Reserved => 0,
            Self::Locked => 1,
            Self::Unlocked => 2,
        }
    }

    /// The value that `code` stands for: `Reserved`, where it stands for none.
    pub open spec fn decode(code: int) -> Self {
        if code == 1 {
            Self::Locked
        } else if code == 2 {
            Self::Unlocked
        } else {
            Self::Reserved
        }
    }

    /// Whether `code` stands for a value other than `Reserved`.
    pub open spec fn is_code(code: int) -> bool {
        0 <= code <= 2
    }
}

/// XSPI lock configuration register.
#[derive(Clone, Copy, Debug, PartialEq, Eq, PartialOrd, Ord, Hash, Structural)]
pub struct LockConfig(pub u32);

impl LockConfig {
    const LOCK_CFG: u32 = 0x3;

    /// Set lock configuration (`LOCK_CFG`).
    #[inline]
    pub fn set_lock_cfg(self, cfg: LockCfg) -> (r: Self)
        ensures
            r.0 == with_field(self.0, 0, 2, cfg.code()),
            field(r.0, 0, 2) == cfg.code(),
            LockCfg::decode(field(r.0, 0, 2)) == cfg,
            rest_is_kept(self.0, r.0, 0, 2),
    {
        proof {
            lemma_write(self.0, Self::LOCK_CFG, 0, 2, cfg as u32);
        }
        Self((self.0 & !Self::LOCK_CFG) | (Self::LOCK_CFG & (cfg as u32)))
    }

    /// Get lock configuration.
    #[inline]
    pub fn lock_cfg(self) -> (r: LockCfg)
        ensures
            r == LockCfg::decode(field(self.0, 0, 2)),
            LockCfg::is_code(field(self.0, 0, 2)) ==> r.code() == field(self.0, 0, 2),
    {
        proof {
            lemma_read(self.0, Self::LOCK_CFG, 0, 2);
        }
        match self.0 & Self::LOCK_CFG {
            1 => LockCfg::Locked,
            2 => LockCfg::Unlocked,
            _ => LockCfg::Reserved,
        }
    }
}

/// XSPI look up table update register.
#[derive(Clone, Copy, Debug, PartialEq, Eq, PartialOrd, Ord, Hash, Structural)]
pub struct LutUp(pub u32);

impl LutUp {
    const LUT_UP: u32 = 0x1;

    /// Set lut update bit (`LUT_UP`).
    ///
    /// Writing 1 updates the current LUT read/write control information to the AXI channel transfer,
    /// reducing the hardware LUT lookup time. Automatically cleared to 0 after completion.
    ///
    /// Note: This operation must be completed before setting `XIP_EN` to 1.
    #[inline]
    pub fn set_lut_update(self, set: bool) -> (r: Self)
        ensures
            r.0 == with_flag(self.0, 0, set),
            flag(r.0, 0) == set,
            rest_is_kept(self.0, r.0, 0, 1),
    {
        proof {
            lemma_set(self.0, Self::LUT_UP, 0, 1);
            lemma_clear(self.0, Self::LUT_UP, 0, 1);
        }
        if set {
            Self(self.0 | Self::LUT_UP)
        } else {
            Self(self.0 & !Self::LUT_UP)
        }
    }

    /// Get lut update bit.
    #[inline]
    pub fn lut_update(self) -> (r: bool)
        ensures
            r == flag(self.0, 0),
    {
        proof {
            lemma_read(self.0, Self::LUT_UP, 0, 1);
        }
        self.0 & Self::LUT_UP != 0
    }
}

/// Physical data line selection.
#[derive(Clone, Copy, Debug, PartialEq, Eq, Structural)]
pub enum DataLine {
    /// Data line 0.
    D0,
    /// Data line 1.
    D1,
    /// Data line 2.
    D2,
    /// Data line 3.
    D3,
    /// Data line 4.
    D4,
    /// Data line 5.
    D5,
    /// Data line 6.
    D6,
    /// Data line 7.
    D7,
}

impl DataLine {
    /// The number that stands for this value in its register field.
    pub open spec fn code(self) -> int {
        match self {
            Self::D0 => 0,
            Self::D1 => 1,
            Self::D2 => 2,
            Self::D3 => 3,
            Self::D4 => 4,
            Self::D5 => 5,
            Self::D6 => 6,
            Self::D7 => 7,
        }
    }

    /// The value that `code` stands for. Every larger number is read as the
    /// last value.
    pub open spec fn decode(code: int) -> Self {
        if code == 0 {
            Self::D0
        } else if code == 1 {
            Self::D1
        } else if code == 2 {
            Self::D2
        } else if code == 3 {
            Self::D3
        } else if code == 4 {
            Self::D4
        } else if code == 5 {
            Self::D5
        } else if code == 6 {
            Self::D6
        } else {
            Self::D7
        }
    }
}

/// XSPI chip select sequence register.
#[derive(Clone, Copy, Debug, PartialEq, Eq, PartialOrd, Ord, Hash, Structural)]
pub struct CsSequence(pub u32);

impl CsSequence {
    const D7_SELD: u32 = 0x7000_0000;
    const D6_SELD: u32 = 0x700_0000;
    const D5_SELD: u32 = 0x70_0000;
    const D4_SELD: u32 = 0x7_0000;
    const D3_SELD: u32 = 0x7000;
    const D2_SELD: u32 = 0x700;
    const D1_SELD: u32 = 0x70;
    const D0_SELD: u32 = 0x7;

    /// Set data line 7 selection (`D7_SELD`).
    #[inline]
    pub fn set_d7_sel(self, line: DataLine) -> (r: Self)
        ensures
            r.0 == with_field(self.0, 28, 3, line.code()),
            field(r.0, 28, 3) == line.code(),
            DataLine::decode(field(r.0, 28, 3)) == line,
            rest_is_kept(self.0, r.0, 28, 3),
    {
        proof {
            lemma_write(self.0, Self::D7_SELD, 28, 3, line as u32);
        }
        Self((self.0 & !Self::D7_SELD) | (Self::D7_SELD & ((line as u32) << 28)))
    }

    /// Get data line 7 selection.
    #[inline]
    pub fn d7_sel(self) -> (r: DataLine)
        ensures
            r == DataLine::decode(field(self.0, 28, 3)),
            r.code() == field(self.0, 28, 3),
    {
        proof {
            lemma_read(self.0, Self::D7_SELD, 28, 3);
        }
        match (self.0 & Self::D7_SELD) >> 28 {
            0 => DataLine::D0,
            1 => DataLine::D1,
            2 => DataLine::D2,
            3 => DataLine::D3,
            4 => DataLine::D4,
            5 => DataLine::D5,
            6 => DataLine::D6,
            7 => DataLine::D7,
            _ => unreached(),
        }
    }

    /// Set data line 6 selection (`D6_SELD`).
    #[inline]
    pub fn set_d6_sel(self, line: DataLine) -> (r: Self)
        ensures
            r.0 == with_field(self.0, 24, 3, line.code()),
            field(r.0, 24, 3) == line.code(),
            DataLine::decode(field(r.0, 24, 3)) == line,
            rest_is_kept(self.0, r.0, 24, 3),
    {
        proof {
            lemma_write(self.0, Self::D6_SELD, 24, 3, line as u32);
        }
        Self((self.0 & !Self::D6_SELD) | (Self::D6_SELD & ((line as u32) << 24)))
    }

    /// Get data line 6 selection.
    #[inline]
    pub fn d6_sel(self) -> (r: DataLine)
        ensures
            r == DataLine::decode(field(self.0, 24, 3)),
            r.code() == field(self.0, 24, 3),
    {
        proof {
            lemma_read(self.0, Self::D6_SELD, 24, 3);
        }
        match (self.0 & Self::D6_SELD) >> 24 {
            0 => DataLine::D0,
            1 => DataLine::D1,
            2 => DataLine::D2,
            3 => DataLine::D3,
            4 => DataLine::D4,
            5 => DataLine::D5,
            6 => DataLine::D6,
            7 => DataLine::D7,
            _ => unreached(),
        }
    }

    /// Set data line 5 selection (`D5_SELD`).
    #[inline]
    pub fn set_d5_sel(self, line: DataLine) -> (r: Self)
        ensures
            r.0 == with_field(self.0, 20, 3, line.code()),
            field(r.0, 20, 3) == line.code(),
            DataLine::decode(field(r.0, 20, 3)) == line,
            rest_is_kept(self.0, r.0, 20, 3),
    {
        proof {
            lemma_write(self.0, Self::D5_SELD, 20, 3, line as u32);
        }
        Self((self.0 & !Self::D5_SELD) | (Self::D5_SELD & ((line as u32) << 20)))
    }

    /// Get data line 5 selection.
    #[inline]
    pub fn d5_sel(self) -> (r: DataLine)
        ensures
            r == DataLine::decode(field(self.0, 20, 3)),
            r.code() == field(self.0, 20, 3),
    {
        proof {
            lemma_read(self.0, Self::D5_SELD, 20, 3);
        }
        match (self.0 & Self::D5_SELD) >> 20 {
            0 => DataLine::D0,
            1 => DataLine::D1,
            2 => DataLine::D2,
            3 => DataLine::D3,
            4 => DataLine::D4,
            5 => DataLine::D5,
            6 => DataLine::D6,
            7 => DataLine::D7,
            _ => unreached(),
        }
    }

    /// Set data line 4 selection (`D4_SELD`).
    #[inline]
    pub fn set_d4_sel(self, line: DataLine) -> (r: Self)
        ensures
            r.0 == with_field(self.0, 16, 3, line.code()),
            field(r.0, 16, 3) == line.code(),
            DataLine::decode(field(r.0, 16, 3)) == line,
            rest_is_kept(self.0, r.0, 16, 3),
    {
        proof {
            lemma_write(self.0, Self::D4_SELD, 16, 3, line as u32);
        }
        Self((self.0 & !Self::D4_SELD) | (Self::D4_SELD & ((line as u32) << 16)))
    }

    /// Get data line 4 selection.
    #[inline]
    pub fn d4_sel(self) -> (r: DataLine)
        ensures
            r == DataLine::decode(field(self.0, 16, 3)),
            r.code() == field(self.0, 16, 3),
    {
        proof {
            lemma_read(self.0, Self::D4_SELD, 16, 3);
        }
        match (self.0 & Self::D4_SELD) >> 16 {
            0 => DataLine::D0,
            1 => DataLine::D1,
            2 => DataLine::D2,
            3 => DataLine::D3,
            4 => DataLine::D4,
            5 => DataLine::D5,
            6 => DataLine::D6,
            7 => DataLine::D7,
            _ => unreached(),
        }
    }

    /// Set data line 3 selection (`D3_SELD`).
    #[inline]
    pub fn set_d3_sel(self, line: DataLine) -> (r: Self)
        ensures
            r.0 == with_field(self.0, 12, 3, line.code()),
            field(r.0, 12, 3) == line.code(),
            DataLine::decode(field(r.0, 12, 3)) == line,
            rest_is_kept(self.0, r.0, 12, 3),
    {
        proof {
            lemma_write(self.0, Self::D3_SELD, 12, 3, line as u32);
        }
        Self((self.0 & !Self::D3_SELD) | (Self::D3_SELD & ((line as u32) << 12)))
    }

    /// Get data line 3 selection.
    #[inline]
    pub fn d3_sel(self) -> (r: DataLine)
        ensures
            r == DataLine::decode(field(self.0, 12, 3)),
            r.code() == field(self.0, 12, 3),
    {
        proof {
            lemma_read(self.0, Self::D3_SELD, 12, 3);
        }
        match (self.0 & Self::D3_SELD) >> 12 {
            0 => DataLine::D0,
            1 => DataLine::D1,
            2 => DataLine::D2,
            3 => DataLine::D3,
            4 => DataLine::D4,
            5 => DataLine::D5,
            6 => DataLine::D6,
            7 => DataLine::D7,
            _ => unreached(),
        }
    }

    /// Set data line 2 selection (`D2_SELD`).
    #[inline]
    pub fn set_d2_sel(self, line: DataLine) -> (r: Self)
        ensures
            r.0 == with_field(self.0, 8, 3, line.code()),
            field(r.0, 8, 3) == line.code(),
            DataLine::decode(field(r.0, 8, 3)) == line,
            rest_is_kept(self.0, r.0, 8, 3),
    {
        proof {
            lemma_write(self.0, Self::D2_SELD, 8, 3, line as u32);
        }
        Self((self.0 & !Self::D2_SELD) | (Self::D2_SELD & ((line as u32) << 8)))
    }

    /// Get data line 2 selection.
    #[inline]
    pub fn d2_sel(self) -> (r: DataLine)
        ensures
            r == DataLine::decode(field(self.0, 8, 3)),
            r.code() == field(self.0, 8, 3),
    {
        proof {
            lemma_read(self.0, Self::D2_SELD, 8, 3);
        }
        match (self.0 & Self::D2_SELD) >> 8 {
            0 => DataLine::D0,
            1 => DataLine::D1,
            2 => DataLine::D2,
            3 => DataLine::D3,
            4 => DataLine::D4,
            5 => DataLine::D5,
            6 => DataLine::D6,
            7 => DataLine::D7,
            _ => unreached(),
        }
    }

    /// Set data line 1 selection (`D1_SELD`).
    #[inline]
    pub fn set_d1_sel(self, line: DataLine) -> (r: Self)
        ensures
            r.0 == with_field(self.0, 4, 3, line.code()),
            field(r.0, 4, 3) == line.code(),
            DataLine::decode(field(r.0, 4, 3)) == line,
            rest_is_kept(self.0, r.0, 4, 3),
    {
        proof {
            lemma_write(self.0, Self::D1_SELD, 4, 3, line as u32);
        }
        Self((self.0 & !Self::D1_SELD) | (Self::D1_SELD & ((line as u32) << 4)))
    }

    /// Get data line 1 selection.
    #[inline]
    pub fn d1_sel(self) -> (r: DataLine)
        ensures
            r == DataLine::decode(field(self.0, 4, 3)),
            r.code() == field(self.0, 4, 3),
    {
        proof {
            lemma_read(self.0, Self::D1_SELD, 4, 3);
        }
        match (self.0 & Self::D1_SELD) >> 4 {
            0 => DataLine::D0,
            1 => DataLine::D1,
            2 => DataLine::D2,
            3 => DataLine::D3,
            4 => DataLine::D4,
            5 => DataLine::D5,
            6 => DataLine::D6,
            7 => DataLine::D7,
            _ => unreached(),
        }
    }

    /// Set data line 0 selection (`D0_SELD`).
    #[inline]
    pub fn set_d0_sel(self, line: DataLine) -> (r: Self)
        ensures
            r.0 == with_field(self.0, 0, 3, line.code()),
            field(r.0, 0, 3) == line.code(),
            DataLine::decode(field(r.0, 0, 3)) == line,
            rest_is_kept(self.0, r.0, 0, 3),
    {
        proof {
            lemma_write(self.0, Self::D0_SELD, 0, 3, line as u32);
        }
        Self((self.0 & !Self::D0_SELD) | (Self::D0_SELD & (line as u32)))
    }

    /// Get data line 0 selection.
    #[inline]
    pub fn d0_sel(self) -> (r: DataLine)
        ensures
            r == DataLine::decode(field(self.0, 0, 3)),
            r.code() == field(self.0, 0, 3),
    {
        proof {
            lemma_read(self.0, Self::D0_SELD, 0, 3);
        }
        match self.0 & Self::D0_SELD {
            0 => DataLine::D0,
            1 => DataLine::D1,
            2 => DataLine::D2,
            3 => DataLine::D3,
            4 => DataLine::D4,
            5 => DataLine::D5,
            6 => DataLine::D6,
            7 => DataLine::D7,
            _ => unreached(),
        }
    }
}

/// XSPI io control register.
#[derive(Clone, Copy, Debug, PartialEq, Eq, PartialOrd, Ord, Hash, Structural)]
pub struct IoControl(pub u32);

impl IoControl {
    const CS1_IO_CFG: u32 = 0x2;
    const CS0_IO_CFG: u32 = 0x1;

    /// Enable cs1 io (`CS1_IO_CFG`).
    #[inline]
    pub fn enable_cs1_io(self) -> (r: Self)
        ensures
            r.0 == with_flag(self.0, 1, true),
            flag(r.0, 1),
            rest_is_kept(self.0, r.0, 1, 1),
    {
        proof {
            lemma_set(self.0, Self::CS1_IO_CFG, 1, 1);
        }
        Self(self.0 | Self::CS1_IO_CFG)
    }

    /// Disable cs1 io.
    #[inline]
    pub fn disable_cs1_io(self) -> (r: Self)
        ensures
            r.0 == with_flag(self.0, 1, false),
            !flag(r.0, 1),
            rest_is_kept(self.0, r.0, 1, 1),
    {
        proof {
            lemma_clear(self.0, Self::CS1_IO_CFG, 1, 1);
        }
        Self(self.0 & !Self::CS1_IO_CFG)
    }

    /// Check if cs1 io is enabled.
    #[inline]
    pub fn is_cs1_io_enabled(self) -> (r: bool)
        ensures
            r == flag(self.0, 1),
    {
        proof {
            lemma_read(self.0, Self::CS1_IO_CFG, 1, 1);
        }
        self.0 & Self::CS1_IO_CFG != 0
    }

    /// Enable cs0 io (`CS0_IO_CFG`).
    #[inline]
    pub fn enable_cs0_io(self) -> (r: Self)
        ensures
            r.0 == with_flag(self.0, 0, true),
            flag(r.0, 0),
            rest_is_kept(self.0, r.0, 0, 1),
    {
        proof {
            lemma_set(self.0, Self::CS0_IO_CFG, 0, 1);
        }
        Self(self.0 | Self::CS0_IO_CFG)
    }

    /// Disable cs0 io.
    #[inline]
    pub fn disable_cs0_io(self) -> (r: Self)
        ensures
            r.0 == with_flag(self.0, 0, false),
            !flag(r.0, 0),
            rest_is_kept(self.0, r.0, 0, 1),
    {
        proof {
            lemma_clear(self.0, Self::CS0_IO_CFG, 0, 1);
        }
        Self(self.0 & !Self::CS0_IO_CFG)
    }

    /// Check if cs0 io is enabled.
    #[inline]
    pub fn is_cs0_io_enabled(self) -> (r: bool)
        ensures
            r == flag(self.0, 0),
    {
        proof {
            lemma_read(self.0, Self::CS0_IO_CFG, 0, 1);
        }
        self.0 & Self::CS0_IO_CFG != 0
    }
}

/// Pin pull-up/pull-down configuration.
#[derive(Debug, Clone, Copy, PartialEq, Eq, Structural)]
pub enum PinPull {
    /// Disabled (high-impedance state).
    Disabled,
    /// A bit pattern to which the hardware gives no meaning.
    Reserved,
    /// Pull-down with 33 KΩ to GND.
    PullDown,
    /// Pull-up with 33 KΩ to VCC-IO.
    PullUp,
}

impl PinPull {
    /// The number that stands for this value in its register field. Of the
    /// numbers that stand for no other value, `Reserved` is written as the lowest.
    pub open spec fn code(self) -> int {
        match self {
            Self::Disabled => 0,
            Self::Reserved => 1,
            Self::PullDown => 2,
            Self::PullUp => 3,
        }
    }

    /// The value that `code` stands for: `Reserved`, where it stands for none.
    pub open spec fn decode(code: int) -> Self {
        if code == 0 {
            Self::Disabled
        } else if code == 2 {
            Self::PullDown
        } else if code == 3 {
            Self::PullUp
        } else {
            Self::Reserved
        }
    }

    /// Whether `code` stands for a value other than `Reserved`.
    pub open spec fn is_code(code: int) -> bool {
        0 <= code <= 3
    }
}

/// Pin output drive strength configuration.
#[derive(Debug, Clone, Copy, PartialEq, Eq, Structural)]
pub enum PinDriveStrength {
    /// Level 0 (weakest drive).
    /// - 3.3V: 180Ω
    /// - 1.8V: 300Ω
    Level0,
    /// Level 1.
    /// - 3.3V: 90Ω
    /// - 1.8V: 150Ω
    Level1,
    /// Level 2.
    /// - 3.3V: 60Ω
    /// - 1.8V: 100Ω
    Level2,
    /// Level 3.
    /// - 3.3V: 45Ω
    /// - 1.8V: 75Ω
    Level3,
    /// Level 4.
    /// - 3.3V: 36Ω
    /// - 1.8V: 60Ω
    Level4,
    /// Level 5.
    /// - 3.3V: 30Ω
    /// - 1.8V: 50Ω
    Level5,
    /// Level 6.
    /// - 3.3V: 26Ω
    /// - 1.8V: 43Ω
    Level6,
    /// Level 7 (strongest drive).
    /// - 3.3V: 23Ω
    /// - 1.8V: 38Ω
    Level7,
}

impl PinDriveStrength {
    /// The number that stands for this value in its register field.
    pub open spec fn code(self) -> int {
        match self {
            Self::Level0 => 0,
            Self::Level1 => 1,
            Self::Level2 => 2,
            Self::Level3 => 3,
            Self::Level4 => 4,
            Self::Level5 => 5,
            Self::Level6 => 6,
            Self::Level7 => 7,
        }
    }

    /// The value that `code` stands for. Every larger number is read as the
    /// last value.
    pub open spec fn decode(code: int) -> Self {
        if code == 0 {
            Self::Level0
        } else if code == 1 {
            Self::Level1
        } else if code == 2 {
            Self::Level2
        } else if code == 3 {
            Self::Level3
        } else if code == 4 {
            Self::Level4
        } else if code == 5 {
            Self::Level5
        } else if code == 6 {
            Self::Level6
        } else {
            Self::Level7
        }
    }
}

/// XSPI chip select io configuration 1 register.
#[derive(Clone, Copy, Debug, PartialEq, Eq, PartialOrd, Ord, Hash, Structural)]
pub struct CsIoConfig1(pub u32);

impl CsIoConfig1 {
    const D7_PIN_PULL: u32 = 0x3000_0000;
    const D7_PIN_DRV: u32 = 0x700_0000;
    const D6_PIN_PULL: u32 = 0x30_0000;
    const D6_PIN_DRV: u32 = 0x7_0000;
    const D5_PIN_PULL: u32 = 0x3000;
    const D5_PIN_DRV: u32 = 0x700;
    const D4_PIN_PULL: u32 = 0x30;
    const D4_PIN_DRV: u32 = 0x7;

    /// Set D7 pin pull configuration (`D7_PIN_PULL`).
    #[inline]
    pub fn set_d7_pin_pull(self, pull: PinPull) -> (r: Self)
        ensures
            r.0 == with_field(self.0, 28, 2, pull.code()),
            field(r.0, 28, 2) == pull.code(),
            PinPull::decode(field(r.0, 28, 2)) == pull,
            rest_is_kept(self.0, r.0, 28, 2),
    {
        proof {
            lemma_write(self.0, Self::D7_PIN_PULL, 28, 2, pull as u32);
        }
        Self((self.0 & !Self::D7_PIN_PULL) | (Self::D7_PIN_PULL & ((pull as u32) << 28)))
    }

    /// Get D7 pin pull configuration.
    #[inline]
    pub fn d7_pin_pull(self) -> (r: PinPull)
        ensures
            r == PinPull::decode(field(self.0, 28, 2)),
            PinPull::is_code(field(self.0, 28, 2)) ==> r.code() == field(self.0, 28, 2),
    {
        proof {
            lemma_read(self.0, Self::D7_PIN_PULL, 28, 2);
        }
        match (self.0 & Self::D7_PIN_PULL) >> 28 {
            0 => PinPull::Disabled,
            2 => PinPull::PullDown,
            3 => PinPull::PullUp,
            _ => PinPull::Reserved,
        }
    }

    /// Set D7 pin drive strength (`D7_PIN_DRV`).
    #[inline]
    pub fn set_d7_pin_drv(self, drv: PinDriveStrength) -> (r: Self)
        ensures
            r.0 == with_field(self.0, 24, 3, drv.code()),
            field(r.0, 24, 3) == drv.code(),
            PinDriveStrength::decode(field(r.0, 24, 3)) == drv,
            rest_is_kept(self.0, r.0, 24, 3),
    {
        proof {
            lemma_write(self.0, Self::D7_PIN_DRV, 24, 3, drv as u32);
        }
        Self((self.0 & !Self::D7_PIN_DRV) | (Self::D7_PIN_DRV & ((drv as u32) << 24)))
    }

    /// Get D7 pin drive strength.
    #[inline]
    pub fn d7_pin_drv(self) -> (r: PinDriveStrength)
        ensures
            r == PinDriveStrength::decode(field(self.0, 24, 3)),
            r.code() == field(self.0, 24, 3),
    {
        proof {
            lemma_read(self.0, Self::D7_PIN_DRV, 24, 3);
        }
        match (self.0 & Self::D7_PIN_DRV) >> 24 {
            0 => PinDriveStrength::Level0,
            1 => PinDriveStrength::Level1,
            2 => PinDriveStrength::Level2,
            3 => PinDriveStrength::Level3,
            4 => PinDriveStrength::Level4,
            5 => PinDriveStrength::Level5,
            6 => PinDriveStrength::Level6,
            7 => PinDriveStrength::Level7,
            _ => unreached(),
        }
    }

    /// Set D6 pin pull configuration (`D6_PIN_PULL`).
    #[inline]
    pub fn set_d6_pin_pull(self, pull: PinPull) -> (r: Self)
        ensures
            r.0 == with_field(self.0, 20, 2, pull.code()),
            field(r.0, 20, 2) == pull.code(),
            PinPull::decode(field(r.0, 20, 2)) == pull,
            rest_is_kept(self.0, r.0, 20, 2),
    {
        proof {
            lemma_write(self.0, Self::D6_PIN_PULL, 20, 2, pull as u32);
        }
        Self((self.0 & !Self::D6_PIN_PULL) | (Self::D6_PIN_PULL & ((pull as u32) << 20)))
    }

    /// Get D6 pin pull configuration.
    #[inline]
    pub fn d6_pin_pull(self) -> (r: PinPull)
        ensures
            r == PinPull::decode(field(self.0, 20, 2)),
            PinPull::is_code(field(self.0, 20, 2)) ==> r.code() == field(self.0, 20, 2),
    {
        proof {
            lemma_read(self.0, Self::D6_PIN_PULL, 20, 2);
        }
        match (self.0 & Self::D6_PIN_PULL) >> 20 {
            0 => PinPull::Disabled,
            2 => PinPull::PullDown,
            3 => PinPull::PullUp,
            _ => PinPull::Reserved,
        }
    }

    /// Set D6 pin drive strength (`D6_PIN_DRV`).
    #[inline]
    pub fn set_d6_pin_drv(self, drv: PinDriveStrength) -> (r: Self)
        ensures
            r.0 == with_field(self.0, 16, 3, drv.code()),
            field(r.0, 16, 3) == drv.code(),
            PinDriveStrength::decode(field(r.0, 16, 3)) == drv,
            rest_is_kept(self.0, r.0, 16, 3),
    {
        proof {
            lemma_write(self.0, Self::D6_PIN_DRV, 16, 3, drv as u32);
        }
        Self((self.0 & !Self::D6_PIN_DRV) | (Self::D6_PIN_DRV & ((drv as u32) << 16)))
    }

    /// Get D6 pin drive strength.
    #[inline]
    pub fn d6_pin_drv(self) -> (r: PinDriveStrength)
        ensures
            r == PinDriveStrength::decode(field(self.0, 16, 3)),
            r.code() == field(self.0, 16, 3),
    {
        proof {
            lemma_read(self.0, Self::D6_PIN_DRV, 16, 3);
        }
        match (self.0 & Self::D6_PIN_DRV) >> 16 {
            0 => PinDriveStrength::Level0,
            1 => PinDriveStrength::Level1,
            2 => PinDriveStrength::Level2,
            3 => PinDriveStrength::Level3,
            4 => PinDriveStrength::Level4,
            5 => PinDriveStrength::Level5,
            6 => PinDriveStrength::Level6,
            7 => PinDriveStrength::Level7,
            _ => unreached(),
        }
    }

    /// Set D5 pin pull configuration (`D5_PIN_PULL`).
    #[inline]
    pub fn set_d5_pin_pull(self, pull: PinPull) -> (r: Self)
        ensures
            r.0 == with_field(self.0, 12, 2, pull.code()),
            field(r.0, 12, 2) == pull.code(),
            PinPull::decode(field(r.0, 12, 2)) == pull,
            rest_is_kept(self.0, r.0, 12, 2),
    {
        proof {
            lemma_write(self.0, Self::D5_PIN_PULL, 12, 2, pull as u32);
        }
        Self((self.0 & !Self::D5_PIN_PULL) | (Self::D5_PIN_PULL & ((pull as u32) << 12)))
    }

    /// Get D5 pin pull configuration.
    #[inline]
    pub fn d5_pin_pull(self) -> (r: PinPull)
        ensures
            r == PinPull::decode(field(self.0, 12, 2)),
            PinPull::is_code(field(self.0, 12, 2)) ==> r.code() == field(self.0, 12, 2),
    {
        proof {
            lemma_read(self.0, Self::D5_PIN_PULL, 12, 2);
        }
        match (self.0 & Self::D5_PIN_PULL) >> 12 {
            0 => PinPull::Disabled,
            2 => PinPull::PullDown,
            3 => PinPull::PullUp,
            _ => PinPull::Reserved,
        }
    }

    /// Set D5 pin drive strength (`D5_PIN_DRV`).
    #[inline]
    pub fn set_d5_pin_drv(self, drv: PinDriveStrength) -> (r: Self)
        ensures
            r.0 == with_field(self.0, 8, 3, drv.code()),
            field(r.0, 8, 3) == drv.code(),
            PinDriveStrength::decode(field(r.0, 8, 3)) == drv,
            rest_is_kept(self.0, r.0, 8, 3),
    {
        proof {
            lemma_write(self.0, Self::D5_PIN_DRV, 8, 3, drv as u32);
        }
        Self((self.0 & !Self::D5_PIN_DRV) | (Self::D5_PIN_DRV & ((drv as u32) << 8)))
    }

    /// Get D5 pin drive strength.
    #[inline]
    pub fn d5_pin_drv(self) -> (r: PinDriveStrength)
        ensures
            r == PinDriveStrength::decode(field(self.0, 8, 3)),
            r.code() == field(self.0, 8, 3),
    {
        proof {
            lemma_read(self.0, Self::D5_PIN_DRV, 8, 3);
        }
        match (self.0 & Self::D5_PIN_DRV) >> 8 {
            0 => PinDriveStrength::Level0,
            1 => PinDriveStrength::Level1,
            2 => PinDriveStrength::Level2,
            3 => PinDriveStrength::Level3,
            4 => PinDriveStrength::Level4,
            5 => PinDriveStrength::Level5,
            6 => PinDriveStrength::Level6,
            7 => PinDriveStrength::Level7,
            _ => unreached(),
        }
    }

    /// Set D4 pin pull configuration (`D4_PIN_PULL`).
    #[inline]
    pub fn set_d4_pin_pull(self, pull: PinPull) -> (r: Self)
        ensures
            r.0 == with_field(self.0, 4, 2, pull.code()),
            field(r.0, 4, 2) == pull.code(),
            PinPull::decode(field(r.0, 4, 2)) == pull,
            rest_is_kept(self.0, r.0, 4, 2),
    {
        proof {
            lemma_write(self.0, Self::D4_PIN_PULL, 4, 2, pull as u32);
        }
        Self((self.0 & !Self::D4_PIN_PULL) | (Self::D4_PIN_PULL & ((pull as u32) << 4)))
    }

    /// Get D4 pin pull configuration.
    #[inline]
    pub fn d4_pin_pull(self) -> (r: PinPull)
        ensures
            r == PinPull::decode(field(self.0, 4, 2)),
            PinPull::is_code(field(self.0, 4, 2)) ==> r.code() == field(self.0, 4, 2),
    {
        proof {
            lemma_read(self.0, Self::D4_PIN_PULL, 4, 2);
        }
        match (self.0 & Self::D4_PIN_PULL) >> 4 {
            0 => PinPull::Disabled,
            2 => PinPull::PullDown,
            3 => PinPull::PullUp,
            _ => PinPull::Reserved,
        }
    }

    /// Set D4 pin drive strength (`D4_PIN_DRV`).
    #[inline]
    pub fn set_d4_pin_drv(self, drv: PinDriveStrength) -> (r: Self)
        ensures
            r.0 == with_field(self.0, 0, 3, drv.code()),
            field(r.0, 0, 3) == drv.code(),
            PinDriveStrength::decode(field(r.0, 0, 3)) == drv,
            rest_is_kept(self.0, r.0, 0, 3),
    {
        proof {
            lemma_write(self.0, Self::D4_PIN_DRV, 0, 3, drv as u32);
        }
        Self((self.0 & !Self::D4_PIN_DRV) | (Self::D4_PIN_DRV & (drv as u32)))
    }

    /// Get D4 pin drive strength.
    #[inline]
    pub fn d4_pin_drv(self) -> (r: PinDriveStrength)
        ensures
            r == PinDriveStrength::decode(field(self.0, 0, 3)),
            r.code() == field(self.0, 0, 3),
    {
        proof {
            lemma_read(self.0, Self::D4_PIN_DRV, 0, 3);
        }
        match self.0 & Self::D4_PIN_DRV {
            0 => PinDriveStrength::Level0,
            1 => PinDriveStrength::Level1,
            2 => PinDriveStrength::Level2,
            3 => PinDriveStrength::Level3,
            4 => PinDriveStrength::Level4,
            5 => PinDriveStrength::Level5,
            6 => PinDriveStrength::Level6,
            7 => PinDriveStrength::Level7,
            _ => unreached(),
        }
    }
}

/// XSPI chip select io configuration 2 register.
#[derive(Clone, Copy, Debug, PartialEq, Eq, PartialOrd, Ord, Hash, Structural)]
pub struct CsIoConfig2(pub u32);

impl CsIoConfig2 {
    const D3_PIN_PULL: u32 = 0x3000_0000;
    const D3_PIN_DRV: u32 = 0x700_0000;
    const D2_PIN_PULL: u32 = 0x30_0000;
    const D2_PIN_DRV: u32 = 0x7_0000;
    const D1_PIN_PULL: u32 = 0x3000;
    const D1_PIN_DRV: u32 = 0x700;
    const D0_PIN_PULL: u32 = 0x30;
    const D0_PIN_DRV: u32 = 0x7;

    /// Set D3 pin pull configuration (`D3_PIN_PULL`).
    #[inline]
    pub fn set_d3_pin_pull(self, pull: PinPull) -> (r: Self)
        ensures
            r.0 == with_field(self.0, 28, 2, pull.code()),
            field(r.0, 28, 2) == pull.code(),
            PinPull::decode(field(r.0, 28, 2)) == pull,
            rest_is_kept(self.0, r.0, 28, 2),
    {
        proof {
            lemma_write(self.0, Self::D3_PIN_PULL, 28, 2, pull as u32);
        }
        Self((self.0 & !Self::D3_PIN_PULL) | (Self::D3_PIN_PULL & ((pull as u32) << 28)))
    }

    /// Get D3 pin pull configuration.
    #[inline]
    pub fn d3_pin_pull(self) -> (r: PinPull)
        ensures
            r == PinPull::decode(field(self.0, 28, 2)),
            PinPull::is_code(field(self.0, 28, 2)) ==> r.code() == field(self.0, 28, 2),
    {
        proof {
            lemma_read(self.0, Self::D3_PIN_PULL, 28, 2);
        }
        match (self.0 & Self::D3_PIN_PULL) >> 28 {
            0 => PinPull::Disabled,
            2 => PinPull::PullDown,
            3 => PinPull::PullUp,
            _ => PinPull::Reserved,
        }
    }

    /// Set D3 pin drive strength (`D3_PIN_DRV`).
    #[inline]
    pub fn set_d3_pin_drv(self, drv: PinDriveStrength) -> (r: Self)
        ensures
            r.0 == with_field(self.0, 24, 3, drv.code()),
            field(r.0, 24, 3) == drv.code(),
            PinDriveStrength::decode(field(r.0, 24, 3)) == drv,
            rest_is_kept(self.0, r.0, 24, 3),
    {
        proof {
            lemma_write(self.0, Self::D3_PIN_DRV, 24, 3, drv as u32);
        }
        Self((self.0 & !Self::D3_PIN_DRV) | (Self::D3_PIN_DRV & ((drv as u32) << 24)))
    }

    /// Get D3 pin drive strength.
    #[inline]
    pub fn d3_pin_drv(self) -> (r: PinDriveStrength)
        ensures
            r == PinDriveStrength::decode(field(self.0, 24, 3)),
            r.code() == field(self.0, 24, 3),
    {
        proof {
            lemma_read(self.0, Self::D3_PIN_DRV, 24, 3);
        }
        match (self.0 & Self::D3_PIN_DRV) >> 24 {
            0 => PinDriveStrength::Level0,
            1 => PinDriveStrength::Level1,
            2 => PinDriveStrength::Level2,
            3 => PinDriveStrength::Level3,
            4 => PinDriveStrength::Level4,
            5 => PinDriveStrength::Level5,
            6 => PinDriveStrength::Level6,
            7 => PinDriveStrength::Level7,
            _ => unreached(),
        }
    }

    /// Set D2 pin pull configuration (`D2_PIN_PULL`).
    #[inline]
    pub fn set_d2_pin_pull(self, pull: PinPull) -> (r: Self)
        ensures
            r.0 == with_field(self.0, 20, 2, pull.code()),
            field(r.0, 20, 2) == pull.code(),
            PinPull::decode(field(r.0, 20, 2)) == pull,
            rest_is_kept(self.0, r.0, 20, 2),
    {
        proof {
            lemma_write(self.0, Self::D2_PIN_PULL, 20, 2, pull as u32);
        }
        Self((self.0 & !Self::D2_PIN_PULL) | (Self::D2_PIN_PULL & ((pull as u32) << 20)))
    }

    /// Get D2 pin pull configuration.
    #[inline]
    pub fn d2_pin_pull(self) -> (r: PinPull)
        ensures
            r == PinPull::decode(field(self.0, 20, 2)),
            PinPull::is_code(field(self.0, 20, 2)) ==> r.code() == field(self.0, 20, 2),
    {
        proof {
            lemma_read(self.0, Self::D2_PIN_PULL, 20, 2);
        }
        match (self.0 & Self::D2_PIN_PULL) >> 20 {
            0 => PinPull::Disabled,
            2 => PinPull::PullDown,
            3 => PinPull::PullUp,
            _ => PinPull::Reserved,
        }
    }

    /// Set D2 pin drive strength (`D2_PIN_DRV`).
    #[inline]
    pub fn set_d2_pin_drv(self, drv: PinDriveStrength) -> (r: Self)
        ensures
            r.0 == with_field(self.0, 16, 3, drv.code()),
            field(r.0, 16, 3) == drv.code(),
            PinDriveStrength::decode(field(r.0, 16, 3)) == drv,
            rest_is_kept(self.0, r.0, 16, 3),
    {
        proof {
            lemma_write(self.0, Self::D2_PIN_DRV, 16, 3, drv as u32);
        }
        Self((self.0 & !Self::D2_PIN_DRV) | (Self::D2_PIN_DRV & ((drv as u32) << 16)))
    }

    /// Get D2 pin drive strength.
    #[inline]
    pub fn d2_pin_drv(self) -> (r: PinDriveStrength)
        ensures
            r == PinDriveStrength::decode(field(self.0, 16, 3)),
            r.code() == field(self.0, 16, 3),
    {
        proof {
            lemma_read(self.0, Self::D2_PIN_DRV, 16, 3);
        }
        match (self.0 & Self::D2_PIN_DRV) >> 16 {
            0 => PinDriveStrength::Level0,
            1 => PinDriveStrength::Level1,
            2 => PinDriveStrength::Level2,
            3 => PinDriveStrength::Level3,
            4 => PinDriveStrength::Level4,
            5 => PinDriveStrength::Level5,
            6 => PinDriveStrength::Level6,
            7 => PinDriveStrength::Level7,
            _ => unreached(),
        }
    }

    /// Set D1 pin pull configuration (`D1_PIN_PULL`).
    #[inline]
    pub fn set_d1_pin_pull(self, pull: PinPull) -> (r: Self)
        ensures
            r.0 == with_field(self.0, 12, 2, pull.code()),
            field(r.0, 12, 2) == pull.code(),
            PinPull::decode(field(r.0, 12, 2)) == pull,
            rest_is_kept(self.0, r.0, 12, 2),
    {
        proof {
            lemma_write(self.0, Self::D1_PIN_PULL, 12, 2, pull as u32);
        }
        Self((self.0 & !Self::D1_PIN_PULL) | (Self::D1_PIN_PULL & ((pull as u32) << 12)))
    }

    /// Get D1 pin pull configuration.
    #[inline]
    pub fn d1_pin_pull(self) -> (r: PinPull)
        ensures
            r == PinPull::decode(field(self.0, 12, 2)),
            PinPull::is_code(field(self.0, 12, 2)) ==> r.code() == field(self.0, 12, 2),
    {
        proof {
            lemma_read(self.0, Self::D1_PIN_PULL, 12, 2);
        }
        match (self.0 & Self::D1_PIN_PULL) >> 12 {
            0 => PinPull::Disabled,
            2 => PinPull::PullDown,
            3 => PinPull::PullUp,
            _ => PinPull::Reserved,
        }
    }

    /// Set D1 pin drive strength (`D1_PIN_DRV`).
    #[inline]
    pub fn set_d1_pin_drv(self, drv: PinDriveStrength) -> (r: Self)
        ensures
            r.0 == with_field(self.0, 8, 3, drv.code()),
            field(r.0, 8, 3) == drv.code(),
            PinDriveStrength::decode(field(r.0, 8, 3)) == drv,
            rest_is_kept(self.0, r.0, 8, 3),
    {
        proof {
            lemma_write(self.0, Self::D1_PIN_DRV, 8, 3, drv as u32);
        }
        Self((self.0 & !Self::D1_PIN_DRV) | (Self::D1_PIN_DRV & ((drv as u32) << 8)))
    }

    /// Get D1 pin drive strength.
    #[inline]
    pub fn d1_pin_drv(self) -> (r: PinDriveStrength)
        ensures
            r == PinDriveStrength::decode(field(self.0, 8, 3)),
            r.code() == field(self.0, 8, 3),
    {
        proof {
            lemma_read(self.0, Self::D1_PIN_DRV, 8, 3);
        }
        match (self.0 & Self::D1_PIN_DRV) >> 8 {
            0 => PinDriveStrength::Level0,
            1 => PinDriveStrength::Level1,
            2 => PinDriveStrength::Level2,
            3 => PinDriveStrength::Level3,
            4 => PinDriveStrength::Level4,
            5 => PinDriveStrength::Level5,
            6 => PinDriveStrength::Level6,
            7 => PinDriveStrength::Level7,
            _ => unreached(),
        }
    }

    /// Set D0 pin pull configuration (`D0_PIN_PULL`).
    #[inline]
    pub fn set_d0_pin_pull(self, pull: PinPull) -> (r: Self)
        ensures
            r.0 == with_field(self.0, 4, 2, pull.code()),
            field(r.0, 4, 2) == pull.code(),
            PinPull::decode(field(r.0, 4, 2)) == pull,
            rest_is_kept(self.0, r.0, 4, 2),
    {
        proof {
            lemma_write(self.0, Self::D0_PIN_PULL, 4, 2, pull as u32);
        }
        Self((self.0 & !Self::D0_PIN_PULL) | (Self::D0_PIN_PULL & ((pull as u32) << 4)))
    }

    /// Get D0 pin pull configuration.
    #[inline]
    pub fn d0_pin_pull(self) -> (r: PinPull)
        ensures
            r == PinPull::decode(field(self.0, 4, 2)),
            PinPull::is_code(field(self.0, 4, 2)) ==> r.code() == field(self.0, 4, 2),
    {
        proof {
            lemma_read(self.0, Self::D0_PIN_PULL, 4, 2);
        }
        match (self.0 & Self::D0_PIN_PULL) >> 4 {
            0 => PinPull::Disabled,
            2 => PinPull::PullDown,
            3 => PinPull::PullUp,
            _ => PinPull::Reserved,
        }
    }

    /// Set D0 pin drive strength (`D0_PIN_DRV`).
    #[inline]
    pub fn set_d0_pin_drv(self, drv: PinDriveStrength) -> (r: Self)
        ensures
            r.0 == with_field(self.0, 0, 3, drv.code()),
            field(r.0, 0, 3) == drv.code(),
            PinDriveStrength::decode(field(r.0, 0, 3)) == drv,
            rest_is_kept(self.0, r.0, 0, 3),
    {
        proof {
            lemma_write(self.0, Self::D0_PIN_DRV, 0, 3, drv as u32);
        }
        Self((self.0 & !Self::D0_PIN_DRV) | (Self::D0_PIN_DRV & (drv as u32)))
    }

    /// Get D0 pin drive strength.
    #[inline]
    pub fn d0_pin_drv(self) -> (r: PinDriveStrength)
        ensures
            r == PinDriveStrength::decode(field(self.0, 0, 3)),
            r.code() == field(self.0, 0, 3),
    {
        proof {
            lemma_read(self.0, Self::D0_PIN_DRV, 0, 3);
        }
        match self.0 & Self::D0_PIN_DRV {
            0 => PinDriveStrength::Level0,
            1 => PinDriveStrength::Level1,
            2 => PinDriveStrength::Level2,
            3 => PinDriveStrength::Level3,
            4 => PinDriveStrength::Level4,
            5 => PinDriveStrength::Level5,
            6 => PinDriveStrength::Level6,
            7 => PinDriveStrength::Level7,
            _ => unreached(),
        }
    }
}

/// XSPI chip select io configuration 3 register.
#[derive(Clone, Copy, Debug, PartialEq, Eq, PartialOrd, Ord, Hash, Structural)]
pub struct CsIoConfig3(pub u32);

impl CsIoConfig3 {
    const CS_PIN_PULL: u32 = 0x3000_0000;
    const CS_PIN_DRV: u32 = 0x700_0000;
    const DQS_PIN_PULL: u32 = 0x30_0000;
    const DQS_PIN_DRV: u32 = 0x7_0000;
    const CK_PIN_PULL: u32 = 0x3000;
    const CK_PIN_DRV: u32 = 0x700;
    const CKN_PIN_PULL: u32 = 0x30;
    const CKN_PIN_DRV: u32 = 0x7;

    /// Set CS pin pull configuration (`CS_PIN_PULL`).
    #[inline]
    pub fn set_cs_pin_pull(self, pull: PinPull) -> (r: Self)
        ensures
            r.0 == with_field(self.0, 28, 2, pull.code()),
            field(r.0, 28, 2) == pull.code(),
            PinPull::decode(field(r.0, 28, 2)) == pull,
            rest_is_kept(self.0, r.0, 28, 2),
    {
        proof {
            lemma_write(self.0, Self::CS_PIN_PULL, 28, 2, pull as u32);
        }
        Self((self.0 & !Self::CS_PIN_PULL) | (Self::CS_PIN_PULL & ((pull as u32) << 28)))
    }

    /// Get CS pin pull configuration.
    #[inline]
    pub fn cs_pin_pull(self) -> (r: PinPull)
        ensures
            r == PinPull::decode(field(self.0, 28, 2)),
            PinPull::is_code(field(self.0, 28, 2)) ==> r.code() == field(self.0, 28, 2),
    {
        proof {
            lemma_read(self.0, Self::CS_PIN_PULL, 28, 2);
        }
        match (self.0 & Self::CS_PIN_PULL) >> 28 {
            0 => PinPull::Disabled,
            2 => PinPull::PullDown,
            3 => PinPull::PullUp,
            _ => PinPull::Reserved,
        }
    }

    /// Set CS pin drive strength (`CS_PIN_DRV`).
    #[inline]
    pub fn set_cs_pin_drv(self, drv: PinDriveStrength) -> (r: Self)
        ensures
            r.0 == with_field(self.0, 24, 3, drv.code()),
            field(r.0, 24, 3) == drv.code(),
            PinDriveStrength::decode(field(r.0, 24, 3)) == drv,
            rest_is_kept(self.0, r.0, 24, 3),
    {
        proof {
            lemma_write(self.0, Self::CS_PIN_DRV, 24, 3, drv as u32);
        }
        Self((self.0 & !Self::CS_PIN_DRV) | (Self::CS_PIN_DRV & ((drv as u32) << 24)))
    }

    /// Get CS pin drive strength.
    #[inline]
    pub fn cs_pin_drv(self) -> (r: PinDriveStrength)
        ensures
            r == PinDriveStrength::decode(field(self.0, 24, 3)),
            r.code() == field(self.0, 24, 3),
    {
        proof {
            lemma_read(self.0, Self::CS_PIN_DRV, 24, 3);
        }
        match (self.0 & Self::CS_PIN_DRV) >> 24 {
            0 => PinDriveStrength::Level0,
            1 => PinDriveStrength::Level1,
            2 => PinDriveStrength::Level2,
            3 => PinDriveStrength::Level3,
            4 => PinDriveStrength::Level4,
            5 => PinDriveStrength::Level5,
            6 => PinDriveStrength::Level6,
            7 => PinDriveStrength::Level7,
            _ => unreached(),
        }
    }

    /// Set DQS pin pull configuration (`DQS_PIN_PULL`).
    #[inline]
    pub fn set_dqs_pin_pull(self, pull: PinPull) -> (r: Self)
        ensures
            r.0 == with_field(self.0, 20, 2, pull.code()),
            field(r.0, 20, 2) == pull.code(),
            PinPull::decode(field(r.0, 20, 2)) == pull,
            rest_is_kept(self.0, r.0, 20, 2),
    {
        proof {
            lemma_write(self.0, Self::DQS_PIN_PULL, 20, 2, pull as u32);
        }
        Self((self.0 & !Self::DQS_PIN_PULL) | (Self::DQS_PIN_PULL & ((pull as u32) << 20)))
    }

    /// Get DQS pin pull configuration.
    #[inline]
    pub fn dqs_pin_pull(self) -> (r: PinPull)
        ensures
            r == PinPull::decode(field(self.0, 20, 2)),
            PinPull::is_code(field(self.0, 20, 2)) ==> r.code() == field(self.0, 20, 2),
    {
        proof {
            lemma_read(self.0, Self::DQS_PIN_PULL, 20, 2);
        }
        match (self.0 & Self::DQS_PIN_PULL) >> 20 {
            0 => PinPull::Disabled,
            2 => PinPull::PullDown,
            3 => PinPull::PullUp,
            _ => PinPull::Reserved,
        }
    }

    /// Set DQS pin drive strength (`DQS_PIN_DRV`).
    #[inline]
    pub fn set_dqs_pin_drv(self, drv: PinDriveStrength) -> (r: Self)
        ensures
            r.0 == with_field(self.0, 16, 3, drv.code()),
            field(r.0, 16, 3) == drv.code(),
            PinDriveStrength::decode(field(r.0, 16, 3)) == drv,
            rest_is_kept(self.0, r.0, 16, 3),
    {
        proof {
            lemma_write(self.0, Self::DQS_PIN_DRV, 16, 3, drv as u32);
        }
        Self((self.0 & !Self::DQS_PIN_DRV) | (Self::DQS_PIN_DRV & ((drv as u32) << 16)))
    }

    /// Get DQS pin drive strength.
    #[inline]
    pub fn dqs_pin_drv(self) -> (r: PinDriveStrength)
        ensures
            r == PinDriveStrength::decode(field(self.0, 16, 3)),
            r.code() == field(self.0, 16, 3),
    {
        proof {
            lemma_read(self.0, Self::DQS_PIN_DRV, 16, 3);
        }
        match (self.0 & Self::DQS_PIN_DRV) >> 16 {
            0 => PinDriveStrength::Level0,
            1 => PinDriveStrength::Level1,
            2 => PinDriveStrength::Level2,
            3 => PinDriveStrength::Level3,
            4 => PinDriveStrength::Level4,
            5 => PinDriveStrength::Level5,
            6 => PinDriveStrength::Level6,
            7 => PinDriveStrength::Level7,
            _ => unreached(),
        }
    }

    /// Set CK pin pull configuration (`CK_PIN_PULL`).
    #[inline]
    pub fn set_ck_pin_pull(self, pull: PinPull) -> (r: Self)
        ensures
            r.0 == with_field(self.0, 12, 2, pull.code()),
            field(r.0, 12, 2) == pull.code(),
            PinPull::decode(field(r.0, 12, 2)) == pull,
            rest_is_kept(self.0, r.0, 12, 2),
    {
        proof {
            lemma_write(self.0, Self::CK_PIN_PULL, 12, 2, pull as u32);
        }
        Self((self.0 & !Self::CK_PIN_PULL) | (Self::CK_PIN_PULL & ((pull as u32) << 12)))
    }

    /// Get CK pin pull configuration.
    #[inline]
    pub fn ck_pin_pull(self) -> (r: PinPull)
        ensures
            r == PinPull::decode(field(self.0, 12, 2)),
            PinPull::is_code(field(self.0, 12, 2)) ==> r.code() == field(self.0, 12, 2),
    {
        proof {
            lemma_read(self.0, Self::CK_PIN_PULL, 12, 2);
        }
        match (self.0 & Self::CK_PIN_PULL) >> 12 {
            0 => PinPull::Disabled,
            2 => PinPull::PullDown,
            3 => PinPull::PullUp,
            _ => PinPull::Reserved,
        }
    }

    /// Set CK pin drive strength (`CK_PIN_DRV`).
    #[inline]
    pub fn set_ck_pin_drv(self, drv: PinDriveStrength) -> (r: Self)
        ensures
            r.0 == with_field(self.0, 8, 3, drv.code()),
            field(r.0, 8, 3) == drv.code(),
            PinDriveStrength::decode(field(r.0, 8, 3)) == drv,
            rest_is_kept(self.0, r.0, 8, 3),
    {
        proof {
            lemma_write(self.0, Self::CK_PIN_DRV, 8, 3, drv as u32);
        }
        Self((self.0 & !Self::CK_PIN_DRV) | (Self::CK_PIN_DRV & ((drv as u32) << 8)))
    }

    /// Get CK pin drive strength.
    #[inline]
    pub fn ck_pin_drv(self) -> (r: PinDriveStrength)
        ensures
            r == PinDriveStrength::decode(field(self.0, 8, 3)),
            r.code() == field(self.0, 8, 3),
    {
        proof {
            lemma_read(self.0, Self::CK_PIN_DRV, 8, 3);
        }
        match (self.0 & Self::CK_PIN_DRV) >> 8 {
            0 => PinDriveStrength::Level0,
            1 => PinDriveStrength::Level1,
            2 => PinDriveStrength::Level2,
            3 => PinDriveStrength::Level3,
            4 => PinDriveStrength::Level4,
            5 => PinDriveStrength::Level5,
            6 => PinDriveStrength::Level6,
            7 => PinDriveStrength::Level7,
            _ => unreached(),
        }
    }

    /// Set CKN pin pull configuration (`CKN_PIN_PULL`).
    #[inline]
    pub fn set_ckn_pin_pull(self, pull: PinPull) -> (r: Self)
        ensures
            r.0 == with_field(self.0, 4, 2, pull.code()),
            field(r.0, 4, 2) == pull.code(),
            PinPull::decode(field(r.0, 4, 2)) == pull,
            rest_is_kept(self.0, r.0, 4, 2),
    {
        proof {
            lemma_write(self.0, Self::CKN_PIN_PULL, 4, 2, pull as u32);
        }
        Self((self.0 & !Self::CKN_PIN_PULL) | (Self::CKN_PIN_PULL & ((pull as u32) << 4)))
    }

    /// Get CKN pin pull configuration.
    #[inline]
    pub fn ckn_pin_pull(self) -> (r: PinPull)
        ensures
            r == PinPull::decode(field(self.0, 4, 2)),
            PinPull::is_code(field(self.0, 4, 2)) ==> r.code() == field(self.0, 4, 2),
    {
        proof {
            lemma_read(self.0, Self::CKN_PIN_PULL, 4, 2);
        }
        match (self.0 & Self::CKN_PIN_PULL) >> 4 {
            0 => PinPull::Disabled,
            2 => PinPull::PullDown,
            3 => PinPull::PullUp,
            _ => PinPull::Reserved,
        }
    }

    /// Set CKN pin drive strength (`CKN_PIN_DRV`).
    #[inline]
    pub fn set_ckn_pin_drv(self, drv: PinDriveStrength) -> (r: Self)
        ensures
            r.0 == with_field(self.0, 0, 3, drv.code()),
            field(r.0, 0, 3) == drv.code(),
            PinDriveStrength::decode(field(r.0, 0, 3)) == drv,
            rest_is_kept(self.0, r.0, 0, 3),
    {
        proof {
            lemma_write(self.0, Self::CKN_PIN_DRV, 0, 3, drv as u32);
        }
        Self((self.0 & !Self::CKN_PIN_DRV) | (Self::CKN_PIN_DRV & (drv as u32)))
    }

    /// Get CKN pin drive strength.
    #[inline]
    pub fn ckn_pin_drv(self) -> (r: PinDriveStrength)
        ensures
            r == PinDriveStrength::decode(field(self.0, 0, 3)),
            r.code() == field(self.0, 0, 3),
    {
        proof {
            lemma_read(self.0, Self::CKN_PIN_DRV, 0, 3);
        }
        match self.0 & Self::CKN_PIN_DRV {
            0 => PinDriveStrength::Level0,
            1 => PinDriveStrength::Level1,
            2 => PinDriveStrength::Level2,
            3 => PinDriveStrength::Level3,
            4 => PinDriveStrength::Level4,
            5 => PinDriveStrength::Level5,
            6 => PinDriveStrength::Level6,
            7 => PinDriveStrength::Level7,
            _ => unreached(),
        }
    }
}

/// XSPI chip select io configuration 4 register.
#[derive(Clone, Copy, Debug, PartialEq, Eq, PartialOrd, Ord, Hash, Structural)]
pub struct CsIoConfig4(pub u32);

impl CsIoConfig4 {
    const DM_PIN_PULL: u32 = 0x30;
    const DM_PIN_DRV: u32 = 0x7;

    /// Set DM pin pull configuration (`DM_PIN_PULL`).
    #[inline]
    pub fn set_dm_pin_pull(self, pull: PinPull) -> (r: Self)
        ensures
            r.0 == with_field(self.0, 4, 2, pull.code()),
            field(r.0, 4, 2) == pull.code(),
            PinPull::decode(field(r.0, 4, 2)) == pull,
            rest_is_kept(self.0, r.0, 4, 2),
    {
        proof {
            lemma_write(self.0, Self::DM_PIN_PULL, 4, 2, pull as u32);
        }
        Self((self.0 & !Self::DM_PIN_PULL) | (Self::DM_PIN_PULL & ((pull as u32) << 4)))
    }

    /// Get DM pin pull configuration.
    #[inline]
    pub fn dm_pin_pull(self) -> (r: PinPull)
        ensures
            r == PinPull::decode(field(self.0, 4, 2)),
            PinPull::is_code(field(self.0, 4, 2)) ==> r.code() == field(self.0, 4, 2),
    {
        proof {
            lemma_read(self.0, Self::DM_PIN_PULL, 4, 2);
        }
        match (self.0 & Self::DM_PIN_PULL) >> 4 {
            0 => PinPull::Disabled,
            2 => PinPull::PullDown,
            3 => PinPull::PullUp,
            _ => PinPull::Reserved,
        }
    }

    /// Set DM pin drive strength (`DM_PIN_DRV`).
    #[inline]
    pub fn set_dm_pin_drv(self, drv: PinDriveStrength) -> (r: Self)
        ensures
            r.0 == with_field(self.0, 0, 3, drv.code()),
            field(r.0, 0, 3) == drv.code(),
            PinDriveStrength::decode(field(r.0, 0, 3)) == drv,
            rest_is_kept(self.0, r.0, 0, 3),
    {
        proof {
            lemma_write(self.0, Self::DM_PIN_DRV, 0, 3, drv as u32);
        }
        Self((self.0 & !Self::DM_PIN_DRV) | (Self::DM_PIN_DRV & (drv as u32)))
    }

    /// Get DM pin drive strength.
    #[inline]
    pub fn dm_pin_drv(self) -> (r: PinDriveStrength)
        ensures
            r == PinDriveStrength::decode(field(self.0, 0, 3)),
            r.code() == field(self.0, 0, 3),
    {
        proof {
            lemma_read(self.0, Self::DM_PIN_DRV, 0, 3);
        }
        match self.0 & Self::DM_PIN_DRV {
            0 => PinDriveStrength::Level0,
            1 => PinDriveStrength::Level1,
            2 => PinDriveStrength::Level2,
            3 => PinDriveStrength::Level3,
            4 => PinDriveStrength::Level4,
            5 => PinDriveStrength::Level5,
            6 => PinDriveStrength::Level6,
            7 => PinDriveStrength::Level7,
            _ => unreached(),
        }
    }
}

/// Training result calculation method.
#[derive(Clone, Copy, Debug, PartialEq, Eq, Structural)]
pub enum TrainingPhaseCal {
    /// (temp1 + temp2) / 2, round down.
    RoundDown,
    /// ((temp1 + temp2) - 1) / 2 + 1, round up.
    RoundUp,
}

impl TrainingPhaseCal {
    /// The number that stands for this value in its register field.
    pub open spec fn code(self) -> int {
        match self {
            Self::RoundDown => 0,
            Self::RoundUp => 1,
        }
    }

    /// The value that `code` stands for. Every larger number is read as the
    /// last value.
    pub open spec fn decode(code: int) -> Self {
        if code == 0 {
            Self::RoundDown
        } else {
            Self::RoundUp
        }
    }
}

/// Training pattern selection.
#[derive(Clone, Copy, Debug, PartialEq, Eq, Structural)]
pub enum TrainingPatternSel {
    /// Stuck address.
    StuckAddress,
    /// Random number.
    Random,
    /// High-low level inversion.
    Inversion,
    /// Custom.
    Custom,
    /// A bit pattern to which the hardware gives no meaning.
    Reserved,
}

impl TrainingPatternSel {
    /// The number that stands for this value in its register field. Of the
    /// numbers that stand for no other value, `Reserved` is written as the lowest.
    pub open spec fn code(self) -> int {
        match self {
            Self::StuckAddress => 0,
            Self::Random => 1,
            Self::Inversion => 2,
            Self::Custom => 3,
            Self::Reserved => 4,
        }
    }

    /// The value that `code` stands for: `Reserved`, where it stands for none.
    pub open spec fn decode(code: int) -> Self {
        if code == 0 {
            Self::StuckAddress
        } else if code == 1 {
            Self::Random
        } else if code == 2 {
            Self::Inversion
        } else if code == 3 {
            Self::Custom
        } else {
            Self::Reserved
        }
    }

    /// Whether `code` stands for a value other than `Reserved`.
    pub open spec fn is_code(code: int) -> bool {
        0 <= code <= 3
    }
}

/// XSPI training configuration register.
#[derive(Clone, Copy, Debug, PartialEq, Eq, PartialOrd, Ord, Hash, Structural)]
pub struct TrainingConfig(pub u32);

impl TrainingConfig {
    const TRAINING_PHASE_CAL: u32 = 0x100_0000;
    const TRAINING_PATTERN_SEL: u32 = 0xF_0000;
    const DATA_LEN: u32 = 0xFFFF;

    /// Set training phase calculation method (`TRAINING_PHASE_CAL`).
    #[inline]
    pub fn set_training_phase_cal(self, cal: TrainingPhaseCal) -> (r: Self)
        ensures
            r.0 == with_field(self.0, 24, 1, cal.code()),
            field(r.0, 24, 1) == cal.code(),
            TrainingPhaseCal::decode(field(r.0, 24, 1)) == cal,
            rest_is_kept(self.0, r.0, 24, 1),
    {
        proof {
            lemma_write(self.0, Self::TRAINING_PHASE_CAL, 24, 1, cal as u32);
        }
        Self(
            (self.0 & !Self::TRAINING_PHASE_CAL)
                | (Self::TRAINING_PHASE_CAL & ((cal as u32) << 24)),
        )
    }

    /// Get training phase calculation method.
    #[inline]
    pub fn training_phase_cal(self) -> (r: TrainingPhaseCal)
        ensures
            r == TrainingPhaseCal::decode(field(self.0, 24, 1)),
            r.code() == field(self.0, 24, 1),
    {
        proof {
            lemma_read(self.0, Self::TRAINING_PHASE_CAL, 24, 1);
        }
        match (self.0 & Self::TRAINING_PHASE_CAL) >> 24 {
            0 => TrainingPhaseCal::RoundDown,
            1 => TrainingPhaseCal::RoundUp,
            _ => unreached(),
        }
    }

    /// Set training pattern selection (`TRAINING_PATTERN_SEL`).
    #[inline]
    pub fn set_training_pattern_sel(self, pattern: TrainingPatternSel) -> (r: Self)
        ensures
            r.0 == with_field(self.0, 16, 4, pattern.code()),
            field(r.0, 16, 4) == pattern.code(),
            TrainingPatternSel::decode(field(r.0, 16, 4)) == pattern,
            rest_is_kept(self.0, r.0, 16, 4),
    {
        proof {
            lemma_write(self.0, Self::TRAINING_PATTERN_SEL, 16, 4, pattern as u32);
        }
        Self(
            (self.0 & !Self::TRAINING_PATTERN_SEL)
                | (Self::TRAINING_PATTERN_SEL & ((pattern as u32) << 16)),
        )
    }

    /// Get training pattern selection.
    #[inline]
    pub fn training_pattern_sel(self) -> (r: TrainingPatternSel)
        ensures
            r == TrainingPatternSel::decode(field(self.0, 16, 4)),
            TrainingPatternSel::is_code(field(self.0, 16, 4)) ==> r.code() == field(self.0, 16, 4),
    {
        proof {
            lemma_read(self.0, Self::TRAINING_PATTERN_SEL, 16, 4);
        }
        match (self.0 & Self::TRAINING_PATTERN_SEL) >> 16 {
            0 => TrainingPatternSel::StuckAddress,
            1 => TrainingPatternSel::Random,
            2 => TrainingPatternSel::Inversion,
            3 => TrainingPatternSel::Custom,
            _ => TrainingPatternSel::Reserved,
        }
    }

    /// Set training data length (`DATA_LEN`).
    ///
    /// Training data length in bytes.
    #[inline]
    pub fn set_data_len(self, len: u16) -> (r: Self)
        ensures
            r.0 == with_field(self.0, 0, 16, len as int),
            field(r.0, 0, 16) == len,
            rest_is_kept(self.0, r.0, 0, 16),
    {
        proof {
            lemma_write(self.0, Self::DATA_LEN, 0, 16, len as u32);
        }
        Self((self.0 & !Self::DATA_LEN) | (Self::DATA_LEN & (len as u32)))
    }

    /// Get training data length.
    #[inline]
    pub fn data_len(self) -> (r: u16)
        ensures
            r == field(self.0, 0, 16),
    {
        proof {
            lemma_read(self.0, Self::DATA_LEN, 0, 16);
        }
        (self.0 & Self::DATA_LEN) as u16
    }
}

/// IO configuration for instruction.
#[derive(Clone, Copy, Debug, PartialEq, Eq, Structural)]
pub enum IoCfg {
    /// 1 IO.
    OneIo,
    /// 2 IO.
    TwoIo,
    /// 4 IO.
    FourIo,
    /// 8 IO.
    EightIo,
}

impl IoCfg {
    /// The number that stands for this value in its register field.
    pub open spec fn code(self) -> int {
        match self {
            Self::OneIo => 0,
            Self::TwoIo => 1,
            Self::FourIo => 2,
            Self::EightIo => 3,
        }
    }

    /// The value that `code` stands for. Every larger number is read as the
    /// last value.
    pub open spec fn decode(code: int) -> Self {
        if code == 0 {
            Self::OneIo
        } else if code == 1 {
            Self::TwoIo
        } else if code == 2 {
            Self::FourIo
        } else {
            Self::EightIo
        }
    }
}

/// XSPI look up table register.
#[derive(Clone, Copy, Debug, PartialEq, Eq, PartialOrd, Ord, Hash, Structural)]
pub struct Lut(pub u32);

impl Lut {
    const INSTR1: u32 = 0xFC00_0000;
    const IO_CFG1: u32 = 0x300_0000;
    const OPERAND1: u32 = 0xFF_0000;
    const INSTR0: u32 = 0xFC00;
    const IO_CFG0: u32 = 0x300;
    const OPERAND0: u32 = 0xFF;

    /// Set instruction1 (`INSTR1`).
    ///
    /// Instruction for the first part of the LUT entry.
    ///
    /// Aborts if `instr` is not below `0x40`.
    #[inline]
    pub fn set_instr1(self, instr: u8) -> (r: Self)
        requires
            instr < 0x40,
        ensures
            r.0 == with_field(self.0, 26, 6, instr as int),
            field(r.0, 26, 6) == instr,
            rest_is_kept(self.0, r.0, 26, 6),
    {
        runtime_assert(instr < 0x40);
        proof {
            lemma_write(self.0, Self::INSTR1, 26, 6, instr as u32);
        }
        Self((self.0 & !Self::INSTR1) | (Self::INSTR1 & ((instr as u32) << 26)))
    }

    /// Get instruction1.
    #[inline]
    pub fn instr1(self) -> (r: u8)
        ensures
            r == field(self.0, 26, 6),
    {
        proof {
            lemma_read(self.0, Self::INSTR1, 26, 6);
        }
        ((self.0 & Self::INSTR1) >> 26) as u8
    }

    /// Set instruction1 IO configuration (`IO_CFG1`).
    #[inline]
    pub fn set_io_cfg1(self, cfg: IoCfg) -> (r: Self)
        ensures
            r.0 == with_field(self.0, 24, 2, cfg.code()),
            field(r.0, 24, 2) == cfg.code(),
            IoCfg::decode(field(r.0, 24, 2)) == cfg,
            rest_is_kept(self.0, r.0, 24, 2),
    {
        proof {
            lemma_write(self.0, Self::IO_CFG1, 24, 2, cfg as u32);
        }
        Self((self.0 & !Self::IO_CFG1) | (Self::IO_CFG1 & ((cfg as u32) << 24)))
    }

    /// Get instruction1 IO configuration.
    #[inline]
    pub fn io_cfg1(self) -> (r: IoCfg)
        ensures
            r == IoCfg::decode(field(self.0, 24, 2)),
            r.code() == field(self.0, 24, 2),
    {
        proof {
            lemma_read(self.0, Self::IO_CFG1, 24, 2);
        }
        match (self.0 & Self::IO_CFG1) >> 24 {
            0 => IoCfg::OneIo,
            1 => IoCfg::TwoIo,
            2 => IoCfg::FourIo,
            3 => IoCfg::EightIo,
            _ => unreached(),
        }
    }

    /// Set instruction1 operand (`OPERAND1`).
    ///
    /// Operand configuration for instruction1.
    #[inline]
    pub fn set_operand1(self, operand: u8) -> (r: Self)
        ensures
            r.0 == with_field(self.0, 16, 8, operand as int),
            field(r.0, 16, 8) == operand,
            rest_is_kept(self.0, r.0, 16, 8),
    {
        proof {
            lemma_write(self.0, Self::OPERAND1, 16, 8, operand as u32);
        }
        Self((self.0 & !Self::OPERAND1) | (Self::OPERAND1 & ((operand as u32) << 16)))
    }

    /// Get instruction1 operand.
    #[inline]
    pub fn operand1(self) -> (r: u8)
        ensures
            r == field(self.0, 16, 8),
    {
        proof {
            lemma_read(self.0, Self::OPERAND1, 16, 8);
        }
        ((self.0 & Self::OPERAND1) >> 16) as u8
    }

    /// Set instruction0 (`INSTR0`).
    ///
    /// Instruction for the second part of the LUT entry.
    ///
    /// Aborts if `instr` is not below `0x40`.
    #[inline]
    pub fn set_instr0(self, instr: u8) -> (r: Self)
        requires
            instr < 0x40,
        ensures
            r.0 == with_field(self.0, 10, 6, instr as int),
            field(r.0, 10, 6) == instr,
            rest_is_kept(self.0, r.0, 10, 6),
    {
        runtime_assert(instr < 0x40);
        proof {
            lemma_write(self.0, Self::INSTR0, 10, 6, instr as u32);
        }
        Self((self.0 & !Self::INSTR0) | (Self::INSTR0 & ((instr as u32) << 10)))
    }

    /// Get instruction0.
    #[inline]
    pub fn instr0(self) -> (r: u8)
        ensures
            r == field(self.0, 10, 6),
    {
        proof {
            lemma_read(self.0, Self::INSTR0, 10, 6);
        }
        ((self.0 & Self::INSTR0) >> 10) as u8
    }

    /// Set instruction0 IO configuration (`IO_CFG0`).
    #[inline]
    pub fn set_io_cfg0(self, cfg: IoCfg) -> (r: Self)
        ensures
            r.0 == with_field(self.0, 8, 2, cfg.code()),
            field(r.0, 8, 2) == cfg.code(),
            IoCfg::decode(field(r.0, 8, 2)) == cfg,
            rest_is_kept(self.0, r.0, 8, 2),
    {
        proof {
            lemma_write(self.0, Self::IO_CFG0, 8, 2, cfg as u32);
        }
        Self((self.0 & !Self::IO_CFG0) | (Self::IO_CFG0 & ((cfg as u32) << 8)))
    }

    /// Get instruction0 IO configuration.
    #[inline]
    pub fn io_cfg0(self) -> (r: IoCfg)
        ensures
            r == IoCfg::decode(field(self.0, 8, 2)),
            r.code() == field(self.0, 8, 2),
    {
        proof {
            lemma_read(self.0, Self::IO_CFG0, 8, 2);
        }
        match (self.0 & Self::IO_CFG0) >> 8 {
            0 => IoCfg::OneIo,
            1 => IoCfg::TwoIo,
            2 => IoCfg::FourIo,
            3 => IoCfg::EightIo,
            _ => unreached(),
        }
    }

    /// Set instruction0 operand (`OPERAND0`).
    ///
    /// Operand configuration for instruction0.
    #[inline]
    pub fn set_operand0(self, operand: u8) -> (r: Self)
        ensures
            r.0 == with_field(self.0, 0, 8, operand as int),
            field(r.0, 0, 8) == operand,
            rest_is_kept(self.0, r.0, 0, 8),
    {
        proof {
            lemma_write(self.0, Self::OPERAND0, 0, 8, operand as u32);
        }
        Self((self.0 & !Self::OPERAND0) | (Self::OPERAND0 & (operand as u32)))
    }

    /// Get instruction0 operand.
    #[inline]
    pub fn operand0(self) -> (r: u8)
        ensures
            r == field(self.0, 0, 8),
    {
        proof {
            lemma_read(self.0, Self::OPERAND0, 0, 8);
        }
        (self.0 & Self::OPERAND0) as u8
    }
}

/// XSPI debug select register.
#[derive(Clone, Copy, Debug, PartialEq, Eq, PartialOrd, Ord, Hash, Structural)]
pub struct DebugSel(pub u32);

impl DebugSel {
    const DEBUG_SEL: u32 = 0xF;

    /// Set debug selection (`DEBUG_SEL`).
    ///
    /// Selects the debug signal to be output.
    ///
    /// Aborts if `sel` is not below `0x10`.
    #[inline]
    pub fn set_debug_sel(self, sel: u8) -> (r: Self)
        requires
            sel < 0x10,
        ensures
            r.0 == with_field(self.0, 0, 4, sel as int),
            field(r.0, 0, 4) == sel,
            rest_is_kept(self.0, r.0, 0, 4),
    {
        runtime_assert(sel < 0x10);
        proof {
            lemma_write(self.0, Self::DEBUG_SEL, 0, 4, sel as u32);
        }
        Self((self.0 & !Self::DEBUG_SEL) | (Self::DEBUG_SEL & (sel as u32)))
    }

    /// Get debug selection.
    #[inline]
    pub fn debug_sel(self) -> (r: u8)
        ensures
            r == field(self.0, 0, 4),
    {
        proof {
            lemma_read(self.0, Self::DEBUG_SEL, 0, 4);
        }
        (self.0 & Self::DEBUG_SEL) as u8
    }
}

} // verus!
