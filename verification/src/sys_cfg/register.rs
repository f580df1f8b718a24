//! System configuration register blocks and registers.
use crate::bits::{
    field, flag, lemma_clear, lemma_read, lemma_set, lemma_write, rest_is_kept, with_field,
    with_flag,
};
use vstd::pervasive::{runtime_assert, unreached};
use vstd::prelude::*;

verus! {

/// SYSCFG configuration register block.
///
/// Each field holds the address of the register of that name, or of the first
/// of them where several stand in a row.
#[derive(Clone, Copy, Debug, PartialEq, Eq, Structural)]
pub struct RegisterBlock {
    /// Interrupt request control register (`IRQ_CTL`).
    pub irq_ctrl: usize,
    /// Interrupt request status register (`IRQ_STA`).
    pub irq_status: usize,
    /// LDO25 configuration register (`LDO25_CFG`).
    pub ldo25_cfg: usize,
    /// LDO18 configuration register (`LDO18_CFG`).
    pub ldo18_cfg: usize,
    /// LDO1x configuration register (`LDO1x_CFG`).
    pub ldo1x_cfg: usize,
    /// Compare configuration register (`CMP_CFG`).
    pub cmp_cfg: usize,
    /// USB0 external resistor register (`USB0_REXT`).
    pub usb0_rext: usize,
    /// Process sensor configuration register (`PSEN_CFG`).
    pub psen_cfg: usize,
    /// Process sensor counter value register (`PSEN_CNT_VAL`).
    pub psen_cnt_val: usize,
    /// System sram parameter register (`SYS_SRAM_PAR`).
    pub sys_sram_par: usize,
    /// CPU sram parameter register (`CPU_SRAM_PAR`).
    pub cpu_sram_par: usize,
    /// USB sram parameter register (`USB_SRAM_PAR`).
    pub usb_sram_par: usize,
    /// VE sram parameter register (`VE_SRAM_PAR`).
    pub ve_sram_par: usize,
    /// GE sram parameter register (`GE_SRAM_PAR`).
    pub ge_sram_par: usize,
    /// DE sram parameter register (`DE_SRAM_PAR`).
    pub de_sram_par: usize,
    /// SRAM clock configuration register (`SRAM_CLK_CFG`).
    pub sram_clk_cfg: usize,
    /// SRAM mapping configuration register (`SRAM_MAP_CFG`).
    pub sram_map_cfg: usize,
    /// FLASH configuration register (`FLASH_CFG`).
    pub flash_cfg: usize,
    /// ENCODER configuration register (`ENCODER_CFG`).
    pub encoder_cfg: usize,
    /// USB0 configuration register (`USB0_CFG`).
    pub usb0_cfg: usize,
    /// EMAC configuration register (`EMAC_CFG`).
    pub emac_cfg: usize,
    /// ATB_CMU_ANA_TOP register (`ATB_CMU_ANA_TOP`).
    pub atb_cmu_ana_top: usize,
    /// ATB_DLL_TOP_C register (`ATB_DLL_TOP_C`).
    pub atb_dll_top_c: usize,
    /// ATB_GPADC register (`ATB_GPADC`).
    pub atb_gpadc: usize,
    /// ATB_MIPI_DPHY register (`ATB_MIPI_DPHY`).
    pub atb_mipi_dphy: usize,
    /// ATB_RTC_ANA_TOP register (`ATB_RTC_ANA_TOP`).
    pub atb_rtc_ana_top: usize,
    /// ATB_USB_PLL_AFE register (`ATB_USB_PLL_AFE`).
    pub atb_usb_pll_afe: usize,
    /// ATB_USB_PHY_AFE register (`ATB_USB_PHY_AFE`).
    pub atb_usb_phy_afe: usize,
    /// SYSCFG version register (`SYSCFG_VER`).
    pub version: usize,
}

impl RegisterBlock {
    /// The number of bytes that the block takes up.
    pub const SIZE: usize = 0x1000;

    /// Whether the fields are the addresses of the registers of the block that
    /// starts at `base`.
    pub open spec fn is_at(self, base: usize) -> bool {
        &&& self.irq_ctrl == base + 0x8
        &&& self.irq_status == base + 0xC
        &&& self.ldo25_cfg == base + 0x20
        &&& self.ldo18_cfg == base + 0x24
        &&& self.ldo1x_cfg == base + 0x28
        &&& self.cmp_cfg == base + 0x3C
        &&& self.usb0_rext == base + 0x48
        &&& self.psen_cfg == base + 0xC0
        &&& self.psen_cnt_val == base + 0xC4
        &&& self.sys_sram_par == base + 0x100
        &&& self.cpu_sram_par == base + 0x104
        &&& self.usb_sram_par == base + 0x108
        &&& self.ve_sram_par == base + 0x10C
        &&& self.ge_sram_par == base + 0x110
        &&& self.de_sram_par == base + 0x114
        &&& self.sram_clk_cfg == base + 0x140
        &&& self.sram_map_cfg == base + 0x160
        &&& self.flash_cfg == base + 0x1F0
        &&& self.encoder_cfg == base + 0x1F4
        &&& self.usb0_cfg == base + 0x40C
        &&& self.emac_cfg == base + 0x410
        &&& self.atb_cmu_ana_top == base + 0xF48
        &&& self.atb_dll_top_c == base + 0xF4C
        &&& self.atb_gpadc == base + 0xF50
        &&& self.atb_mipi_dphy == base + 0xF54
        &&& self.atb_rtc_ana_top == base + 0xF58
        &&& self.atb_usb_pll_afe == base + 0xF5C
        &&& self.atb_usb_phy_afe == base + 0xF60
        &&& self.version == base + 0xFFC
    }

    /// The block that starts at `base`.
    ///
    /// The registers follow one another in the order of the memory map, four
    /// bytes each, with the reserved ranges between them.
    pub fn at(base: usize) -> (r: Self)
        requires
            base + Self::SIZE - 1 <= usize::MAX,
        ensures
            r.is_at(base),
    {
        let irq_ctrl: usize = base + 0x8;
        let irq_status: usize = irq_ctrl + 4;
        let ldo25_cfg: usize = irq_status + 4 + 0x10;
        let ldo18_cfg: usize = ldo25_cfg + 4;
        let ldo1x_cfg: usize = ldo18_cfg + 4;
        let cmp_cfg: usize = ldo1x_cfg + 4 + 0x10;
        let usb0_rext: usize = cmp_cfg + 4 + 0x8;
        let psen_cfg: usize = usb0_rext + 4 + 0x74;
        let psen_cnt_val: usize = psen_cfg + 4;
        let sys_sram_par: usize = psen_cnt_val + 4 + 0x38;
        let cpu_sram_par: usize = sys_sram_par + 4;
        let usb_sram_par: usize = cpu_sram_par + 4;
        let ve_sram_par: usize = usb_sram_par + 4;
        let ge_sram_par: usize = ve_sram_par + 4;
        let de_sram_par: usize = ge_sram_par + 4;
        let sram_clk_cfg: usize = de_sram_par + 4 + 0x28;
        let sram_map_cfg: usize = sram_clk_cfg + 4 + 0x1C;
        let flash_cfg: usize = sram_map_cfg + 4 + 0x8C;
        let encoder_cfg: usize = flash_cfg + 4;
        let usb0_cfg: usize = encoder_cfg + 4 + 0x214;
        let emac_cfg: usize = usb0_cfg + 4;
        let atb_cmu_ana_top: usize = emac_cfg + 4 + 0xB34;
        let atb_dll_top_c: usize = atb_cmu_ana_top + 4;
        let atb_gpadc: usize = atb_dll_top_c + 4;
        let atb_mipi_dphy: usize = atb_gpadc + 4;
        let atb_rtc_ana_top: usize = atb_mipi_dphy + 4;
        let atb_usb_pll_afe: usize = atb_rtc_ana_top + 4;
        let atb_usb_phy_afe: usize = atb_usb_pll_afe + 4;
        let version: usize = atb_usb_phy_afe + 4 + 0x98;
        Self {
            irq_ctrl,
            irq_status,
            ldo25_cfg,
            ldo18_cfg,
            ldo1x_cfg,
            cmp_cfg,
            usb0_rext,
            psen_cfg,
            psen_cnt_val,
            sys_sram_par,
            cpu_sram_par,
            usb_sram_par,
            ve_sram_par,
            ge_sram_par,
            de_sram_par,
            sram_clk_cfg,
            sram_map_cfg,
            flash_cfg,
            encoder_cfg,
            usb0_cfg,
            emac_cfg,
            atb_cmu_ana_top,
            atb_dll_top_c,
            atb_gpadc,
            atb_mipi_dphy,
            atb_rtc_ana_top,
            atb_usb_pll_afe,
            atb_usb_phy_afe,
            version,
        }
    }
}

/// Interrupt request control register.
#[derive(Clone, Copy, Debug, PartialEq, Eq, PartialOrd, Ord, Hash, Structural)]
pub struct IrqControl(pub u32);

impl IrqControl {
    const CMP_RST_EN: u32 = 0x8000_0000;
    const CMP_IRQ_EN: u32 = 0x1;

    /// Enable comparator reset (`CMP_RST_EN`).
    #[inline]
    pub fn enable_cmp_rst(self) -> (r: Self)
        ensures
            r.0 == with_flag(self.0, 31, true),
            flag(r.0, 31),
            rest_is_kept(self.0, r.0, 31, 1),
    {
        proof {
            lemma_set(self.0, Self::CMP_RST_EN, 31, 1);
        }
        Self(self.0 | Self::CMP_RST_EN)
    }

    /// Disable comparator reset.
    #[inline]
    pub fn disable_cmp_rst(self) -> (r: Self)
        ensures
            r.0 == with_flag(self.0, 31, false),
            !flag(r.0, 31),
            rest_is_kept(self.0, r.0, 31, 1),
    {
        proof {
            lemma_clear(self.0, Self::CMP_RST_EN, 31, 1);
        }
        Self(self.0 & !Self::CMP_RST_EN)
    }

    /// Check if comparator reset is enabled.
    #[inline]
    pub fn is_cmp_rst_enabled(self) -> (r: bool)
        ensures
            r == flag(self.0, 31),
    {
        proof {
            lemma_read(self.0, Self::CMP_RST_EN, 31, 1);
        }
        self.0 & Self::CMP_RST_EN != 0
    }

    /// Enable comparator interrupt (`CMP_IRQ_EN`).
    #[inline]
    pub fn enable_cmp_irq(self) -> (r: Self)
        ensures
            r.0 == with_flag(self.0, 0, true),
            flag(r.0, 0),
            rest_is_kept(self.0, r.0, 0, 1),
    {
        proof {
            lemma_set(self.0, Self::CMP_IRQ_EN, 0, 1);
        }
        Self(self.0 | Self::CMP_IRQ_EN)
    }

    /// Disable comparator interrupt.
    #[inline]
    pub fn disable_cmp_irq(self) -> (r: Self)
        ensures
            r.0 == with_flag(self.0, 0, false),
            !flag(r.0, 0),
            rest_is_kept(self.0, r.0, 0, 1),
    {
        proof {
            lemma_clear(self.0, Self::CMP_IRQ_EN, 0, 1);
        }
        Self(self.0 & !Self::CMP_IRQ_EN)
    }

    /// Check if comparator interrupt is enabled.
    #[inline]
    pub fn is_cmp_irq_enabled(self) -> (r: bool)
        ensures
            r == flag(self.0, 0),
    {
        proof {
            lemma_read(self.0, Self::CMP_IRQ_EN, 0, 1);
        }
        self.0 & Self::CMP_IRQ_EN != 0
    }
}

/// Interrupt request status register.
#[derive(Clone, Copy, Debug, PartialEq, Eq, PartialOrd, Ord, Hash, Structural)]
pub struct IrqStatus(pub u32);

impl IrqStatus {
    const CMP_IRQ_STA: u32 = 0x1;

    /// Check if comparator interrupt is pending (`CMP_IRQ_STA`).
    ///
    /// When compare mode is low voltage detection (CMP_MODE=0):
    /// - 0: Pin input voltage has always been higher than comparison voltage.
    /// - 1: Pin input voltage has dropped below comparison voltage.
    ///
    /// When compare mode is high voltage detection (CMP_MODE=1):
    /// - 0: Pin input voltage has always been lower than comparison voltage.
    /// - 1: Pin input voltage has risen above comparison voltage.
    #[inline]
    pub fn is_cmp_irq_pending(self) -> (r: bool)
        ensures
            r == flag(self.0, 0),
    {
        proof {
            lemma_read(self.0, Self::CMP_IRQ_STA, 0, 1);
        }
        self.0 & Self::CMP_IRQ_STA != 0
    }

    /// Clear comparator interrupt.
    #[inline]
    pub fn clear_cmp_irq(self) -> (r: Self)
        ensures
            r.0 == with_flag(self.0, 0, true),
            flag(r.0, 0),
            rest_is_kept(self.0, r.0, 0, 1),
    {
        proof {
            lemma_set(self.0, Self::CMP_IRQ_STA, 0, 1);
        }
        Self(self.0 | Self::CMP_IRQ_STA)
    }
}

/// LDO25 voltage setting.
#[derive(Clone, Copy, Debug, PartialEq, Eq, Structural)]
pub enum Ldo25Voltage {
    /// 2.40 v.
    V2_40,
    /// 2.50 v.
    V2_50,
    /// 2.60 v.
    V2_60,
    /// 2.70 v.
    V2_70,
    /// 2.80 v.
    V2_80,
    /// 2.90 v.
    V2_90,
    /// 3.00 v.
    V3_00,
    /// 3.10 v.
    V3_10,
}

impl Ldo25Voltage {
    /// The number that stands for this value in its register field.
    pub open spec fn code(self) -> int {
        match self {
            Self::V2_40 => 0,
            Self::V2_50 => 1,
            Self::V2_60 => 2,
            Self::V2_70 => 3,
            Self::V2_80 => 4,
            Self::V2_90 => 5,
            Self::V3_00 => 6,
            Self::V3_10 => 7,
        }
    }

    /// The value that `code` stands for. Every larger number is read as the
    /// last value.
    pub open spec fn decode(code: int) -> Self {
        if code == 0 {
            Self::V2_40
        } else if code == 1 {
            Self::V2_50
        } else if code == 2 {
            Self::V2_60
        } else if code == 3 {
            Self::V2_70
        } else if code == 4 {
            Self::V2_80
        } else if code == 5 {
            Self::V2_90
        } else if code == 6 {
            Self::V3_00
        } else {
            Self::V3_10
        }
    }
}

/// LDO25 configuration register.
#[derive(Clone, Copy, Debug, PartialEq, Eq, PartialOrd, Ord, Hash, Structural)]
pub struct Ldo25Config(pub u32);

impl Ldo25Config {
    const LVDS0_IBIAS_EN: u32 = 0x4_0000;
    const XSPI_DLLC1_IBIAS_EN: u32 = 0x2_0000;
    const XSPI_DLLC0_IBIAS_EN: u32 = 0x1_0000;
    const BG_CTRL: u32 = 0xFF00;
    const LDO25_EN: u32 = 0x10;
    const LDO25_VAL: u32 = 0x7;

    /// Enable lvds0 reference current (`LVDS0_IBIAS_EN`).
    #[inline]
    pub fn enable_lvds0_ibias(self) -> (r: Self)
        ensures
            r.0 == with_flag(self.0, 18, true),
            flag(r.0, 18),
            rest_is_kept(self.0, r.0, 18, 1),
    {
        proof {
            lemma_set(self.0, Self::LVDS0_IBIAS_EN, 18, 1);
        }
        Self(self.0 | Self::LVDS0_IBIAS_EN)
    }

    /// Disable lvds0 reference current.
    #[inline]
    pub fn disable_lvds0_ibias(self) -> (r: Self)
        ensures
            r.0 == with_flag(self.0, 18, false),
            !flag(r.0, 18),
            rest_is_kept(self.0, r.0, 18, 1),
    {
        proof {
            lemma_clear(self.0, Self::LVDS0_IBIAS_EN, 18, 1);
        }
        Self(self.0 & !Self::LVDS0_IBIAS_EN)
    }

    /// Check if lvds0 reference current is enabled.
    #[inline]
    pub fn is_lvds0_ibias_enabled(self) -> (r: bool)
        ensures
            r == flag(self.0, 18),
    {
        proof {
            lemma_read(self.0, Self::LVDS0_IBIAS_EN, 18, 1);
        }
        self.0 & Self::LVDS0_IBIAS_EN != 0
    }

    /// Enable xspi dllc1 reference current (`XSPI_DLLC1_IBIAS_EN`).
    #[inline]
    pub fn enable_xspi_dllc1_ibias(self) -> (r: Self)
        ensures
            r.0 == with_flag(self.0, 17, true),
            flag(r.0, 17),
            rest_is_kept(self.0, r.0, 17, 1),
    {
        proof {
            lemma_set(self.0, Self::XSPI_DLLC1_IBIAS_EN, 17, 1);
        }
        Self(self.0 | Self::XSPI_DLLC1_IBIAS_EN)
    }

    /// Disable xspi dllc1 reference current.
    #[inline]
    pub fn disable_xspi_dllc1_ibias(self) -> (r: Self)
        ensures
            r.0 == with_flag(self.0, 17, false),
            !flag(r.0, 17),
            rest_is_kept(self.0, r.0, 17, 1),
    {
        proof {
            lemma_clear(self.0, Self::XSPI_DLLC1_IBIAS_EN, 17, 1);
        }
        Self(self.0 & !Self::XSPI_DLLC1_IBIAS_EN)
    }

    /// Check if xspi dllc1 reference current is enabled.
    #[inline]
    pub fn is_xspi_dllc1_ibias_enabled(self) -> (r: bool)
        ensures
            r == flag(self.0, 17),
    {
        proof {
            lemma_read(self.0, Self::XSPI_DLLC1_IBIAS_EN, 17, 1);
        }
        self.0 & Self::XSPI_DLLC1_IBIAS_EN != 0
    }

    /// Enable xspi dllc0 reference current (`XSPI_DLLC0_IBIAS_EN`).
    #[inline]
    pub fn enable_xspi_dllc0_ibias(self) -> (r: Self)
        ensures
            r.0 == with_flag(self.0, 16, true),
            flag(r.0, 16),
            rest_is_kept(self.0, r.0, 16, 1),
    {
        proof {
            lemma_set(self.0, Self::XSPI_DLLC0_IBIAS_EN, 16, 1);
        }
        Self(self.0 | Self::XSPI_DLLC0_IBIAS_EN)
    }

    /// Disable xspi dllc0 reference current.
    #[inline]
    pub fn disable_xspi_dllc0_ibias(self) -> (r: Self)
        ensures
            r.0 == with_flag(self.0, 16, false),
            !flag(r.0, 16),
            rest_is_kept(self.0, r.0, 16, 1),
    {
        proof {
            lemma_clear(self.0, Self::XSPI_DLLC0_IBIAS_EN, 16, 1);
        }
        Self(self.0 & !Self::XSPI_DLLC0_IBIAS_EN)
    }

    /// Check if xspi dllc0 reference current is enabled.
    #[inline]
    pub fn is_xspi_dllc0_ibias_enabled(self) -> (r: bool)
        ensures
            r == flag(self.0, 16),
    {
        proof {
            lemma_read(self.0, Self::XSPI_DLLC0_IBIAS_EN, 16, 1);
        }
        self.0 & Self::XSPI_DLLC0_IBIAS_EN != 0
    }

    /// Set bg voltage control (`BG_CTRL`).
    #[inline]
    pub fn set_bg_ctrl(self, val: u8) -> (r: Self)
        ensures
            r.0 == with_field(self.0, 8, 8, val as int),
            field(r.0, 8, 8) == val,
            rest_is_kept(self.0, r.0, 8, 8),
    {
        proof {
            lemma_write(self.0, Self::BG_CTRL, 8, 8, val as u32);
        }
        Self((self.0 & !Self::BG_CTRL) | (Self::BG_CTRL & ((val as u32) << 8)))
    }

    /// Get bg voltage control.
    #[inline]
    pub fn bg_ctrl(self) -> (r: u8)
        ensures
            r == field(self.0, 8, 8),
    {
        proof {
            lemma_read(self.0, Self::BG_CTRL, 8, 8);
        }
        ((self.0 & Self::BG_CTRL) >> 8) as u8
    }

    /// Enable ldo25 (`LDO25_EN`).
    #[inline]
    pub fn enable_ldo25(self) -> (r: Self)
        ensures
            r.0 == with_flag(self.0, 4, true),
            flag(r.0, 4),
            rest_is_kept(self.0, r.0, 4, 1),
    {
        proof {
            lemma_set(self.0, Self::LDO25_EN, 4, 1);
        }
        Self(self.0 | Self::LDO25_EN)
    }

    /// Disable ldo25.
    #[inline]
    pub fn disable_ldo25(self) -> (r: Self)
        ensures
            r.0 == with_flag(self.0, 4, false),
            !flag(r.0, 4),
            rest_is_kept(self.0, r.0, 4, 1),
    {
        proof {
            lemma_clear(self.0, Self::LDO25_EN, 4, 1);
        }
        Self(self.0 & !Self::LDO25_EN)
    }

    /// Check if ldo25 is enabled.
    #[inline]
    pub fn is_ldo25_enabled(self) -> (r: bool)
        ensures
            r == flag(self.0, 4),
    {
        proof {
            lemma_read(self.0, Self::LDO25_EN, 4, 1);
        }
        self.0 & Self::LDO25_EN != 0
    }

    /// Set ldo25 voltage (`LDO25_VAL`).
    ///
    /// To avoid affecting EFUSE programming, this should be configured to 2.50v.
    #[inline]
    pub fn set_ldo25_voltage(self, vol: Ldo25Voltage) -> (r: Self)
        ensures
            r.0 == with_field(self.0, 0, 3, vol.code()),
            field(r.0, 0, 3) == vol.code(),
            Ldo25Voltage::decode(field(r.0, 0, 3)) == vol,
            rest_is_kept(self.0, r.0, 0, 3),
    {
        proof {
            lemma_write(self.0, Self::LDO25_VAL, 0, 3, vol as u32);
        }
        Self((self.0 & !Self::LDO25_VAL) | (Self::LDO25_VAL & (vol as u32)))
    }

    /// Get ldo25 voltage.
    #[inline]
    pub fn ldo25_voltage(self) -> (r: Ldo25Voltage)
        ensures
            r == Ldo25Voltage::decode(field(self.0, 0, 3)),
            r.code() == field(self.0, 0, 3),
    {
        proof {
            lemma_read(self.0, Self::LDO25_VAL, 0, 3);
        }
        match self.0 & Self::LDO25_VAL {
            0 => Ldo25Voltage::V2_40,
            1 => Ldo25Voltage::V2_50,
            2 => Ldo25Voltage::V2_60,
            3 => Ldo25Voltage::V2_70,
            4 => Ldo25Voltage::V2_80,
            5 => Ldo25Voltage::V2_90,
            6 => Ldo25Voltage::V3_00,
            7 => Ldo25Voltage::V3_10,
            _ => unreached(),
        }
    }
}

/// ATB2 analog test module selection.
#[derive(Clone, Copy, Debug, PartialEq, Eq, Structural)]
pub enum Atb2AnaSel {
    /// ATB2_IN0 output.
    Atb2In0,
    /// ATB2_IN1 output.
    Atb2In1,
    /// ATB2_IN2 output.
    Atb2In2,
    /// ATB2_IN3 output.
    Atb2In3,
}

impl Atb2AnaSel {
    /// The number that stands for this value in its register field.
    pub open spec fn code(self) -> int {
        match self {
            Self::Atb2In0 => 0,
            Self::Atb2In1 => 1,
            Self::Atb2In2 => 2,
            Self::Atb2In3 => 3,
        }
    }

    /// The value that `code` stands for. Every larger number is read as the
    /// last value.
    pub open spec fn decode(code: int) -> Self {
        if code == 0 {
            Self::Atb2In0
        } else if code == 1 {
            Self::Atb2In1
        } else if code == 2 {
            Self::Atb2In2
        } else {
            Self::Atb2In3
        }
    }
}

/// LDO18 voltage setting.
#[derive(Clone, Copy, Debug, PartialEq, Eq, Structural)]
pub enum Ldo18Voltage {
    /// 1.71 v.
    V1_71,
    /// 1.74 v.
    V1_74,
    /// 1.77 v.
    V1_77,
    /// 1.80 v.
    V1_80,
    /// 1.83 v.
    V1_83,
    /// 1.86 v.
    V1_86,
    /// 1.89 v.
    V1_89,
    /// 1.92 v.
    V1_92,
}

impl Ldo18Voltage {
    /// The number that stands for this value in its register field.
    pub open spec fn code(self) -> int {
        match self {
            Self::V1_71 => 0,
            Self::V1_74 => 1,
            Self::V1_77 => 2,
            Self::V1_80 => 3,
            Self::V1_83 => 4,
            Self::V1_86 => 5,
            Self::V1_89 => 6,
            Self::V1_92 => 7,
        }
    }

    /// The value that `code` stands for. Every larger number is read as the
    /// last value.
    pub open spec fn decode(code: int) -> Self {
        if code == 0 {
            Self::V1_71
        } else if code == 1 {
            Self::V1_74
        } else if code == 2 {
            Self::V1_77
        } else if code == 3 {
            Self::V1_80
        } else if code == 4 {
            Self::V1_83
        } else if code == 5 {
            Self::V1_86
        } else if code == 6 {
            Self::V1_89
        } else {
            Self::V1_92
        }
    }
}

/// LDO18 configuration register.
#[derive(Clone, Copy, Debug, PartialEq, Eq, PartialOrd, Ord, Hash, Structural)]
pub struct Ldo18Config(pub u32);

impl Ldo18Config {
    const ATB2_ANA_EN: u32 = 0x800_0000;
    const ATB2_ANA_SEL: u32 = 0x300_0000;
    const LDO18_PD_FAST: u32 = 0x20;
    const LDO18_EN: u32 = 0x10;
    const LDO18_VAL: u32 = 0x7;

    /// Enable atb2 analog test (`ATB2_ANA_EN`).
    #[inline]
    pub fn enable_atb2_ana(self) -> (r: Self)
        ensures
            r.0 == with_flag(self.0, 27, true),
            flag(r.0, 27),
            rest_is_kept(self.0, r.0, 27, 1),
    {
        proof {
            lemma_set(self.0, Self::ATB2_ANA_EN, 27, 1);
        }
        Self(self.0 | Self::ATB2_ANA_EN)
    }

    /// Disable atb2 analog test.
    #[inline]
    pub fn disable_atb2_ana(self) -> (r: Self)
        ensures
            r.0 == with_flag(self.0, 27, false),
            !flag(r.0, 27),
            rest_is_kept(self.0, r.0, 27, 1),
    {
        proof {
            lemma_clear(self.0, Self::ATB2_ANA_EN, 27, 1);
        }
        Self(self.0 & !Self::ATB2_ANA_EN)
    }

    /// Check if atb2 analog test is enabled.
    #[inline]
    pub fn is_atb2_ana_enabled(self) -> (r: bool)
        ensures
            r == flag(self.0, 27),
    {
        proof {
            lemma_read(self.0, Self::ATB2_ANA_EN, 27, 1);
        }
        self.0 & Self::ATB2_ANA_EN != 0
    }

    /// Set atb2 analog test module selection (`ATB2_ANA_SEL`).
    #[inline]
    pub fn set_atb2_ana_sel(self, sel: Atb2AnaSel) -> (r: Self)
        ensures
            r.0 == with_field(self.0, 24, 2, sel.code()),
            field(r.0, 24, 2) == sel.code(),
            Atb2AnaSel::decode(field(r.0, 24, 2)) == sel,
            rest_is_kept(self.0, r.0, 24, 2),
    {
        proof {
            lemma_write(self.0, Self::ATB2_ANA_SEL, 24, 2, sel as u32);
        }
        Self((self.0 & !Self::ATB2_ANA_SEL) | (Self::ATB2_ANA_SEL & ((sel as u32) << 24)))
    }

    /// Get atb2 analog test module selection.
    #[inline]
    pub fn atb2_ana_sel(self) -> (r: Atb2AnaSel)
        ensures
            r == Atb2AnaSel::decode(field(self.0, 24, 2)),
            r.code() == field(self.0, 24, 2),
    {
        proof {
            lemma_read(self.0, Self::ATB2_ANA_SEL, 24, 2);
        }
        match (self.0 & Self::ATB2_ANA_SEL) >> 24 {
            0 => Atb2AnaSel::Atb2In0,
            1 => Atb2AnaSel::Atb2In1,
            2 => Atb2AnaSel::Atb2In2,
            3 => Atb2AnaSel::Atb2In3,
            _ => unreached(),
        }
    }

    /// Enable ldo18 fast power down (`LDO18_PD_FAST`).
    #[inline]
    pub fn enable_ldo18_pd_fast(self) -> (r: Self)
        ensures
            r.0 == with_flag(self.0, 5, true),
            flag(r.0, 5),
            rest_is_kept(self.0, r.0, 5, 1),
    {
        proof {
            lemma_set(self.0, Self::LDO18_PD_FAST, 5, 1);
        }
        Self(self.0 | Self::LDO18_PD_FAST)
    }

    /// Disable ldo18 fast power down (normal power down).
    #[inline]
    pub fn disable_ldo18_pd_fast(self) -> (r: Self)
        ensures
            r.0 == with_flag(self.0, 5, false),
            !flag(r.0, 5),
            rest_is_kept(self.0, r.0, 5, 1),
    {
        proof {
            lemma_clear(self.0, Self::LDO18_PD_FAST, 5, 1);
        }
        Self(self.0 & !Self::LDO18_PD_FAST)
    }

    /// Check if ldo18 fast power down is enabled.
    #[inline]
    pub fn is_ldo18_pd_fast_enabled(self) -> (r: bool)
        ensures
            r == flag(self.0, 5),
    {
        proof {
            lemma_read(self.0, Self::LDO18_PD_FAST, 5, 1);
        }
        self.0 & Self::LDO18_PD_FAST != 0
    }

    /// Enable ldo18 (`LDO18_EN`).
    #[inline]
    pub fn enable_ldo18(self) -> (r: Self)
        ensures
            r.0 == with_flag(self.0, 4, true),
            flag(r.0, 4),
            rest_is_kept(self.0, r.0, 4, 1),
    {
        proof {
            lemma_set(self.0, Self::LDO18_EN, 4, 1);
        }
        Self(self.0 | Self::LDO18_EN)
    }

    /// Disable ldo18.
    #[inline]
    pub fn disable_ldo18(self) -> (r: Self)
        ensures
            r.0 == with_flag(self.0, 4, false),
            !flag(r.0, 4),
            rest_is_kept(self.0, r.0, 4, 1),
    {
        proof {
            lemma_clear(self.0, Self::LDO18_EN, 4, 1);
        }
        Self(self.0 & !Self::LDO18_EN)
    }

    /// Check if ldo18 is enabled.
    #[inline]
    pub fn is_ldo18_enabled(self) -> (r: bool)
        ensures
            r == flag(self.0, 4),
    {
        proof {
            lemma_read(self.0, Self::LDO18_EN, 4, 1);
        }
        self.0 & Self::LDO18_EN != 0
    }

    /// Set ldo18 voltage (`LDO18_VAL`).
    #[inline]
    pub fn set_ldo18_voltage(self, vol: Ldo18Voltage) -> (r: Self)
        ensures
            r.0 == with_field(self.0, 0, 3, vol.code()),
            field(r.0, 0, 3) == vol.code(),
            Ldo18Voltage::decode(field(r.0, 0, 3)) == vol,
            rest_is_kept(self.0, r.0, 0, 3),
    {
        proof {
            lemma_write(self.0, Self::LDO18_VAL, 0, 3, vol as u32);
        }
        Self((self.0 & !Self::LDO18_VAL) | (Self::LDO18_VAL & (vol as u32)))
    }

    /// Get ldo18 voltage.
    #[inline]
    pub fn ldo18_voltage(self) -> (r: Ldo18Voltage)
        ensures
            r == Ldo18Voltage::decode(field(self.0, 0, 3)),
            r.code() == field(self.0, 0, 3),
    {
        proof {
            lemma_read(self.0, Self::LDO18_VAL, 0, 3);
        }
        match self.0 & Self::LDO18_VAL {
            0 => Ldo18Voltage::V1_71,
            1 => Ldo18Voltage::V1_74,
            2 => Ldo18Voltage::V1_77,
            3 => Ldo18Voltage::V1_80,
            4 => Ldo18Voltage::V1_83,
            5 => Ldo18Voltage::V1_86,
            6 => Ldo18Voltage::V1_89,
            7 => Ldo18Voltage::V1_92,
            _ => unreached(),
        }
    }
}

/// LDO1x voltage setting.
#[derive(Clone, Copy, Debug, PartialEq, Eq, Structural)]
pub enum Ldo1xVoltage {
    /// 0.90 v.
    V0_90,
    /// 0.95 v.
    V0_95,
    /// 1.00 v.
    V1_00,
    /// 1.05 v.
    V1_05,
    /// 1.10 v.
    V1_10,
    /// 1.15 v.
    V1_15,
    /// 1.20 v.
    V1_20,
    /// 1.25 v.
    V1_25,
    /// 1.30 v.
    V1_30,
    /// 1.35 v.
    V1_35,
    /// 1.40 v.
    V1_40,
    /// 1.50 v.
    V1_50,
    /// 1.60 v.
    V1_60,
    /// 1.70 v.
    V1_70,
    /// 1.80 v.
    V1_80,
    /// 1.90 v.
    V1_90,
}

impl Ldo1xVoltage {
    /// The number that stands for this value in its register field.
    pub open spec fn code(self) -> int {
        match self {
            Self::V0_90 => 0,
            Self::V0_95 => 1,
            Self::V1_00 => 2,
            Self::V1_05 => 3,
            Self::V1_10 => 4,
            Self::V1_15 => 5,
            Self::V1_20 => 6,
            Self::V1_25 => 7,
            Self::V1_30 => 8,
            Self::V1_35 => 9,
            Self::V1_40 => 10,
            Self::V1_50 => 11,
            Self::V1_60 => 12,
            Self::V1_70 => 13,
            Self::V1_80 => 14,
            Self::V1_90 => 15,
        }
    }

    /// The value that `code` stands for. Every larger number is read as the
    /// last value.
    pub open spec fn decode(code: int) -> Self {
        if code == 0 {
            Self::V0_90
        } else if code == 1 {
            Self::V0_95
        } else if code == 2 {
            Self::V1_00
        } else if code == 3 {
            Self::V1_05
        } else if code == 4 {
            Self::V1_10
        } else if code == 5 {
            Self::V1_15
        } else if code == 6 {
            Self::V1_20
        } else if code == 7 {
            Self::V1_25
        } else if code == 8 {
            Self::V1_30
        } else if code == 9 {
            Self::V1_35
        } else if code == 10 {
            Self::V1_40
        } else if code == 11 {
            Self::V1_50
        } else if code == 12 {
            Self::V1_60
        } else if code == 13 {
            Self::V1_70
        } else if code == 14 {
            Self::V1_80
        } else {
            Self::V1_90
        }
    }
}

/// LDO1x configuration register.
#[derive(Clone, Copy, Debug, PartialEq, Eq, PartialOrd, Ord, Hash, Structural)]
pub struct Ldo1xConfig(pub u32);

impl Ldo1xConfig {
    const LDO1X_SOFT_EN: u32 = 0x40;
    const LDO1_PD_FAST: u32 = 0x20;
    const LDO1X_EN: u32 = 0x10;
    const LDO1X_VAL: u32 = 0xF;

    /// Enable ldo1x software mode (`LDO1X_SOFT_EN`).
    ///
    /// - 0: hardware mode, LDO on/off determined by package bonding (default LDO on).
    /// - 1: software mode, LDO on/off determined by register BIT4.
    #[inline]
    pub fn enable_ldo1x_soft_mode(self) -> (r: Self)
        ensures
            r.0 == with_flag(self.0, 6, true),
            flag(r.0, 6),
            rest_is_kept(self.0, r.0, 6, 1),
    {
        proof {
            lemma_set(self.0, Self::LDO1X_SOFT_EN, 6, 1);
        }
        Self(self.0 | Self::LDO1X_SOFT_EN)
    }

    /// Disable ldo1x software mode (hardware mode).
    #[inline]
    pub fn disable_ldo1x_soft_mode(self) -> (r: Self)
        ensures
            r.0 == with_flag(self.0, 6, false),
            !flag(r.0, 6),
            rest_is_kept(self.0, r.0, 6, 1),
    {
        proof {
            lemma_clear(self.0, Self::LDO1X_SOFT_EN, 6, 1);
        }
        Self(self.0 & !Self::LDO1X_SOFT_EN)
    }

    /// Check if ldo1x software mode is enabled.
    #[inline]
    pub fn is_ldo1x_soft_mode_enabled(self) -> (r: bool)
        ensures
            r == flag(self.0, 6),
    {
        proof {
            lemma_read(self.0, Self::LDO1X_SOFT_EN, 6, 1);
        }
        self.0 & Self::LDO1X_SOFT_EN != 0
    }

    /// Enable ldo1 fast power down (`LDO1_PD_FAST`).
    #[inline]
    pub fn enable_ldo1_pd_fast(self) -> (r: Self)
        ensures
            r.0 == with_flag(self.0, 5, true),
            flag(r.0, 5),
            rest_is_kept(self.0, r.0, 5, 1),
    {
        proof {
            lemma_set(self.0, Self::LDO1_PD_FAST, 5, 1);
        }
        Self(self.0 | Self::LDO1_PD_FAST)
    }

    /// Disable ldo1 fast power down (normal power down).
    #[inline]
    pub fn disable_ldo1_pd_fast(self) -> (r: Self)
        ensures
            r.0 == with_flag(self.0, 5, false),
            !flag(r.0, 5),
            rest_is_kept(self.0, r.0, 5, 1),
    {
        proof {
            lemma_clear(self.0, Self::LDO1_PD_FAST, 5, 1);
        }
        Self(self.0 & !Self::LDO1_PD_FAST)
    }

    /// Check if ldo1 fast power down is enabled.
    #[inline]
    pub fn is_ldo1_pd_fast_enabled(self) -> (r: bool)
        ensures
            r == flag(self.0, 5),
    {
        proof {
            lemma_read(self.0, Self::LDO1_PD_FAST, 5, 1);
        }
        self.0 & Self::LDO1_PD_FAST != 0
    }

    /// Enable ldo1x (`LDO1X_EN`).
    ///
    /// Note: This bit is only valid when `LDO1X_SOFT_EN` is set to 1.
    #[inline]
    pub fn enable_ldo1x(self) -> (r: Self)
        ensures
            r.0 == with_flag(self.0, 4, true),
            flag(r.0, 4),
            rest_is_kept(self.0, r.0, 4, 1),
    {
        proof {
            lemma_set(self.0, Self::LDO1X_EN, 4, 1);
        }
        Self(self.0 | Self::LDO1X_EN)
    }

    /// Disable ldo1x.
    #[inline]
    pub fn disable_ldo1x(self) -> (r: Self)
        ensures
            r.0 == with_flag(self.0, 4, false),
            !flag(r.0, 4),
            rest_is_kept(self.0, r.0, 4, 1),
    {
        proof {
            lemma_clear(self.0, Self::LDO1X_EN, 4, 1);
        }
        Self(self.0 & !Self::LDO1X_EN)
    }

    /// Check if ldo1x is enabled.
    ///
    /// Note: This bit is only valid when `LDO1X_SOFT_EN` is set to 1.
    #[inline]
    pub fn is_ldo1x_enabled(self) -> (r: bool)
        ensures
            r == flag(self.0, 4),
    {
        proof {
            lemma_read(self.0, Self::LDO1X_EN, 4, 1);
        }
        self.0 & Self::LDO1X_EN != 0
    }

    /// Set ldo1x voltage (`LDO1X_VAL`).
    #[inline]
    pub fn set_ldo1x_voltage(self, vol: Ldo1xVoltage) -> (r: Self)
        ensures
            r.0 == with_field(self.0, 0, 4, vol.code()),
            field(r.0, 0, 4) == vol.code(),
            Ldo1xVoltage::decode(field(r.0, 0, 4)) == vol,
            rest_is_kept(self.0, r.0, 0, 4),
    {
        proof {
            lemma_write(self.0, Self::LDO1X_VAL, 0, 4, vol as u32);
        }
        Self((self.0 & !Self::LDO1X_VAL) | (Self::LDO1X_VAL & (vol as u32)))
    }

    /// Get ldo1x voltage.
    #[inline]
    pub fn ldo1x_voltage(self) -> (r: Ldo1xVoltage)
        ensures
            r == Ldo1xVoltage::decode(field(self.0, 0, 4)),
            r.code() == field(self.0, 0, 4),
    {
        proof {
            lemma_read(self.0, Self::LDO1X_VAL, 0, 4);
        }
        match self.0 & Self::LDO1X_VAL {
            0 => Ldo1xVoltage::V0_90,
            1 => Ldo1xVoltage::V0_95,
            2 => Ldo1xVoltage::V1_00,
            3 => Ldo1xVoltage::V1_05,
            4 => Ldo1xVoltage::V1_10,
            5 => Ldo1xVoltage::V1_15,
            6 => Ldo1xVoltage::V1_20,
            7 => Ldo1xVoltage::V1_25,
            8 => Ldo1xVoltage::V1_30,
            9 => Ldo1xVoltage::V1_35,
            10 => Ldo1xVoltage::V1_40,
            11 => Ldo1xVoltage::V1_50,
            12 => Ldo1xVoltage::V1_60,
            13 => Ldo1xVoltage::V1_70,
            14 => Ldo1xVoltage::V1_80,
            15 => Ldo1xVoltage::V1_90,
            _ => unreached(),
        }
    }
}

/// Compare mode selection.
#[derive(Clone, Copy, Debug, PartialEq, Eq, Structural)]
pub enum CmpMode {
    /// Low voltage detection.
    LowVoltage,
    /// High voltage detection.
    HighVoltage,
}

impl CmpMode {
    /// The number that stands for this value in its register field.
    pub open spec fn code(self) -> int {
        match self {
            Self::LowVoltage => 0,
            Self::HighVoltage => 1,
        }
    }

    /// The value that `code` stands for. Every larger number is read as the
    /// last value.
    pub open spec fn decode(code: int) -> Self {
        if code == 0 {
            Self::LowVoltage
        } else {
            Self::HighVoltage
        }
    }

    /// The number that stands for this value in its register field.
    #[inline]
    pub fn bits(self) -> (r: u32)
        ensures
            r == self.code(),
    {
        match self {
            Self::LowVoltage => 0,
            Self::HighVoltage => 1,
        }
    }
}

/// Compare voltage selection.
#[derive(Clone, Copy, Debug, PartialEq, Eq, Structural)]
pub enum CmpVoltage {
    /// 0.90 v.
    V0_90,
    /// 0.85 v.
    V0_85,
    /// 0.80 v.
    V0_80,
    /// 0.75 v.
    V0_75,
    /// 0.70 v.
    V0_70,
    /// 0.65 v.
    V0_65,
    /// 0.60 v.
    V0_60,
    /// 0.55 v.
    V0_55,
}

impl CmpVoltage {
    /// The number that stands for this value in its register field.
    pub open spec fn code(self) -> int {
        match self {
            Self::V0_90 => 0,
            Self::V0_85 => 1,
            Self::V0_80 => 2,
            Self::V0_75 => 3,
            Self::V0_70 => 4,
            Self::V0_65 => 5,
            Self::V0_60 => 6,
            Self::V0_55 => 7,
        }
    }

    /// The value that `code` stands for. Every larger number is read as the
    /// last value.
    pub open spec fn decode(code: int) -> Self {
        if code == 0 {
            Self::V0_90
        } else if code == 1 {
            Self::V0_85
        } else if code == 2 {
            Self::V0_80
        } else if code == 3 {
            Self::V0_75
        } else if code == 4 {
            Self::V0_70
        } else if code == 5 {
            Self::V0_65
        } else if code == 6 {
            Self::V0_60
        } else {
            Self::V0_55
        }
    }

    /// The number that stands for this value in its register field.
    #[inline]
    pub fn bits(self) -> (r: u32)
        ensures
            r == self.code(),
    {
        match self {
            Self::V0_90 => 0,
            Self::V0_85 => 1,
            Self::V0_80 => 2,
            Self::V0_75 => 3,
            Self::V0_70 => 4,
            Self::V0_65 => 5,
            Self::V0_60 => 6,
            Self::V0_55 => 7,
        }
    }
}

/// Compare configuration register.
#[derive(Clone, Copy, Debug, PartialEq, Eq, PartialOrd, Ord, Hash, Structural)]
pub struct CompareConfig(pub u32);

impl CompareConfig {
    const CMP_DB: u32 = 0xFF00_0000;
    const CMP_MODE: u32 = 0x20;
    const CMP_EN: u32 = 0x10;
    const CMP_SEL: u32 = 0x7;

    /// Set compare debounce value (`CMP_DB`).
    ///
    /// The debounce circuit uses APB bus clock for debouncing.
    /// Debounce period = (CMP_DB + 1) * Tpclk, default Tpclk is 10 ns.
    #[inline]
    pub fn set_cmp_db(self, val: u8) -> (r: Self)
        ensures
            field(r.0, 24, 8) == val,
            r.0 == with_field(self.0, 24, 8, field(r.0, 24, 8)),
            rest_is_kept(self.0, r.0, 24, 8),
    {
        let wide: u32 = u32::from(val);
        proof {
            lemma_write(self.0, Self::CMP_DB, 24, 8, wide);
        }
        Self((self.0 & !Self::CMP_DB) | (Self::CMP_DB & (wide << 24)))
    }

    /// Get compare debounce value.
    #[inline]
    pub fn cmp_db(self) -> (r: u8)
        ensures
            r == field(self.0, 24, 8),
    {
        proof {
            lemma_read(self.0, Self::CMP_DB, 24, 8);
        }
        match u8::try_from((self.0 & Self::CMP_DB) >> 24) {
            Ok(value) => value,
            Err(_) => unreached(),
        }
    }

    /// Set compare mode (`CMP_MODE`).
    #[inline]
    pub fn set_cmp_mode(self, mode: CmpMode) -> (r: Self)
        ensures
            r.0 == with_field(self.0, 5, 1, mode.code()),
            field(r.0, 5, 1) == mode.code(),
            CmpMode::decode(field(r.0, 5, 1)) == mode,
            rest_is_kept(self.0, r.0, 5, 1),
    {
        let code: u32 = mode.bits();
        proof {
            lemma_write(self.0, Self::CMP_MODE, 5, 1, code);
        }
        Self((self.0 & !Self::CMP_MODE) | (Self::CMP_MODE & (code << 5)))
    }

    /// Get compare mode.
    #[inline]
    pub fn cmp_mode(self) -> (r: CmpMode)
        ensures
            r == CmpMode::decode(field(self.0, 5, 1)),
            r.code() == field(self.0, 5, 1),
    {
        proof {
            lemma_read(self.0, Self::CMP_MODE, 5, 1);
        }
        match (self.0 & Self::CMP_MODE) >> 5 {
            0 => CmpMode::LowVoltage,
            1 => CmpMode::HighVoltage,
            _ => unreached(),
        }
    }

    /// Enable compare (`CMP_EN`).
    #[inline]
    pub fn enable_cmp(self) -> (r: Self)
        ensures
            r.0 == with_flag(self.0, 4, true),
            flag(r.0, 4),
            rest_is_kept(self.0, r.0, 4, 1),
    {
        proof {
            lemma_set(self.0, Self::CMP_EN, 4, 1);
        }
        Self(self.0 | Self::CMP_EN)
    }

    /// Disable compare.
    #[inline]
    pub fn disable_cmp(self) -> (r: Self)
        ensures
            r.0 == with_flag(self.0, 4, false),
            !flag(r.0, 4),
            rest_is_kept(self.0, r.0, 4, 1),
    {
        proof {
            lemma_clear(self.0, Self::CMP_EN, 4, 1);
        }
        Self(self.0 & !Self::CMP_EN)
    }

    /// Check if compare is enabled.
    #[inline]
    pub fn is_cmp_enabled(self) -> (r: bool)
        ensures
            r == flag(self.0, 4),
    {
        proof {
            lemma_read(self.0, Self::CMP_EN, 4, 1);
        }
        self.0 & Self::CMP_EN != 0
    }

    /// Set compare voltage selection (`CMP_SEL`).
    #[inline]
    pub fn set_cmp_voltage_sel(self, vol: CmpVoltage) -> (r: Self)
        ensures
            r.0 == with_field(self.0, 0, 3, vol.code()),
            field(r.0, 0, 3) == vol.code(),
            CmpVoltage::decode(field(r.0, 0, 3)) == vol,
            rest_is_kept(self.0, r.0, 0, 3),
    {
        let code: u32 = vol.bits();
        proof {
            lemma_write(self.0, Self::CMP_SEL, 0, 3, code);
        }
        Self((self.0 & !Self::CMP_SEL) | (Self::CMP_SEL & code))
    }

    /// Get compare voltage selection.
    #[inline]
    pub fn cmp_voltage_sel(self) -> (r: CmpVoltage)
        ensures
            r == CmpVoltage::decode(field(self.0, 0, 3)),
            r.code() == field(self.0, 0, 3),
    {
        proof {
            lemma_read(self.0, Self::CMP_SEL, 0, 3);
        }
        match self.0 & Self::CMP_SEL {
            0 => CmpVoltage::V0_90,
            1 => CmpVoltage::V0_85,
            2 => CmpVoltage::V0_80,
            3 => CmpVoltage::V0_75,
            4 => CmpVoltage::V0_70,
            5 => CmpVoltage::V0_65,
            6 => CmpVoltage::V0_60,
            7 => CmpVoltage::V0_55,
            _ => unreached(),
        }
    }
}

/// USB0 external resistor register.
#[derive(Clone, Copy, Debug, PartialEq, Eq, PartialOrd, Ord, Hash, Structural)]
pub struct Usb0RExt(pub u32);

impl Usb0RExt {
    const RES_CAL_EN: u32 = 0x100;
    const RES_CAL_VAL: u32 = 0xFF;

    /// Enable resistor calibration (`RES_CAL_EN`).
    #[inline]
    pub fn enable_res_cal(self) -> (r: Self)
        ensures
            r.0 == with_flag(self.0, 8, true),
            flag(r.0, 8),
            rest_is_kept(self.0, r.0, 8, 1),
    {
        proof {
            lemma_set(self.0, Self::RES_CAL_EN, 8, 1);
        }
        Self(self.0 | Self::RES_CAL_EN)
    }

    /// Disable resistor calibration.
    #[inline]
    pub fn disable_res_cal(self) -> (r: Self)
        ensures
            r.0 == with_flag(self.0, 8, false),
            !flag(r.0, 8),
            rest_is_kept(self.0, r.0, 8, 1),
    {
        proof {
            lemma_clear(self.0, Self::RES_CAL_EN, 8, 1);
        }
        Self(self.0 & !Self::RES_CAL_EN)
    }

    /// Check if resistor calibration is enabled.
    #[inline]
    pub fn is_res_cal_enabled(self) -> (r: bool)
        ensures
            r == flag(self.0, 8),
    {
        proof {
            lemma_read(self.0, Self::RES_CAL_EN, 8, 1);
        }
        self.0 & Self::RES_CAL_EN != 0
    }

    /// Set resistor calibration value (`RES_CAL_VAL`).
    ///
    /// Adjust this value so that the calibrated resistance reaches the target value of 200 ohms for USB.
    #[inline]
    pub fn set_res_cal_val(self, val: u8) -> (r: Self)
        ensures
            r.0 == with_field(self.0, 0, 8, val as int),
            field(r.0, 0, 8) == val,
            rest_is_kept(self.0, r.0, 0, 8),
    {
        proof {
            lemma_write(self.0, Self::RES_CAL_VAL, 0, 8, val as u32);
        }
        Self((self.0 & !Self::RES_CAL_VAL) | (Self::RES_CAL_VAL & (val as u32)))
    }

    /// Get resistor calibration value.
    #[inline]
    pub fn res_cal_val(self) -> (r: u8)
        ensures
            r == field(self.0, 0, 8),
    {
        proof {
            lemma_read(self.0, Self::RES_CAL_VAL, 0, 8);
        }
        (self.0 & Self::RES_CAL_VAL) as u8
    }
}

/// PSEN ring oscillator selection.
///
/// The variants are not numbered by their codes: `bits` gives the code of a
/// value, a cast does not.
#[derive(Clone, Copy, Debug, PartialEq, Eq, Structural)]
pub enum RoSel {
    /// RVT_40 cell.
    Rvt40Cell,
    /// LVT_40 cell.
    Lvt40Cell,
    /// ULVT_40 cell.
    Ulvt40Cell,
    /// RVT_50 cell.
    Rvt50Cell,
    /// LVT_50 cell.
    Lvt50Cell,
    /// ULVT_50 cell.
    Ulvt50Cell,
    /// A bit pattern to which the hardware gives no meaning.
    Reserved,
}

impl RoSel {
    /// The number that stands for this value in its register field. Of the
    /// numbers that stand for no other value, `Reserved` is written as the lowest.
    pub open spec fn code(self) -> int {
        match self {
            Self::Rvt40Cell => 1,
            Self::Lvt40Cell => 2,
            Self::Ulvt40Cell => 3,
            Self::Rvt50Cell => 5,
            Self::Lvt50Cell => 6,
            Self::Ulvt50Cell => 7,
            Self::Reserved => 0,
        }
    }

    /// The value that `code` stands for: `Reserved`, where it stands for none.
    pub open spec fn decode(code: int) -> Self {
        if code == 1 {
            Self::Rvt40Cell
        } else if code == 2 {
            Self::Lvt40Cell
        } else if code == 3 {
            Self::Ulvt40Cell
        } else if code == 5 {
            Self::Rvt50Cell
        } else if code == 6 {
            Self::Lvt50Cell
        } else if code == 7 {
            Self::Ulvt50Cell
        } else {
            Self::Reserved
        }
    }

    /// Whether `code` stands for a value other than `Reserved`.
    pub open spec fn is_code(code: int) -> bool {
        code == 1 || code == 2 || code == 3 || code == 5 || code == 6 || code == 7
    }

    /// The number that stands for this value in its register field.
    #[inline]
    pub fn bits(self) -> (r: u32)
        ensures
            r == self.code(),
    {
        match self {
            Self::Rvt40Cell => 1,
            Self::Lvt40Cell => 2,
            Self::Ulvt40Cell => 3,
            Self::Rvt50Cell => 5,
            Self::Lvt50Cell => 6,
            Self::Ulvt50Cell => 7,
            Self::Reserved => 0,
        }
    }
}

/// Process sensor configuration register.
#[derive(Clone, Copy, Debug, PartialEq, Eq, PartialOrd, Ord, Hash, Structural)]
pub struct PsenConfig(pub u32);

impl PsenConfig {
    const CNT_TIME: u32 = 0xFFFF_0000;
    const RO_SEL: u32 = 0xE;
    const PSEN_START: u32 = 0x1;

    /// Set count time (`CNT_TIME`).
    ///
    /// Unit: APB bus clock cycles.
    #[inline]
    pub fn set_cnt_time(self, time: u16) -> (r: Self)
        ensures
            r.0 == with_field(self.0, 16, 16, time as int),
            field(r.0, 16, 16) == time,
            rest_is_kept(self.0, r.0, 16, 16),
    {
        proof {
            lemma_write(self.0, Self::CNT_TIME, 16, 16, time as u32);
        }
        Self((self.0 & !Self::CNT_TIME) | (Self::CNT_TIME & ((time as u32) << 16)))
    }

    /// Get count time.
    #[inline]
    pub fn cnt_time(self) -> (r: u16)
        ensures
            r == field(self.0, 16, 16),
    {
        proof {
            lemma_read(self.0, Self::CNT_TIME, 16, 16);
        }
        ((self.0 & Self::CNT_TIME) >> 16) as u16
    }

    /// Set ring oscillator selection (`RO_SEL`).
    #[inline]
    pub fn set_ro_sel(self, sel: RoSel) -> (r: Self)
        ensures
            r.0 == with_field(self.0, 1, 3, sel.code()),
            field(r.0, 1, 3) == sel.code(),
            RoSel::decode(field(r.0, 1, 3)) == sel,
            rest_is_kept(self.0, r.0, 1, 3),
    {
        proof {
            lemma_write(self.0, Self::RO_SEL, 1, 3, sel.code() as u32);
        }
        Self((self.0 & !Self::RO_SEL) | (Self::RO_SEL & (sel.bits() << 1)))
    }

    /// Get ring oscillator selection.
    #[inline]
    pub fn ro_sel(self) -> (r: RoSel)
        ensures
            r == RoSel::decode(field(self.0, 1, 3)),
            RoSel::is_code(field(self.0, 1, 3)) ==> r.code() == field(self.0, 1, 3),
    {
        proof {
            lemma_read(self.0, Self::RO_SEL, 1, 3);
        }
        match (self.0 & Self::RO_SEL) >> 1 {
            1 => RoSel::Rvt40Cell,
            2 => RoSel::Lvt40Cell,
            3 => RoSel::Ulvt40Cell,
            5 => RoSel::Rvt50Cell,
            6 => RoSel::Lvt50Cell,
            7 => RoSel::Ulvt50Cell,
            _ => RoSel::Reserved,
        }
    }

    /// Start psen test bit (`PSEN_START`).
    ///
    /// After PSEN test ends, this bit is automatically cleared.
    #[inline]
    pub fn set_psen_start(self, set: bool) -> (r: Self)
        ensures
            r.0 == with_flag(self.0, 0, set),
            flag(r.0, 0) == set,
            rest_is_kept(self.0, r.0, 0, 1),
    {
        proof {
            lemma_set(self.0, Self::PSEN_START, 0, 1);
            lemma_clear(self.0, Self::PSEN_START, 0, 1);
        }
        if set {
            Self(self.0 | Self::PSEN_START)
        } else {
            Self(self.0 & !Self::PSEN_START)
        }
    }

    /// Get psen test bit.
    #[inline]
    pub fn psen_start(self) -> (r: bool)
        ensures
            r == flag(self.0, 0),
    {
        proof {
            lemma_read(self.0, Self::PSEN_START, 0, 1);
        }
        self.0 & Self::PSEN_START != 0
    }
}

/// Process sensor counter value register.
#[derive(Clone, Copy, Debug, PartialEq, Eq, PartialOrd, Ord, Hash, Structural)]
pub struct PsenCntVal(pub u32);

impl PsenCntVal {
    const CNT_VAL: u32 = 0xFFFF;

    /// Get counter value (`CNT_VAL`).
    #[inline]
    pub fn cnt_val(self) -> (r: u16)
        ensures
            r == field(self.0, 0, 16),
    {
        proof {
            lemma_read(self.0, Self::CNT_VAL, 0, 16);
        }
        (self.0 & Self::CNT_VAL) as u16
    }
}

/// GE sram parameter register.
#[derive(Clone, Copy, Debug, PartialEq, Eq, PartialOrd, Ord, Hash, Structural)]
pub struct GeSramParam(pub u32);

impl GeSramParam {
    const SRAM_PAR: u32 = 0xFFFF;

    /// Set sram parameter (`SRAM_PAR`).
    #[inline]
    pub fn set_sram_par(self, val: u16) -> (r: Self)
        ensures
            r.0 == with_field(self.0, 0, 16, val as int),
            field(r.0, 0, 16) == val,
            rest_is_kept(self.0, r.0, 0, 16),
    {
        proof {
            lemma_write(self.0, Self::SRAM_PAR, 0, 16, val as u32);
        }
        Self((self.0 & !Self::SRAM_PAR) | (Self::SRAM_PAR & (val as u32)))
    }

    /// Get SRAM parameter.
    #[inline]
    pub fn sram_par(self) -> (r: u16)
        ensures
            r == field(self.0, 0, 16),
    {
        proof {
            lemma_read(self.0, Self::SRAM_PAR, 0, 16);
        }
        (self.0 & Self::SRAM_PAR) as u16
    }
}

/// SRAM clock configuration register.
#[derive(Clone, Copy, Debug, PartialEq, Eq, PartialOrd, Ord, Hash, Structural)]
pub struct SramClkConfig(pub u32);

impl SramClkConfig {
    const XSPI: u32 = 0x2_0000;
    const SDFM: u32 = 0x1_0000;
    const AUDIO: u32 = 0x8000;
    const MIPI: u32 = 0x2000;
    const SPI: u32 = 0x1000;
    const USB: u32 = 0x800;
    const SD: u32 = 0x200;
    const UART: u32 = 0x400;
    const CE: u32 = 0x100;
    const DE: u32 = 0x80;
    const GE: u32 = 0x40;
    const VE: u32 = 0x20;
    const DVP: u32 = 0x10;
    const GMAC: u32 = 0x8;
    const DMA: u32 = 0x4;
    const DDR: u32 = 0x2;
    const SYS: u32 = 0x1;

    /// Enable system sram clock ungating (`SYS`).
    #[inline]
    pub fn enable_sys(self) -> (r: Self)
        ensures
            r.0 == with_flag(self.0, 0, true),
            flag(r.0, 0),
            rest_is_kept(self.0, r.0, 0, 1),
    {
        proof {
            lemma_set(self.0, Self::SYS, 0, 1);
        }
        Self(self.0 | Self::SYS)
    }

    /// Disable system sram clock ungating.
    #[inline]
    pub fn disable_sys(self) -> (r: Self)
        ensures
            r.0 == with_flag(self.0, 0, false),
            !flag(r.0, 0),
            rest_is_kept(self.0, r.0, 0, 1),
    {
        proof {
            lemma_clear(self.0, Self::SYS, 0, 1);
        }
        Self(self.0 & !Self::SYS)
    }

    /// Check if system sram clock ungating is enabled.
    #[inline]
    pub fn is_sys_enabled(self) -> (r: bool)
        ensures
            r == flag(self.0, 0),
    {
        proof {
            lemma_read(self.0, Self::SYS, 0, 1);
        }
        self.0 & Self::SYS != 0
    }

    /// Enable ddr sram clock ungating (`DDR`).
    #[inline]
    pub fn enable_ddr(self) -> (r: Self)
        ensures
            r.0 == with_flag(self.0, 1, true),
            flag(r.0, 1),
            rest_is_kept(self.0, r.0, 1, 1),
    {
        proof {
            lemma_set(self.0, Self::DDR, 1, 1);
        }
        Self(self.0 | Self::DDR)
    }

    /// Disable ddr sram clock ungating.
    #[inline]
    pub fn disable_ddr(self) -> (r: Self)
        ensures
            r.0 == with_flag(self.0, 1, false),
            !flag(r.0, 1),
            rest_is_kept(self.0, r.0, 1, 1),
    {
        proof {
            lemma_clear(self.0, Self::DDR, 1, 1);
        }
        Self(self.0 & !Self::DDR)
    }

    /// Check if ddr sram clock ungating is enabled.
    #[inline]
    pub fn is_ddr_enabled(self) -> (r: bool)
        ensures
            r == flag(self.0, 1),
    {
        proof {
            lemma_read(self.0, Self::DDR, 1, 1);
        }
        self.0 & Self::DDR != 0
    }

    /// Enable dma sram clock ungating (`DMA`).
    #[inline]
    pub fn enable_dma(self) -> (r: Self)
        ensures
            r.0 == with_flag(self.0, 2, true),
            flag(r.0, 2),
            rest_is_kept(self.0, r.0, 2, 1),
    {
        proof {
            lemma_set(self.0, Self::DMA, 2, 1);
        }
        Self(self.0 | Self::DMA)
    }

    /// Disable dma sram clock ungating.
    #[inline]
    pub fn disable_dma(self) -> (r: Self)
        ensures
            r.0 == with_flag(self.0, 2, false),
            !flag(r.0, 2),
            rest_is_kept(self.0, r.0, 2, 1),
    {
        proof {
            lemma_clear(self.0, Self::DMA, 2, 1);
        }
        Self(self.0 & !Self::DMA)
    }

    /// Check if dma sram clock ungating is enabled.
    #[inline]
    pub fn is_dma_enabled(self) -> (r: bool)
        ensures
            r == flag(self.0, 2),
    {
        proof {
            lemma_read(self.0, Self::DMA, 2, 1);
        }
        self.0 & Self::DMA != 0
    }

    /// Enable gmac sram clock ungating (`GMAC`).
    #[inline]
    pub fn enable_gmac(self) -> (r: Self)
        ensures
            r.0 == with_flag(self.0, 3, true),
            flag(r.0, 3),
            rest_is_kept(self.0, r.0, 3, 1),
    {
        proof {
            lemma_set(self.0, Self::GMAC, 3, 1);
        }
        Self(self.0 | Self::GMAC)
    }

    /// Disable gmac sram clock ungating.
    #[inline]
    pub fn disable_gmac(self) -> (r: Self)
        ensures
            r.0 == with_flag(self.0, 3, false),
            !flag(r.0, 3),
            rest_is_kept(self.0, r.0, 3, 1),
    {
        proof {
            lemma_clear(self.0, Self::GMAC, 3, 1);
        }
        Self(self.0 & !Self::GMAC)
    }

    /// Check if gmac sram clock ungating is enabled.
    #[inline]
    pub fn is_gmac_enabled(self) -> (r: bool)
        ensures
            r == flag(self.0, 3),
    {
        proof {
            lemma_read(self.0, Self::GMAC, 3, 1);
        }
        self.0 & Self::GMAC != 0
    }

    /// Enable dvp sram clock ungating (`DVP`).
    #[inline]
    pub fn enable_dvp(self) -> (r: Self)
        ensures
            r.0 == with_flag(self.0, 4, true),
            flag(r.0, 4),
            rest_is_kept(self.0, r.0, 4, 1),
    {
        proof {
            lemma_set(self.0, Self::DVP, 4, 1);
        }
        Self(self.0 | Self::DVP)
    }

    /// Disable dvp sram clock ungating.
    #[inline]
    pub fn disable_dvp(self) -> (r: Self)
        ensures
            r.0 == with_flag(self.0, 4, false),
            !flag(r.0, 4),
            rest_is_kept(self.0, r.0, 4, 1),
    {
        proof {
            lemma_clear(self.0, Self::DVP, 4, 1);
        }
        Self(self.0 & !Self::DVP)
    }

    /// Check if dvp sram clock ungating is enabled.
    #[inline]
    pub fn is_dvp_enabled(self) -> (r: bool)
        ensures
            r == flag(self.0, 4),
    {
        proof {
            lemma_read(self.0, Self::DVP, 4, 1);
        }
        self.0 & Self::DVP != 0
    }

    /// Enable ve sram clock ungating (`VE`).
    #[inline]
    pub fn enable_ve(self) -> (r: Self)
        ensures
            r.0 == with_flag(self.0, 5, true),
            flag(r.0, 5),
            rest_is_kept(self.0, r.0, 5, 1),
    {
        proof {
            lemma_set(self.0, Self::VE, 5, 1);
        }
        Self(self.0 | Self::VE)
    }

    /// Disable ve sram clock ungating.
    #[inline]
    pub fn disable_ve(self) -> (r: Self)
        ensures
            r.0 == with_flag(self.0, 5, false),
            !flag(r.0, 5),
            rest_is_kept(self.0, r.0, 5, 1),
    {
        proof {
            lemma_clear(self.0, Self::VE, 5, 1);
        }
        Self(self.0 & !Self::VE)
    }

    /// Check if ve sram clock ungating is enabled.
    #[inline]
    pub fn is_ve_enabled(self) -> (r: bool)
        ensures
            r == flag(self.0, 5),
    {
        proof {
            lemma_read(self.0, Self::VE, 5, 1);
        }
        self.0 & Self::VE != 0
    }

    /// Enable ge sram clock ungating (`GE`).
    #[inline]
    pub fn enable_ge(self) -> (r: Self)
        ensures
            r.0 == with_flag(self.0, 6, true),
            flag(r.0, 6),
            rest_is_kept(self.0, r.0, 6, 1),
    {
        proof {
            lemma_set(self.0, Self::GE, 6, 1);
        }
        Self(self.0 | Self::GE)
    }

    /// Disable ge sram clock ungating.
    #[inline]
    pub fn disable_ge(self) -> (r: Self)
        ensures
            r.0 == with_flag(self.0, 6, false),
            !flag(r.0, 6),
            rest_is_kept(self.0, r.0, 6, 1),
    {
        proof {
            lemma_clear(self.0, Self::GE, 6, 1);
        }
        Self(self.0 & !Self::GE)
    }

    /// Check if ge sram clock ungating is enabled.
    #[inline]
    pub fn is_ge_enabled(self) -> (r: bool)
        ensures
            r == flag(self.0, 6),
    {
        proof {
            lemma_read(self.0, Self::GE, 6, 1);
        }
        self.0 & Self::GE != 0
    }

    /// Enable de sram clock ungating (`DE`).
    #[inline]
    pub fn enable_de(self) -> (r: Self)
        ensures
            r.0 == with_flag(self.0, 7, true),
            flag(r.0, 7),
            rest_is_kept(self.0, r.0, 7, 1),
    {
        proof {
            lemma_set(self.0, Self::DE, 7, 1);
        }
        Self(self.0 | Self::DE)
    }

    /// Disable de sram clock ungating.
    #[inline]
    pub fn disable_de(self) -> (r: Self)
        ensures
            r.0 == with_flag(self.0, 7, false),
            !flag(r.0, 7),
            rest_is_kept(self.0, r.0, 7, 1),
    {
        proof {
            lemma_clear(self.0, Self::DE, 7, 1);
        }
        Self(self.0 & !Self::DE)
    }

    /// Check if de sram clock ungating is enabled.
    #[inline]
    pub fn is_de_enabled(self) -> (r: bool)
        ensures
            r == flag(self.0, 7),
    {
        proof {
            lemma_read(self.0, Self::DE, 7, 1);
        }
        self.0 & Self::DE != 0
    }

    /// Enable ce sram clock ungating (`CE`).
    #[inline]
    pub fn enable_ce(self) -> (r: Self)
        ensures
            r.0 == with_flag(self.0, 8, true),
            flag(r.0, 8),
            rest_is_kept(self.0, r.0, 8, 1),
    {
        proof {
            lemma_set(self.0, Self::CE, 8, 1);
        }
        Self(self.0 | Self::CE)
    }

    /// Disable ce sram clock ungating.
    #[inline]
    pub fn disable_ce(self) -> (r: Self)
        ensures
            r.0 == with_flag(self.0, 8, false),
            !flag(r.0, 8),
            rest_is_kept(self.0, r.0, 8, 1),
    {
        proof {
            lemma_clear(self.0, Self::CE, 8, 1);
        }
        Self(self.0 & !Self::CE)
    }

    /// Check if ce sram clock ungating is enabled.
    #[inline]
    pub fn is_ce_enabled(self) -> (r: bool)
        ensures
            r == flag(self.0, 8),
    {
        proof {
            lemma_read(self.0, Self::CE, 8, 1);
        }
        self.0 & Self::CE != 0
    }

    /// Enable uart sram clock ungating (`UART`).
    #[inline]
    pub fn enable_uart(self) -> (r: Self)
        ensures
            r.0 == with_flag(self.0, 10, true),
            flag(r.0, 10),
            rest_is_kept(self.0, r.0, 10, 1),
    {
        proof {
            lemma_set(self.0, Self::UART, 10, 1);
        }
        Self(self.0 | Self::UART)
    }

    /// Disable uart sram clock ungating.
    #[inline]
    pub fn disable_uart(self) -> (r: Self)
        ensures
            r.0 == with_flag(self.0, 10, false),
            !flag(r.0, 10),
            rest_is_kept(self.0, r.0, 10, 1),
    {
        proof {
            lemma_clear(self.0, Self::UART, 10, 1);
        }
        Self(self.0 & !Self::UART)
    }

    /// Check if uart sram clock ungating is enabled.
    #[inline]
    pub fn is_uart_enabled(self) -> (r: bool)
        ensures
            r == flag(self.0, 10),
    {
        proof {
            lemma_read(self.0, Self::UART, 10, 1);
        }
        self.0 & Self::UART != 0
    }

    /// Enable sd sram clock ungating (`SD`).
    #[inline]
    pub fn enable_sd(self) -> (r: Self)
        ensures
            r.0 == with_flag(self.0, 9, true),
            flag(r.0, 9),
            rest_is_kept(self.0, r.0, 9, 1),
    {
        proof {
            lemma_set(self.0, Self::SD, 9, 1);
        }
        Self(self.0 | Self::SD)
    }

    /// Disable sd sram clock ungating.
    #[inline]
    pub fn disable_sd(self) -> (r: Self)
        ensures
            r.0 == with_flag(self.0, 9, false),
            !flag(r.0, 9),
            rest_is_kept(self.0, r.0, 9, 1),
    {
        proof {
            lemma_clear(self.0, Self::SD, 9, 1);
        }
        Self(self.0 & !Self::SD)
    }

    /// Check if sd sram clock ungating is enabled.
    #[inline]
    pub fn is_sd_enabled(self) -> (r: bool)
        ensures
            r == flag(self.0, 9),
    {
        proof {
            lemma_read(self.0, Self::SD, 9, 1);
        }
        self.0 & Self::SD != 0
    }

    /// Enable usb sram clock ungating (`USB`).
    #[inline]
    pub fn enable_usb(self) -> (r: Self)
        ensures
            r.0 == with_flag(self.0, 11, true),
            flag(r.0, 11),
            rest_is_kept(self.0, r.0, 11, 1),
    {
        proof {
            lemma_set(self.0, Self::USB, 11, 1);
        }
        Self(self.0 | Self::USB)
    }

    /// Disable usb sram clock ungating.
    #[inline]
    pub fn disable_usb(self) -> (r: Self)
        ensures
            r.0 == with_flag(self.0, 11, false),
            !flag(r.0, 11),
            rest_is_kept(self.0, r.0, 11, 1),
    {
        proof {
            lemma_clear(self.0, Self::USB, 11, 1);
        }
        Self(self.0 & !Self::USB)
    }

    /// Check if usb sram clock ungating is enabled.
    #[inline]
    pub fn is_usb_enabled(self) -> (r: bool)
        ensures
            r == flag(self.0, 11),
    {
        proof {
            lemma_read(self.0, Self::USB, 11, 1);
        }
        self.0 & Self::USB != 0
    }

    /// Enable spi sram clock ungating (`SPI`).
    #[inline]
    pub fn enable_spi(self) -> (r: Self)
        ensures
            r.0 == with_flag(self.0, 12, true),
            flag(r.0, 12),
            rest_is_kept(self.0, r.0, 12, 1),
    {
        proof {
            lemma_set(self.0, Self::SPI, 12, 1);
        }
        Self(self.0 | Self::SPI)
    }

    /// Disable spi sram clock ungating.
    #[inline]
    pub fn disable_spi(self) -> (r: Self)
        ensures
            r.0 == with_flag(self.0, 12, false),
            !flag(r.0, 12),
            rest_is_kept(self.0, r.0, 12, 1),
    {
        proof {
            lemma_clear(self.0, Self::SPI, 12, 1);
        }
        Self(self.0 & !Self::SPI)
    }

    /// Check if spi sram clock ungating is enabled.
    #[inline]
    pub fn is_spi_enabled(self) -> (r: bool)
        ensures
            r == flag(self.0, 12),
    {
        proof {
            lemma_read(self.0, Self::SPI, 12, 1);
        }
        self.0 & Self::SPI != 0
    }

    /// Enable mipi sram clock ungating (`MIPI`).
    #[inline]
    pub fn enable_mipi(self) -> (r: Self)
        ensures
            r.0 == with_flag(self.0, 13, true),
            flag(r.0, 13),
            rest_is_kept(self.0, r.0, 13, 1),
    {
        proof {
            lemma_set(self.0, Self::MIPI, 13, 1);
        }
        Self(self.0 | Self::MIPI)
    }

    /// Disable mipi sram clock ungating.
    #[inline]
    pub fn disable_mipi(self) -> (r: Self)
        ensures
            r.0 == with_flag(self.0, 13, false),
            !flag(r.0, 13),
            rest_is_kept(self.0, r.0, 13, 1),
    {
        proof {
            lemma_clear(self.0, Self::MIPI, 13, 1);
        }
        Self(self.0 & !Self::MIPI)
    }

    /// Check if mipi sram clock ungating is enabled.
    #[inline]
    pub fn is_mipi_enabled(self) -> (r: bool)
        ensures
            r == flag(self.0, 13),
    {
        proof {
            lemma_read(self.0, Self::MIPI, 13, 1);
        }
        self.0 & Self::MIPI != 0
    }

    /// Enable audio sram clock ungating (`AUDIO`).
    #[inline]
    pub fn enable_audio(self) -> (r: Self)
        ensures
            r.0 == with_flag(self.0, 15, true),
            flag(r.0, 15),
            rest_is_kept(self.0, r.0, 15, 1),
    {
        proof {
            lemma_set(self.0, Self::AUDIO, 15, 1);
        }
        Self(self.0 | Self::AUDIO)
    }

    /// Disable audio sram clock ungating.
    #[inline]
    pub fn disable_audio(self) -> (r: Self)
        ensures
            r.0 == with_flag(self.0, 15, false),
            !flag(r.0, 15),
            rest_is_kept(self.0, r.0, 15, 1),
    {
        proof {
            lemma_clear(self.0, Self::AUDIO, 15, 1);
        }
        Self(self.0 & !Self::AUDIO)
    }

    /// Check if audio sram clock ungating is enabled.
    #[inline]
    pub fn is_audio_enabled(self) -> (r: bool)
        ensures
            r == flag(self.0, 15),
    {
        proof {
            lemma_read(self.0, Self::AUDIO, 15, 1);
        }
        self.0 & Self::AUDIO != 0
    }

    /// Enable sdfm sram clock ungating (`SDFM`).
    #[inline]
    pub fn enable_sdfm(self) -> (r: Self)
        ensures
            r.0 == with_flag(self.0, 16, true),
            flag(r.0, 16),
            rest_is_kept(self.0, r.0, 16, 1),
    {
        proof {
            lemma_set(self.0, Self::SDFM, 16, 1);
        }
        Self(self.0 | Self::SDFM)
    }

    /// Disable sdfm sram clock ungating.
    #[inline]
    pub fn disable_sdfm(self) -> (r: Self)
        ensures
            r.0 == with_flag(self.0, 16, false),
            !flag(r.0, 16),
            rest_is_kept(self.0, r.0, 16, 1),
    {
        proof {
            lemma_clear(self.0, Self::SDFM, 16, 1);
        }
        Self(self.0 & !Self::SDFM)
    }

    /// Check if sdfm sram clock ungating is enabled.
    #[inline]
    pub fn is_sdfm_enabled(self) -> (r: bool)
        ensures
            r == flag(self.0, 16),
    {
        proof {
            lemma_read(self.0, Self::SDFM, 16, 1);
        }
        self.0 & Self::SDFM != 0
    }

    /// Enable xspi sram clock ungating (`XSPI`).
    #[inline]
    pub fn enable_xspi(self) -> (r: Self)
        ensures
            r.0 == with_flag(self.0, 17, true),
            flag(r.0, 17),
            rest_is_kept(self.0, r.0, 17, 1),
    {
        proof {
            lemma_set(self.0, Self::XSPI, 17, 1);
        }
        Self(self.0 | Self::XSPI)
    }

    /// Disable xspi sram clock ungating.
    #[inline]
    pub fn disable_xspi(self) -> (r: Self)
        ensures
            r.0 == with_flag(self.0, 17, false),
            !flag(r.0, 17),
            rest_is_kept(self.0, r.0, 17, 1),
    {
        proof {
            lemma_clear(self.0, Self::XSPI, 17, 1);
        }
        Self(self.0 & !Self::XSPI)
    }

    /// Check if xspi sram clock ungating is enabled.
    #[inline]
    pub fn is_xspi_enabled(self) -> (r: bool)
        ensures
            r == flag(self.0, 17),
    {
        proof {
            lemma_read(self.0, Self::XSPI, 17, 1);
        }
        self.0 & Self::XSPI != 0
    }
}

/// AXI matrix slave0 address area.
///
/// The variants are not numbered by their codes: `bits` gives the code of a
/// value, a cast does not.
#[derive(Clone, Copy, Debug, PartialEq, Eq, Structural)]
pub enum AxiMatS0Area {
    /// 0x30040000~0x3005FFFF.
    Area0,
    /// 0x30060000~0x3007FFFF.
    Area1,
    /// 0x30080000~0x3009FFFF.
    Area2,
    /// 0x300A0000~0x300BFFFF.
    Area3,
    /// 0x300C0000~0x300DFFFF.
    Area4,
    /// 0x300E0000~0x300FFFFF.
    Area5,
    /// 0x30100000~0x3011FFFF.
    Area6,
    /// 0x30120000~0x3013FFFF.
    Area7,
}

impl AxiMatS0Area {
    /// The number that stands for this value in its register field.
    pub open spec fn code(self) -> int {
        match self {
            Self::Area0 => 0x1,
            Self::Area1 => 0x2,
            Self::Area2 => 0x4,
            Self::Area3 => 0x8,
            Self::Area4 => 0x10,
            Self::Area5 => 0x20,
            Self::Area6 => 0x40,
            Self::Area7 => 0x80,
        }
    }

    /// The position, within its register field, of the one bit that stands for
    /// this value.
    pub open spec fn bit(self) -> u32 {
        match self {
            Self::Area0 => 0,
            Self::Area1 => 1,
            Self::Area2 => 2,
            Self::Area3 => 3,
            Self::Area4 => 4,
            Self::Area5 => 5,
            Self::Area6 => 6,
            Self::Area7 => 7,
        }
    }

    /// The number that stands for this value in its register field.
    #[inline]
    pub fn bits(self) -> (r: u32)
        ensures
            r == self.code(),
    {
        match self {
            Self::Area0 => 0x1,
            Self::Area1 => 0x2,
            Self::Area2 => 0x4,
            Self::Area3 => 0x8,
            Self::Area4 => 0x10,
            Self::Area5 => 0x20,
            Self::Area6 => 0x40,
            Self::Area7 => 0x80,
        }
    }
}

/// AXI matrix slave1 size.
#[derive(Clone, Copy, Debug, PartialEq, Eq, Structural)]
pub enum AxiMatS1Size {
    /// S1 0 KB.
    Size0Kb,
    /// S1 128 KB.
    Size128Kb,
    /// S1 256 KB.
    Size256Kb,
    /// S1 384 KB.
    Size384Kb,
    /// S1 512 KB.
    Size512Kb,
    /// S1 640 KB.
    Size640Kb,
    /// S1 768 KB.
    Size768Kb,
    /// A bit pattern to which the hardware gives no meaning.
    Reserved,
}

impl AxiMatS1Size {
    /// The number that stands for this value in its register field. Of the
    /// numbers that stand for no other value, `Reserved` is written as the lowest.
    pub open spec fn code(self) -> int {
        match self {
            Self::Size0Kb => 0,
            Self::Size128Kb => 1,
            Self::Size256Kb => 2,
            Self::Size384Kb => 3,
            Self::Size512Kb => 4,
            Self::Size640Kb => 5,
            Self::Size768Kb => 6,
            Self::Reserved => 7,
        }
    }

    /// The value that `code` stands for: `Reserved`, where it stands for none.
    pub open spec fn decode(code: int) -> Self {
        if code == 0 {
            Self::Size0Kb
        } else if code == 1 {
            Self::Size128Kb
        } else if code == 2 {
            Self::Size256Kb
        } else if code == 3 {
            Self::Size384Kb
        } else if code == 4 {
            Self::Size512Kb
        } else if code == 5 {
            Self::Size640Kb
        } else if code == 6 {
            Self::Size768Kb
        } else {
            Self::Reserved
        }
    }

    /// Whether `code` stands for a value other than `Reserved`.
    pub open spec fn is_code(code: int) -> bool {
        0 <= code <= 6
    }
}

/// SRAM mapping configuration register.
#[derive(Clone, Copy, Debug, PartialEq, Eq, PartialOrd, Ord, Structural)]
pub struct SramMapConfig(pub u32);

impl SramMapConfig {
    const AXI_MAT_S0_CFG: u32 = 0xFF00;
    const AXI_MAT_S1_SIZE: u32 = 0x70;
    const CPU_TCM_SRAM_ACLK_GATE: u32 = 0x2;
    const CPU_TCM_SRAM_CFG: u32 = 0x1;

    /// Enable axi matrix slave0 address area write (`AXI_MAT_S0_CFG`).
    #[inline]
    pub fn enable_axi_mat_s0_area(self, area: AxiMatS0Area) -> (r: Self)
        ensures
            r.0 == with_flag(self.0, (8 + area.bit()) as u32, true),
            flag(r.0, (8 + area.bit()) as u32),
            rest_is_kept(self.0, r.0, (8 + area.bit()) as u32, 1),
    {
        proof {
            lemma_write(self.0, Self::AXI_MAT_S0_CFG, 8, 8, area.code() as u32);
            lemma_set(
                self.0,
                Self::AXI_MAT_S0_CFG & ((area.code() as u32) << 8),
                (8 + area.bit()) as u32,
                1,
            );
        }
        Self(self.0 | (Self::AXI_MAT_S0_CFG & (area.bits() << 8)))
    }

    /// Disable axi matrix slave0 address area write.
    #[inline]
    pub fn disable_axi_mat_s0_area(self, area: AxiMatS0Area) -> (r: Self)
        ensures
            r.0 == with_flag(self.0, (8 + area.bit()) as u32, false),
            !flag(r.0, (8 + area.bit()) as u32),
            rest_is_kept(self.0, r.0, (8 + area.bit()) as u32, 1),
    {
        proof {
            lemma_write(self.0, Self::AXI_MAT_S0_CFG, 8, 8, area.code() as u32);
            lemma_clear(
                self.0,
                Self::AXI_MAT_S0_CFG & ((area.code() as u32) << 8),
                (8 + area.bit()) as u32,
                1,
            );
        }
        Self(self.0 & !(Self::AXI_MAT_S0_CFG & (area.bits() << 8)))
    }

    /// Check if axi matrix slave0 address area write is enabled.
    #[inline]
    pub fn is_axi_mat_s0_area_enabled(self, area: AxiMatS0Area) -> (r: bool)
        ensures
            r == flag(self.0, (8 + area.bit()) as u32),
    {
        proof {
            lemma_write(self.0, Self::AXI_MAT_S0_CFG, 8, 8, area.code() as u32);
            lemma_read(
                self.0,
                Self::AXI_MAT_S0_CFG & ((area.code() as u32) << 8),
                (8 + area.bit()) as u32,
                1,
            );
        }
        self.0 & (Self::AXI_MAT_S0_CFG & (area.bits() << 8)) != 0
    }

    /// Set axi matrix slave1 size (`AXI_MAT_S1_SIZE`).
    ///
    /// The capacity of Slave0 is 1024 MB minus the capacities of TCM and Slave1.
    /// - `CPU_TCM_SRAM_CFG`=0: The capacity of Slave0 is 1024 KB minus that of Slave1.
    /// - `CPU_TCM_SRAM_CFG`=1: The capacity of Slave0 is 768 KB minus that of Slave1.
    #[inline]
    pub fn set_axi_mat_s1_size(self, size: AxiMatS1Size) -> (r: Self)
        ensures
            r.0 == with_field(self.0, 4, 3, size.code()),
            field(r.0, 4, 3) == size.code(),
            AxiMatS1Size::decode(field(r.0, 4, 3)) == size,
            rest_is_kept(self.0, r.0, 4, 3),
    {
        proof {
            lemma_write(self.0, Self::AXI_MAT_S1_SIZE, 4, 3, size as u32);
        }
        Self((self.0 & !Self::AXI_MAT_S1_SIZE) | (Self::AXI_MAT_S1_SIZE & ((size as u32) << 4)))
    }

    /// Get axi matrix slave1 size.
    #[inline]
    pub fn axi_mat_s1_size(self) -> (r: AxiMatS1Size)
        ensures
            r == AxiMatS1Size::decode(field(self.0, 4, 3)),
            AxiMatS1Size::is_code(field(self.0, 4, 3)) ==> r.code() == field(self.0, 4, 3),
    {
        proof {
            lemma_read(self.0, Self::AXI_MAT_S1_SIZE, 4, 3);
        }
        match (self.0 & Self::AXI_MAT_S1_SIZE) >> 4 {
            0 => AxiMatS1Size::Size0Kb,
            1 => AxiMatS1Size::Size128Kb,
            2 => AxiMatS1Size::Size256Kb,
            3 => AxiMatS1Size::Size384Kb,
            4 => AxiMatS1Size::Size512Kb,
            5 => AxiMatS1Size::Size640Kb,
            6 => AxiMatS1Size::Size768Kb,
            _ => AxiMatS1Size::Reserved,
        }
    }

    /// Set cpu tcm sram aclk gate (`CPU_TCM_SRAM_ACLK_GATE`).
    ///
    /// Note: Before enabling `CPU_TCM_SRAM_CFG`, this bit field must first be set to 0 to avoid clock glitches.
    #[inline]
    pub fn set_cpu_tcm_sram_aclk_gate(self, set: bool) -> (r: Self)
        ensures
            r.0 == with_flag(self.0, 1, set),
            flag(r.0, 1) == set,
            rest_is_kept(self.0, r.0, 1, 1),
    {
        proof {
            lemma_set(self.0, Self::CPU_TCM_SRAM_ACLK_GATE, 1, 1);
            lemma_clear(self.0, Self::CPU_TCM_SRAM_ACLK_GATE, 1, 1);
        }
        if set {
            Self(self.0 | Self::CPU_TCM_SRAM_ACLK_GATE)
        } else {
            Self(self.0 & !Self::CPU_TCM_SRAM_ACLK_GATE)
        }
    }

    /// Get cpu tcm sram aclk gate.
    #[inline]
    pub fn cpu_tcm_sram_aclk_gate(self) -> (r: bool)
        ensures
            r == flag(self.0, 1),
    {
        proof {
            lemma_read(self.0, Self::CPU_TCM_SRAM_ACLK_GATE, 1, 1);
        }
        self.0 & Self::CPU_TCM_SRAM_ACLK_GATE != 0
    }

    /// Enable cpu tcm (`CPU_TCM_SRAM_CFG`).
    ///
    /// Note: ITCM is fixed at 128 KB, and DTCM is fixed at 64 KB.
    #[inline]
    pub fn enable_cpu_tcm(self) -> (r: Self)
        ensures
            r.0 == with_flag(self.0, 0, true),
            flag(r.0, 0),
            rest_is_kept(self.0, r.0, 0, 1),
    {
        proof {
            lemma_set(self.0, Self::CPU_TCM_SRAM_CFG, 0, 1);
        }
        Self(self.0 | Self::CPU_TCM_SRAM_CFG)
    }

    /// Disable cpu tcm.
    #[inline]
    pub fn disable_cpu_tcm(self) -> (r: Self)
        ensures
            r.0 == with_flag(self.0, 0, false),
            !flag(r.0, 0),
            rest_is_kept(self.0, r.0, 0, 1),
    {
        proof {
            lemma_clear(self.0, Self::CPU_TCM_SRAM_CFG, 0, 1);
        }
        Self(self.0 & !Self::CPU_TCM_SRAM_CFG)
    }

    /// Check if cpu tcm is enabled.
    #[inline]
    pub fn is_cpu_tcm_enabled(self) -> (r: bool)
        ensures
            r == flag(self.0, 0),
    {
        proof {
            lemma_read(self.0, Self::CPU_TCM_SRAM_CFG, 0, 1);
        }
        self.0 & Self::CPU_TCM_SRAM_CFG != 0
    }
}

/// Flash io[0:2] mapping.
#[derive(Clone, Copy, Debug, PartialEq, Eq, Structural)]
pub enum FlashIomap012 {
    /// WP - SO - CS.
    WpSoCs,
    /// WP - CS - SO.
    WpCsSo,
    /// SO - WP - CS.
    SoWpCs,
    /// SO - CS - WP.
    SoCsWp,
    /// CS - WP - SO.
    CsWpSo,
    /// CS - SO - WP.
    CsSoWp,
    /// A bit pattern to which the hardware gives no meaning.
    Reserved,
}

impl FlashIomap012 {
    /// The number that stands for this value in its register field. Of the
    /// numbers that stand for no other value, `Reserved` is written as the lowest.
    pub open spec fn code(self) -> int {
        match self {
            Self::WpSoCs => 0,
            Self::WpCsSo => 1,
            Self::SoWpCs => 2,
            Self::SoCsWp => 3,
            Self::CsWpSo => 4,
            Self::CsSoWp => 5,
            Self::Reserved => 6,
        }
    }

    /// The value that `code` stands for: `Reserved`, where it stands for none.
    pub open spec fn decode(code: int) -> Self {
        if code == 0 {
            Self::WpSoCs
        } else if code == 1 {
            Self::WpCsSo
        } else if code == 2 {
            Self::SoWpCs
        } else if code == 3 {
            Self::SoCsWp
        } else if code == 4 {
            Self::CsWpSo
        } else if code == 5 {
            Self::CsSoWp
        } else {
            Self::Reserved
        }
    }

    /// Whether `code` stands for a value other than `Reserved`.
    pub open spec fn is_code(code: int) -> bool {
        0 <= code <= 5
    }
}

/// Flash io[3:5] mapping.
#[derive(Clone, Copy, Debug, PartialEq, Eq, Structural)]
pub enum FlashIomap345 {
    /// HOLD - SCLK - SI.
    HoldSclkSi,
    /// HOLD - SI - SCLK.
    HoldSiSclk,
    /// SCLK - HOLD - SI.
    SclkHoldSi,
    /// SCLK - SI - HOLD.
    SclkSiHold,
    /// SI - HOLD - SCLK.
    SiHoldSclk,
    /// SI - SCLK - HOLD.
    SiSclkHold,
    /// A bit pattern to which the hardware gives no meaning.
    Reserved,
}

impl FlashIomap345 {
    /// The number that stands for this value in its register field. Of the
    /// numbers that stand for no other value, `Reserved` is written as the lowest.
    pub open spec fn code(self) -> int {
        match self {
            Self::HoldSclkSi => 0,
            Self::HoldSiSclk => 1,
            Self::SclkHoldSi => 2,
            Self::SclkSiHold => 3,
            Self::SiHoldSclk => 4,
            Self::SiSclkHold => 5,
            Self::Reserved => 6,
        }
    }

    /// The value that `code` stands for: `Reserved`, where it stands for none.
    pub open spec fn decode(code: int) -> Self {
        if code == 0 {
            Self::HoldSclkSi
        } else if code == 1 {
            Self::HoldSiSclk
        } else if code == 2 {
            Self::SclkHoldSi
        } else if code == 3 {
            Self::SclkSiHold
        } else if code == 4 {
            Self::SiHoldSclk
        } else if code == 5 {
            Self::SiSclkHold
        } else {
            Self::Reserved
        }
    }

    /// Whether `code` stands for a value other than `Reserved`.
    pub open spec fn is_code(code: int) -> bool {
        0 <= code <= 5
    }
}

/// Flash access interface selection.
#[derive(Clone, Copy, Debug, PartialEq, Eq, Structural)]
pub enum FlashSrcSel {
    /// SiP Flash interface disabled, inaccessible.
    Disabled,
    /// SiP Flash interface accessed via PIN mapping, accessible by external devices.
    Pin,
    /// SiP Flash accessed via SPI0 controller.
    Spi0,
    /// SiP Flash accessed via SPI1 controller.
    Spi1,
}

impl FlashSrcSel {
    /// The number that stands for this value in its register field.
    pub open spec fn code(self) -> int {
        match self {
            Self::Disabled => 0,
            Self::Pin => 1,
            Self::Spi0 => 2,
            Self::Spi1 => 3,
        }
    }

    /// The value that `code` stands for. Every larger number is read as the
    /// last value.
    pub open spec fn decode(code: int) -> Self {
        if code == 0 {
            Self::Disabled
        } else if code == 1 {
            Self::Pin
        } else if code == 2 {
            Self::Spi0
        } else {
            Self::Spi1
        }
    }
}

/// FLASH configuration register.
#[derive(Clone, Copy, Debug, PartialEq, Eq, PartialOrd, Ord, Hash, Structural)]
pub struct FlashConfig(pub u32);

impl FlashConfig {
    const FLASH_IOMAP_012: u32 = 0x7000;
    const FLASH_IOMAP_345: u32 = 0x700;
    const FLASH_SRC_SEL: u32 = 0x3;

    /// Set flash io[0:2] mapping (`FLASH_IOMAP_012`).
    ///
    /// After BROM starts, it needs to obtain the FLASH_IOMAP information from EFUSE and configure it into this bit field.
    #[inline]
    pub fn set_flash_iomap_012(self, mapping: FlashIomap012) -> (r: Self)
        ensures
            r.0 == with_field(self.0, 12, 3, mapping.code()),
            field(r.0, 12, 3) == mapping.code(),
            FlashIomap012::decode(field(r.0, 12, 3)) == mapping,
            rest_is_kept(self.0, r.0, 12, 3),
    {
        proof {
            lemma_write(self.0, Self::FLASH_IOMAP_012, 12, 3, mapping as u32);
        }
        Self((self.0 & !Self::FLASH_IOMAP_012) | (Self::FLASH_IOMAP_012 & ((mapping as u32) << 12)))
    }

    /// Get flash io[0:2] mapping.
    #[inline]
    pub fn flash_iomap_012(self) -> (r: FlashIomap012)
        ensures
            r == FlashIomap012::decode(field(self.0, 12, 3)),
            FlashIomap012::is_code(field(self.0, 12, 3)) ==> r.code() == field(self.0, 12, 3),
    {
        proof {
            lemma_read(self.0, Self::FLASH_IOMAP_012, 12, 3);
        }
        match (self.0 & Self::FLASH_IOMAP_012) >> 12 {
            0 => FlashIomap012::WpSoCs,
            1 => FlashIomap012::WpCsSo,
            2 => FlashIomap012::SoWpCs,
            3 => FlashIomap012::SoCsWp,
            4 => FlashIomap012::CsWpSo,
            5 => FlashIomap012::CsSoWp,
            _ => FlashIomap012::Reserved,
        }
    }

    /// Set flash io[3:5] mapping (`FLASH_IOMAP_345`).
    ///
    /// After BROM starts, it needs to obtain the FLASH_IOMAP information from EFUSE and configure it into this bit field.
    #[inline]
    pub fn set_flash_iomap_345(self, mapping: FlashIomap345) -> (r: Self)
        ensures
            r.0 == with_field(self.0, 8, 3, mapping.code()),
            field(r.0, 8, 3) == mapping.code(),
            FlashIomap345::decode(field(r.0, 8, 3)) == mapping,
            rest_is_kept(self.0, r.0, 8, 3),
    {
        proof {
            lemma_write(self.0, Self::FLASH_IOMAP_345, 8, 3, mapping as u32);
        }
        Self((self.0 & !Self::FLASH_IOMAP_345) | (Self::FLASH_IOMAP_345 & ((mapping as u32) << 8)))
    }

    /// Get flash io[3:5] mapping.
    #[inline]
    pub fn flash_iomap_345(self) -> (r: FlashIomap345)
        ensures
            r == FlashIomap345::decode(field(self.0, 8, 3)),
            FlashIomap345::is_code(field(self.0, 8, 3)) ==> r.code() == field(self.0, 8, 3),
    {
        proof {
            lemma_read(self.0, Self::FLASH_IOMAP_345, 8, 3);
        }
        match (self.0 & Self::FLASH_IOMAP_345) >> 8 {
            0 => FlashIomap345::HoldSclkSi,
            1 => FlashIomap345::HoldSiSclk,
            2 => FlashIomap345::SclkHoldSi,
            3 => FlashIomap345::SclkSiHold,
            4 => FlashIomap345::SiHoldSclk,
            5 => FlashIomap345::SiSclkHold,
            _ => FlashIomap345::Reserved,
        }
    }

    /// Set flash access interface selection (`FLASH_SRC_SEL`).
    #[inline]
    pub fn set_flash_src_sel(self, sel: FlashSrcSel) -> (r: Self)
        ensures
            r.0 == with_field(self.0, 0, 2, sel.code()),
            field(r.0, 0, 2) == sel.code(),
            FlashSrcSel::decode(field(r.0, 0, 2)) == sel,
            rest_is_kept(self.0, r.0, 0, 2),
    {
        proof {
            lemma_write(self.0, Self::FLASH_SRC_SEL, 0, 2, sel as u32);
        }
        Self((self.0 & !Self::FLASH_SRC_SEL) | (Self::FLASH_SRC_SEL & (sel as u32)))
    }

    /// Get flash access interface selection.
    #[inline]
    pub fn flash_src_sel(self) -> (r: FlashSrcSel)
        ensures
            r == FlashSrcSel::decode(field(self.0, 0, 2)),
            r.code() == field(self.0, 0, 2),
    {
        proof {
            lemma_read(self.0, Self::FLASH_SRC_SEL, 0, 2);
        }
        match self.0 & Self::FLASH_SRC_SEL {
            0 => FlashSrcSel::Disabled,
            1 => FlashSrcSel::Pin,
            2 => FlashSrcSel::Spi0,
            3 => FlashSrcSel::Spi1,
            _ => unreached(),
        }
    }
}

/// Encoder 0 selection.
#[derive(Clone, Copy, Debug, PartialEq, Eq, Structural)]
pub enum Enc0Sel {
    /// IO0=QEP_A, IO1=QEP_B, IO2=QEP_I.
    Qep0,
    /// IO0=EDAT_DE, IO1=EDAT_DIO, IO2=EDAT_CLK.
    Edat0,
    /// IO0=TA_DE, IO1=TA_DIO.
    Ta0,
    /// IO0=BIS_MA, IO1=BIS_SLO.
    Bis0,
}

impl Enc0Sel {
    /// The number that stands for this value in its register field.
    pub open spec fn code(self) -> int {
        match self {
            Self::Qep0 => 0,
            Self::Edat0 => 1,
            Self::Ta0 => 2,
            Self::Bis0 => 3,
        }
    }

    /// The value that `code` stands for. Every larger number is read as the
    /// last value.
    pub open spec fn decode(code: int) -> Self {
        if code == 0 {
            Self::Qep0
        } else if code == 1 {
            Self::Edat0
        } else if code == 2 {
            Self::Ta0
        } else {
            Self::Bis0
        }
    }
}

/// Encoder 1 selection.
#[derive(Clone, Copy, Debug, PartialEq, Eq, Structural)]
pub enum Enc1Sel {
    /// IO0=QEP_A, IO1=QEP_B, IO2=QEP_I.
    Qep1,
    /// IO0=EDAT_DE, IO1=EDAT_DIO, IO2=EDAT_CLK.
    Edat1,
    /// IO0=TA_DE, IO1=TA_DIO.
    Ta1,
    /// IO0=BIS_MA, IO1=BIS_SLO.
    Bis1,
}

impl Enc1Sel {
    /// The number that stands for this value in its register field.
    pub open spec fn code(self) -> int {
        match self {
            Self::Qep1 => 0,
            Self::Edat1 => 1,
            Self::Ta1 => 2,
            Self::Bis1 => 3,
        }
    }

    /// The value that `code` stands for. Every larger number is read as the
    /// last value.
    pub open spec fn decode(code: int) -> Self {
        if code == 0 {
            Self::Qep1
        } else if code == 1 {
            Self::Edat1
        } else if code == 2 {
            Self::Ta1
        } else {
            Self::Bis1
        }
    }
}

/// ENCODER configuration register.
#[derive(Clone, Copy, Debug, PartialEq, Eq, PartialOrd, Ord, Hash, Structural)]
pub struct EncoderConfig(pub u32);

impl EncoderConfig {
    const ENC1_SEL: u32 = 0x3_0000;
    const ENC0_SEL: u32 = 0x3;

    /// Set encoder 1 selection (`ENC1_SEL`).
    #[inline]
    pub fn set_enc1_sel(self, sel: Enc1Sel) -> (r: Self)
        ensures
            r.0 == with_field(self.0, 16, 2, sel.code()),
            field(r.0, 16, 2) == sel.code(),
            Enc1Sel::decode(field(r.0, 16, 2)) == sel,
            rest_is_kept(self.0, r.0, 16, 2),
    {
        proof {
            lemma_write(self.0, Self::ENC1_SEL, 16, 2, sel as u32);
        }
        Self((self.0 & !Self::ENC1_SEL) | (Self::ENC1_SEL & ((sel as u32) << 16)))
    }

    /// Get encoder 1 selection.
    #[inline]
    pub fn enc1_sel(self) -> (r: Enc1Sel)
        ensures
            r == Enc1Sel::decode(field(self.0, 16, 2)),
            r.code() == field(self.0, 16, 2),
    {
        proof {
            lemma_read(self.0, Self::ENC1_SEL, 16, 2);
        }
        match (self.0 & Self::ENC1_SEL) >> 16 {
            0 => Enc1Sel::Qep1,
            1 => Enc1Sel::Edat1,
            2 => Enc1Sel::Ta1,
            3 => Enc1Sel::Bis1,
            _ => unreached(),
        }
    }

    /// Set encoder 0 selection (`ENC0_SEL`).
    #[inline]
    pub fn set_enc0_sel(self, sel: Enc0Sel) -> (r: Self)
        ensures
            r.0 == with_field(self.0, 0, 2, sel.code()),
            field(r.0, 0, 2) == sel.code(),
            Enc0Sel::decode(field(r.0, 0, 2)) == sel,
            rest_is_kept(self.0, r.0, 0, 2),
    {
        proof {
            lemma_write(self.0, Self::ENC0_SEL, 0, 2, sel as u32);
        }
        Self((self.0 & !Self::ENC0_SEL) | (Self::ENC0_SEL & (sel as u32)))
    }

    /// Get encoder 0 selection.
    #[inline]
    pub fn enc0_sel(self) -> (r: Enc0Sel)
        ensures
            r == Enc0Sel::decode(field(self.0, 0, 2)),
            r.code() == field(self.0, 0, 2),
    {
        proof {
            lemma_read(self.0, Self::ENC0_SEL, 0, 2);
        }
        match self.0 & Self::ENC0_SEL {
            0 => Enc0Sel::Qep0,
            1 => Enc0Sel::Edat0,
            2 => Enc0Sel::Ta0,
            3 => Enc0Sel::Bis0,
            _ => unreached(),
        }
    }
}

/// DRD mode selection.
#[derive(Clone, Copy, Debug, PartialEq, Eq, Structural)]
pub enum DrdMode {
    Host,
    Device,
}

impl DrdMode {
    /// The number that stands for this value in its register field.
    pub open spec fn code(self) -> int {
        match self {
            Self::Host => 0,
            Self::Device => 1,
        }
    }

    /// The value that `code` stands for. Every larger number is read as the
    /// last value.
    pub open spec fn decode(code: int) -> Self {
        if code == 0 {
            Self::Host
        } else {
            Self::Device
        }
    }
}

/// USB0 configuration register.
#[derive(Clone, Copy, Debug, PartialEq, Eq, PartialOrd, Ord, Hash, Structural)]
pub struct Usb0Config(pub u32);

impl Usb0Config {
    const DRD_MODE: u32 = 0x1;

    /// Set drd mode selection (`DRD_MODE`).
    #[inline]
    pub fn set_drd_mode(self, mode: DrdMode) -> (r: Self)
        ensures
            r.0 == with_field(self.0, 0, 1, mode.code()),
            field(r.0, 0, 1) == mode.code(),
            DrdMode::decode(field(r.0, 0, 1)) == mode,
            rest_is_kept(self.0, r.0, 0, 1),
    {
        proof {
            lemma_write(self.0, Self::DRD_MODE, 0, 1, mode as u32);
        }
        Self((self.0 & !Self::DRD_MODE) | (Self::DRD_MODE & (mode as u32)))
    }

    /// Get drd mode selection.
    #[inline]
    pub fn drd_mode(self) -> (r: DrdMode)
        ensures
            r == DrdMode::decode(field(self.0, 0, 1)),
            r.code() == field(self.0, 0, 1),
    {
        proof {
            lemma_read(self.0, Self::DRD_MODE, 0, 1);
        }
        match self.0 & Self::DRD_MODE {
            0 => DrdMode::Host,
            1 => DrdMode::Device,
            _ => unreached(),
        }
    }
}

/// RMII external clock selection.
#[derive(Clone, Copy, Debug, PartialEq, Eq, Structural)]
pub enum RmiiExtclkSel {
    Intclk,
    Extclk,
}

impl RmiiExtclkSel {
    /// The number that stands for this value in its register field.
    pub open spec fn code(self) -> int {
        match self {
            Self::Intclk => 0,
            Self::Extclk => 1,
        }
    }

    /// The value that `code` stands for. Every larger number is read as the
    /// last value.
    pub open spec fn decode(code: int) -> Self {
        if code == 0 {
            Self::Intclk
        } else {
            Self::Extclk
        }
    }
}

/// EMAC configuration register.
#[derive(Clone, Copy, Debug, PartialEq, Eq, PartialOrd, Ord, Hash, Structural)]
pub struct EmacConfig(pub u32);

impl EmacConfig {
    const REFCLK_INV: u32 = 0x2000_0000;
    const REFCLK_DLY_CHAIN_SEL: u32 = 0x1F00_0000;
    const RXCLK_INV: u32 = 0x80_0000;
    const RXCLK_DLY_SEL: u32 = 0x7C_0000;
    const TXCLK_INV: u32 = 0x2_0000;
    const TXCLK_DLY_CHAIN_SEL: u32 = 0x1_F000;
    const SW_TXCLK_DIV2: u32 = 0xF00;
    const SW_TXCLK_DIV1: u32 = 0xF0;
    const SW_TXCLK_DIV_EN: u32 = 0x4;
    const RMII_EXTCLK_SEL: u32 = 0x2;

    /// Enable reference clock inversion (`REFCLK_INV`).
    #[inline]
    pub fn enable_refclk_inv(self) -> (r: Self)
        ensures
            r.0 == with_flag(self.0, 29, true),
            flag(r.0, 29),
            rest_is_kept(self.0, r.0, 29, 1),
    {
        proof {
            lemma_set(self.0, Self::REFCLK_INV, 29, 1);
        }
        Self(self.0 | Self::REFCLK_INV)
    }

    /// Disable reference clock inversion.
    #[inline]
    pub fn disable_refclk_inv(self) -> (r: Self)
        ensures
            r.0 == with_flag(self.0, 29, false),
            !flag(r.0, 29),
            rest_is_kept(self.0, r.0, 29, 1),
    {
        proof {
            lemma_clear(self.0, Self::REFCLK_INV, 29, 1);
        }
        Self(self.0 & !Self::REFCLK_INV)
    }

    /// Check if reference clock inversion is enabled.
    #[inline]
    pub fn is_refclk_inv_enabled(self) -> (r: bool)
        ensures
            r == flag(self.0, 29),
    {
        proof {
            lemma_read(self.0, Self::REFCLK_INV, 29, 1);
        }
        (self.0 & Self::REFCLK_INV) != 0
    }

    /// Set reference clock delay chain selection (`REFCLK_DLY_CHAIN_SEL`).
    ///
    /// Aborts if `sel` is not below `0x20`.
    #[inline]
    pub fn set_refclk_dly_chain_sel(self, sel: u8) -> (r: Self)
        requires
            sel < 0x20,
        ensures
            r.0 == with_field(self.0, 24, 5, sel as int),
            field(r.0, 24, 5) == sel,
            rest_is_kept(self.0, r.0, 24, 5),
    {
        runtime_assert(sel < 0x20);
        proof {
            lemma_write(self.0, Self::REFCLK_DLY_CHAIN_SEL, 24, 5, sel as u32);
        }
        Self(
            (self.0 & !Self::REFCLK_DLY_CHAIN_SEL)
                | (Self::REFCLK_DLY_CHAIN_SEL & ((sel as u32) << 24)),
        )
    }

    /// Get reference clock delay chain selection.
    #[inline]
    pub fn refclk_dly_chain_sel(self) -> (r: u8)
        ensures
            r == field(self.0, 24, 5),
    {
        proof {
            lemma_read(self.0, Self::REFCLK_DLY_CHAIN_SEL, 24, 5);
        }
        ((self.0 & Self::REFCLK_DLY_CHAIN_SEL) >> 24) as u8
    }

    /// Enable receive clock inversion (`RXCLK_INV`).
    #[inline]
    pub fn enable_rxclk_inv(self) -> (r: Self)
        ensures
            r.0 == with_flag(self.0, 23, true),
            flag(r.0, 23),
            rest_is_kept(self.0, r.0, 23, 1),
    {
        proof {
            lemma_set(self.0, Self::RXCLK_INV, 23, 1);
        }
        Self(self.0 | Self::RXCLK_INV)
    }

    /// Disable receive clock inversion.
    #[inline]
    pub fn disable_rxclk_inv(self) -> (r: Self)
        ensures
            r.0 == with_flag(self.0, 23, false),
            !flag(r.0, 23),
            rest_is_kept(self.0, r.0, 23, 1),
    {
        proof {
            lemma_clear(self.0, Self::RXCLK_INV, 23, 1);
        }
        Self(self.0 & !Self::RXCLK_INV)
    }

    /// Check if receive clock inversion is enabled.
    #[inline]
    pub fn is_rxclk_inv_enabled(self) -> (r: bool)
        ensures
            r == flag(self.0, 23),
    {
        proof {
            lemma_read(self.0, Self::RXCLK_INV, 23, 1);
        }
        (self.0 & Self::RXCLK_INV) != 0
    }

    /// Set receive clock delay selection (`RXCLK_DLY_SEL`).
    ///
    /// Aborts if `sel` is not below `0x20`.
    #[inline]
    pub fn set_rxclk_dly_sel(self, sel: u8) -> (r: Self)
        requires
            sel < 0x20,
        ensures
            r.0 == with_field(self.0, 18, 5, sel as int),
            field(r.0, 18, 5) == sel,
            rest_is_kept(self.0, r.0, 18, 5),
    {
        runtime_assert(sel < 0x20);
        proof {
            lemma_write(self.0, Self::RXCLK_DLY_SEL, 18, 5, sel as u32);
        }
        Self((self.0 & !Self::RXCLK_DLY_SEL) | (Self::RXCLK_DLY_SEL & ((sel as u32) << 18)))
    }

    /// Get receive clock delay selection.
    #[inline]
    pub fn rxclk_dly_sel(self) -> (r: u8)
        ensures
            r == field(self.0, 18, 5),
    {
        proof {
            lemma_read(self.0, Self::RXCLK_DLY_SEL, 18, 5);
        }
        ((self.0 & Self::RXCLK_DLY_SEL) >> 18) as u8
    }

    /// Enable transmit clock inversion (`TXCLK_INV`).
    #[inline]
    pub fn enable_txclk_inv(self) -> (r: Self)
        ensures
            r.0 == with_flag(self.0, 17, true),
            flag(r.0, 17),
            rest_is_kept(self.0, r.0, 17, 1),
    {
        proof {
            lemma_set(self.0, Self::TXCLK_INV, 17, 1);
        }
        Self(self.0 | Self::TXCLK_INV)
    }

    /// Disable transmit clock inversion.
    #[inline]
    pub fn disable_txclk_inv(self) -> (r: Self)
        ensures
            r.0 == with_flag(self.0, 17, false),
            !flag(r.0, 17),
            rest_is_kept(self.0, r.0, 17, 1),
    {
        proof {
            lemma_clear(self.0, Self::TXCLK_INV, 17, 1);
        }
        Self(self.0 & !Self::TXCLK_INV)
    }

    /// Check if transmit clock inversion is enabled.
    #[inline]
    pub fn is_txclk_inv_enabled(self) -> (r: bool)
        ensures
            r == flag(self.0, 17),
    {
        proof {
            lemma_read(self.0, Self::TXCLK_INV, 17, 1);
        }
        (self.0 & Self::TXCLK_INV) != 0
    }

    /// Set transmit clock delay chain selection (`TXCLK_DLY_CHAIN_SEL`).
    ///
    /// Aborts if `sel` is not below `0x20`.
    #[inline]
    pub fn set_txclk_dly_chain_sel(self, sel: u8) -> (r: Self)
        requires
            sel < 0x20,
        ensures
            r.0 == with_field(self.0, 12, 5, sel as int),
            field(r.0, 12, 5) == sel,
            rest_is_kept(self.0, r.0, 12, 5),
    {
        runtime_assert(sel < 0x20);
        proof {
            lemma_write(self.0, Self::TXCLK_DLY_CHAIN_SEL, 12, 5, sel as u32);
        }
        Self(
            (self.0 & !Self::TXCLK_DLY_CHAIN_SEL)
                | (Self::TXCLK_DLY_CHAIN_SEL & ((sel as u32) << 12)),
        )
    }

    /// Get transmit clock delay chain selection.
    #[inline]
    pub fn txclk_dly_chain_sel(self) -> (r: u8)
        ensures
            r == field(self.0, 12, 5),
    {
        proof {
            lemma_read(self.0, Self::TXCLK_DLY_CHAIN_SEL, 12, 5);
        }
        ((self.0 & Self::TXCLK_DLY_CHAIN_SEL) >> 12) as u8
    }

    /// Set software transmit clock divider 2 (`SW_TXCLK_DIV2`).
    ///
    /// Aborts if `div` is not below `0x10`.
    #[inline]
    pub fn set_sw_txclk_div2(self, div: u8) -> (r: Self)
        requires
            div < 0x10,
        ensures
            r.0 == with_field(self.0, 8, 4, div as int),
            field(r.0, 8, 4) == div,
            rest_is_kept(self.0, r.0, 8, 4),
    {
        runtime_assert(div < 0x10);
        proof {
            lemma_write(self.0, Self::SW_TXCLK_DIV2, 8, 4, div as u32);
        }
        Self((self.0 & !Self::SW_TXCLK_DIV2) | (Self::SW_TXCLK_DIV2 & ((div as u32) << 8)))
    }

    /// Get software transmit clock divider 2.
    #[inline]
    pub fn sw_txclk_div2(self) -> (r: u8)
        ensures
            r == field(self.0, 8, 4),
    {
        proof {
            lemma_read(self.0, Self::SW_TXCLK_DIV2, 8, 4);
        }
        ((self.0 & Self::SW_TXCLK_DIV2) >> 8) as u8
    }

    /// Set software transmit clock divider 1 (`SW_TXCLK_DIV1`).
    ///
    /// Aborts if `div` is not below `0x10`.
    #[inline]
    pub fn set_sw_txclk_div1(self, div: u8) -> (r: Self)
        requires
            div < 0x10,
        ensures
            r.0 == with_field(self.0, 4, 4, div as int),
            field(r.0, 4, 4) == div,
            rest_is_kept(self.0, r.0, 4, 4),
    {
        runtime_assert(div < 0x10);
        proof {
            lemma_write(self.0, Self::SW_TXCLK_DIV1, 4, 4, div as u32);
        }
        Self((self.0 & !Self::SW_TXCLK_DIV1) | (Self::SW_TXCLK_DIV1 & ((div as u32) << 4)))
    }

    /// Get software transmit clock divider 1.
    #[inline]
    pub fn sw_txclk_div1(self) -> (r: u8)
        ensures
            r == field(self.0, 4, 4),
    {
        proof {
            lemma_read(self.0, Self::SW_TXCLK_DIV1, 4, 4);
        }
        ((self.0 & Self::SW_TXCLK_DIV1) >> 4) as u8
    }

    /// Enable software transmit clock divider (`SW_TXCLK_DIV_EN`).
    #[inline]
    pub fn enable_sw_txclk_div(self) -> (r: Self)
        ensures
            r.0 == with_flag(self.0, 2, true),
            flag(r.0, 2),
            rest_is_kept(self.0, r.0, 2, 1),
    {
        proof {
            lemma_set(self.0, Self::SW_TXCLK_DIV_EN, 2, 1);
        }
        Self(self.0 | Self::SW_TXCLK_DIV_EN)
    }

    /// Disable software transmit clock divider.
    #[inline]
    pub fn disable_sw_txclk_div(self) -> (r: Self)
        ensures
            r.0 == with_flag(self.0, 2, false),
            !flag(r.0, 2),
            rest_is_kept(self.0, r.0, 2, 1),
    {
        proof {
            lemma_clear(self.0, Self::SW_TXCLK_DIV_EN, 2, 1);
        }
        Self(self.0 & !Self::SW_TXCLK_DIV_EN)
    }

    /// Check if software transmit clock divider is enabled.
    #[inline]
    pub fn is_sw_txclk_div_enabled(self) -> (r: bool)
        ensures
            r == flag(self.0, 2),
    {
        proof {
            lemma_read(self.0, Self::SW_TXCLK_DIV_EN, 2, 1);
        }
        (self.0 & Self::SW_TXCLK_DIV_EN) != 0
    }

    /// Set RMII external clock selection (`RMII_EXTCLK_SEL`).
    #[inline]
    pub fn set_rmii_extclk_sel(self, sel: RmiiExtclkSel) -> (r: Self)
        ensures
            r.0 == with_field(self.0, 1, 1, sel.code()),
            field(r.0, 1, 1) == sel.code(),
            RmiiExtclkSel::decode(field(r.0, 1, 1)) == sel,
            rest_is_kept(self.0, r.0, 1, 1),
    {
        proof {
            lemma_write(self.0, Self::RMII_EXTCLK_SEL, 1, 1, sel as u32);
        }
        Self((self.0 & !Self::RMII_EXTCLK_SEL) | (Self::RMII_EXTCLK_SEL & ((sel as u32) << 1)))
    }

    /// Get RMII external clock selection.
    #[inline]
    pub fn rmii_extclk_sel(self) -> (r: RmiiExtclkSel)
        ensures
            r == RmiiExtclkSel::decode(field(self.0, 1, 1)),
            r.code() == field(self.0, 1, 1),
    {
        proof {
            lemma_read(self.0, Self::RMII_EXTCLK_SEL, 1, 1);
        }
        match (self.0 & Self::RMII_EXTCLK_SEL) >> 1 {
            0 => RmiiExtclkSel::Intclk,
            1 => RmiiExtclkSel::Extclk,
            _ => unreached(),
        }
    }
}

/// CMU ATB selection.
#[derive(Clone, Copy, Debug, PartialEq, Eq, Structural)]
pub enum CmuAtbSel {
    Disable,
    VbiasVbp,
    VbiasVbpc,
    VbiasVbn,
    VbiasVbnc,
    VbiasVfbb,
    LdoDvDv,
    LdoDvVbpc,
    LdoDvVbp,
    LdoDvVbnc,
    LdoDvVbn,
    LdoAvInt0Av,
    LdoAvInt0Vbpc,
    LdoAvInt0Vbp,
    LdoAvInt0Vbnc,
    LdoAvInt0Vbn,
    LdoAvInt1Av,
    LdoAvFra0Av,
    LdoAvFra0Vbpc,
    LdoAvFra0Vbp,
    LdoAvFra0Vbnc,
    LdoAvFra0Vbn,
    LdoAvFra1Av,
    LdoAvFra2Av,
    Int0IbCp,
    Int1IbCp,
    Fra0IbCp,
    Fra1IbCp,
    Fra2IbCp,
    /// A bit pattern to which the hardware gives no meaning.
    Reserved,
}

impl CmuAtbSel {
    /// The number that stands for this value in its register field. Of the
    /// numbers that stand for no other value, `Reserved` is written as the lowest.
    pub open spec fn code(self) -> int {
        match self {
            Self::Disable => 0,
            Self::VbiasVbp => 1,
            Self::VbiasVbpc => 2,
            Self::VbiasVbn => 3,
            Self::VbiasVbnc => 4,
            Self::VbiasVfbb => 5,
            Self::LdoDvDv => 6,
            Self::LdoDvVbpc => 7,
            Self::LdoDvVbp => 8,
            Self::LdoDvVbnc => 9,
            Self::LdoDvVbn => 10,
            Self::LdoAvInt0Av => 11,
            Self::LdoAvInt0Vbpc => 12,
            Self::LdoAvInt0Vbp => 13,
            Self::LdoAvInt0Vbnc => 14,
            Self::LdoAvInt0Vbn => 15,
            Self::LdoAvInt1Av => 16,
            Self::LdoAvFra0Av => 17,
            Self::LdoAvFra0Vbpc => 18,
            Self::LdoAvFra0Vbp => 19,
            Self::LdoAvFra0Vbnc => 20,
            Self::LdoAvFra0Vbn => 21,
            Self::LdoAvFra1Av => 22,
            Self::LdoAvFra2Av => 23,
            Self::Int0IbCp => 24,
            Self::Int1IbCp => 25,
            Self::Fra0IbCp => 26,
            Self::Fra1IbCp => 27,
            Self::Fra2IbCp => 28,
            Self::Reserved => 29,
        }
    }

    /// The value that `code` stands for: `Reserved`, where it stands for none.
    pub open spec fn decode(code: int) -> Self {
        if code == 0 {
            Self::Disable
        } else if code == 1 {
            Self::VbiasVbp
        } else if code == 2 {
            Self::VbiasVbpc
        } else if code == 3 {
            Self::VbiasVbn
        } else if code == 4 {
            Self::VbiasVbnc
        } else if code == 5 {
            Self::VbiasVfbb
        } else if code == 6 {
            Self::LdoDvDv
        } else if code == 7 {
            Self::LdoDvVbpc
        } else if code == 8 {
            Self::LdoDvVbp
        } else if code == 9 {
            Self::LdoDvVbnc
        } else if code == 10 {
            Self::LdoDvVbn
        } else if code == 11 {
            Self::LdoAvInt0Av
        } else if code == 12 {
            Self::LdoAvInt0Vbpc
        } else if code == 13 {
            Self::LdoAvInt0Vbp
        } else if code == 14 {
            Self::LdoAvInt0Vbnc
        } else if code == 15 {
            Self::LdoAvInt0Vbn
        } else if code == 16 {
            Self::LdoAvInt1Av
        } else if code == 17 {
            Self::LdoAvFra0Av
        } else if code == 18 {
            Self::LdoAvFra0Vbpc
        } else if code == 19 {
            Self::LdoAvFra0Vbp
        } else if code == 20 {
            Self::LdoAvFra0Vbnc
        } else if code == 21 {
            Self::LdoAvFra0Vbn
        } else if code == 22 {
            Self::LdoAvFra1Av
        } else if code == 23 {
            Self::LdoAvFra2Av
        } else if code == 24 {
            Self::Int0IbCp
        } else if code == 25 {
            Self::Int1IbCp
        } else if code == 26 {
            Self::Fra0IbCp
        } else if code == 27 {
            Self::Fra1IbCp
        } else if code == 28 {
            Self::Fra2IbCp
        } else {
            Self::Reserved
        }
    }

    /// Whether `code` stands for a value other than `Reserved`.
    pub open spec fn is_code(code: int) -> bool {
        0 <= code <= 28
    }
}

/// ATB_CMU_ANA_TOP register.
#[derive(Clone, Copy, Debug, PartialEq, Eq, PartialOrd, Ord, Hash, Structural)]
pub struct AtbCmuAnaTop(pub u32);

impl AtbCmuAnaTop {
    const CMU_ATBSEL: u32 = 0x1F;

    /// Set CMU ATB selection (`CMU_ATBSEL`).
    #[inline]
    pub fn set_cmu_atbsel(self, sel: CmuAtbSel) -> (r: Self)
        ensures
            r.0 == with_field(self.0, 0, 5, sel.code()),
            field(r.0, 0, 5) == sel.code(),
            CmuAtbSel::decode(field(r.0, 0, 5)) == sel,
            rest_is_kept(self.0, r.0, 0, 5),
    {
        proof {
            lemma_write(self.0, Self::CMU_ATBSEL, 0, 5, sel as u32);
        }
        Self((self.0 & !Self::CMU_ATBSEL) | (Self::CMU_ATBSEL & (sel as u32)))
    }

    /// Get CMU ATB selection.
    #[inline]
    pub fn cmu_atbsel(self) -> (r: CmuAtbSel)
        ensures
            r == CmuAtbSel::decode(field(self.0, 0, 5)),
            CmuAtbSel::is_code(field(self.0, 0, 5)) ==> r.code() == field(self.0, 0, 5),
    {
        proof {
            lemma_read(self.0, Self::CMU_ATBSEL, 0, 5);
        }
        match self.0 & Self::CMU_ATBSEL {
            0 => CmuAtbSel::Disable,
            1 => CmuAtbSel::VbiasVbp,
            2 => CmuAtbSel::VbiasVbpc,
            3 => CmuAtbSel::VbiasVbn,
            4 => CmuAtbSel::VbiasVbnc,
            5 => CmuAtbSel::VbiasVfbb,
            6 => CmuAtbSel::LdoDvDv,
            7 => CmuAtbSel::LdoDvVbpc,
            8 => CmuAtbSel::LdoDvVbp,
            9 => CmuAtbSel::LdoDvVbnc,
            10 => CmuAtbSel::LdoDvVbn,
            11 => CmuAtbSel::LdoAvInt0Av,
            12 => CmuAtbSel::LdoAvInt0Vbpc,
            13 => CmuAtbSel::LdoAvInt0Vbp,
            14 => CmuAtbSel::LdoAvInt0Vbnc,
            15 => CmuAtbSel::LdoAvInt0Vbn,
            16 => CmuAtbSel::LdoAvInt1Av,
            17 => CmuAtbSel::LdoAvFra0Av,
            18 => CmuAtbSel::LdoAvFra0Vbpc,
            19 => CmuAtbSel::LdoAvFra0Vbp,
            20 => CmuAtbSel::LdoAvFra0Vbnc,
            21 => CmuAtbSel::LdoAvFra0Vbn,
            22 => CmuAtbSel::LdoAvFra1Av,
            23 => CmuAtbSel::LdoAvFra2Av,
            24 => CmuAtbSel::Int0IbCp,
            25 => CmuAtbSel::Int1IbCp,
            26 => CmuAtbSel::Fra0IbCp,
            27 => CmuAtbSel::Fra1IbCp,
            28 => CmuAtbSel::Fra2IbCp,
            _ => CmuAtbSel::Reserved,
        }
    }
}

/// DLL analog test selection.
#[derive(Clone, Copy, Debug, PartialEq, Eq, Structural)]
pub enum DllAtbSel {
    LockTest,
    Vbn,
    Vctrl,
    Vbp,
    Dvdd,
    LdoVfb,
    Icp,
    /// A bit pattern to which the hardware gives no meaning.
    Reserved,
}

impl DllAtbSel {
    /// The number that stands for this value in its register field. Of the
    /// numbers that stand for no other value, `Reserved` is written as the lowest.
    pub open spec fn code(self) -> int {
        match self {
            Self::LockTest => 0,
            Self::Vbn => 1,
            Self::Vctrl => 2,
            Self::Vbp => 3,
            Self::Dvdd => 4,
            Self::LdoVfb => 5,
            Self::Icp => 6,
            Self::Reserved => 7,
        }
    }

    /// The value that `code` stands for: `Reserved`, where it stands for none.
    pub open spec fn decode(code: int) -> Self {
        if code == 0 {
            Self::LockTest
        } else if code == 1 {
            Self::Vbn
        } else if code == 2 {
            Self::Vctrl
        } else if code == 3 {
            Self::Vbp
        } else if code == 4 {
            Self::Dvdd
        } else if code == 5 {
            Self::LdoVfb
        } else if code == 6 {
            Self::Icp
        } else {
            Self::Reserved
        }
    }

    /// Whether `code` stands for a value other than `Reserved`.
    pub open spec fn is_code(code: int) -> bool {
        0 <= code <= 6
    }
}

/// ATB_DLL_TOP_C register.
#[derive(Clone, Copy, Debug, PartialEq, Eq, PartialOrd, Ord, Hash, Structural)]
pub struct AtbDllTopC(pub u32);

impl AtbDllTopC {
    const DLL1_ATB_SEL: u32 = 0x7000;
    const DLL1_EN_ATB: u32 = 0x100;
    const DLL0_ATB_SEL: u32 = 0x70;
    const DLL0_EN_ATB: u32 = 0x1;

    /// Set dll1 analog test selection (`DLL1_ATB_SEL`).
    #[inline]
    pub fn set_dll1_atb_sel(self, sel: DllAtbSel) -> (r: Self)
        ensures
            r.0 == with_field(self.0, 12, 3, sel.code()),
            field(r.0, 12, 3) == sel.code(),
            DllAtbSel::decode(field(r.0, 12, 3)) == sel,
            rest_is_kept(self.0, r.0, 12, 3),
    {
        proof {
            lemma_write(self.0, Self::DLL1_ATB_SEL, 12, 3, sel as u32);
        }
        Self((self.0 & !Self::DLL1_ATB_SEL) | (Self::DLL1_ATB_SEL & ((sel as u32) << 12)))
    }

    /// Get dll1 analog test selection.
    #[inline]
    pub fn dll1_atb_sel(self) -> (r: DllAtbSel)
        ensures
            r == DllAtbSel::decode(field(self.0, 12, 3)),
            DllAtbSel::is_code(field(self.0, 12, 3)) ==> r.code() == field(self.0, 12, 3),
    {
        proof {
            lemma_read(self.0, Self::DLL1_ATB_SEL, 12, 3);
        }
        match (self.0 & Self::DLL1_ATB_SEL) >> 12 {
            0 => DllAtbSel::LockTest,
            1 => DllAtbSel::Vbn,
            2 => DllAtbSel::Vctrl,
            3 => DllAtbSel::Vbp,
            4 => DllAtbSel::Dvdd,
            5 => DllAtbSel::LdoVfb,
            6 => DllAtbSel::Icp,
            _ => DllAtbSel::Reserved,
        }
    }

    /// Enable dll1 analog test (`DLL1_EN_ATB`).
    #[inline]
    pub fn enable_dll1_atb(self) -> (r: Self)
        ensures
            r.0 == with_flag(self.0, 8, true),
            flag(r.0, 8),
            rest_is_kept(self.0, r.0, 8, 1),
    {
        proof {
            lemma_set(self.0, Self::DLL1_EN_ATB, 8, 1);
        }
        Self(self.0 | Self::DLL1_EN_ATB)
    }

    /// Disable dll1 analog test.
    #[inline]
    pub fn disable_dll1_atb(self) -> (r: Self)
        ensures
            r.0 == with_flag(self.0, 8, false),
            !flag(r.0, 8),
            rest_is_kept(self.0, r.0, 8, 1),
    {
        proof {
            lemma_clear(self.0, Self::DLL1_EN_ATB, 8, 1);
        }
        Self(self.0 & !Self::DLL1_EN_ATB)
    }

    /// Check if dll1 analog test is enabled.
    #[inline]
    pub fn is_dll1_atb_enabled(self) -> (r: bool)
        ensures
            r == flag(self.0, 8),
    {
        proof {
            lemma_read(self.0, Self::DLL1_EN_ATB, 8, 1);
        }
        (self.0 & Self::DLL1_EN_ATB) != 0
    }

    /// Set dll0 analog test selection (`DLL0_ATB_SEL`).
    #[inline]
    pub fn set_dll0_atb_sel(self, sel: DllAtbSel) -> (r: Self)
        ensures
            r.0 == with_field(self.0, 4, 3, sel.code()),
            field(r.0, 4, 3) == sel.code(),
            DllAtbSel::decode(field(r.0, 4, 3)) == sel,
            rest_is_kept(self.0, r.0, 4, 3),
    {
        proof {
            lemma_write(self.0, Self::DLL0_ATB_SEL, 4, 3, sel as u32);
        }
        Self((self.0 & !Self::DLL0_ATB_SEL) | (Self::DLL0_ATB_SEL & ((sel as u32) << 4)))
    }

    /// Get dll0 analog test selection.
    #[inline]
    pub fn dll0_atb_sel(self) -> (r: DllAtbSel)
        ensures
            r == DllAtbSel::decode(field(self.0, 4, 3)),
            DllAtbSel::is_code(field(self.0, 4, 3)) ==> r.code() == field(self.0, 4, 3),
    {
        proof {
            lemma_read(self.0, Self::DLL0_ATB_SEL, 4, 3);
        }
        match (self.0 & Self::DLL0_ATB_SEL) >> 4 {
            0 => DllAtbSel::LockTest,
            1 => DllAtbSel::Vbn,
            2 => DllAtbSel::Vctrl,
            3 => DllAtbSel::Vbp,
            4 => DllAtbSel::Dvdd,
            5 => DllAtbSel::LdoVfb,
            6 => DllAtbSel::Icp,
            _ => DllAtbSel::Reserved,
        }
    }

    /// Enable dll0 analog test (`DLL0_EN_ATB`).
    #[inline]
    pub fn enable_dll0_atb(self) -> (r: Self)
        ensures
            r.0 == with_flag(self.0, 0, true),
            flag(r.0, 0),
            rest_is_kept(self.0, r.0, 0, 1),
    {
        proof {
            lemma_set(self.0, Self::DLL0_EN_ATB, 0, 1);
        }
        Self(self.0 | Self::DLL0_EN_ATB)
    }

    /// Disable dll0 analog test.
    #[inline]
    pub fn disable_dll0_atb(self) -> (r: Self)
        ensures
            r.0 == with_flag(self.0, 0, false),
            !flag(r.0, 0),
            rest_is_kept(self.0, r.0, 0, 1),
    {
        proof {
            lemma_clear(self.0, Self::DLL0_EN_ATB, 0, 1);
        }
        Self(self.0 & !Self::DLL0_EN_ATB)
    }

    /// Check if dll0 analog test is enabled.
    #[inline]
    pub fn is_dll0_atb_enabled(self) -> (r: bool)
        ensures
            r == flag(self.0, 0),
    {
        proof {
            lemma_read(self.0, Self::DLL0_EN_ATB, 0, 1);
        }
        (self.0 & Self::DLL0_EN_ATB) != 0
    }
}

/// Analog test selection 0.
#[derive(Clone, Copy, Debug, PartialEq, Eq, Structural)]
pub enum AtbSel0 {
    RtpVin,
    Vrefp,
    Vrefn,
    RtpTouch,
}

impl AtbSel0 {
    /// The number that stands for this value in its register field.
    pub open spec fn code(self) -> int {
        match self {
            Self::RtpVin => 0,
            Self::Vrefp => 1,
            Self::Vrefn => 2,
            Self::RtpTouch => 3,
        }
    }

    /// The value that `code` stands for. Every larger number is read as the
    /// last value.
    pub open spec fn decode(code: int) -> Self {
        if code == 0 {
            Self::RtpVin
        } else if code == 1 {
            Self::Vrefp
        } else if code == 2 {
            Self::Vrefn
        } else {
            Self::RtpTouch
        }
    }
}

/// ATB_GPADC register.
#[derive(Clone, Copy, Debug, PartialEq, Eq, PartialOrd, Ord, Hash, Structural)]
pub struct AtbGpadc(pub u32);

impl AtbGpadc {
    const ATB_SEL: u32 = 0x30;
    const ATB_EN: u32 = 0x1;

    /// Set analog test selection (`ATB_SEL`).
    #[inline]
    pub fn set_atb_sel(self, sel: AtbSel0) -> (r: Self)
        ensures
            r.0 == with_field(self.0, 4, 2, sel.code()),
            field(r.0, 4, 2) == sel.code(),
            AtbSel0::decode(field(r.0, 4, 2)) == sel,
            rest_is_kept(self.0, r.0, 4, 2),
    {
        proof {
            lemma_write(self.0, Self::ATB_SEL, 4, 2, sel as u32);
        }
        Self((self.0 & !Self::ATB_SEL) | (Self::ATB_SEL & ((sel as u32) << 4)))
    }

    /// Get analog test selection.
    #[inline]
    pub fn atb_sel(self) -> (r: AtbSel0)
        ensures
            r == AtbSel0::decode(field(self.0, 4, 2)),
            r.code() == field(self.0, 4, 2),
    {
        proof {
            lemma_read(self.0, Self::ATB_SEL, 4, 2);
        }
        match (self.0 & Self::ATB_SEL) >> 4 {
            0 => AtbSel0::RtpVin,
            1 => AtbSel0::Vrefp,
            2 => AtbSel0::Vrefn,
            3 => AtbSel0::RtpTouch,
            _ => unreached(),
        }
    }

    /// Enable analog test (`ATB_EN`).
    #[inline]
    pub fn enable_atb(self) -> (r: Self)
        ensures
            r.0 == with_flag(self.0, 0, true),
            flag(r.0, 0),
            rest_is_kept(self.0, r.0, 0, 1),
    {
        proof {
            lemma_set(self.0, Self::ATB_EN, 0, 1);
        }
        Self(self.0 | Self::ATB_EN)
    }

    /// Disable analog test.
    #[inline]
    pub fn disable_atb(self) -> (r: Self)
        ensures
            r.0 == with_flag(self.0, 0, false),
            !flag(r.0, 0),
            rest_is_kept(self.0, r.0, 0, 1),
    {
        proof {
            lemma_clear(self.0, Self::ATB_EN, 0, 1);
        }
        Self(self.0 & !Self::ATB_EN)
    }

    /// Check if analog test is enabled.
    #[inline]
    pub fn is_atb_enabled(self) -> (r: bool)
        ensures
            r == flag(self.0, 0),
    {
        proof {
            lemma_read(self.0, Self::ATB_EN, 0, 1);
        }
        (self.0 & Self::ATB_EN) != 0
    }
}

/// Analog test selection 1.
#[derive(Clone, Copy, Debug, PartialEq, Eq, Structural)]
pub enum AtbSel1 {
    VresAtb,
    Ipn5uAtb,
    V0p4Atb,
    Vpck,
}

impl AtbSel1 {
    /// The number that stands for this value in its register field.
    pub open spec fn code(self) -> int {
        match self {
            Self::VresAtb => 0,
            Self::Ipn5uAtb => 1,
            Self::V0p4Atb => 2,
            Self::Vpck => 3,
        }
    }

    /// The value that `code` stands for. Every larger number is read as the
    /// last value.
    pub open spec fn decode(code: int) -> Self {
        if code == 0 {
            Self::VresAtb
        } else if code == 1 {
            Self::Ipn5uAtb
        } else if code == 2 {
            Self::V0p4Atb
        } else {
            Self::Vpck
        }
    }
}

/// ATB_MIPI_DPHY register.
#[derive(Clone, Copy, Debug, PartialEq, Eq, PartialOrd, Ord, Hash, Structural)]
pub struct AtbMipiDphy(pub u32);

impl AtbMipiDphy {
    const ATB_SEL: u32 = 0x30;
    const ATB_EN: u32 = 0x1;

    /// Set analog test selection (`ATB_SEL`).
    #[inline]
    pub fn set_atb_sel(self, sel: AtbSel1) -> (r: Self)
        ensures
            r.0 == with_field(self.0, 4, 2, sel.code()),
            field(r.0, 4, 2) == sel.code(),
            AtbSel1::decode(field(r.0, 4, 2)) == sel,
            rest_is_kept(self.0, r.0, 4, 2),
    {
        proof {
            lemma_write(self.0, Self::ATB_SEL, 4, 2, sel as u32);
        }
        Self((self.0 & !Self::ATB_SEL) | (Self::ATB_SEL & ((sel as u32) << 4)))
    }

    /// Get analog test selection.
    #[inline]
    pub fn atb_sel(self) -> (r: AtbSel1)
        ensures
            r == AtbSel1::decode(field(self.0, 4, 2)),
            r.code() == field(self.0, 4, 2),
    {
        proof {
            lemma_read(self.0, Self::ATB_SEL, 4, 2);
        }
        match (self.0 & Self::ATB_SEL) >> 4 {
            0 => AtbSel1::VresAtb,
            1 => AtbSel1::Ipn5uAtb,
            2 => AtbSel1::V0p4Atb,
            3 => AtbSel1::Vpck,
            _ => unreached(),
        }
    }

    /// Enable analog test (`ATB_EN`).
    #[inline]
    pub fn enable_atb(self) -> (r: Self)
        ensures
            r.0 == with_flag(self.0, 0, true),
            flag(r.0, 0),
            rest_is_kept(self.0, r.0, 0, 1),
    {
        proof {
            lemma_set(self.0, Self::ATB_EN, 0, 1);
        }
        Self(self.0 | Self::ATB_EN)
    }

    /// Disable analog test.
    #[inline]
    pub fn disable_atb(self) -> (r: Self)
        ensures
            r.0 == with_flag(self.0, 0, false),
            !flag(r.0, 0),
            rest_is_kept(self.0, r.0, 0, 1),
    {
        proof {
            lemma_clear(self.0, Self::ATB_EN, 0, 1);
        }
        Self(self.0 & !Self::ATB_EN)
    }

    /// Check if analog test is enabled.
    #[inline]
    pub fn is_atb_enabled(self) -> (r: bool)
        ensures
            r == flag(self.0, 0),
    {
        proof {
            lemma_read(self.0, Self::ATB_EN, 0, 1);
        }
        (self.0 & Self::ATB_EN) != 0
    }
}

/// Analog test selection 2.
#[derive(Clone, Copy, Debug, PartialEq, Eq, Structural)]
pub enum AtbSel2 {
    VrefOut,
    Vosc,
    IbpIbas,
    IbpVdet,
}

impl AtbSel2 {
    /// The number that stands for this value in its register field.
    pub open spec fn code(self) -> int {
        match self {
            Self::VrefOut => 0,
            Self::Vosc => 1,
            Self::IbpIbas => 2,
            Self::IbpVdet => 3,
        }
    }

    /// The value that `code` stands for. Every larger number is read as the
    /// last value.
    pub open spec fn decode(code: int) -> Self {
        if code == 0 {
            Self::VrefOut
        } else if code == 1 {
            Self::Vosc
        } else if code == 2 {
            Self::IbpIbas
        } else {
            Self::IbpVdet
        }
    }
}

/// ATB_RTC_ANA_TOP register.
#[derive(Clone, Copy, Debug, PartialEq, Eq, PartialOrd, Ord, Hash, Structural)]
pub struct AtbRtcAnaTop(pub u32);

impl AtbRtcAnaTop {
    const ATB_SEL: u32 = 0x30;
    const ATB_EN: u32 = 0x1;

    /// Set analog test selection (`ATB_SEL`).
    #[inline]
    pub fn set_atb_sel(self, sel: AtbSel2) -> (r: Self)
        ensures
            r.0 == with_field(self.0, 4, 2, sel.code()),
            field(r.0, 4, 2) == sel.code(),
            AtbSel2::decode(field(r.0, 4, 2)) == sel,
            rest_is_kept(self.0, r.0, 4, 2),
    {
        proof {
            lemma_write(self.0, Self::ATB_SEL, 4, 2, sel as u32);
        }
        Self((self.0 & !Self::ATB_SEL) | (Self::ATB_SEL & ((sel as u32) << 4)))
    }

    /// Get analog test selection.
    #[inline]
    pub fn atb_sel(self) -> (r: AtbSel2)
        ensures
            r == AtbSel2::decode(field(self.0, 4, 2)),
            r.code() == field(self.0, 4, 2),
    {
        proof {
            lemma_read(self.0, Self::ATB_SEL, 4, 2);
        }
        match (self.0 & Self::ATB_SEL) >> 4 {
            0 => AtbSel2::VrefOut,
            1 => AtbSel2::Vosc,
            2 => AtbSel2::IbpIbas,
            3 => AtbSel2::IbpVdet,
            _ => unreached(),
        }
    }

    /// Enable analog test (`ATB_EN`).
    #[inline]
    pub fn enable_atb(self) -> (r: Self)
        ensures
            r.0 == with_flag(self.0, 0, true),
            flag(r.0, 0),
            rest_is_kept(self.0, r.0, 0, 1),
    {
        proof {
            lemma_set(self.0, Self::ATB_EN, 0, 1);
        }
        Self(self.0 | Self::ATB_EN)
    }

    /// Disable analog test.
    #[inline]
    pub fn disable_atb(self) -> (r: Self)
        ensures
            r.0 == with_flag(self.0, 0, false),
            !flag(r.0, 0),
            rest_is_kept(self.0, r.0, 0, 1),
    {
        proof {
            lemma_clear(self.0, Self::ATB_EN, 0, 1);
        }
        Self(self.0 & !Self::ATB_EN)
    }

    /// Check if analog test is enabled.
    #[inline]
    pub fn is_atb_enabled(self) -> (r: bool)
        ensures
            r == flag(self.0, 0),
    {
        proof {
            lemma_read(self.0, Self::ATB_EN, 0, 1);
        }
        (self.0 & Self::ATB_EN) != 0
    }
}

/// Subpll analog test selection.
#[derive(Clone, Copy, Debug, PartialEq, Eq, Structural)]
pub enum SubpllAtb {
    Disable,
    VbiasVbp,
    VbiasVbpc,
    VbiasVbn,
    VbiasVbnc,
    VbiasVfbb,
    LdoDvDv,
    LdoDvVbpc,
    LdoDvVbp,
    LdoDvVbnc,
    LdoDvVbn,
    LdoAvInt0Av,
    LdoAvInt0Vbpc,
    LdoAvInt0Vbp,
    LdoAvInt0Vbnc,
    LdoAvInt0Vbn,
    Int0IbCp,
    /// A bit pattern to which the hardware gives no meaning.
    Reserved,
}

impl SubpllAtb {
    /// The number that stands for this value in its register field. Of the
    /// numbers that stand for no other value, `Reserved` is written as the lowest.
    pub open spec fn code(self) -> int {
        match self {
            Self::Disable => 0,
            Self::VbiasVbp => 1,
            Self::VbiasVbpc => 2,
            Self::VbiasVbn => 3,
            Self::VbiasVbnc => 4,
            Self::VbiasVfbb => 5,
            Self::LdoDvDv => 6,
            Self::LdoDvVbpc => 7,
            Self::LdoDvVbp => 8,
            Self::LdoDvVbnc => 9,
            Self::LdoDvVbn => 10,
            Self::LdoAvInt0Av => 11,
            Self::LdoAvInt0Vbpc => 12,
            Self::LdoAvInt0Vbp => 13,
            Self::LdoAvInt0Vbnc => 14,
            Self::LdoAvInt0Vbn => 15,
            Self::Int0IbCp => 16,
            Self::Reserved => 17,
        }
    }

    /// The value that `code` stands for: `Reserved`, where it stands for none.
    pub open spec fn decode(code: int) -> Self {
        if code == 0 {
            Self::Disable
        } else if code == 1 {
            Self::VbiasVbp
        } else if code == 2 {
            Self::VbiasVbpc
        } else if code == 3 {
            Self::VbiasVbn
        } else if code == 4 {
            Self::VbiasVbnc
        } else if code == 5 {
            Self::VbiasVfbb
        } else if code == 6 {
            Self::LdoDvDv
        } else if code == 7 {
            Self::LdoDvVbpc
        } else if code == 8 {
            Self::LdoDvVbp
        } else if code == 9 {
            Self::LdoDvVbnc
        } else if code == 10 {
            Self::LdoDvVbn
        } else if code == 11 {
            Self::LdoAvInt0Av
        } else if code == 12 {
            Self::LdoAvInt0Vbpc
        } else if code == 13 {
            Self::LdoAvInt0Vbp
        } else if code == 14 {
            Self::LdoAvInt0Vbnc
        } else if code == 15 {
            Self::LdoAvInt0Vbn
        } else if code == 16 {
            Self::Int0IbCp
        } else {
            Self::Reserved
        }
    }

    /// Whether `code` stands for a value other than `Reserved`.
    pub open spec fn is_code(code: int) -> bool {
        0 <= code <= 16
    }
}

/// ATB_USB_PLL_AFE register.
#[derive(Clone, Copy, Debug, PartialEq, Eq, PartialOrd, Ord, Hash, Structural)]
pub struct AtbUsbPllAfe(pub u32);

impl AtbUsbPllAfe {
    const SUBPLL_ATB: u32 = 0x1F;

    /// Set subpll analog test selection (`SUBPLL_ATB`).
    #[inline]
    pub fn set_subpll_atb(self, sel: SubpllAtb) -> (r: Self)
        ensures
            r.0 == with_field(self.0, 0, 5, sel.code()),
            field(r.0, 0, 5) == sel.code(),
            SubpllAtb::decode(field(r.0, 0, 5)) == sel,
            rest_is_kept(self.0, r.0, 0, 5),
    {
        proof {
            lemma_write(self.0, Self::SUBPLL_ATB, 0, 5, sel as u32);
        }
        Self((self.0 & !Self::SUBPLL_ATB) | (Self::SUBPLL_ATB & (sel as u32)))
    }

    /// Get subpll analog test selection.
    #[inline]
    pub fn subpll_atb(self) -> (r: SubpllAtb)
        ensures
            r == SubpllAtb::decode(field(self.0, 0, 5)),
            SubpllAtb::is_code(field(self.0, 0, 5)) ==> r.code() == field(self.0, 0, 5),
    {
        proof {
            lemma_read(self.0, Self::SUBPLL_ATB, 0, 5);
        }
        match self.0 & Self::SUBPLL_ATB {
            0 => SubpllAtb::Disable,
            1 => SubpllAtb::VbiasVbp,
            2 => SubpllAtb::VbiasVbpc,
            3 => SubpllAtb::VbiasVbn,
            4 => SubpllAtb::VbiasVbnc,
            5 => SubpllAtb::VbiasVfbb,
            6 => SubpllAtb::LdoDvDv,
            7 => SubpllAtb::LdoDvVbpc,
            8 => SubpllAtb::LdoDvVbp,
            9 => SubpllAtb::LdoDvVbnc,
            10 => SubpllAtb::LdoDvVbn,
            11 => SubpllAtb::LdoAvInt0Av,
            12 => SubpllAtb::LdoAvInt0Vbpc,
            13 => SubpllAtb::LdoAvInt0Vbp,
            14 => SubpllAtb::LdoAvInt0Vbnc,
            15 => SubpllAtb::LdoAvInt0Vbn,
            16 => SubpllAtb::Int0IbCp,
            _ => SubpllAtb::Reserved,
        }
    }
}

/// SQRX analog test selection.
///
/// The variants are not numbered by their codes: `bits` gives the code of a
/// value, a cast does not.
#[derive(Clone, Copy, Debug, PartialEq, Eq, Structural)]
pub enum SqrxTestSel {
    SqOffsetP,
    SqOffsetM,
    Dp,
    Dm,
}

impl SqrxTestSel {
    /// The number that stands for this value in its register field.
    pub open spec fn code(self) -> int {
        match self {
            Self::SqOffsetP => 0x1,
            Self::SqOffsetM => 0x2,
            Self::Dp => 0x8,
            Self::Dm => 0x10,
        }
    }

    /// The position, within its register field, of the one bit that stands for
    /// this value.
    pub open spec fn bit(self) -> u32 {
        match self {
            Self::SqOffsetP => 0,
            Self::SqOffsetM => 1,
            Self::Dp => 3,
            Self::Dm => 4,
        }
    }

    /// The number that stands for this value in its register field.
    #[inline]
    pub fn bits(self) -> (r: u32)
        ensures
            r == self.code(),
    {
        match self {
            Self::SqOffsetP => 0x1,
            Self::SqOffsetM => 0x2,
            Self::Dp => 0x8,
            Self::Dm => 0x10,
        }
    }
}

/// TX analog test selection.
#[derive(Clone, Copy, Debug, PartialEq, Eq, Structural)]
pub enum TxTestSel {
    /// Atb_op and avdd_atb output.
    AtbOpAvddAtb,
    /// Vref.
    Vref,
    /// Vreg.
    Vreg,
    /// Rtune.
    Rtune,
}

impl TxTestSel {
    /// The number that stands for this value in its register field.
    pub open spec fn code(self) -> int {
        match self {
            Self::AtbOpAvddAtb => 0,
            Self::Vref => 1,
            Self::Vreg => 2,
            Self::Rtune => 3,
        }
    }

    /// The value that `code` stands for. Every larger number is read as the
    /// last value.
    pub open spec fn decode(code: int) -> Self {
        if code == 0 {
            Self::AtbOpAvddAtb
        } else if code == 1 {
            Self::Vref
        } else if code == 2 {
            Self::Vreg
        } else {
            Self::Rtune
        }
    }
}

/// ATB_USB_PHY_AFE register.
#[derive(Clone, Copy, Debug, PartialEq, Eq, PartialOrd, Ord, Hash, Structural)]
pub struct AtbUsbPhyAfe(pub u32);

impl AtbUsbPhyAfe {
    const SQRX_TEST: u32 = 0x1F00;
    const TX_TEST: u32 = 0x30;
    const ATB_OP: u32 = 0x2;
    const AVDD_ATB: u32 = 0x1;

    /// Enable sqrx (`SQRX_TEST`).
    #[inline]
    pub fn enable_sqrx(self, sel: SqrxTestSel) -> (r: Self)
        ensures
            r.0 == with_flag(self.0, (8 + sel.bit()) as u32, true),
            flag(r.0, (8 + sel.bit()) as u32),
            rest_is_kept(self.0, r.0, (8 + sel.bit()) as u32, 1),
    {
        proof {
            lemma_write(self.0, Self::SQRX_TEST, 8, 5, sel.code() as u32);
            lemma_set(
                self.0,
                Self::SQRX_TEST & ((sel.code() as u32) << 8),
                (8 + sel.bit()) as u32,
                1,
            );
        }
        Self(self.0 | (Self::SQRX_TEST & (sel.bits() << 8)))
    }

    /// Disable sqrx.
    #[inline]
    pub fn disable_sqrx(self, sel: SqrxTestSel) -> (r: Self)
        ensures
            r.0 == with_flag(self.0, (8 + sel.bit()) as u32, false),
            !flag(r.0, (8 + sel.bit()) as u32),
            rest_is_kept(self.0, r.0, (8 + sel.bit()) as u32, 1),
    {
        proof {
            lemma_write(self.0, Self::SQRX_TEST, 8, 5, sel.code() as u32);
            lemma_clear(
                self.0,
                Self::SQRX_TEST & ((sel.code() as u32) << 8),
                (8 + sel.bit()) as u32,
                1,
            );
        }
        Self(self.0 & !(Self::SQRX_TEST & (sel.bits() << 8)))
    }

    /// Check if sqrx is enabled.
    #[inline]
    pub fn is_sqrx_enabled(self, sel: SqrxTestSel) -> (r: bool)
        ensures
            r == flag(self.0, (8 + sel.bit()) as u32),
    {
        proof {
            lemma_write(self.0, Self::SQRX_TEST, 8, 5, sel.code() as u32);
            lemma_read(
                self.0,
                Self::SQRX_TEST & ((sel.code() as u32) << 8),
                (8 + sel.bit()) as u32,
                1,
            );
        }
        (self.0 & (Self::SQRX_TEST & (sel.bits() << 8))) != 0
    }

    #[inline]
    pub fn set_tx_test_sel(self, sel: TxTestSel) -> (r: Self)
        ensures
            r.0 == with_field(self.0, 4, 2, sel.code()),
            field(r.0, 4, 2) == sel.code(),
            TxTestSel::decode(field(r.0, 4, 2)) == sel,
            rest_is_kept(self.0, r.0, 4, 2),
    {
        proof {
            lemma_write(self.0, Self::TX_TEST, 4, 2, sel as u32);
        }
        Self((self.0 & !Self::TX_TEST) | (Self::TX_TEST & ((sel as u32) << 4)))
    }

    /// Get tx analog test selection.
    #[inline]
    pub fn tx_test_sel(self) -> (r: TxTestSel)
        ensures
            r == TxTestSel::decode(field(self.0, 4, 2)),
            r.code() == field(self.0, 4, 2),
    {
        proof {
            lemma_read(self.0, Self::TX_TEST, 4, 2);
        }
        match (self.0 & Self::TX_TEST) >> 4 {
            0 => TxTestSel::AtbOpAvddAtb,
            1 => TxTestSel::Vref,
            2 => TxTestSel::Vreg,
            3 => TxTestSel::Rtune,
            _ => unreached(),
        }
    }

    /// Enable ldo power transistor gate voltage test (`ATB_OP`).
    #[inline]
    pub fn enable_atb_op(self) -> (r: Self)
        ensures
            r.0 == with_flag(self.0, 1, true),
            flag(r.0, 1),
            rest_is_kept(self.0, r.0, 1, 1),
    {
        proof {
            lemma_set(self.0, Self::ATB_OP, 1, 1);
        }
        Self(self.0 | Self::ATB_OP)
    }

    /// Disable ldo power transistor gate voltage test.
    #[inline]
    pub fn disable_atb_op(self) -> (r: Self)
        ensures
            r.0 == with_flag(self.0, 1, false),
            !flag(r.0, 1),
            rest_is_kept(self.0, r.0, 1, 1),
    {
        proof {
            lemma_clear(self.0, Self::ATB_OP, 1, 1);
        }
        Self(self.0 & !Self::ATB_OP)
    }

    /// Check if ldo power transistor gate voltage test is enabled.
    #[inline]
    pub fn is_atb_op_enabled(self) -> (r: bool)
        ensures
            r == flag(self.0, 1),
    {
        proof {
            lemma_read(self.0, Self::ATB_OP, 1, 1);
        }
        (self.0 & Self::ATB_OP) != 0
    }

    /// Enable ldo output test (`AVDD_ATB`).
    #[inline]
    pub fn enable_avdd_atb(self) -> (r: Self)
        ensures
            r.0 == with_flag(self.0, 0, true),
            flag(r.0, 0),
            rest_is_kept(self.0, r.0, 0, 1),
    {
        proof {
            lemma_set(self.0, Self::AVDD_ATB, 0, 1);
        }
        Self(self.0 | Self::AVDD_ATB)
    }

    /// Disable ldo output test.
    #[inline]
    pub fn disable_avdd_atb(self) -> (r: Self)
        ensures
            r.0 == with_flag(self.0, 0, false),
            !flag(r.0, 0),
            rest_is_kept(self.0, r.0, 0, 1),
    {
        proof {
            lemma_clear(self.0, Self::AVDD_ATB, 0, 1);
        }
        Self(self.0 & !Self::AVDD_ATB)
    }

    /// Check if ldo output test is enabled.
    #[inline]
    pub fn is_avdd_atb_enabled(self) -> (r: bool)
        ensures
            r == flag(self.0, 0),
    {
        proof {
            lemma_read(self.0, Self::AVDD_ATB, 0, 1);
        }
        (self.0 & Self::AVDD_ATB) != 0
    }
}

} // verus!
