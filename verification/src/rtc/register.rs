//! Real Time Clock register blocks and registers.
use crate::bits::{
    field, flag, lemma_clear, lemma_read, lemma_set, lemma_write, rest_is_kept, with_field,
    with_flag,
};
use vstd::pervasive::{runtime_assert, unreached};
use vstd::prelude::*;

verus! {

/// RTC configuration register block.
///
/// Each field holds the address of the register of that name, or of the first
/// of them where several stand in a row.
#[derive(Clone, Copy, Debug, PartialEq, Eq, Structural)]
pub struct RegisterBlock {
    /// RTC control register (`RTC_CTL`).
    pub ctrl: usize,
    /// RTC initialization register (`RTC_INIT`).
    pub init: usize,
    /// RTC always on interrupt enable register (`RTC_AON_IRQ_EN`).
    pub aon_int_en: usize,
    /// RTC always on interrupt status register (`RTC_AON_IRQ_STA`).
    pub aon_int_status: usize,
    /// RTC time registers (`RTC_TIME`).
    pub time: usize,
    /// RTC alarm registers (`RTC_ALARM`).
    pub alarm: usize,
    /// RTC calibration 0 register (`RTC_CALI0`).
    pub cali0: usize,
    /// RTC calibration 1 register (`RTC_CALI1`).
    pub cali1: usize,
    /// RTC analog 0 register (`RTC_ANALOG0`).
    pub analog0: usize,
    /// RTC analog 1 register (`RTC_ANALOG1`).
    pub analog1: usize,
    /// RTC analog 2 register (`RTC_ANALOG2`).
    pub analog2: usize,
    /// RTC analog 3 register (`RTC_ANALOG3`).
    pub analog3: usize,
    /// RTC write key register (`RTC_WR_KEY`).
    pub write_key: usize,
    /// Boot info register (`BOOT_INFO`).
    pub boot_info: usize,
    /// System backup registers (`SYS_BAK`).
    pub sys_backup: usize,
    /// RTC time counter value register (`RTC_TCNT_VAL`).
    pub tcnt_val: usize,
    /// RTC 32K detect register (`RTC_32K_DET`).
    pub detect_32k: usize,
    /// RTC version register (`RTC_VER`).
    pub version: usize,
}

impl RegisterBlock {
    /// The number of bytes that the block takes up.
    pub const SIZE: usize = 0x900;

    /// Whether the fields are the addresses of the registers of the block that
    /// starts at `base`.
    pub open spec fn is_at(self, base: usize) -> bool {
        &&& self.ctrl == base + 0x0
        &&& self.init == base + 0x4
        &&& self.aon_int_en == base + 0x8
        &&& self.aon_int_status == base + 0xC
        &&& self.time == base + 0x20
        &&& self.alarm == base + 0x30
        &&& self.cali0 == base + 0x40
        &&& self.cali1 == base + 0x44
        &&& self.analog0 == base + 0x50
        &&& self.analog1 == base + 0x54
        &&& self.analog2 == base + 0x58
        &&& self.analog3 == base + 0x5C
        &&& self.write_key == base + 0xFC
        &&& self.boot_info == base + 0x100
        &&& self.sys_backup == base + 0x104
        &&& self.tcnt_val == base + 0x800
        &&& self.detect_32k == base + 0x804
        &&& self.version == base + 0x8FC
    }

    /// The block that starts at `base`.
    ///
    /// The registers follow one another in the order of the memory map, four
    /// bytes each, with the reserved ranges between them.
    pub fn at(base: usize) -> (r: Self)
        requires
            base + Self::SIZE - 1 <= usize::MAX,
        ensures
            r.is_at(base),
    {
        let ctrl: usize = base;
        let init: usize = ctrl + 4;
        let aon_int_en: usize = init + 4;
        let aon_int_status: usize = aon_int_en + 4;
        let time: usize = aon_int_status + 4 + 0x10;
        let alarm: usize = time + 4 * 4;
        let cali0: usize = alarm + 4 * 4;
        let cali1: usize = cali0 + 4;
        let analog0: usize = cali1 + 4 + 0x8;
        let analog1: usize = analog0 + 4;
        let analog2: usize = analog1 + 4;
        let analog3: usize = analog2 + 4;
        let write_key: usize = analog3 + 4 + 0x9C;
        let boot_info: usize = write_key + 4;
        let sys_backup: usize = boot_info + 4;
        let tcnt_val: usize = sys_backup + 15 * 4 + 0x6C0;
        let detect_32k: usize = tcnt_val + 4;
        let version: usize = detect_32k + 4 + 0xF4;
        Self {
            ctrl,
            init,
            aon_int_en,
            aon_int_status,
            time,
            alarm,
            cali0,
            cali1,
            analog0,
            analog1,
            analog2,
            analog3,
            write_key,
            boot_info,
            sys_backup,
            tcnt_val,
            detect_32k,
            version,
        }
    }
}

/// IO output selection.
#[derive(Clone, Copy, Debug, PartialEq, Eq, Structural)]
pub enum IoOutputSel {
    /// Disabled output (high impedance).
    Disabled,
    /// Enable output (active low).
    ActiveLow,
    /// Alarm triggered output (low on alarm).
    AlarmTrigger,
    /// 32.768kHz crystal clock output.
    ClockOutputs,
}

impl IoOutputSel {
    /// The number that stands for this value in its register field.
    pub open spec fn code(self) -> int {
        match self {
            Self::Disabled => 0,
            Self::ActiveLow => 1,
            Self::AlarmTrigger => 2,
            Self::ClockOutputs => 3,
        }
    }

    /// The value that `code` stands for. Every larger number is read as the
    /// last value.
    pub open spec fn decode(code: int) -> Self {
        if code == 0 {
            Self::Disabled
        } else if code == 1 {
            Self::ActiveLow
        } else if code == 2 {
            Self::AlarmTrigger
        } else {
            Self::ClockOutputs
        }
    }
}

/// RTC control register.
#[derive(Clone, Copy, Debug, PartialEq, Eq, PartialOrd, Ord, Hash, Structural)]
pub struct Control(pub u32);

impl Control {
    const RTC_IO_LEVEL: u32 = 0x80;
    const RTC_IO_IE: u32 = 0x40;
    const RTC_IO_SEL: u32 = 0x30;
    const ALARM_EN: u32 = 0x4;
    const TCNT_EN: u32 = 0x1;

    /// Get rtc io level (`RTC_IO_LEVEL`).
    #[inline]
    pub fn rtc_io_level(self) -> (r: bool)
        ensures
            r == flag(self.0, 7),
    {
        proof {
            lemma_read(self.0, Self::RTC_IO_LEVEL, 7, 1);
        }
        self.0 & Self::RTC_IO_LEVEL != 0
    }

    /// Enable rtc io input mode (`RTC_IO_IE`).
    #[inline]
    pub fn enable_rtc_io_input(self) -> (r: Self)
        ensures
            r.0 == with_flag(self.0, 6, true),
            flag(r.0, 6),
            rest_is_kept(self.0, r.0, 6, 1),
    {
        proof {
            lemma_set(self.0, Self::RTC_IO_IE, 6, 1);
        }
        Self(self.0 | Self::RTC_IO_IE)
    }

    /// Disable rtc io input mode.
    #[inline]
    pub fn disable_rtc_io_input(self) -> (r: Self)
        ensures
            r.0 == with_flag(self.0, 6, false),
            !flag(r.0, 6),
            rest_is_kept(self.0, r.0, 6, 1),
    {
        proof {
            lemma_clear(self.0, Self::RTC_IO_IE, 6, 1);
        }
        Self(self.0 & !Self::RTC_IO_IE)
    }

    /// Check if rtc io input mode is enabled.
    #[inline]
    pub fn is_rtc_io_input_enabled(self) -> (r: bool)
        ensures
            r == flag(self.0, 6),
    {
        proof {
            lemma_read(self.0, Self::RTC_IO_IE, 6, 1);
        }
        self.0 & Self::RTC_IO_IE != 0
    }

    /// Set rtc io output selection (`RTC_IO_SEL`).
    #[inline]
    pub fn set_rtc_io_output_selection(self, sel: IoOutputSel) -> (r: Self)
        ensures
            r.0 == with_field(self.0, 4, 2, sel.code()),
            field(r.0, 4, 2) == sel.code(),
            IoOutputSel::decode(field(r.0, 4, 2)) == sel,
            rest_is_kept(self.0, r.0, 4, 2),
    {
        proof {
            lemma_write(self.0, Self::RTC_IO_SEL, 4, 2, sel as u32);
        }
        Self((self.0 & !Self::RTC_IO_SEL) | (Self::RTC_IO_SEL & ((sel as u32) << 4)))
    }

    /// Get rtc io output selection.
    #[inline]
    pub fn rtc_io_output_selection(self) -> (r: IoOutputSel)
        ensures
            r == IoOutputSel::decode(field(self.0, 4, 2)),
            r.code() == field(self.0, 4, 2),
    {
        proof {
            lemma_read(self.0, Self::RTC_IO_SEL, 4, 2);
        }
        match (self.0 & Self::RTC_IO_SEL) >> 4 {
            0 => IoOutputSel::Disabled,
            1 => IoOutputSel::ActiveLow,
            2 => IoOutputSel::AlarmTrigger,
            3 => IoOutputSel::ClockOutputs,
            _ => unreached(),
        }
    }

    /// Enable alarm (`ALARM_EN`).
    #[inline]
    pub fn enable_alarm(self) -> (r: Self)
        ensures
            r.0 == with_flag(self.0, 2, true),
            flag(r.0, 2),
            rest_is_kept(self.0, r.0, 2, 1),
    {
        proof {
            lemma_set(self.0, Self::ALARM_EN, 2, 1);
        }
        Self(self.0 | Self::ALARM_EN)
    }

    /// Disable alarm.
    #[inline]
    pub fn disable_alarm(self) -> (r: Self)
        ensures
            r.0 == with_flag(self.0, 2, false),
            !flag(r.0, 2),
            rest_is_kept(self.0, r.0, 2, 1),
    {
        proof {
            lemma_clear(self.0, Self::ALARM_EN, 2, 1);
        }
        Self(self.0 & !Self::ALARM_EN)
    }

    /// Check if alarm is enabled.
    #[inline]
    pub fn is_alarm_enabled(self) -> (r: bool)
        ensures
            r == flag(self.0, 2),
    {
        proof {
            lemma_read(self.0, Self::ALARM_EN, 2, 1);
        }
        self.0 & Self::ALARM_EN != 0
    }

    /// Enable time counter (`TCNT_EN`).
    ///
    /// Each time `TCNT_EN` transitions from 0 to 1, the value of `TCNT_INIT` will be checked,
    /// and if it is 1, the value of `RTC_TIME` will be initialized into TCNT.
    #[inline]
    pub fn enable_time_cnt(self) -> (r: Self)
        ensures
            r.0 == with_flag(self.0, 0, true),
            flag(r.0, 0),
            rest_is_kept(self.0, r.0, 0, 1),
    {
        proof {
            lemma_set(self.0, Self::TCNT_EN, 0, 1);
        }
        Self(self.0 | Self::TCNT_EN)
    }

    /// Disable time counter.
    #[inline]
    pub fn disable_time_cnt(self) -> (r: Self)
        ensures
            r.0 == with_flag(self.0, 0, false),
            !flag(r.0, 0),
            rest_is_kept(self.0, r.0, 0, 1),
    {
        proof {
            lemma_clear(self.0, Self::TCNT_EN, 0, 1);
        }
        Self(self.0 & !Self::TCNT_EN)
    }

    /// Check if time counter is enabled.
    #[inline]
    pub fn is_time_cnt_enabled(self) -> (r: bool)
        ensures
            r == flag(self.0, 0),
    {
        proof {
            lemma_read(self.0, Self::TCNT_EN, 0, 1);
        }
        self.0 & Self::TCNT_EN != 0
    }
}

/// RTC initialization register.
#[derive(Clone, Copy, Debug, PartialEq, Eq, PartialOrd, Ord, Hash, Structural)]
pub struct Init(pub u32);

impl Init {
    const TCNT_INIT: u32 = 0x1;

    /// Set time counter initial bit (`TCNT_INIT`).
    #[inline]
    pub fn set_time_cnt_init(self, set: bool) -> (r: Self)
        ensures
            r.0 == with_flag(self.0, 0, set),
            flag(r.0, 0) == set,
            rest_is_kept(self.0, r.0, 0, 1),
    {
        proof {
            lemma_set(self.0, Self::TCNT_INIT, 0, 1);
            lemma_clear(self.0, Self::TCNT_INIT, 0, 1);
        }
        if set {
            Self(self.0 | Self::TCNT_INIT)
        } else {
            Self(self.0 & !Self::TCNT_INIT)
        }
    }

    /// Get time counter initial bit.
    #[inline]
    pub fn time_cnt_init(self) -> (r: bool)
        ensures
            r == flag(self.0, 0),
    {
        proof {
            lemma_read(self.0, Self::TCNT_INIT, 0, 1);
        }
        self.0 & Self::TCNT_INIT != 0
    }
}

/// RTC always on interrupt enable register.
#[derive(Clone, Copy, Debug, PartialEq, Eq, PartialOrd, Ord, Hash, Structural)]
pub struct AonIrqEnable(pub u32);

impl AonIrqEnable {
    const RTC_32K_ERR_IRQ_EN: u32 = 0x4;
    const ALARM_IRQ_EN: u32 = 0x1;

    /// Enable 32k clock error interrupt (`RTC_32K_ERR_IRQ_EN`).
    #[inline]
    pub fn enable_rtc_32k_err_irq(self) -> (r: Self)
        ensures
            r.0 == with_flag(self.0, 2, true),
            flag(r.0, 2),
            rest_is_kept(self.0, r.0, 2, 1),
    {
        proof {
            lemma_set(self.0, Self::RTC_32K_ERR_IRQ_EN, 2, 1);
        }
        Self(self.0 | Self::RTC_32K_ERR_IRQ_EN)
    }

    /// Disable 32k clock error interrupt.
    #[inline]
    pub fn disable_rtc_32k_err_irq(self) -> (r: Self)
        ensures
            r.0 == with_flag(self.0, 2, false),
            !flag(r.0, 2),
            rest_is_kept(self.0, r.0, 2, 1),
    {
        proof {
            lemma_clear(self.0, Self::RTC_32K_ERR_IRQ_EN, 2, 1);
        }
        Self(self.0 & !Self::RTC_32K_ERR_IRQ_EN)
    }

    /// Check if 32k clock error interrupt is enabled.
    #[inline]
    pub fn is_rtc_32k_err_irq_enabled(self) -> (r: bool)
        ensures
            r == flag(self.0, 2),
    {
        proof {
            lemma_read(self.0, Self::RTC_32K_ERR_IRQ_EN, 2, 1);
        }
        self.0 & Self::RTC_32K_ERR_IRQ_EN != 0
    }

    /// Enable alarm interrupt (`ALARM_IRQ_EN`).
    #[inline]
    pub fn enable_alarm_irq(self) -> (r: Self)
        ensures
            r.0 == with_flag(self.0, 0, true),
            flag(r.0, 0),
            rest_is_kept(self.0, r.0, 0, 1),
    {
        proof {
            lemma_set(self.0, Self::ALARM_IRQ_EN, 0, 1);
        }
        Self(self.0 | Self::ALARM_IRQ_EN)
    }

    /// Disable alarm interrupt.
    #[inline]
    pub fn disable_alarm_irq(self) -> (r: Self)
        ensures
            r.0 == with_flag(self.0, 0, false),
            !flag(r.0, 0),
            rest_is_kept(self.0, r.0, 0, 1),
    {
        proof {
            lemma_clear(self.0, Self::ALARM_IRQ_EN, 0, 1);
        }
        Self(self.0 & !Self::ALARM_IRQ_EN)
    }

    /// Check if alarm interrupt is enabled.
    #[inline]
    pub fn is_alarm_irq_enabled(self) -> (r: bool)
        ensures
            r == flag(self.0, 0),
    {
        proof {
            lemma_read(self.0, Self::ALARM_IRQ_EN, 0, 1);
        }
        self.0 & Self::ALARM_IRQ_EN != 0
    }
}

/// RTC always on interrupt status register.
#[derive(Clone, Copy, Debug, PartialEq, Eq, PartialOrd, Ord, Hash, Structural)]
pub struct AonIrqStatus(pub u32);

impl AonIrqStatus {
    const RTC_32K_ERR_IRQ_STA: u32 = 0x4;
    const RTC_IO_STA: u32 = 0x2;
    const ALARM_IRQ_STA: u32 = 0x1;

    /// Get 32k clock error interrupt status (`RTC_32K_ERR_IRQ_STA`).
    #[inline]
    pub fn rtc_32k_err_irq_status(self) -> (r: bool)
        ensures
            r == flag(self.0, 2),
    {
        proof {
            lemma_read(self.0, Self::RTC_32K_ERR_IRQ_STA, 2, 1);
        }
        self.0 & Self::RTC_32K_ERR_IRQ_STA != 0
    }

    /// Clear 32k clock error interrupt status.
    #[inline]
    pub fn clear_rtc_32k_err_irq_status(self) -> (r: Self)
        ensures
            r.0 == with_flag(self.0, 2, true),
            flag(r.0, 2),
            rest_is_kept(self.0, r.0, 2, 1),
    {
        proof {
            lemma_set(self.0, Self::RTC_32K_ERR_IRQ_STA, 2, 1);
        }
        Self(self.0 | Self::RTC_32K_ERR_IRQ_STA)
    }

    /// Get io enable status (`RTC_IO_STA`).
    ///
    /// RTC_IO is designed as an open-drain output and requires a pull-up resistor connected to the power supply.
    /// When this bit is set to 1, the output is enabled, meaning RTC_IO is at a low level.
    #[inline]
    pub fn rtc_io_enable_status(self) -> (r: bool)
        ensures
            r == flag(self.0, 1),
    {
        proof {
            lemma_read(self.0, Self::RTC_IO_STA, 1, 1);
        }
        self.0 & Self::RTC_IO_STA != 0
    }

    /// Clear io enable status.
    #[inline]
    pub fn clear_rtc_io_enable_status(self) -> (r: Self)
        ensures
            r.0 == with_flag(self.0, 1, true),
            flag(r.0, 1),
            rest_is_kept(self.0, r.0, 1, 1),
    {
        proof {
            lemma_set(self.0, Self::RTC_IO_STA, 1, 1);
        }
        Self(self.0 | Self::RTC_IO_STA)
    }

    /// Get alarm interrupt status (`ALARM_IRQ_STA`).
    #[inline]
    pub fn alarm_irq_status(self) -> (r: bool)
        ensures
            r == flag(self.0, 0),
    {
        proof {
            lemma_read(self.0, Self::ALARM_IRQ_STA, 0, 1);
        }
        self.0 & Self::ALARM_IRQ_STA != 0
    }

    /// Clear alarm interrupt status.
    #[inline]
    pub fn clear_alarm_irq_status(self) -> (r: Self)
        ensures
            r.0 == with_flag(self.0, 0, true),
            flag(r.0, 0),
            rest_is_kept(self.0, r.0, 0, 1),
    {
        proof {
            lemma_set(self.0, Self::ALARM_IRQ_STA, 0, 1);
        }
        Self(self.0 | Self::ALARM_IRQ_STA)
    }
}

/// RTC time register.
#[derive(Clone, Copy, Debug, PartialEq, Eq, PartialOrd, Ord, Hash, Structural)]
pub struct Time(pub u32);

impl Time {
    const TIME_SET: u32 = 0xFF;

    /// Set time value.
    #[inline]
    pub fn set_time(self, value: u8) -> (r: Self)
        ensures
            r.0 == with_field(self.0, 0, 8, value as int),
            field(r.0, 0, 8) == value,
            rest_is_kept(self.0, r.0, 0, 8),
    {
        proof {
            lemma_write(self.0, Self::TIME_SET, 0, 8, value as u32);
        }
        Self((self.0 & !Self::TIME_SET) | (Self::TIME_SET & value as u32))
    }

    /// Get time value.
    #[inline]
    pub fn time(self) -> (r: u8)
        ensures
            r == field(self.0, 0, 8),
    {
        proof {
            lemma_read(self.0, Self::TIME_SET, 0, 8);
        }
        (self.0 & Self::TIME_SET) as u8
    }
}

/// RTC alarm register.
#[derive(Clone, Copy, Debug, PartialEq, Eq, PartialOrd, Ord, Hash, Structural)]
pub struct Alarm(pub u32);

impl Alarm {
    const ALARM_SET: u32 = 0xFF;

    /// Set alarm value.
    #[inline]
    pub fn set_alarm(self, value: u8) -> (r: Self)
        ensures
            r.0 == with_field(self.0, 0, 8, value as int),
            field(r.0, 0, 8) == value,
            rest_is_kept(self.0, r.0, 0, 8),
    {
        proof {
            lemma_write(self.0, Self::ALARM_SET, 0, 8, value as u32);
        }
        Self((self.0 & !Self::ALARM_SET) | (Self::ALARM_SET & value as u32))
    }

    /// Get alarm value.
    #[inline]
    pub fn alarm(self) -> (r: u8)
        ensures
            r == field(self.0, 0, 8),
    {
        proof {
            lemma_read(self.0, Self::ALARM_SET, 0, 8);
        }
        (self.0 & Self::ALARM_SET) as u8
    }
}

/// RTC calibration 0 register.
#[derive(Clone, Copy, Debug, PartialEq, Eq, PartialOrd, Ord, Hash, Structural)]
pub struct Calibration0(pub u32);

impl Calibration0 {
    const CALI_VAL: u32 = 0xFF;

    /// Set calibration low value (`CALI_VAL`).
    ///
    /// The calibration time is `CALI_VAL` × 1 ppm.
    #[inline]
    pub fn set_cali_value_low(self, value: u8) -> (r: Self)
        ensures
            r.0 == with_field(self.0, 0, 8, value as int),
            field(r.0, 0, 8) == value,
            rest_is_kept(self.0, r.0, 0, 8),
    {
        proof {
            lemma_write(self.0, Self::CALI_VAL, 0, 8, value as u32);
        }
        Self((self.0 & !Self::CALI_VAL) | (Self::CALI_VAL & value as u32))
    }

    /// Get calibration low value.
    #[inline]
    pub fn cali_value_low(self) -> (r: u8)
        ensures
            r == field(self.0, 0, 8),
    {
        proof {
            lemma_read(self.0, Self::CALI_VAL, 0, 8);
        }
        (self.0 & Self::CALI_VAL) as u8
    }
}

/// Calibration direction.
#[derive(Clone, Copy, Debug, PartialEq, Eq, Structural)]
pub enum CaliDirection {
    /// Decrease time.
    Decrease,
    /// Increase time.
    Increase,
}

impl CaliDirection {
    /// The number that stands for this value in its register field.
    pub open spec fn code(self) -> int {
        match self {
            Self::Decrease => 0,
            Self::Increase => 1,
        }
    }

    /// The value that `code` stands for. Every larger number is read as the
    /// last value.
    pub open spec fn decode(code: int) -> Self {
        if code == 0 {
            Self::Decrease
        } else {
            Self::Increase
        }
    }
}

/// RTC calibration 1 register.
#[derive(Clone, Copy, Debug, PartialEq, Eq, PartialOrd, Ord, Hash, Structural)]
pub struct Calibration1(pub u32);

impl Calibration1 {
    const CALI_DIR: u32 = 0x80;
    const CALI_VAL: u32 = 0x3;

    /// Set calibration direction (`CALI_DIR`).
    #[inline]
    pub fn set_cali_direction(self, direction: CaliDirection) -> (r: Self)
        ensures
            r.0 == with_field(self.0, 7, 1, direction.code()),
            field(r.0, 7, 1) == direction.code(),
            CaliDirection::decode(field(r.0, 7, 1)) == direction,
            rest_is_kept(self.0, r.0, 7, 1),
    {
        proof {
            lemma_write(self.0, Self::CALI_DIR, 7, 1, direction as u32);
        }
        Self((self.0 & !Self::CALI_DIR) | (Self::CALI_DIR & ((direction as u32) << 7)))
    }

    /// Get calibration direction.
    #[inline]
    pub fn cali_direction(self) -> (r: CaliDirection)
        ensures
            r == CaliDirection::decode(field(self.0, 7, 1)),
            r.code() == field(self.0, 7, 1),
    {
        proof {
            lemma_read(self.0, Self::CALI_DIR, 7, 1);
        }
        match (self.0 & Self::CALI_DIR) >> 7 {
            0 => CaliDirection::Decrease,
            1 => CaliDirection::Increase,
            _ => unreached(),
        }
    }

    /// Set calibration value high (`CALI_VAL`).
    ///
    /// The calibration time is `CALI_VAL` × 1 ppm.
    ///
    /// Aborts if `value` is not below `4`.
    #[inline]
    pub fn set_cali_value_high(self, value: u8) -> (r: Self)
        requires
            value < 4,
        ensures
            r.0 == with_field(self.0, 0, 2, value as int),
            field(r.0, 0, 2) == value,
            rest_is_kept(self.0, r.0, 0, 2),
    {
        runtime_assert(value < 4);
        proof {
            lemma_write(self.0, Self::CALI_VAL, 0, 2, value as u32);
        }
        Self((self.0 & !Self::CALI_VAL) | (Self::CALI_VAL & (value as u32)))
    }

    /// Get calibration value high.
    #[inline]
    pub fn cali_value_high(self) -> (r: u8)
        ensures
            r == field(self.0, 0, 2),
    {
        proof {
            lemma_read(self.0, Self::CALI_VAL, 0, 2);
        }
        (self.0 & Self::CALI_VAL) as u8
    }
}

/// RC1M reference voltage.
#[derive(Clone, Copy, Debug, PartialEq, Eq, Structural)]
pub enum Rc1mIsel {
    IBIAS,
    BG,
}

impl Rc1mIsel {
    /// The number that stands for this value in its register field.
    pub open spec fn code(self) -> int {
        match self {
            Self::IBIAS => 0,
            Self::BG => 1,
        }
    }

    /// The value that `code` stands for. Every larger number is read as the
    /// last value.
    pub open spec fn decode(code: int) -> Self {
        if code == 0 {
            Self::IBIAS
        } else {
            Self::BG
        }
    }
}

/// LDO 1.8v voltage selection.
#[derive(Clone, Copy, Debug, PartialEq, Eq, Structural)]
pub enum Ldo1P8Vol {
    /// 1.9V.
    V1_9,
    /// 1.8V.
    V1_8,
    /// 1.7V.
    V1_7,
    /// 1.6V.
    V1_6,
    /// 1.5V.
    V1_5,
    /// 1.4V.
    V1_4,
    /// 1.3V.
    V1_3,
    /// 1.2V.
    V1_2,
}

impl Ldo1P8Vol {
    /// The number that stands for this value in its register field.
    pub open spec fn code(self) -> int {
        match self {
            Self::V1_9 => 0,
            Self::V1_8 => 1,
            Self::V1_7 => 2,
            Self::V1_6 => 3,
            Self::V1_5 => 4,
            Self::V1_4 => 5,
            Self::V1_3 => 6,
            Self::V1_2 => 7,
        }
    }

    /// The value that `code` stands for. Every larger number is read as the
    /// last value.
    pub open spec fn decode(code: int) -> Self {
        if code == 0 {
            Self::V1_9
        } else if code == 1 {
            Self::V1_8
        } else if code == 2 {
            Self::V1_7
        } else if code == 3 {
            Self::V1_6
        } else if code == 4 {
            Self::V1_5
        } else if code == 5 {
            Self::V1_4
        } else if code == 6 {
            Self::V1_3
        } else {
            Self::V1_2
        }
    }
}

/// RTC analog 0 register.
#[derive(Clone, Copy, Debug, PartialEq, Eq, PartialOrd, Ord, Hash, Structural)]
pub struct Analog0(pub u32);

impl Analog0 {
    const RC1M_ISEL: u32 = 0x80;
    const RC1M_EN: u32 = 0x40;
    const LDO18_BYPASS: u32 = 0x10;
    const LDO18_VOL: u32 = 0xE;
    const LDO18_EN: u32 = 0x1;

    /// Set RC1M reference voltage selection (`RC1M_ISEL`).
    #[inline]
    pub fn set_rc1m_isel(self, isel: Rc1mIsel) -> (r: Self)
        ensures
            r.0 == with_field(self.0, 7, 1, isel.code()),
            field(r.0, 7, 1) == isel.code(),
            Rc1mIsel::decode(field(r.0, 7, 1)) == isel,
            rest_is_kept(self.0, r.0, 7, 1),
    {
        proof {
            lemma_write(self.0, Self::RC1M_ISEL, 7, 1, isel as u32);
        }
        Self((self.0 & !Self::RC1M_ISEL) | (Self::RC1M_ISEL & ((isel as u32) << 7)))
    }

    /// Get RC1M reference voltage selection.
    #[inline]
    pub fn rc1m_isel(self) -> (r: Rc1mIsel)
        ensures
            r == Rc1mIsel::decode(field(self.0, 7, 1)),
            r.code() == field(self.0, 7, 1),
    {
        proof {
            lemma_read(self.0, Self::RC1M_ISEL, 7, 1);
        }
        match (self.0 & Self::RC1M_ISEL) >> 7 {
            0 => Rc1mIsel::IBIAS,
            1 => Rc1mIsel::BG,
            _ => unreached(),
        }
    }

    /// Enable RC1M oscillator (`RC1M_EN`).
    #[inline]
    pub fn enable_rc1m(self) -> (r: Self)
        ensures
            r.0 == with_flag(self.0, 6, true),
            flag(r.0, 6),
            rest_is_kept(self.0, r.0, 6, 1),
    {
        proof {
            lemma_set(self.0, Self::RC1M_EN, 6, 1);
        }
        Self(self.0 | Self::RC1M_EN)
    }

    /// Disable RC1M oscillator.
    #[inline]
    pub fn disable_rc1m(self) -> (r: Self)
        ensures
            r.0 == with_flag(self.0, 6, false),
            !flag(r.0, 6),
            rest_is_kept(self.0, r.0, 6, 1),
    {
        proof {
            lemma_clear(self.0, Self::RC1M_EN, 6, 1);
        }
        Self(self.0 & !Self::RC1M_EN)
    }

    /// Check if RC1M oscillator is enabled.
    #[inline]
    pub fn is_rc1m_enabled(self) -> (r: bool)
        ensures
            r == flag(self.0, 6),
    {
        proof {
            lemma_read(self.0, Self::RC1M_EN, 6, 1);
        }
        (self.0 & Self::RC1M_EN) != 0
    }

    /// Enable ldo 1.8V bypass mode (`LDO18_BYPASS`).
    ///
    /// When enabled, the XTAL 32K operates in the VCC_RTC domain.
    #[inline]
    pub fn enable_ldo18_bypass(self) -> (r: Self)
        ensures
            r.0 == with_flag(self.0, 4, true),
            flag(r.0, 4),
            rest_is_kept(self.0, r.0, 4, 1),
    {
        proof {
            lemma_set(self.0, Self::LDO18_BYPASS, 4, 1);
        }
        Self(self.0 | Self::LDO18_BYPASS)
    }

    /// Disable ldo 1.8V bypass mode.
    #[inline]
    pub fn disable_ldo18_bypass(self) -> (r: Self)
        ensures
            r.0 == with_flag(self.0, 4, false),
            !flag(r.0, 4),
            rest_is_kept(self.0, r.0, 4, 1),
    {
        proof {
            lemma_clear(self.0, Self::LDO18_BYPASS, 4, 1);
        }
        Self(self.0 & !Self::LDO18_BYPASS)
    }

    /// Check if ldo 1.8V bypass mode is enabled.
    #[inline]
    pub fn is_ldo18_bypass_enabled(self) -> (r: bool)
        ensures
            r == flag(self.0, 4),
    {
        proof {
            lemma_read(self.0, Self::LDO18_BYPASS, 4, 1);
        }
        (self.0 & Self::LDO18_BYPASS) != 0
    }

    /// Set ldo 1.8V voltage selection (`LDO18_VOL`).
    #[inline]
    pub fn set_ldo18_vol(self, vol: Ldo1P8Vol) -> (r: Self)
        ensures
            r.0 == with_field(self.0, 1, 3, vol.code()),
            field(r.0, 1, 3) == vol.code(),
            Ldo1P8Vol::decode(field(r.0, 1, 3)) == vol,
            rest_is_kept(self.0, r.0, 1, 3),
    {
        proof {
            lemma_write(self.0, Self::LDO18_VOL, 1, 3, vol as u32);
        }
        Self((self.0 & !Self::LDO18_VOL) | (Self::LDO18_VOL & ((vol as u32) << 1)))
    }

    /// Get ldo 1.8V voltage selection.
    #[inline]
    pub fn ldo18_vol(self) -> (r: Ldo1P8Vol)
        ensures
            r == Ldo1P8Vol::decode(field(self.0, 1, 3)),
            r.code() == field(self.0, 1, 3),
    {
        proof {
            lemma_read(self.0, Self::LDO18_VOL, 1, 3);
        }
        match (self.0 & Self::LDO18_VOL) >> 1 {
            0 => Ldo1P8Vol::V1_9,
            1 => Ldo1P8Vol::V1_8,
            2 => Ldo1P8Vol::V1_7,
            3 => Ldo1P8Vol::V1_6,
            4 => Ldo1P8Vol::V1_5,
            5 => Ldo1P8Vol::V1_4,
            6 => Ldo1P8Vol::V1_3,
            7 => Ldo1P8Vol::V1_2,
            _ => unreached(),
        }
    }

    /// Enable ldo 1.8V (`LDO18_EN`).
    #[inline]
    pub fn enable_ldo18(self) -> (r: Self)
        ensures
            r.0 == with_flag(self.0, 0, true),
            flag(r.0, 0),
            rest_is_kept(self.0, r.0, 0, 1),
    {
        proof {
            lemma_set(self.0, Self::LDO18_EN, 0, 1);
        }
        Self(self.0 | Self::LDO18_EN)
    }

    /// Disable ldo 1.8V.
    #[inline]
    pub fn disable_ldo18(self) -> (r: Self)
        ensures
            r.0 == with_flag(self.0, 0, false),
            !flag(r.0, 0),
            rest_is_kept(self.0, r.0, 0, 1),
    {
        proof {
            lemma_clear(self.0, Self::LDO18_EN, 0, 1);
        }
        Self(self.0 & !Self::LDO18_EN)
    }

    /// Check if ldo 1.8V is enabled.
    #[inline]
    pub fn is_ldo18_enabled(self) -> (r: bool)
        ensures
            r == flag(self.0, 0),
    {
        proof {
            lemma_read(self.0, Self::LDO18_EN, 0, 1);
        }
        (self.0 & Self::LDO18_EN) != 0
    }
}

/// LDO 1.1v current selection.
#[derive(Clone, Copy, Debug, PartialEq, Eq, Structural)]
pub enum Ldo1P1CurSel {
    /// 0.5uA.
    I0_5uA,
    /// 1.0uA.
    I1_0uA,
    /// 2.0uA.
    I2_0uA,
    /// 3.0uA.
    I3_0uA,
}

impl Ldo1P1CurSel {
    /// The number that stands for this value in its register field.
    pub open spec fn code(self) -> int {
        match self {
            Self::I0_5uA => 0,
            Self::I1_0uA => 1,
            Self::I2_0uA => 2,
            Self::I3_0uA => 3,
        }
    }

    /// The value that `code` stands for. Every larger number is read as the
    /// last value.
    pub open spec fn decode(code: int) -> Self {
        if code == 0 {
            Self::I0_5uA
        } else if code == 1 {
            Self::I1_0uA
        } else if code == 2 {
            Self::I2_0uA
        } else {
            Self::I3_0uA
        }
    }
}

/// LDO 1.1V voltage selection.
#[derive(Clone, Copy, Debug, PartialEq, Eq, Structural)]
pub enum Ldo1P1Vol {
    /// 1.1V.
    V1_10,
    /// 1.05V.
    V1_05,
    /// 1.0V.
    V1_00,
    /// 0.95V.
    V0_95,
    /// 0.9V.
    V0_90,
    /// 0.85V.
    V0_85,
    /// 0.8V.
    V0_80,
    /// A bit pattern to which the hardware gives no meaning.
    Reserved,
}

impl Ldo1P1Vol {
    /// The number that stands for this value in its register field. Of the
    /// numbers that stand for no other value, `Reserved` is written as the lowest.
    pub open spec fn code(self) -> int {
        match self {
            Self::V1_10 => 0,
            Self::V1_05 => 1,
            Self::V1_00 => 2,
            Self::V0_95 => 3,
            Self::V0_90 => 4,
            Self::V0_85 => 5,
            Self::V0_80 => 6,
            Self::Reserved => 7,
        }
    }

    /// The value that `code` stands for: `Reserved`, where it stands for none.
    pub open spec fn decode(code: int) -> Self {
        if code == 0 {
            Self::V1_10
        } else if code == 1 {
            Self::V1_05
        } else if code == 2 {
            Self::V1_00
        } else if code == 3 {
            Self::V0_95
        } else if code == 4 {
            Self::V0_90
        } else if code == 5 {
            Self::V0_85
        } else if code == 6 {
            Self::V0_80
        } else {
            Self::Reserved
        }
    }

    /// Whether `code` stands for a value other than `Reserved`.
    pub open spec fn is_code(code: int) -> bool {
        0 <= code <= 6
    }
}

/// RTC analog 1 register.
#[derive(Clone, Copy, Debug, PartialEq, Eq, PartialOrd, Ord, Hash, Structural)]
pub struct Analog1(pub u32);

impl Analog1 {
    const PD_CUR_SEL: u32 = 0x60;
    const PD_CUR_EN: u32 = 0x10;
    const LDO11_VOL: u32 = 0xE;
    const LDO11_LPEN: u32 = 0x1;

    /// Set PD current selection (`PD_CUR_SEL`).
    #[inline]
    pub fn set_pd_cur_sel(self, sel: Ldo1P1CurSel) -> (r: Self)
        ensures
            r.0 == with_field(self.0, 5, 2, sel.code()),
            field(r.0, 5, 2) == sel.code(),
            Ldo1P1CurSel::decode(field(r.0, 5, 2)) == sel,
            rest_is_kept(self.0, r.0, 5, 2),
    {
        proof {
            lemma_write(self.0, Self::PD_CUR_SEL, 5, 2, sel as u32);
        }
        Self((self.0 & !Self::PD_CUR_SEL) | (Self::PD_CUR_SEL & ((sel as u32) << 5)))
    }

    /// Get ldo 1.1v current selection.
    #[inline]
    pub fn pd_cur_sel(self) -> (r: Ldo1P1CurSel)
        ensures
            r == Ldo1P1CurSel::decode(field(self.0, 5, 2)),
            r.code() == field(self.0, 5, 2),
    {
        proof {
            lemma_read(self.0, Self::PD_CUR_SEL, 5, 2);
        }
        match (self.0 & Self::PD_CUR_SEL) >> 5 {
            0 => Ldo1P1CurSel::I0_5uA,
            1 => Ldo1P1CurSel::I1_0uA,
            2 => Ldo1P1CurSel::I2_0uA,
            3 => Ldo1P1CurSel::I3_0uA,
            _ => unreached(),
        }
    }

    /// Enable ldo 1.1V (`PD_CUR_EN`).
    #[inline]
    pub fn enable_ldo11(self) -> (r: Self)
        ensures
            r.0 == with_flag(self.0, 4, true),
            flag(r.0, 4),
            rest_is_kept(self.0, r.0, 4, 1),
    {
        proof {
            lemma_set(self.0, Self::PD_CUR_EN, 4, 1);
        }
        Self(self.0 | Self::PD_CUR_EN)
    }

    /// Disable ldo 1.1V.
    #[inline]
    pub fn disable_ldo11(self) -> (r: Self)
        ensures
            r.0 == with_flag(self.0, 4, false),
            !flag(r.0, 4),
            rest_is_kept(self.0, r.0, 4, 1),
    {
        proof {
            lemma_clear(self.0, Self::PD_CUR_EN, 4, 1);
        }
        Self(self.0 & !Self::PD_CUR_EN)
    }

    /// Check if ldo 1.1V is enabled.
    #[inline]
    pub fn is_ldo11_enabled(self) -> (r: bool)
        ensures
            r == flag(self.0, 4),
    {
        proof {
            lemma_read(self.0, Self::PD_CUR_EN, 4, 1);
        }
        (self.0 & Self::PD_CUR_EN) != 0
    }

    /// Set ldo 1.1V voltage selection (`LDO11_VOL`).
    #[inline]
    pub fn set_ldo11_vol(self, vol: Ldo1P1Vol) -> (r: Self)
        ensures
            r.0 == with_field(self.0, 1, 3, vol.code()),
            field(r.0, 1, 3) == vol.code(),
            Ldo1P1Vol::decode(field(r.0, 1, 3)) == vol,
            rest_is_kept(self.0, r.0, 1, 3),
    {
        proof {
            lemma_write(self.0, Self::LDO11_VOL, 1, 3, vol as u32);
        }
        Self((self.0 & !Self::LDO11_VOL) | (Self::LDO11_VOL & ((vol as u32) << 1)))
    }

    /// Get ldo 1.1V voltage selection.
    #[inline]
    pub fn ldo11_vol(self) -> (r: Ldo1P1Vol)
        ensures
            r == Ldo1P1Vol::decode(field(self.0, 1, 3)),
            Ldo1P1Vol::is_code(field(self.0, 1, 3)) ==> r.code() == field(self.0, 1, 3),
    {
        proof {
            lemma_read(self.0, Self::LDO11_VOL, 1, 3);
        }
        match (self.0 & Self::LDO11_VOL) >> 1 {
            0 => Ldo1P1Vol::V1_10,
            1 => Ldo1P1Vol::V1_05,
            2 => Ldo1P1Vol::V1_00,
            3 => Ldo1P1Vol::V0_95,
            4 => Ldo1P1Vol::V0_90,
            5 => Ldo1P1Vol::V0_85,
            6 => Ldo1P1Vol::V0_80,
            _ => Ldo1P1Vol::Reserved,
        }
    }

    /// Enable ldo 1.1V low power mode (`LDO11_LPEN`).
    #[inline]
    pub fn enable_ldo11_lp(self) -> (r: Self)
        ensures
            r.0 == with_flag(self.0, 0, true),
            flag(r.0, 0),
            rest_is_kept(self.0, r.0, 0, 1),
    {
        proof {
            lemma_set(self.0, Self::LDO11_LPEN, 0, 1);
        }
        Self(self.0 | Self::LDO11_LPEN)
    }

    /// Disable ldo 1.1V low power mode.
    #[inline]
    pub fn disable_ldo11_lp(self) -> (r: Self)
        ensures
            r.0 == with_flag(self.0, 0, false),
            !flag(r.0, 0),
            rest_is_kept(self.0, r.0, 0, 1),
    {
        proof {
            lemma_clear(self.0, Self::LDO11_LPEN, 0, 1);
        }
        Self(self.0 & !Self::LDO11_LPEN)
    }

    /// Check if ldo 1.1V low power mode is enabled.
    #[inline]
    pub fn is_ldo11_lp_enabled(self) -> (r: bool)
        ensures
            r == flag(self.0, 0),
    {
        proof {
            lemma_read(self.0, Self::LDO11_LPEN, 0, 1);
        }
        (self.0 & Self::LDO11_LPEN) != 0
    }
}

#[derive(Debug, Clone, Copy, PartialEq, Eq, Structural)]
pub enum AtbSel {
    /// Internal reference voltage.
    Vref,
    /// Oscillator voltage.
    Vosc,
    /// Bandgap reference current (~20 nA).
    IbgIbi,
    /// Voltage detection current (~15.6 nA).
    IbgVdet,
}

impl AtbSel {
    /// The number that stands for this value in its register field.
    pub open spec fn code(self) -> int {
        match self {
            Self::Vref => 0,
            Self::Vosc => 1,
            Self::IbgIbi => 2,
            Self::IbgVdet => 3,
        }
    }

    /// The value that `code` stands for. Every larger number is read as the
    /// last value.
    pub open spec fn decode(code: int) -> Self {
        if code == 0 {
            Self::Vref
        } else if code == 1 {
            Self::Vosc
        } else if code == 2 {
            Self::IbgIbi
        } else {
            Self::IbgVdet
        }
    }
}

/// RTC analog 2 register.
#[derive(Clone, Copy, Debug, PartialEq, Eq, PartialOrd, Ord, Hash, Structural)]
pub struct Analog2(pub u32);

impl Analog2 {
    const ATB_SEL: u32 = 0x60;
    const ATB_EN: u32 = 0x10;
    const XTAL32K_STRENGTH_UP: u32 = 0x8;
    const XTAL32K_DRV: u32 = 0x3;

    /// Set analogical selection (`ATB_SEL`).
    #[inline]
    pub fn set_atb_sel(self, sel: AtbSel) -> (r: Self)
        ensures
            r.0 == with_field(self.0, 5, 2, sel.code()),
            field(r.0, 5, 2) == sel.code(),
            AtbSel::decode(field(r.0, 5, 2)) == sel,
            rest_is_kept(self.0, r.0, 5, 2),
    {
        proof {
            lemma_write(self.0, Self::ATB_SEL, 5, 2, sel as u32);
        }
        Self((self.0 & !Self::ATB_SEL) | (Self::ATB_SEL & ((sel as u32) << 5)))
    }

    /// Get analogical selection.
    #[inline]
    pub fn atb_sel(self) -> (r: AtbSel)
        ensures
            r == AtbSel::decode(field(self.0, 5, 2)),
            r.code() == field(self.0, 5, 2),
    {
        proof {
            lemma_read(self.0, Self::ATB_SEL, 5, 2);
        }
        match (self.0 & Self::ATB_SEL) >> 5 {
            0 => AtbSel::Vref,
            1 => AtbSel::Vosc,
            2 => AtbSel::IbgIbi,
            3 => AtbSel::IbgVdet,
            _ => unreached(),
        }
    }

    /// Enable analogical test (`ATB_EN`).
    #[inline]
    pub fn enable_atb(self) -> (r: Self)
        ensures
            r.0 == with_flag(self.0, 4, true),
            flag(r.0, 4),
            rest_is_kept(self.0, r.0, 4, 1),
    {
        proof {
            lemma_set(self.0, Self::ATB_EN, 4, 1);
        }
        Self(self.0 | Self::ATB_EN)
    }

    /// Disable analogical test.
    #[inline]
    pub fn disable_atb(self) -> (r: Self)
        ensures
            r.0 == with_flag(self.0, 4, false),
            !flag(r.0, 4),
            rest_is_kept(self.0, r.0, 4, 1),
    {
        proof {
            lemma_clear(self.0, Self::ATB_EN, 4, 1);
        }
        Self(self.0 & !Self::ATB_EN)
    }

    /// Check if analogical test is enabled.
    #[inline]
    pub fn is_atb_enabled(self) -> (r: bool)
        ensures
            r == flag(self.0, 4),
    {
        proof {
            lemma_read(self.0, Self::ATB_EN, 4, 1);
        }
        (self.0 & Self::ATB_EN) != 0
    }

    /// Enable xtal 32k strength up (`XTAL32K_STRENGTH_UP`).
    #[inline]
    pub fn enable_xtal32k_strength_up(self) -> (r: Self)
        ensures
            r.0 == with_flag(self.0, 3, true),
            flag(r.0, 3),
            rest_is_kept(self.0, r.0, 3, 1),
    {
        proof {
            lemma_set(self.0, Self::XTAL32K_STRENGTH_UP, 3, 1);
        }
        Self(self.0 | Self::XTAL32K_STRENGTH_UP)
    }

    /// Disable xtal 32k strength up.
    #[inline]
    pub fn disable_xtal32k_strength_up(self) -> (r: Self)
        ensures
            r.0 == with_flag(self.0, 3, false),
            !flag(r.0, 3),
            rest_is_kept(self.0, r.0, 3, 1),
    {
        proof {
            lemma_clear(self.0, Self::XTAL32K_STRENGTH_UP, 3, 1);
        }
        Self(self.0 & !Self::XTAL32K_STRENGTH_UP)
    }

    /// Check if xtal 32k strength up is enabled.
    #[inline]
    pub fn is_xtal32k_strength_up_enabled(self) -> (r: bool)
        ensures
            r == flag(self.0, 3),
    {
        proof {
            lemma_read(self.0, Self::XTAL32K_STRENGTH_UP, 3, 1);
        }
        (self.0 & Self::XTAL32K_STRENGTH_UP) != 0
    }

    /// Set xtal 32k driver strength (`XTAL32K_DRV`).
    ///
    /// Aborts if `drv` is not below `4`.
    #[inline]
    pub fn set_xtal32k_drv(self, drv: u8) -> (r: Self)
        requires
            drv < 4,
        ensures
            r.0 == with_field(self.0, 0, 2, drv as int),
            field(r.0, 0, 2) == drv,
            rest_is_kept(self.0, r.0, 0, 2),
    {
        runtime_assert(drv < 4);
        proof {
            lemma_write(self.0, Self::XTAL32K_DRV, 0, 2, drv as u32);
        }
        Self((self.0 & !Self::XTAL32K_DRV) | (Self::XTAL32K_DRV & (drv as u32)))
    }
}

/// RTC analog 3 register.
#[derive(Clone, Copy, Debug, PartialEq, Eq, PartialOrd, Ord, Hash, Structural)]
pub struct Analog3(pub u32);

impl Analog3 {
    const LDO12_XTAL32K_SW: u32 = 0x2;
    const XTAL32K_EN: u32 = 0x1;

    /// Enable LDO12 XTAL32K switch (`LDO12_XTAL32K_SW`).
    #[inline]
    pub fn enable_ldo12_xtal32k_sw(self) -> (r: Self)
        ensures
            r.0 == with_flag(self.0, 1, true),
            flag(r.0, 1),
            rest_is_kept(self.0, r.0, 1, 1),
    {
        proof {
            lemma_set(self.0, Self::LDO12_XTAL32K_SW, 1, 1);
        }
        Self(self.0 | Self::LDO12_XTAL32K_SW)
    }

    /// Disable LDO12 XTAL32K switch.
    #[inline]
    pub fn disable_ldo12_xtal32k_sw(self) -> (r: Self)
        ensures
            r.0 == with_flag(self.0, 1, false),
            !flag(r.0, 1),
            rest_is_kept(self.0, r.0, 1, 1),
    {
        proof {
            lemma_clear(self.0, Self::LDO12_XTAL32K_SW, 1, 1);
        }
        Self(self.0 & !Self::LDO12_XTAL32K_SW)
    }

    /// Check if LDO12 XTAL32K switch is enabled.
    #[inline]
    pub fn is_ldo12_xtal32k_sw_enabled(self) -> (r: bool)
        ensures
            r == flag(self.0, 1),
    {
        proof {
            lemma_read(self.0, Self::LDO12_XTAL32K_SW, 1, 1);
        }
        (self.0 & Self::LDO12_XTAL32K_SW) != 0
    }

    /// Enable XTAL32K (`XTAL32K_EN`).
    #[inline]
    pub fn enable_xtal32k(self) -> (r: Self)
        ensures
            r.0 == with_flag(self.0, 0, true),
            flag(r.0, 0),
            rest_is_kept(self.0, r.0, 0, 1),
    {
        proof {
            lemma_set(self.0, Self::XTAL32K_EN, 0, 1);
        }
        Self(self.0 | Self::XTAL32K_EN)
    }

    /// Disable XTAL32K.
    #[inline]
    pub fn disable_xtal32k(self) -> (r: Self)
        ensures
            r.0 == with_flag(self.0, 0, false),
            !flag(r.0, 0),
            rest_is_kept(self.0, r.0, 0, 1),
    {
        proof {
            lemma_clear(self.0, Self::XTAL32K_EN, 0, 1);
        }
        Self(self.0 & !Self::XTAL32K_EN)
    }

    /// Check if XTAL32K is enabled.
    #[inline]
    pub fn is_xtal32k_enabled(self) -> (r: bool)
        ensures
            r == flag(self.0, 0),
    {
        proof {
            lemma_read(self.0, Self::XTAL32K_EN, 0, 1);
        }
        (self.0 & Self::XTAL32K_EN) != 0
    }
}

/// RTC write key register.
#[derive(Clone, Copy, Debug, PartialEq, Eq, PartialOrd, Ord, Hash, Structural)]
pub struct WriteKey(pub u32);

impl WriteKey {
    const WR_KEY: u32 = 0xFF;

    /// Set write key value (`WR_KEY`).
    ///
    /// - 0xAC: write allowed
    /// - Others: write not allowed.
    #[inline]
    pub fn set_write_key(self, key: u8) -> (r: Self)
        ensures
            r.0 == with_field(self.0, 0, 8, key as int),
            field(r.0, 0, 8) == key,
            rest_is_kept(self.0, r.0, 0, 8),
    {
        proof {
            lemma_write(self.0, Self::WR_KEY, 0, 8, key as u32);
        }
        Self((self.0 & !Self::WR_KEY) | (Self::WR_KEY & (key as u32)))
    }

    /// Get write key value.
    #[inline]
    pub fn write_key(self) -> (r: u8)
        ensures
            r == field(self.0, 0, 8),
    {
        proof {
            lemma_read(self.0, Self::WR_KEY, 0, 8);
        }
        (self.0 & Self::WR_KEY) as u8
    }
}

/// Boot info register.
#[derive(Clone, Copy, Debug, PartialEq, Eq, PartialOrd, Ord, Hash, Structural)]
pub struct BootInfo(pub u32);

impl BootInfo {
    const REBOOT_REASON: u32 = 0xF0;
    const BOOT_DEV: u32 = 0xF;

    /// Set reboot reason (`REBOOT_REASON`).
    ///
    /// Aborts if `reason` is not below `16`.
    #[inline]
    pub fn set_reboot_reason(self, reason: u8) -> (r: Self)
        requires
            reason < 16,
        ensures
            r.0 == with_field(self.0, 4, 4, reason as int),
            field(r.0, 4, 4) == reason,
            rest_is_kept(self.0, r.0, 4, 4),
    {
        runtime_assert(reason < 16);
        proof {
            lemma_write(self.0, Self::REBOOT_REASON, 4, 4, reason as u32);
        }
        Self((self.0 & !Self::REBOOT_REASON) | ((reason as u32) << 4))
    }

    /// Get reboot reason.
    #[inline]
    pub fn reboot_reason(self) -> (r: u8)
        ensures
            r == field(self.0, 4, 4),
    {
        proof {
            lemma_read(self.0, Self::REBOOT_REASON, 4, 4);
        }
        ((self.0 & Self::REBOOT_REASON) >> 4) as u8
    }

    /// Set boot device (`BOOT_DEV`).
    ///
    /// Aborts if `dev` is not below `16`.
    #[inline]
    pub fn set_boot_dev(self, dev: u8) -> (r: Self)
        requires
            dev < 16,
        ensures
            r.0 == with_field(self.0, 0, 4, dev as int),
            field(r.0, 0, 4) == dev,
            rest_is_kept(self.0, r.0, 0, 4),
    {
        runtime_assert(dev < 16);
        proof {
            lemma_write(self.0, Self::BOOT_DEV, 0, 4, dev as u32);
        }
        Self((self.0 & !Self::BOOT_DEV) | (dev as u32))
    }

    /// Get boot device.
    #[inline]
    pub fn boot_dev(self) -> (r: u8)
        ensures
            r == field(self.0, 0, 4),
    {
        proof {
            lemma_read(self.0, Self::BOOT_DEV, 0, 4);
        }
        (self.0 & Self::BOOT_DEV) as u8
    }
}

/// System backup register.
#[derive(Clone, Copy, Debug, PartialEq, Eq, PartialOrd, Ord, Hash, Structural)]
pub struct SysBackup(pub u32);

impl SysBackup {
    const SYS_BAK: u32 = 0xFF;

    /// Set system backup value (`SYS_BAK`).
    #[inline]
    pub fn set_sys_bak(self, value: u8) -> (r: Self)
        ensures
            r.0 == with_field(self.0, 0, 8, value as int),
            field(r.0, 0, 8) == value,
            rest_is_kept(self.0, r.0, 0, 8),
    {
        proof {
            lemma_write(self.0, Self::SYS_BAK, 0, 8, value as u32);
        }
        Self((self.0 & !Self::SYS_BAK) | (Self::SYS_BAK & (value as u32)))
    }

    /// Get system backup value.
    #[inline]
    pub fn sys_bak(self) -> (r: u8)
        ensures
            r == field(self.0, 0, 8),
    {
        proof {
            lemma_read(self.0, Self::SYS_BAK, 0, 8);
        }
        (self.0 & Self::SYS_BAK) as u8
    }
}

/// RTC 32K detect register.
#[derive(Clone, Copy, Debug, PartialEq, Eq, PartialOrd, Ord, Hash, Structural)]
pub struct Detect32k(pub u32);

impl Detect32k {
    const DET_LEVEL: u32 = 0x3FF_0000;
    const DET_EN: u32 = 0x1;

    /// Set detection level (`DET_LEVEL`).
    ///
    /// Aborts if `level` is not below `0x400`.
    #[inline]
    pub fn set_det_level(self, level: u16) -> (r: Self)
        requires
            level < 0x400,
        ensures
            r.0 == with_field(self.0, 16, 10, level as int),
            field(r.0, 16, 10) == level,
            rest_is_kept(self.0, r.0, 16, 10),
    {
        runtime_assert(level < 0x400);
        proof {
            lemma_write(self.0, Self::DET_LEVEL, 16, 10, level as u32);
        }
        Self((self.0 & !Self::DET_LEVEL) | ((level as u32) << 16))
    }

    /// Get detection level.
    #[inline]
    pub fn det_level(self) -> (r: u16)
        ensures
            r == field(self.0, 16, 10),
    {
        proof {
            lemma_read(self.0, Self::DET_LEVEL, 16, 10);
        }
        ((self.0 & Self::DET_LEVEL) >> 16) as u16
    }

    /// Enable 32K detection (`DET_EN`).
    #[inline]
    pub fn enable(self) -> (r: Self)
        ensures
            r.0 == with_flag(self.0, 0, true),
            flag(r.0, 0),
            rest_is_kept(self.0, r.0, 0, 1),
    {
        proof {
            lemma_set(self.0, Self::DET_EN, 0, 1);
        }
        Self(self.0 | Self::DET_EN)
    }

    /// Disable 32K detection.
    #[inline]
    pub fn disable(self) -> (r: Self)
        ensures
            r.0 == with_flag(self.0, 0, false),
            !flag(r.0, 0),
            rest_is_kept(self.0, r.0, 0, 1),
    {
        proof {
            lemma_clear(self.0, Self::DET_EN, 0, 1);
        }
        Self(self.0 & !Self::DET_EN)
    }

    /// Check if 32K detection is enabled.
    #[inline]
    pub fn is_enabled(self) -> (r: bool)
        ensures
            r == flag(self.0, 0),
    {
        proof {
            lemma_read(self.0, Self::DET_EN, 0, 1);
        }
        (self.0 & Self::DET_EN) != 0
    }
}

} // verus!
