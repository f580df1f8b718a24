//! Real Time Clock (RTC).

mod instance;
mod register;

pub use instance::Rtc;
pub use register::{
    Alarm, Analog0, Analog1, Analog2, Analog3, AonIrqEnable, AonIrqStatus, AtbSel, BootInfo,
    CaliDirection, Calibration0, Calibration1, Control, Detect32k, Init, IoOutputSel, Ldo1P1CurSel,
    Ldo1P1Vol, Ldo1P8Vol, Rc1mIsel, RegisterBlock, SysBackup, Time, WriteKey,
};
