//! System Configuration (SYSCFG).

mod register;

pub use register::{
    Atb2AnaSel, AtbCmuAnaTop, AtbDllTopC, AtbGpadc, AtbMipiDphy, AtbRtcAnaTop, AtbSel0, AtbSel1,
    AtbSel2, AtbUsbPhyAfe, AtbUsbPllAfe, AxiMatS0Area, AxiMatS1Size, CmpMode, CmpVoltage, CmuAtbSel,
    CompareConfig, DllAtbSel, DrdMode, EmacConfig, Enc0Sel, Enc1Sel, EncoderConfig, FlashConfig,
    FlashIomap012, FlashIomap345, FlashSrcSel, GeSramParam, IrqControl, IrqStatus, Ldo18Config,
    Ldo18Voltage, Ldo1xConfig, Ldo1xVoltage, Ldo25Config, Ldo25Voltage, PsenCntVal, PsenConfig,
    RegisterBlock, RmiiExtclkSel, RoSel, SqrxTestSel, SramClkConfig, SramMapConfig, SubpllAtb,
    TxTestSel, Usb0Config, Usb0RExt,
};
