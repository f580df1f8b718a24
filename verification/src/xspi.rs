//! Expanded Serial Peripheral Interface (XSPI).

mod instance;
mod register;

pub use instance::Xspi;
pub use register::{
    ActiveFallBehavior, BoundarySize, BurstType, Bypass, Clock, ClockDivider, ColAddrCtrl, Control,
    CsControl, CsCtrlMode, CsDllControl, CsIoConfig1, CsIoConfig2, CsIoConfig3, CsIoConfig4,
    CsLevel, CsPolarity, CsSel, CsSequence, DataLine, DebugSel, DmaActiveMode, DmaModeControl,
    DqsClkGating, DummyFillType, DummyType, FifoControl, FifoStatus, Format, FormatSel, Icp,
    IntEnable, IntStatus, IoCfg, IoControl, LockCfg, LockConfig, Lut, LutUp, Phase, PhaseSel,
    PinDriveStrength, PinPull, PinWidth, Polarity, RdCmdControl, RdPha, RdSampleCtrl, RegisterBlock,
    Start, Status, TrainingConfig, TrainingPatternSel, TrainingPhaseCal, TransControl, XspiMode,
};
