use artinchip_hal::xspi::{
    ActiveFallBehavior, BoundarySize, BurstType, Bypass, Clock, ClockDivider, ColAddrCtrl, Control,
    CsControl, CsCtrlMode, CsDllControl, CsIoConfig1, CsIoConfig2, CsIoConfig3, CsIoConfig4,
    CsLevel, CsPolarity, CsSel, CsSequence, DataLine, DebugSel, DmaActiveMode, DmaModeControl,
    DqsClkGating, DummyFillType, FifoControl, FifoStatus, Format, FormatSel, Icp, IntEnable,
    IntStatus, IoCfg, IoControl, LockCfg, LockConfig, Lut, LutUp, Phase, PhaseSel, PinDriveStrength,
    PinPull, PinWidth, Polarity, RdCmdControl, RdPha, RdSampleCtrl, RegisterBlock, Start, Status,
    TrainingConfig, TrainingPatternSel, TrainingPhaseCal, TransControl, XspiMode,
};

#[test]
fn xspi_struct_register_block_offset() {
    let block = RegisterBlock::at(0x0);
    assert_eq!(block.ctrl, 0x0);
    assert_eq!(block.clk, 0x4);
    assert_eq!(block.trans_ctrl, 0x8);
    assert_eq!(block.status, 0xC);
    assert_eq!(block.cs0_ctrl, 0x10);
    assert_eq!(block.cs0_dll_ctrl, 0x14);
    assert_eq!(block.cs1_ctrl, 0x18);
    assert_eq!(block.cs1_dll_ctrl, 0x1C);
    assert_eq!(block.int_en, 0x20);
    assert_eq!(block.int_status, 0x24);
    assert_eq!(block.fifo_ctrl, 0x28);
    assert_eq!(block.fifo_status, 0x2C);
    assert_eq!(block.start, 0x30);
    assert_eq!(block.addr, 0x34);
    assert_eq!(block.fmt_config, 0x38);
    assert_eq!(block.burst_type, 0x40);
    assert_eq!(block.rd_cmd_ctrl, 0x44);
    assert_eq!(block.dma_mode_ctrl, 0x48);
    assert_eq!(block.timeout_config, 0x50);
    assert_eq!(block.lock_config, 0x54);
    assert_eq!(block.lut_up, 0x58);
    assert_eq!(block.cs0_sequence, 0x60);
    assert_eq!(block.cs1_sequence, 0x64);
    assert_eq!(block.io_ctrl, 0x68);
    assert_eq!(block.cs0_io_cfg1, 0x70);
    assert_eq!(block.cs0_io_cfg2, 0x74);
    assert_eq!(block.cs0_io_cfg3, 0x78);
    assert_eq!(block.cs0_io_cfg4, 0x7C);
    assert_eq!(block.cs1_io_cfg1, 0x80);
    assert_eq!(block.cs1_io_cfg2, 0x84);
    assert_eq!(block.cs1_io_cfg3, 0x88);
    assert_eq!(block.cs1_io_cfg4, 0x8C);
    assert_eq!(block.training_cfg, 0x90);
    assert_eq!(block.training_pattern, 0x94);
    assert_eq!(block.luts, 0x100);
    assert_eq!(block.tx_data, 0x200);
    assert_eq!(block.rx_data, 0x300);
    assert_eq!(block.debug, 0x400);
    assert_eq!(block.debug_sel, 0x404);
    assert_eq!(block.version, 0xFFC);
}

#[test]
fn xspi_struct_control_functions() {
    let mut val = Control(0x0);

    val = val.enable_axi_arbiter();
    assert!(val.is_axi_arbiter_enabled());
    assert_eq!(val.0, 0x0004_0000);
    val = val.disable_axi_arbiter();
    assert!(!val.is_axi_arbiter_enabled());
    assert_eq!(val.0, 0x0000_0000);

    val = val.set_col_addr_ctrl(ColAddrCtrl::WordAddr);
    assert_eq!(val.col_addr_ctrl(), ColAddrCtrl::WordAddr);
    assert_eq!(val.0, 0x0002_0000);
    val = val.set_col_addr_ctrl(ColAddrCtrl::ByteAddr);
    assert_eq!(val.col_addr_ctrl(), ColAddrCtrl::ByteAddr);
    assert_eq!(val.0, 0x0000_0000);

    val = val.set_pin_width(PinWidth::X16);
    assert_eq!(val.pin_width(), PinWidth::X16);
    assert_eq!(val.0, 0x0001_0000);
    val = val.set_pin_width(PinWidth::X8);
    assert_eq!(val.pin_width(), PinWidth::X8);
    assert_eq!(val.0, 0x0000_0000);

    val = val.set_boundary_size(BoundarySize::Size1K);
    assert_eq!(val.boundary_size(), BoundarySize::Size1K);
    assert_eq!(val.0, 0x0000_2000);
    val = val.set_boundary_size(BoundarySize::Size2K);
    assert_eq!(val.boundary_size(), BoundarySize::Size2K);
    assert_eq!(val.0, 0x0000_0000);

    val = val.enable_boundary();
    assert!(val.is_boundary_enabled());
    assert_eq!(val.0, 0x0000_1000);
    val = val.disable_boundary();
    assert!(!val.is_boundary_enabled());
    assert_eq!(val.0, 0x0000_0000);

    val = val.enable_reset();
    assert!(val.is_reset_enabled());
    assert_eq!(val.0, 0x0000_0200);
    val = val.disable_reset();
    assert!(!val.is_reset_enabled());
    assert_eq!(val.0, 0x0000_0000);

    val = val.set_reset_level(true);
    assert!(val.reset_level());
    assert_eq!(val.0, 0x0000_0100);
    val = val.set_reset_level(false);
    assert!(!val.reset_level());
    assert_eq!(val.0, 0x0000_0000);

    val = val.enable_timeout();
    assert!(val.is_timeout_enabled());
    assert_eq!(val.0, 0x0000_0080);
    val = val.disable_timeout();
    assert!(!val.is_timeout_enabled());
    assert_eq!(val.0, 0x0000_0000);

    val = val.enable_parallel_mode();
    assert!(val.is_parallel_mode_enabled());
    assert_eq!(val.0, 0x0000_0040);
    val = val.disable_parallel_mode();
    assert!(!val.is_parallel_mode_enabled());
    assert_eq!(val.0, 0x0000_0000);

    val = val.set_xspi_mode(XspiMode::SPI);
    assert_eq!(val.xspi_mode(), XspiMode::SPI);
    assert_eq!(val.0, 0x0000_0030);
    val = val.set_xspi_mode(XspiMode::OPI);
    assert_eq!(val.xspi_mode(), XspiMode::OPI);
    assert_eq!(val.0, 0x0000_0020);
    val = val.set_xspi_mode(XspiMode::Hyperbus);
    assert_eq!(val.xspi_mode(), XspiMode::Hyperbus);
    assert_eq!(val.0, 0x0000_0010);
    val = val.set_xspi_mode(XspiMode::Xccela);
    assert_eq!(val.xspi_mode(), XspiMode::Xccela);
    assert_eq!(val.0, 0x0000_0000);

    val = val.set_axi_wrap_burst_ctrl(true);
    assert!(val.axi_wrap_burst_ctrl());
    assert_eq!(val.0, 0x0000_0008);
    val = val.set_axi_wrap_burst_ctrl(false);
    assert!(!val.axi_wrap_burst_ctrl());
    assert_eq!(val.0, 0x0000_0000);

    val = val.enable_xip();
    assert!(val.is_xip_enabled());
    assert_eq!(val.0, 0x0000_0004);
    val = val.disable_xip();
    assert!(!val.is_xip_enabled());
    assert_eq!(val.0, 0x0000_0000);

    val = val.enable_idle_lp();
    assert!(val.is_idle_lp_enabled());
    assert_eq!(val.0, 0x0000_0002);
    val = val.disable_idle_lp();
    assert!(!val.is_idle_lp_enabled());
    assert_eq!(val.0, 0x0000_0000);

    val = val.enable_xspi();
    assert!(val.is_xspi_enabled());
    assert_eq!(val.0, 0x0000_0001);
    val = val.disable_xspi();
    assert!(!val.is_xspi_enabled());
    assert_eq!(val.0, 0x0000_0000);
}

#[test]
fn struct_clock_functions() {
    let mut val = Clock(0x0);

    val = val.set_clock_divider(ClockDivider::Divider2);
    assert_eq!(val.clock_divider(), ClockDivider::Divider2);
    assert_eq!(val.0, 0x0000_1000);
    val = val.set_clock_divider(ClockDivider::Divider1);
    assert_eq!(val.clock_divider(), ClockDivider::Divider1);
    assert_eq!(val.0, 0x0000_0000);

    val = val.set_clk_div1(0xF);
    assert_eq!(val.clk_div1(), 0xF);
    assert_eq!(val.0, 0x0000_0F00);

    val = Clock(0x0).set_clk_div2(0xFF);
    assert_eq!(val.clk_div2(), 0xFF);
    assert_eq!(val.0, 0x0000_00FF);
}

#[test]
fn struct_trans_control_functions() {
    let mut val = TransControl(0x0);

    val = val.set_opi_hold_ex(0xF);
    assert_eq!(val.opi_hold_ex(), 0xF);
    assert_eq!(val.0, 0xF000_0000);

    val = TransControl(0x0).set_dqs_clk_gating(DqsClkGating::Bypass);
    assert_eq!(val.dqs_clk_gating(), DqsClkGating::Bypass);
    assert_eq!(val.0, 0x0300_0000);
    val = val.set_dqs_clk_gating(DqsClkGating::Delay);
    assert_eq!(val.dqs_clk_gating(), DqsClkGating::Delay);
    assert_eq!(val.0, 0x0200_0000);
    val = val.set_dqs_clk_gating(DqsClkGating::Before);
    assert_eq!(val.dqs_clk_gating(), DqsClkGating::Before);
    assert_eq!(val.0, 0x0100_0000);
    val = val.set_dqs_clk_gating(DqsClkGating::Normal);
    assert_eq!(val.dqs_clk_gating(), DqsClkGating::Normal);
    assert_eq!(val.0, 0x0000_0000);

    val = val.set_cs_rd_hold(0xF);
    assert_eq!(val.cs_rd_hold(), 0xF);
    assert_eq!(val.0, 0x00F0_0000);

    val = TransControl(0x0).set_cs_wr_hold(0xF);
    assert_eq!(val.cs_wr_hold(), 0xF);
    assert_eq!(val.0, 0x000F_0000);

    val = TransControl(0x0).set_cs_setup(0xF);
    assert_eq!(val.cs_setup(), 0xF);
    assert_eq!(val.0, 0x0000_F000);

    val = TransControl(0x0).enable_jump_ins();
    assert!(val.is_jump_ins_enabled());
    assert_eq!(val.0, 0x0000_0800);
    val = val.disable_jump_ins();
    assert!(!val.is_jump_ins_enabled());
    assert_eq!(val.0, 0x0000_0000);

    val = val.set_dummy_fill_type(DummyFillType::Fill1);
    assert_eq!(val.dummy_fill_type(), DummyFillType::Fill1);
    assert_eq!(val.0, 0x0000_0100);
    val = val.set_dummy_fill_type(DummyFillType::Fill0);
    assert_eq!(val.dummy_fill_type(), DummyFillType::Fill0);
    assert_eq!(val.0, 0x0000_0000);

    val = val.set_cs_level(CsLevel::High);
    assert_eq!(val.cs_level(), CsLevel::High);
    assert_eq!(val.0, 0x0000_0080);
    val = val.set_cs_level(CsLevel::Low);
    assert_eq!(val.cs_level(), CsLevel::Low);
    assert_eq!(val.0, 0x0000_0000);

    val = val.set_cs_ctrl_mode(CsCtrlMode::Software);
    assert_eq!(val.cs_ctrl_mode(), CsCtrlMode::Software);
    assert_eq!(val.0, 0x0000_0040);
    val = val.set_cs_ctrl_mode(CsCtrlMode::SpiController);
    assert_eq!(val.cs_ctrl_mode(), CsCtrlMode::SpiController);
    assert_eq!(val.0, 0x0000_0000);

    val = val.set_cs_sel(CsSel::Cs1);
    assert_eq!(val.cs_sel(), CsSel::Cs1);
    assert_eq!(val.0, 0x0000_0010);
    val = val.set_cs_sel(CsSel::Cs0);
    assert_eq!(val.cs_sel(), CsSel::Cs0);
    assert_eq!(val.0, 0x0000_0000);

    val = val.set_cs_pol(CsPolarity::IdleLow);
    assert_eq!(val.cs_pol(), CsPolarity::IdleLow);
    assert_eq!(val.0, 0x0000_0004);
    val = val.set_cs_pol(CsPolarity::IdleHigh);
    assert_eq!(val.cs_pol(), CsPolarity::IdleHigh);
    assert_eq!(val.0, 0x0000_0000);

    val = val.set_clk_pol(Polarity::IdleHigh);
    assert_eq!(val.clk_pol(), Polarity::IdleHigh);
    assert_eq!(val.0, 0x0000_0002);
    val = val.set_clk_pol(Polarity::IdleLow);
    assert_eq!(val.clk_pol(), Polarity::IdleLow);
    assert_eq!(val.0, 0x0000_0000);

    val = val.set_clk_pha(Phase::CaptureOnSecondTransition);
    assert_eq!(val.clk_pha(), Phase::CaptureOnSecondTransition);
    assert_eq!(val.0, 0x0000_0001);
    val = val.set_clk_pha(Phase::CaptureOnFirstTransition);
    assert_eq!(val.clk_pha(), Phase::CaptureOnFirstTransition);
    assert_eq!(val.0, 0x0000_0000);
}

#[test]
fn struct_status_functions() {
    let mut val = Status(0x0000_0004);
    assert!(val.is_ahb_transfer());

    val = Status(0x0000_0002);
    assert!(val.is_axi_transfer());

    val = Status(0x0000_0001);
    assert!(val.is_busy());
}

#[test]
fn struct_cs_control_functions() {
    let mut val = CsControl(0x0);

    val = val.set_wr_delay_chain_sel(0x1F);
    assert_eq!(val.wr_delay_chain_sel(), 0x1F);
    assert_eq!(val.0, 0x1F00_0000);

    val = CsControl(0x0).set_wr_phase_sel(true);
    assert!(val.wr_phase_sel());
    assert_eq!(val.0, 0x0020_0000);
    val = val.set_wr_phase_sel(false);
    assert!(!val.wr_phase_sel());
    assert_eq!(val.0, 0x0000_0000);

    val = val.enable_wr_delay_chain();
    assert!(val.is_wr_delay_chain_enabled());
    assert_eq!(val.0, 0x0010_0000);
    val = val.disable_wr_delay_chain();
    assert!(!val.is_wr_delay_chain_enabled());
    assert_eq!(val.0, 0x0000_0000);

    val = val.set_rd_phase(RdPha::Deg360);
    assert_eq!(val.rd_phase(), RdPha::Deg360);
    assert_eq!(val.0, 0x0003_0000);
    val = val.set_rd_phase(RdPha::Deg180);
    assert_eq!(val.rd_phase(), RdPha::Deg180);
    assert_eq!(val.0, 0x0002_0000);
    val = val.set_rd_phase(RdPha::Deg90);
    assert_eq!(val.rd_phase(), RdPha::Deg90);
    assert_eq!(val.0, 0x0001_0000);
    val = val.set_rd_phase(RdPha::Deg0);
    assert_eq!(val.rd_phase(), RdPha::Deg0);
    assert_eq!(val.0, 0x0000_0000);

    val = val.set_rd_delay_cycle(0x7);
    assert_eq!(val.rd_delay_cycle(), 0x7);
    assert_eq!(val.0, 0x0000_7000);

    val = CsControl(0x0).set_rd_delay_chain_sel(0x1F);
    assert_eq!(val.rd_delay_chain_sel(), 0x1F);
    assert_eq!(val.0, 0x0000_01F0);

    val = CsControl(0x0).set_rd_valid_control(true);
    assert!(val.rd_valid_control());
    assert_eq!(val.0, 0x0000_0008);
    val = val.set_rd_valid_control(false);
    assert!(!val.rd_valid_control());
    assert_eq!(val.0, 0x0000_0000);

    val = val.enable_rd_delay_chain();
    assert!(val.is_rd_delay_chain_enabled());
    assert_eq!(val.0, 0x0000_0004);
    val = val.disable_rd_delay_chain();
    assert!(!val.is_rd_delay_chain_enabled());
    assert_eq!(val.0, 0x0000_0000);

    val = val.set_rd_sample_ctrl(RdSampleCtrl::DqsDelayChain);
    assert_eq!(val.rd_sample_ctrl(), RdSampleCtrl::DqsDelayChain);
    assert_eq!(val.0, 0x0000_0002);
    val = val.set_rd_sample_ctrl(RdSampleCtrl::InternalDelayChain);
    assert_eq!(val.rd_sample_ctrl(), RdSampleCtrl::InternalDelayChain);
    assert_eq!(val.0, 0x0000_0001);
    val = val.set_rd_sample_ctrl(RdSampleCtrl::DqsDll);
    assert_eq!(val.rd_sample_ctrl(), RdSampleCtrl::DqsDll);
    assert_eq!(val.0, 0x0000_0000);
}

#[test]
fn struct_cs_dll_control_functions() {
    let mut val = CsDllControl(0x0);

    val = val.set_force_lock(true);
    assert!(val.force_lock());
    assert_eq!(val.0, 0x2000_0000);
    val = val.set_force_lock(false);
    assert!(!val.force_lock());
    assert_eq!(val.0, 0x0000_0000);

    val = val.enable_atb();
    assert!(val.is_atb_enabled());
    assert_eq!(val.0, 0x1000_0000);
    val = val.disable_atb();
    assert!(!val.is_atb_enabled());
    assert_eq!(val.0, 0x0000_0000);

    val = val.set_atbsel(0x7);
    assert_eq!(val.atbsel(), 0x7);
    assert_eq!(val.0, 0x0700_0000);

    val = CsDllControl(0x0).set_bypass(Bypass::Range3);
    assert_eq!(val.bypass(), Bypass::Range3);
    assert_eq!(val.0, 0x0030_0000);
    val = val.set_bypass(Bypass::Range2);
    assert_eq!(val.bypass(), Bypass::Range2);
    assert_eq!(val.0, 0x0020_0000);
    val = val.set_bypass(Bypass::Range1);
    assert_eq!(val.bypass(), Bypass::Range1);
    assert_eq!(val.0, 0x0010_0000);
    val = val.set_bypass(Bypass::Range0);
    assert_eq!(val.bypass(), Bypass::Range0);
    assert_eq!(val.0, 0x0000_0000);

    val = val.set_delay(0x3);
    assert_eq!(val.delay(), 0x3);
    assert_eq!(val.0, 0x0003_0000);

    val = CsDllControl(0x0).set_icp(Icp::Range200To266M);
    assert_eq!(val.icp(), Icp::Range200To266M);
    assert_eq!(val.0, 0x0000_3000);
    val = val.set_icp(Icp::Range150To200M);
    assert_eq!(val.icp(), Icp::Range150To200M);
    assert_eq!(val.0, 0x0000_2000);
    val = val.set_icp(Icp::Range100To150M);
    assert_eq!(val.icp(), Icp::Range100To150M);
    assert_eq!(val.0, 0x0000_1000);
    val = val.set_icp(Icp::Range50To100M);
    assert_eq!(val.icp(), Icp::Range50To100M);
    assert_eq!(val.0, 0x0000_0000);

    for i in 0..16 {
        let (sel, reg_val) = match i {
            0 => (PhaseSel::Deg22_5, 0x0000_0000),
            1 => (PhaseSel::Deg45, 0x0000_0100),
            2 => (PhaseSel::Deg67_5, 0x0000_0200),
            3 => (PhaseSel::Deg90, 0x0000_0300),
            4 => (PhaseSel::Deg112_5, 0x0000_0400),
            5 => (PhaseSel::Deg135, 0x0000_0500),
            6 => (PhaseSel::Deg157_5, 0x0000_0600),
            7 => (PhaseSel::Deg180, 0x0000_0700),
            8 => (PhaseSel::Deg202_5, 0x0000_0800),
            9 => (PhaseSel::Deg225, 0x0000_0900),
            10 => (PhaseSel::Deg247_5, 0x0000_0A00),
            11 => (PhaseSel::Deg270, 0x0000_0B00),
            12 => (PhaseSel::Deg292_5, 0x0000_0C00),
            13 => (PhaseSel::Deg315, 0x0000_0D00),
            14 => (PhaseSel::Deg337_5, 0x0000_0E00),
            15 => (PhaseSel::Bypass, 0x0000_0F00),
            _ => unreachable!(),
        };

        val = val.set_phase_sel(sel);
        assert_eq!(val.phase_sel(), sel);
        assert_eq!(val.0, reg_val);
    }

    val = CsDllControl(0x0).enable_lvs();
    assert!(val.is_lvs_enabled());
    assert_eq!(val.0, 0x0000_0020);
    val = val.disable_lvs();
    assert!(!val.is_lvs_enabled());
    assert_eq!(val.0, 0x0000_0000);

    val = val.enable_ldo();
    assert!(val.is_ldo_enabled());
    assert_eq!(val.0, 0x0000_0010);
    val = val.disable_ldo();
    assert!(!val.is_ldo_enabled());
    assert_eq!(val.0, 0x0000_0000);

    val = val.enable_bypass();
    assert!(val.is_bypass_enabled());
    assert_eq!(val.0, 0x0000_0008);
    val = val.disable_bypass();
    assert!(!val.is_bypass_enabled());
    assert_eq!(val.0, 0x0000_0000);

    val = val.enable_cp();
    assert!(val.is_cp_enabled());
    assert_eq!(val.0, 0x0000_0004);
    val = val.disable_cp();
    assert!(!val.is_cp_enabled());
    assert_eq!(val.0, 0x0000_0000);

    val = val.enable_vcdl();
    assert!(val.is_vcdl_enabled());
    assert_eq!(val.0, 0x0000_0002);
    val = val.disable_vcdl();
    assert!(!val.is_vcdl_enabled());
    assert_eq!(val.0, 0x0000_0000);

    val = val.enable_dll();
    assert!(val.is_dll_enabled());
    assert_eq!(val.0, 0x0000_0001);
    val = val.disable_dll();
    assert!(!val.is_dll_enabled());
    assert_eq!(val.0, 0x0000_0000);
}

#[test]
fn struct_int_enable_functions() {
    let mut val = IntEnable(0x0);

    val = val.enable_xip_error();
    assert!(val.is_xip_error_enabled());
    assert_eq!(val.0, 0x0100_0000);
    val = val.disable_xip_error();
    assert!(!val.is_xip_error_enabled());
    assert_eq!(val.0, 0x0000_0000);

    val = val.enable_axi_error();
    assert!(val.is_axi_error_enabled());
    assert_eq!(val.0, 0x0080_0000);
    val = val.disable_axi_error();
    assert!(!val.is_axi_error_enabled());
    assert_eq!(val.0, 0x0000_0000);

    val = val.enable_opi_error();
    assert!(val.is_opi_error_enabled());
    assert_eq!(val.0, 0x0040_0000);
    val = val.disable_opi_error();
    assert!(!val.is_opi_error_enabled());
    assert_eq!(val.0, 0x0000_0000);

    val = val.enable_hyperbus_error();
    assert!(val.is_hyperbus_error_enabled());
    assert_eq!(val.0, 0x0020_0000);
    val = val.disable_hyperbus_error();
    assert!(!val.is_hyperbus_error_enabled());
    assert_eq!(val.0, 0x0000_0000);

    val = val.enable_xccela_error();
    assert!(val.is_xccela_error_enabled());
    assert_eq!(val.0, 0x0010_0000);
    val = val.disable_xccela_error();
    assert!(!val.is_xccela_error_enabled());
    assert_eq!(val.0, 0x0000_0000);

    val = val.enable_axi_trans_error();
    assert!(val.is_axi_trans_error_enabled());
    assert_eq!(val.0, 0x0008_0000);
    val = val.disable_axi_trans_error();
    assert!(!val.is_axi_trans_error_enabled());
    assert_eq!(val.0, 0x0000_0000);

    val = val.enable_ahb_trans_error();
    assert!(val.is_ahb_trans_error_enabled());
    assert_eq!(val.0, 0x0004_0000);
    val = val.disable_ahb_trans_error();
    assert!(!val.is_ahb_trans_error_enabled());
    assert_eq!(val.0, 0x0000_0000);

    val = val.enable_lut_instr_error();
    assert!(val.is_lut_instr_error_enabled());
    assert_eq!(val.0, 0x0002_0000);
    val = val.disable_lut_instr_error();
    assert!(!val.is_lut_instr_error_enabled());
    assert_eq!(val.0, 0x0000_0000);

    val = val.enable_lut_addr_operand_error();
    assert!(val.is_lut_addr_operand_error_enabled());
    assert_eq!(val.0, 0x0001_0000);
    val = val.disable_lut_addr_operand_error();
    assert!(!val.is_lut_addr_operand_error_enabled());
    assert_eq!(val.0, 0x0000_0000);

    val = val.enable_cs1_timeout();
    assert!(val.is_cs1_timeout_enabled());
    assert_eq!(val.0, 0x0000_8000);
    val = val.disable_cs1_timeout();
    assert!(!val.is_cs1_timeout_enabled());
    assert_eq!(val.0, 0x0000_0000);

    val = val.enable_cs0_timeout();
    assert!(val.is_cs0_timeout_enabled());
    assert_eq!(val.0, 0x0000_4000);
    val = val.disable_cs0_timeout();
    assert!(!val.is_cs0_timeout_enabled());
    assert_eq!(val.0, 0x0000_0000);

    val = val.enable_cs1_done();
    assert!(val.is_cs1_done_enabled());
    assert_eq!(val.0, 0x0000_2000);
    val = val.disable_cs1_done();
    assert!(!val.is_cs1_done_enabled());
    assert_eq!(val.0, 0x0000_0000);

    val = val.enable_cs0_done();
    assert!(val.is_cs0_done_enabled());
    assert_eq!(val.0, 0x0000_1000);
    val = val.disable_cs0_done();
    assert!(!val.is_cs0_done_enabled());
    assert_eq!(val.0, 0x0000_0000);

    val = val.enable_tx_fifo_underflow();
    assert!(val.is_tx_fifo_underflow_enabled());
    assert_eq!(val.0, 0x0000_0800);
    val = val.disable_tx_fifo_underflow();
    assert!(!val.is_tx_fifo_underflow_enabled());
    assert_eq!(val.0, 0x0000_0000);

    val = val.enable_tx_fifo_overflow();
    assert!(val.is_tx_fifo_overflow_enabled());
    assert_eq!(val.0, 0x0000_0400);
    val = val.disable_tx_fifo_overflow();
    assert!(!val.is_tx_fifo_overflow_enabled());
    assert_eq!(val.0, 0x0000_0000);

    val = val.enable_rx_fifo_underflow();
    assert!(val.is_rx_fifo_underflow_enabled());
    assert_eq!(val.0, 0x0000_0200);
    val = val.disable_rx_fifo_underflow();
    assert!(!val.is_rx_fifo_underflow_enabled());
    assert_eq!(val.0, 0x0000_0000);

    val = val.enable_rx_fifo_overflow();
    assert!(val.is_rx_fifo_overflow_enabled());
    assert_eq!(val.0, 0x0000_0100);
    val = val.disable_rx_fifo_overflow();
    assert!(!val.is_rx_fifo_overflow_enabled());
    assert_eq!(val.0, 0x0000_0000);

    val = val.enable_tx_fifo_full();
    assert!(val.is_tx_fifo_full_enabled());
    assert_eq!(val.0, 0x0000_0040);
    val = val.disable_tx_fifo_full();
    assert!(!val.is_tx_fifo_full_enabled());
    assert_eq!(val.0, 0x0000_0000);

    val = val.enable_tx_fifo_empty();
    assert!(val.is_tx_fifo_empty_enabled());
    assert_eq!(val.0, 0x0000_0020);
    val = val.disable_tx_fifo_empty();
    assert!(!val.is_tx_fifo_empty_enabled());
    assert_eq!(val.0, 0x0000_0000);

    val = val.enable_tx_fifo_empty_req();
    assert!(val.is_tx_fifo_empty_req_enabled());
    assert_eq!(val.0, 0x0000_0010);
    val = val.disable_tx_fifo_empty_req();
    assert!(!val.is_tx_fifo_empty_req_enabled());
    assert_eq!(val.0, 0x0000_0000);

    val = val.enable_rx_fifo_full();
    assert!(val.is_rx_fifo_full_enabled());
    assert_eq!(val.0, 0x0000_0004);
    val = val.disable_rx_fifo_full();
    assert!(!val.is_rx_fifo_full_enabled());
    assert_eq!(val.0, 0x0000_0000);

    val = val.enable_rx_fifo_empty();
    assert!(val.is_rx_fifo_empty_enabled());
    assert_eq!(val.0, 0x0000_0002);
    val = val.disable_rx_fifo_empty();
    assert!(!val.is_rx_fifo_empty_enabled());
    assert_eq!(val.0, 0x0000_0000);

    val = val.enable_rx_fifo_empty_req();
    assert!(val.is_rx_fifo_empty_req_enabled());
    assert_eq!(val.0, 0x0000_0001);
    val = val.disable_rx_fifo_empty_req();
    assert!(!val.is_rx_fifo_empty_req_enabled());
    assert_eq!(val.0, 0x0000_0000);
}

#[test]
fn register_struct_int_status_functions() {
    let mut val = IntStatus(0x0).clear_xip_err();
    assert!(val.is_xip_err_pending());
    assert_eq!(val.0, 0x0100_0000);

    val = IntStatus(0x0).clear_axi_err();
    assert!(val.is_axi_err_pending());
    assert_eq!(val.0, 0x0080_0000);

    val = IntStatus(0x0).clear_opi_err();
    assert!(val.is_opi_err_pending());
    assert_eq!(val.0, 0x0040_0000);

    val = IntStatus(0x0).clear_hyperbus_err();
    assert!(val.is_hyperbus_err_pending());
    assert_eq!(val.0, 0x0020_0000);

    val = IntStatus(0x0).clear_xccela_err();
    assert!(val.is_xccela_err_pending());
    assert_eq!(val.0, 0x0010_0000);

    val = IntStatus(0x0).clear_axi_trans_err();
    assert!(val.is_axi_trans_err_pending());
    assert_eq!(val.0, 0x0008_0000);

    val = IntStatus(0x0).clear_ahb_trans_err();
    assert!(val.is_ahb_trans_err_pending());
    assert_eq!(val.0, 0x0004_0000);

    val = IntStatus(0x0).clear_lut_instr_err();
    assert!(val.is_lut_instr_err_pending());
    assert_eq!(val.0, 0x0002_0000);

    val = IntStatus(0x0).clear_lut_addr_operand_err();
    assert!(val.is_lut_addr_operand_err_pending());
    assert_eq!(val.0, 0x0001_0000);

    val = IntStatus(0x0).clear_cs1_timeout();
    assert!(val.is_cs1_timeout_pending());
    assert_eq!(val.0, 0x0000_8000);

    val = IntStatus(0x0).clear_cs0_timeout();
    assert!(val.is_cs0_timeout_pending());
    assert_eq!(val.0, 0x0000_4000);

    val = IntStatus(0x0).clear_cs1_done();
    assert!(val.is_cs1_done_pending());
    assert_eq!(val.0, 0x0000_2000);

    val = IntStatus(0x0).clear_cs0_done();
    assert!(val.is_cs0_done_pending());
    assert_eq!(val.0, 0x0000_1000);

    val = IntStatus(0x0).clear_tx_fifo_underflow();
    assert!(val.is_tx_fifo_underflow_pending());
    assert_eq!(val.0, 0x0000_0800);

    val = IntStatus(0x0).clear_tx_fifo_overflow();
    assert!(val.is_tx_fifo_overflow_pending());
    assert_eq!(val.0, 0x0000_0400);

    val = IntStatus(0x0).clear_rx_fifo_underflow();
    assert!(val.is_rx_fifo_underflow_pending());
    assert_eq!(val.0, 0x0000_0200);

    val = IntStatus(0x0).clear_rx_fifo_overflow();
    assert!(val.is_rx_fifo_overflow_pending());
    assert_eq!(val.0, 0x0000_0100);

    val = IntStatus(0x0).clear_tx_fifo_full();
    assert!(val.is_tx_fifo_full_pending());
    assert_eq!(val.0, 0x0000_0040);

    val = IntStatus(0x0).clear_tx_fifo_empty();
    assert!(val.is_tx_fifo_empty_pending());
    assert_eq!(val.0, 0x0000_0020);

    val = IntStatus(0x0).clear_tx_fifo_ready();
    assert!(val.is_tx_fifo_ready_pending());
    assert_eq!(val.0, 0x0000_0010);

    val = IntStatus(0x0).clear_rx_fifo_full();
    assert!(val.is_rx_fifo_full_pending());
    assert_eq!(val.0, 0x0000_0004);

    val = IntStatus(0x0).clear_rx_fifo_empty();
    assert!(val.is_rx_fifo_empty_pending());
    assert_eq!(val.0, 0x0000_0002);

    val = IntStatus(0x0).clear_rx_fifo_ready();
    assert!(val.is_rx_fifo_ready_pending());
    assert_eq!(val.0, 0x0000_0001);
}

#[test]
fn struct_fifo_control_functions() {
    let mut val = FifoControl(0x0);

    val = val.set_tx_fifo_reset(true);
    assert!(val.tx_fifo_reset());
    assert_eq!(val.0, 0x8000_0000);
    val = val.set_tx_fifo_reset(false);
    assert!(!val.tx_fifo_reset());
    assert_eq!(val.0, 0x0000_0000);

    val = val.enable_tx_dma_req();
    assert!(val.is_tx_dma_req_enabled());
    assert_eq!(val.0, 0x0100_0000);
    val = val.disable_tx_dma_req();
    assert!(!val.is_tx_dma_req_enabled());
    assert_eq!(val.0, 0x0000_0000);

    val = val.set_tx_trigger_level(0x7F);
    assert_eq!(val.tx_trigger_level(), 0x7F);
    assert_eq!(val.0, 0x007F_0000);

    val = FifoControl(0x0).set_rx_fifo_reset(true);
    assert!(val.rx_fifo_reset());
    assert_eq!(val.0, 0x0000_8000);
    val = val.set_rx_fifo_reset(false);
    assert!(!val.rx_fifo_reset());
    assert_eq!(val.0, 0x0000_0000);

    val = val.enable_rx_dma_req();
    assert!(val.is_rx_dma_req_enabled());
    assert_eq!(val.0, 0x0000_0100);
    val = val.disable_rx_dma_req();
    assert!(!val.is_rx_dma_req_enabled());
    assert_eq!(val.0, 0x0000_0000);

    val = val.set_rx_trigger_level(0x7F);
    assert_eq!(val.rx_trigger_level(), 0x7F);
    assert_eq!(val.0, 0x0000_007F);
}

#[test]
fn struct_fifo_status_functions() {
    let mut val = FifoStatus(0xF0FF_0000);
    assert!(val.is_tx_buffer_write_enabled());
    assert_eq!(val.tx_buffer_count(), 0x7);
    assert_eq!(val.tx_fifo_count(), 0xFF);
    assert!(!val.is_rx_buffer_write_enabled());
    assert_eq!(val.rx_buffer_count(), 0);
    assert_eq!(val.rx_fifo_count(), 0);

    val = FifoStatus(0x0000_F0FF);
    assert!(!val.is_tx_buffer_write_enabled());
    assert_eq!(val.tx_buffer_count(), 0);
    assert_eq!(val.tx_fifo_count(), 0);
    assert!(val.is_rx_buffer_write_enabled());
    assert_eq!(val.rx_buffer_count(), 0x7);
    assert_eq!(val.rx_fifo_count(), 0xFF);
}

#[test]
fn struct_start_functions() {
    let val = Start(0x0).set_start_group(0x7);
    assert_eq!(val.0, 0x0000_0007);
}

#[test]
fn struct_format_functions() {
    let mut val = Format(0x0);

    val = val.set_format_cmd(0xFF);
    assert_eq!(val.format_cmd(), 0xFF);
    assert_eq!(val.0, 0xFF00_0000);

    val = Format(0x0).set_format_cmd_ex(0xFF);
    assert_eq!(val.format_cmd_ex(), 0xFF);
    assert_eq!(val.0, 0xFF_0000);

    val = Format(0x0);
    for i in 0..7 {
        let (sel, reg_val) = match i {
            0 => (FormatSel::LutConfig, 0x0000_0000),
            1 => (FormatSel::Command1S, 0x0000_0001),
            2 => (FormatSel::Command3Addr, 0x0000_0002),
            3 => (FormatSel::Command4Addr, 0x0000_0003),
            4 => (FormatSel::Command8D, 0x0000_0004),
            5 => (FormatSel::CommandEx8D, 0x0000_0005),
            6 => (FormatSel::CommandExAddr8D, 0x0000_0006),
            _ => unreachable!(),
        };

        val = val.set_format_sel(sel);
        assert_eq!(val.format_sel(), sel);
        assert_eq!(val.0, reg_val);
    }
}

#[test]
fn struct_burst_type_functions() {
    let mut val = BurstType(0x0);

    val = val.set_spi_burst_wrapped(0xFF);
    assert_eq!(val.spi_burst_wrapped(), 0xFF);
    assert_eq!(val.0, 0x0000_FF00);

    val = BurstType(0x0).set_spi_burst_linear(0xFF);
    assert_eq!(val.spi_burst_linear(), 0xFF);
    assert_eq!(val.0, 0x0000_00FF);
}

#[test]
fn struct_rd_cmd_control_functions() {
    let mut val = RdCmdControl(0x0);

    val = val.enable_read_mode_byte();
    assert!(val.is_read_mode_byte_enabled());
    assert_eq!(val.0, 0x0002_0000);
    val = val.disable_read_mode_byte();
    assert!(!val.is_read_mode_byte_enabled());
    assert_eq!(val.0, 0x0000_0000);

    val = val.enable_rdcmd_bypass();
    assert!(val.is_rdcmd_bypass_enabled());
    assert_eq!(val.0, 0x0001_0000);
    val = val.disable_rdcmd_bypass();
    assert!(!val.is_rdcmd_bypass_enabled());
    assert_eq!(val.0, 0x0000_0000);

    val = val.set_rdcmd_bypass_code(0xFF);
    assert_eq!(val.rdcmd_bypass_code(), 0xFF);
    assert_eq!(val.0, 0x0000_FF00);

    val = RdCmdControl(0x0).set_rdcmd_normal_code(0xFF);
    assert_eq!(val.rdcmd_normal_code(), 0xFF);
    assert_eq!(val.0, 0x0000_00FF);
}

#[test]
fn struct_dma_mode_control_functions() {
    let mut val = DmaModeControl(0x0);

    val = val.set_dma_active_mode(DmaActiveMode::Controller);
    assert_eq!(val.dma_active_mode(), DmaActiveMode::Controller);
    assert_eq!(val.0, 0x0000_00C0);
    val = val.set_dma_active_mode(DmaActiveMode::DmaRequest);
    assert_eq!(val.dma_active_mode(), DmaActiveMode::DmaRequest);
    assert_eq!(val.0, 0x0000_0080);
    val = val.set_dma_active_mode(DmaActiveMode::High);
    assert_eq!(val.dma_active_mode(), DmaActiveMode::High);
    assert_eq!(val.0, 0x0000_0040);
    val = val.set_dma_active_mode(DmaActiveMode::Low);
    assert_eq!(val.dma_active_mode(), DmaActiveMode::Low);
    assert_eq!(val.0, 0x0000_0000);

    val = val.set_active_fall_behavior(ActiveFallBehavior::MustAfterAckHigh);
    assert_eq!(
        val.active_fall_behavior(),
        ActiveFallBehavior::MustAfterAckHigh
    );
    assert_eq!(val.0, 0x0000_0020);
    val = val.set_active_fall_behavior(ActiveFallBehavior::DoNotCareAck);
    assert_eq!(val.active_fall_behavior(), ActiveFallBehavior::DoNotCareAck);
    assert_eq!(val.0, 0x0000_0000);

    val = val.set_delay_clocks(0x1F);
    assert_eq!(val.delay_clocks(), 0x1F);
    assert_eq!(val.0, 0x0000_001F);
}

#[test]
fn struct_lock_config_functions() {
    let val = LockConfig(0x0).set_lock_cfg(LockCfg::Locked);
    assert_eq!(val.lock_cfg(), LockCfg::Locked);
    assert_eq!(val.0, 0x0000_0001);

    let val = val.set_lock_cfg(LockCfg::Unlocked);
    assert_eq!(val.lock_cfg(), LockCfg::Unlocked);
    assert_eq!(val.0, 0x0000_0002);
}

#[test]
fn struct_lut_up_functions() {
    let mut val = LutUp(0x0).set_lut_update(true);
    assert!(val.lut_update());
    assert_eq!(val.0, 0x0000_0001);
    val = val.set_lut_update(false);
    assert!(!val.lut_update());
    assert_eq!(val.0, 0x0000_0000);
}

#[test]
fn struct_cs_sequence_functions() {
    for i in 0..8 {
        let sel = match i {
            0 => DataLine::D0,
            1 => DataLine::D1,
            2 => DataLine::D2,
            3 => DataLine::D3,
            4 => DataLine::D4,
            5 => DataLine::D5,
            6 => DataLine::D6,
            7 => DataLine::D7,
            _ => unreachable!(),
        };

        let reg_val = sel as u32;
        let mut val = CsSequence(0x0).set_d0_sel(sel);
        assert_eq!(val.d0_sel(), sel);
        assert_eq!(val.0, reg_val);
        val = CsSequence(0x0).set_d1_sel(sel);
        assert_eq!(val.d1_sel(), sel);
        assert_eq!(val.0, reg_val << 4);
        val = CsSequence(0x0).set_d2_sel(sel);
        assert_eq!(val.d2_sel(), sel);
        assert_eq!(val.0, reg_val << 8);
        val = CsSequence(0x0).set_d3_sel(sel);
        assert_eq!(val.d3_sel(), sel);
        assert_eq!(val.0, reg_val << 12);
        val = CsSequence(0x0).set_d4_sel(sel);
        assert_eq!(val.d4_sel(), sel);
        assert_eq!(val.0, reg_val << 16);
        val = CsSequence(0x0).set_d5_sel(sel);
        assert_eq!(val.d5_sel(), sel);
        assert_eq!(val.0, reg_val << 20);
        val = CsSequence(0x0).set_d6_sel(sel);
        assert_eq!(val.d6_sel(), sel);
        assert_eq!(val.0, reg_val << 24);
        val = CsSequence(0x0).set_d7_sel(sel);
        assert_eq!(val.d7_sel(), sel);
        assert_eq!(val.0, reg_val << 28);
    }
}

#[test]
fn struct_io_control_functions() {
    let mut val = IoControl(0x0);

    val = val.disable_cs1_io();
    assert!(!val.is_cs1_io_enabled());
    assert_eq!(val.0, 0x0000_0000);
    val = val.enable_cs1_io();
    assert!(val.is_cs1_io_enabled());
    assert_eq!(val.0, 0x0000_0002);

    val = val.disable_cs0_io();
    assert!(!val.is_cs0_io_enabled());
    assert_eq!(val.0, 0x0000_0002);
    val = val.enable_cs0_io();
    assert!(val.is_cs0_io_enabled());
    assert_eq!(val.0, 0x0000_0003);
}

#[test]
fn struct_cs_io_config1_functions() {
    for pull_val in 0..4 {
        if pull_val == 1 {
            continue;
        }

        let pull = match pull_val {
            0 => PinPull::Disabled,
            2 => PinPull::PullDown,
            3 => PinPull::PullUp,
            _ => unreachable!(),
        };

        let pull_reg_val = pull as u32;
        let mut val = CsIoConfig1(0x0).set_d7_pin_pull(pull);
        assert_eq!(val.d7_pin_pull(), pull);
        assert_eq!(val.0, pull_reg_val << 28);
        val = CsIoConfig1(0x0).set_d6_pin_pull(pull);
        assert_eq!(val.d6_pin_pull(), pull);
        assert_eq!(val.0, pull_reg_val << 20);
        val = CsIoConfig1(0x0).set_d5_pin_pull(pull);
        assert_eq!(val.d5_pin_pull(), pull);
        assert_eq!(val.0, pull_reg_val << 12);
        val = CsIoConfig1(0x0).set_d4_pin_pull(pull);
        assert_eq!(val.d4_pin_pull(), pull);
        assert_eq!(val.0, pull_reg_val << 4);
    }

    for drv_val in 0..8 {
        let drv = match drv_val {
            0 => PinDriveStrength::Level0,
            1 => PinDriveStrength::Level1,
            2 => PinDriveStrength::Level2,
            3 => PinDriveStrength::Level3,
            4 => PinDriveStrength::Level4,
            5 => PinDriveStrength::Level5,
            6 => PinDriveStrength::Level6,
            7 => PinDriveStrength::Level7,
            _ => unreachable!(),
        };

        let drv_reg_val = drv as u32;
        let mut val = CsIoConfig1(0x0).set_d7_pin_drv(drv);
        assert_eq!(val.d7_pin_drv(), drv);
        assert_eq!(val.0, drv_reg_val << 24);
        val = CsIoConfig1(0x0).set_d6_pin_drv(drv);
        assert_eq!(val.d6_pin_drv(), drv);
        assert_eq!(val.0, drv_reg_val << 16);
        val = CsIoConfig1(0x0).set_d5_pin_drv(drv);
        assert_eq!(val.d5_pin_drv(), drv);
        assert_eq!(val.0, drv_reg_val << 8);
        val = CsIoConfig1(0x0).set_d4_pin_drv(drv);
        assert_eq!(val.d4_pin_drv(), drv);
        assert_eq!(val.0, drv_reg_val);
    }
}

#[test]
fn struct_cs_io_config2_functions() {
    for pull_val in 0..4 {
        if pull_val == 1 {
            continue;
        }

        let pull = match pull_val {
            0 => PinPull::Disabled,
            2 => PinPull::PullDown,
            3 => PinPull::PullUp,
            _ => unreachable!(),
        };

        let pull_reg_val = pull as u32;
        let mut val = CsIoConfig2(0x0).set_d3_pin_pull(pull);
        assert_eq!(val.d3_pin_pull(), pull);
        assert_eq!(val.0, pull_reg_val << 28);
        val = CsIoConfig2(0x0).set_d2_pin_pull(pull);
        assert_eq!(val.d2_pin_pull(), pull);
        assert_eq!(val.0, pull_reg_val << 20);
        val = CsIoConfig2(0x0).set_d1_pin_pull(pull);
        assert_eq!(val.d1_pin_pull(), pull);
        assert_eq!(val.0, pull_reg_val << 12);
        val = CsIoConfig2(0x0).set_d0_pin_pull(pull);
        assert_eq!(val.d0_pin_pull(), pull);
        assert_eq!(val.0, pull_reg_val << 4);
    }

    for drv_val in 0..8 {
        let drv = match drv_val {
            0 => PinDriveStrength::Level0,
            1 => PinDriveStrength::Level1,
            2 => PinDriveStrength::Level2,
            3 => PinDriveStrength::Level3,
            4 => PinDriveStrength::Level4,
            5 => PinDriveStrength::Level5,
            6 => PinDriveStrength::Level6,
            7 => PinDriveStrength::Level7,
            _ => unreachable!(),
        };

        let drv_reg_val = drv as u32;
        let mut val = CsIoConfig2(0x0).set_d3_pin_drv(drv);
        assert_eq!(val.d3_pin_drv(), drv);
        assert_eq!(val.0, drv_reg_val << 24);
        val = CsIoConfig2(0x0).set_d2_pin_drv(drv);
        assert_eq!(val.d2_pin_drv(), drv);
        assert_eq!(val.0, drv_reg_val << 16);
        val = CsIoConfig2(0x0).set_d1_pin_drv(drv);
        assert_eq!(val.d1_pin_drv(), drv);
        assert_eq!(val.0, drv_reg_val << 8);
        val = CsIoConfig2(0x0).set_d0_pin_drv(drv);
        assert_eq!(val.d0_pin_drv(), drv);
        assert_eq!(val.0, drv_reg_val);
    }
}

#[test]
fn struct_cs_io_config3_functions() {
    for pull_val in 0..4 {
        if pull_val == 1 {
            continue;
        }

        let pull = match pull_val {
            0 => PinPull::Disabled,
            2 => PinPull::PullDown,
            3 => PinPull::PullUp,
            _ => unreachable!(),
        };

        let pull_reg_val = pull as u32;
        let mut val = CsIoConfig3(0x0).set_cs_pin_pull(pull);
        assert_eq!(val.cs_pin_pull(), pull);
        assert_eq!(val.0, pull_reg_val << 28);
        val = CsIoConfig3(0x0).set_dqs_pin_pull(pull);
        assert_eq!(val.dqs_pin_pull(), pull);
        assert_eq!(val.0, pull_reg_val << 20);
        val = CsIoConfig3(0x0).set_ck_pin_pull(pull);
        assert_eq!(val.ck_pin_pull(), pull);
        assert_eq!(val.0, pull_reg_val << 12);
        val = CsIoConfig3(0x0).set_ckn_pin_pull(pull);
        assert_eq!(val.ckn_pin_pull(), pull);
        assert_eq!(val.0, pull_reg_val << 4);
    }

    for drv_val in 0..8 {
        let drv = match drv_val {
            0 => PinDriveStrength::Level0,
            1 => PinDriveStrength::Level1,
            2 => PinDriveStrength::Level2,
            3 => PinDriveStrength::Level3,
            4 => PinDriveStrength::Level4,
            5 => PinDriveStrength::Level5,
            6 => PinDriveStrength::Level6,
            7 => PinDriveStrength::Level7,
            _ => unreachable!(),
        };

        let drv_reg_val = drv as u32;
        let mut val = CsIoConfig3(0x0).set_cs_pin_drv(drv);
        assert_eq!(val.cs_pin_drv(), drv);
        assert_eq!(val.0, drv_reg_val << 24);
        val = CsIoConfig3(0x0).set_dqs_pin_drv(drv);
        assert_eq!(val.dqs_pin_drv(), drv);
        assert_eq!(val.0, drv_reg_val << 16);
        val = CsIoConfig3(0x0).set_ck_pin_drv(drv);
        assert_eq!(val.ck_pin_drv(), drv);
        assert_eq!(val.0, drv_reg_val << 8);
        val = CsIoConfig3(0x0).set_ckn_pin_drv(drv);
        assert_eq!(val.ckn_pin_drv(), drv);
        assert_eq!(val.0, drv_reg_val);
    }
}

#[test]
fn struct_cs_io_config4_functions() {
    for pull_val in 0..4 {
        if pull_val == 1 {
            continue;
        }

        let pull = match pull_val {
            0 => PinPull::Disabled,
            2 => PinPull::PullDown,
            3 => PinPull::PullUp,
            _ => unreachable!(),
        };

        let pull_reg_val = pull as u32;
        let val = CsIoConfig4(0x0).set_dm_pin_pull(pull);
        assert_eq!(val.dm_pin_pull(), pull);
        assert_eq!(val.0, pull_reg_val << 4);
    }

    for drv_val in 0..8 {
        let drv = match drv_val {
            0 => PinDriveStrength::Level0,
            1 => PinDriveStrength::Level1,
            2 => PinDriveStrength::Level2,
            3 => PinDriveStrength::Level3,
            4 => PinDriveStrength::Level4,
            5 => PinDriveStrength::Level5,
            6 => PinDriveStrength::Level6,
            7 => PinDriveStrength::Level7,
            _ => unreachable!(),
        };

        let drv_reg_val = drv as u32;
        let val = CsIoConfig4(0x0).set_dm_pin_drv(drv);
        assert_eq!(val.dm_pin_drv(), drv);
        assert_eq!(val.0, drv_reg_val);
    }
}

#[test]
fn struct_training_config_functions() {
    let mut val = TrainingConfig(0x0);

    val = val.set_training_phase_cal(TrainingPhaseCal::RoundUp);
    assert_eq!(val.training_phase_cal(), TrainingPhaseCal::RoundUp);
    assert_eq!(val.0, 0x0100_0000);
    val = val.set_training_phase_cal(TrainingPhaseCal::RoundDown);
    assert_eq!(val.training_phase_cal(), TrainingPhaseCal::RoundDown);
    assert_eq!(val.0, 0x0000_0000);

    val = val.set_training_pattern_sel(TrainingPatternSel::Custom);
    assert_eq!(val.training_pattern_sel(), TrainingPatternSel::Custom);
    assert_eq!(val.0, 0x0003_0000);
    val = val.set_training_pattern_sel(TrainingPatternSel::Inversion);
    assert_eq!(val.training_pattern_sel(), TrainingPatternSel::Inversion);
    assert_eq!(val.0, 0x0002_0000);
    val = val.set_training_pattern_sel(TrainingPatternSel::Random);
    assert_eq!(val.training_pattern_sel(), TrainingPatternSel::Random);
    assert_eq!(val.0, 0x0001_0000);
    val = val.set_training_pattern_sel(TrainingPatternSel::StuckAddress);
    assert_eq!(val.training_pattern_sel(), TrainingPatternSel::StuckAddress);
    assert_eq!(val.0, 0x0000_0000);

    val = val.set_data_len(0xFFFF);
    assert_eq!(val.data_len(), 0xFFFF);
    assert_eq!(val.0, 0x0000_FFFF);
}

#[test]
fn struct_lut_functions() {
    let mut val = Lut(0x0);

    val = val.set_instr1(0x3F);
    assert_eq!(val.instr1(), 0x3F);
    assert_eq!(val.0, 0xFC00_0000);

    val = Lut(0x0).set_io_cfg1(IoCfg::EightIo);
    assert_eq!(val.io_cfg1(), IoCfg::EightIo);
    assert_eq!(val.0, 0x0300_0000);
    val = val.set_io_cfg1(IoCfg::FourIo);
    assert_eq!(val.io_cfg1(), IoCfg::FourIo);
    assert_eq!(val.0, 0x0200_0000);
    val = val.set_io_cfg1(IoCfg::TwoIo);
    assert_eq!(val.io_cfg1(), IoCfg::TwoIo);
    assert_eq!(val.0, 0x0100_0000);
    val = val.set_io_cfg1(IoCfg::OneIo);
    assert_eq!(val.io_cfg1(), IoCfg::OneIo);
    assert_eq!(val.0, 0x0000_0000);

    val = val.set_operand1(0xFF);
    assert_eq!(val.operand1(), 0xFF);
    assert_eq!(val.0, 0x00FF_0000);

    val = Lut(0x0).set_instr0(0x3F);
    assert_eq!(val.instr0(), 0x3F);
    assert_eq!(val.0, 0x0000_FC00);

    val = Lut(0x0).set_io_cfg0(IoCfg::EightIo);
    assert_eq!(val.io_cfg0(), IoCfg::EightIo);
    assert_eq!(val.0, 0x0000_0300);
    val = val.set_io_cfg0(IoCfg::FourIo);
    assert_eq!(val.io_cfg0(), IoCfg::FourIo);
    assert_eq!(val.0, 0x0000_0200);
    val = val.set_io_cfg0(IoCfg::TwoIo);
    assert_eq!(val.io_cfg0(), IoCfg::TwoIo);
    assert_eq!(val.0, 0x0000_0100);
    val = val.set_io_cfg0(IoCfg::OneIo);
    assert_eq!(val.io_cfg0(), IoCfg::OneIo);
    assert_eq!(val.0, 0x0000_0000);

    val = val.set_operand0(0xFF);
    assert_eq!(val.operand0(), 0xFF);
    assert_eq!(val.0, 0x0000_00FF);
}

#[test]
fn struct_debug_sel_functions() {
    let val = DebugSel(0x0).set_debug_sel(0xF);
    assert_eq!(val.debug_sel(), 0xF);
    assert_eq!(val.0, 0x0000_000F);
}
