use artinchip_hal::sys_cfg::{
    Atb2AnaSel, AtbCmuAnaTop, AtbDllTopC, AtbGpadc, AtbMipiDphy, AtbRtcAnaTop, AtbSel0, AtbSel1,
    AtbSel2, AtbUsbPhyAfe, AtbUsbPllAfe, AxiMatS0Area, AxiMatS1Size, CmpMode, CmpVoltage, CmuAtbSel,
    CompareConfig, DllAtbSel, DrdMode, EmacConfig, Enc0Sel, Enc1Sel, EncoderConfig, FlashConfig,
    FlashIomap012, FlashIomap345, FlashSrcSel, GeSramParam, IrqControl, IrqStatus, Ldo18Config,
    Ldo18Voltage, Ldo1xConfig, Ldo1xVoltage, Ldo25Config, Ldo25Voltage, PsenCntVal, PsenConfig,
    RegisterBlock, RmiiExtclkSel, RoSel, SqrxTestSel, SramClkConfig, SramMapConfig, SubpllAtb,
    TxTestSel, Usb0Config, Usb0RExt,
};

#[test]
fn sys_cfg_struct_register_block_offset() {
    let block = RegisterBlock::at(0x0);
    assert_eq!(block.irq_ctrl, 0x8);
    assert_eq!(block.irq_status, 0xC);
    assert_eq!(block.ldo25_cfg, 0x20);
    assert_eq!(block.ldo18_cfg, 0x24);
    assert_eq!(block.ldo1x_cfg, 0x28);
    assert_eq!(block.cmp_cfg, 0x3C);
    assert_eq!(block.usb0_rext, 0x48);
    assert_eq!(block.psen_cfg, 0xC0);
    assert_eq!(block.psen_cnt_val, 0xC4);
    assert_eq!(block.sys_sram_par, 0x100);
    assert_eq!(block.cpu_sram_par, 0x104);
    assert_eq!(block.usb_sram_par, 0x108);
    assert_eq!(block.ve_sram_par, 0x10C);
    assert_eq!(block.ge_sram_par, 0x110);
    assert_eq!(block.de_sram_par, 0x114);
    assert_eq!(block.sram_clk_cfg, 0x140);
    assert_eq!(block.sram_map_cfg, 0x160);
    assert_eq!(block.flash_cfg, 0x1F0);
    assert_eq!(block.encoder_cfg, 0x1F4);
    assert_eq!(block.usb0_cfg, 0x40C);
    assert_eq!(block.emac_cfg, 0x410);
    assert_eq!(block.atb_cmu_ana_top, 0xF48);
    assert_eq!(block.atb_dll_top_c, 0xF4C);
    assert_eq!(block.atb_gpadc, 0xF50);
    assert_eq!(block.atb_mipi_dphy, 0xF54);
    assert_eq!(block.atb_rtc_ana_top, 0xF58);
    assert_eq!(block.atb_usb_pll_afe, 0xF5C);
    assert_eq!(block.atb_usb_phy_afe, 0xF60);
    assert_eq!(block.version, 0xFFC);
}

#[test]
fn struct_irq_control_functions() {
    let mut val = IrqControl(0x0);

    val = val.enable_cmp_rst();
    assert!(val.is_cmp_rst_enabled());
    assert_eq!(val.0, 0x8000_0000);
    val = val.disable_cmp_rst();
    assert!(!val.is_cmp_rst_enabled());
    assert_eq!(val.0, 0x0000_0000);

    val = val.enable_cmp_irq();
    assert!(val.is_cmp_irq_enabled());
    assert_eq!(val.0, 0x0000_0001);
    val = val.disable_cmp_irq();
    assert!(!val.is_cmp_irq_enabled());
    assert_eq!(val.0, 0x0000_0000);
}

#[test]
fn struct_irq_status_functions() {
    let mut val = IrqStatus(0x0);

    val = val.clear_cmp_irq();
    assert!(val.is_cmp_irq_pending());
    assert_eq!(val.0, 0x0000_0001);
}

#[test]
fn struct_ldo25_config_functions() {
    let mut val = Ldo25Config(0x0);

    val = val.enable_lvds0_ibias();
    assert!(val.is_lvds0_ibias_enabled());
    assert_eq!(val.0, 0x0004_0000);
    val = val.disable_lvds0_ibias();
    assert!(!val.is_lvds0_ibias_enabled());
    assert_eq!(val.0, 0x0000_0000);

    val = val.enable_xspi_dllc1_ibias();
    assert!(val.is_xspi_dllc1_ibias_enabled());
    assert_eq!(val.0, 0x0002_0000);
    val = val.disable_xspi_dllc1_ibias();
    assert!(!val.is_xspi_dllc1_ibias_enabled());
    assert_eq!(val.0, 0x0000_0000);

    val = val.enable_xspi_dllc0_ibias();
    assert!(val.is_xspi_dllc0_ibias_enabled());
    assert_eq!(val.0, 0x0001_0000);
    val = val.disable_xspi_dllc0_ibias();
    assert!(!val.is_xspi_dllc0_ibias_enabled());
    assert_eq!(val.0, 0x0000_0000);

    val = val.set_bg_ctrl(0xFF);
    assert_eq!(val.bg_ctrl(), 0xFF);
    assert_eq!(val.0, 0x0000_FF00);

    val = Ldo25Config(0x0).enable_ldo25();
    assert!(val.is_ldo25_enabled());
    assert_eq!(val.0, 0x0000_0010);
    val = val.disable_ldo25();
    assert!(!val.is_ldo25_enabled());
    assert_eq!(val.0, 0x0000_0000);

    for i in 0..8 {
        let (vol, reg_val) = match i {
            0 => (Ldo25Voltage::V2_40, 0x0000_0000),
            1 => (Ldo25Voltage::V2_50, 0x0000_0001),
            2 => (Ldo25Voltage::V2_60, 0x0000_0002),
            3 => (Ldo25Voltage::V2_70, 0x0000_0003),
            4 => (Ldo25Voltage::V2_80, 0x0000_0004),
            5 => (Ldo25Voltage::V2_90, 0x0000_0005),
            6 => (Ldo25Voltage::V3_00, 0x0000_0006),
            7 => (Ldo25Voltage::V3_10, 0x0000_0007),
            _ => unreachable!(),
        };

        val = val.set_ldo25_voltage(vol);
        assert_eq!(val.ldo25_voltage(), vol);
        assert_eq!(val.0, reg_val);
    }
}

#[test]
fn struct_ldo18_config_functions() {
    let mut val = Ldo18Config(0x0);

    val = val.enable_atb2_ana();
    assert!(val.is_atb2_ana_enabled());
    assert_eq!(val.0, 0x0800_0000);
    val = val.disable_atb2_ana();
    assert!(!val.is_atb2_ana_enabled());
    assert_eq!(val.0, 0x0000_0000);

    for i in 0..4 {
        let (sel, reg_val) = match i {
            0 => (Atb2AnaSel::Atb2In0, 0x0000_0000),
            1 => (Atb2AnaSel::Atb2In1, 0x0100_0000),
            2 => (Atb2AnaSel::Atb2In2, 0x0200_0000),
            3 => (Atb2AnaSel::Atb2In3, 0x0300_0000),
            _ => continue,
        };

        val = val.set_atb2_ana_sel(sel);
        assert_eq!(val.atb2_ana_sel(), sel);
        assert_eq!(val.0, reg_val);
    }

    val = Ldo18Config(0x0).enable_ldo18_pd_fast();
    assert!(val.is_ldo18_pd_fast_enabled());
    assert_eq!(val.0, 0x0000_0020);
    val = val.disable_ldo18_pd_fast();
    assert!(!val.is_ldo18_pd_fast_enabled());
    assert_eq!(val.0, 0x0000_0000);

    val = val.enable_ldo18();
    assert!(val.is_ldo18_enabled());
    assert_eq!(val.0, 0x0000_0010);
    val = val.disable_ldo18();
    assert!(!val.is_ldo18_enabled());
    assert_eq!(val.0, 0x0000_0000);

    for i in 0..8 {
        let (vol, reg_val) = match i {
            0 => (Ldo18Voltage::V1_71, 0x0000_0000),
            1 => (Ldo18Voltage::V1_74, 0x0000_0001),
            2 => (Ldo18Voltage::V1_77, 0x0000_0002),
            3 => (Ldo18Voltage::V1_80, 0x0000_0003),
            4 => (Ldo18Voltage::V1_83, 0x0000_0004),
            5 => (Ldo18Voltage::V1_86, 0x0000_0005),
            6 => (Ldo18Voltage::V1_89, 0x0000_0006),
            7 => (Ldo18Voltage::V1_92, 0x0000_0007),
            _ => continue,
        };

        val = val.set_ldo18_voltage(vol);
        assert_eq!(val.ldo18_voltage(), vol);
        assert_eq!(val.0, reg_val);
    }
}

#[test]
fn struct_ldo1x_config_functions() {
    let mut val = Ldo1xConfig(0x0);

    val = val.enable_ldo1x_soft_mode();
    assert!(val.is_ldo1x_soft_mode_enabled());
    assert_eq!(val.0, 0x0000_0040);
    val = val.disable_ldo1x_soft_mode();
    assert!(!val.is_ldo1x_soft_mode_enabled());
    assert_eq!(val.0, 0x0000_0000);

    val = val.enable_ldo1_pd_fast();
    assert!(val.is_ldo1_pd_fast_enabled());
    assert_eq!(val.0, 0x0000_0020);
    val = val.disable_ldo1_pd_fast();
    assert!(!val.is_ldo1_pd_fast_enabled());
    assert_eq!(val.0, 0x0000_0000);

    val = val.enable_ldo1x();
    assert!(val.is_ldo1x_enabled());
    assert_eq!(val.0, 0x0000_0010);
    val = val.disable_ldo1x();
    assert!(!val.is_ldo1x_enabled());
    assert_eq!(val.0, 0x0000_0000);

    for i in 0..16 {
        let (vol, reg_val) = match i {
            0 => (Ldo1xVoltage::V0_90, 0x0000_0000),
            1 => (Ldo1xVoltage::V0_95, 0x0000_0001),
            2 => (Ldo1xVoltage::V1_00, 0x0000_0002),
            3 => (Ldo1xVoltage::V1_05, 0x0000_0003),
            4 => (Ldo1xVoltage::V1_10, 0x0000_0004),
            5 => (Ldo1xVoltage::V1_15, 0x0000_0005),
            6 => (Ldo1xVoltage::V1_20, 0x0000_0006),
            7 => (Ldo1xVoltage::V1_25, 0x0000_0007),
            8 => (Ldo1xVoltage::V1_30, 0x0000_0008),
            9 => (Ldo1xVoltage::V1_35, 0x0000_0009),
            10 => (Ldo1xVoltage::V1_40, 0x0000_000A),
            11 => (Ldo1xVoltage::V1_50, 0x0000_000B),
            12 => (Ldo1xVoltage::V1_60, 0x0000_000C),
            13 => (Ldo1xVoltage::V1_70, 0x0000_000D),
            14 => (Ldo1xVoltage::V1_80, 0x0000_000E),
            15 => (Ldo1xVoltage::V1_90, 0x0000_000F),
            _ => unreachable!(),
        };

        val = val.set_ldo1x_voltage(vol);
        assert_eq!(val.ldo1x_voltage(), vol);
        assert_eq!(val.0, reg_val);
    }
}

#[test]
fn struct_compare_config_functions() {
    let mut val = CompareConfig(0x0);

    val = val.set_cmp_db(0xFF);
    assert_eq!(val.cmp_db(), 0xFF);
    assert_eq!(val.0, 0xFF00_0000);

    val = CompareConfig(0x0).set_cmp_mode(CmpMode::HighVoltage);
    assert_eq!(val.cmp_mode(), CmpMode::HighVoltage);
    assert_eq!(val.0, 0x0000_0020);
    val = val.set_cmp_mode(CmpMode::LowVoltage);
    assert_eq!(val.cmp_mode(), CmpMode::LowVoltage);
    assert_eq!(val.0, 0x0000_0000);

    val = val.enable_cmp();
    assert!(val.is_cmp_enabled());
    assert_eq!(val.0, 0x0000_0010);
    val = val.disable_cmp();
    assert!(!val.is_cmp_enabled());
    assert_eq!(val.0, 0x0000_0000);

    for i in 0..8 {
        let (sel, reg_val) = match i {
            0 => (CmpVoltage::V0_90, 0x0000_0000),
            1 => (CmpVoltage::V0_85, 0x0000_0001),
            2 => (CmpVoltage::V0_80, 0x0000_0002),
            3 => (CmpVoltage::V0_75, 0x0000_0003),
            4 => (CmpVoltage::V0_70, 0x0000_0004),
            5 => (CmpVoltage::V0_65, 0x0000_0005),
            6 => (CmpVoltage::V0_60, 0x0000_0006),
            7 => (CmpVoltage::V0_55, 0x0000_0007),
            _ => unreachable!(),
        };

        val = val.set_cmp_voltage_sel(sel);
        assert_eq!(val.cmp_voltage_sel(), sel);
        assert_eq!(val.0, reg_val);
    }
}

#[test]
fn struct_usb0r_ext_functions() {
    let mut val = Usb0RExt(0x0);

    val = val.enable_res_cal();
    assert!(val.is_res_cal_enabled());
    assert_eq!(val.0, 0x0000_0100);
    val = val.disable_res_cal();
    assert!(!val.is_res_cal_enabled());
    assert_eq!(val.0, 0x0000_0000);

    val = val.set_res_cal_val(0xFF);
    assert_eq!(val.res_cal_val(), 0xFF);
    assert_eq!(val.0, 0x0000_00FF);
}

#[test]
fn struct_psen_config_functions() {
    let mut val = PsenConfig(0x0);

    val = val.set_cnt_time(0xFFFF);
    assert_eq!(val.cnt_time(), 0xFFFF);
    assert_eq!(val.0, 0xFFFF0000);

    val = PsenConfig(0x0);
    let rol_test_cases = [
        (RoSel::Rvt40Cell, 0x0000_0002),
        (RoSel::Lvt40Cell, 0x0000_0004),
        (RoSel::Ulvt40Cell, 0x0000_0006),
        (RoSel::Rvt50Cell, 0x0000_000A),
        (RoSel::Lvt50Cell, 0x0000_000C),
        (RoSel::Ulvt50Cell, 0x0000_000E),
    ];

    for (sel, reg_val) in rol_test_cases {
        val = val.set_ro_sel(sel);
        assert_eq!(val.ro_sel(), sel);
        assert_eq!(val.0, reg_val);
    }

    val = PsenConfig(0x0).set_psen_start(true);
    assert!(val.psen_start());
    assert_eq!(val.0, 0x0000_0001);
    val = val.set_psen_start(false);
    assert!(!val.psen_start());
    assert_eq!(val.0, 0x0000_0000);
}

#[test]
fn struct_psen_cnt_val_functions() {
    let val = PsenCntVal(0x0000_FFFF);
    assert_eq!(val.cnt_val(), 0xFFFF);
}

#[test]
fn struct_ge_sram_param_functions() {
    let val = GeSramParam(0x0).set_sram_par(0xFFFF);
    assert_eq!(val.sram_par(), 0xFFFF);
    assert_eq!(val.0, 0x0000_FFFF);
}

#[test]
fn struct_sram_clk_config_functions() {
    let mut val = SramClkConfig(0x0);

    val = val.enable_sys();
    assert!(val.is_sys_enabled());
    assert_eq!(val.0, 0x0000_0001);
    val = val.disable_sys();
    assert!(!val.is_sys_enabled());
    assert_eq!(val.0, 0x0000_0000);

    val = val.enable_ddr();
    assert!(val.is_ddr_enabled());
    assert_eq!(val.0, 0x0000_0002);
    val = val.disable_ddr();
    assert!(!val.is_ddr_enabled());
    assert_eq!(val.0, 0x0000_0000);

    val = val.enable_dma();
    assert!(val.is_dma_enabled());
    assert_eq!(val.0, 0x0000_0004);
    val = val.disable_dma();
    assert!(!val.is_dma_enabled());
    assert_eq!(val.0, 0x0000_0000);

    val = val.enable_gmac();
    assert!(val.is_gmac_enabled());
    assert_eq!(val.0, 0x0000_0008);
    val = val.disable_gmac();
    assert!(!val.is_gmac_enabled());
    assert_eq!(val.0, 0x0000_0000);

    val = val.enable_dvp();
    assert!(val.is_dvp_enabled());
    assert_eq!(val.0, 0x0000_0010);
    val = val.disable_dvp();
    assert!(!val.is_dvp_enabled());
    assert_eq!(val.0, 0x0000_0000);

    val = val.enable_ve();
    assert!(val.is_ve_enabled());
    assert_eq!(val.0, 0x0000_0020);
    val = val.disable_ve();
    assert!(!val.is_ve_enabled());
    assert_eq!(val.0, 0x0000_0000);

    val = val.enable_ge();
    assert!(val.is_ge_enabled());
    assert_eq!(val.0, 0x0000_0040);
    val = val.disable_ge();
    assert!(!val.is_ge_enabled());
    assert_eq!(val.0, 0x0000_0000);

    val = val.enable_de();
    assert!(val.is_de_enabled());
    assert_eq!(val.0, 0x0000_0080);
    val = val.disable_de();
    assert!(!val.is_de_enabled());
    assert_eq!(val.0, 0x0000_0000);

    val = val.enable_ce();
    assert!(val.is_ce_enabled());
    assert_eq!(val.0, 0x0000_0100);
    val = val.disable_ce();
    assert!(!val.is_ce_enabled());
    assert_eq!(val.0, 0x0000_0000);

    val = val.enable_uart();
    assert!(val.is_uart_enabled());
    assert_eq!(val.0, 0x0000_0400);
    val = val.disable_uart();
    assert!(!val.is_uart_enabled());
    assert_eq!(val.0, 0x0000_0000);

    val = val.enable_sd();
    assert!(val.is_sd_enabled());
    assert_eq!(val.0, 0x0000_0200);
    val = val.disable_sd();
    assert!(!val.is_sd_enabled());
    assert_eq!(val.0, 0x0000_0000);

    val = val.enable_usb();
    assert!(val.is_usb_enabled());
    assert_eq!(val.0, 0x0000_0800);
    val = val.disable_usb();
    assert!(!val.is_usb_enabled());
    assert_eq!(val.0, 0x0000_0000);

    val = val.enable_spi();
    assert!(val.is_spi_enabled());
    assert_eq!(val.0, 0x0000_1000);
    val = val.disable_spi();
    assert!(!val.is_spi_enabled());
    assert_eq!(val.0, 0x0000_0000);

    val = val.enable_mipi();
    assert!(val.is_mipi_enabled());
    assert_eq!(val.0, 0x0000_2000);
    val = val.disable_mipi();
    assert!(!val.is_mipi_enabled());
    assert_eq!(val.0, 0x0000_0000);

    val = val.enable_audio();
    assert!(val.is_audio_enabled());
    assert_eq!(val.0, 0x0000_8000);
    val = val.disable_audio();
    assert!(!val.is_audio_enabled());
    assert_eq!(val.0, 0x0000_0000);

    val = val.enable_sdfm();
    assert!(val.is_sdfm_enabled());
    assert_eq!(val.0, 0x0001_0000);
    val = val.disable_sdfm();
    assert!(!val.is_sdfm_enabled());
    assert_eq!(val.0, 0x0000_0000);

    val = val.enable_xspi();
    assert!(val.is_xspi_enabled());
    assert_eq!(val.0, 0x0002_0000);
    val = val.disable_xspi();
    assert!(!val.is_xspi_enabled());
    assert_eq!(val.0, 0x0000_0000);
}

#[test]
fn struct_sram_map_config_functions() {
    let mut val = SramMapConfig(0x0);

    let area_test_cases = [
        (AxiMatS0Area::Area0, 0x0000_0100),
        (AxiMatS0Area::Area1, 0x0000_0200),
        (AxiMatS0Area::Area2, 0x0000_0400),
        (AxiMatS0Area::Area3, 0x0000_0800),
        (AxiMatS0Area::Area4, 0x0000_1000),
        (AxiMatS0Area::Area5, 0x0000_2000),
        (AxiMatS0Area::Area6, 0x0000_4000),
        (AxiMatS0Area::Area7, 0x0000_8000),
    ];

    for (area, reg_val) in area_test_cases {
        val = val.enable_axi_mat_s0_area(area);
        assert!(val.is_axi_mat_s0_area_enabled(area));
        assert_eq!(val.0, reg_val);
        val = val.disable_axi_mat_s0_area(area);
        assert!(!val.is_axi_mat_s0_area_enabled(area));
        assert_eq!(val.0, 0x0000_0000);
    }

    val = SramMapConfig(0x0);
    for i in 0..7 {
        let (size, reg_val) = match i {
            0 => (AxiMatS1Size::Size0Kb, 0x0000_0000),
            1 => (AxiMatS1Size::Size128Kb, 0x0000_0010),
            2 => (AxiMatS1Size::Size256Kb, 0x0000_0020),
            3 => (AxiMatS1Size::Size384Kb, 0x0000_0030),
            4 => (AxiMatS1Size::Size512Kb, 0x0000_0040),
            5 => (AxiMatS1Size::Size640Kb, 0x0000_0050),
            6 => (AxiMatS1Size::Size768Kb, 0x0000_0060),
            _ => continue,
        };

        val = val.set_axi_mat_s1_size(size);
        assert_eq!(val.axi_mat_s1_size(), size);
        assert_eq!(val.0, reg_val);
    }

    val = SramMapConfig(0x0).set_cpu_tcm_sram_aclk_gate(true);
    assert!(val.cpu_tcm_sram_aclk_gate());
    assert_eq!(val.0, 0x0000_0002);
    val = val.set_cpu_tcm_sram_aclk_gate(false);
    assert!(!val.cpu_tcm_sram_aclk_gate());
    assert_eq!(val.0, 0x0000_0000);

    val = val.enable_cpu_tcm();
    assert!(val.is_cpu_tcm_enabled());
    assert_eq!(val.0, 0x0000_0001);
    val = val.disable_cpu_tcm();
    assert!(!val.is_cpu_tcm_enabled());
    assert_eq!(val.0, 0x0000_0000);
}

#[test]
fn struct_flash_config_functions() {
    let mut val = FlashConfig(0x0);

    for i in 0..6 {
        let (map, reg_val) = match i {
            0 => (FlashIomap012::WpSoCs, 0x0000_0000),
            1 => (FlashIomap012::WpCsSo, 0x0000_1000),
            2 => (FlashIomap012::SoWpCs, 0x0000_2000),
            3 => (FlashIomap012::SoCsWp, 0x0000_3000),
            4 => (FlashIomap012::CsWpSo, 0x0000_4000),
            5 => (FlashIomap012::CsSoWp, 0x0000_5000),
            _ => continue,
        };

        val = val.set_flash_iomap_012(map);
        assert_eq!(val.flash_iomap_012(), map);
        assert_eq!(val.0, reg_val);
    }

    val = FlashConfig(0x0);
    for i in 0..6 {
        let (map, reg_val) = match i {
            0 => (FlashIomap345::HoldSclkSi, 0x0000_0000),
            1 => (FlashIomap345::HoldSiSclk, 0x0000_0100),
            2 => (FlashIomap345::SclkHoldSi, 0x0000_0200),
            3 => (FlashIomap345::SclkSiHold, 0x0000_0300),
            4 => (FlashIomap345::SiHoldSclk, 0x0000_0400),
            5 => (FlashIomap345::SiSclkHold, 0x0000_0500),
            _ => continue,
        };

        val = val.set_flash_iomap_345(map);
        assert_eq!(val.flash_iomap_345(), map);
        assert_eq!(val.0, reg_val);
    }

    val = FlashConfig(0x0);
    for i in 0..4 {
        let (sel, reg_val) = match i {
            0 => (FlashSrcSel::Disabled, 0x0000_0000),
            1 => (FlashSrcSel::Pin, 0x0000_0001),
            2 => (FlashSrcSel::Spi0, 0x0000_0002),
            3 => (FlashSrcSel::Spi1, 0x0000_0003),
            _ => continue,
        };

        val = val.set_flash_src_sel(sel);
        assert_eq!(val.flash_src_sel(), sel);
        assert_eq!(val.0, reg_val);
    }
}

#[test]
fn struct_encoder_config_functions() {
    let mut val = EncoderConfig(0x0);

    for i in 0..4 {
        let (sel, reg_val) = match i {
            0 => (Enc0Sel::Qep0, 0x0000_0000),
            1 => (Enc0Sel::Edat0, 0x0000_0001),
            2 => (Enc0Sel::Ta0, 0x0000_0002),
            3 => (Enc0Sel::Bis0, 0x0000_0003),
            _ => continue,
        };

        val = val.set_enc0_sel(sel);
        assert_eq!(val.enc0_sel(), sel);
        assert_eq!(val.0, reg_val);
    }

    val = EncoderConfig(0x0);
    for i in 0..4 {
        let (sel, reg_val) = match i {
            0 => (Enc1Sel::Qep1, 0x0000_0000),
            1 => (Enc1Sel::Edat1, 0x0001_0000),
            2 => (Enc1Sel::Ta1, 0x0002_0000),
            3 => (Enc1Sel::Bis1, 0x0003_0000),
            _ => continue,
        };

        val = val.set_enc1_sel(sel);
        assert_eq!(val.enc1_sel(), sel);
        assert_eq!(val.0, reg_val);
    }
}

#[test]
fn struct_usb0_config_functions() {
    let mut val = Usb0Config(0x0);

    val = val.set_drd_mode(DrdMode::Device);
    assert_eq!(val.drd_mode(), DrdMode::Device);
    assert_eq!(val.0, 0x0000_0001);

    val = val.set_drd_mode(DrdMode::Host);
    assert_eq!(val.drd_mode(), DrdMode::Host);
    assert_eq!(val.0, 0x0000_0000);
}

#[test]
fn struct_emac_config_functions() {
    let mut val = EmacConfig(0x0);

    val = val.enable_refclk_inv();
    assert!(val.is_refclk_inv_enabled());
    assert_eq!(val.0, 0x2000_0000);
    val = val.disable_refclk_inv();
    assert!(!val.is_refclk_inv_enabled());
    assert_eq!(val.0, 0x0000_0000);

    val = val.set_refclk_dly_chain_sel(0x1F);
    assert_eq!(val.refclk_dly_chain_sel(), 0x1F);
    assert_eq!(val.0, 0x1F00_0000);

    val = EmacConfig(0x0).enable_rxclk_inv();
    assert!(val.is_rxclk_inv_enabled());
    assert_eq!(val.0, 0x0080_0000);
    val = val.disable_rxclk_inv();
    assert!(!val.is_rxclk_inv_enabled());
    assert_eq!(val.0, 0x0000_0000);

    val = val.set_rxclk_dly_sel(0x1F);
    assert_eq!(val.rxclk_dly_sel(), 0x1F);
    assert_eq!(val.0, 0x007C_0000);

    val = EmacConfig(0x0).enable_txclk_inv();
    assert!(val.is_txclk_inv_enabled());
    assert_eq!(val.0, 0x0002_0000);
    val = val.disable_txclk_inv();
    assert!(!val.is_txclk_inv_enabled());
    assert_eq!(val.0, 0x0000_0000);

    val = val.set_txclk_dly_chain_sel(0x1F);
    assert_eq!(val.txclk_dly_chain_sel(), 0x1F);
    assert_eq!(val.0, 0x0001_F000);

    val = EmacConfig(0x0).set_sw_txclk_div2(0xF);
    assert_eq!(val.sw_txclk_div2(), 0xF);
    assert_eq!(val.0, 0x0000_0F00);

    val = EmacConfig(0x0).set_sw_txclk_div1(0xF);
    assert_eq!(val.sw_txclk_div1(), 0xF);
    assert_eq!(val.0, 0x0000_00F0);

    val = EmacConfig(0x0).enable_sw_txclk_div();
    assert!(val.is_sw_txclk_div_enabled());
    assert_eq!(val.0, 0x0000_0004);
    val = val.disable_sw_txclk_div();
    assert!(!val.is_sw_txclk_div_enabled());
    assert_eq!(val.0, 0x0000_0000);

    val = val.set_rmii_extclk_sel(RmiiExtclkSel::Extclk);
    assert_eq!(val.rmii_extclk_sel(), RmiiExtclkSel::Extclk);
    assert_eq!(val.0, 0x0000_0002);
    val = val.set_rmii_extclk_sel(RmiiExtclkSel::Intclk);
    assert_eq!(val.rmii_extclk_sel(), RmiiExtclkSel::Intclk);
    assert_eq!(val.0, 0x0000_0000);
}

#[test]
fn struct_atb_cmu_ana_top_functions() {
    let mut val = AtbCmuAnaTop(0x0);

    for i in 0..29 {
        let (sel, reg_val) = match i {
            0 => (CmuAtbSel::Disable, 0x0000_0000),
            1 => (CmuAtbSel::VbiasVbp, 0x0000_0001),
            2 => (CmuAtbSel::VbiasVbpc, 0x0000_0002),
            3 => (CmuAtbSel::VbiasVbn, 0x0000_0003),
            4 => (CmuAtbSel::VbiasVbnc, 0x0000_0004),
            5 => (CmuAtbSel::VbiasVfbb, 0x0000_0005),
            6 => (CmuAtbSel::LdoDvDv, 0x0000_0006),
            7 => (CmuAtbSel::LdoDvVbpc, 0x0000_0007),
            8 => (CmuAtbSel::LdoDvVbp, 0x0000_0008),
            9 => (CmuAtbSel::LdoDvVbnc, 0x0000_0009),
            10 => (CmuAtbSel::LdoDvVbn, 0x0000_000A),
            11 => (CmuAtbSel::LdoAvInt0Av, 0x0000_000B),
            12 => (CmuAtbSel::LdoAvInt0Vbpc, 0x0000_000C),
            13 => (CmuAtbSel::LdoAvInt0Vbp, 0x0000_000D),
            14 => (CmuAtbSel::LdoAvInt0Vbnc, 0x0000_000E),
            15 => (CmuAtbSel::LdoAvInt0Vbn, 0x0000_000F),
            16 => (CmuAtbSel::LdoAvInt1Av, 0x0000_0010),
            17 => (CmuAtbSel::LdoAvFra0Av, 0x0000_0011),
            18 => (CmuAtbSel::LdoAvFra0Vbpc, 0x0000_0012),
            19 => (CmuAtbSel::LdoAvFra0Vbp, 0x0000_0013),
            20 => (CmuAtbSel::LdoAvFra0Vbnc, 0x0000_0014),
            21 => (CmuAtbSel::LdoAvFra0Vbn, 0x0000_0015),
            22 => (CmuAtbSel::LdoAvFra1Av, 0x0000_0016),
            23 => (CmuAtbSel::LdoAvFra2Av, 0x0000_0017),
            24 => (CmuAtbSel::Int0IbCp, 0x0000_0018),
            25 => (CmuAtbSel::Int1IbCp, 0x0000_0019),
            26 => (CmuAtbSel::Fra0IbCp, 0x0000_001A),
            27 => (CmuAtbSel::Fra1IbCp, 0x0000_001B),
            28 => (CmuAtbSel::Fra2IbCp, 0x0000_001C),
            _ => unreachable!(),
        };

        val = val.set_cmu_atbsel(sel);
        assert_eq!(val.cmu_atbsel(), sel);
        assert_eq!(val.0, reg_val);
    }
}

#[test]
fn struct_atb_dll_top_c_functions() {
    let mut val = AtbDllTopC(0x0);

    val = val.enable_dll0_atb();
    assert!(val.is_dll0_atb_enabled());
    assert_eq!(val.0, 0x0000_0001);
    val = val.disable_dll0_atb();
    assert!(!val.is_dll0_atb_enabled());
    assert_eq!(val.0, 0x0000_0000);

    for i in 0..7 {
        let (sel, reg_val) = match i {
            0 => (DllAtbSel::LockTest, 0x0000_0000),
            1 => (DllAtbSel::Vbn, 0x0000_0010),
            2 => (DllAtbSel::Vctrl, 0x0000_0020),
            3 => (DllAtbSel::Vbp, 0x0000_0030),
            4 => (DllAtbSel::Dvdd, 0x0000_0040),
            5 => (DllAtbSel::LdoVfb, 0x0000_0050),
            6 => (DllAtbSel::Icp, 0x0000_0060),
            _ => continue,
        };

        val = val.set_dll0_atb_sel(sel);
        assert_eq!(val.dll0_atb_sel(), sel);
        assert_eq!(val.0, reg_val);
    }

    val = AtbDllTopC(0x0).enable_dll1_atb();
    assert!(val.is_dll1_atb_enabled());
    assert_eq!(val.0, 0x0000_0100);
    val = val.disable_dll1_atb();
    assert!(!val.is_dll1_atb_enabled());
    assert_eq!(val.0, 0x0000_0000);

    for i in 0..7 {
        let (sel, reg_val) = match i {
            0 => (DllAtbSel::LockTest, 0x0000_0000),
            1 => (DllAtbSel::Vbn, 0x0000_1000),
            2 => (DllAtbSel::Vctrl, 0x0000_2000),
            3 => (DllAtbSel::Vbp, 0x0000_3000),
            4 => (DllAtbSel::Dvdd, 0x0000_4000),
            5 => (DllAtbSel::LdoVfb, 0x0000_5000),
            6 => (DllAtbSel::Icp, 0x0000_6000),
            _ => continue,
        };

        val = val.set_dll1_atb_sel(sel);
        assert_eq!(val.dll1_atb_sel(), sel);
        assert_eq!(val.0, reg_val);
    }
}

#[test]
fn struct_atb_gpadc_functions() {
    let mut val = AtbGpadc(0x0);

    for i in 0..4 {
        let (sel, reg_val) = match i {
            0 => (AtbSel0::RtpVin, 0x0000_0000),
            1 => (AtbSel0::Vrefp, 0x0000_0010),
            2 => (AtbSel0::Vrefn, 0x0000_0020),
            3 => (AtbSel0::RtpTouch, 0x0000_0030),
            _ => continue,
        };

        val = val.set_atb_sel(sel);
        assert_eq!(val.atb_sel(), sel);
        assert_eq!(val.0, reg_val);
    }

    val = AtbGpadc(0x0).enable_atb();
    assert!(val.is_atb_enabled());
    assert_eq!(val.0, 0x0000_0001);
    val = val.disable_atb();
    assert!(!val.is_atb_enabled());
    assert_eq!(val.0, 0x0000_0000);
}

#[test]
fn struct_atb_mipi_dphy_functions() {
    let mut val = AtbMipiDphy(0x0);

    for i in 0..4 {
        let (sel, reg_val) = match i {
            0 => (AtbSel1::VresAtb, 0x0000_0000),
            1 => (AtbSel1::Ipn5uAtb, 0x0000_0010),
            2 => (AtbSel1::V0p4Atb, 0x0000_0020),
            3 => (AtbSel1::Vpck, 0x0000_0030),
            _ => continue,
        };

        val = val.set_atb_sel(sel);
        assert_eq!(val.atb_sel(), sel);
        assert_eq!(val.0, reg_val);
    }

    val = AtbMipiDphy(0x0).enable_atb();
    assert!(val.is_atb_enabled());
    assert_eq!(val.0, 0x0000_0001);
    val = val.disable_atb();
    assert!(!val.is_atb_enabled());
    assert_eq!(val.0, 0x0000_0000);
}

#[test]
fn struct_atb_rtc_ana_top_functions() {
    let mut val = AtbRtcAnaTop(0x0);

    for i in 0..4 {
        let (sel, reg_val) = match i {
            0 => (AtbSel2::VrefOut, 0x0000_0000),
            1 => (AtbSel2::Vosc, 0x0000_0010),
            2 => (AtbSel2::IbpIbas, 0x0000_0020),
            3 => (AtbSel2::IbpVdet, 0x0000_0030),
            _ => continue,
        };

        val = val.set_atb_sel(sel);
        assert_eq!(val.atb_sel(), sel);
        assert_eq!(val.0, reg_val);
    }

    val = AtbRtcAnaTop(0x0).enable_atb();
    assert!(val.is_atb_enabled());
    assert_eq!(val.0, 0x0000_0001);
    val = val.disable_atb();
    assert!(!val.is_atb_enabled());
    assert_eq!(val.0, 0x0000_0000);
}

#[test]
fn struct_atb_usb_pll_afe_functions() {
    let mut val = AtbUsbPllAfe(0x0);

    for i in 0..17 {
        let (sel, reg_val) = match i {
            0 => (SubpllAtb::Disable, 0x0000_0000),
            1 => (SubpllAtb::VbiasVbp, 0x0000_0001),
            2 => (SubpllAtb::VbiasVbpc, 0x0000_0002),
            3 => (SubpllAtb::VbiasVbn, 0x0000_0003),
            4 => (SubpllAtb::VbiasVbnc, 0x0000_0004),
            5 => (SubpllAtb::VbiasVfbb, 0x0000_0005),
            6 => (SubpllAtb::LdoDvDv, 0x0000_0006),
            7 => (SubpllAtb::LdoDvVbpc, 0x0000_0007),
            8 => (SubpllAtb::LdoDvVbp, 0x0000_0008),
            9 => (SubpllAtb::LdoDvVbnc, 0x0000_0009),
            10 => (SubpllAtb::LdoDvVbn, 0x0000_000A),
            11 => (SubpllAtb::LdoAvInt0Av, 0x0000_000B),
            12 => (SubpllAtb::LdoAvInt0Vbpc, 0x0000_000C),
            13 => (SubpllAtb::LdoAvInt0Vbp, 0x0000_000D),
            14 => (SubpllAtb::LdoAvInt0Vbnc, 0x0000_000E),
            15 => (SubpllAtb::LdoAvInt0Vbn, 0x0000_000F),
            16 => (SubpllAtb::Int0IbCp, 0x0000_0010),
            _ => continue,
        };

        val = val.set_subpll_atb(sel);
        assert_eq!(val.subpll_atb(), sel);
        assert_eq!(val.0, reg_val);
    }
}

#[test]
fn struct_atb_usb_phy_afe_functions() {
    let mut val = AtbUsbPhyAfe(0x0);

    val = val.enable_atb_op();
    assert!(val.is_atb_op_enabled());
    assert_eq!(val.0, 0x0000_0002);
    val = val.disable_atb_op();
    assert!(!val.is_atb_op_enabled());
    assert_eq!(val.0, 0x0000_0000);

    val = val.enable_avdd_atb();
    assert!(val.is_avdd_atb_enabled());
    assert_eq!(val.0, 0x0000_0001);
    val = val.disable_avdd_atb();
    assert!(!val.is_avdd_atb_enabled());
    assert_eq!(val.0, 0x0000_0000);

    for i in 0..4 {
        let (sel, reg_val) = match i {
            0 => (TxTestSel::AtbOpAvddAtb, 0x0000_0000),
            1 => (TxTestSel::Vref, 0x0000_0010),
            2 => (TxTestSel::Vreg, 0x0000_0020),
            3 => (TxTestSel::Rtune, 0x0000_0030),
            _ => continue,
        };

        val = val.set_tx_test_sel(sel);
        assert_eq!(val.tx_test_sel(), sel);
        assert_eq!(val.0, reg_val);
    }

    val = AtbUsbPhyAfe(0x0);
    let sqrx_test_cases = [
        (SqrxTestSel::SqOffsetP, 0x0000_0100),
        (SqrxTestSel::SqOffsetM, 0x0000_0200),
        (SqrxTestSel::Dp, 0x0000_0800),
        (SqrxTestSel::Dm, 0x0000_1000),
    ];

    for (sel, reg_val) in sqrx_test_cases {
        val = val.enable_sqrx(sel);
        assert!(val.is_sqrx_enabled(sel));
        assert_eq!(val.0, reg_val);
        val = val.disable_sqrx(sel);
        assert!(!val.is_sqrx_enabled(sel));
        assert_eq!(val.0, 0x0000_0000);
    }
}
