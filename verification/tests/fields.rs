use artinchip_hal::bits::extract;
use artinchip_hal::rtc::{
    Analog0, Analog1, BootInfo, Calibration1, CaliDirection, Control, Detect32k, Init,
    IoOutputSel, Ldo1P1CurSel, Ldo1P1Vol, Ldo1P8Vol, Time,
};
use artinchip_hal::sid::{Address, EfuseStatus, TimingLow};
use artinchip_hal::spi_enc::EncBus;
use artinchip_hal::sys_cfg::{
    AtbCmuAnaTop, AtbUsbPhyAfe, AxiMatS0Area, CmpMode, CmpVoltage, CmuAtbSel, CompareConfig,
    EmacConfig, FlashConfig, FlashSrcSel, Ldo25Config, Ldo25Voltage, PsenConfig, RoSel,
    SqrxTestSel, SramMapConfig,
};
use artinchip_hal::xspi::{
    CsControl, CsIoConfig1, FifoControl, Format, FormatSel, IoCfg, IoControl, LockCfg, LockConfig,
    Lut, Phase, PinPull, Polarity, RdSampleCtrl, Start, TransControl,
};

/// A handful of words that between them set and clear every bit.
const WORDS: [u32; 6] = [
    0x0000_0000,
    0xFFFF_FFFF,
    0xAAAA_AAAA,
    0x5555_5555,
    0x1234_5678,
    0xDEAD_BEEF,
];

#[test]
fn rtc_control_end_to_end() {
    let mut val = Control(0);
    assert!(!val.rtc_io_level());
    assert!(!val.is_rtc_io_input_enabled());
    assert!(!val.is_alarm_enabled());
    assert!(!val.is_time_cnt_enabled());
    assert_eq!(val.rtc_io_output_selection(), IoOutputSel::Disabled);

    val = val.enable_rtc_io_input();
    assert_eq!(val.0, 0x40);
    assert!(val.is_rtc_io_input_enabled());
    assert_eq!(val.rtc_io_output_selection(), IoOutputSel::Disabled);

    val = val.set_rtc_io_output_selection(IoOutputSel::ClockOutputs);
    assert_eq!(val.0, 0x70);
    assert_eq!(val.rtc_io_output_selection(), IoOutputSel::ClockOutputs);
    assert!(val.is_rtc_io_input_enabled());

    val = val.enable_alarm();
    assert_eq!(val.0, 0x74);
    assert!(val.is_alarm_enabled());
    assert!(!val.is_time_cnt_enabled());

    val = val.enable_time_cnt();
    assert_eq!(val.0, 0x75);
    assert!(val.is_time_cnt_enabled());
    assert!(val.is_alarm_enabled());
    assert!(val.is_rtc_io_input_enabled());
    assert_eq!(val.rtc_io_output_selection(), IoOutputSel::ClockOutputs);
    assert!(!val.rtc_io_level());
}

#[test]
fn extract_reads_the_bits_of_a_field() {
    assert_eq!(extract(0x1234_5678, 0, 4), 0x8);
    assert_eq!(extract(0x1234_5678, 4, 8), 0x67);
    assert_eq!(extract(0x1234_5678, 16, 16), 0x1234);
    assert_eq!(extract(0x1234_5678, 0, 32), 0x1234_5678);
    assert_eq!(extract(0x8000_0000, 31, 1), 1);
    assert_eq!(extract(0x7FFF_FFFF, 31, 1), 0);
    assert_eq!(extract(0, 5, 7), 0);
}

#[test]
fn a_written_number_reads_back_and_the_rest_stays() {
    for raw in WORDS {
        for level in [0u16, 1, 0x155, 0x2AA, 0x3FF] {
            let val = Detect32k(raw).set_det_level(level);
            assert_eq!(val.det_level(), level);
            assert_eq!(val.0 & !0x03FF_0000, raw & !0x03FF_0000);
            assert_eq!(val.0, (raw & !0x03FF_0000) | (u32::from(level) << 16));
            assert_eq!(val.is_enabled(), Detect32k(raw).is_enabled());
        }
        for cycles in [0u8, 1, 0x5A, 0xFF] {
            let val = TimingLow(raw).set_rd_high_level_duration(cycles);
            assert_eq!(val.rd_high_level_duration(), cycles);
            assert_eq!(val.rd_data_proc_time(), TimingLow(raw).rd_data_proc_time());
            assert_eq!(val.wr_data_proc_time(), TimingLow(raw).wr_data_proc_time());
            assert_eq!(val.wr_high_level_duration(), TimingLow(raw).wr_high_level_duration());
        }
    }
}

#[test]
fn a_written_flag_reads_back_and_the_rest_stays() {
    for raw in WORDS {
        let on = Control(raw).enable_alarm();
        assert!(on.is_alarm_enabled());
        assert_eq!(on.0, raw | 0x4);
        let off = Control(raw).disable_alarm();
        assert!(!off.is_alarm_enabled());
        assert_eq!(off.0, raw & !0x4);
        for val in [on, off] {
            assert_eq!(val.rtc_io_level(), Control(raw).rtc_io_level());
            assert_eq!(val.is_rtc_io_input_enabled(), Control(raw).is_rtc_io_input_enabled());
            assert_eq!(val.rtc_io_output_selection(), Control(raw).rtc_io_output_selection());
            assert_eq!(val.is_time_cnt_enabled(), Control(raw).is_time_cnt_enabled());
        }
        for set in [false, true] {
            let val = Init(raw).set_time_cnt_init(set);
            assert_eq!(val.time_cnt_init(), set);
            assert_eq!(val.0 & !0x1, raw & !0x1);
        }
    }
}

#[test]
fn a_written_value_reads_back_and_the_rest_stays() {
    let sels = [
        (IoOutputSel::Disabled, 0x00),
        (IoOutputSel::ActiveLow, 0x10),
        (IoOutputSel::AlarmTrigger, 0x20),
        (IoOutputSel::ClockOutputs, 0x30),
    ];
    for raw in WORDS {
        for (sel, bits) in sels {
            let val = Control(raw).set_rtc_io_output_selection(sel);
            assert_eq!(val.rtc_io_output_selection(), sel);
            assert_eq!(val.0, (raw & !0x30) | bits);
            assert_eq!(val.is_alarm_enabled(), Control(raw).is_alarm_enabled());
            assert_eq!(val.rtc_io_level(), Control(raw).rtc_io_level());
        }
        for direction in [CaliDirection::Decrease, CaliDirection::Increase] {
            let val = Calibration1(raw).set_cali_direction(direction);
            assert_eq!(val.cali_direction(), direction);
            assert_eq!(val.cali_value_high(), Calibration1(raw).cali_value_high());
        }
    }
}

#[test]
fn writing_back_what_was_read_changes_nothing() {
    for raw in WORDS {
        let time = Time(raw);
        assert_eq!(time.set_time(time.time()), time);
        let control = Control(raw);
        assert_eq!(control.set_rtc_io_output_selection(control.rtc_io_output_selection()), control);
        let init = Init(raw);
        assert_eq!(init.set_time_cnt_init(init.time_cnt_init()), init);
        let info = BootInfo(raw);
        assert_eq!(info.set_reboot_reason(info.reboot_reason()), info);
    }
}

#[test]
fn the_last_write_to_a_field_wins() {
    for raw in WORDS {
        let once = BootInfo(raw).set_boot_dev(0x9);
        let twice = BootInfo(raw).set_boot_dev(0x6).set_boot_dev(0x9);
        assert_eq!(once, twice);
        assert_eq!(once.set_boot_dev(0x9), once);
        let on = Analog0(raw).enable_ldo18();
        assert_eq!(on.enable_ldo18(), on);
    }
}

#[test]
fn writes_to_different_fields_do_not_disturb_each_other() {
    for raw in WORDS {
        let one = BootInfo(raw).set_reboot_reason(0xA).set_boot_dev(0x5);
        let other = BootInfo(raw).set_boot_dev(0x5).set_reboot_reason(0xA);
        assert_eq!(one, other);
        assert_eq!(one.reboot_reason(), 0xA);
        assert_eq!(one.boot_dev(), 0x5);
        assert_eq!(one.0, (raw & !0xFF) | 0xA5);
    }
}

#[test]
fn the_largest_number_of_each_bounded_field_is_taken() {
    assert_eq!(Calibration1(0).set_cali_value_high(3).cali_value_high(), 3);
    assert_eq!(BootInfo(0).set_reboot_reason(15).0, 0xF0);
    assert_eq!(BootInfo(0).set_boot_dev(15).0, 0x0F);
    assert_eq!(Detect32k(0).set_det_level(0x3FF).0, 0x03FF_0000);
    assert_eq!(artinchip_hal::sid::Control(0).set_efuse_op_code(0xFFF).0, 0x0FFF_0000);
    assert_eq!(Address(0).set_efuse_addr(0x1FF).0, 0x1FF);
    assert_eq!(EmacConfig(0).set_refclk_dly_chain_sel(0x1F).0, 0x1F00_0000);
    assert_eq!(FifoControl(0).set_rx_trigger_level(0x7F).rx_trigger_level(), 0x7F);
    assert_eq!(Lut(0).set_instr1(0x3F).0, 0xFC00_0000);
    assert_eq!(Lut(0).set_instr0(0x3F).0, 0x0000_FC00);
}

#[test]
fn the_start_group_takes_the_numbers_of_the_eight_groups() {
    for group in 0..8u8 {
        let val = Start(0xFFFF_FFF0).set_start_group(group);
        assert_eq!(val.0, 0xFFFF_FFF0 | u32::from(group));
    }
}

#[test]
fn the_efuse_address_is_written_and_the_rest_stays() {
    for raw in WORDS {
        let val = Address(raw).set_efuse_addr(0x1A4);
        assert_eq!(val.0, (raw & !0x1FF) | 0x1A4);
        assert_eq!(val.efuse_addr(), 0x1A4);
    }
    assert_eq!(Address(0xFFFF_FE00).set_efuse_addr(0x1FF).0, 0xFFFF_FFFF);
    assert_eq!(Address(0xFFFF_FFFF).set_efuse_addr(0).0, 0xFFFF_FE00);
}

#[test]
fn every_ldo25_voltage_reads_back() {
    let voltages = [
        Ldo25Voltage::V2_40,
        Ldo25Voltage::V2_50,
        Ldo25Voltage::V2_60,
        Ldo25Voltage::V2_70,
        Ldo25Voltage::V2_80,
        Ldo25Voltage::V2_90,
        Ldo25Voltage::V3_00,
        Ldo25Voltage::V3_10,
    ];
    for (code, vol) in voltages.into_iter().enumerate() {
        let val = Ldo25Config(0).set_ldo25_voltage(vol);
        assert_eq!(val.0, code as u32);
        assert_eq!(val.ldo25_voltage(), vol);
        let val = Ldo25Config(0xFFFF_FFFF).set_ldo25_voltage(vol);
        assert_eq!(val.0, 0xFFFF_FFF8 | code as u32);
        assert_eq!(val.ldo25_voltage(), vol);
    }
}

#[test]
fn every_value_of_a_partly_used_field_reads_back() {
    let voltages = [
        (Ldo1P1Vol::V1_10, 0x0),
        (Ldo1P1Vol::V1_05, 0x2),
        (Ldo1P1Vol::V1_00, 0x4),
        (Ldo1P1Vol::V0_95, 0x6),
        (Ldo1P1Vol::V0_90, 0x8),
        (Ldo1P1Vol::V0_85, 0xA),
        (Ldo1P1Vol::V0_80, 0xC),
    ];
    for (vol, bits) in voltages {
        let val = Analog1(0xFFFF_FFFF).set_ldo11_vol(vol);
        assert_eq!(val.0, 0xFFFF_FFF1 | bits);
        assert_eq!(val.ldo11_vol(), vol);
        assert_eq!(val.pd_cur_sel(), Ldo1P1CurSel::I3_0uA);
    }
    let cells = [
        (RoSel::Rvt40Cell, 1),
        (RoSel::Lvt40Cell, 2),
        (RoSel::Ulvt40Cell, 3),
        (RoSel::Rvt50Cell, 5),
        (RoSel::Lvt50Cell, 6),
        (RoSel::Ulvt50Cell, 7),
    ];
    for (sel, code) in cells {
        assert_eq!(sel.bits(), code);
        let val = PsenConfig(0xFFFF_FFFF).set_ro_sel(sel);
        assert_eq!(val.0, 0xFFFF_FFF1 | (code << 1));
        assert_eq!(val.ro_sel(), sel);
        assert_eq!(val.cnt_time(), 0xFFFF);
    }
    for (cfg, code) in [(LockCfg::Locked, 1), (LockCfg::Unlocked, 2)] {
        assert_eq!(cfg as u32, code);
        let val = LockConfig(0).set_lock_cfg(cfg);
        assert_eq!(val.0, code);
        assert_eq!(val.lock_cfg(), cfg);
    }
    for (pull, code) in [(PinPull::Disabled, 0), (PinPull::PullDown, 2), (PinPull::PullUp, 3)] {
        assert_eq!(pull as u32, code);
        let val = CsIoConfig1(0).set_d7_pin_pull(pull);
        assert_eq!(val.0, code << 28);
        assert_eq!(val.d7_pin_pull(), pull);
    }
}

#[test]
fn every_word_reads_as_a_value() {
    for raw in WORDS {
        let code = extract(raw, 8, 5);
        let status = artinchip_hal::sid::Control(raw).efuse_status();
        if code == 1 || code == 2 || code == 4 || code == 8 {
            assert_eq!(status.bits(), code);
        } else {
            assert_eq!(status, EfuseStatus::Reserved);
        }
        let code = extract(raw, 1, 3);
        let vol = Analog1(raw).ldo11_vol();
        if code <= 6 {
            assert_eq!(Analog1(0).set_ldo11_vol(vol).0, code << 1);
        } else {
            assert_eq!(vol, Ldo1P1Vol::Reserved);
        }
    }
    assert_eq!(artinchip_hal::sid::Control(0x0000_0400).efuse_status(), EfuseStatus::Programming);
    assert_eq!(EfuseStatus::BootReading.bits(), 1);
    assert_eq!(EfuseStatus::Idle.bits(), 2);
    assert_eq!(EfuseStatus::Programming.bits(), 4);
    assert_eq!(EfuseStatus::Reading.bits(), 8);
    assert_eq!(EfuseStatus::Reserved.bits(), 0);
}

#[test]
fn a_pattern_without_a_meaning_reads_as_reserved() {
    assert_eq!(AtbCmuAnaTop(28).cmu_atbsel(), CmuAtbSel::Fra2IbCp);
    for code in 29..32 {
        assert_eq!(AtbCmuAnaTop(code).cmu_atbsel(), CmuAtbSel::Reserved);
        assert_eq!(AtbCmuAnaTop(0xFFFF_FFE0 | code).cmu_atbsel(), CmuAtbSel::Reserved);
    }
    assert_eq!(LockConfig(0).lock_cfg(), LockCfg::Reserved);
    assert_eq!(LockConfig(3).lock_cfg(), LockCfg::Reserved);
    assert_eq!(LockConfig(1).lock_cfg(), LockCfg::Locked);
    assert_eq!(LockConfig(2).lock_cfg(), LockCfg::Unlocked);
    assert_eq!(artinchip_hal::spi_enc::Control(0x3000).enc_bus(), EncBus::Reserved);
    assert_eq!(artinchip_hal::spi_enc::Control(0x2000).enc_bus(), EncBus::Spi1);
    assert_eq!(artinchip_hal::sid::Control(0).efuse_status(), EfuseStatus::Reserved);
    assert_eq!(artinchip_hal::sid::Control(0x0000_0300).efuse_status(), EfuseStatus::Reserved);
    assert_eq!(PsenConfig(0).ro_sel(), RoSel::Reserved);
    assert_eq!(PsenConfig(0x8).ro_sel(), RoSel::Reserved);
    assert_eq!(CsIoConfig1(0x1000_0000).d7_pin_pull(), PinPull::Reserved);
    assert_eq!(Format(7).format_sel(), FormatSel::Reserved);
}

#[test]
fn reserved_is_written_as_the_lowest_pattern_without_a_meaning() {
    let val = AtbCmuAnaTop(0xFFFF_FFFF).set_cmu_atbsel(CmuAtbSel::Reserved);
    assert_eq!(val.0, 0xFFFF_FFE0 | 29);
    assert_eq!(val.cmu_atbsel(), CmuAtbSel::Reserved);
    let val = LockConfig(0xFFFF_FFFF).set_lock_cfg(LockCfg::Reserved);
    assert_eq!(val.0, 0xFFFF_FFFC);
    assert_eq!(val.lock_cfg(), LockCfg::Reserved);
    let val = artinchip_hal::spi_enc::Control(0).set_enc_bus(EncBus::Reserved);
    assert_eq!(val.0, 0x3000);
    assert_eq!(val.enc_bus(), EncBus::Reserved);
    let val = CsIoConfig1(0).set_d7_pin_pull(PinPull::Reserved);
    assert_eq!(val.0, 0x1000_0000);
    assert_eq!(val.d7_pin_pull(), PinPull::Reserved);
    assert_eq!(PinPull::Reserved as u32, 1);
    assert_eq!(LockCfg::Reserved as u32, 0);
    assert_eq!(RoSel::Reserved.bits(), 0);
}

#[test]
fn the_zero_word_reads_as_off_and_as_the_first_values() {
    assert!(!Control(0).rtc_io_level());
    assert!(!Control(0).is_alarm_enabled());
    assert!(!Init(0).time_cnt_init());
    assert!(!Analog0(0).is_ldo18_enabled());
    assert_eq!(Control(0).rtc_io_output_selection(), IoOutputSel::Disabled);
    assert_eq!(Calibration1(0).cali_direction(), CaliDirection::Decrease);
    assert_eq!(Analog0(0).ldo18_vol(), Ldo1P8Vol::V1_9);
    assert_eq!(Analog1(0).ldo11_vol(), Ldo1P1Vol::V1_10);
    assert_eq!(Ldo25Config(0).ldo25_voltage(), Ldo25Voltage::V2_40);
    assert_eq!(FlashConfig(0).flash_src_sel(), FlashSrcSel::Disabled);
    assert_eq!(Format(0).format_sel(), FormatSel::LutConfig);
    assert_eq!(TransControl(0).clk_pol(), Polarity::IdleLow);
    assert_eq!(TransControl(0).clk_pha(), Phase::CaptureOnFirstTransition);
    assert_eq!(Time(0).time(), 0);
    assert_eq!(Detect32k(0).det_level(), 0);
}

#[test]
fn the_chip_select_io_flags_are_on_when_their_bits_are_set() {
    assert!(!IoControl(0).is_cs0_io_enabled());
    assert!(!IoControl(0).is_cs1_io_enabled());
    assert!(IoControl(0x3).is_cs0_io_enabled());
    assert!(IoControl(0x3).is_cs1_io_enabled());
    assert_eq!(IoControl(0).enable_cs1_io().0, 0x2);
    assert_eq!(IoControl(0).enable_cs0_io().0, 0x1);
    assert_eq!(IoControl(0x3).disable_cs1_io().0, 0x1);
    assert_eq!(IoControl(0x3).disable_cs0_io().0, 0x2);
    assert!(IoControl(0xFFFF_FFFC).enable_cs0_io().is_cs0_io_enabled());
    assert!(!IoControl(0xFFFF_FFFC).enable_cs0_io().is_cs1_io_enabled());
}

#[test]
fn register_values_are_ordered_as_their_words() {
    assert!(Control(0x10) < Control(0x20));
    assert!(Control(0xFFFF_FFFF) > Control(0x7FFF_FFFF));
    assert!(Time(5) <= Time(5));
    assert_eq!(Control(3).max(Control(7)), Control(7));
    let mut words = [Time(9), Time(0), Time(0xFFFF_FFFF), Time(4)];
    words.sort();
    assert_eq!(words, [Time(0), Time(4), Time(9), Time(0xFFFF_FFFF)]);
}

#[test]
fn both_upper_codes_of_the_read_sample_field_name_the_dqs_delay_chain() {
    assert_eq!(CsControl(0).rd_sample_ctrl(), RdSampleCtrl::DqsDll);
    assert_eq!(CsControl(1).rd_sample_ctrl(), RdSampleCtrl::InternalDelayChain);
    assert_eq!(CsControl(2).rd_sample_ctrl(), RdSampleCtrl::DqsDelayChain);
    assert_eq!(CsControl(3).rd_sample_ctrl(), RdSampleCtrl::DqsDelayChain);
    assert_eq!(CsControl(3).set_rd_sample_ctrl(RdSampleCtrl::DqsDelayChain).0, 2);
}

#[test]
fn each_area_and_each_test_input_has_a_bit_of_its_own() {
    let areas = [
        (AxiMatS0Area::Area0, 0x01),
        (AxiMatS0Area::Area1, 0x02),
        (AxiMatS0Area::Area2, 0x04),
        (AxiMatS0Area::Area3, 0x08),
        (AxiMatS0Area::Area4, 0x10),
        (AxiMatS0Area::Area5, 0x20),
        (AxiMatS0Area::Area6, 0x40),
        (AxiMatS0Area::Area7, 0x80),
    ];
    for (area, code) in areas {
        assert_eq!(area.bits(), code);
        let on = SramMapConfig(0).enable_axi_mat_s0_area(area);
        assert_eq!(on.0, code << 8);
        for (other, _) in areas {
            assert_eq!(on.is_axi_mat_s0_area_enabled(other), other == area);
        }
        let off = SramMapConfig(0xFFFF_FFFF).disable_axi_mat_s0_area(area);
        assert_eq!(off.0, !(code << 8));
        for (other, _) in areas {
            assert_eq!(off.is_axi_mat_s0_area_enabled(other), other != area);
        }
    }
    let inputs = [
        (SqrxTestSel::SqOffsetP, 0x01),
        (SqrxTestSel::SqOffsetM, 0x02),
        (SqrxTestSel::Dp, 0x08),
        (SqrxTestSel::Dm, 0x10),
    ];
    for (sel, code) in inputs {
        assert_eq!(sel.bits(), code);
        let on = AtbUsbPhyAfe(0).enable_sqrx(sel);
        assert_eq!(on.0, code << 8);
        assert!(on.is_sqrx_enabled(sel));
        let off = AtbUsbPhyAfe(0xFFFF_FFFF).disable_sqrx(sel);
        assert_eq!(off.0, !(code << 8));
        assert!(!off.is_sqrx_enabled(sel));
    }
}

#[test]
fn the_compare_register_holds_debounce_mode_and_voltage() {
    for raw in WORDS {
        let val = CompareConfig(raw).set_cmp_db(0xC3);
        assert_eq!(val.cmp_db(), 0xC3);
        assert_eq!(val.0, (raw & 0x00FF_FFFF) | 0xC300_0000);
        for (mode, bits) in [(CmpMode::LowVoltage, 0x00), (CmpMode::HighVoltage, 0x20)] {
            let val = CompareConfig(raw).set_cmp_mode(mode);
            assert_eq!(val.cmp_mode(), mode);
            assert_eq!(val.0, (raw & !0x20) | bits);
        }
    }
    assert_eq!(CompareConfig(0).set_cmp_voltage_sel(CmpVoltage::V0_75).0, 3);
    assert_eq!(CmpVoltage::V0_75.bits(), 3);
    assert_eq!(CmpMode::LowVoltage.bits(), 0);
    assert_eq!(CmpMode::HighVoltage.bits(), 1);
}

#[test]
fn a_lut_entry_holds_two_instructions() {
    let entry = Lut(0)
        .set_instr0(0x01)
        .set_io_cfg0(IoCfg::OneIo)
        .set_operand0(0xEB)
        .set_instr1(0x02)
        .set_io_cfg1(IoCfg::FourIo)
        .set_operand1(0x18);
    assert_eq!(entry.0, 0x0A18_04EB);
    assert_eq!(entry.instr0(), 0x01);
    assert_eq!(entry.io_cfg0(), IoCfg::OneIo);
    assert_eq!(entry.operand0(), 0xEB);
    assert_eq!(entry.instr1(), 0x02);
    assert_eq!(entry.io_cfg1(), IoCfg::FourIo);
    assert_eq!(entry.operand1(), 0x18);
}
