use artinchip_hal::rtc::{
    Alarm, Analog0, Analog1, Analog2, Analog3, AonIrqEnable, AonIrqStatus, AtbSel, BootInfo,
    CaliDirection, Calibration0, Calibration1, Control, Detect32k, Init, IoOutputSel, Ldo1P1CurSel,
    Ldo1P1Vol, Ldo1P8Vol, Rc1mIsel, RegisterBlock, SysBackup, Time, WriteKey,
};

#[test]
fn struct_register_block_offset() {
    let block = RegisterBlock::at(0x0);
    assert_eq!(block.ctrl, 0x0);
    assert_eq!(block.init, 0x4);
    assert_eq!(block.aon_int_en, 0x8);
    assert_eq!(block.aon_int_status, 0xC);
    assert_eq!(block.time, 0x20);
    assert_eq!(block.alarm, 0x30);
    assert_eq!(block.cali0, 0x40);
    assert_eq!(block.cali1, 0x44);
    assert_eq!(block.analog0, 0x50);
    assert_eq!(block.analog1, 0x54);
    assert_eq!(block.analog2, 0x58);
    assert_eq!(block.analog3, 0x5C);
    assert_eq!(block.write_key, 0xFC);
    assert_eq!(block.boot_info, 0x100);
    assert_eq!(block.sys_backup, 0x104);
    assert_eq!(block.tcnt_val, 0x800);
    assert_eq!(block.detect_32k, 0x804);
    assert_eq!(block.version, 0x8FC);
}

#[test]
fn struct_control_functions() {
    let mut val = Control(0x0000_0080);
    assert!(val.rtc_io_level());

    val = Control(0x0).enable_rtc_io_input();
    assert!(val.is_rtc_io_input_enabled());
    assert_eq!(val.0, 0x0000_0040);
    val = val.disable_rtc_io_input();
    assert!(!val.is_rtc_io_input_enabled());
    assert_eq!(val.0, 0x0000_0000);

    val = val.set_rtc_io_output_selection(IoOutputSel::ClockOutputs);
    assert_eq!(val.rtc_io_output_selection(), IoOutputSel::ClockOutputs);
    assert_eq!(val.0, 0x0000_0030);
    val = val.set_rtc_io_output_selection(IoOutputSel::AlarmTrigger);
    assert_eq!(val.rtc_io_output_selection(), IoOutputSel::AlarmTrigger);
    assert_eq!(val.0, 0x0000_0020);
    val = val.set_rtc_io_output_selection(IoOutputSel::ActiveLow);
    assert_eq!(val.rtc_io_output_selection(), IoOutputSel::ActiveLow);
    assert_eq!(val.0, 0x0000_0010);
    val = val.set_rtc_io_output_selection(IoOutputSel::Disabled);
    assert_eq!(val.rtc_io_output_selection(), IoOutputSel::Disabled);
    assert_eq!(val.0, 0x0000_0000);

    val = val.enable_alarm();
    assert!(val.is_alarm_enabled());
    assert_eq!(val.0, 0x0000_0004);
    val = val.disable_alarm();
    assert!(!val.is_alarm_enabled());
    assert_eq!(val.0, 0x0000_0000);

    val = val.enable_time_cnt();
    assert!(val.is_time_cnt_enabled());
    assert_eq!(val.0, 0x0000_0001);
    val = val.disable_time_cnt();
    assert!(!val.is_time_cnt_enabled());
    assert_eq!(val.0, 0x0000_0000);
}

#[test]
fn struct_init_functions() {
    let mut val = Init(0x0).set_time_cnt_init(true);
    assert!(val.time_cnt_init());
    assert_eq!(val.0, 0x0000_0001);
    val = val.set_time_cnt_init(false);
    assert!(!val.time_cnt_init());
    assert_eq!(val.0, 0x0000_0000);
}

#[test]
fn struct_aon_irq_enable_functions() {
    let mut val = AonIrqEnable(0x0);
    val = val.enable_rtc_32k_err_irq();
    assert!(val.is_rtc_32k_err_irq_enabled());
    assert_eq!(val.0, 0x0000_0004);
    val = val.disable_rtc_32k_err_irq();
    assert!(!val.is_rtc_32k_err_irq_enabled());
    assert_eq!(val.0, 0x0000_0000);

    val = val.enable_alarm_irq();
    assert!(val.is_alarm_irq_enabled());
    assert_eq!(val.0, 0x0000_0001);
    val = val.disable_alarm_irq();
    assert!(!val.is_alarm_irq_enabled());
    assert_eq!(val.0, 0x0000_0000);
}

#[test]
fn struct_aon_irq_status_functions() {
    let mut val = AonIrqStatus(0x0);
    val = val.clear_rtc_32k_err_irq_status();
    assert!(val.rtc_32k_err_irq_status());
    assert_eq!(val.0, 0x0000_0004);

    val = AonIrqStatus(0x0).clear_rtc_io_enable_status();
    assert!(val.rtc_io_enable_status());
    assert_eq!(val.0, 0x0000_0002);

    val = AonIrqStatus(0x0).clear_alarm_irq_status();
    assert!(val.alarm_irq_status());
    assert_eq!(val.0, 0x0000_0001);
}

#[test]
fn struct_time_functions() {
    let val = Time(0x0).set_time(0xFF);
    assert_eq!(val.time(), 0xFF);
    assert_eq!(val.0, 0x0000_00FF);
}

#[test]
fn struct_alarm_functions() {
    let val = Alarm(0x0).set_alarm(0xFF);
    assert_eq!(val.alarm(), 0xFF);
    assert_eq!(val.0, 0x0000_00FF);
}

#[test]
fn struct_calibration0_functions() {
    let val = Calibration0(0x0).set_cali_value_low(0xFF);
    assert_eq!(val.cali_value_low(), 0xFF);
    assert_eq!(val.0, 0x0000_00FF);
}

#[test]
fn struct_calibration1_functions() {
    let mut val = Calibration1(0x0);

    val = val.set_cali_direction(CaliDirection::Increase);
    assert_eq!(val.cali_direction(), CaliDirection::Increase);
    assert_eq!(val.0, 0x0000_0080);
    val = val.set_cali_direction(CaliDirection::Decrease);
    assert_eq!(val.cali_direction(), CaliDirection::Decrease);
    assert_eq!(val.0, 0x0000_0000);

    val = val.set_cali_value_high(0x3);
    assert_eq!(val.cali_value_high(), 0x3);
    assert_eq!(val.0, 0x0000_0003);
}

#[test]
fn struct_analog0_functions() {
    let mut val = Analog0(0x0);

    val = val.set_rc1m_isel(Rc1mIsel::BG);
    assert_eq!(val.rc1m_isel(), Rc1mIsel::BG);
    assert_eq!(val.0, 0x0000_0080);
    val = val.set_rc1m_isel(Rc1mIsel::IBIAS);
    assert_eq!(val.rc1m_isel(), Rc1mIsel::IBIAS);
    assert_eq!(val.0, 0x0000_0000);

    val = val.enable_rc1m();
    assert!(val.is_rc1m_enabled());
    assert_eq!(val.0, 0x0000_0040);
    val = val.disable_rc1m();
    assert!(!val.is_rc1m_enabled());
    assert_eq!(val.0, 0x0000_0000);

    val = val.enable_ldo18_bypass();
    assert!(val.is_ldo18_bypass_enabled());
    assert_eq!(val.0, 0x0000_0010);
    val = val.disable_ldo18_bypass();
    assert!(!val.is_ldo18_bypass_enabled());
    assert_eq!(val.0, 0x0000_0000);

    for i in 0..8 {
        let (volatge, reg_val) = match i {
            0 => (Ldo1P8Vol::V1_9, 0x0000_0000),
            1 => (Ldo1P8Vol::V1_8, 0x0000_0002),
            2 => (Ldo1P8Vol::V1_7, 0x0000_0004),
            3 => (Ldo1P8Vol::V1_6, 0x0000_0006),
            4 => (Ldo1P8Vol::V1_5, 0x0000_0008),
            5 => (Ldo1P8Vol::V1_4, 0x0000_000A),
            6 => (Ldo1P8Vol::V1_3, 0x0000_000C),
            7 => (Ldo1P8Vol::V1_2, 0x0000_000E),
            _ => unreachable!(),
        };

        val = val.set_ldo18_vol(volatge);
        assert_eq!(val.ldo18_vol(), volatge);
        assert_eq!(val.0, reg_val);
    }

    val = Analog0(0x0).enable_ldo18();
    assert!(val.is_ldo18_enabled());
    assert_eq!(val.0, 0x0000_0001);
    val = val.disable_ldo18();
    assert!(!val.is_ldo18_enabled());
    assert_eq!(val.0, 0x0000_0000);
}

#[test]
fn struct_analog1_functions() {
    let mut val = Analog1(0x0);

    val = val.set_pd_cur_sel(Ldo1P1CurSel::I3_0uA);
    assert_eq!(val.pd_cur_sel(), Ldo1P1CurSel::I3_0uA);
    assert_eq!(val.0, 0x0000_0060);
    val = val.set_pd_cur_sel(Ldo1P1CurSel::I2_0uA);
    assert_eq!(val.pd_cur_sel(), Ldo1P1CurSel::I2_0uA);
    assert_eq!(val.0, 0x0000_0040);
    val = val.set_pd_cur_sel(Ldo1P1CurSel::I1_0uA);
    assert_eq!(val.pd_cur_sel(), Ldo1P1CurSel::I1_0uA);
    assert_eq!(val.0, 0x0000_0020);
    val = val.set_pd_cur_sel(Ldo1P1CurSel::I0_5uA);
    assert_eq!(val.pd_cur_sel(), Ldo1P1CurSel::I0_5uA);
    assert_eq!(val.0, 0x0000_0000);

    val = val.enable_ldo11();
    assert!(val.is_ldo11_enabled());
    assert_eq!(val.0, 0x0000_0010);
    val = val.disable_ldo11();
    assert!(!val.is_ldo11_enabled());
    assert_eq!(val.0, 0x0000_0000);

    for i in 0..7 {
        let (voltage, reg_val) = match i {
            0 => (Ldo1P1Vol::V1_10, 0x0000_0000),
            1 => (Ldo1P1Vol::V1_05, 0x0000_0002),
            2 => (Ldo1P1Vol::V1_00, 0x0000_0004),
            3 => (Ldo1P1Vol::V0_95, 0x0000_0006),
            4 => (Ldo1P1Vol::V0_90, 0x0000_0008),
            5 => (Ldo1P1Vol::V0_85, 0x0000_000A),
            6 => (Ldo1P1Vol::V0_80, 0x0000_000C),
            _ => unreachable!(),
        };

        val = val.set_ldo11_vol(voltage);
        assert_eq!(val.ldo11_vol(), voltage);
        assert_eq!(val.0, reg_val);
    }

    val = Analog1(0x0).enable_ldo11_lp();
    assert!(val.is_ldo11_lp_enabled());
    assert_eq!(val.0, 0x0000_0001);
    val = val.disable_ldo11_lp();
    assert!(!val.is_ldo11_lp_enabled());
    assert_eq!(val.0, 0x0000_0000);
}

#[test]
fn struct_analog2_functions() {
    let mut val = Analog2(0x0);

    val = val.set_atb_sel(AtbSel::IbgVdet);
    assert_eq!(val.atb_sel(), AtbSel::IbgVdet);
    assert_eq!(val.0, 0x0000_0060);
    val = val.set_atb_sel(AtbSel::IbgIbi);
    assert_eq!(val.atb_sel(), AtbSel::IbgIbi);
    assert_eq!(val.0, 0x0000_0040);
    val = val.set_atb_sel(AtbSel::Vosc);
    assert_eq!(val.atb_sel(), AtbSel::Vosc);
    assert_eq!(val.0, 0x0000_0020);
    val = val.set_atb_sel(AtbSel::Vref);
    assert_eq!(val.atb_sel(), AtbSel::Vref);
    assert_eq!(val.0, 0x0000_0000);

    val = val.enable_atb();
    assert!(val.is_atb_enabled());
    assert_eq!(val.0, 0x0000_0010);
    val = val.disable_atb();
    assert!(!val.is_atb_enabled());
    assert_eq!(val.0, 0x0000_0000);

    val = val.enable_xtal32k_strength_up();
    assert!(val.is_xtal32k_strength_up_enabled());
    assert_eq!(val.0, 0x0000_0008);
    val = val.disable_xtal32k_strength_up();
    assert!(!val.is_xtal32k_strength_up_enabled());
    assert_eq!(val.0, 0x0000_0000);

    val = val.set_xtal32k_drv(3);
    assert_eq!(val.0, 0x0000_0003);
}

#[test]
fn struct_analog3_functions() {
    let mut val = Analog3(0x0);

    val = val.enable_ldo12_xtal32k_sw();
    assert!(val.is_ldo12_xtal32k_sw_enabled());
    assert_eq!(val.0, 0x0000_0002);
    val = val.disable_ldo12_xtal32k_sw();
    assert!(!val.is_ldo12_xtal32k_sw_enabled());
    assert_eq!(val.0, 0x0000_0000);

    val = val.enable_xtal32k();
    assert!(val.is_xtal32k_enabled());
    assert_eq!(val.0, 0x0000_0001);
    val = val.disable_xtal32k();
    assert!(!val.is_xtal32k_enabled());
    assert_eq!(val.0, 0x0000_0000);
}

#[test]
fn struct_write_key_functions() {
    let val = WriteKey(0x0).set_write_key(0xAC);
    assert_eq!(val.write_key(), 0xAC);
    assert_eq!(val.0, 0x0000_00AC);
}

#[test]
fn struct_boot_info_functions() {
    let mut val = BootInfo(0x0);

    val = val.set_reboot_reason(0xF);
    assert_eq!(val.reboot_reason(), 0xF);
    assert_eq!(val.0, 0x0000_00F0);
    val = val.set_reboot_reason(0);
    assert_eq!(val.reboot_reason(), 0);
    assert_eq!(val.0, 0x0000_0000);

    val = val.set_boot_dev(0xF);
    assert_eq!(val.boot_dev(), 0xF);
    assert_eq!(val.0, 0x0000_000F);
    val = val.set_boot_dev(0);
    assert_eq!(val.boot_dev(), 0);
    assert_eq!(val.0, 0x0000_0000);
}

#[test]
fn struct_sys_backup_functions() {
    let val = SysBackup(0x0).set_sys_bak(0xFF);
    assert_eq!(val.sys_bak(), 0xFF);
    assert_eq!(val.0, 0x0000_00FF);
}

#[test]
fn struct_detect32k_functions() {
    let mut val = Detect32k(0x0);

    val = val.set_det_level(0x3FF);
    assert_eq!(val.det_level(), 0x3FF);
    assert_eq!(val.0, 0x03FF_0000);
    val = val.set_det_level(0);
    assert_eq!(val.det_level(), 0);
    assert_eq!(val.0, 0x0000_0000);

    val = val.enable();
    assert!(val.is_enabled());
    assert_eq!(val.0, 0x0000_0001);
    val = val.disable();
    assert!(!val.is_enabled());
    assert_eq!(val.0, 0x0000_0000);
}
