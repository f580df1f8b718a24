use artinchip_hal::sid::{Address, BromPriv, Control, EfuseStatus, RegisterBlock, TimingLow};

#[test]
fn register_struct_register_block_offset() {
    let block = RegisterBlock::at(0x0);
    assert_eq!(block.ctrl, 0x0);
    assert_eq!(block.addr, 0x4);
    assert_eq!(block.wdata, 0x8);
    assert_eq!(block.rdata, 0xC);
    assert_eq!(block.timing_low, 0x10);
    assert_eq!(block.brom_priv, 0x80);
    assert_eq!(block.version, 0xFC);
    assert_eq!(block.buffer, 0x200);
}

#[test]
fn register_struct_control_functions() {
    let mut val = Control(0x0);

    val = val.set_sid_error(true);
    assert!(val.sid_error());
    assert_eq!(val.0, 0x2000_0000);
    val = val.set_sid_error(false);
    assert!(!val.sid_error());
    assert_eq!(val.0, 0x0000_0000);

    val = val.set_brom_priv_lock(true);
    assert!(val.brom_priv_lock());
    assert_eq!(val.0, 0x1000_0000);
    val = val.set_brom_priv_lock(false);
    assert!(!val.brom_priv_lock());
    assert_eq!(val.0, 0x0000_0000);

    val = val.set_efuse_op_code(0xFFF);
    assert_eq!(val.efuse_op_code(), 0xFFF);
    assert_eq!(val.0, 0x0FFF_0000);

    val = Control(0x0000_0100);
    assert_eq!(val.efuse_status(), EfuseStatus::BootReading);
    val = Control(0x0000_0200);
    assert_eq!(val.efuse_status(), EfuseStatus::Idle);
    val = Control(0x0000_0400);
    assert_eq!(val.efuse_status(), EfuseStatus::Programming);
    val = Control(0x0000_0800);
    assert_eq!(val.efuse_status(), EfuseStatus::Reading);

    val = Control(0x0).set_efuse_read_start(true);
    assert!(val.efuse_read_start());
    assert_eq!(val.0, 0x0000_0010);
    val = val.set_efuse_read_start(false);
    assert!(!val.efuse_read_start());
    assert_eq!(val.0, 0x0000_0000);

    val = Control(0x0).set_efuse_write_start(true);
    assert!(val.efuse_write_start());
    assert_eq!(val.0, 0x0000_0001);
    val = val.set_efuse_write_start(false);
    assert!(!val.efuse_write_start());
    assert_eq!(val.0, 0x0000_0000);
}

#[test]
fn struct_address_functions() {
    let val = Address(0x0).set_efuse_addr(0x1FF);
    assert_eq!(val.efuse_addr(), 0x1FF);
    assert_eq!(val.0, 0x0000_01FF);
}

#[test]
fn struct_timing_low_functions() {
    let mut val = TimingLow(0x0);

    val = val.set_rd_data_proc_time(0xFF);
    assert_eq!(val.rd_data_proc_time(), 0xFF);
    assert_eq!(val.0, 0xFF00_0000);

    val = val.set_rd_high_level_duration(0xFF);
    assert_eq!(val.rd_high_level_duration(), 0xFF);
    assert_eq!(val.0, 0xFFFF_0000);

    val = val.set_wr_data_proc_time(0xFF);
    assert_eq!(val.wr_data_proc_time(), 0xFF);
    assert_eq!(val.0, 0xFFFF_FF00);

    val = val.set_wr_high_level_duration(0xFF);
    assert_eq!(val.wr_high_level_duration(), 0xFF);
    assert_eq!(val.0, 0xFFFF_FFFF);
}

#[test]
fn struct_brom_priv_functions() {
    let mut val = BromPriv(0x0);

    val = val.enable_jtag_unlock();
    assert!(val.is_jtag_unlock_enabled());
    assert_eq!(val.0, 0x0000_0001);
    val = val.disable_jtag_unlock();
    assert!(!val.is_jtag_unlock_enabled());
    assert_eq!(val.0, 0x0000_0000);
}
