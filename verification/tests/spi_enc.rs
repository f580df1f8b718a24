use artinchip_hal::spi_enc::{Control, EncBus, IntControl, IntStatus, RegisterBlock};

#[test]
fn spi_enc_struct_register_block_offset() {
    let block = RegisterBlock::at(0x0);
    assert_eq!(block.ctrl, 0x0);
    assert_eq!(block.int_ctrl, 0x4);
    assert_eq!(block.int_status, 0x8);
    assert_eq!(block.key_cnt, 0xC);
    assert_eq!(block.output_cnt, 0x10);
    assert_eq!(block.addr, 0x14);
    assert_eq!(block.tweak, 0x18);
    assert_eq!(block.cipher_pos, 0x1C);
    assert_eq!(block.cipher_len, 0x20);
    assert_eq!(block.version, 0xFFC);
}

#[test]
fn spi_enc_struct_control_functions() {
    let mut val = Control(0x0);

    val = val.enable_xip_enc();
    assert!(val.is_xip_enc_enabled());
    assert_eq!(val.0, 0x0001_0000);
    val = val.disable_xip_enc();
    assert!(!val.is_xip_enc_enabled());
    assert_eq!(val.0, 0x0000_0000);

    val = val.set_enc_bus(EncBus::Spi1);
    assert_eq!(val.enc_bus(), EncBus::Spi1);
    assert_eq!(val.0, 0x0000_2000);
    val = val.set_enc_bus(EncBus::Spi0);
    assert_eq!(val.enc_bus(), EncBus::Spi0);
    assert_eq!(val.0, 0x0000_1000);
    val = val.set_enc_bus(EncBus::Bypass);
    assert_eq!(val.enc_bus(), EncBus::Bypass);
    assert_eq!(val.0, 0x0000_0000);

    val = val.set_key_start(true);
    assert!(val.key_start());
    assert_eq!(val.0, 0x0000_0001);
    val = val.set_key_start(false);
    assert!(!val.key_start());
    assert_eq!(val.0, 0x0000_0000);
}

#[test]
fn struct_int_control_functions() {
    let mut val = IntControl(0x0);

    val = val.enable_key_ovf_int();
    assert!(val.is_key_ovf_int_enabled());
    assert_eq!(val.0, 0x0000_0020);
    val = val.disable_key_ovf_int();
    assert!(!val.is_key_ovf_int_enabled());
    assert_eq!(val.0, 0x0000_0000);

    val = val.enable_key_udf_int();
    assert!(val.is_key_udf_int_enabled());
    assert_eq!(val.0, 0x0000_0010);
    val = val.disable_key_udf_int();
    assert!(!val.is_key_udf_int_enabled());
    assert_eq!(val.0, 0x0000_0000);

    val = val.enable_read_half_empty_int();
    assert!(val.is_read_half_empty_int_enabled());
    assert_eq!(val.0, 0x0000_0008);
    val = val.disable_read_half_empty_int();
    assert!(!val.is_read_half_empty_int_enabled());
    assert_eq!(val.0, 0x0000_0000);

    val = val.enable_read_empty_data_int();
    assert!(val.is_read_empty_data_int_enabled());
    assert_eq!(val.0, 0x0000_0004);
    val = val.disable_read_empty_data_int();
    assert!(!val.is_read_empty_data_int_enabled());
    assert_eq!(val.0, 0x0000_0000);

    val = val.enable_enc_dec_finished_int();
    assert!(val.is_enc_dec_finished_int_enabled());
    assert_eq!(val.0, 0x0000_0002);
    val = val.disable_enc_dec_finished_int();
    assert!(!val.is_enc_dec_finished_int_enabled());
    assert_eq!(val.0, 0x0000_0000);

    val = val.enable_key_gen_int();
    assert!(val.is_key_gen_int_enabled());
    assert_eq!(val.0, 0x0000_0001);
    val = val.disable_key_gen_int();
    assert!(!val.is_key_gen_int_enabled());
    assert_eq!(val.0, 0x0000_0000);
}

#[test]
fn struct_int_status_functions() {
    let mut val = IntStatus(0x0).clear_key_ovf_int();
    assert!(val.is_key_ovf_int_pending());
    assert_eq!(val.0, 0x0000_0020);

    val = IntStatus(0x0).clear_key_udf_int();
    assert!(val.is_key_udf_int_pending());
    assert_eq!(val.0, 0x0000_0010);

    val = IntStatus(0x0).clear_read_half_empty_int();
    assert!(val.is_read_half_empty_int_pending());
    assert_eq!(val.0, 0x0000_0008);

    val = IntStatus(0x0).clear_read_empty_data_int();
    assert!(val.is_read_empty_data_int_pending());
    assert_eq!(val.0, 0x0000_0004);

    val = IntStatus(0x0).clear_enc_dec_finished_int();
    assert!(val.is_enc_dec_finished_int_pending());
    assert_eq!(val.0, 0x0000_0002);

    val = IntStatus(0x0).clear_key_gen_int();
    assert!(val.is_key_gen_int_pending());
    assert_eq!(val.0, 0x0000_0001);
}
