use artinchip_hal::rtc::Rtc;
use artinchip_hal::spi_enc::SpiEnc;
use artinchip_hal::xspi::Xspi;
use artinchip_hal::{rtc, sid, spi_enc, sys_cfg, xspi};

#[test]
fn a_block_is_laid_out_from_its_base() {
    let block = rtc::RegisterBlock::at(0x1903_0000);
    assert_eq!(block.ctrl, 0x1903_0000);
    assert_eq!(block.time, 0x1903_0020);
    assert_eq!(block.sys_backup, 0x1903_0104);
    assert_eq!(block.version, 0x1903_08FC);

    let block = sid::RegisterBlock::at(0x1901_0000);
    assert_eq!(block.ctrl, 0x1901_0000);
    assert_eq!(block.brom_priv, 0x1901_0080);
    assert_eq!(block.buffer, 0x1901_0200);
}

#[test]
fn the_last_register_of_a_block_ends_where_the_block_ends() {
    let block = rtc::RegisterBlock::at(0);
    assert_eq!(block.version + 4, rtc::RegisterBlock::SIZE);
    let block = sid::RegisterBlock::at(0);
    assert_eq!(block.buffer + 64 * 4, sid::RegisterBlock::SIZE);
    let block = spi_enc::RegisterBlock::at(0);
    assert_eq!(block.version + 4, spi_enc::RegisterBlock::SIZE);
    let block = sys_cfg::RegisterBlock::at(0);
    assert_eq!(block.version + 4, sys_cfg::RegisterBlock::SIZE);
    let block = xspi::RegisterBlock::at(0);
    assert_eq!(block.version + 4, xspi::RegisterBlock::SIZE);
}

#[test]
fn a_block_may_end_at_the_top_of_the_address_space() {
    let base = usize::MAX - (rtc::RegisterBlock::SIZE - 1);
    let block = rtc::RegisterBlock::at(base);
    assert_eq!(block.ctrl, base);
    assert_eq!(block.version, usize::MAX - 3);
    let block = Rtc::__new(base).register_block();
    assert_eq!(block.version + 3, usize::MAX);
}

#[test]
fn an_instance_hands_out_the_block_at_its_base() {
    let block = Rtc::__new(0x1903_0000).register_block();
    assert_eq!(block, rtc::RegisterBlock::at(0x1903_0000));
    assert_eq!(block.detect_32k, 0x1903_0804);

    let block = SpiEnc::__new(0x1810_0000).register_block();
    assert_eq!(block, spi_enc::RegisterBlock::at(0x1810_0000));
    assert_eq!(block.ctrl, 0x1810_0000);

    let block = Xspi::__new(0x1030_0000).register_block();
    assert_eq!(block, xspi::RegisterBlock::at(0x1030_0000));
    assert_eq!(block.ctrl, 0x1030_0000);
    assert_eq!(block.clk, 0x1030_0004);
}
