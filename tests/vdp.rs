use msx::vdp::{DisplayMode, TMS9918};

#[test]
fn vdp_register_write() {
    let mut vdp = TMS9918::new();
    vdp.write(0x99, 0x20);
    vdp.write(0x99, 0x81);
    assert_eq!(vdp.registers[1], 0x20);
    assert_eq!(vdp.first_write, None);
    assert_eq!(vdp.address & 0xFF, 0x20);
}

#[test]
fn vdp_pointer_and_read_ahead() {
    let mut vdp = TMS9918::new();
    vdp.vram[0x1234] = 0x77;
    vdp.vram[0x1235] = 0x88;
    vdp.write(0x99, 0x34);
    vdp.write(0x99, 0x12);
    assert_eq!(vdp.read(0x98), 0x77);
    assert_eq!(vdp.read(0x98), 0x88);
    // The pointer command's own read-ahead moved the pointer once before
    // the two reads.
    assert_eq!(vdp.address, 0x1237);
}

#[test]
fn vdp_write_mode_pointer() {
    let mut vdp = TMS9918::new();
    vdp.write(0x99, 0x00);
    vdp.write(0x99, 0x7F);
    assert_eq!(vdp.address, 0x3F00);
    vdp.write(0x98, 0xAB);
    assert_eq!(vdp.vram[0x3F00], 0xAB);
    assert_eq!(vdp.address, 0x3F01);
}

#[test]
fn vdp_address_wraps() {
    let mut vdp = TMS9918::new();
    vdp.write(0x99, 0xFF);
    vdp.write(0x99, 0x7F);
    assert_eq!(vdp.address, 0x3FFF);
    vdp.write(0x98, 1);
    assert_eq!(vdp.address, 0);
}

#[test]
fn vdp_status_read_clears_interrupt_bit() {
    let mut vdp = TMS9918::new();
    vdp.status = 0x9F;
    vdp.write(0x99, 0x12);
    assert_eq!(vdp.read(0x99), 0x9F);
    assert_eq!(vdp.status, 0x1F);
    assert_eq!(vdp.first_write, None);
}

#[test]
fn vdp_display_mode_from_registers() {
    let mut vdp = TMS9918::new();
    vdp.write(0x99, 0x02);
    vdp.write(0x99, 0x80);
    assert_eq!(vdp.display_mode, DisplayMode::Graphic2);
    vdp.write(0x99, 0x00);
    vdp.write(0x99, 0x80);
    assert_eq!(vdp.display_mode, DisplayMode::Graphic1);
}

#[test]
fn vdp_unknown_port() {
    let mut vdp = TMS9918::new();
    assert_eq!(vdp.read(0x97), 0xFF);
    assert_eq!(vdp.vram_read_np(0x4001), 0);
    assert_eq!(vdp.get_vertical_scroll(), 0);
    assert_eq!(vdp.pattern_table().len(), 2048);
}
