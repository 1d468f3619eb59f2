use msx::bus::{Bus, LoadError};
use msx::machine::Msx;
use msx::slot::{EmptySlot, RamSlot, RomSlot, Slot, SlotType};
use msx::utils::hexdump;

fn remap_bus() -> Bus {
    let rom = vec![0xAAu8; 0x10000];
    let slots = [
        SlotType::Rom(RomSlot::new(&rom, 0, 0x10000)),
        SlotType::Empty(EmptySlot::new()),
        SlotType::Empty(EmptySlot::new()),
        SlotType::Ram(RamSlot::new(0, 0x10000)),
    ];
    Bus::new(&slots)
}

#[test]
fn slot_remap() {
    let mut bus = remap_bus();
    bus.output(0xA8, 0b1100_0000);
    assert_eq!(bus.read_byte(0x0000), 0xAA);
    assert_eq!(bus.read_byte(0xC000), 0xFF);
    bus.write_byte(0xC000, 0x55);
    assert_eq!(bus.read_byte(0xC000), 0x55);
    assert_eq!(bus.read_byte(0x4000), 0xAA);
}

#[test]
fn rom_ignores_writes() {
    let mut bus = remap_bus();
    bus.write_byte(0x0010, 0x12);
    assert_eq!(bus.read_byte(0x0010), 0xAA);
}

#[test]
fn empty_slot_reads_ff() {
    let mut bus = remap_bus();
    bus.output(0xA8, 0b0000_0100);
    assert_eq!(bus.read_byte(0x4000), 0xFF);
    assert_eq!(EmptySlot::new().read(0x1234), 0xFF);
}

#[test]
fn words_are_little_endian() {
    let mut bus = remap_bus();
    bus.output(0xA8, 0xFF);
    bus.write_word(0x8000, 0x1234);
    assert_eq!(bus.read_byte(0x8000), 0x34);
    assert_eq!(bus.read_byte(0x8001), 0x12);
    assert_eq!(bus.read_word(0x8000), 0x1234);
}

#[test]
fn unknown_port_reads_ff() {
    let mut bus = remap_bus();
    assert_eq!(bus.input(0x10), 0xFF);
    bus.output(0x10, 0x42);
    assert!(!bus.wrote_to_ppi());
}

#[test]
fn ppi_write_edge_is_one_shot() {
    let mut bus = remap_bus();
    bus.output(0xAA, 0x05);
    assert_eq!(bus.input(0xAA), 0x05);
    assert!(bus.wrote_to_ppi());
    assert!(!bus.wrote_to_ppi());
}

#[test]
fn psg_select_and_data() {
    let mut bus = remap_bus();
    bus.output(0xA0, 0x1E);
    bus.output(0xA1, 0x99);
    assert_eq!(bus.psg.selected, 0x0E);
    assert_eq!(bus.input(0xA0), 0x99);
    bus.reset();
    assert_eq!(bus.input(0xA1), 0);
}

#[test]
fn memory_segments_follow_slot_select() {
    let mut bus = remap_bus();
    let segs = bus.memory_segments();
    assert_eq!(segs.len(), 1);
    assert_eq!((segs[0].start, segs[0].end, segs[0].slot), (0, 0xFFFF, 0));
    bus.output(0xA8, 0b1100_0000);
    let segs = bus.memory_segments();
    assert_eq!(segs.len(), 2);
    assert_eq!((segs[0].start, segs[0].end, segs[0].slot), (0, 0xBFFF, 0));
    assert_eq!((segs[1].start, segs[1].end, segs[1].slot), (0xC000, 0xFFFF, 3));
}

#[test]
fn load_errors() {
    let mut bus = Bus::default();
    assert_eq!(bus.load_rom(4, &[1, 2]), Err(LoadError::SlotOutOfRange));
    let big = vec![0u8; 0x10001];
    assert_eq!(bus.load_rom(0, &big), Err(LoadError::RomTooLarge));
    assert_eq!(bus.load_ram(7), Err(LoadError::SlotOutOfRange));
    assert_eq!(bus.load_rom(0, &[0x3E, 0x01]), Ok(()));
    assert_eq!(bus.read_byte(1), 0x01);
    assert_eq!(bus.read_byte(2), 0xFF);
}

#[test]
fn rom_slot_pads_with_ff() {
    let rom = RomSlot::new(&[1, 2, 3], 0x4000, 8);
    assert_eq!(rom.read(0x4001), 2);
    assert_eq!(rom.read(0x4005), 0xFF);
    assert_eq!(rom.read(0x3FFF), 0xFF);
}

#[test]
fn machine_runs_program() {
    let slots = [
        SlotType::Ram(RamSlot::new(0, 0x10000)),
        SlotType::Empty(EmptySlot::new()),
        SlotType::Empty(EmptySlot::new()),
        SlotType::Empty(EmptySlot::new()),
    ];
    let mut m = Msx::new(&slots);
    m.set_memory(0, 0x3E);
    m.set_memory(1, 0x99);
    m.set_memory(2, 0x76);
    m.step().unwrap();
    m.step().unwrap();
    assert!(m.halted());
    assert_eq!(m.pc(), 3);
    let st = m.internal_state();
    assert_eq!(st.a, 0x99);
    assert_eq!(st.opcode, m.get_memory(3));
    assert_eq!(m.current_scanline, 2);
    m.set_hl(0x8000);
    m.set_hl_address(0xBEEF);
    assert_eq!(m.get_memory(0x8000), 0xEF);
    m.add_breakpoint(0x10);
    assert_eq!(m.breakpoints, vec![0x10]);
    assert_eq!(m.memory().len(), 0x10000);
    assert_eq!(m.vram().len(), 0x4000);
    m.reset();
    assert_eq!(m.pc(), 0);
}

#[test]
fn hexdump_formats_lines() {
    let data: Vec<u8> = (0u8..20).collect();
    let s = hexdump(&data, 0, 19);
    let lines: Vec<&str> = s.lines().collect();
    assert_eq!(lines.len(), 2);
    assert!(lines[0].ends_with("0000: 00 01 02 03 04 05 06 07 08 09 0a 0b 0c 0d 0e 0f  ................"));
    assert_eq!(lines[1].len(), 55 + 4);
    assert!(lines[1].ends_with("0010: 10 11 12 13  ...."));
}
