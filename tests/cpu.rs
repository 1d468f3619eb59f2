use msx::bus::Bus;
use msx::cpu::{Flag, Z80};
use msx::slot::{EmptySlot, RamSlot, SlotType};

fn ram_machine() -> Z80 {
    let slots = [
        SlotType::Ram(RamSlot::new(0, 0x10000)),
        SlotType::Empty(EmptySlot::new()),
        SlotType::Empty(EmptySlot::new()),
        SlotType::Empty(EmptySlot::new()),
    ];
    Z80::new(Bus::new(&slots))
}

fn load(cpu: &mut Z80, at: u16, code: &[u8]) {
    for (i, b) in code.iter().enumerate() {
        cpu.write_byte(at + i as u16, *b);
    }
}

#[test]
fn test_sbc_set_c_flag_1() {
    let mut cpu = Z80::new(Bus::default());
    cpu.f = 0x00;
    cpu.a = 0xC0;
    cpu.d = 0xC0;
    cpu.set_hl(0xC000);
    cpu.execute(0x9A).unwrap();
    assert!(!cpu.get_flag(Flag::C));
}

#[test]
fn test_sbc_set_c_flag_2() {
    let mut cpu = Z80::new(Bus::default());
    cpu.f = 0x00;
    cpu.a = 0xC0;
    cpu.d = 0xFF;
    cpu.set_hl(0xC000);
    cpu.execute(0x9A).unwrap();
    assert!(cpu.get_flag(Flag::C));
}

#[test]
fn sbc_equal_operands_gives_zero() {
    let mut cpu = Z80::new(Bus::default());
    cpu.f = 0;
    cpu.a = 0xC0;
    cpu.d = 0xC0;
    cpu.execute(0x9A).unwrap();
    assert_eq!(cpu.a, 0x00);
    assert!(cpu.get_flag(Flag::Z));
    assert!(!cpu.get_flag(Flag::C));
    assert!(cpu.get_flag(Flag::N));
    assert!(!cpu.get_flag(Flag::H));
    assert!(!cpu.get_flag(Flag::P));
}

#[test]
fn sbc_high_operand_borrows() {
    let mut cpu = Z80::new(Bus::default());
    cpu.f = 0;
    cpu.a = 0xC0;
    cpu.d = 0xFF;
    cpu.execute(0x9A).unwrap();
    assert_eq!(cpu.a, 0xC1);
    assert!(cpu.get_flag(Flag::C));
    assert!(cpu.get_flag(Flag::N));
}

#[test]
fn interrupt_is_accepted() {
    let mut cpu = ram_machine();
    cpu.pc = 0x1234;
    cpu.sp = 0xF000;
    cpu.iff1 = true;
    cpu.request_interrupt();
    cpu.execute_cycle().unwrap();
    assert_eq!(cpu.read_byte(0xEFFE), 0x34);
    assert_eq!(cpu.read_byte(0xEFFF), 0x12);
    assert_eq!(cpu.pc, 0x0038);
    assert!(!cpu.iff1);
    assert!(!cpu.halted);
    assert_eq!(cpu.sp, 0xEFFE);
}

#[test]
fn interrupt_wakes_halted_cpu() {
    let mut cpu = ram_machine();
    load(&mut cpu, 0, &[0xFB, 0x76]);
    cpu.sp = 0xF000;
    cpu.execute_cycle().unwrap();
    cpu.execute_cycle().unwrap();
    assert!(cpu.halted);
    assert_eq!(cpu.pc, 2);
    cpu.execute_cycle().unwrap();
    assert_eq!(cpu.pc, 2);
    assert_eq!(cpu.cycles, 3);
    cpu.request_interrupt();
    cpu.execute_cycle().unwrap();
    assert!(!cpu.halted);
    assert_eq!(cpu.pc, 0x38);
    assert_eq!(cpu.read_word(0xEFFE), 2);
}

#[test]
fn interrupt_waits_while_disabled() {
    let mut cpu = ram_machine();
    load(&mut cpu, 0, &[0x00]);
    cpu.iff1 = false;
    cpu.request_interrupt();
    cpu.execute_cycle().unwrap();
    assert_eq!(cpu.pc, 1);
}

#[test]
fn cpl_twice_restores_accumulator() {
    let mut cpu = ram_machine();
    load(&mut cpu, 0, &[0x3E, 0x5A, 0x2F, 0x2F]);
    cpu.execute_cycle().unwrap();
    cpu.execute_cycle().unwrap();
    assert_eq!(cpu.a, 0xA5);
    cpu.execute_cycle().unwrap();
    assert_eq!(cpu.a, 0x5A);
}

#[test]
fn xor_a_clears_accumulator() {
    let mut cpu = ram_machine();
    load(&mut cpu, 0, &[0x3E, 0x77, 0xAF]);
    cpu.execute_cycle().unwrap();
    cpu.execute_cycle().unwrap();
    assert_eq!(cpu.a, 0);
    assert!(cpu.get_flag(Flag::Z));
    assert!(!cpu.get_flag(Flag::C));
    assert!(!cpu.get_flag(Flag::H));
    assert!(!cpu.get_flag(Flag::N));
    assert!(cpu.get_flag(Flag::P));
}

#[test]
fn or_sets_parity_from_bit_count() {
    let mut cpu = ram_machine();
    load(&mut cpu, 0, &[0x3E, 0x01, 0xF6, 0x02, 0xF6, 0x04]);
    cpu.execute_cycle().unwrap();
    cpu.execute_cycle().unwrap();
    assert_eq!(cpu.a, 0x03);
    assert!(cpu.get_flag(Flag::P));
    cpu.execute_cycle().unwrap();
    assert_eq!(cpu.a, 0x07);
    assert!(!cpu.get_flag(Flag::P));
}

#[test]
fn compare_keeps_accumulator() {
    let mut cpu = ram_machine();
    load(&mut cpu, 0, &[0x3E, 0x10, 0xFE, 0x20, 0xFE, 0x10, 0xFE, 0x05]);
    cpu.execute_cycle().unwrap();
    cpu.execute_cycle().unwrap();
    assert_eq!(cpu.a, 0x10);
    assert!(cpu.get_flag(Flag::C));
    assert!(!cpu.get_flag(Flag::Z));
    assert!(cpu.get_flag(Flag::S));
    assert!(cpu.get_flag(Flag::N));
    cpu.execute_cycle().unwrap();
    assert!(cpu.get_flag(Flag::Z));
    assert!(!cpu.get_flag(Flag::C));
    cpu.execute_cycle().unwrap();
    assert!(!cpu.get_flag(Flag::C));
    assert!(!cpu.get_flag(Flag::S));
}

#[test]
fn push_pop_round_trip() {
    let mut cpu = ram_machine();
    load(&mut cpu, 0, &[0x01, 0x34, 0x12, 0xC5, 0xD1]);
    cpu.sp = 0xF000;
    for _ in 0..3 {
        cpu.execute_cycle().unwrap();
    }
    assert_eq!(cpu.get_de(), 0x1234);
    assert_eq!(cpu.sp, 0xF000);
}

#[test]
fn ldir_copies_block() {
    let mut cpu = ram_machine();
    load(&mut cpu, 0x8000, &[1, 2, 3, 4, 5]);
    load(&mut cpu, 0, &[0x21, 0x00, 0x80, 0x11, 0x00, 0x90, 0x01, 0x05, 0x00, 0xED, 0xB0]);
    for _ in 0..4 {
        cpu.execute_cycle().unwrap();
    }
    assert_eq!(cpu.get_bc(), 0);
    assert_eq!(cpu.get_hl(), 0x8005);
    assert_eq!(cpu.get_de(), 0x9005);
    for i in 0..5u16 {
        assert_eq!(cpu.read_byte(0x9000 + i), (i + 1) as u8);
    }
    assert_eq!(cpu.pc, 11);
}

#[test]
fn add_overflow_and_half_carry() {
    let mut cpu = ram_machine();
    load(&mut cpu, 0, &[0x3E, 0x7F, 0xC6, 0x01]);
    cpu.execute_cycle().unwrap();
    cpu.execute_cycle().unwrap();
    assert_eq!(cpu.a, 0x80);
    assert!(cpu.get_flag(Flag::P));
    assert!(cpu.get_flag(Flag::H));
    assert!(cpu.get_flag(Flag::S));
    assert!(!cpu.get_flag(Flag::C));
}

#[test]
fn inc_and_dec_edges() {
    let mut cpu = ram_machine();
    load(&mut cpu, 0, &[0x06, 0x7F, 0x04, 0x05, 0x05]);
    cpu.f = 0x01;
    cpu.execute_cycle().unwrap();
    cpu.execute_cycle().unwrap();
    assert_eq!(cpu.b, 0x80);
    assert!(cpu.get_flag(Flag::P));
    assert!(cpu.get_flag(Flag::H));
    assert!(cpu.get_flag(Flag::C));
    cpu.execute_cycle().unwrap();
    assert_eq!(cpu.b, 0x7F);
    assert!(cpu.get_flag(Flag::P));
    assert!(cpu.get_flag(Flag::N));
    cpu.execute_cycle().unwrap();
    assert!(!cpu.get_flag(Flag::P));
}

#[test]
fn add_hl_keeps_zero_flag() {
    let mut cpu = ram_machine();
    load(&mut cpu, 0, &[0x21, 0xFF, 0x0F, 0x01, 0x01, 0x00, 0x09]);
    cpu.f = 0x40;
    for _ in 0..3 {
        cpu.execute_cycle().unwrap();
    }
    assert_eq!(cpu.get_hl(), 0x1000);
    assert!(cpu.get_flag(Flag::H));
    assert!(cpu.get_flag(Flag::Z));
    assert!(!cpu.get_flag(Flag::C));
}

#[test]
fn sbc_hl_sets_full_flags() {
    let mut cpu = ram_machine();
    load(&mut cpu, 0, &[0xED, 0x42]);
    cpu.set_hl(0x1000);
    cpu.b = 0x10;
    cpu.c = 0x00;
    cpu.f = 0;
    cpu.execute_cycle().unwrap();
    assert_eq!(cpu.get_hl(), 0);
    assert!(cpu.get_flag(Flag::Z));
    assert!(cpu.get_flag(Flag::N));
    assert!(!cpu.get_flag(Flag::C));
}

#[test]
fn call_and_ret() {
    let mut cpu = ram_machine();
    load(&mut cpu, 0, &[0xCD, 0x00, 0x10]);
    load(&mut cpu, 0x1000, &[0xC9]);
    cpu.sp = 0xF000;
    cpu.execute_cycle().unwrap();
    assert_eq!(cpu.pc, 0x1000);
    assert_eq!(cpu.read_word(0xEFFE), 3);
    cpu.execute_cycle().unwrap();
    assert_eq!(cpu.pc, 3);
    assert_eq!(cpu.sp, 0xF000);
}

#[test]
fn relative_jump_backwards() {
    let mut cpu = ram_machine();
    load(&mut cpu, 0x100, &[0x18, 0xFE]);
    cpu.pc = 0x100;
    cpu.execute_cycle().unwrap();
    assert_eq!(cpu.pc, 0x100);
}

#[test]
fn djnz_counts_down() {
    let mut cpu = ram_machine();
    load(&mut cpu, 0, &[0x06, 0x02, 0x10, 0xFE]);
    cpu.execute_cycle().unwrap();
    cpu.execute_cycle().unwrap();
    assert_eq!(cpu.pc, 2);
    assert_eq!(cpu.b, 1);
    cpu.execute_cycle().unwrap();
    assert_eq!(cpu.pc, 4);
    assert_eq!(cpu.b, 0);
}

#[test]
fn cb_bit_set_res_and_rotate() {
    let mut cpu = ram_machine();
    load(&mut cpu, 0, &[0xCB, 0xC7, 0xCB, 0x47, 0xCB, 0x87, 0xCB, 0x47, 0xCB, 0x07]);
    cpu.a = 0;
    cpu.execute_cycle().unwrap();
    assert_eq!(cpu.a, 1);
    cpu.execute_cycle().unwrap();
    assert!(!cpu.get_flag(Flag::Z));
    cpu.execute_cycle().unwrap();
    assert_eq!(cpu.a, 0);
    cpu.execute_cycle().unwrap();
    assert!(cpu.get_flag(Flag::Z));
    cpu.a = 0x81;
    cpu.execute_cycle().unwrap();
    assert_eq!(cpu.a, 0x03);
    assert!(cpu.get_flag(Flag::C));
}

#[test]
fn index_register_compare() {
    let mut cpu = ram_machine();
    load(&mut cpu, 0, &[0xDD, 0x21, 0x00, 0x20, 0xDD, 0xBE, 0xFF]);
    cpu.write_byte(0x1FFF, 0x42);
    cpu.a = 0x42;
    cpu.execute_cycle().unwrap();
    assert_eq!(cpu.ix, 0x2000);
    cpu.execute_cycle().unwrap();
    assert!(cpu.get_flag(Flag::Z));
    assert_eq!(cpu.pc, 7);
    assert_eq!(cpu.get_ix_d(0xFF), 0x1FFF);
    assert_eq!(cpu.get_iy_d(0x10), 0x0010);
}

#[test]
fn dec_iyl() {
    let mut cpu = ram_machine();
    load(&mut cpu, 0, &[0xFD, 0x2D]);
    cpu.iy = 0x1200;
    cpu.execute_cycle().unwrap();
    assert_eq!(cpu.iy, 0x12FF);
}

#[test]
fn exchanges() {
    let mut cpu = ram_machine();
    load(&mut cpu, 0, &[0xEB, 0x08, 0xD9]);
    cpu.set_de(0x1111);
    cpu.set_hl(0x2222);
    cpu.a = 1;
    cpu.a_alt = 2;
    cpu.b_alt = 9;
    cpu.execute_cycle().unwrap();
    assert_eq!(cpu.get_de(), 0x2222);
    assert_eq!(cpu.get_hl(), 0x1111);
    cpu.execute_cycle().unwrap();
    assert_eq!(cpu.a, 2);
    cpu.execute_cycle().unwrap();
    assert_eq!(cpu.b, 9);
}

#[test]
fn unknown_opcode_is_reported() {
    let mut cpu = ram_machine();
    load(&mut cpu, 0x10, &[0xED, 0x00]);
    cpu.pc = 0x10;
    let before = cpu.get_af();
    let err = cpu.execute_cycle().unwrap_err();
    assert_eq!(err.pc, 0x10);
    assert_eq!(err.prefix, Some(0xED));
    assert_eq!(err.opcode, 0x00);
    assert_eq!(cpu.pc, 0x10);
    assert_eq!(cpu.get_af(), before);
}

#[test]
fn reset_sets_documented_values() {
    let mut cpu = ram_machine();
    cpu.a = 0;
    cpu.a_alt = 5;
    cpu.pc = 0x1234;
    cpu.reset();
    assert_eq!(cpu.a, 0xFF);
    assert_eq!(cpu.a_alt, 0);
    assert_eq!(cpu.sp, 0xF000);
    assert_eq!(cpu.pc, 0);
    assert_eq!(cpu.cycles, 0);
}

#[test]
fn out_and_in_through_ports() {
    let mut cpu = ram_machine();
    load(&mut cpu, 0, &[0x3E, 0x07, 0xD3, 0xA0, 0x3E, 0x3F, 0xD3, 0xA1, 0x3E, 0x00, 0xDB, 0xA1]);
    for _ in 0..6 {
        cpu.execute_cycle().unwrap();
    }
    assert_eq!(cpu.a, 0x3F);
    assert_eq!(cpu.bus.psg.registers[7], 0x3F);
}

#[test]
fn daa_after_bcd_addition() {
    let mut cpu = ram_machine();
    load(&mut cpu, 0, &[0x3E, 0x15, 0xC6, 0x27, 0x27]);
    for _ in 0..3 {
        cpu.execute_cycle().unwrap();
    }
    assert_eq!(cpu.a, 0x42);
}
