use tomboy_emu::bus::BUS;
use tomboy_emu::cpu::{CPU, Flags};
use tomboy_emu::definitions::WRAM_START;

fn init_cpu() -> CPU {
    let mem = BUS::new(vec![]);
    CPU::new(mem)
}

#[test]
fn load_immediate_to_a() {
    let mut cpu = init_cpu();
    cpu.b = 0xff;
    cpu.load_and_run(vec![0x78, 0x10]);

    assert_eq!(cpu.a, 0xff);
}

#[test]
fn load_indirect_to_a() {
    let mut cpu = init_cpu();

    cpu.mem_write(WRAM_START + 100, 0xff);

    let addr = WRAM_START + 100;
    let low = (addr & 0xff) as u8;
    let high = (addr >> 8) as u8;
    cpu.load_and_run(vec![0x00, 0xfa, low, high, 0x10]);

    assert_eq!(cpu.a, 0xff);
}

#[test]
fn jump_relative() {
    let mut cpu = init_cpu();
    cpu.load_and_run(vec![0x18, 0x04, 0x00, 0x00, 0x00, 0x10]);
    cpu.load_and_run(vec![0x18, 0x04, 0x00, 0x00, 0x10, 0x18, 0xFC])
}

#[test]
fn jump_relative_zero() {
    let mut cpu = init_cpu();
    cpu.load_and_run(vec![0x28, 0x04, 0x00, 0x00, 0x00, 0x10]);
    cpu.load_and_run(vec![0x28, 0x04, 0x00, 0x00, 0x10, 0x28, 0xFC]);
    cpu.load_and_run(vec![0x20, 0x01, 0x00, 0x10]);
}

#[test]
fn daa_keeps_valid_bcd_sum() {
    // post-add state with no corrections owed
    let mut cpu = init_cpu();
    cpu.a = 0x45;
    cpu.f = Flags::new(0x00);
    cpu.daa();
    assert_eq!(cpu.a, 0x45);
    assert!(!cpu.f.z && !cpu.f.n && !cpu.f.h && !cpu.f.c);
}

#[test]
fn daa_adjusts_low_nibble() {
    let mut cpu = init_cpu();
    cpu.a = 0x4a;
    cpu.f = Flags::new(0x00);
    cpu.daa();
    assert_eq!(cpu.a, 0x50);
    assert!(!cpu.f.z);
}

#[test]
fn daa_after_subtract_with_borrow() {
    // after SUB with a full borrow: N and C set
    let mut cpu = init_cpu();
    cpu.a = 0x00;
    cpu.f = Flags::new(0xd0);
    cpu.daa();
    assert_eq!(cpu.a, 0xa0);
    assert!(cpu.f.c);
    assert!(!cpu.f.z);
}

#[test]
fn add_sp_half_carry_quirk() {
    let mut cpu = init_cpu();
    cpu.sp = 0x000f;
    cpu.load_and_run(vec![0xe8, 0x01, 0x10]);
    assert_eq!(cpu.sp, 0x0010);
    assert!(cpu.f.h && !cpu.f.c);

    let mut cpu = init_cpu();
    cpu.sp = 0x00ff;
    cpu.load_and_run(vec![0xe8, 0x01, 0x10]);
    assert_eq!(cpu.sp, 0x0100);
    assert!(cpu.f.h && cpu.f.c);

    let mut cpu = init_cpu();
    cpu.sp = 0xffff;
    cpu.load_and_run(vec![0xe8, 0x01, 0x10]);
    assert_eq!(cpu.sp, 0x0000);
    assert!(cpu.f.h && cpu.f.c);
}

#[test]
fn add_sp_negative_offset() {
    let mut cpu = init_cpu();
    cpu.sp = 0x0010;
    // e = -1 = 0xff: SP drops by one; low-byte add 0x10 + 0xff carries
    cpu.load_and_run(vec![0xe8, 0xff, 0x10]);
    assert_eq!(cpu.sp, 0x000f);
    assert!(!cpu.f.h && cpu.f.c);
}

#[test]
fn ld_hl_sp_plus_e() {
    let mut cpu = init_cpu();
    cpu.sp = 0x00ff;
    cpu.load_and_run(vec![0xf8, 0x01, 0x10]);
    assert_eq!(cpu.get_hl(), 0x0100);
    assert_eq!(cpu.sp, 0x00ff);
    assert!(cpu.f.h && cpu.f.c && !cpu.f.z && !cpu.f.n);
}

#[test]
fn adc_uses_incoming_carry() {
    let mut cpu = init_cpu();
    cpu.f = Flags::new(0x10);
    cpu.b = 0x0f;
    cpu.a = 0x01;
    // ADC A,B: 0x01 + 0x0f + 1 = 0x11 with a half carry
    cpu.load_and_run(vec![0x88, 0x10]);
    assert_eq!(cpu.a, 0x11);
    assert!(cpu.f.h && !cpu.f.c && !cpu.f.z && !cpu.f.n);
}

#[test]
fn sub_sets_borrow_flags() {
    let mut cpu = init_cpu();
    cpu.a = 0x10;
    cpu.b = 0x01;
    // SUB B: 0x10 - 0x01 borrows from the low nibble
    cpu.load_and_run(vec![0x90, 0x10]);
    assert_eq!(cpu.a, 0x0f);
    assert!(cpu.f.n && cpu.f.h && !cpu.f.c && !cpu.f.z);
}

#[test]
fn cp_equal_sets_zero_only() {
    let mut cpu = init_cpu();
    cpu.a = 0x42;
    // CP 0x42 leaves A and sets Z and N
    cpu.load_and_run(vec![0xfe, 0x42, 0x10]);
    assert_eq!(cpu.a, 0x42);
    assert!(cpu.f.z && cpu.f.n && !cpu.f.h && !cpu.f.c);
}

#[test]
fn and_or_xor_flags() {
    let mut cpu = init_cpu();
    cpu.a = 0xf0;
    cpu.b = 0x0f;
    cpu.load_and_run(vec![0xa0, 0x10]); // AND B
    assert_eq!(cpu.a, 0x00);
    assert!(cpu.f.z && cpu.f.h && !cpu.f.n && !cpu.f.c);

    let mut cpu = init_cpu();
    cpu.a = 0xf0;
    cpu.b = 0x0f;
    cpu.load_and_run(vec![0xb0, 0x10]); // OR B
    assert_eq!(cpu.a, 0xff);
    assert!(!cpu.f.z && !cpu.f.h && !cpu.f.n && !cpu.f.c);

    let mut cpu = init_cpu();
    cpu.a = 0xff;
    cpu.load_and_run(vec![0xae, 0x10]); // XOR (HL): HL=0x014d holds ROM byte 0
    let hl_byte = cpu.mem_read(cpu.get_hl());
    assert_eq!(cpu.a, 0xff ^ hl_byte);
}

#[test]
fn inc_dec_preserve_carry() {
    let mut cpu = init_cpu();
    cpu.f = Flags::new(0x10);
    cpu.b = 0x0f;
    cpu.load_and_run(vec![0x04, 0x10]); // INC B
    assert_eq!(cpu.b, 0x10);
    assert!(cpu.f.h && cpu.f.c && !cpu.f.n && !cpu.f.z);

    let mut cpu = init_cpu();
    cpu.f = Flags::new(0x10);
    cpu.b = 0x10;
    cpu.load_and_run(vec![0x05, 0x10]); // DEC B: low nibble 0 borrows
    assert_eq!(cpu.b, 0x0f);
    assert!(cpu.f.h && cpu.f.c && cpu.f.n && !cpu.f.z);
}

#[test]
fn add_hl_sets_high_carries() {
    let mut cpu = init_cpu();
    cpu.set_hl(0x0fff);
    cpu.set_bc(0x0001);
    cpu.f = Flags::new(0x80);
    cpu.load_and_run(vec![0x09, 0x10]); // ADD HL,BC
    assert_eq!(cpu.get_hl(), 0x1000);
    // Z preserved, N cleared, H set from bit 11, C clear
    assert!(cpu.f.z && !cpu.f.n && cpu.f.h && !cpu.f.c);
}

#[test]
fn rotates_through_and_around_carry() {
    let mut cpu = init_cpu();
    cpu.a = 0x80;
    cpu.f = Flags::new(0x00);
    cpu.load_and_run(vec![0x07, 0x10]); // RLCA
    assert_eq!(cpu.a, 0x01);
    assert!(cpu.f.c && !cpu.f.z);

    let mut cpu = init_cpu();
    cpu.a = 0x80;
    cpu.f = Flags::new(0x00);
    cpu.load_and_run(vec![0x17, 0x10]); // RLA: carry in is 0
    assert_eq!(cpu.a, 0x00);
    assert!(cpu.f.c && !cpu.f.z);

    let mut cpu = init_cpu();
    cpu.b = 0x0f;
    cpu.load_and_run(vec![0xcb, 0x30, 0x10]); // SWAP B
    assert_eq!(cpu.b, 0xf0);
    assert!(!cpu.f.c && !cpu.f.z);

    let mut cpu = init_cpu();
    cpu.b = 0x81;
    cpu.load_and_run(vec![0xcb, 0x28, 0x10]); // SRA B keeps the sign bit
    assert_eq!(cpu.b, 0xc0);
    assert!(cpu.f.c);
}

#[test]
fn bit_set_res() {
    let mut cpu = init_cpu();
    cpu.b = 0x00;
    cpu.load_and_run(vec![0xcb, 0x40, 0x10]); // BIT 0,B
    assert!(cpu.f.z && cpu.f.h && !cpu.f.n);

    let mut cpu = init_cpu();
    cpu.b = 0x00;
    cpu.load_and_run(vec![0xcb, 0xf8, 0x10]); // SET 7,B
    assert_eq!(cpu.b, 0x80);

    let mut cpu = init_cpu();
    cpu.b = 0xff;
    cpu.load_and_run(vec![0xcb, 0xb8, 0x10]); // RES 7,B
    assert_eq!(cpu.b, 0x7f);
}

#[test]
fn cpl_scf_ccf() {
    let mut cpu = init_cpu();
    cpu.a = 0x0f;
    cpu.load_and_run(vec![0x2f, 0x10]); // CPL
    assert_eq!(cpu.a, 0xf0);
    assert!(cpu.f.n && cpu.f.h);

    let mut cpu = init_cpu();
    cpu.f = Flags::new(0x00);
    cpu.load_and_run(vec![0x37, 0x3f, 0x10]); // SCF then CCF
    assert!(!cpu.f.c && !cpu.f.n && !cpu.f.h);
}

#[test]
fn push_pop_roundtrip_bc() {
    let mut cpu = init_cpu();
    cpu.set_bc(0x1234);
    cpu.sp = 0xfffe;
    cpu.load_and_run(vec![0xc5, 0xd1, 0x10]); // PUSH BC; POP DE
    assert_eq!(cpu.get_de(), 0x1234);
    assert_eq!(cpu.sp, 0xfffe);
}

#[test]
fn pop_af_masks_low_nibble() {
    let mut cpu = init_cpu();
    cpu.sp = 0xc000;
    cpu.mem_write(0xc000, 0xff);
    cpu.mem_write(0xc001, 0x12);
    cpu.load_and_run(vec![0xf1, 0x10]); // POP AF
    assert_eq!(cpu.a, 0x12);
    assert_eq!(cpu.f.bits(), 0xf0);
}

#[test]
fn call_and_ret() {
    let mut cpu = init_cpu();
    cpu.sp = 0xfffe;
    // CALL 0x0005; STOP; (pad); INC A; RET
    cpu.load_and_run(vec![0xcd, 0x05, 0x00, 0x10, 0x00, 0x3c, 0xc9]);
    assert_eq!(cpu.a, 0x02);
    assert_eq!(cpu.sp, 0xfffe);
}

#[test]
fn rst_pushes_and_jumps() {
    // at 0: RST 0x08; at 8: STOP, whose fetch leaves PC just past it
    let mut cpu = init_cpu();
    cpu.sp = 0xfffe;
    cpu.load_and_run(vec![0xcf, 0x00, 0x00, 0x00, 0x00, 0x00, 0x00, 0x00, 0x10]);
    assert_eq!(cpu.pc, 0x000a);
    assert_eq!(cpu.mem_read_16(0xfffc), 0x0001);
}

#[test]
fn jp_hl_and_conditional_jp() {
    let mut cpu = init_cpu();
    cpu.set_hl(0x0004);
    cpu.load_and_run(vec![0xe9, 0x00, 0x00, 0x00, 0x10]); // JP HL
    assert_eq!(cpu.pc, 0x0006);

    let mut cpu = init_cpu();
    cpu.f = Flags::new(0x80); // Z set: JP NZ falls through
    cpu.load_and_run(vec![0xc2, 0x00, 0x01, 0x10]);
    assert_eq!(cpu.pc, 0x0005);
}

#[test]
fn ldh_and_ld_c_indirection() {
    let mut cpu = init_cpu();
    cpu.a = 0x5a;
    cpu.load_and_run(vec![0xe0, 0x80, 0x10]); // LDH (0x80),A
    assert_eq!(cpu.mem_read(0xff80), 0x5a);

    let mut cpu = init_cpu();
    cpu.mem_write(0xff85, 0x77);
    cpu.c = 0x85;
    cpu.load_and_run(vec![0xf2, 0x10]); // LD A,(C)
    assert_eq!(cpu.a, 0x77);
}

#[test]
fn ldi_ldd_move_hl() {
    let mut cpu = init_cpu();
    cpu.a = 0x99;
    cpu.set_hl(0xc100);
    cpu.load_and_run(vec![0x22, 0x32, 0x10]); // LD (HL+),A; LD (HL-),A
    assert_eq!(cpu.mem_read(0xc100), 0x99);
    assert_eq!(cpu.mem_read(0xc101), 0x99);
    assert_eq!(cpu.get_hl(), 0xc100);
}

#[test]
fn ld_a16_sp_stores_both_bytes() {
    let mut cpu = init_cpu();
    cpu.sp = 0xbeef;
    cpu.load_and_run(vec![0x08, 0x00, 0xc2, 0x10]); // LD (0xc200),SP
    assert_eq!(cpu.mem_read_16(0xc200), 0xbeef);
}
