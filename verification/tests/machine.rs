use tomboy_emu::bus::BUS;
use tomboy_emu::cartridge::Cartridge;
use tomboy_emu::cpu::CPU;
use tomboy_emu::cpu::optable::{opcode_lookup, is_illegal_opcode};
use tomboy_emu::{EmuError, Emulator};

fn rom_with(bytes_at_100: &[u8]) -> Vec<u8> {
    let mut rom = vec![0u8; 0x8000];
    let mut i = 0;
    while i < bytes_at_100.len() {
        rom[0x100 + i] = bytes_at_100[i];
        i += 1;
    }
    rom
}

#[test]
fn ei_takes_effect_after_the_next_instruction() {
    let mem = BUS::new(rom_with(&[0xfb, 0x00])); // EI; NOP
    let mut cpu = CPU::new(mem);
    cpu.mem_write(0xffff, 0x01);
    cpu.mem_write(0xff0f, 0x01);

    cpu.step().unwrap(); // EI
    assert!(!cpu.ime && cpu.ime_to_set);

    cpu.step().unwrap(); // NOP: no dispatch during it, IME on after it
    assert!(cpu.ime);
    assert_eq!(cpu.pc, 0x102);

    cpu.step().unwrap(); // dispatch to 0x40, then run its NOP
    assert!(!cpu.ime);
    assert_eq!(cpu.pc, 0x41);
    assert_eq!(cpu.mem_read(0xff0f) & 0x01, 0);
}

#[test]
fn ei_di_lets_no_interrupt_through() {
    let mem = BUS::new(rom_with(&[0xfb, 0xf3, 0x00])); // EI; DI; NOP
    let mut cpu = CPU::new(mem);
    cpu.mem_write(0xffff, 0x01);
    cpu.mem_write(0xff0f, 0x01);

    cpu.step().unwrap(); // EI
    cpu.step().unwrap(); // DI cancels the pending enable
    assert!(!cpu.ime && !cpu.ime_to_set);
    cpu.step().unwrap(); // NOP, no dispatch
    assert_eq!(cpu.pc, 0x103);
}

#[test]
fn halt_bug_runs_the_next_byte_twice() {
    let mem = BUS::new(rom_with(&[0x76, 0x3c])); // HALT; INC A
    let mut cpu = CPU::new(mem);
    cpu.mem_write(0xffff, 0x01);
    cpu.mem_write(0xff0f, 0x01);
    assert!(!cpu.ime);
    let a0 = cpu.a;

    cpu.step().unwrap(); // HALT with IME=0 and a pending interrupt: bug armed
    assert!(!cpu.halted && cpu.halt_bug);
    assert_eq!(cpu.pc, 0x101);

    cpu.step().unwrap(); // INC A fetched, PC does not advance
    assert_eq!(cpu.pc, 0x101);
    assert_eq!(cpu.a, a0.wrapping_add(1));

    cpu.step().unwrap(); // INC A again, PC moves on
    assert_eq!(cpu.pc, 0x102);
    assert_eq!(cpu.a, a0.wrapping_add(2));
}

#[test]
fn halt_sleeps_until_interrupt_pending() {
    let mem = BUS::new(rom_with(&[0x76, 0x00])); // HALT
    let mut cpu = CPU::new(mem);
    cpu.step().unwrap();
    assert!(cpu.halted);

    // halted steps only tick the devices
    let cycles = cpu.step().unwrap();
    assert_eq!(cycles, 4);
    assert_eq!(cpu.pc, 0x101);
    assert!(cpu.halted);

    // a pending interrupt ends the halt even with IME off
    cpu.mem_write(0xffff, 0x01);
    cpu.mem_write(0xff0f, 0x01);
    cpu.step().unwrap();
    assert!(!cpu.halted);
}

#[test]
fn interrupt_priority_lowest_bit_first() {
    let mem = BUS::new(rom_with(&[0x00])); // NOP at 0x100, NOPs at vectors
    let mut cpu = CPU::new(mem);
    cpu.ime = true;
    cpu.mem_write(0xffff, 0x1f);
    cpu.mem_write(0xff0f, 0x06); // LCD and Timer both pending

    cpu.step().unwrap(); // dispatch to the LCD vector 0x48, run its NOP
    assert_eq!(cpu.pc, 0x49);
    assert_eq!(cpu.mem_read(0xff0f), 0x04); // Timer still pending
    assert!(!cpu.ime);
    // the return address went to the stack
    assert_eq!(cpu.mem_read_16(0xfffc), 0x100);
}

#[test]
fn illegal_opcode_reports_code_and_pc() {
    let mem = BUS::new(rom_with(&[0xd3]));
    let mut cpu = CPU::new(mem);
    let r = cpu.step();
    assert_eq!(r, Err(EmuError::IllegalOpcode { code: 0xd3, pc: 0x100 }));
    assert_eq!(cpu.pc, 0x100); // the processor locks in place
}

#[test]
fn serial_hook_queues_bytes() {
    // LD A,0x51; LDH (0x01),A; LD A,0x81; LDH (0x02),A; STOP
    let mem = BUS::new(rom_with(&[0x3e, 0x51, 0xe0, 0x01, 0x3e, 0x81, 0xe0, 0x02, 0x10]));
    let mut cpu = CPU::new(mem);
    while !cpu.halted {
        cpu.step().unwrap();
    }
    assert_eq!(cpu.memory.serial_len(), 1);
    assert_eq!(cpu.memory.serial_byte(0), 0x51);
    assert_eq!(cpu.mem_read(0xff02), 0x00); // the control byte was cleared
    cpu.memory.clear_serial();
    assert_eq!(cpu.memory.serial_len(), 0);
}

#[test]
fn test_rom_end_loop_is_detected() {
    let mem = BUS::new(rom_with(&[0xe0, 0x26, 0x18, 0xfe]));
    let mut cpu = CPU::new(mem);
    assert_eq!(cpu.step(), Err(EmuError::TestFinished));
}

#[test]
fn emulator_step_returns_tabled_cycles() {
    let mut emu = Emulator::new(rom_with(&[0x00, 0x18, 0x00, 0x20, 0x00]));
    assert_eq!(emu.step(), Ok(4)); // NOP
    assert_eq!(emu.step(), Ok(12)); // JR +0: taken
    assert_eq!(emu.step(), Ok(8)); // JR NZ with Z set: not taken
}

#[test]
fn emulator_drives_the_pixel_unit() {
    let mut emu = Emulator::new(vec![]);
    let mut spent: usize = 0;
    while spent < 456 {
        spent += emu.step().unwrap();
    }
    assert!(emu.cpu.mem_read(0xff44) >= 1);
}

#[test]
fn cartridge_rejects_short_images() {
    match Cartridge::new(vec![0u8; 0x100]) {
        Err(EmuError::RomTooShort) => (),
        _ => panic!("a short image must be rejected"),
    }
}

#[test]
fn cartridge_parses_header() {
    let mut rom = vec![0u8; 0x8000];
    let title = b"TESTCART";
    let mut i = 0;
    while i < title.len() {
        rom[0x134 + i] = title[i];
        i += 1;
    }
    rom[0x147] = 0x00; // ROM only
    rom[0x148] = 0x01; // 64 KiB
    rom[0x14c] = 0x02;
    let mut check: u8 = 0;
    let mut j = 0x134;
    while j <= 0x14c {
        check = check.wrapping_sub(rom[j]).wrapping_sub(1);
        j += 1;
    }
    rom[0x14d] = check;

    let cart = Cartridge::new(rom).unwrap();
    assert_eq!(cart.title, b"TESTCART".to_vec());
    assert_eq!(cart.rom_size, 0x01);
    assert_eq!(cart.actual_rom_size, 0x10000);
    assert_eq!(cart.version, 0x02);
    assert!(cart.checksum_pass);
}

#[test]
fn cartridge_flags_bad_checksum() {
    let mut rom = vec![0u8; 0x8000];
    rom[0x14d] = 0xaa; // certainly wrong for an all-zero header
    let cart = Cartridge::new(rom).unwrap();
    assert!(!cart.checksum_pass);
}

#[test]
fn trace_line_matches_harness_format() {
    let mem = BUS::new(vec![]);
    let cpu = CPU::new(mem);
    let line = cpu.log_debug();
    let expected = b"A:01 F:B0 B:00 C:13 D:00 E:D8 H:01 L:4D SP:FFFE PC:0100 PCMEM:00,00,00,00";
    assert_eq!(line, expected.to_vec());
}

#[test]
fn opcode_table_spot_values() {
    let nop = opcode_lookup(0x00);
    assert_eq!(nop.code, 0x00);
    assert_eq!(nop.bytes, 1);
    assert_eq!(nop.cycles, (4, 0));

    let call_nz = opcode_lookup(0xc4);
    assert_eq!(call_nz.bytes, 3);
    assert_eq!(call_nz.cycles, (24, 12));

    let jr_z = opcode_lookup(0x28);
    assert_eq!(jr_z.bytes, 2);
    assert_eq!(jr_z.cycles, (12, 8));

    let bit0_hl = opcode_lookup(0xcb46);
    assert_eq!(bit0_hl.code, 0x46);
    assert_eq!(bit0_hl.bytes, 2);
    assert_eq!(bit0_hl.cycles, (12, 0));

    let set7_hl = opcode_lookup(0xcbfe);
    assert_eq!(set7_hl.cycles, (16, 0));

    assert!(is_illegal_opcode(0xd3));
    assert!(is_illegal_opcode(0xfd));
    assert!(!is_illegal_opcode(0xcb));
}
