use tomboy_emu::bus::{BUS, INT_TIMER, INT_VBLANK};
use tomboy_emu::bus::timer::Timer;
use tomboy_emu::cpu::CPU;
use tomboy_emu::ppu::{PPU, PPUMode};

#[test]
fn div_reads_zero_after_any_write() {
    let mut bus = BUS::new(vec![]);
    assert_eq!(bus.mem_read(0xff04), 0xab); // high byte of the reset divider
    bus.mem_write(0xff04, 0x55);
    assert_eq!(bus.mem_read(0xff04), 0x00);
    bus.mem_write(0xff04, 0xff);
    assert_eq!(bus.mem_read(0xff04), 0x00);
}

#[test]
fn timer_frequencies() {
    let mut t = Timer::new();
    t.tac = 0b100;
    assert_eq!(t.get_frequency(), 1024);
    t.tac = 0b101;
    assert_eq!(t.get_frequency(), 16);
    t.tac = 0b110;
    assert_eq!(t.get_frequency(), 64);
    t.tac = 0b111;
    assert_eq!(t.get_frequency(), 256);
    assert!(t.is_timer_enabled());
    t.tac = 0b011;
    assert!(!t.is_timer_enabled());
}

#[test]
fn tima_overflow_reloads_tma_and_raises_interrupt() {
    let mut bus = BUS::new(vec![]);
    bus.mem_write(0xff07, 0b101); // enabled, one increment per 16 cycles
    bus.mem_write(0xff05, 0xff); // TIMA on the brink
    bus.mem_write(0xff06, 0x42); // TMA
    bus.tick(20);
    assert_eq!(bus.mem_read(0xff05), 0x42);
    assert!(bus.mem_read(0xff0f) & INT_TIMER != 0);
}

#[test]
fn tima_counts_only_when_enabled() {
    let mut bus = BUS::new(vec![]);
    bus.mem_write(0xff07, 0b001); // fast select but bit 2 clear
    bus.mem_write(0xff05, 0x00);
    bus.tick(400);
    assert_eq!(bus.mem_read(0xff05), 0x00);
}

#[test]
fn dma_copies_after_startup_delay() {
    let mut bus = BUS::new(vec![]);
    let mut i: u16 = 0;
    while i < 160 {
        bus.mem_write(0xc000 + i, (i as u8).wrapping_add(3));
        i += 1;
    }
    bus.mem_write(0xff46, 0xc0);

    // during the transfer, object memory reads as 0xff
    assert_eq!(bus.mem_read(0xfe00), 0xff);
    bus.tick(4); // startup delay
    bus.tick(80); // half the block
    assert_eq!(bus.mem_read(0xfe17), 0xff);

    bus.tick(80); // the rest
    let mut i: u16 = 0;
    while i < 160 {
        assert_eq!(bus.mem_read(0xfe00 + i), (i as u8).wrapping_add(3));
        i += 1;
    }
}

#[test]
fn oam_writes_dropped_during_dma() {
    let mut bus = BUS::new(vec![]);
    bus.mem_write(0xfe00, 0x11);
    assert_eq!(bus.mem_read(0xfe00), 0x11);
    bus.mem_write(0xff46, 0xc0);
    bus.mem_write(0xfe00, 0x99); // ignored while the engine is active
    bus.tick(164);
    assert_eq!(bus.mem_read(0xfe00), 0x00); // the copied byte, not 0x99
}

#[test]
fn echo_ram_aliases_wram() {
    let mut bus = BUS::new(vec![]);
    bus.mem_write(0xc123, 0x77);
    assert_eq!(bus.mem_read(0xe123), 0x77);
    bus.mem_write(0xe200, 0x55);
    assert_eq!(bus.mem_read(0xc200), 0x55);
}

#[test]
fn prohibited_area_reads_ff_and_drops_writes() {
    let mut bus = BUS::new(vec![]);
    bus.mem_write(0xfea0, 0x12);
    assert_eq!(bus.mem_read(0xfea0), 0xff);
    assert_eq!(bus.mem_read(0xfeff), 0xff);
}

#[test]
fn rom_writes_are_dropped() {
    let mut bus = BUS::new(vec![0xaa, 0xbb]);
    bus.mem_write(0x0000, 0x00);
    assert_eq!(bus.mem_read(0x0000), 0xaa);
    assert_eq!(bus.mem_read(0x0001), 0xbb);
    assert_eq!(bus.mem_read(0x0002), 0x00); // padding
}

#[test]
fn interrupt_registers_keep_five_bits() {
    let mut bus = BUS::new(vec![]);
    bus.mem_write(0xffff, 0xff);
    bus.mem_write(0xff0f, 0xe5);
    assert_eq!(bus.mem_read(0xffff), 0x1f);
    assert_eq!(bus.mem_read(0xff0f), 0x05);
}

#[test]
fn ppu_mode_cycle_and_ly() {
    let mut bus = BUS::new(vec![]);
    let mut ppu = PPU::new();
    assert!(matches!(ppu.mode, PPUMode::OAMScan));

    let mut i = 0;
    while i < 80 {
        ppu.step(&mut bus);
        i += 1;
    }
    assert!(matches!(ppu.mode, PPUMode::Drawing));

    let mut i = 0;
    while i < 160 {
        ppu.step(&mut bus);
        i += 1;
    }
    assert!(matches!(ppu.mode, PPUMode::HBlank));

    let mut i = 240;
    while i < 456 {
        ppu.step(&mut bus);
        i += 1;
    }
    assert_eq!(bus.mem_read(0xff44), 1);
    assert!(matches!(ppu.mode, PPUMode::OAMScan));
}

#[test]
fn vblank_raises_interrupt_at_line_144() {
    let mut bus = BUS::new(vec![]);
    let mut ppu = PPU::new();
    let mut i: u32 = 0;
    while i < 456 * 144 {
        ppu.step(&mut bus);
        i += 1;
    }
    assert_eq!(bus.mem_read(0xff44), 144);
    assert!(matches!(ppu.mode, PPUMode::VBlank));
    assert!(bus.mem_read(0xff0f) & INT_VBLANK != 0);

    // ten vblank lines later the counter wraps to the top of the frame
    let mut i: u32 = 0;
    while i < 456 * 10 {
        ppu.step(&mut bus);
        i += 1;
    }
    assert_eq!(bus.mem_read(0xff44), 0);
    assert!(matches!(ppu.mode, PPUMode::OAMScan));
}

#[test]
fn lyc_coincidence_sets_stat_bit() {
    let mut bus = BUS::new(vec![]);
    let mut ppu = PPU::new();
    bus.mem_write(0xff45, 1); // LYC = 1
    let mut i: u32 = 0;
    while i < 456 {
        ppu.step(&mut bus);
        i += 1;
    }
    assert_eq!(bus.mem_read(0xff44), 1);
    assert!(bus.mem_read(0xff41) & 0x04 != 0);
}

#[test]
fn background_renderer_reads_tile_data() {
    let mut bus = BUS::new(vec![]);
    let mut ppu = PPU::new();
    // LCD and background on, tile data at the low bank
    bus.mem_write(0xff40, 0x91);
    // identity palette: color i maps to shade i
    bus.mem_write(0xff47, 0xe4);
    // tile 0, row 0: low plane all ones, high plane zero: color 1 everywhere
    bus.mem_write(0x8000, 0xff);
    bus.mem_write(0x8001, 0x00);
    // the tile map is already all zeroes: every cell shows tile 0

    let mut i = 0;
    while i < 456 {
        ppu.step(&mut bus);
        i += 1;
    }
    assert_eq!(ppu.pixel(0, 0), 1);
    assert_eq!(ppu.pixel(159, 0), 1);
}

#[test]
fn word_write_read_roundtrip_in_each_ram_region() {
    let mut cpu = CPU::new(BUS::new(vec![]));
    for addr in [0x8010u16, 0xc010, 0xe010, 0xfe10, 0xff90] {
        cpu.mem_write_16(addr, 0xbeef);
        assert_eq!(cpu.mem_read_16(addr), 0xbeef);
    }
    // little-endian order: the low byte sits at the address itself
    cpu.mem_write_16(0xc100, 0x1234);
    assert_eq!(cpu.mem_read(0xc100), 0x34);
    assert_eq!(cpu.mem_read(0xc101), 0x12);
}
