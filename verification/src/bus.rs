//! The memory bus: one flat 16-bit address space multiplexing cartridge ROM,
//! video / work / object / high RAM and the memory-mapped device registers,
//! plus the per-instruction tick that clocks the timer and the DMA engine.

use vstd::prelude::*;
use crate::definitions::{ROM_END, VRAM_START, VRAM_END, EXT_RAM_END, WRAM_START, WRAM_END,
    ECHO_RAM_START, ECHO_RAM_END, OAM_START, OAM_END, ILLEGAL_AREA_END, IO_REGISTERS_START,
    IO_REGISTERS_END, HRAM_START, HRAM_END, INTERRUPT_FLAG};

pub mod timer;
pub mod dma;
pub mod lcd;

use timer::Timer;
use dma::DMA;
use lcd::{LCD, LCDControl, LCDStatus};

verus! {

// Interrupt bits, in priority order (lowest bit = highest priority).
pub const INT_VBLANK: u8 = 1 << 0;
pub const INT_LCD: u8 = 1 << 1;
pub const INT_TIMER: u8 = 1 << 2;
pub const INT_SERIAL: u8 = 1 << 3;
pub const INT_JOYPAD: u8 = 1 << 4;

/// All five interrupt bits.
pub const INT_MASK: u8 = 0x1f;

/// The IE / IF register value: five interrupt bits, high bits always clear.
#[derive(Debug, Clone, Copy, PartialEq, Eq, Structural)]
pub struct InterruptRegister {
    pub bits: u8,
}

impl InterruptRegister {
    pub fn new(value: u8) -> (r: InterruptRegister)
        ensures
            r.bits == value & INT_MASK,
    {
        InterruptRegister { bits: value & INT_MASK }
    }

    pub fn bits(&self) -> (r: u8)
        ensures
            r == self.bits,
    {
        self.bits
    }

    pub open spec fn spec_contains(self, mask: u8) -> bool {
        self.bits & mask != 0
    }

    pub fn contains(&self, mask: u8) -> (r: bool)
        ensures
            r == self.spec_contains(mask),
    {
        self.bits & mask != 0
    }

    pub fn insert(&mut self, mask: u8)
        ensures
            final(self).bits == old(self).bits | mask,
    {
        self.bits = self.bits | mask;
    }

    pub fn remove(&mut self, mask: u8)
        ensures
            final(self).bits == old(self).bits & !mask,
    {
        self.bits = self.bits & !mask;
    }
}

// Serial-control bits.
pub const CLOCK_SELECT: u8 = 1 << 0;
pub const CLOCK_SPEED: u8 = 1 << 1;
pub const TRANSFER_ENABLE: u8 = 1 << 7;

/// The serial-control register value at 0xff02.
#[derive(Debug, Clone, Copy, PartialEq, Eq, Structural)]
pub struct SerialControl {
    pub bits: u8,
}

impl SerialControl {
    pub fn new(value: u8) -> (r: SerialControl)
        ensures
            r.bits == value,
    {
        SerialControl { bits: value }
    }

    pub fn bits(&self) -> (r: u8)
        ensures
            r == self.bits,
    {
        self.bits
    }
}

/// Mathematical model of the whole bus.
#[verifier::ext_equal]
pub ghost struct BusView {
    pub rom: Seq<u8>,
    pub vram: Seq<u8>,
    pub wram: Seq<u8>,
    pub oam: Seq<u8>,
    pub hram: Seq<u8>,
    pub io_regs: Seq<u8>,
    pub ie_reg: u8,
    pub if_reg: u8,
    pub timer: Timer,
    pub lcd: LCD,
    pub dma: DMA,
    pub serial_out: Seq<u8>,
}

impl BusView {
    pub open spec fn wf(self) -> bool {
        &&& self.rom.len() == 0x8000
        &&& self.vram.len() == 0x2000
        &&& self.wram.len() == 0x2000
        &&& self.oam.len() == 160
        &&& self.hram.len() == 128
        &&& self.io_regs.len() == 128
        &&& self.dma.wf()
    }

    /// An address in plain RAM, with its successor in the same region:
    /// writes there are stored as given and read back unchanged.
    pub open spec fn plain_ram_pair(self, addr: u16) -> bool {
        ||| (VRAM_START <= addr && addr < VRAM_END)
        ||| (WRAM_START <= addr && addr < WRAM_END)
        ||| (ECHO_RAM_START <= addr && addr < ECHO_RAM_END)
        ||| (OAM_START <= addr && addr < OAM_END && !self.dma.active)
        ||| (HRAM_START <= addr && addr < HRAM_END)
    }

    /// What a read of `addr` yields: the address decoder of the machine.
    #[verifier::opaque]
    pub open spec fn spec_read(self, addr: u16) -> u8 {
        if addr <= ROM_END {
            self.rom[addr as int]
        } else if addr <= VRAM_END {
            self.vram[addr - VRAM_START]
        } else if addr <= EXT_RAM_END {
            0
        } else if addr <= WRAM_END {
            self.wram[addr - WRAM_START]
        } else if addr <= ECHO_RAM_END {
            self.wram[addr - ECHO_RAM_START]
        } else if addr <= OAM_END {
            if self.dma.active {
                0xff
            } else {
                self.oam[addr - OAM_START]
            }
        } else if addr <= ILLEGAL_AREA_END {
            0xff
        } else if addr == 0xff04 {
            (self.timer.div >> 8) as u8
        } else if addr == 0xff05 {
            self.timer.tima
        } else if addr == 0xff06 {
            self.timer.tma
        } else if addr == 0xff07 {
            self.timer.tac
        } else if addr == INTERRUPT_FLAG {
            self.if_reg
        } else if addr == 0xff40 {
            self.lcd.ctrl.bits
        } else if addr == 0xff41 {
            self.lcd.stat.bits
        } else if addr == 0xff42 {
            self.lcd.scroll_y
        } else if addr == 0xff43 {
            self.lcd.scroll_x
        } else if addr == 0xff44 {
            self.lcd.ly
        } else if addr == 0xff45 {
            self.lcd.lyc
        } else if addr == 0xff46 {
            (self.dma.source >> 8) as u8
        } else if addr == 0xff47 {
            self.lcd.bg_palette
        } else if addr == 0xff48 {
            self.lcd.obj_palette0
        } else if addr == 0xff49 {
            self.lcd.obj_palette1
        } else if addr == 0xff4a {
            self.lcd.window_y
        } else if addr == 0xff4b {
            self.lcd.window_x
        } else if addr <= IO_REGISTERS_END {
            self.io_regs[addr - IO_REGISTERS_START]
        } else if addr <= HRAM_END {
            self.hram[addr - HRAM_START]
        } else {
            self.ie_reg
        }
    }

    /// The bus after a write of `data` to `addr`: ROM and the locked or
    /// prohibited areas drop the write, device registers route to the device.
    #[verifier::opaque]
    pub open spec fn spec_write(self, addr: u16, data: u8) -> BusView {
        if addr <= ROM_END {
            self
        } else if addr <= VRAM_END {
            BusView { vram: self.vram.update(addr - VRAM_START, data), ..self }
        } else if addr <= EXT_RAM_END {
            self
        } else if addr <= WRAM_END {
            BusView { wram: self.wram.update(addr - WRAM_START, data), ..self }
        } else if addr <= ECHO_RAM_END {
            BusView { wram: self.wram.update(addr - ECHO_RAM_START, data), ..self }
        } else if addr <= OAM_END {
            if self.dma.active {
                self
            } else {
                BusView { oam: self.oam.update(addr - OAM_START, data), ..self }
            }
        } else if addr <= ILLEGAL_AREA_END {
            self
        } else if addr == 0xff04 {
            BusView { timer: Timer { div: 0, cycles: 0, ..self.timer }, ..self }
        } else if addr == 0xff05 {
            BusView { timer: Timer { tima: data, ..self.timer }, ..self }
        } else if addr == 0xff06 {
            BusView { timer: Timer { tma: data, ..self.timer }, ..self }
        } else if addr == 0xff07 {
            BusView { timer: Timer { tac: data, ..self.timer }, ..self }
        } else if addr == INTERRUPT_FLAG {
            BusView { if_reg: data & INT_MASK, ..self }
        } else if addr == 0xff40 {
            BusView { lcd: LCD { ctrl: LCDControl { bits: data }, ..self.lcd }, ..self }
        } else if addr == 0xff41 {
            BusView {
                lcd: LCD {
                    stat: LCDStatus { bits: (self.lcd.stat.bits & 0x07) | (data & 0x78) },
                    ..self.lcd
                },
                ..self
            }
        } else if addr == 0xff42 {
            BusView { lcd: LCD { scroll_y: data, ..self.lcd }, ..self }
        } else if addr == 0xff43 {
            BusView { lcd: LCD { scroll_x: data, ..self.lcd }, ..self }
        } else if addr == 0xff44 {
            self
        } else if addr == 0xff45 {
            BusView { lcd: LCD { lyc: data, ..self.lcd }, ..self }
        } else if addr == 0xff46 {
            BusView { dma: self.dma.spec_write(data), ..self }
        } else if addr == 0xff47 {
            BusView { lcd: LCD { bg_palette: data, ..self.lcd }, ..self }
        } else if addr == 0xff48 {
            BusView { lcd: LCD { obj_palette0: data, ..self.lcd }, ..self }
        } else if addr == 0xff49 {
            BusView { lcd: LCD { obj_palette1: data, ..self.lcd }, ..self }
        } else if addr == 0xff4a {
            BusView { lcd: LCD { window_y: data, ..self.lcd }, ..self }
        } else if addr == 0xff4b {
            BusView { lcd: LCD { window_x: data, ..self.lcd }, ..self }
        } else if addr <= IO_REGISTERS_END {
            BusView { io_regs: self.io_regs.update(addr - IO_REGISTERS_START, data), ..self }
        } else if addr <= HRAM_END {
            BusView { hram: self.hram.update(addr - HRAM_START, data), ..self }
        } else {
            BusView { ie_reg: data & INT_MASK, ..self }
        }
    }

    /// The bus after the devices consume `cycles` T-cycles: the timer steps
    /// (raising the timer interrupt on TIMA overflow) and an active DMA copies
    /// its next window of bytes into object memory.
    #[verifier::opaque]
    pub open spec fn spec_tick(self, cycles: usize) -> BusView {
        let tstep = self.timer.spec_step(cycles);
        let if2 = if tstep.1 {
            self.if_reg | INT_TIMER
        } else {
            self.if_reg
        };
        let b1 = BusView { timer: tstep.0, if_reg: if2, ..self };
        if self.dma.active {
            let dstep = self.dma.spec_step(cycles);
            let b2 = BusView { dma: dstep.0, ..b1 };
            let start = self.dma.bytes as int;
            let n = dstep.1 as int;
            BusView {
                oam: Seq::new(
                    b2.oam.len(),
                    |i: int|
                        if start <= i < start + n {
                            b2.spec_read((b2.dma.source + i) as u16)
                        } else {
                            b2.oam[i]
                        },
                ),
                ..b2
            }
        } else {
            b1
        }
    }
}

/// The memory bus; it owns every backing array and the embedded devices.
pub struct BUS {
    pub rom: Vec<u8>,
    pub vram: Vec<u8>,
    pub wram: Vec<u8>,
    pub oam: Vec<u8>,
    pub hram: Vec<u8>,
    pub io_regs: Vec<u8>,
    pub ie_reg: InterruptRegister,
    pub if_reg: InterruptRegister,
    pub timer: Timer,
    pub lcd: LCD,
    pub dma: DMA,
    /// Bytes delivered by the serial port hook, oldest first.
    pub serial_out: Vec<u8>,
}

impl View for BUS {
    type V = BusView;

    open spec fn view(&self) -> BusView {
        BusView {
            rom: self.rom@,
            vram: self.vram@,
            wram: self.wram@,
            oam: self.oam@,
            hram: self.hram@,
            io_regs: self.io_regs@,
            ie_reg: self.ie_reg.bits,
            if_reg: self.if_reg.bits,
            timer: self.timer,
            lcd: self.lcd,
            dma: self.dma,
            serial_out: self.serial_out@,
        }
    }
}

impl BUS {
    pub open spec fn wf(self) -> bool {
        self@.wf()
    }

    /// Build the bus around a cartridge image, padded or cut to 32 KiB.
    pub fn new(rom: Vec<u8>) -> (b: BUS)
        ensures
            b.wf(),
            b@.rom.len() == 0x8000,
            forall|i: int|
                0 <= i < 0x8000 ==> b@.rom[i] == (if i < rom@.len() {
                    rom@[i]
                } else {
                    0u8
                }),
            b@.vram =~= Seq::new(0x2000, |i: int| 0u8),
            b@.wram =~= Seq::new(0x2000, |i: int| 0u8),
            b@.oam =~= Seq::new(160, |i: int| 0u8),
            b@.hram =~= Seq::new(128, |i: int| 0u8),
            b@.io_regs =~= Seq::new(128, |i: int| 0u8),
            b@.ie_reg == 0 && b@.if_reg == 0,
            b@.timer == (Timer { div: crate::definitions::DIV_INIT, tima: 0, tma: 0, tac: 0, cycles: 0 }),
            b@.lcd.ly == 0 && b@.lcd.stat.bits == 0 && b@.lcd.ctrl.bits == 0,
            b@.dma == (DMA { active: false, source: 0, bytes: 0, delay: 0 }),
            b@.serial_out == Seq::<u8>::empty(),
    {
        let ghost rom_in = rom@;
        let mut rom = rom;
        rom.truncate(0x8000);
        while rom.len() < 0x8000
            invariant
                rom@.len() <= 0x8000,
                rom@.len() >= rom_in.len() || rom@.len() == 0x8000,
                forall|i: int|
                    0 <= i < rom@.len() ==> rom@[i] == (if i < rom_in.len() && i < 0x8000 {
                        rom_in[i]
                    } else {
                        0u8
                    }),
            decreases 0x8000 - rom.len(),
        {
            rom.push(0);
        }

        BUS {
            rom,
            vram: zero_block(0x2000),
            wram: zero_block(0x2000),
            oam: zero_block(160),
            hram: zero_block(128),
            io_regs: zero_block(128),
            ie_reg: InterruptRegister { bits: 0 },
            if_reg: InterruptRegister { bits: 0 },
            timer: Timer::new(),
            lcd: LCD::new(),
            dma: DMA::new(),
            serial_out: Vec::new(),
        }
    }

    pub fn mem_read(&self, addr: u16) -> (r: u8)
        requires
            self.wf(),
        ensures
            r == self@.spec_read(addr),
    {
        proof {
            reveal(BusView::spec_read);
        }
        if addr <= ROM_END {
            self.rom[addr as usize]
        } else if addr <= VRAM_END {
            self.vram[(addr - VRAM_START) as usize]
        } else if addr <= EXT_RAM_END {
            0
        } else if addr <= WRAM_END {
            self.wram[(addr - WRAM_START) as usize]
        } else if addr <= ECHO_RAM_END {
            self.wram[(addr - ECHO_RAM_START) as usize]
        } else if addr <= OAM_END {
            if self.dma.active {
                0xff
            } else {
                self.oam[(addr - OAM_START) as usize]
            }
        } else if addr <= ILLEGAL_AREA_END {
            0xff
        } else if addr == 0xff04 {
            (self.timer.div >> 8) as u8
        } else if addr == 0xff05 {
            self.timer.tima
        } else if addr == 0xff06 {
            self.timer.tma
        } else if addr == 0xff07 {
            self.timer.tac
        } else if addr == INTERRUPT_FLAG {
            self.if_reg.bits
        } else if addr == 0xff40 {
            self.lcd.ctrl.bits
        } else if addr == 0xff41 {
            self.lcd.stat.bits
        } else if addr == 0xff42 {
            self.lcd.scroll_y
        } else if addr == 0xff43 {
            self.lcd.scroll_x
        } else if addr == 0xff44 {
            self.lcd.ly
        } else if addr == 0xff45 {
            self.lcd.lyc
        } else if addr == 0xff46 {
            (self.dma.source >> 8) as u8
        } else if addr == 0xff47 {
            self.lcd.bg_palette
        } else if addr == 0xff48 {
            self.lcd.obj_palette0
        } else if addr == 0xff49 {
            self.lcd.obj_palette1
        } else if addr == 0xff4a {
            self.lcd.window_y
        } else if addr == 0xff4b {
            self.lcd.window_x
        } else if addr <= IO_REGISTERS_END {
            self.io_regs[(addr - IO_REGISTERS_START) as usize]
        } else if addr <= HRAM_END {
            self.hram[(addr - HRAM_START) as usize]
        } else {
            self.ie_reg.bits
        }
    }

    pub fn mem_write(&mut self, addr: u16, data: u8)
        requires
            old(self).wf(),
        ensures
            final(self)@ == old(self)@.spec_write(addr, data),
            final(self).wf(),
    {
        proof {
            reveal(BusView::spec_write);
        }
        if addr <= ROM_END {
            // writes into ROM are dropped on a mapper-less cartridge
        } else if addr <= VRAM_END {
            self.vram[(addr - VRAM_START) as usize] = data;
        } else if addr <= EXT_RAM_END {
            // no external RAM on a plain 32 KiB cartridge
        } else if addr <= WRAM_END {
            self.wram[(addr - WRAM_START) as usize] = data;
        } else if addr <= ECHO_RAM_END {
            self.wram[(addr - ECHO_RAM_START) as usize] = data;
        } else if addr <= OAM_END {
            if !self.dma.active {
                self.oam[(addr - OAM_START) as usize] = data;
            }
        } else if addr <= ILLEGAL_AREA_END {
            // prohibited area: writes are dropped
        } else if addr == 0xff04 {
            self.timer.div = 0;
            self.timer.cycles = 0;
        } else if addr == 0xff05 {
            self.timer.tima = data;
        } else if addr == 0xff06 {
            self.timer.tma = data;
        } else if addr == 0xff07 {
            self.timer.tac = data;
        } else if addr == INTERRUPT_FLAG {
            self.if_reg = InterruptRegister::new(data);
        } else if addr == 0xff40 {
            self.lcd.ctrl = LCDControl::new(data);
        } else if addr == 0xff41 {
            // mode and coincidence bits are read-only
            self.lcd.stat = LCDStatus::new((self.lcd.stat.bits & 0x07) | (data & 0x78));
        } else if addr == 0xff42 {
            self.lcd.scroll_y = data;
        } else if addr == 0xff43 {
            self.lcd.scroll_x = data;
        } else if addr == 0xff44 {
            // LY is read-only
        } else if addr == 0xff45 {
            self.lcd.lyc = data;
        } else if addr == 0xff46 {
            self.dma.write(data);
        } else if addr == 0xff47 {
            self.lcd.bg_palette = data;
        } else if addr == 0xff48 {
            self.lcd.obj_palette0 = data;
        } else if addr == 0xff49 {
            self.lcd.obj_palette1 = data;
        } else if addr == 0xff4a {
            self.lcd.window_y = data;
        } else if addr == 0xff4b {
            self.lcd.window_x = data;
        } else if addr <= IO_REGISTERS_END {
            self.io_regs[(addr - IO_REGISTERS_START) as usize] = data;
        } else if addr <= HRAM_END {
            self.hram[(addr - HRAM_START) as usize] = data;
        } else {
            self.ie_reg = InterruptRegister::new(data);
        }
    }

    /// Clock the devices by the cycles the last instruction consumed.
    pub fn tick(&mut self, cycles: usize)
        requires
            old(self).wf(),
        ensures
            final(self)@ == old(self)@.spec_tick(cycles),
            final(self).wf(),
    {
        proof {
            reveal(BusView::spec_tick);
        }
        let tima_overflow = self.timer.step(cycles);
        if tima_overflow {
            self.if_reg.insert(INT_TIMER);
        }

        if self.dma.active {
            let start = self.dma.bytes;
            let n = self.dma.step(cycles);

            let ghost b2 = self@;
            let mut buf: Vec<u8> = Vec::new();
            let mut j: usize = 0;
            while j < n
                invariant
                    self.wf(),
                    self@ == b2,
                    start + n <= 160,
                    self.dma.source <= 0xff00,
                    j <= n,
                    buf@.len() == j,
                    forall|k: int|
                        0 <= k < j ==> buf@[k] == b2.spec_read(
                            (b2.dma.source + start + k) as u16,
                        ),
                decreases n - j,
            {
                let b = self.mem_read(self.dma.source + ((start + j) as u16));
                buf.push(b);
                j = j + 1;
            }

            let mut k: usize = 0;
            while k < n
                invariant
                    self.rom@.len() == 0x8000,
                    self.vram@.len() == 0x2000,
                    self.wram@.len() == 0x2000,
                    self.oam@.len() == 160,
                    self.hram@.len() == 128,
                    self.io_regs@.len() == 128,
                    self.dma.wf(),
                    start + n <= 160,
                    k <= n,
                    buf@.len() == n,
                    self@ == (BusView { oam: self@.oam, ..b2 }),
                    forall|i: int|
                        0 <= i < 160 ==> self@.oam[i] == (if start <= i < start + k {
                            buf@[i - start]
                        } else {
                            b2.oam[i]
                        }),
                decreases n - k,
            {
                self.oam[start + k] = buf[k];
                k = k + 1;
            }

            proof {
                let post = old(self)@.spec_tick(cycles);
                assert(self@.oam =~= post.oam);
                assert(self@ =~= post);
            }
        }
    }

    pub fn serial_len(&self) -> (n: usize)
        ensures
            n == self@.serial_out.len(),
    {
        self.serial_out.len()
    }

    pub fn serial_byte(&self, i: usize) -> (b: u8)
        requires
            i < self@.serial_out.len(),
        ensures
            b == self@.serial_out[i as int],
    {
        self.serial_out[i]
    }

    pub fn clear_serial(&mut self)
        ensures
            final(self)@ == (BusView { serial_out: Seq::<u8>::empty(), ..old(self)@ }),
    {
        self.serial_out.clear();
    }
}

/// Writing any value to the divider register makes the next read of it
/// yield zero.
pub proof fn lemma_div_write_reads_zero(b: BusView, v: u8)
    ensures
        b.spec_write(0xff04, v).spec_read(0xff04) == 0,
{
    reveal(BusView::spec_read);
    reveal(BusView::spec_write);
    assert((0u16 >> 8) as u8 == 0) by (bit_vector);
}

/// After a TIMA overflow during a tick, TIMA holds the reload value TMA and
/// the timer interrupt bit stands in IF.
pub proof fn lemma_tima_overflow_interrupt(b: BusView, cycles: usize)
    requires
        b.timer.spec_step(cycles).1,
    ensures
        b.spec_tick(cycles).timer.tima == b.timer.tma,
        b.spec_tick(cycles).if_reg & INT_TIMER != 0,
{
    reveal(BusView::spec_tick);
    let f = b.if_reg;
    assert((f | INT_TIMER) & INT_TIMER != 0) by (bit_vector);
}

/// Clocking the devices leaves plain RAM readable unchanged: the tick only
/// touches the timer, the DMA engine and (during a transfer) object memory.
pub proof fn lemma_tick_preserves_ram(b: BusView, cycles: usize, addr: u16)
    requires
        b.plain_ram_pair(addr),
    ensures
        b.spec_tick(cycles).spec_read(addr) == b.spec_read(addr),
        b.spec_tick(cycles).spec_read(addr.wrapping_add(1)) == b.spec_read(addr.wrapping_add(1)),
{
    reveal(BusView::spec_tick);
    reveal(BusView::spec_read);
}

/// A zero-filled block of RAM.
fn zero_block(n: usize) -> (v: Vec<u8>)
    ensures
        v@ =~= Seq::new(n as nat, |i: int| 0u8),
{
    let mut v: Vec<u8> = Vec::new();
    let mut i: usize = 0;
    while i < n
        invariant
            i <= n,
            v@.len() == i,
            forall|k: int| 0 <= k < i ==> v@[k] == 0u8,
        decreases n - i,
    {
        v.push(0);
        i = i + 1;
    }
    v
}

} // verus!
