//! The pixel-processing unit: the OAM-scan / drawing / hblank / vblank mode
//! cycle per scanline, the LY counter with its LYC coincidence, the vblank
//! and STAT interrupts, and a background renderer into the framebuffer.

use vstd::prelude::*;
use crate::bus::{BUS, BusView, INT_VBLANK, INT_LCD};
use crate::bus::lcd::{LCD, LCDStatus, BG_N_WINDOW_ENABLE, BG_TILE_SELECT, TILE_SELECT,
    MODE_0_INT, MODE_1_INT, MODE_2_INT, LYC_INT};
use crate::definitions::{LCD_WIDTH, LCD_HEIGHT};

verus! {

#[derive(Debug, Clone, Copy, PartialEq, Eq, Structural)]
pub enum PPUMode {
    HBlank,
    VBlank,
    OAMScan,
    Drawing,
}

/// The two STAT mode bits of a mode.
pub open spec fn spec_mode_bits(m: PPUMode) -> u8 {
    match m {
        PPUMode::HBlank => 0,
        PPUMode::VBlank => 1,
        PPUMode::OAMScan => 2,
        PPUMode::Drawing => 3,
    }
}

/// The background palette index shown at screen position (x, y), read from
/// the tile maps and tile data in video memory through the BG palette.
pub open spec fn spec_bg_pixel(b: BusView, x: u8, y: u8) -> u8 {
    if b.lcd.ctrl.bits & BG_N_WINDOW_ENABLE == 0 {
        0
    } else {
        let bgx = x.wrapping_add(b.lcd.scroll_x);
        let bgy = y.wrapping_add(b.lcd.scroll_y);
        let map_base: int = if b.lcd.ctrl.bits & BG_TILE_SELECT != 0 {
            0x1c00
        } else {
            0x1800
        };
        let tile_idx = b.vram[map_base + (bgy / 8) * 32 + bgx / 8];
        let row: int = 2 * (bgy % 8);
        let tile_addr: int = if b.lcd.ctrl.bits & TILE_SELECT != 0 {
            tile_idx * 16 + row
        } else {
            0x1000 + (tile_idx as i8) * 16 + row
        };
        let low = b.vram[tile_addr];
        let high = b.vram[tile_addr + 1];
        let bitpos = 7 - (bgx % 8) as u32;
        let lb: u8 = if low >> bitpos & 1 != 0 {
            1
        } else {
            0
        };
        let hb: u8 = if high >> bitpos & 1 != 0 {
            1
        } else {
            0
        };
        let color = (2 * hb + lb) as u8;
        (b.lcd.bg_palette >> (2 * color) as u32) & 3
    }
}

/// Mathematical model of the pixel unit.
#[verifier::ext_equal]
pub ghost struct PpuView {
    pub framebuffer: Seq<u8>,
    pub mode: PPUMode,
    pub scanline_cycles: usize,
    pub scanline_pixels: usize,
}

pub struct PPU {
    /// 160 x 144 palette indices, row-major.
    pub framebuffer: Vec<u8>,
    pub mode: PPUMode,
    pub scanline_cycles: usize,
    pub scanline_pixels: usize,
}

impl View for PPU {
    type V = PpuView;

    open spec fn view(&self) -> PpuView {
        PpuView {
            framebuffer: self.framebuffer@,
            mode: self.mode,
            scanline_cycles: self.scanline_cycles,
            scanline_pixels: self.scanline_pixels,
        }
    }
}

/// The STAT byte rewritten for the current mode and coincidence state.
pub open spec fn spec_stat_update(stat: u8, mode: PPUMode, coincide: bool) -> u8 {
    (stat & 0xf8) | spec_mode_bits(mode) | (if coincide {
        4u8
    } else {
        0u8
    })
}

/// The interrupt-flag additions and LY/STAT bookkeeping shared by every
/// scanline change: LY takes its new value and the coincidence is rechecked.
pub open spec fn spec_line_change(b: BusView, new_ly: u8, new_mode: PPUMode, raise: u8) -> BusView {
    let coincide = new_ly == b.lcd.lyc;
    let lyc_raise: u8 = if coincide && b.lcd.stat.bits & LYC_INT != 0 {
        INT_LCD
    } else {
        0
    };
    BusView {
        lcd: LCD {
            ly: new_ly,
            stat: LCDStatus {
                bits: spec_stat_update(b.lcd.stat.bits, new_mode, coincide),
            },
            ..b.lcd
        },
        if_reg: b.if_reg | (raise | lyc_raise),
        ..b
    }
}

/// One T-cycle of the pixel unit.
pub open spec fn spec_ppu_step(p: PpuView, b: BusView) -> (PpuView, BusView) {
    let cycles = if p.scanline_cycles < 456 {
        (p.scanline_cycles + 1) as usize
    } else {
        456usize
    };
    match p.mode {
        PPUMode::OAMScan => {
            if cycles == 80 {
                (PpuView { scanline_cycles: cycles, scanline_pixels: 0, mode: PPUMode::Drawing, ..p },
                BusView {
                    lcd: LCD {
                        stat: LCDStatus {
                            bits: spec_stat_update(
                                b.lcd.stat.bits,
                                PPUMode::Drawing,
                                b.lcd.ly == b.lcd.lyc,
                            ),
                        },
                        ..b.lcd
                    },
                    ..b
                })
            } else {
                (PpuView { scanline_cycles: cycles, ..p }, b)
            }
        },
        PPUMode::Drawing => {
            let fb = if p.scanline_pixels < 160 && b.lcd.ly < 144 {
                p.framebuffer.update(
                    b.lcd.ly * 160 + p.scanline_pixels,
                    spec_bg_pixel(b, p.scanline_pixels as u8, b.lcd.ly),
                )
            } else {
                p.framebuffer
            };
            let pixels = if p.scanline_pixels < 160 {
                (p.scanline_pixels + 1) as usize
            } else {
                160usize
            };
            if pixels == 160 {
                let raise: u8 = if b.lcd.stat.bits & MODE_0_INT != 0 {
                    INT_LCD
                } else {
                    0
                };
                (PpuView {
                    framebuffer: fb,
                    scanline_cycles: cycles,
                    scanline_pixels: pixels,
                    mode: PPUMode::HBlank,
                },
                BusView {
                    lcd: LCD {
                        stat: LCDStatus {
                            bits: spec_stat_update(
                                b.lcd.stat.bits,
                                PPUMode::HBlank,
                                b.lcd.ly == b.lcd.lyc,
                            ),
                        },
                        ..b.lcd
                    },
                    if_reg: b.if_reg | raise,
                    ..b
                })
            } else {
                (PpuView {
                    framebuffer: fb,
                    scanline_cycles: cycles,
                    scanline_pixels: pixels,
                    ..p
                }, b)
            }
        },
        PPUMode::HBlank => {
            if cycles == 456 {
                let new_ly = b.lcd.ly.wrapping_add(1);
                if new_ly == 144 {
                    let raise: u8 = INT_VBLANK | (if b.lcd.stat.bits & MODE_1_INT != 0 {
                        INT_LCD
                    } else {
                        0
                    });
                    (PpuView { scanline_cycles: 0, mode: PPUMode::VBlank, ..p },
                    spec_line_change(b, new_ly, PPUMode::VBlank, raise))
                } else {
                    let raise: u8 = if b.lcd.stat.bits & MODE_2_INT != 0 {
                        INT_LCD
                    } else {
                        0
                    };
                    (PpuView { scanline_cycles: 0, mode: PPUMode::OAMScan, ..p },
                    spec_line_change(b, new_ly, PPUMode::OAMScan, raise))
                }
            } else {
                (PpuView { scanline_cycles: cycles, ..p }, b)
            }
        },
        PPUMode::VBlank => {
            if cycles == 456 {
                let new_ly = b.lcd.ly.wrapping_add(1);
                if new_ly >= 154 {
                    let raise: u8 = if b.lcd.stat.bits & MODE_2_INT != 0 {
                        INT_LCD
                    } else {
                        0
                    };
                    (PpuView { scanline_cycles: 0, scanline_pixels: 0, mode: PPUMode::OAMScan, ..p },
                    spec_line_change(b, 0, PPUMode::OAMScan, raise))
                } else {
                    (PpuView { scanline_cycles: 0, ..p },
                    spec_line_change(b, new_ly, PPUMode::VBlank, 0))
                }
            } else {
                (PpuView { scanline_cycles: cycles, ..p }, b)
            }
        },
    }
}

impl PPU {
    pub open spec fn wf(self) -> bool {
        &&& self@.framebuffer.len() == 23040
        &&& self@.scanline_cycles <= 456
        &&& self@.scanline_pixels <= 160
    }

    pub fn new() -> (p: PPU)
        ensures
            p.wf(),
            p@.mode == PPUMode::OAMScan,
            p@.scanline_cycles == 0,
            p@.scanline_pixels == 0,
            p@.framebuffer =~= Seq::new(23040, |i: int| 0u8),
    {
        let mut framebuffer: Vec<u8> = Vec::new();
        let mut i: usize = 0;
        while i < 23040
            invariant
                i <= 23040,
                framebuffer@.len() == i,
                forall|k: int| 0 <= k < i ==> framebuffer@[k] == 0u8,
            decreases 23040 - i,
        {
            framebuffer.push(0);
            i = i + 1;
        }
        PPU { framebuffer, mode: PPUMode::OAMScan, scanline_cycles: 0, scanline_pixels: 0 }
    }

    /// The background pixel at (x, y), as the renderer computes it.
    fn bg_pixel(bus: &BUS, x: u8, y: u8) -> (r: u8)
        requires
            bus.wf(),
        ensures
            r == spec_bg_pixel(bus@, x, y),
    {
        if bus.lcd.ctrl.bits & BG_N_WINDOW_ENABLE == 0 {
            return 0;
        }
        let bgx = x.wrapping_add(bus.lcd.scroll_x);
        let bgy = y.wrapping_add(bus.lcd.scroll_y);
        let map_base: usize = if bus.lcd.ctrl.bits & BG_TILE_SELECT != 0 {
            0x1c00
        } else {
            0x1800
        };
        let tile_idx = bus.vram[map_base + (bgy as usize / 8) * 32 + bgx as usize / 8];
        let row: usize = 2 * (bgy as usize % 8);
        let tile_addr: usize = if bus.lcd.ctrl.bits & TILE_SELECT != 0 {
            (tile_idx as usize) * 16 + row
        } else {
            (0x1000 + ((tile_idx as i8) as isize) * 16 + row as isize) as usize
        };
        proof {
            assert(0x1000 + (tile_idx as i8) * 16 + (2 * (bgy % 8)) >= 0x800);
            assert(0x1000 + (tile_idx as i8) * 16 + (2 * (bgy % 8)) < 0x2000);
        }
        let low = bus.vram[tile_addr];
        let high = bus.vram[tile_addr + 1];
        let bitpos: u32 = 7 - (bgx as u32 % 8);
        let lb: u8 = if low >> bitpos & 1 != 0 {
            1
        } else {
            0
        };
        let hb: u8 = if high >> bitpos & 1 != 0 {
            1
        } else {
            0
        };
        let color = 2 * hb + lb;
        (bus.lcd.bg_palette >> (2 * color) as u32) & 3
    }

    /// Advance the pixel unit by one T-cycle, raising interrupts in IF and
    /// keeping LY, the STAT mode bits and the coincidence bit current.
    pub fn step(&mut self, bus: &mut BUS)
        requires
            old(self).wf(),
            old(bus).wf(),
        ensures
            final(self).wf(),
            final(bus).wf(),
            (final(self)@, final(bus)@) == spec_ppu_step(old(self)@, old(bus)@),
    {
        if self.scanline_cycles < 456 {
            self.scanline_cycles = self.scanline_cycles + 1;
        }

        match self.mode {
            PPUMode::OAMScan => {
                if self.scanline_cycles == 80 {
                    self.scanline_pixels = 0;
                    self.mode = PPUMode::Drawing;
                    let coincide = bus.lcd.ly == bus.lcd.lyc;
                    bus.lcd.stat = LCDStatus::new(
                        stat_bits(bus.lcd.stat.bits, 3, coincide),
                    );
                }
            },
            PPUMode::Drawing => {
                if self.scanline_pixels < 160 && bus.lcd.ly < 144 {
                    let px = PPU::bg_pixel(bus, self.scanline_pixels as u8, bus.lcd.ly);
                    let idx = (bus.lcd.ly as usize) * 160 + self.scanline_pixels;
                    self.framebuffer[idx] = px;
                }
                if self.scanline_pixels < 160 {
                    self.scanline_pixels = self.scanline_pixels + 1;
                }
                if self.scanline_pixels == 160 {
                    self.mode = PPUMode::HBlank;
                    let coincide = bus.lcd.ly == bus.lcd.lyc;
                    let raise: u8 = if bus.lcd.stat.bits & MODE_0_INT != 0 {
                        INT_LCD
                    } else {
                        0
                    };
                    bus.lcd.stat = LCDStatus::new(
                        stat_bits(bus.lcd.stat.bits, 0, coincide),
                    );
                    bus.if_reg.insert(raise);
                }
            },
            PPUMode::HBlank => {
                if self.scanline_cycles == 456 {
                    self.scanline_cycles = 0;
                    let new_ly = bus.lcd.ly.wrapping_add(1);
                    if new_ly == 144 {
                        self.mode = PPUMode::VBlank;
                        let raise = INT_VBLANK | (if bus.lcd.stat.bits & MODE_1_INT != 0 {
                            INT_LCD
                        } else {
                            0
                        });
                        PPU::line_change(bus, new_ly, 1, raise);
                    } else {
                        self.mode = PPUMode::OAMScan;
                        let raise = if bus.lcd.stat.bits & MODE_2_INT != 0 {
                            INT_LCD
                        } else {
                            0
                        };
                        PPU::line_change(bus, new_ly, 2, raise);
                    }
                }
            },
            PPUMode::VBlank => {
                if self.scanline_cycles == 456 {
                    self.scanline_cycles = 0;
                    let new_ly = bus.lcd.ly.wrapping_add(1);
                    if new_ly >= 154 {
                        self.scanline_pixels = 0;
                        self.mode = PPUMode::OAMScan;
                        let raise = if bus.lcd.stat.bits & MODE_2_INT != 0 {
                            INT_LCD
                        } else {
                            0
                        };
                        PPU::line_change(bus, 0, 2, raise);
                    } else {
                        PPU::line_change(bus, new_ly, 1, 0);
                    }
                }
            },
        }
    }

    /// Apply a scanline change: set LY, recheck the coincidence, and raise
    /// the given interrupt bits plus the LYC source when it fires.
    fn line_change(bus: &mut BUS, new_ly: u8, mode_bits_val: u8, raise: u8)
        requires
            old(bus).wf(),
            mode_bits_val <= 3,
        ensures
            final(bus).wf(),
            final(bus)@ == spec_line_change(
                old(bus)@,
                new_ly,
                (if mode_bits_val == 0 {
                    PPUMode::HBlank
                } else if mode_bits_val == 1 {
                    PPUMode::VBlank
                } else if mode_bits_val == 2 {
                    PPUMode::OAMScan
                } else {
                    PPUMode::Drawing
                }),
                raise,
            ),
    {
        let coincide = new_ly == bus.lcd.lyc;
        let lyc_raise: u8 = if coincide && bus.lcd.stat.bits & LYC_INT != 0 {
            INT_LCD
        } else {
            0
        };
        bus.lcd.ly = new_ly;
        bus.lcd.stat = LCDStatus::new(stat_bits(bus.lcd.stat.bits, mode_bits_val, coincide));
        bus.if_reg.insert(raise | lyc_raise);
    }

    pub fn get_ly(&self, bus: &BUS) -> (r: u8)
        ensures
            r == bus@.lcd.ly,
    {
        bus.lcd.ly
    }

    /// Advance LY by one line, wrapping at the end of the counter range.
    pub fn inc_ly(&self, bus: &mut BUS)
        ensures
            final(bus)@ == (BusView {
                lcd: (LCD { ly: old(bus)@.lcd.ly.wrapping_add(1), ..old(bus)@.lcd }),
                ..old(bus)@
            }),
    {
        bus.lcd.ly = bus.lcd.ly.wrapping_add(1);
    }

    /// Reset LY to the top of the frame.
    pub fn reset_ly(&self, bus: &mut BUS)
        ensures
            final(bus)@ == (BusView {
                lcd: (LCD { ly: 0, ..old(bus)@.lcd }),
                ..old(bus)@
            }),
    {
        bus.lcd.ly = 0;
    }

    pub fn get_lcd_stat(&self, bus: &BUS) -> (r: LCDStatus)
        ensures
            r == bus@.lcd.stat,
    {
        bus.lcd.stat
    }

    pub fn get_lcd_ctrl(&self, bus: &BUS) -> (r: crate::bus::lcd::LCDControl)
        ensures
            r == bus@.lcd.ctrl,
    {
        bus.lcd.ctrl
    }

    /// The palette index of the completed frame at (x, y).
    pub fn pixel(&self, x: usize, y: usize) -> (r: u8)
        requires
            self.wf(),
            x < LCD_WIDTH,
            y < LCD_HEIGHT,
        ensures
            r == self@.framebuffer[y * 160 + x],
    {
        self.framebuffer[y * 160 + x]
    }
}

/// The STAT byte with its mode and coincidence bits replaced.
fn stat_bits(stat: u8, mode_bits_val: u8, coincide: bool) -> (r: u8)
    requires
        mode_bits_val <= 3,
    ensures
        r == ((stat & 0xf8) | mode_bits_val | (if coincide {
            4u8
        } else {
            0u8
        })),
{
    (stat & 0xf8) | mode_bits_val | (if coincide {
        4
    } else {
        0
    })
}

} // verus!
