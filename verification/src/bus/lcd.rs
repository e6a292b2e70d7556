//! LCD register file: control and status bit sets, scroll and window
//! positions, the LY/LYC pair and the three palettes.

use vstd::prelude::*;

verus! {

// LCDControl bit positions.
pub const BG_N_WINDOW_ENABLE: u8 = 1 << 0;
pub const SPRITE_ENABLE: u8 = 1 << 1;
pub const SPRITE_SIZE: u8 = 1 << 2;
pub const BG_TILE_SELECT: u8 = 1 << 3;
pub const TILE_SELECT: u8 = 1 << 4;
pub const WINDOW_ENABLE: u8 = 1 << 5;
pub const WINDOW_SELECT: u8 = 1 << 6;
pub const LCD_ENABLE: u8 = 1 << 7;

// LCDStatus bit positions.
pub const PPU_MODE: u8 = 0x03;
pub const LYC_EQ_LY: u8 = 1 << 2;
pub const MODE_0_INT: u8 = 1 << 3;
pub const MODE_1_INT: u8 = 1 << 4;
pub const MODE_2_INT: u8 = 1 << 5;
pub const LYC_INT: u8 = 1 << 6;

/// The LCD-control byte, kept whole; callers test bits with the masks above.
#[derive(Debug, Clone, Copy, PartialEq, Eq, Structural)]
pub struct LCDControl {
    pub bits: u8,
}

impl LCDControl {
    pub fn new(value: u8) -> (r: LCDControl)
        ensures
            r.bits == value,
    {
        LCDControl { bits: value }
    }

    pub open spec fn spec_contains(self, mask: u8) -> bool {
        self.bits & mask != 0
    }

    pub fn contains(&self, mask: u8) -> (r: bool)
        ensures
            r == self.spec_contains(mask),
    {
        self.bits & mask != 0
    }

    pub fn bits(&self) -> (r: u8)
        ensures
            r == self.bits,
    {
        self.bits
    }
}

/// The LCD-status byte; the low two bits mirror the pixel unit's mode.
#[derive(Debug, Clone, Copy, PartialEq, Eq, Structural)]
pub struct LCDStatus {
    pub bits: u8,
}

impl LCDStatus {
    pub fn new(value: u8) -> (r: LCDStatus)
        ensures
            r.bits == value,
    {
        LCDStatus { bits: value }
    }

    pub open spec fn spec_contains(self, mask: u8) -> bool {
        self.bits & mask != 0
    }

    pub fn contains(&self, mask: u8) -> (r: bool)
        ensures
            r == self.spec_contains(mask),
    {
        self.bits & mask != 0
    }

    pub fn bits(&self) -> (r: u8)
        ensures
            r == self.bits,
    {
        self.bits
    }
}

#[derive(Debug, Clone, Copy, PartialEq, Eq, Structural)]
pub struct LCD {
    pub ctrl: LCDControl,
    pub stat: LCDStatus,
    pub scroll_x: u8,
    pub scroll_y: u8,
    pub window_x: u8,
    pub window_y: u8,
    pub ly: u8,
    pub lyc: u8,
    pub bg_palette: u8,
    pub obj_palette0: u8,
    pub obj_palette1: u8,
}

impl LCD {
    pub fn new() -> (r: LCD)
        ensures
            r == (LCD {
                ctrl: LCDControl { bits: 0 },
                stat: LCDStatus { bits: 0 },
                scroll_x: 0u8,
                scroll_y: 0u8,
                window_x: 0u8,
                window_y: 0u8,
                ly: 0u8,
                lyc: 0u8,
                bg_palette: 0u8,
                obj_palette0: 0u8,
                obj_palette1: 0u8,
            }),
    {
        LCD {
            ctrl: LCDControl::new(0),
            stat: LCDStatus::new(0),
            scroll_x: 0,
            scroll_y: 0,
            window_x: 0,
            window_y: 0,
            ly: 0,
            lyc: 0,
            bg_palette: 0,
            obj_palette0: 0,
            obj_palette1: 0,
        }
    }
}

} // verus!
