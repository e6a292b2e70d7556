//! Cartridge header parsing: title, publisher and size codes, and the
//! header checksum over 0x134..=0x14c.

use vstd::prelude::*;
use crate::EmuError;

verus! {

/// The running header checksum over `data[0x134..0x134 + n]`: each byte and
/// one more are subtracted, wrapping.
pub open spec fn spec_header_checksum(data: Seq<u8>, n: int) -> u8
    decreases n,
{
    if n <= 0 {
        0
    } else {
        spec_header_checksum(data, n - 1).wrapping_sub(
            data[0x134 + n - 1],
        ).wrapping_sub(1)
    }
}

/// The title bytes: `data[0x134..0x143]` with NUL bytes removed, the first
/// `n` positions considered.
pub open spec fn spec_title(data: Seq<u8>, n: int) -> Seq<u8>
    decreases n,
{
    if n <= 0 {
        Seq::empty()
    } else {
        let prefix = spec_title(data, n - 1);
        if data[0x134 + n - 1] == 0 {
            prefix
        } else {
            prefix.push(data[0x134 + n - 1])
        }
    }
}

#[derive(Debug)]
pub struct Cartridge {
    pub rom: Vec<u8>,
    /// The title bytes from the header, NULs stripped.
    pub title: Vec<u8>,
    pub publisher: u16,
    pub cgb_flag: u8,
    pub sgb_flag: u8,
    pub cart_type: u8,
    pub rom_size: u8,
    pub actual_rom_size: u32,
    pub ram_size: u8,
    pub continent: u8,
    pub old_publisher: u8,
    pub version: u8,
    pub checksum: u8,
    pub checksum_pass: bool,
}

impl Cartridge {
    /// Parse the cartridge header. An image too short to hold a full header
    /// is rejected; otherwise every field is the corresponding header byte,
    /// and `checksum_pass` says whether the stored checksum matches the sum
    /// over 0x134..=0x14c.
    pub fn new(data: Vec<u8>) -> (r: Result<Cartridge, EmuError>)
        ensures
            data@.len() < 0x14f ==> r == Err::<Cartridge, EmuError>(EmuError::RomTooShort),
            data@.len() >= 0x14f ==> r is Ok && {
                let c = r->Ok_0;
                &&& c.rom@ == data@
                &&& c.title@ == spec_title(data@, 15)
                &&& c.publisher == crate::cpu::word(data@[0x144], data@[0x145])
                &&& c.cgb_flag == data@[0x143]
                &&& c.sgb_flag == data@[0x146]
                &&& c.cart_type == data@[0x147]
                &&& c.rom_size == data@[0x148]
                &&& c.actual_rom_size == (if data@[0x148] < 16 {
                    (0x8000u32 as u32) << (data@[0x148] as u32)
                } else {
                    0u32
                })
                &&& c.ram_size == data@[0x149]
                &&& c.continent == data@[0x14a]
                &&& c.old_publisher == data@[0x14b]
                &&& c.version == data@[0x14c]
                &&& c.checksum == data@[0x14d]
                &&& c.checksum_pass == (data@[0x14d] == spec_header_checksum(data@, 0x19))
            },
    {
        if data.len() < 0x14f {
            return Err(EmuError::RomTooShort);
        }

        let mut title: Vec<u8> = Vec::new();
        let mut i: usize = 0;
        while i < 15
            invariant
                data@.len() >= 0x14f,
                i <= 15,
                title@ == spec_title(data@, i as int),
            decreases 15 - i,
        {
            let b = data[0x134 + i];
            if b != 0 {
                title.push(b);
            }
            i = i + 1;
        }

        let mut check: u8 = 0;
        let mut n: usize = 0;
        while n < 0x19
            invariant
                data@.len() >= 0x14f,
                n <= 0x19,
                check == spec_header_checksum(data@, n as int),
            decreases 0x19 - n,
        {
            check = check.wrapping_sub(data[0x134 + n]).wrapping_sub(1);
            n = n + 1;
        }

        let publisher = ((data[0x144] as u16) << 8) | (data[0x145] as u16);
        let rom_size = data[0x148];
        let actual_rom_size: u32 = if rom_size < 16 {
            0x8000u32 << (rom_size as u32)
        } else {
            0
        };
        let checksum = data[0x14d];

        Ok(Cartridge {
            title,
            publisher,
            cgb_flag: data[0x143],
            sgb_flag: data[0x146],
            cart_type: data[0x147],
            rom_size,
            actual_rom_size,
            ram_size: data[0x149],
            continent: data[0x14a],
            old_publisher: data[0x14b],
            version: data[0x14c],
            checksum,
            checksum_pass: checksum == check,
            rom: data,
        })
    }
}

} // verus!
