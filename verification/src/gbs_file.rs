//! The header of a GBS (Game Boy Sound) file.
//!
//! A GBS file is a 0x70 byte header followed by the program image. The
//! header starts with the signature "GBS"; its 16 bit fields are little-endian.
use vstd::prelude::*;
use vstd::slice::slice_subrange;
use crate::types::{make_u16_from_u8, spec_u16_le};

verus! {

/// Size of the header in bytes.
pub const GBS_HEADER_SIZE: usize = 0x70;

/// GBS file header.
#[derive(Debug, Clone, Copy)]
pub struct GBSFileHeader {
    /// Format version.
    pub version: u8,
    /// Number of songs.
    pub num_songs: u8,
    /// First song (1-based).
    pub first_song: u8,
    /// Load address of the program image (0x0400 - 0x7FFF).
    pub load_address: u16,
    /// Address of the init routine (0x0400 - 0x7FFF).
    pub init_address: u16,
    /// Address of the play routine, called periodically (0x0400 - 0x7FFF).
    pub play_address: u16,
    /// Initial stack pointer.
    pub stack_pointer: u16,
    /// Timer modulo (TMA).
    pub timer_modulo: u8,
    /// Timer control (TAC).
    pub timer_control: u8,
    /// Title.
    pub title: [u8; 32],
    /// Author.
    pub author: [u8; 32],
    /// Copyright.
    pub copyright: [u8; 32],
}

/// Whether `data` is long enough for a header and starts with "GBS".
pub open spec fn spec_is_gbs_header(data: Seq<u8>) -> bool {
    &&& data.len() >= GBS_HEADER_SIZE
    &&& data[0] == 0x47u8
    &&& data[1] == 0x42u8
    &&& data[2] == 0x53u8
}

/// Whether `h` holds the fields of the header at the start of `data`.
pub open spec fn spec_header_fields(h: GBSFileHeader, data: Seq<u8>) -> bool {
    &&& h.version == data[0x3]
    &&& h.num_songs == data[0x4]
    &&& h.first_song == data[0x5]
    &&& h.load_address == spec_u16_le(data[0x6], data[0x7])
    &&& h.init_address == spec_u16_le(data[0x8], data[0x9])
    &&& h.play_address == spec_u16_le(data[0xA], data[0xB])
    &&& h.stack_pointer == spec_u16_le(data[0xC], data[0xD])
    &&& h.timer_modulo == data[0xE]
    &&& h.timer_control == data[0xF]
    &&& h.title@ == data.subrange(0x10, 0x30)
    &&& h.author@ == data.subrange(0x30, 0x50)
    &&& h.copyright@ == data.subrange(0x50, 0x70)
}

/// The 32 bytes of `data` from `start`.
fn copy_32(data: &[u8], start: usize) -> (r: [u8; 32])
    requires
        start + 32 <= data@.len(),
    ensures
        r@ == data@.subrange(start as int, start + 32),
{
    let mut r = [0u8; 32];
    let mut i: usize = 0;
    while i < 32
        invariant
            i <= 32,
            start + 32 <= data.len(),
            r@.len() == 32,
            forall|j: int| 0 <= j < i ==> r@[j] == data@[start + j],
        decreases 32 - i,
    {
        r[i] = data[start + i];
        i += 1;
    }
    assert(r@ =~= data@.subrange(start as int, start + 32));
    r
}

/// Parses the header at the start of `data`; `None` when `data` is shorter
/// than a header or does not start with "GBS".
pub fn parse_gbs_header(data: &[u8]) -> (r: Option<GBSFileHeader>)
    ensures
        r is Some <==> spec_is_gbs_header(data@),
        r matches Some(h) ==> spec_header_fields(h, data@),
{
    if data.len() < GBS_HEADER_SIZE {
        return None;
    }
    // the signature "GBS"
    if data[0] != 0x47 || data[1] != 0x42 || data[2] != 0x53 {
        return None;
    }
    Some(
        GBSFileHeader {
            version: data[0x3],
            num_songs: data[0x4],
            first_song: data[0x5],
            load_address: make_u16_from_u8(slice_subrange(data, 0x6, 0x8)),
            init_address: make_u16_from_u8(slice_subrange(data, 0x8, 0xA)),
            play_address: make_u16_from_u8(slice_subrange(data, 0xA, 0xC)),
            stack_pointer: make_u16_from_u8(slice_subrange(data, 0xC, 0xE)),
            timer_modulo: data[0xE],
            timer_control: data[0xF],
            title: copy_32(data, 0x10),
            author: copy_32(data, 0x30),
            copyright: copy_32(data, 0x50),
        },
    )
}

/// The number of 16 KiB banks of the ROM built for an image of `len` bytes
/// loaded at `load_address`: one bank more than the image needs, rounded up
/// to whole banks, or 0 when that does not hold the image at its address or
/// is more than 128 banks.
pub open spec fn spec_rom_banks(load_address: int, len: int) -> int {
    let banks = (len + 0x4000 + 0x3FFF) / 0x4000;
    if load_address + len <= banks * 0x4000 && banks <= 128 {
        banks
    } else {
        0
    }
}

/// Builds the ROM a player runs: the program image placed at
/// `load_address` in zeroed banks, as many as `spec_rom_banks` gives;
/// `None` when it gives none.
pub fn build_rom_image(image: &[u8], load_address: u16) -> (r: Option<Vec<u8>>)
    ensures
        r is None <==> spec_rom_banks(load_address as int, image@.len() as int) == 0,
        r matches Some(rom) ==> {
            &&& rom@.len() == spec_rom_banks(load_address as int, image@.len() as int) * 0x4000
            &&& forall|i: int|
                0 <= i < rom@.len() ==> #[trigger] rom@[i] == (if load_address <= i < load_address
                    + image@.len() {
                    image@[i - load_address]
                } else {
                    0u8
                })
        },
{
    let start = load_address as usize;
    if image.len() > 128 * 0x4000 {
        return None;
    }
    let banks = (image.len() + 0x4000 + 0x3FFF) / 0x4000;
    let needed = start + image.len();
    if banks > 128 || needed > banks * 0x4000 {
        return None;
    }
    let size = banks * 0x4000;
    let mut rom: Vec<u8> = Vec::new();
    let mut i: usize = 0;
    while i < size
        invariant
            i <= size,
            size == spec_rom_banks(start as int, image@.len() as int) * 0x4000,
            needed == start + image@.len(),
            needed <= size,
            rom@.len() == i,
            forall|k: int|
                0 <= k < i ==> #[trigger] rom@[k] == (if start <= k < needed {
                    image@[k - start]
                } else {
                    0u8
                }),
        decreases size - i,
    {
        if start <= i && i < needed {
            rom.push(image[i - start]);
        } else {
            rom.push(0);
        }
        i += 1;
    }
    Some(rom)
}

} // verus!
