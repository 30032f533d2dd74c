//! The iNES cartridge container: a 16-byte header, an optional 512-byte
//! trainer, the program ROM banks and the character ROM banks.

use vstd::prelude::*;
use crate::bits::{bit_is_set, check_bit};
use crate::bus::PRG_WINDOW;

verus! {

/// Size of the iNES header in bytes.
pub const HEADER_SIZE: usize = 16;

/// Size of the optional trainer in bytes.
pub const TRAINER_SIZE: usize = 512;

/// Size of one program ROM bank in bytes.
pub const PRG_BANK_SIZE: usize = 0x4000;

/// Size of one character ROM bank in bytes.
pub const CHR_BANK_SIZE: usize = 0x2000;

/// Why an image was refused.
#[derive(Clone, Copy, Debug, PartialEq, Eq, Structural)]
pub enum LoadError {
    /// The image does not start with the bytes `N`, `E`, `S`, `1A`.
    BadMagic,
    /// The header names a mapper other than 0; the payload is its id.
    UnsupportedMapper(u8),
    /// The image is shorter than its header declares.
    TruncatedROM,
}

/// How the cartridge wires the picture unit's name tables.
#[derive(Clone, Copy, Debug, PartialEq, Eq, Structural)]
pub enum Mirroring {
    Horizontal,
    Vertical,
    FourScreen,
}

/// The television system the cartridge was made for.
#[derive(Clone, Copy, Debug, PartialEq, Eq, Structural)]
pub enum Region {
    Ntsc,
    Pal,
}

/// What the header records about the cartridge.
#[derive(Clone, Copy, Debug, PartialEq, Eq, Structural)]
pub struct RomInfo {
    /// Number of 16 KiB program ROM banks.
    pub prg_banks: u8,
    /// Number of 8 KiB character ROM banks; 0 means character RAM.
    pub chr_banks: u8,
    /// Mapper id.
    pub mapper: u8,
    pub mirroring: Mirroring,
    /// Battery-backed program RAM is present.
    pub battery: bool,
    /// A trainer precedes the program ROM.
    pub trainer: bool,
    pub region: Region,
}

/// The image starts with the iNES signature.
pub open spec fn has_magic(image: Seq<u8>) -> bool {
    &&& image.len() >= 4
    &&& image[0] == 0x4E
    &&& image[1] == 0x45
    &&& image[2] == 0x53
    &&& image[3] == 0x1A
}

/// The mapper id: high nibble from header byte 7, low nibble from the high
/// nibble of header byte 6.
pub open spec fn mapper_id(byte6: u8, byte7: u8) -> u8 {
    (byte7 & 0xF0) | (byte6 >> 4)
}

/// The name-table wiring that header byte 6 selects.
pub open spec fn mirroring_of(byte6: u8) -> Mirroring {
    if bit_is_set(byte6, 3) {
        Mirroring::FourScreen
    } else if bit_is_set(byte6, 0) {
        Mirroring::Vertical
    } else {
        Mirroring::Horizontal
    }
}

/// What a header of at least 16 bytes records.
pub open spec fn header_info(image: Seq<u8>) -> RomInfo {
    RomInfo {
        prg_banks: image[4],
        chr_banks: image[5],
        mapper: mapper_id(image[6], image[7]),
        mirroring: mirroring_of(image[6]),
        battery: bit_is_set(image[6], 1),
        trainer: bit_is_set(image[6], 2),
        region: if bit_is_set(image[9], 0) {
            Region::Pal
        } else {
            Region::Ntsc
        },
    }
}

/// Offset of the first program ROM byte in an image with this header.
pub open spec fn prg_offset(info: RomInfo) -> int {
    HEADER_SIZE + if info.trainer {
        TRAINER_SIZE as int
    } else {
        0
    }
}

/// Number of program ROM bytes the header declares.
pub open spec fn prg_len(info: RomInfo) -> int {
    info.prg_banks * PRG_BANK_SIZE
}

/// Number of character ROM bytes the header declares.
pub open spec fn chr_len(info: RomInfo) -> int {
    info.chr_banks * CHR_BANK_SIZE
}

/// Length of the whole image that the header declares.
pub open spec fn declared_len(info: RomInfo) -> int {
    prg_offset(info) + prg_len(info) + chr_len(info)
}

/// A parsed cartridge as mathematical values.
pub struct CartridgeModel {
    pub info: RomInfo,
    pub prg: Seq<u8>,
    pub chr: Seq<u8>,
}

/// The verdict on an image: the first of these that applies.
///
/// 1. no signature: `BadMagic`;
/// 2. fewer than 16 bytes: `TruncatedROM`;
/// 3. a mapper other than 0: `UnsupportedMapper`;
/// 4. fewer bytes than header, trainer and banks need: `TruncatedROM`;
/// 5. otherwise the cartridge, its banks taken from behind the trainer.
pub open spec fn parse_image(image: Seq<u8>) -> Result<CartridgeModel, LoadError> {
    let info = header_info(image);
    if !has_magic(image) {
        Err(LoadError::BadMagic)
    } else if image.len() < HEADER_SIZE {
        Err(LoadError::TruncatedROM)
    } else if info.mapper != 0 {
        Err(LoadError::UnsupportedMapper(info.mapper))
    } else if image.len() < declared_len(info) {
        Err(LoadError::TruncatedROM)
    } else {
        Ok(
            CartridgeModel {
                info,
                prg: image.subrange(prg_offset(info), prg_offset(info) + prg_len(info)),
                chr: image.subrange(
                    prg_offset(info) + prg_len(info),
                    prg_offset(info) + prg_len(info) + chr_len(info),
                ),
            },
        )
    }
}

/// The 32 KiB that program ROM `prg` shows in the window at `8000`: a single
/// bank appears twice, two or more banks show their first 32 KiB, and with
/// no bank the window reads as zero.
pub open spec fn prg_window(prg: Seq<u8>) -> Seq<u8> {
    Seq::new(
        PRG_WINDOW as nat,
        |i: int|
            if prg.len() >= PRG_WINDOW {
                prg[i]
            } else if prg.len() >= PRG_BANK_SIZE {
                prg[i % PRG_BANK_SIZE as int]
            } else {
                0u8
            },
    )
}

/// A parsed cartridge.
pub struct Cartridge {
    pub(crate) info: RomInfo,
    pub(crate) prg: Vec<u8>,
    pub(crate) chr: Vec<u8>,
}

impl View for Cartridge {
    type V = CartridgeModel;

    open(crate) spec fn view(&self) -> CartridgeModel {
        CartridgeModel { info: self.info, prg: self.prg@, chr: self.chr@ }
    }
}

impl CartridgeModel {
    /// The banks have the sizes that the header declares.
    pub open spec fn wf(self) -> bool {
        &&& self.prg.len() == prg_len(self.info)
        &&& self.chr.len() == chr_len(self.info)
    }
}

/// Copies `len` bytes of `image` starting at `start`.
pub fn copy_range(image: &[u8], start: usize, len: usize) -> (out: Vec<u8>)
    requires
        start + len <= image@.len(),
    ensures
        out@ == image@.subrange(start as int, start + len),
{
    let total: usize = image.len();
    let mut out: Vec<u8> = Vec::new();
    let mut i: usize = 0;
    while i < len
        invariant
            i <= len,
            total == image@.len(),
            start + len <= total,
            out@ == image@.subrange(start as int, start + i),
        decreases len - i,
    {
        out.push(image[start + i]);
        i = i + 1;
    }
    out
}

/// Whether `image` starts with the iNES signature.
pub fn check_magic(image: &[u8]) -> (ok: bool)
    ensures
        ok == has_magic(image@),
{
    image.len() >= 4 && image[0] == 0x4E && image[1] == 0x45 && image[2] == 0x53 && image[3]
        == 0x1A
}

/// Reads the header of an image of at least 16 bytes.
pub fn read_header(image: &[u8]) -> (info: RomInfo)
    requires
        image@.len() >= HEADER_SIZE,
    ensures
        info == header_info(image@),
{
    let byte6 = image[6];
    let byte7 = image[7];
    let mirroring = if check_bit(byte6, 3) {
        Mirroring::FourScreen
    } else if check_bit(byte6, 0) {
        Mirroring::Vertical
    } else {
        Mirroring::Horizontal
    };
    let region = if check_bit(image[9], 0) {
        Region::Pal
    } else {
        Region::Ntsc
    };
    RomInfo {
        prg_banks: image[4],
        chr_banks: image[5],
        mapper: (byte7 & 0xF0) | (byte6 >> 4),
        mirroring,
        battery: check_bit(byte6, 1),
        trainer: check_bit(byte6, 2),
        region,
    }
}

impl Cartridge {
    /// The banks have the sizes that the header declares.
    pub open spec fn wf(&self) -> bool {
        self@.wf()
    }

    /// Parses an iNES image. An image is accepted exactly when it carries
    /// the signature, names mapper 0 and is at least as long as its header
    /// declares; bytes past the declared length are ignored.
    pub fn parse(image: &[u8]) -> (r: Result<Cartridge, LoadError>)
        ensures
            match r {
                Ok(cart) => parse_image(image@) == Ok::<CartridgeModel, LoadError>(cart@)
                    && cart.wf(),
                Err(e) => parse_image(image@) == Err::<CartridgeModel, LoadError>(e),
            },
    {
        if !check_magic(image) {
            return Err(LoadError::BadMagic);
        }
        if image.len() < HEADER_SIZE {
            return Err(LoadError::TruncatedROM);
        }
        let info = read_header(image);
        if info.mapper != 0 {
            return Err(LoadError::UnsupportedMapper(info.mapper));
        }
        let start: usize = if info.trainer {
            HEADER_SIZE + TRAINER_SIZE
        } else {
            HEADER_SIZE
        };
        let prg_size: usize = (info.prg_banks as usize) * PRG_BANK_SIZE;
        let chr_size: usize = (info.chr_banks as usize) * CHR_BANK_SIZE;
        if image.len() < start + prg_size + chr_size {
            return Err(LoadError::TruncatedROM);
        }
        let prg = copy_range(image, start, prg_size);
        let chr = copy_range(image, start + prg_size, chr_size);
        Ok(Cartridge { info, prg, chr })
    }

    /// What the header records.
    pub fn info(&self) -> (info: RomInfo)
        ensures
            info == self@.info,
    {
        self.info
    }

    /// The program ROM, bank after bank.
    pub fn prg(&self) -> (prg: &Vec<u8>)
        ensures
            prg@ == self@.prg,
    {
        &self.prg
    }

    /// The character ROM, bank after bank.
    pub fn chr(&self) -> (chr: &Vec<u8>)
        ensures
            chr@ == self@.chr,
    {
        &self.chr
    }

    /// The 32 KiB image that the program ROM shows at `8000`–`FFFF`.
    pub fn window(&self) -> (w: Vec<u8>)
        ensures
            w@ == prg_window(self@.prg),
    {
        let n = self.prg.len();
        let mut w: Vec<u8> = Vec::new();
        let mut i: usize = 0;
        while i < PRG_WINDOW
            invariant
                i <= PRG_WINDOW,
                n == self.prg@.len(),
                w@.len() == i,
                forall|j: int| 0 <= j < i ==> w@[j] == #[trigger] prg_window(self.prg@)[j],
            decreases PRG_WINDOW - i,
        {
            let b: u8 = if n >= PRG_WINDOW {
                self.prg[i]
            } else if n >= PRG_BANK_SIZE {
                self.prg[i % PRG_BANK_SIZE]
            } else {
                0
            };
            w.push(b);
            i = i + 1;
        }
        assert(w@ =~= prg_window(self.prg@));
        w
    }
}

} // verus!
