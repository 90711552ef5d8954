//! The header of a cartridge image: its title and the kind of cartridge.

use vstd::prelude::*;
use crate::memory::{Mbc, RomOnlyMbc};
use crate::CartridgeType;

verus! {

/// Offset of the first byte of the title.
pub const TITLE_START: usize = 0x134;

/// Offset past the last byte of the title.
pub const TITLE_END: usize = 0x143;

/// Offset of the byte that names the kind of cartridge.
pub const TYPE_OFFSET: usize = 0x147;

/// Why an image cannot be run.
#[derive(Debug, Copy, Clone, PartialEq, Eq, Structural)]
pub enum LoadError {
    /// The image ends before its header does.
    TooShort,
    /// The byte at 0x147 names no kind of cartridge.
    UnknownType(u8),
    /// The bus cannot run this kind of cartridge.
    Unsupported(CartridgeType),
}

/// What the header of an image says.
#[derive(Debug, Clone)]
pub struct Header {
    /// The 15 bytes of the title, as they stand in the image.
    pub title: Vec<u8>,
    pub kind: CartridgeType,
}

/// The title that the image `rom` carries: its bytes 0x134 to 0x142.
pub open spec fn title_of(rom: Seq<u8>) -> Seq<u8> {
    rom.subrange(TITLE_START as int, TITLE_END as int)
}

/// What stands in the way of running the image `rom`, if anything: the
/// image is too short to hold a header, or its type byte names no kind of
/// cartridge, or a kind other than plain ROM.
pub open spec fn load_error(rom: Seq<u8>) -> Option<LoadError> {
    if rom.len() <= TYPE_OFFSET {
        Some(LoadError::TooShort)
    } else if !CartridgeType::known(rom[TYPE_OFFSET as int]) {
        Some(LoadError::UnknownType(rom[TYPE_OFFSET as int]))
    } else if rom[TYPE_OFFSET as int] != 0 {
        Some(LoadError::Unsupported(CartridgeType::of_code(rom[TYPE_OFFSET as int])))
    } else {
        None
    }
}

/// Reads the header of the image `rom`.
pub fn read_header(rom: &Vec<u8>) -> (r: Result<Header, LoadError>)
    ensures
        r is Err <==> rom@.len() <= TYPE_OFFSET || !CartridgeType::known(rom@[TYPE_OFFSET as int]),
        r matches Ok(header) ==> header.title@ == title_of(rom@) && header.kind
            == CartridgeType::of_code(rom@[TYPE_OFFSET as int]) && header.kind.code()
            == rom@[TYPE_OFFSET as int],
        r matches Err(e) ==> (e == LoadError::TooShort && rom@.len() <= TYPE_OFFSET) || (e
            == LoadError::UnknownType(rom@[TYPE_OFFSET as int]) && rom@.len() > TYPE_OFFSET
            && !CartridgeType::known(rom@[TYPE_OFFSET as int])),
{
    if rom.len() <= TYPE_OFFSET {
        return Err(LoadError::TooShort);
    }
    let code = rom[TYPE_OFFSET];
    if !CartridgeType::is_known(code) {
        return Err(LoadError::UnknownType(code));
    }
    let mut title: Vec<u8> = Vec::new();
    let mut at: usize = TITLE_START;
    while at < TITLE_END
        invariant
            TITLE_START <= at <= TITLE_END,
            rom@.len() > TYPE_OFFSET,
            title@ == rom@.subrange(TITLE_START as int, at as int),
        decreases TITLE_END - at,
    {
        title.push(rom[at]);
        at += 1;
    }
    Ok(Header { title, kind: CartridgeType::from(code) })
}

/// Makes the cartridge of the image `rom`, if the bus can run it: the whole
/// image becomes the ROM of a cartridge without banks.
pub fn load(rom: Vec<u8>) -> (r: Result<RomOnlyMbc, LoadError>)
    ensures
        r matches Ok(mbc) ==> load_error(rom@) is None && mbc@ == rom@,
        r matches Err(e) ==> load_error(rom@) == Some(e),
{
    match read_header(&rom) {
        Ok(header) => {
            if header.kind.supported() {
                Ok(RomOnlyMbc::new(rom))
            } else {
                proof {
                    crate::lemma_cartridge_code_is_known(
                        header.kind,
                        CartridgeType::of_code(rom@[TYPE_OFFSET as int]),
                    );
                }
                Err(LoadError::Unsupported(header.kind))
            }
        },
        Err(e) => Err(e),
    }
}

} // verus!
