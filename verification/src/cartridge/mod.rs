//! Cartridges: the header of an image and the mappers that serve it.

pub mod rom_only;

use vstd::prelude::*;
use vstd::utf8::{decode_utf8, valid_utf8};
use crate::bus::{Device, DeviceModel};
use crate::cartridge::rom_only::RomOnlyCartridge;
use crate::text::string_from_utf8;

verus! {

/// Where the title begins in the header.
pub const TITLE_OFFSET: usize = 0x134;

/// The greatest length of a title.
pub const TITLE_LENGTH: usize = 16;

/// Where the header names the mapper.
pub const TYPE_OFFSET: usize = 0x147;

/// The length of the header: no image is shorter.
pub const HEADER_SIZE: usize = 0x150;

/// The mappers that are emulated.
#[allow(non_camel_case_types)]
#[derive(Clone, Copy, Debug, PartialEq, Eq, Structural)]
pub enum CartridgeType {
    ROM_ONLY,
}

/// Why an image cannot be loaded.
#[derive(Clone, Copy, Debug, PartialEq, Eq, Structural)]
pub enum CartridgeError {
    /// The image is shorter than a header; with its length.
    TooSmall(usize),
    /// The title is not valid UTF-8.
    InvalidTitle,
    /// The header names a mapper that is not emulated; with its number.
    Unsupported(u8),
}

/// The mapper that a number of the header stands for.
pub open spec fn cartridge_type(ty: u8) -> Result<CartridgeType, CartridgeError> {
    if ty == 0 {
        Ok(CartridgeType::ROM_ONLY)
    } else {
        Err(CartridgeError::Unsupported(ty))
    }
}

impl CartridgeType {
    pub fn from(ty: u8) -> (r: Result<Self, CartridgeError>)
        ensures
            r == cartridge_type(ty),
    {
        if ty == 0 {
            Ok(CartridgeType::ROM_ONLY)
        } else {
            Err(CartridgeError::Unsupported(ty))
        }
    }

    /// The component that serves an image with this mapper.
    pub fn to_cartridge(&self, bytes: Vec<u8>) -> (r: Device)
        ensures
            r.wf(),
            r@ == DeviceModel::Cartridge(bytes@),
    {
        match self {
            CartridgeType::ROM_ONLY => Device::Cartridge(RomOnlyCartridge::new(bytes)),
        }
    }
}

/// The length of the title from its byte `from` on: it ends before the first
/// zero byte, or after 16 bytes.
pub open spec fn title_end(bytes: Seq<u8>, from: int) -> int
    decreases TITLE_LENGTH - from,
{
    if from >= TITLE_LENGTH || bytes[TITLE_OFFSET + from] == 0 {
        from
    } else {
        title_end(bytes, from + 1)
    }
}

/// The bytes of the title of an image.
pub open spec fn title_bytes(bytes: Seq<u8>) -> Seq<u8> {
    bytes.subrange(TITLE_OFFSET as int, TITLE_OFFSET + title_end(bytes, 0))
}

/// Reads the title of an image out of its header.
pub fn read_cartridge_name(bytes: &Vec<u8>) -> (r: Result<String, CartridgeError>)
    requires
        bytes.len() >= TITLE_OFFSET + TITLE_LENGTH,
    ensures
        match r {
            Ok(name) => valid_utf8(title_bytes(bytes@)) && name@ == decode_utf8(title_bytes(bytes@)),
            Err(e) => !valid_utf8(title_bytes(bytes@)) && e == CartridgeError::InvalidTitle,
        },
{
    let mut title: Vec<u8> = Vec::new();
    let mut i: usize = 0;
    while i < TITLE_LENGTH && bytes[TITLE_OFFSET + i] != 0
        invariant
            i <= TITLE_LENGTH,
            bytes.len() >= TITLE_OFFSET + TITLE_LENGTH,
            title_end(bytes@, 0) == title_end(bytes@, i as int),
            title@ == bytes@.subrange(TITLE_OFFSET as int, TITLE_OFFSET + i),
        decreases TITLE_LENGTH - i,
    {
        title.push(bytes[TITLE_OFFSET + i]);
        i += 1;
    }
    match string_from_utf8(title) {
        Some(name) => Ok(name),
        None => Err(CartridgeError::InvalidTitle),
    }
}

/// What loading an image gives: the error, or nothing to complain of.
pub open spec fn load_check(bytes: Seq<u8>) -> Option<CartridgeError> {
    if bytes.len() < HEADER_SIZE {
        Some(CartridgeError::TooSmall(bytes.len() as usize))
    } else if !valid_utf8(title_bytes(bytes)) {
        Some(CartridgeError::InvalidTitle)
    } else if bytes[TYPE_OFFSET as int] != 0 {
        Some(CartridgeError::Unsupported(bytes[TYPE_OFFSET as int]))
    } else {
        None
    }
}

/// Makes a cartridge of an image: checks the length, reads the title and
/// picks the mapper that the header names. The result is the title and the
/// component to attach.
pub fn load(bytes: Vec<u8>) -> (r: Result<(String, Device), CartridgeError>)
    ensures
        match r {
            Ok((name, device)) => load_check(bytes@) is None && name@ == decode_utf8(title_bytes(bytes@))
                && device@ == DeviceModel::Cartridge(bytes@) && device.wf(),
            Err(e) => load_check(bytes@) == Some(e),
        },
{
    if bytes.len() < HEADER_SIZE {
        return Err(CartridgeError::TooSmall(bytes.len()));
    }
    let name = read_cartridge_name(&bytes)?;
    let cartridge_type = CartridgeType::from(bytes[TYPE_OFFSET])?;
    Ok((name, cartridge_type.to_cartridge(bytes)))
}

} // verus!
