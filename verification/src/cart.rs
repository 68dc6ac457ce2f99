//! The cartridge: an immutable ROM image and the metadata read from its
//! header.

use vstd::prelude::*;
use vstd::utf8::{
    decode_utf8,
    encode_utf8,
    encode_utf8_decode_utf8,
    encode_utf8_valid_utf8,
    is_ascii_chars,
    is_ascii_chars_encode_utf8,
    valid_utf8,
};
use crate::fault::LoadError;
use crate::mbc::{MbcInfo, RamInfo};

verus! {

/// First byte of the title.
pub const TITLE_START: usize = 0x0134;

/// One past the last byte that can belong to the title.
pub const TITLE_END: usize = 0x0143;

/// Offset of the hardware-type code.
pub const CART_TYPE_OFFSET: usize = 0x0147;

/// Offset of the ROM-size code.
pub const ROM_SIZE_OFFSET: usize = 0x0148;

/// Offset of the RAM-size code.
pub const RAM_SIZE_OFFSET: usize = 0x0149;

/// Bytes in one ROM bank.
pub const ROM_BANK_SIZE: usize = 0x4000;

/// Bytes in one RAM bank.
pub const RAM_BANK_SIZE: usize = 0x2000;

/// The shortest image that is accepted: one bank for each of the two ROM
/// windows.
pub const MIN_IMAGE_SIZE: usize = 0x8000;

/// The hardware on a cartridge, as its header names it.
#[derive(Debug, Clone, Copy, PartialEq, Eq, Structural)]
pub enum CartType {
    RomMbc5RamBatt,
    Unsupported,
}

/// A cartridge that was accepted: its image is never changed.
#[derive(Debug)]
pub struct Cart {
    bytes: Vec<u8>,
}

/// The cartridge hardware that a type code names.
pub open spec fn cart_type_of(code: u8) -> CartType {
    if code == 0x1b {
        CartType::RomMbc5RamBatt
    } else {
        CartType::Unsupported
    }
}

/// The ROM size in bytes that a size code declares, where the code is supported.
pub open spec fn rom_size_of(code: u8) -> Option<u32> {
    if code == 0x05 {
        Some(0x10_0000)
    } else {
        None
    }
}

/// The cartridge RAM size in bytes that a size code declares, where the code
/// is supported.
pub open spec fn ram_size_of(code: u8) -> Option<u32> {
    if code == 0x00 {
        Some(0)
    } else if code == 0x02 {
        Some(0x2000)
    } else if code == 0x03 {
        Some(0x8000)
    } else {
        None
    }
}

/// The reason for which an image is refused, if it is. The checks are made
/// in this order: length, hardware type, ROM size, RAM size.
pub open spec fn load_error(image: Seq<u8>) -> Option<LoadError> {
    if image.len() < MIN_IMAGE_SIZE {
        Some(LoadError::Truncated)
    } else if cart_type_of(image[CART_TYPE_OFFSET as int]) == CartType::Unsupported {
        Some(LoadError::UnsupportedCartType { code: image[CART_TYPE_OFFSET as int] })
    } else if rom_size_of(image[ROM_SIZE_OFFSET as int]) is None {
        Some(LoadError::UnsupportedRomSize { code: image[ROM_SIZE_OFFSET as int] })
    } else if ram_size_of(image[RAM_SIZE_OFFSET as int]) is None {
        Some(LoadError::UnsupportedRamSize { code: image[RAM_SIZE_OFFSET as int] })
    } else {
        None
    }
}

/// The number of title bytes from `from` on: those before the first zero
/// byte and before the end of the title field.
pub open spec fn title_len(image: Seq<u8>, from: int) -> int
    decreases TITLE_END - from,
{
    if from >= TITLE_END || image[from] == 0 {
        0
    } else {
        1 + title_len(image, from + 1)
    }
}

/// The title: the bytes of the title field up to its first zero byte, or all
/// fifteen of them where none is zero.
pub open spec fn title_of(image: Seq<u8>) -> Seq<u8> {
    image.subrange(TITLE_START as int, TITLE_START + title_len(image, TITLE_START as int))
}

/// The title is a prefix of the title field without a zero byte, and it
/// either fills the field or is followed by a zero byte.
pub proof fn lemma_title(image: Seq<u8>)
    requires
        image.len() >= TITLE_END,
    ensures
        title_of(image).len() <= TITLE_END - TITLE_START,
        forall|i: int|
            0 <= i < title_of(image).len() ==> title_of(image)[i] == image[TITLE_START + i]
                && image[TITLE_START + i] != 0,
        title_of(image).len() < TITLE_END - TITLE_START ==> image[TITLE_START + title_of(
            image,
        ).len()] == 0,
{
    lemma_title_len(image, TITLE_START as int);
}

proof fn lemma_title_len(image: Seq<u8>, from: int)
    requires
        TITLE_START <= from <= TITLE_END,
    ensures
        0 <= title_len(image, from) <= TITLE_END - from,
        forall|i: int| from <= i < from + title_len(image, from) ==> image[i] != 0,
        from + title_len(image, from) < TITLE_END ==> image[from + title_len(image, from)] == 0,
    decreases TITLE_END - from,
{
    if from < TITLE_END && image[from] != 0 {
        lemma_title_len(image, from + 1);
    }
}

/// Whether every byte is an ASCII code.
pub open spec fn is_ascii_bytes(bytes: Seq<u8>) -> bool {
    forall|i: int| 0 <= i < bytes.len() ==> bytes[i] < 0x80
}

/// The text whose characters are the given ASCII codes.
pub open spec fn ascii_text(bytes: Seq<u8>) -> Seq<char> {
    Seq::new(bytes.len(), |i: int| bytes[i] as char)
}

/// ASCII bytes are valid UTF-8, and decode to the characters that they are
/// the codes of.
pub proof fn lemma_ascii_is_utf8(bytes: Seq<u8>)
    requires
        is_ascii_bytes(bytes),
    ensures
        valid_utf8(bytes),
        decode_utf8(bytes) == ascii_text(bytes),
{
    let chars = ascii_text(bytes);
    assert forall|i: int| 0 <= i < chars.len() implies '\0' <= #[trigger] chars[i] <= '\u{7f}'
        && chars[i] as u8 == bytes[i] by {
        let b: u8 = bytes[i];
        assert(b < 0x80);
        assert(chars[i] == b as char);
    }
    assert(is_ascii_chars(chars));
    is_ascii_chars_encode_utf8(chars);
    assert(encode_utf8(chars) =~= bytes);
    encode_utf8_valid_utf8(chars);
    encode_utf8_decode_utf8(chars);
}

/// `String::from_utf8` of the standard library: the text that the bytes
/// encode, and `None` exactly where they are not valid UTF-8.
#[verifier::external_body]
fn string_from_utf8(bytes: Vec<u8>) -> (text: Option<String>)
    ensures
        text is Some <==> valid_utf8(bytes@),
        text matches Some(s) ==> s@ == decode_utf8(bytes@),
{
    match String::from_utf8(bytes) {
        Ok(s) => Some(s),
        Err(_) => None,
    }
}

impl View for Cart {
    type V = Seq<u8>;

    closed spec fn view(&self) -> Seq<u8> {
        self.bytes@
    }
}

impl Cart {
    /// Every cartridge is an image that `load_error` accepts.
    pub open spec fn wf(&self) -> bool {
        load_error(self@) is None
    }

    /// The declared ROM size in bytes.
    pub open spec fn spec_rom_size(&self) -> u32
        recommends
            self.wf(),
    {
        rom_size_of(self@[ROM_SIZE_OFFSET as int])->Some_0
    }

    /// The declared cartridge RAM size in bytes.
    pub open spec fn spec_ram_size(&self) -> u32
        recommends
            self.wf(),
    {
        ram_size_of(self@[RAM_SIZE_OFFSET as int])->Some_0
    }

    /// What the bank controller is built from: the number of whole ROM banks
    /// that the image holds, and the cartridge RAM where there is any.
    pub open spec fn spec_mbc_info(&self) -> MbcInfo {
        MbcInfo {
            rom_banks: (self@.len() / ROM_BANK_SIZE as nat) as usize,
            ram_info: if self.spec_ram_size() == 0 {
                None
            } else {
                Some(RamInfo { size: self.spec_ram_size() })
            },
        }
    }

    /// Takes an image as a cartridge, or refuses it.
    pub fn new(bytes: Vec<u8>) -> (loaded: Result<Cart, LoadError>)
        ensures
            match load_error(bytes@) {
                None => loaded matches Ok(cart) && cart@ == bytes@ && cart.wf(),
                Some(e) => loaded == Err::<Cart, LoadError>(e),
            },
    {
        if bytes.len() < MIN_IMAGE_SIZE {
            return Err(LoadError::Truncated);
        }
        let type_code: u8 = bytes[CART_TYPE_OFFSET];
        if type_code != 0x1b {
            return Err(LoadError::UnsupportedCartType { code: type_code });
        }
        let rom_code: u8 = bytes[ROM_SIZE_OFFSET];
        if rom_code != 0x05 {
            return Err(LoadError::UnsupportedRomSize { code: rom_code });
        }
        let ram_code: u8 = bytes[RAM_SIZE_OFFSET];
        if ram_code != 0x00 && ram_code != 0x02 && ram_code != 0x03 {
            return Err(LoadError::UnsupportedRamSize { code: ram_code });
        }
        Ok(Cart { bytes })
    }

    /// The whole image.
    pub fn bytes(&self) -> (image: &[u8])
        ensures
            image@ == self@,
    {
        self.bytes.as_slice()
    }

    /// The bytes of the title, without the zero byte that ends it.
    pub fn title_bytes(&self) -> (title: Vec<u8>)
        requires
            self.wf(),
        ensures
            title@ == title_of(self@),
    {
        let mut name: Vec<u8> = Vec::new();
        let mut offset: usize = TITLE_START;
        while offset < TITLE_END
            invariant
                TITLE_START <= offset <= TITLE_END,
                self.bytes@.len() >= TITLE_END,
                name@ == self.bytes@.subrange(TITLE_START as int, offset as int),
                title_len(self.bytes@, TITLE_START as int) == (offset - TITLE_START) + title_len(
                    self.bytes@,
                    offset as int,
                ),
            ensures
                name@ == title_of(self.bytes@),
            decreases TITLE_END - offset,
        {
            let byte: u8 = self.bytes[offset];
            if byte == 0x00 {
                break ;
            }
            name.push(byte);
            offset = offset + 1;
        }
        name
    }

    /// The title as text, or `None` where its bytes are not valid UTF-8. An
    /// ASCII title is always text, each byte being the code of its character.
    pub fn name(&self) -> (name: Option<String>)
        requires
            self.wf(),
        ensures
            name is Some <==> valid_utf8(title_of(self@)),
            name matches Some(s) ==> s@ == decode_utf8(title_of(self@)),
            is_ascii_bytes(title_of(self@)) ==> (name matches Some(s) && s@ == ascii_text(
                title_of(self@),
            )),
    {
        proof {
            if is_ascii_bytes(title_of(self@)) {
                lemma_ascii_is_utf8(title_of(self@));
            }
        }
        string_from_utf8(self.title_bytes())
    }

    /// The hardware on the cartridge. A cartridge that was accepted has a
    /// supported one.
    pub fn cart_type(&self) -> (kind: CartType)
        requires
            self.wf(),
        ensures
            kind == cart_type_of(self@[CART_TYPE_OFFSET as int]),
            kind == CartType::RomMbc5RamBatt,
    {
        match self.bytes[CART_TYPE_OFFSET] {
            0x1b => CartType::RomMbc5RamBatt,
            _ => CartType::Unsupported,
        }
    }

    /// The declared ROM size in bytes.
    pub fn rom_size(&self) -> (size: u32)
        requires
            self.wf(),
        ensures
            Some(size) == rom_size_of(self@[ROM_SIZE_OFFSET as int]),
            size == self.spec_rom_size(),
            size == 1_048_576,
    {
        1024 * 1024
    }

    /// The number of 16 KiB banks in the declared ROM size.
    pub fn bank_count(&self) -> (count: u32)
        requires
            self.wf(),
        ensures
            count == self.spec_rom_size() / (ROM_BANK_SIZE as u32),
            count == 64,
    {
        self.rom_size() / (1024 * 16)
    }

    /// The declared cartridge RAM size in bytes.
    pub fn ram_size(&self) -> (size: u32)
        requires
            self.wf(),
        ensures
            Some(size) == ram_size_of(self@[RAM_SIZE_OFFSET as int]),
            size == self.spec_ram_size(),
    {
        match self.bytes[RAM_SIZE_OFFSET] {
            0x02 => 8 * 1024,
            0x03 => 32 * 1024,
            _ => 0,
        }
    }

    /// The number of 8 KiB banks in the declared cartridge RAM size.
    pub fn ram_bank_count(&self) -> (count: u32)
        requires
            self.wf(),
        ensures
            count == self.spec_ram_size() / (RAM_BANK_SIZE as u32),
    {
        self.ram_size() / (1024 * 8)
    }

    /// What the bank controller is built from.
    pub fn mbc_info(&self) -> (info: MbcInfo)
        requires
            self.wf(),
        ensures
            info == self.spec_mbc_info(),
            info.rom_banks >= 2,
            info.rom_banks * ROM_BANK_SIZE <= self@.len(),
    {
        let size: u32 = self.ram_size();
        MbcInfo {
            rom_banks: self.bytes.len() / ROM_BANK_SIZE,
            ram_info: if size == 0 {
                None
            } else {
                Some(RamInfo { size })
            },
        }
    }
}

} // verus!
