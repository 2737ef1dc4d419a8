//! Precompiled SPIR-V blobs: recognising one and decoding it into words.

use vstd::prelude::*;

verus! {

/// The first word of every SPIR-V module.
pub const SPIRV_MAGIC: u32 = 0x0723_0203;

/// Why a shader could not be made.
#[derive(Clone, Copy, Debug, PartialEq, Eq, Structural)]
pub enum ShaderError {
    /// The blob is not SPIR-V: its length is not a positive multiple of four
    /// or it does not start with the magic number.
    InvalidSpirv,
    /// The device refused the module; the payload is its result code.
    ShaderCreationFailed(i32),
}

/// The `i`-th 32-bit word of `bytes`, least significant byte first.
pub open spec fn le_word(bytes: Seq<u8>, i: int) -> u32 {
    (bytes[4 * i] as int + 0x100 * (bytes[4 * i + 1] as int) + 0x1_0000 * (bytes[4 * i + 2] as int)
        + 0x100_0000 * (bytes[4 * i + 3] as int)) as u32
}

/// The `i`-th 32-bit word of `bytes`, most significant byte first.
pub open spec fn be_word(bytes: Seq<u8>, i: int) -> u32 {
    (bytes[4 * i + 3] as int + 0x100 * (bytes[4 * i + 2] as int) + 0x1_0000 * (bytes[4 * i
        + 1] as int) + 0x100_0000 * (bytes[4 * i] as int)) as u32
}

/// All words of `bytes`, least significant byte first.
pub open spec fn le_words(bytes: Seq<u8>) -> Seq<u32> {
    Seq::new((bytes.len() / 4) as nat, |i: int| le_word(bytes, i))
}

/// All words of `bytes`, most significant byte first.
pub open spec fn be_words(bytes: Seq<u8>) -> Seq<u32> {
    Seq::new((bytes.len() / 4) as nat, |i: int| be_word(bytes, i))
}

/// A whole number of words, at least one.
pub open spec fn word_aligned(bytes: Seq<u8>) -> bool {
    bytes.len() >= 4 && bytes.len() % 4 == 0
}

/// A SPIR-V blob as shader files hold it: a whole number of words whose
/// first, read least significant byte first, is the magic number.
pub open spec fn valid_spirv(bytes: Seq<u8>) -> bool {
    word_aligned(bytes) && le_word(bytes, 0) == SPIRV_MAGIC
}

/// A blob that decodes in one of the two byte orders.
pub open spec fn decodable_spirv(bytes: Seq<u8>) -> bool {
    word_aligned(bytes) && (le_word(bytes, 0) == SPIRV_MAGIC || be_word(bytes, 0) == SPIRV_MAGIC)
}

/// The words of a decodable blob, in the byte order its magic number shows.
pub open spec fn decoded_spirv(bytes: Seq<u8>) -> Seq<u32> {
    if le_word(bytes, 0) == SPIRV_MAGIC {
        le_words(bytes)
    } else {
        be_words(bytes)
    }
}

/// `ash::util::read_spv` on a cursor over `bytes`. It fails unless the input
/// is a positive whole number of words that starts with the magic number in
/// either byte order, and otherwise returns the words in the order that makes
/// the first one the magic number.
#[verifier::external_body]
fn read_spv(bytes: &[u8]) -> (r: Option<Vec<u32>>)
    ensures
        r is Some <==> decodable_spirv(bytes@),
        r matches Some(words) ==> words@ == decoded_spirv(bytes@),
{
    let mut cursor = std::io::Cursor::new(bytes);
    ash::util::read_spv(&mut cursor).ok()
}

/// Whether `bytes` is a SPIR-V blob as shader files hold it.
pub fn is_spirv(bytes: &[u8]) -> (r: bool)
    ensures
        r == valid_spirv(bytes@),
{
    bytes.len() >= 4 && bytes.len() % 4 == 0 && bytes[0] == 0x03 && bytes[1] == 0x02 && bytes[2]
        == 0x23 && bytes[3] == 0x07
}

/// Decodes SPIR-V of either byte order.
pub fn read_shader_from_bytes(bytes: &[u8]) -> (r: Result<Vec<u32>, ShaderError>)
    ensures
        r is Ok <==> decodable_spirv(bytes@),
        r matches Ok(words) ==> words@ == decoded_spirv(bytes@),
        r matches Err(e) ==> e == ShaderError::InvalidSpirv,
{
    match read_spv(bytes) {
        Some(words) => Ok(words),
        None => Err(ShaderError::InvalidSpirv),
    }
}

/// Decodes the contents of a shader file. The blob must be a whole number of
/// words and start with the magic number, least significant byte first;
/// anything else is rejected.
pub fn load_spv(text: &[u8]) -> (r: Result<Vec<u32>, ShaderError>)
    ensures
        r is Ok <==> valid_spirv(text@),
        r matches Ok(words) ==> words@ == le_words(text@),
        r matches Err(e) ==> e == ShaderError::InvalidSpirv,
{
    if !is_spirv(text) {
        return Err(ShaderError::InvalidSpirv);
    }
    read_shader_from_bytes(text)
}

} // verus!
