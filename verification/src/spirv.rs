//! SPIR-V shader code: from the bytes of a compiled shader to the 32-bit
//! words that a shader module is created from.
use vstd::prelude::*;

verus! {

/// `std::io::Error`, the error type of `ash::util::read_spv`.
#[verifier::external_type_specification]
#[verifier::external_body]
pub struct ExIoError(std::io::Error);

/// The first word of every SPIR-V module.
pub const SPIRV_MAGIC: u32 = 0x0723_0203;

/// Word `i` of `bytes`, read with the least significant byte first.
pub open spec fn le_word(bytes: Seq<u8>, i: int) -> int {
    bytes[4 * i] + bytes[4 * i + 1] * 0x100 + bytes[4 * i + 2] * 0x1_0000 + bytes[4 * i + 3] * 0x100_0000
}

/// Word `i` of `bytes`, read with the most significant byte first.
pub open spec fn be_word(bytes: Seq<u8>, i: int) -> int {
    bytes[4 * i] * 0x100_0000 + bytes[4 * i + 1] * 0x1_0000 + bytes[4 * i + 2] * 0x100 + bytes[4 * i + 3]
}

/// `bytes` is a whole number of words, at least one, and its first word is
/// the SPIR-V magic number in one of the two byte orders.
pub open spec fn spirv_accepted(bytes: Seq<u8>) -> bool {
    &&& bytes.len() % 4 == 0
    &&& bytes.len() >= 4
    &&& (le_word(bytes, 0) == SPIRV_MAGIC || be_word(bytes, 0) == SPIRV_MAGIC)
}

/// The words of `bytes`, in the byte order in which its first word is the
/// magic number.
pub open spec fn spirv_words(bytes: Seq<u8>) -> Seq<u32> {
    if le_word(bytes, 0) == SPIRV_MAGIC {
        Seq::new(bytes.len() / 4, |i: int| le_word(bytes, i) as u32)
    } else {
        Seq::new(bytes.len() / 4, |i: int| be_word(bytes, i) as u32)
    }
}

/// `ash::util::read_spv` over a `std::io::Cursor` on `code`.  Its source
/// fails when the length is not a multiple of four; otherwise it reads the
/// words in the machine's byte order, swaps the bytes of every word when the
/// first word is the byte-swapped magic number, and fails unless the first
/// word is then the magic number.  Whatever the machine's byte order, that
/// yields the words in the byte order that makes the first word the magic
/// number, and fails exactly when no byte order does.
#[verifier::external_body]
fn read_spv(code: &[u8]) -> (res: Result<Vec<u32>, std::io::Error>)
    ensures
        res is Ok <==> spirv_accepted(code@),
        res matches Ok(words) ==> words@ == spirv_words(code@),
{
    ash::util::read_spv(&mut std::io::Cursor::new(code))
}

/// Why shader code was refused.
#[derive(Clone, Copy, Debug, PartialEq, Eq, Structural)]
pub enum ShaderCodeError {
    /// The code is not a whole number of 32-bit words.
    LengthNotMultipleOfFour,
    /// The code does not start with the SPIR-V magic number.
    MissingMagicNumber,
}

/// The words of a compiled shader, ready for a shader module: its bytes
/// read as SPIR-V words.
pub fn shader_module_code(code_bytes: &[u8]) -> (res: Result<Vec<u32>, ShaderCodeError>)
    ensures
        res matches Ok(words) ==> spirv_accepted(code_bytes@) && words@ == spirv_words(code_bytes@),
        res matches Err(e) ==> !spirv_accepted(code_bytes@) && (e == ShaderCodeError::LengthNotMultipleOfFour
            <==> code_bytes@.len() % 4 != 0),
        res is Ok <==> spirv_accepted(code_bytes@),
{
    match read_spv(code_bytes) {
        Ok(words) => Ok(words),
        Err(_) => {
            if code_bytes.len() % 4 != 0 {
                Err(ShaderCodeError::LengthNotMultipleOfFour)
            } else {
                Err(ShaderCodeError::MissingMagicNumber)
            }
        },
    }
}

/// A successfully read module starts with the magic number, and has one
/// word for every four bytes.
pub proof fn lemma_spirv_words_start_with_magic(bytes: Seq<u8>)
    requires
        spirv_accepted(bytes),
    ensures
        spirv_words(bytes).len() == bytes.len() / 4,
        spirv_words(bytes)[0] == SPIRV_MAGIC,
{
}

} // verus!
