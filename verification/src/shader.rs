//! Shader bytecode intake and stage descriptions.
//!
//! Shaders arrive as pre-compiled SPIR-V: a byte stream that must be a
//! non-empty whole number of 32-bit words and open with the SPIR-V magic
//! number.  Words are read little-endian; a stream whose magic number
//! arrives byte-reversed is byte-swapped into place, as consumers of SPIR-V
//! conventionally do.  Both shader stages share one fixed entry-point name.

use vstd::prelude::*;

use crate::RenderError;

verus! {

/// The SPIR-V magic number, as the first word of a well-formed module.
pub const SPIRV_MAGIC: u32 = 0x0723_0203;

/// The SPIR-V magic number with its bytes reversed: the first word of a
/// module whose words were written in the opposite byte order.
pub const SPIRV_MAGIC_REVERSED: u32 = 0x0302_2307;

/// Word `i` of `b`, read little-endian.
pub open spec fn le_word_at(b: Seq<u8>, i: int) -> u32
    recommends
        0 <= i,
        4 * i + 3 < b.len(),
{
    (b[4 * i] + b[4 * i + 1] * 0x100 + b[4 * i + 2] * 0x1_0000 + b[4 * i + 3] * 0x100_0000) as u32
}

/// Word `i` of `b`, read big-endian: the byte-swap of the little-endian
/// reading.
pub open spec fn be_word_at(b: Seq<u8>, i: int) -> u32
    recommends
        0 <= i,
        4 * i + 3 < b.len(),
{
    (b[4 * i + 3] + b[4 * i + 2] * 0x100 + b[4 * i + 1] * 0x1_0000 + b[4 * i] * 0x100_0000) as u32
}

/// What shader-word intake returns for a byte stream: its words, read in the
/// byte order its magic number announces; a stream that is empty, not a
/// whole number of words, or without the magic number is rejected.
pub open spec fn spv_parse(b: Seq<u8>) -> Result<Seq<u32>, RenderError> {
    if b.len() == 0 || b.len() % 4 != 0 {
        Err(RenderError::InvalidShaderCode)
    } else if le_word_at(b, 0) == SPIRV_MAGIC {
        Ok(Seq::new(b.len() / 4, |i: int| le_word_at(b, i)))
    } else if le_word_at(b, 0) == SPIRV_MAGIC_REVERSED {
        Ok(Seq::new(b.len() / 4, |i: int| be_word_at(b, i)))
    } else {
        Err(RenderError::InvalidShaderCode)
    }
}

fn read_word_le(bytes: &Vec<u8>, i: usize) -> (r: u32)
    requires
        4 * i + 3 < bytes@.len(),
        bytes@.len() <= usize::MAX,
    ensures
        r == le_word_at(bytes@, i as int),
{
    let base = 4 * i;
    let b0 = bytes[base] as u32;
    let b1 = bytes[base + 1] as u32;
    let b2 = bytes[base + 2] as u32;
    let b3 = bytes[base + 3] as u32;
    b0 + b1 * 0x100 + b2 * 0x1_0000 + b3 * 0x100_0000
}

fn read_word_be(bytes: &Vec<u8>, i: usize) -> (r: u32)
    requires
        4 * i + 3 < bytes@.len(),
        bytes@.len() <= usize::MAX,
    ensures
        r == be_word_at(bytes@, i as int),
{
    let base = 4 * i;
    let b0 = bytes[base] as u32;
    let b1 = bytes[base + 1] as u32;
    let b2 = bytes[base + 2] as u32;
    let b3 = bytes[base + 3] as u32;
    b3 + b2 * 0x100 + b1 * 0x1_0000 + b0 * 0x100_0000
}

/// Turn a pre-compiled shader byte stream into its 32-bit words.  The
/// stream must be a non-empty whole number of words and open with the SPIR-V
/// magic number; a byte-reversed stream is byte-swapped into place.  Exactly
/// the streams violating that are rejected.
pub fn shader_words(bytes: &Vec<u8>) -> (r: Result<Vec<u32>, RenderError>)
    ensures
        r is Ok <==> spv_parse(bytes@) is Ok,
        r matches Ok(w) ==> (spv_parse(bytes@) matches Ok(s) && w@ == s),
        r matches Err(e) ==> (spv_parse(bytes@) matches Err(e2) && e == e2),
{
    let len = bytes.len();
    if len == 0 || len % 4 != 0 {
        return Err(RenderError::InvalidShaderCode);
    }
    let n = len / 4;
    let w0 = read_word_le(bytes, 0);
    if w0 == SPIRV_MAGIC {
        let mut words: Vec<u32> = Vec::new();
        let mut i: usize = 0;
        while i < n
            invariant
                n == bytes@.len() / 4,
                bytes@.len() == 4 * n,
                bytes@.len() <= usize::MAX,
                0 <= i <= n,
                words@.len() == i,
                forall|j: int| 0 <= j < i ==> words@[j] == le_word_at(bytes@, j),
            decreases n - i,
        {
            let w = read_word_le(bytes, i);
            words.push(w);
            i = i + 1;
        }
        assert(words@ =~= Seq::new(bytes@.len() / 4, |j: int| le_word_at(bytes@, j)));
        Ok(words)
    } else if w0 == SPIRV_MAGIC_REVERSED {
        let mut words: Vec<u32> = Vec::new();
        let mut i: usize = 0;
        while i < n
            invariant
                n == bytes@.len() / 4,
                bytes@.len() == 4 * n,
                bytes@.len() <= usize::MAX,
                0 <= i <= n,
                words@.len() == i,
                forall|j: int| 0 <= j < i ==> words@[j] == be_word_at(bytes@, j),
            decreases n - i,
        {
            let w = read_word_be(bytes, i);
            words.push(w);
            i = i + 1;
        }
        assert(words@ =~= Seq::new(bytes@.len() / 4, |j: int| be_word_at(bytes@, j)));
        Ok(words)
    } else {
        Err(RenderError::InvalidShaderCode)
    }
}

/// The pipeline stage a shader module is bound to.
#[derive(Clone, Copy, Debug, PartialEq, Eq, Structural)]
pub enum ShaderStage {
    Vertex,
    Fragment,
}

/// The entry-point name both shader stages share.
pub open spec fn shader_entry_point_name() -> Seq<char> {
    "main"@
}

/// One shader stage of the pipeline: the stage flag and the entry point the
/// driver invokes in the module.
#[derive(Debug)]
pub struct ShaderStageDesc {
    pub stage: ShaderStage,
    pub entry_point: String,
}

/// Build the stage description for a shader module: the given stage, under
/// the shared fixed entry-point name.
pub fn create_stage(stage: ShaderStage) -> (r: ShaderStageDesc)
    ensures
        r.stage == stage,
        r.entry_point@ == shader_entry_point_name(),
{
    ShaderStageDesc { stage, entry_point: "main".to_string() }
}

} // verus!
