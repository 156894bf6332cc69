use game::shader::{create_stage, shader_words, ShaderStage, SPIRV_MAGIC};
use game::RenderError;

fn le_bytes(words: &[u32]) -> Vec<u8> {
    let mut v = Vec::new();
    for w in words {
        v.extend_from_slice(&w.to_le_bytes());
    }
    v
}

fn be_bytes(words: &[u32]) -> Vec<u8> {
    let mut v = Vec::new();
    for w in words {
        v.extend_from_slice(&w.to_be_bytes());
    }
    v
}

#[test]
fn little_endian_words_are_read_back() {
    let words = [SPIRV_MAGIC, 0x0001_0000, 42, 0xdead_beef];
    let bytes = le_bytes(&words);
    assert_eq!(shader_words(&bytes), Ok(words.to_vec()));
}

#[test]
fn byte_reversed_stream_is_swapped_into_place() {
    let words = [SPIRV_MAGIC, 7, 0x1234_5678];
    let bytes = be_bytes(&words);
    assert_eq!(shader_words(&bytes), Ok(words.to_vec()));
}

#[test]
fn empty_stream_is_rejected() {
    assert_eq!(shader_words(&Vec::new()), Err(RenderError::InvalidShaderCode));
}

#[test]
fn ragged_length_is_rejected() {
    let mut bytes = le_bytes(&[SPIRV_MAGIC]);
    bytes.push(0);
    assert_eq!(shader_words(&bytes), Err(RenderError::InvalidShaderCode));
}

#[test]
fn missing_magic_is_rejected() {
    let bytes = le_bytes(&[0x1111_2222, 3]);
    assert_eq!(shader_words(&bytes), Err(RenderError::InvalidShaderCode));
}

#[test]
fn stages_share_the_fixed_entry_point() {
    let vert = create_stage(ShaderStage::Vertex);
    assert_eq!(vert.stage, ShaderStage::Vertex);
    assert_eq!(vert.entry_point, "main");
    let frag = create_stage(ShaderStage::Fragment);
    assert_eq!(frag.stage, ShaderStage::Fragment);
    assert_eq!(frag.entry_point, "main");
}
