use ferrum::shader::{is_spirv, load_spv, read_shader_from_bytes, ShaderError, SPIRV_MAGIC};

#[test]
fn load_spv_decodes_little_endian_words() {
    let bytes = [0x03, 0x02, 0x23, 0x07, 0x01, 0x00, 0x00, 0x00, 0xef, 0xbe, 0xad, 0xde];
    assert!(is_spirv(&bytes));
    assert_eq!(load_spv(&bytes), Ok(vec![SPIRV_MAGIC, 1, 0xdead_beef]));
}

#[test]
fn load_spv_rejects_bad_length() {
    let bytes = [0x03, 0x02, 0x23, 0x07, 0x01];
    assert_eq!(load_spv(&bytes), Err(ShaderError::InvalidSpirv));
    assert_eq!(load_spv(&[]), Err(ShaderError::InvalidSpirv));
}

#[test]
fn load_spv_rejects_bad_magic() {
    let bytes = [0x00, 0x02, 0x23, 0x07, 0x01, 0x00, 0x00, 0x00];
    assert_eq!(load_spv(&bytes), Err(ShaderError::InvalidSpirv));
}

#[test]
fn load_spv_rejects_big_endian_blob() {
    let bytes = [0x07, 0x23, 0x02, 0x03, 0x00, 0x00, 0x00, 0x01];
    assert!(!is_spirv(&bytes));
    assert_eq!(load_spv(&bytes), Err(ShaderError::InvalidSpirv));
}

#[test]
fn read_shader_from_bytes_takes_either_byte_order() {
    let big = [0x07, 0x23, 0x02, 0x03, 0x00, 0x00, 0x00, 0x01];
    assert_eq!(read_shader_from_bytes(&big), Ok(vec![SPIRV_MAGIC, 1]));
    let little = [0x03, 0x02, 0x23, 0x07, 0x01, 0x00, 0x00, 0x00];
    assert_eq!(read_shader_from_bytes(&little), Ok(vec![SPIRV_MAGIC, 1]));
    assert_eq!(read_shader_from_bytes(&[1, 2, 3, 4]), Err(ShaderError::InvalidSpirv));
}
