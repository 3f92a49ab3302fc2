use triangle::spirv::{shader_module_code, ShaderCodeError, SPIRV_MAGIC};

#[test]
fn little_endian_module_is_read() {
    let bytes = [0x03u8, 0x02, 0x23, 0x07, 0x00, 0x00, 0x01, 0x00, 0x0b, 0x00, 0x08, 0x00];
    assert_eq!(shader_module_code(&bytes), Ok(vec![SPIRV_MAGIC, 0x0001_0000, 0x0008_000b]));
}

#[test]
fn big_endian_module_is_read() {
    let bytes = [0x07u8, 0x23, 0x02, 0x03, 0x00, 0x01, 0x00, 0x00, 0x00, 0x08, 0x00, 0x0b];
    assert_eq!(shader_module_code(&bytes), Ok(vec![SPIRV_MAGIC, 0x0001_0000, 0x0008_000b]));
}

#[test]
fn ragged_length_is_refused() {
    let bytes = [0x03u8, 0x02, 0x23, 0x07, 0x00];
    assert_eq!(shader_module_code(&bytes), Err(ShaderCodeError::LengthNotMultipleOfFour));
}

#[test]
fn missing_magic_is_refused() {
    assert_eq!(shader_module_code(&[0u8, 0, 0, 0]), Err(ShaderCodeError::MissingMagicNumber));
    assert_eq!(shader_module_code(&[]), Err(ShaderCodeError::MissingMagicNumber));
}

#[test]
fn words_agree_with_ash() {
    let bytes = [0x03u8, 0x02, 0x23, 0x07, 0xaa, 0xbb, 0xcc, 0xdd];
    let ours = shader_module_code(&bytes).unwrap();
    let theirs = ash::util::read_spv(&mut std::io::Cursor::new(&bytes[..])).unwrap();
    assert_eq!(ours, theirs);
    assert_eq!(ours[1], 0xddcc_bbaa);
}
