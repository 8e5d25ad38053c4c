use vulkano::formats::{
    D16Unorm, Data, Format, FormatMarker, FormatTy, MAX_FORMAT_CODE, R8Uint,
};

#[test]
fn every_code_round_trips() {
    for code in 0..=MAX_FORMAT_CODE {
        let f = Format::from_num(code).expect("code in the table");
        assert_eq!(f.to_num(), code);
        assert_eq!(Format::from_num(f.to_num()), Some(f));
    }
}

#[test]
fn known_codes() {
    assert_eq!(Format::Undefined.to_num(), 0);
    assert_eq!(Format::R8Unorm.to_num(), 9);
    assert_eq!(Format::R8G8B8A8Srgb.to_num(), 43);
    assert_eq!(Format::D16Unorm.to_num(), 124);
    assert_eq!(Format::ASTC_12x12SrgbBlock.to_num(), 184);
    assert_eq!(Format::from_num(37), Some(Format::R8G8B8A8Unorm));
}

#[test]
fn unknown_codes_give_none() {
    assert_eq!(Format::from_num(MAX_FORMAT_CODE + 1), None);
    assert_eq!(Format::from_num(1000), None);
    assert_eq!(Format::from_num(1000156000), None);
    assert_eq!(Format::from_num(u32::MAX), None);
}

#[test]
fn classes_of_formats() {
    assert_eq!(Format::D16Unorm.ty(), FormatTy::Depth);
    assert_eq!(Format::R8Uint.ty(), FormatTy::Uint);
    assert_eq!(Format::R8Sint.ty(), FormatTy::Sint);
    assert_eq!(Format::R8Unorm.ty(), FormatTy::Float);
    assert_eq!(Format::R16Sfloat.ty(), FormatTy::Float);
    assert_eq!(Format::S8Uint.ty(), FormatTy::Stencil);
    assert_eq!(Format::D24Unorm_S8Uint.ty(), FormatTy::DepthStencil);
    assert_eq!(Format::BC1_RGBUnormBlock.ty(), FormatTy::Compressed);
    assert_eq!(Format::ASTC_8x8SrgbBlock.ty(), FormatTy::Compressed);
}

#[test]
fn markers_name_their_format() {
    assert_eq!(R8Uint::format(), Format::R8Uint);
    assert_eq!(D16Unorm::format(), Format::D16Unorm);
    assert_eq!(<u8 as Data>::ty(), Format::R8Uint);
}
