use ren::{ComponentFormat, Format, NumericFormat};

#[test]
fn format_new_builds_every_format() {
    let all = [
        Format::R8_UNORM,
        Format::R8_SRGB,
        Format::RG8_UNORM,
        Format::RG8_SRGB,
        Format::RGB8_UNORM,
        Format::RGB8_SRGB,
        Format::RGBA8_UNORM,
        Format::RGBA8_SRGB,
        Format::R16_UNORM,
        Format::RG16_UNORM,
        Format::RGB16_UNORM,
        Format::RGBA16_UNORM,
        Format::RGB32_SFLOAT,
        Format::RGBA32_SFLOAT,
    ];
    for format in all {
        let component = ComponentFormat::from(format);
        let numeric = NumericFormat::from(format);
        assert_eq!(Format::new(component, numeric), Some(format));
    }
}

#[test]
fn format_new_rejects_pairs_without_a_format() {
    assert_eq!(Format::new(ComponentFormat::R16, NumericFormat::SRGB), None);
    assert_eq!(Format::new(ComponentFormat::RGBA16, NumericFormat::SFLOAT), None);
    assert_eq!(Format::new(ComponentFormat::RGB32, NumericFormat::UNORM), None);
    assert_eq!(Format::new(ComponentFormat::RGBA32, NumericFormat::SRGB), None);
    assert_eq!(Format::new(ComponentFormat::R8, NumericFormat::SFLOAT), None);
}

#[test]
fn format_new_names_the_format() {
    assert_eq!(Format::new(ComponentFormat::RGBA8, NumericFormat::SRGB), Some(Format::RGBA8_SRGB));
    assert_eq!(Format::new(ComponentFormat::RG16, NumericFormat::UNORM), Some(Format::RG16_UNORM));
    assert_eq!(
        Format::new(ComponentFormat::RGB32, NumericFormat::SFLOAT),
        Some(Format::RGB32_SFLOAT)
    );
}

#[test]
fn component_sizes_are_channels_times_bytes() {
    assert_eq!(ComponentFormat::R8.size(), 1);
    assert_eq!(ComponentFormat::RG8.size(), 2);
    assert_eq!(ComponentFormat::RGB8.size(), 3);
    assert_eq!(ComponentFormat::RGBA8.size(), 4);
    assert_eq!(ComponentFormat::R16.size(), 2);
    assert_eq!(ComponentFormat::RG16.size(), 4);
    assert_eq!(ComponentFormat::RGB16.size(), 6);
    assert_eq!(ComponentFormat::RGBA16.size(), 8);
    assert_eq!(ComponentFormat::RGB32.size(), 12);
    assert_eq!(ComponentFormat::RGBA32.size(), 16);
}

#[test]
fn format_size_is_the_size_of_its_components() {
    assert_eq!(Format::R8_UNORM.size(), 1);
    assert_eq!(Format::RGBA8_SRGB.size(), 4);
    assert_eq!(Format::RGB16_UNORM.size(), 6);
    assert_eq!(Format::RGB32_SFLOAT.size(), 12);
    assert_eq!(Format::RGBA32_SFLOAT.size(), 16);
}

#[test]
fn format_parts() {
    assert_eq!(ComponentFormat::from(Format::RG8_SRGB), ComponentFormat::RG8);
    assert_eq!(NumericFormat::from(Format::RG8_SRGB), NumericFormat::SRGB);
    assert_eq!(ComponentFormat::from(Format::RGBA16_UNORM), ComponentFormat::RGBA16);
    assert_eq!(NumericFormat::from(Format::RGBA16_UNORM), NumericFormat::UNORM);
    assert_eq!(NumericFormat::from(Format::RGBA32_SFLOAT), NumericFormat::SFLOAT);
}
