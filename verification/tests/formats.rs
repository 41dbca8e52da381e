use grr_util::image_format::format_from_base_and_layout;
use grr_util::image_format::image_type_to_full_extent;
use grr_util::image_format::image_type_to_view_type;
use grr_util::image_format::BaseFormat;
use grr_util::image_format::Format;
use grr_util::image_format::FormatLayout;
use grr_util::image_format::ImageType;
use grr_util::image_format::ImageViewType;

#[test]
fn format_lookup_table() {
    assert_eq!(
        format_from_base_and_layout(BaseFormat::R, FormatLayout::F32),
        Some(Format::R32Sfloat)
    );
    assert_eq!(
        format_from_base_and_layout(BaseFormat::RG, FormatLayout::F32),
        Some(Format::Rg32Sfloat)
    );
    assert_eq!(
        format_from_base_and_layout(BaseFormat::RGB, FormatLayout::F32),
        Some(Format::Rgb32Sfloat)
    );
    assert_eq!(
        format_from_base_and_layout(BaseFormat::RGBA, FormatLayout::F32),
        Some(Format::Rgba32Sfloat)
    );
    assert_eq!(format_from_base_and_layout(BaseFormat::RGBA, FormatLayout::U8), None);
    assert_eq!(format_from_base_and_layout(BaseFormat::R, FormatLayout::I16), None);
}

#[test]
fn view_type_follows_layers() {
    assert_eq!(
        image_type_to_view_type(ImageType::D1 { width: 4, layers: 1 }),
        ImageViewType::D1
    );
    assert_eq!(
        image_type_to_view_type(ImageType::D1 { width: 4, layers: 3 }),
        ImageViewType::D1Array
    );
    assert_eq!(
        image_type_to_view_type(ImageType::D2 { width: 4, height: 4, layers: 1, samples: 1 }),
        ImageViewType::D2
    );
    assert_eq!(
        image_type_to_view_type(ImageType::D2 { width: 4, height: 4, layers: 6, samples: 1 }),
        ImageViewType::D2Array
    );
    assert_eq!(
        image_type_to_view_type(ImageType::D3 { width: 4, height: 4, depth: 4 }),
        ImageViewType::D3
    );
}

#[test]
fn full_extent_and_texels() {
    let t = ImageType::D3 { width: 2, height: 3, depth: 4 };
    let e = image_type_to_full_extent(t);
    assert_eq!((e.width, e.height, e.depth), (2, 3, 4));
    assert_eq!(t.num_texels(), 24);
    let t1 = ImageType::D1 { width: 7, layers: 2 };
    assert_eq!(t1.num_texels(), 7);
    assert_eq!(t1.layers(), 2);
    assert_eq!(Format::Rgb32Sfloat.num_components(), 3);
    assert_eq!(Format::R32Sfloat.base_format(), BaseFormat::R);
}
