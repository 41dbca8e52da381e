use grr_util::image_format::BaseFormat;
use grr_util::image_format::Format;
use grr_util::image_format::FormatLayout;
use grr_util::image_format::ImageType;
use grr_util::image_format::ImageViewType;
use grr_util::image_manager::ArrayInfo;
use grr_util::image_manager::ArrayShape;
use grr_util::image_manager::Error;
use grr_util::image_manager::ImageManager;
use grr_util::image_manager::ImageOrViewId;
use grr_util::image_manager::NativeImageOrView;
use grr_util::image_manager::plan_image_from_array;

type Mgr = ImageManager<u64, u64>;

fn d2(width: u32, height: u32) -> ImageType {
    ImageType::D2 { width, height, layers: 1, samples: 1 }
}

#[test]
fn create_image_records_native() {
    let mut m: Mgr = Mgr::new();
    let id = m.create_image::<u32>(Ok(7), d2(4, 4), Format::Rgba32Sfloat, 1).unwrap();
    assert_eq!(m.get_image_handle(id), Some(7));
    assert_eq!(m.image_info(id), Some((d2(4, 4), Format::Rgba32Sfloat, 1)));
}

#[test]
fn create_image_passes_device_error_through() {
    let mut m: Mgr = Mgr::new();
    let r = m.create_image::<u32>(Err(42), d2(4, 4), Format::Rgba32Sfloat, 1);
    assert!(matches!(r, Err(Error::Device(42))));
}

#[test]
fn plan_array_image_derives_format_and_type() {
    let info = ArrayInfo {
        shape: ArrayShape::D2 { rows: 4, cols: 8 },
        components: 3,
        scalar: FormatLayout::F32,
        contiguous: true,
    };
    let plan = plan_image_from_array::<u32>(&info).unwrap();
    assert_eq!(plan.image_type, d2(8, 4));
    assert_eq!(plan.format, Format::Rgb32Sfloat);
    assert_eq!(plan.sub_level.level, 0);
    assert_eq!(plan.sub_level.layers_start, 0);
    assert_eq!(plan.sub_level.layers_end, 1);
    assert_eq!(plan.sub_layout.base_format, BaseFormat::RGB);
    assert_eq!(plan.sub_layout.format_layout, FormatLayout::F32);
    assert_eq!(plan.sub_layout.alignment, 1);
    assert_eq!(plan.extent.width, 8);
    assert_eq!(plan.extent.height, 4);
    assert_eq!(plan.extent.depth, 1);
}

#[test]
fn plan_array_image_rejects_noncontiguous_data() {
    let info = ArrayInfo {
        shape: ArrayShape::D2 { rows: 4, cols: 8 },
        components: 3,
        scalar: FormatLayout::F32,
        contiguous: false,
    };
    assert!(matches!(plan_image_from_array::<u32>(&info), Err(Error::ImproperDataFormat)));
}

#[test]
fn plan_array_image_rejects_unsupported_layouts() {
    let a = ArrayInfo {
        shape: ArrayShape::D1 { len: 4 },
        components: 3,
        scalar: FormatLayout::U8,
        contiguous: true,
    };
    assert!(matches!(plan_image_from_array::<u32>(&a), Err(Error::ImproperDataFormat)));
    let b = ArrayInfo {
        shape: ArrayShape::D1 { len: 4 },
        components: 5,
        scalar: FormatLayout::F32,
        contiguous: true,
    };
    assert!(matches!(plan_image_from_array::<u32>(&b), Err(Error::ImproperDataFormat)));
}

#[test]
fn array_image_reads_back_matching_buffer() {
    // round trip: an image planned from a 2x3 array of 4-component texels
    // reads back into a buffer of 2*3*4 entries
    let info = ArrayInfo {
        shape: ArrayShape::D2 { rows: 2, cols: 3 },
        components: 4,
        scalar: FormatLayout::F32,
        contiguous: true,
    };
    let plan = plan_image_from_array::<u32>(&info).unwrap();
    let mut m: Mgr = Mgr::new();
    let id = m.create_image::<u32>(Ok(1), plan.image_type, plan.format, 1).unwrap();
    let buf: Vec<f32> = m.texel_buffer::<f32, u32>(id, 0.0).unwrap();
    assert_eq!(buf.len(), 2 * 3 * 4);
    assert!(buf.iter().all(|x| *x == 0.0));
}

#[test]
fn texel_buffer_missing_image() {
    let mut m: Mgr = Mgr::new();
    let id = m.create_image::<u32>(Ok(1), d2(1, 1), Format::R32Sfloat, 1).unwrap();
    m.delete_image(id);
    let r = m.texel_buffer::<f32, u32>(id, 0.0);
    assert!(matches!(r, Err(Error::MissingImageId(i)) if i == id));
}

#[test]
fn whole_image_view_spans_everything() {
    let mut m: Mgr = Mgr::new();
    let id = m.create_image::<u32>(Ok(3), d2(16, 16), Format::R32Sfloat, 5).unwrap();
    let (vt, range) = m.plan_image_view_whole::<u32>(id).unwrap();
    assert_eq!(vt, ImageViewType::D2);
    assert_eq!(range.levels_start, 0);
    assert_eq!(range.levels_end, 5);
    assert_eq!(range.layers_start, 0);
    assert_eq!(range.layers_end, 1);
    let v = m.register_image_view::<u32>(id, Ok(9)).unwrap();
    assert_eq!(m.get_image_view_handle(v), Some(9));
}

#[test]
fn view_of_missing_image_fails() {
    let mut m: Mgr = Mgr::new();
    let id = m.create_image::<u32>(Ok(3), d2(2, 2), Format::R32Sfloat, 1).unwrap();
    m.delete_image(id);
    assert!(matches!(m.plan_image_view_whole::<u32>(id), Err(Error::MissingImageId(_))));
    assert!(matches!(m.register_image_view::<u32>(id, Ok(9)), Err(Error::MissingImageId(_))));
}

#[test]
fn view_registration_passes_device_error_through() {
    let mut m: Mgr = Mgr::new();
    let id = m.create_image::<u32>(Ok(3), d2(2, 2), Format::R32Sfloat, 1).unwrap();
    let r = m.register_image_view::<u32>(id, Err(13));
    assert!(matches!(r, Err(Error::Device(13))));
}

#[test]
fn delete_image_is_idempotent() {
    let mut m: Mgr = Mgr::new();
    let id = m.create_image::<u32>(Ok(5), d2(2, 2), Format::R32Sfloat, 1).unwrap();
    assert_eq!(m.delete_image(id), Some(5));
    // the second deletion is a safe no-op, not an error
    assert_eq!(m.delete_image(id), None);
    assert_eq!(m.get_image_handle(id), None);
}

#[test]
fn delete_image_view_is_idempotent() {
    let mut m: Mgr = Mgr::new();
    let id = m.create_image::<u32>(Ok(5), d2(2, 2), Format::R32Sfloat, 1).unwrap();
    let v = m.register_image_view::<u32>(id, Ok(6)).unwrap();
    assert_eq!(m.delete_image_view(v), Some(6));
    assert_eq!(m.delete_image_view(v), None);
}

#[test]
fn clear_returns_views_then_images() {
    let mut m: Mgr = Mgr::new();
    let a = m.create_image::<u32>(Ok(1), d2(2, 2), Format::R32Sfloat, 1).unwrap();
    let b = m.create_image::<u32>(Ok(2), d2(2, 2), Format::R32Sfloat, 1).unwrap();
    let v = m.register_image_view::<u32>(a, Ok(10)).unwrap();
    let (views, images) = m.clear();
    assert_eq!(views, vec![10]);
    let mut images = images;
    images.sort();
    assert_eq!(images, vec![1, 2]);
    assert_eq!(m.get_image_handle(a), None);
    assert_eq!(m.get_image_handle(b), None);
    assert_eq!(m.get_image_view_handle(v), None);
}

#[test]
fn bind_targets_resolve_or_silently_miss() {
    let mut m: Mgr = Mgr::new();
    let id = m.create_image::<u32>(Ok(4), d2(2, 2), Format::R32Sfloat, 1).unwrap();
    let v = m.register_image_view::<u32>(id, Ok(8)).unwrap();
    assert_eq!(
        m.resolve_native(ImageOrViewId::Image(id)),
        Some(NativeImageOrView::Image(4))
    );
    assert_eq!(m.resolve_native(ImageOrViewId::View(v)), Some(NativeImageOrView::View(8)));
    m.delete_image_view(v);
    assert_eq!(m.resolve_native(ImageOrViewId::View(v)), None);
}

#[test]
fn flip_rows_reverses_row_order() {
    let mut data: Vec<u8> = vec![
        1, 2, 3, //
        4, 5, 6, //
        7, 8, 9,
    ];
    grr_util::screenshot::flip_rows_vertically(&mut data, 3, 3);
    assert_eq!(data, vec![7, 8, 9, 4, 5, 6, 1, 2, 3]);
    let mut data: Vec<u8> = vec![1, 2, 3, 4];
    grr_util::screenshot::flip_rows_vertically(&mut data, 2, 2);
    assert_eq!(data, vec![3, 4, 1, 2]);
    let mut empty: Vec<u8> = vec![];
    grr_util::screenshot::flip_rows_vertically(&mut empty, 0, 5);
    assert!(empty.is_empty());
}
