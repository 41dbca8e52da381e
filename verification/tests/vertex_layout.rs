use grr_util::vertex::attribs;
use grr_util::vertex::VertexAttributeDesc;
use grr_util::vertex::VertexFieldType;
use grr_util::vertex::VertexFormat;

fn desc(location: u32, binding: u32, format: VertexFormat, offset: u32) -> VertexAttributeDesc {
    VertexAttributeDesc { location, binding, format, offset }
}

#[test]
pub fn test_attribs_c1() {
    let fields = vec![VertexFieldType::Rgb8Unorm];
    let attrs = attribs(&fields, 0, 0);
    assert_eq!(attrs[0], desc(0, 0, VertexFormat::Xyz8Unorm, 0));
}

#[test]
pub fn test_attribs_m2() {
    let fields = vec![VertexFieldType::Mat2F32];
    let attrs = attribs(&fields, 0, 0);
    assert_eq!(attrs[0], desc(0, 0, VertexFormat::Xy32Float, 0));
    assert_eq!(attrs[1], desc(1, 0, VertexFormat::Xy32Float, 8));
    assert_eq!(attrs.len(), 2);
}

#[test]
pub fn test_attribs_m3() {
    let fields = vec![VertexFieldType::Mat3F32];
    let attrs = attribs(&fields, 0, 0);
    assert_eq!(attrs[0], desc(0, 0, VertexFormat::Xyz32Float, 0));
    assert_eq!(attrs[1], desc(1, 0, VertexFormat::Xyz32Float, 12));
    assert_eq!(attrs[2], desc(2, 0, VertexFormat::Xyz32Float, 24));
    assert_eq!(attrs.len(), 3);
}

#[test]
pub fn test_attribs_m4() {
    let fields = vec![VertexFieldType::Mat4F32];
    let attrs = attribs(&fields, 0, 0);
    assert_eq!(attrs[0], desc(0, 0, VertexFormat::Xyzw32Float, 0));
    assert_eq!(attrs[1], desc(1, 0, VertexFormat::Xyzw32Float, 16));
    assert_eq!(attrs[2], desc(2, 0, VertexFormat::Xyzw32Float, 32));
    assert_eq!(attrs[3], desc(3, 0, VertexFormat::Xyzw32Float, 48));
    assert_eq!(attrs.len(), 4);
}

#[test]
pub fn test_attribs_v1() {
    let fields = vec![VertexFieldType::F32, VertexFieldType::F32, VertexFieldType::F64];
    let attrs = attribs(&fields, 0, 0);
    assert_eq!(attrs[0], desc(0, 0, VertexFormat::X32Float, 0));
    assert_eq!(attrs[1], desc(1, 0, VertexFormat::X32Float, 4));
    assert_eq!(attrs[2], desc(2, 0, VertexFormat::X64Float, 8));
}

#[test]
pub fn test_attribs_vvf32() {
    let fields = vec![
        VertexFieldType::Vec2F32,
        VertexFieldType::Vec3F32,
        VertexFieldType::Vec4F32,
        VertexFieldType::Vec2F32,
        VertexFieldType::Vec3F32,
        VertexFieldType::Vec4F32,
    ];
    let attrs = attribs(&fields, 0, 0);
    assert_eq!(attrs[0], desc(0, 0, VertexFormat::Xy32Float, 0));
    assert_eq!(attrs[1], desc(1, 0, VertexFormat::Xyz32Float, 8));
    assert_eq!(attrs[2], desc(2, 0, VertexFormat::Xyzw32Float, 20));
    assert_eq!(attrs[3], desc(3, 0, VertexFormat::Xy32Float, 36));
    assert_eq!(attrs[4], desc(4, 0, VertexFormat::Xyz32Float, 44));
    assert_eq!(attrs[5], desc(5, 0, VertexFormat::Xyzw32Float, 56));
    assert_eq!(attrs.len(), 6);
}

#[test]
pub fn test_attribs_vvf64() {
    let fields = vec![
        VertexFieldType::Vec2F64,
        VertexFieldType::Vec3F64,
        VertexFieldType::Vec4F64,
        VertexFieldType::Vec2F64,
        VertexFieldType::Vec3F64,
        VertexFieldType::Vec4F64,
    ];
    let attrs = attribs(&fields, 0, 0);
    assert_eq!(attrs[0], desc(0, 0, VertexFormat::Xy64Float, 0));
    assert_eq!(attrs[1], desc(1, 0, VertexFormat::Xyz64Float, 16));
    assert_eq!(attrs[2], desc(2, 0, VertexFormat::Xyzw64Float, 40));
    assert_eq!(attrs[3], desc(3, 0, VertexFormat::Xy64Float, 72));
    assert_eq!(attrs[4], desc(4, 0, VertexFormat::Xyz64Float, 88));
    assert_eq!(attrs[5], desc(5, 0, VertexFormat::Xyzw64Float, 112));
    assert_eq!(attrs.len(), 6);
}

#[test]
pub fn test_attribs_vvmix() {
    let fields = vec![VertexFieldType::Vec2F64, VertexFieldType::Vec2F32];
    let attrs = attribs(&fields, 0, 0);
    assert_eq!(attrs[0], desc(0, 0, VertexFormat::Xy64Float, 0));
    assert_eq!(attrs[1], desc(1, 0, VertexFormat::Xy32Float, 16));
    assert_eq!(attrs.len(), 2);
}

#[test]
pub fn test_attribs_vvmix_align() {
    let fields = vec![VertexFieldType::Vec3F32, VertexFieldType::Vec2F64];
    let attrs = attribs(&fields, 0, 0);
    assert_eq!(attrs[0], desc(0, 0, VertexFormat::Xyz32Float, 0));
    assert_eq!(attrs[1], desc(1, 0, VertexFormat::Xy64Float, 16));
    assert_eq!(attrs.len(), 2);
}

#[test]
fn attribs_nonzero_binding_and_start() {
    let fields = vec![VertexFieldType::Mat2F32, VertexFieldType::RgbaF32];
    let attrs = attribs(&fields, 3, 7);
    assert_eq!(attrs[0], desc(7, 3, VertexFormat::Xy32Float, 0));
    assert_eq!(attrs[1], desc(8, 3, VertexFormat::Xy32Float, 8));
    assert_eq!(attrs[2], desc(9, 3, VertexFormat::Xyzw32Float, 16));
    assert_eq!(attrs.len(), 3);
}

#[test]
fn attribs_empty_record() {
    let fields: Vec<VertexFieldType> = vec![];
    let attrs = attribs(&fields, 0, 0);
    assert_eq!(attrs.len(), 0);
}

#[test]
fn attribs_color_fields() {
    let fields = vec![
        VertexFieldType::Rgb8Unorm,
        VertexFieldType::Rgba8Unorm,
        VertexFieldType::RgbF32,
    ];
    let attrs = attribs(&fields, 0, 0);
    assert_eq!(attrs[0], desc(0, 0, VertexFormat::Xyz8Unorm, 0));
    assert_eq!(attrs[1], desc(1, 0, VertexFormat::Xyzw8Unorm, 3));
    assert_eq!(attrs[2], desc(2, 0, VertexFormat::Xyz32Float, 8));
}
