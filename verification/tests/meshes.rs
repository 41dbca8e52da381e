use grr_util::mesh::AABB;
use grr_util::mesh::Line;
use grr_util::mesh::Quad;
use grr_util::mesh::UnitCube;
use grr_util::vertex::VertexFormat;

#[test]
fn unit_box_without_texture() {
    let b = AABB::unit(false);
    assert_eq!(b.indices.len(), 36);
    assert_eq!(
        b.indices,
        vec![
            0, 1, 2, 2, 1, 3, 4, 5, 6, 6, 5, 7, 8, 9, 10, 10, 9, 11, 12, 13, 14, 14, 13, 15, 16,
            17, 18, 18, 17, 19, 20, 21, 22, 22, 21, 23
        ]
    );
    assert_eq!(b.corners.len(), 8);
    assert!(!b.corners[0].x && !b.corners[0].y && !b.corners[0].z);
    assert!(b.corners[7].x && b.corners[7].y && b.corners[7].z);
    assert_eq!(b.attribs.len(), 1);
    assert_eq!(b.attribs[0].format, VertexFormat::Xyz32Float);
    assert_eq!(b.attribs[0].location, 0);
    assert_eq!(b.attribs[0].offset, 0);
    assert_eq!(b.stride, 12);
    assert!(!b.with_tex);
}

#[test]
fn unit_box_with_texture() {
    let b = AABB::unit(true);
    assert_eq!(b.corners.len(), 16);
    assert_eq!(b.attribs.len(), 2);
    assert_eq!(b.attribs[1].location, 1);
    assert_eq!(b.attribs[1].offset, 96);
    assert_eq!(b.attribs[1].format, VertexFormat::Xyz32Float);
    // texture corners walk x fastest
    assert!(b.corners[9].x && !b.corners[9].y && !b.corners[9].z);
}

#[test]
fn quad_description() {
    let q = Quad::new();
    assert_eq!(q.indices, vec![0, 2, 1, 0, 3, 2]);
    assert_eq!(q.corners.len(), 4);
    assert!(!q.corners[0].x && !q.corners[0].y);
    assert!(q.corners[2].x && q.corners[2].y);
    assert_eq!(q.attribs.len(), 1);
    assert_eq!(q.attribs[0].format, VertexFormat::Xy32Float);
    assert_eq!(q.stride, 8);
}

#[test]
fn cube_description() {
    let c = UnitCube::new();
    assert_eq!(c.indices.len(), 36);
    assert_eq!(&c.indices[0..6], &[0, 1, 2, 0, 2, 3]);
    assert_eq!(&c.indices[6..12], &[4, 5, 6, 4, 6, 7]);
    assert_eq!(&c.indices[30..36], &[20, 21, 22, 20, 22, 23]);
    assert_eq!(c.attribs.len(), 2);
    assert_eq!(c.attribs[0].offset, 0);
    assert_eq!(c.attribs[1].offset, 12);
    assert_eq!(c.stride, 24);
}

#[test]
fn line_description() {
    let l = Line::new(10);
    assert_eq!(l.segments, 10);
    assert_eq!(l.vertex_count(), 11);
    assert_eq!(l.stride(), 4);
    assert_eq!(l.attrib().format, VertexFormat::X32Float);
}
