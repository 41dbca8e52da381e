//! Mesh descriptions: the device-independent part of the primitive helpers.
//!
//! Each mesh here is described by integral data — index lists, corner sign
//! patterns, attribute descriptors and strides. The caller scales the sign
//! patterns by its half-widths, uploads the resulting vertex data, and draws
//! with the index list.
use crate::vertex::VertexAttributeDesc;
use crate::vertex::VertexFormat;
use vstd::prelude::*;

verus! {

/// Which corner of a box a vertex sits at: `true` picks the positive
/// half-width on that axis.
#[derive(Clone, Copy, PartialEq, Eq, Structural, Debug)]
pub struct CornerSigns {
    pub x: bool,
    pub y: bool,
    pub z: bool,
}

/// Which corner of a quad a vertex sits at.
#[derive(Clone, Copy, PartialEq, Eq, Structural, Debug)]
pub struct CornerSigns2 {
    pub x: bool,
    pub y: bool,
}

/// The triangle-list indices of a box: two triangles for each of the six
/// faces, over the 24 vertices of a position-plus-texture layout.
pub open spec fn spec_box_indices() -> Seq<u8> {
    seq![
        0u8, 1, 2, 2, 1, 3,
        4, 5, 6, 6, 5, 7,
        8, 9, 10, 10, 9, 11,
        12, 13, 14, 14, 13, 15,
        16, 17, 18, 18, 17, 19,
        20, 21, 22, 22, 21, 23,
    ]
}

/// The eight corners of a box, in the order the vertex buffer lays them out.
pub open spec fn spec_box_corners() -> Seq<CornerSigns> {
    seq![
        CornerSigns { x: false, y: false, z: false },
        CornerSigns { x: false, y: true, z: false },
        CornerSigns { x: true, y: false, z: false },
        CornerSigns { x: true, y: true, z: false },
        CornerSigns { x: false, y: false, z: true },
        CornerSigns { x: true, y: false, z: true },
        CornerSigns { x: false, y: true, z: true },
        CornerSigns { x: true, y: true, z: true },
    ]
}

/// The eight texture-coordinate corners appended when the box carries
/// texture coordinates.
pub open spec fn spec_box_tex_corners() -> Seq<CornerSigns> {
    seq![
        CornerSigns { x: false, y: false, z: false },
        CornerSigns { x: true, y: false, z: false },
        CornerSigns { x: false, y: true, z: false },
        CornerSigns { x: true, y: true, z: false },
        CornerSigns { x: false, y: false, z: true },
        CornerSigns { x: true, y: false, z: true },
        CornerSigns { x: false, y: true, z: true },
        CornerSigns { x: true, y: true, z: true },
    ]
}

/// Description of an axis-aligned box mesh: the caller scales each corner
/// sign by its half-widths to obtain the vertex positions.
pub struct AABB {
    /// Triangle-list index buffer contents.
    pub indices: Vec<u8>,
    /// Corner signs of the vertices, positions first, then texture
    /// coordinates if present.
    pub corners: Vec<CornerSigns>,
    /// Attribute descriptors of the vertex buffer.
    pub attribs: Vec<VertexAttributeDesc>,
    /// Byte stride of one vertex.
    pub stride: u32,
    /// Whether the mesh carries texture coordinates.
    pub with_tex: bool,
}

impl AABB {
    /// The box mesh with unit half-widths: 36 indices forming 12 triangles,
    /// the 8 corners (plus 8 texture corners when `with_tex`), one
    /// three-float attribute at location 0 (and texture coordinates at
    /// location 1, 96 bytes in, when present), 12 bytes per vertex.
    pub fn unit(with_tex: bool) -> (r: AABB)
        ensures
            r.indices@ == spec_box_indices(),
            !with_tex ==> r.corners@ == spec_box_corners(),
            with_tex ==> r.corners@ == spec_box_corners() + spec_box_tex_corners(),
            r.attribs@.len() == (if with_tex {
                2int
            } else {
                1int
            }),
            r.attribs@[0] == (VertexAttributeDesc {
                location: 0,
                binding: 0,
                format: VertexFormat::Xyz32Float,
                offset: 0,
            }),
            with_tex ==> r.attribs@[1] == (VertexAttributeDesc {
                location: 1,
                binding: 0,
                format: VertexFormat::Xyz32Float,
                offset: 96,
            }),
            r.stride == 12,
            r.with_tex == with_tex,
    {
        let indices: Vec<u8> = vec![
            0u8, 1, 2, 2, 1, 3,
            4, 5, 6, 6, 5, 7,
            8, 9, 10, 10, 9, 11,
            12, 13, 14, 14, 13, 15,
            16, 17, 18, 18, 17, 19,
            20, 21, 22, 22, 21, 23,
        ];
        proof {
            assert(indices@ =~= spec_box_indices());
        }
        let mut corners: Vec<CornerSigns> = vec![
            CornerSigns { x: false, y: false, z: false },
            CornerSigns { x: false, y: true, z: false },
            CornerSigns { x: true, y: false, z: false },
            CornerSigns { x: true, y: true, z: false },
            CornerSigns { x: false, y: false, z: true },
            CornerSigns { x: true, y: false, z: true },
            CornerSigns { x: false, y: true, z: true },
            CornerSigns { x: true, y: true, z: true },
        ];
        proof {
            assert(corners@ =~= spec_box_corners());
        }
        let mut attribs: Vec<VertexAttributeDesc> = Vec::new();
        attribs.push(
            VertexAttributeDesc {
                location: 0,
                binding: 0,
                format: VertexFormat::Xyz32Float,
                offset: 0,
            },
        );
        if with_tex {
            let tex: Vec<CornerSigns> = vec![
                CornerSigns { x: false, y: false, z: false },
                CornerSigns { x: true, y: false, z: false },
                CornerSigns { x: false, y: true, z: false },
                CornerSigns { x: true, y: true, z: false },
                CornerSigns { x: false, y: false, z: true },
                CornerSigns { x: true, y: false, z: true },
                CornerSigns { x: false, y: true, z: true },
                CornerSigns { x: true, y: true, z: true },
            ];
            proof {
                assert(tex@ =~= spec_box_tex_corners());
            }
            let mut tex = tex;
            corners.append(&mut tex);
            attribs.push(
                VertexAttributeDesc {
                    location: 1,
                    binding: 0,
                    format: VertexFormat::Xyz32Float,
                    offset: 96,
                },
            );
        }
        AABB { indices, corners, attribs, stride: 12, with_tex }
    }
}

/// The index pattern of one cube face: two triangles over its four corners.
pub open spec fn spec_cube_face_base(k: int) -> int {
    if k == 0 {
        0
    } else if k == 1 {
        1
    } else if k == 2 {
        2
    } else if k == 3 {
        0
    } else if k == 4 {
        2
    } else {
        3
    }
}

/// The triangle-list indices of a cube built from six rotated faces of four
/// vertices each: the face pattern shifted by four per face.
pub open spec fn spec_cube_indices() -> Seq<u8> {
    Seq::new(36, |i: int| (spec_cube_face_base(i % 6) + 4 * (i / 6)) as u8)
}

/// Description of a unit cube mesh with per-vertex normals: six faces of
/// four vertices each, every vertex carrying a position and a normal. The
/// caller generates the rotated face vertices; this is the index and layout
/// part.
pub struct UnitCube {
    /// Triangle-list index buffer contents.
    pub indices: Vec<u8>,
    /// Attribute descriptors: position, then normal.
    pub attribs: Vec<VertexAttributeDesc>,
    /// Byte stride of one vertex: position and normal, three floats each.
    pub stride: u32,
}

impl UnitCube {
    /// The cube's index and layout description: 36 indices (the face
    /// pattern stepped by four per face), position at location 0 and
    /// normal at location 1, 24 bytes per vertex.
    pub fn new() -> (r: UnitCube)
        ensures
            r.indices@ == spec_cube_indices(),
            r.attribs@.len() == 2,
            r.attribs@[0] == (VertexAttributeDesc {
                location: 0,
                binding: 0,
                format: VertexFormat::Xyz32Float,
                offset: 0,
            }),
            r.attribs@[1] == (VertexAttributeDesc {
                location: 1,
                binding: 0,
                format: VertexFormat::Xyz32Float,
                offset: 12,
            }),
            r.stride == 24,
    {
        let mut indices: Vec<u8> = Vec::new();
        let mut face: u8 = 0;
        while face < 6
            invariant
                face <= 6,
                indices@.len() == 6 * face,
                forall|i: int|
                    0 <= i < indices@.len() ==> indices@[i] == (spec_cube_face_base(i % 6) + 4 * (
                    i / 6)) as u8,
            decreases 6 - face,
        {
            let base = 4 * face;
            let ghost len0 = indices@.len();
            indices.push(base);
            indices.push(base + 1);
            indices.push(base + 2);
            indices.push(base);
            indices.push(base + 2);
            indices.push(base + 3);
            proof {
                assert forall|i: int|
                    0 <= i < indices@.len() implies indices@[i] == (spec_cube_face_base(i % 6) + 4
                    * (i / 6)) as u8 by {
                    if i >= len0 {
                        assert(i / 6 == face as int) by (nonlinear_arith)
                            requires
                                len0 == 6 * face,
                                len0 <= i < len0 + 6,
                        ;
                        assert(i % 6 == i - 6 * (i / 6)) by (nonlinear_arith);
                    }
                }
            }
            face = face + 1;
        }
        proof {
            assert(indices@ =~= spec_cube_indices());
        }
        let mut attribs: Vec<VertexAttributeDesc> = Vec::new();
        attribs.push(
            VertexAttributeDesc {
                location: 0,
                binding: 0,
                format: VertexFormat::Xyz32Float,
                offset: 0,
            },
        );
        attribs.push(
            VertexAttributeDesc {
                location: 1,
                binding: 0,
                format: VertexFormat::Xyz32Float,
                offset: 12,
            },
        );
        UnitCube { indices, attribs, stride: 24 }
    }
}

/// The quad's corner signs: the full-screen quad spans both axes from the
/// negative to the positive corner.
pub open spec fn spec_quad_corners() -> Seq<CornerSigns2> {
    seq![
        CornerSigns2 { x: false, y: false },
        CornerSigns2 { x: true, y: false },
        CornerSigns2 { x: true, y: true },
        CornerSigns2 { x: false, y: true },
    ]
}

/// The quad's triangle-list indices.
pub open spec fn spec_quad_indices() -> Seq<u32> {
    seq![0u32, 2, 1, 0, 3, 2]
}

/// Description of a full-screen quad mesh, XY corners spanning both axes.
pub struct Quad {
    /// Corner signs of the four vertices.
    pub corners: Vec<CornerSigns2>,
    /// Triangle-list index buffer contents.
    pub indices: Vec<u32>,
    /// Attribute descriptors of the vertex buffer.
    pub attribs: Vec<VertexAttributeDesc>,
    /// Byte stride of one vertex.
    pub stride: u32,
}

impl Quad {
    /// The full-screen quad: four corners, six indices forming two
    /// triangles, one two-float attribute at location 0, 8 bytes per vertex.
    pub fn new() -> (r: Quad)
        ensures
            r.corners@ == spec_quad_corners(),
            r.indices@ == spec_quad_indices(),
            r.attribs@.len() == 1,
            r.attribs@[0] == (VertexAttributeDesc {
                location: 0,
                binding: 0,
                format: VertexFormat::Xy32Float,
                offset: 0,
            }),
            r.stride == 8,
    {
        let corners: Vec<CornerSigns2> = vec![
            CornerSigns2 { x: false, y: false },
            CornerSigns2 { x: true, y: false },
            CornerSigns2 { x: true, y: true },
            CornerSigns2 { x: false, y: true },
        ];
        let indices: Vec<u32> = vec![0u32, 2, 1, 0, 3, 2];
        proof {
            assert(corners@ =~= spec_quad_corners());
            assert(indices@ =~= spec_quad_indices());
        }
        let mut attribs: Vec<VertexAttributeDesc> = Vec::new();
        attribs.push(
            VertexAttributeDesc {
                location: 0,
                binding: 0,
                format: VertexFormat::Xy32Float,
                offset: 0,
            },
        );
        Quad { corners, indices, attribs, stride: 8 }
    }
}

/// Description of a regular line mesh: `segments + 1` evenly spaced
/// vertices, X position only, from zero to one. Vertex `i` sits at
/// `i / segments`; the caller computes the positions.
pub struct Line {
    /// Number of line segments.
    pub segments: usize,
}

impl Line {
    /// A line mesh of `num_line_pieces` segments.
    pub fn new(num_line_pieces: usize) -> (r: Line)
        requires
            num_line_pieces < usize::MAX,
        ensures
            r.segments == num_line_pieces,
    {
        Line { segments: num_line_pieces }
    }

    /// How many vertices the mesh holds: one more than its segment count.
    pub fn vertex_count(&self) -> (r: usize)
        requires
            self.segments < usize::MAX,
        ensures
            r == self.segments + 1,
    {
        self.segments + 1
    }

    /// The single attribute of the vertex buffer: one float per vertex.
    pub fn attrib(&self) -> (r: VertexAttributeDesc)
        ensures
            r == (VertexAttributeDesc {
                location: 0,
                binding: 0,
                format: VertexFormat::X32Float,
                offset: 0,
            }),
    {
        VertexAttributeDesc { location: 0, binding: 0, format: VertexFormat::X32Float, offset: 0 }
    }

    /// Byte stride of one vertex.
    pub fn stride(&self) -> (r: u32)
        ensures
            r == 4,
    {
        4
    }
}

} // verus!
