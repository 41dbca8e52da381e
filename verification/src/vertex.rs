//! Vertex attribute layout deriver.
//!
//! Given the fields of a host-side vertex record in declaration order, this
//! module computes the GPU attribute descriptors: one descriptor per shader
//! location slot, with byte offsets that follow the record's natural
//! (C-style) in-memory layout, padding included.
use crate::lemma_align_up;
use crate::spec_align_up;
use vstd::prelude::*;

verus! {

/// Data format of one vertex attribute; the subset of device formats the
/// deriver emits.
#[derive(Clone, Copy, PartialEq, Eq, Structural, Debug)]
pub enum VertexFormat {
    X32Float,
    Xy32Float,
    Xyz32Float,
    Xyzw32Float,
    X64Float,
    Xy64Float,
    Xyz64Float,
    Xyzw64Float,
    Xyz8Unorm,
    Xyzw8Unorm,
}

/// One attribute descriptor: (binding, shader location, data format, byte
/// offset), telling the device how to read one slot of per-vertex data.
#[derive(Clone, Copy, PartialEq, Eq, Structural, Debug)]
pub struct VertexAttributeDesc {
    /// Shader binding location of the attribute.
    pub location: u32,
    /// Vertex buffer binding number which is the data source.
    pub binding: u32,
    /// Size and type of the vertex data.
    pub format: VertexFormat,
    /// Byte offset relative to the start of an element in the vertex binding.
    pub offset: u32,
}

/// A field type eligible for a vertex record: scalars, small float vectors
/// and points, square float matrices, and packed color values.
#[derive(Clone, Copy, PartialEq, Eq, Structural, Debug)]
pub enum VertexFieldType {
    F32,
    Vec2F32,
    Vec3F32,
    Vec4F32,
    F64,
    Vec2F64,
    Vec3F64,
    Vec4F64,
    Mat2F32,
    Mat3F32,
    Mat4F32,
    Rgb8Unorm,
    Rgba8Unorm,
    RgbF32,
    RgbaF32,
}

impl VertexFieldType {
    /// The attribute format every slot of this field uses.
    pub open spec fn spec_format(self) -> VertexFormat {
        match self {
            VertexFieldType::F32 => VertexFormat::X32Float,
            VertexFieldType::Vec2F32 => VertexFormat::Xy32Float,
            VertexFieldType::Vec3F32 => VertexFormat::Xyz32Float,
            VertexFieldType::Vec4F32 => VertexFormat::Xyzw32Float,
            VertexFieldType::F64 => VertexFormat::X64Float,
            VertexFieldType::Vec2F64 => VertexFormat::Xy64Float,
            VertexFieldType::Vec3F64 => VertexFormat::Xyz64Float,
            VertexFieldType::Vec4F64 => VertexFormat::Xyzw64Float,
            VertexFieldType::Mat2F32 => VertexFormat::Xy32Float,
            VertexFieldType::Mat3F32 => VertexFormat::Xyz32Float,
            VertexFieldType::Mat4F32 => VertexFormat::Xyzw32Float,
            VertexFieldType::Rgb8Unorm => VertexFormat::Xyz8Unorm,
            VertexFieldType::Rgba8Unorm => VertexFormat::Xyzw8Unorm,
            VertexFieldType::RgbF32 => VertexFormat::Xyz32Float,
            VertexFieldType::RgbaF32 => VertexFormat::Xyzw32Float,
        }
    }

    /// How many consecutive shader locations the field occupies: one, except
    /// for matrices, which take one per column.
    pub open spec fn spec_slots(self) -> int {
        match self {
            VertexFieldType::Mat2F32 => 2,
            VertexFieldType::Mat3F32 => 3,
            VertexFieldType::Mat4F32 => 4,
            _ => 1,
        }
    }

    /// Byte size of one slot of the field.
    pub open spec fn spec_component_size(self) -> int {
        match self {
            VertexFieldType::F32 => 4,
            VertexFieldType::Vec2F32 => 8,
            VertexFieldType::Vec3F32 => 12,
            VertexFieldType::Vec4F32 => 16,
            VertexFieldType::F64 => 8,
            VertexFieldType::Vec2F64 => 16,
            VertexFieldType::Vec3F64 => 24,
            VertexFieldType::Vec4F64 => 32,
            VertexFieldType::Mat2F32 => 8,
            VertexFieldType::Mat3F32 => 12,
            VertexFieldType::Mat4F32 => 16,
            VertexFieldType::Rgb8Unorm => 3,
            VertexFieldType::Rgba8Unorm => 4,
            VertexFieldType::RgbF32 => 12,
            VertexFieldType::RgbaF32 => 16,
        }
    }

    /// Total byte size of the field: slot count times slot size.
    pub open spec fn spec_size(self) -> int {
        self.spec_slots() * self.spec_component_size()
    }

    /// Alignment the host layout gives the field: that of its scalar.
    pub open spec fn spec_align(self) -> int {
        match self {
            VertexFieldType::F64 | VertexFieldType::Vec2F64 | VertexFieldType::Vec3F64
            | VertexFieldType::Vec4F64 => 8,
            VertexFieldType::Rgb8Unorm | VertexFieldType::Rgba8Unorm => 1,
            _ => 4,
        }
    }

    pub fn format(self) -> (r: VertexFormat)
        ensures
            r == self.spec_format(),
    {
        match self {
            VertexFieldType::F32 => VertexFormat::X32Float,
            VertexFieldType::Vec2F32 => VertexFormat::Xy32Float,
            VertexFieldType::Vec3F32 => VertexFormat::Xyz32Float,
            VertexFieldType::Vec4F32 => VertexFormat::Xyzw32Float,
            VertexFieldType::F64 => VertexFormat::X64Float,
            VertexFieldType::Vec2F64 => VertexFormat::Xy64Float,
            VertexFieldType::Vec3F64 => VertexFormat::Xyz64Float,
            VertexFieldType::Vec4F64 => VertexFormat::Xyzw64Float,
            VertexFieldType::Mat2F32 => VertexFormat::Xy32Float,
            VertexFieldType::Mat3F32 => VertexFormat::Xyz32Float,
            VertexFieldType::Mat4F32 => VertexFormat::Xyzw32Float,
            VertexFieldType::Rgb8Unorm => VertexFormat::Xyz8Unorm,
            VertexFieldType::Rgba8Unorm => VertexFormat::Xyzw8Unorm,
            VertexFieldType::RgbF32 => VertexFormat::Xyz32Float,
            VertexFieldType::RgbaF32 => VertexFormat::Xyzw32Float,
        }
    }

    pub fn slots(self) -> (r: u32)
        ensures
            r == self.spec_slots(),
    {
        match self {
            VertexFieldType::Mat2F32 => 2,
            VertexFieldType::Mat3F32 => 3,
            VertexFieldType::Mat4F32 => 4,
            _ => 1,
        }
    }

    pub fn component_size(self) -> (r: u32)
        ensures
            r == self.spec_component_size(),
    {
        match self {
            VertexFieldType::F32 => 4,
            VertexFieldType::Vec2F32 => 8,
            VertexFieldType::Vec3F32 => 12,
            VertexFieldType::Vec4F32 => 16,
            VertexFieldType::F64 => 8,
            VertexFieldType::Vec2F64 => 16,
            VertexFieldType::Vec3F64 => 24,
            VertexFieldType::Vec4F64 => 32,
            VertexFieldType::Mat2F32 => 8,
            VertexFieldType::Mat3F32 => 12,
            VertexFieldType::Mat4F32 => 16,
            VertexFieldType::Rgb8Unorm => 3,
            VertexFieldType::Rgba8Unorm => 4,
            VertexFieldType::RgbF32 => 12,
            VertexFieldType::RgbaF32 => 16,
        }
    }

    pub fn size(self) -> (r: u32)
        ensures
            r == self.spec_size(),
    {
        self.slots() * self.component_size()
    }

    pub fn align(self) -> (r: u32)
        ensures
            r == self.spec_align(),
    {
        match self {
            VertexFieldType::F64 | VertexFieldType::Vec2F64 | VertexFieldType::Vec3F64
            | VertexFieldType::Vec4F64 => 8,
            VertexFieldType::Rgb8Unorm | VertexFieldType::Rgba8Unorm => 1,
            _ => 4,
        }
    }
}

/// Byte position just past the last of the first `i` fields, under the
/// host's natural layout: each field starts at its alignment.
pub open spec fn spec_layout_cursor(fields: Seq<VertexFieldType>, i: int) -> int
    decreases i,
{
    if i <= 0 {
        0
    } else {
        spec_align_up(spec_layout_cursor(fields, i - 1), fields[i - 1].spec_align()) + fields[i
            - 1].spec_size()
    }
}

/// True byte offset of field `i` within the record.
pub open spec fn spec_field_offset(fields: Seq<VertexFieldType>, i: int) -> int {
    spec_align_up(spec_layout_cursor(fields, i), fields[i].spec_align())
}

/// Number of attribute slots the first `i` fields occupy together.
pub open spec fn spec_total_slots(fields: Seq<VertexFieldType>, i: int) -> int
    decreases i,
{
    if i <= 0 {
        0
    } else {
        spec_total_slots(fields, i - 1) + fields[i - 1].spec_slots()
    }
}

/// The descriptors of one field: one per slot, same format, consecutive
/// locations from `loc0`, offsets advancing from the field's base offset
/// `off0` by its component size.
pub open spec fn spec_field_attribs(
    f: VertexFieldType,
    binding: u32,
    loc0: int,
    off0: int,
) -> Seq<VertexAttributeDesc> {
    Seq::new(
        f.spec_slots() as nat,
        |k: int|
            VertexAttributeDesc {
                location: (loc0 + k) as u32,
                binding,
                format: f.spec_format(),
                offset: (off0 + k * f.spec_component_size()) as u32,
            },
    )
}

/// The descriptors of the first `i` fields, field-major then slot-minor.
pub open spec fn spec_attribs(
    fields: Seq<VertexFieldType>,
    binding: u32,
    start: int,
    i: int,
) -> Seq<VertexAttributeDesc>
    decreases i,
{
    if i <= 0 {
        Seq::empty()
    } else {
        spec_attribs(fields, binding, start, i - 1) + spec_field_attribs(
            fields[i - 1],
            binding,
            start + spec_total_slots(fields, i - 1),
            spec_field_offset(fields, i - 1),
        )
    }
}

/// Every field's slot count, component size and alignment are positive.
pub proof fn lemma_field_bounds(f: VertexFieldType)
    ensures
        1 <= f.spec_slots() <= 4,
        1 <= f.spec_component_size() <= 32,
        1 <= f.spec_align() <= 8,
        1 <= f.spec_size(),
{
}

/// The layout cursor starts at zero and never goes negative.
pub proof fn lemma_cursor_nonneg(fields: Seq<VertexFieldType>, i: int)
    requires
        0 <= i <= fields.len(),
    ensures
        spec_layout_cursor(fields, i) >= 0,
    decreases i,
{
    if i > 0 {
        lemma_cursor_nonneg(fields, i - 1);
        lemma_field_bounds(fields[i - 1]);
        lemma_align_up(spec_layout_cursor(fields, i - 1), fields[i - 1].spec_align());
    }
}

/// The layout cursor never moves backwards: later fields sit at or past the
/// end of earlier ones.
pub proof fn lemma_cursor_monotone(fields: Seq<VertexFieldType>, i: int, j: int)
    requires
        0 <= i <= j <= fields.len(),
    ensures
        0 <= spec_layout_cursor(fields, i) <= spec_layout_cursor(fields, j),
    decreases j - i,
{
    lemma_cursor_nonneg(fields, i);
    if i < j {
        lemma_cursor_monotone(fields, i, j - 1);
        lemma_field_bounds(fields[j - 1]);
        lemma_align_up(spec_layout_cursor(fields, j - 1), fields[j - 1].spec_align());
    }
}

/// Slot totals grow by each field's slot count and never shrink.
pub proof fn lemma_slots_monotone(fields: Seq<VertexFieldType>, i: int, j: int)
    requires
        0 <= i <= j <= fields.len(),
    ensures
        0 <= spec_total_slots(fields, i) <= spec_total_slots(fields, j),
    decreases j,
{
    if i < j {
        lemma_slots_monotone(fields, i, j - 1);
        lemma_field_bounds(fields[j - 1]);
    } else if i > 0 {
        lemma_slots_monotone(fields, i - 1, i - 1);
        lemma_field_bounds(fields[i - 1]);
    }
}

/// The attribute list of the first `i` fields has exactly one descriptor per
/// slot: its length is the slot total.
pub proof fn lemma_attribs_len(fields: Seq<VertexFieldType>, binding: u32, start: int, i: int)
    requires
        0 <= i <= fields.len(),
    ensures
        spec_attribs(fields, binding, start, i).len() == spec_total_slots(fields, i),
    decreases i,
{
    if i > 0 {
        lemma_attribs_len(fields, binding, start, i - 1);
        lemma_field_bounds(fields[i - 1]);
    }
}

/// Slot `k` of field `i` is the descriptor at position `total_slots(i) + k`
/// of the list of the first `j` fields, for any prefix that includes it.
proof fn lemma_attribs_index_prefix(
    fields: Seq<VertexFieldType>,
    binding: u32,
    start: int,
    i: int,
    k: int,
    j: int,
)
    requires
        0 <= i < j <= fields.len(),
        0 <= k < fields[i].spec_slots(),
    ensures
        spec_attribs(fields, binding, start, j)[spec_total_slots(fields, i) + k]
            == (VertexAttributeDesc {
            location: (start + spec_total_slots(fields, i) + k) as u32,
            binding,
            format: fields[i].spec_format(),
            offset: (spec_field_offset(fields, i) + k * fields[i].spec_component_size()) as u32,
        }),
    decreases j,
{
    lemma_attribs_len(fields, binding, start, j - 1);
    lemma_slots_monotone(fields, 0, i);
    if i == j - 1 {
    } else {
        lemma_field_bounds(fields[i]);
        lemma_slots_monotone(fields, i + 1, j - 1);
        lemma_attribs_index_prefix(fields, binding, start, i, k, j - 1);
    }
}

/// Layout determinism, per slot: in the full attribute list, slot `k` of
/// field `i` stands at position `total_slots(i) + k` and reads
/// `(binding, start + position, format(Fi), true_offset(Fi) + k × component_size(Fi))`.
pub proof fn lemma_attribs_slot(
    fields: Seq<VertexFieldType>,
    binding: u32,
    start: int,
    i: int,
    k: int,
)
    requires
        0 <= i < fields.len(),
        0 <= k < fields[i].spec_slots(),
    ensures
        spec_attribs(
            fields,
            binding,
            start,
            fields.len() as int,
        )[spec_total_slots(fields, i) + k] == (VertexAttributeDesc {
            location: (start + spec_total_slots(fields, i) + k) as u32,
            binding,
            format: fields[i].spec_format(),
            offset: (spec_field_offset(fields, i) + k * fields[i].spec_component_size()) as u32,
        }),
{
    lemma_attribs_index_prefix(fields, binding, start, i, k, fields.len() as int);
}

/// Every position `q` of the attribute list is slot `k` of some field `i`,
/// with `q == total_slots(i) + k`.
proof fn lemma_slot_decompose(fields: Seq<VertexFieldType>, q: int, j: int)
    requires
        0 <= j <= fields.len(),
        0 <= q < spec_total_slots(fields, j),
    ensures
        (exists|ik: (int, int)|
            0 <= ik.0 < j && 0 <= ik.1 < fields[ik.0].spec_slots() && q == spec_total_slots(
                fields,
                ik.0,
            ) + ik.1),
    decreases j,
{
    if q < spec_total_slots(fields, j - 1) {
        lemma_slot_decompose(fields, q, j - 1);
        let ik = choose|ik: (int, int)|
            0 <= ik.0 < j - 1 && 0 <= ik.1 < fields[ik.0].spec_slots() && q == spec_total_slots(
                fields,
                ik.0,
            ) + ik.1;
        assert(0 <= ik.0 < j && 0 <= ik.1 < fields[ik.0].spec_slots() && q == spec_total_slots(
            fields,
            ik.0,
        ) + ik.1);
    } else {
        let ik = (j - 1, q - spec_total_slots(fields, j - 1));
        assert(0 <= ik.0 < j && 0 <= ik.1 < fields[ik.0].spec_slots() && q == spec_total_slots(
            fields,
            ik.0,
        ) + ik.1);
    }
}

/// Layout determinism, whole list: the derived attribute list has exactly
/// one descriptor per slot, every descriptor carries the caller's binding,
/// and the locations are `start, start + 1, ...` in field-major, slot-minor
/// order.
pub proof fn lemma_attribs_layout(fields: Seq<VertexFieldType>, binding: u32, start: u32)
    requires
        start + spec_total_slots(fields, fields.len() as int) <= u32::MAX,
    ensures
        spec_attribs(fields, binding, start as int, fields.len() as int).len()
            == spec_total_slots(fields, fields.len() as int),
        forall|q: int|
            0 <= q < spec_total_slots(fields, fields.len() as int) ==> (#[trigger] spec_attribs(
                fields,
                binding,
                start as int,
                fields.len() as int,
            )[q]).binding == binding && spec_attribs(
                fields,
                binding,
                start as int,
                fields.len() as int,
            )[q].location == start + q,
{
    let n = fields.len() as int;
    lemma_attribs_len(fields, binding, start as int, n);
    assert forall|q: int|
        0 <= q < spec_total_slots(fields, n) implies (#[trigger] spec_attribs(
        fields,
        binding,
        start as int,
        n,
    )[q]).binding == binding && spec_attribs(fields, binding, start as int, n)[q].location == start
        + q by {
        lemma_slot_decompose(fields, q, n);
        let ik = choose|ik: (int, int)|
            0 <= ik.0 < n && 0 <= ik.1 < fields[ik.0].spec_slots() && q == spec_total_slots(
                fields,
                ik.0,
            ) + ik.1;
        lemma_attribs_slot(fields, binding, start as int, ik.0, ik.1);
        lemma_slots_monotone(fields, ik.0 + 1, n);
        lemma_field_bounds(fields[ik.0]);
    }
}

/// Compute the attribute descriptors for a record with the given fields:
/// caller-supplied binding, locations counted up from `location_start`,
/// offsets from the record's natural in-memory layout.
pub fn attribs(fields: &Vec<VertexFieldType>, binding: u32, location_start: u32) -> (r: Vec<
    VertexAttributeDesc,
>)
    requires
        spec_layout_cursor(fields@, fields@.len() as int) <= u32::MAX,
        location_start + spec_total_slots(fields@, fields@.len() as int) <= u32::MAX,
    ensures
        r@ == spec_attribs(fields@, binding, location_start as int, fields@.len() as int),
{
    let n = fields.len();
    let mut r: Vec<VertexAttributeDesc> = Vec::new();
    let mut cursor: u32 = 0;
    let mut loc: u32 = location_start;
    let mut i: usize = 0;
    while i < n
        invariant
            n == fields@.len(),
            i <= n,
            spec_layout_cursor(fields@, n as int) <= u32::MAX,
            location_start + spec_total_slots(fields@, n as int) <= u32::MAX,
            cursor == spec_layout_cursor(fields@, i as int),
            loc == location_start + spec_total_slots(fields@, i as int),
            r@ == spec_attribs(fields@, binding, location_start as int, i as int),
        decreases n - i,
    {
        let f = fields[i];
        proof {
            lemma_field_bounds(f);
            lemma_cursor_monotone(fields@, i as int, i + 1);
            lemma_cursor_monotone(fields@, i + 1, n as int);
            lemma_slots_monotone(fields@, i as int, i + 1);
            lemma_slots_monotone(fields@, i + 1, n as int);
            lemma_align_up(cursor as int, f.spec_align() as int);
        }
        let off0 = crate::align_up(cursor, f.align());
        let slots = f.slots();
        let csize = f.component_size();
        let format = f.format();
        let ghost r_before = r@;
        let mut k: u32 = 0;
        while k < slots
            invariant
                k <= slots,
                slots == f.spec_slots(),
                csize == f.spec_component_size(),
                format == f.spec_format(),
                off0 + slots * csize <= u32::MAX,
                loc + slots <= u32::MAX,
                r@ == r_before + spec_field_attribs(
                    f,
                    binding,
                    loc as int,
                    off0 as int,
                ).take(k as int),
            decreases slots - k,
        {
            proof {
                lemma_field_bounds(f);
                assert((k + 1) * csize <= slots * csize) by (nonlinear_arith)
                    requires
                        k + 1 <= slots,
                        csize >= 0,
                ;
                assert(k * csize <= (k + 1) * csize) by (nonlinear_arith)
                    requires
                        k >= 0,
                        csize >= 0,
                ;
            }
            let d = VertexAttributeDesc {
                location: loc + k,
                binding,
                format,
                offset: off0 + k * csize,
            };
            r.push(d);
            proof {
                assert(r@ =~= r_before + spec_field_attribs(
                    f,
                    binding,
                    loc as int,
                    off0 as int,
                ).take(k + 1));
            }
            k = k + 1;
        }
        proof {
            assert(spec_field_attribs(f, binding, loc as int, off0 as int).take(slots as int)
                =~= spec_field_attribs(f, binding, loc as int, off0 as int));
            assert(r@ =~= spec_attribs(fields@, binding, location_start as int, i + 1));
        }
        cursor = off0 + slots * csize;
        loc = loc + slots;
        i = i + 1;
    }
    r
}

} // verus!
