//! Manager for images and image views.
//!
//! The manager owns the bookkeeping for device images and views: it hands
//! out generational handles, records each object's type, format and mip
//! count, and decides every creation, lookup and teardown step. The device
//! calls themselves happen outside; their outcomes are passed in as plain
//! `Result` values, and the native handles they return are carried here as
//! opaque values of the type parameters `I` (image) and `W` (view).
use crate::handle::HandleTable;
use crate::handle::RawHandle;
use crate::image_format::BaseFormat;
use crate::image_format::Extent;
use crate::image_format::Format;
use crate::image_format::FormatLayout;
use crate::image_format::ImageType;
use crate::image_format::ImageViewType;
use crate::image_format::image_type_to_view_type;
use crate::image_format::format_from_base_and_layout;
use crate::image_format::spec_format_from_base_and_layout;
use crate::image_format::spec_image_type_to_view_type;
use vstd::prelude::*;

verus! {

/// Handle to an image owned by an `ImageManager`.
#[derive(Clone, Copy, PartialEq, Eq, Structural, Debug, Hash)]
pub struct ImageId {
    pub raw: RawHandle,
}

/// Handle to an image view owned by an `ImageManager`.
#[derive(Clone, Copy, PartialEq, Eq, Structural, Debug, Hash)]
pub struct ImageViewId {
    pub raw: RawHandle,
}

/// Either kind of handle the image manager owns; label operations take both.
#[derive(Clone, Copy, PartialEq, Eq, Structural, Debug)]
pub enum ImageOrViewId {
    Image(ImageId),
    View(ImageViewId),
}

impl From<ImageId> for ImageOrViewId {
    fn from(image_id: ImageId) -> (r: ImageOrViewId) {
        ImageOrViewId::Image(image_id)
    }
}

impl vstd::std_specs::convert::FromSpecImpl<ImageId> for ImageOrViewId {
    open spec fn obeys_from_spec() -> bool {
        true
    }

    open spec fn from_spec(v: ImageId) -> Self {
        ImageOrViewId::Image(v)
    }
}

impl From<ImageViewId> for ImageOrViewId {
    fn from(view_id: ImageViewId) -> (r: ImageOrViewId) {
        ImageOrViewId::View(view_id)
    }
}

impl vstd::std_specs::convert::FromSpecImpl<ImageViewId> for ImageOrViewId {
    open spec fn obeys_from_spec() -> bool {
        true
    }

    open spec fn from_spec(v: ImageViewId) -> Self {
        ImageOrViewId::View(v)
    }
}

/// Errors from `ImageManager`.
#[derive(Clone, Copy, PartialEq, Eq, Debug)]
pub enum Error<D> {
    /// The device reported a failure; carries the device's own error.
    Device(D),
    /// The handle does not resolve to a live image.
    MissingImageId(ImageId),
    /// The host data's in-memory layout cannot be uploaded.
    BadDataLayout,
    /// The host data's shape or element type maps to no supported format.
    ImproperDataFormat,
}

/// Shape of a structured host array, by dimension count, outermost first.
#[derive(Clone, Copy, PartialEq, Eq, Structural, Debug)]
pub enum ArrayShape {
    D1 { len: usize },
    D2 { rows: usize, cols: usize },
    D3 { dim0: usize, dim1: usize, dim2: usize },
}

/// What the upload path reads of a structured host array: its shape, the
/// component count and scalar layout of one element, and whether the data is
/// contiguous in memory.
#[derive(Clone, Copy, PartialEq, Eq, Structural, Debug)]
pub struct ArrayInfo {
    pub shape: ArrayShape,
    pub components: u32,
    pub scalar: FormatLayout,
    pub contiguous: bool,
}

/// Mip level and layer range one upload addresses.
#[derive(Clone, Copy, PartialEq, Eq, Structural, Debug)]
pub struct SubresourceLevel {
    pub level: u32,
    pub layers_start: u32,
    pub layers_end: u32,
}

/// Memory layout description handed to the device for uploads and reads.
#[derive(Clone, Copy, PartialEq, Eq, Structural, Debug)]
pub struct SubresourceLayout {
    pub base_format: BaseFormat,
    pub format_layout: FormatLayout,
    pub row_pitch: u32,
    pub image_height: u32,
    pub alignment: u32,
}

/// Mip level and layer ranges a view addresses.
#[derive(Clone, Copy, PartialEq, Eq, Structural, Debug)]
pub struct SubresourceRange {
    pub levels_start: u32,
    pub levels_end: u32,
    pub layers_start: u32,
    pub layers_end: u32,
}

/// Texel offset of an upload.
#[derive(Clone, Copy, PartialEq, Eq, Structural, Debug)]
pub struct Offset3 {
    pub x: i32,
    pub y: i32,
    pub z: i32,
}

/// Everything the device needs to allocate and fill an image from a
/// structured host array.
#[derive(Clone, Copy, PartialEq, Eq, Structural, Debug)]
pub struct ArrayImagePlan {
    pub image_type: ImageType,
    pub format: Format,
    pub sub_level: SubresourceLevel,
    pub sub_layout: SubresourceLayout,
    pub offset: Offset3,
    pub extent: Extent,
}

/// Bookkeeping for one live image.
pub struct ImageRecord<I> {
    pub native: I,
    pub image_type: ImageType,
    pub num_mipmap_levels: u32,
    pub format: Format,
}

/// Bookkeeping for one live image view. The source image handle is
/// provenance metadata only: the view's entry outlives the image's.
pub struct ImageViewRecord<W> {
    pub native: W,
    pub orig_handle: ImageId,
    pub image_view_type: ImageViewType,
    pub num_layers: u32,
    pub num_mipmap_levels: u32,
    pub format: Format,
}

impl ArrayShape {
    /// Number of elements the array holds.
    pub open spec fn spec_element_count(self) -> int {
        match self {
            ArrayShape::D1 { len } => len as int,
            ArrayShape::D2 { rows, cols } => rows as int * cols as int,
            ArrayShape::D3 { dim0, dim1, dim2 } => dim0 as int * dim1 as int * dim2 as int,
        }
    }

    /// Every dimension fits the device's 32-bit extents.
    pub open spec fn fits_u32(self) -> bool {
        match self {
            ArrayShape::D1 { len } => len <= u32::MAX,
            ArrayShape::D2 { rows, cols } => rows <= u32::MAX && cols <= u32::MAX,
            ArrayShape::D3 { dim0, dim1, dim2 } => dim0 <= u32::MAX && dim1 <= u32::MAX && dim2
                <= u32::MAX,
        }
    }

    /// The image dimensionality a structured array maps to: the outermost
    /// axis varies slowest, so a two-dimensional array is height × width and
    /// a three-dimensional one depth × height × width; layer and sample
    /// counts are one.
    pub open spec fn spec_image_type(self) -> ImageType {
        match self {
            ArrayShape::D1 { len } => ImageType::D1 { width: len as u32, layers: 1 },
            ArrayShape::D2 { rows, cols } => ImageType::D2 {
                width: cols as u32,
                height: rows as u32,
                layers: 1,
                samples: 1,
            },
            ArrayShape::D3 { dim0, dim1, dim2 } => ImageType::D3 {
                width: dim2 as u32,
                height: dim1 as u32,
                depth: dim0 as u32,
            },
        }
    }

    pub fn image_type(self) -> (r: ImageType)
        requires
            self.fits_u32(),
        ensures
            r == self.spec_image_type(),
    {
        match self {
            ArrayShape::D1 { len } => ImageType::D1 { width: len as u32, layers: 1 },
            ArrayShape::D2 { rows, cols } => ImageType::D2 {
                width: cols as u32,
                height: rows as u32,
                layers: 1,
                samples: 1,
            },
            ArrayShape::D3 { dim0, dim1, dim2 } => ImageType::D3 {
                width: dim2 as u32,
                height: dim1 as u32,
                depth: dim0 as u32,
            },
        }
    }

    /// For shapes within device extents, the derived image holds exactly one
    /// texel per array element.
    pub proof fn lemma_texels_match_elements(self)
        requires
            self.fits_u32(),
        ensures
            self.spec_image_type().spec_num_texels() == self.spec_element_count(),
    {
        let t = self.spec_image_type();
        match self {
            ArrayShape::D1 { len } => {
                assert(t.spec_num_texels() == len as int);
            },
            ArrayShape::D2 { rows, cols } => {
                assert(cols as int * rows as int * 1 == rows as int * cols as int)
                    by (nonlinear_arith);
            },
            ArrayShape::D3 { dim0, dim1, dim2 } => {
                assert(dim2 as int * dim1 as int * dim0 as int == dim0 as int * dim1 as int
                    * dim2 as int) by (nonlinear_arith);
            },
        }
    }
}

/// The base format holding exactly `components` components per texel, when
/// the device knows one.
pub open spec fn spec_component_base_format(components: u32) -> Option<BaseFormat> {
    if components == 1 {
        Some(BaseFormat::R)
    } else if components == 2 {
        Some(BaseFormat::RG)
    } else if components == 3 {
        Some(BaseFormat::RGB)
    } else if components == 4 {
        Some(BaseFormat::RGBA)
    } else {
        None
    }
}

pub fn component_base_format(components: u32) -> (r: Option<BaseFormat>)
    ensures
        r == spec_component_base_format(components),
{
    if components == 1 {
        Some(BaseFormat::R)
    } else if components == 2 {
        Some(BaseFormat::RG)
    } else if components == 3 {
        Some(BaseFormat::RGB)
    } else if components == 4 {
        Some(BaseFormat::RGBA)
    } else {
        None
    }
}

/// What `plan_image_from_array` decides, as a function of the array alone:
/// non-contiguous data is rejected, the element layout must map to a
/// supported format, and on success the plan carries the derived image type,
/// the looked-up format, a whole-extent level-zero upload and a packed,
/// byte-aligned memory layout.
pub open spec fn spec_plan_image_from_array<D>(info: ArrayInfo) -> Result<
    ArrayImagePlan,
    Error<D>,
> {
    if !info.contiguous {
        Err(Error::ImproperDataFormat)
    } else {
        match spec_component_base_format(info.components) {
            None => Err(Error::ImproperDataFormat),
            Some(bf) => match spec_format_from_base_and_layout(bf, info.scalar) {
                None => Err(Error::ImproperDataFormat),
                Some(format) => {
                    let t = info.shape.spec_image_type();
                    Ok(
                        ArrayImagePlan {
                            image_type: t,
                            format,
                            sub_level: SubresourceLevel { level: 0, layers_start: 0, layers_end: 1 },
                            sub_layout: SubresourceLayout {
                                base_format: bf,
                                format_layout: info.scalar,
                                row_pitch: 0,
                                image_height: 0,
                                alignment: 1,
                            },
                            offset: Offset3 { x: 0, y: 0, z: 0 },
                            extent: Extent {
                                width: t.spec_width() as u32,
                                height: t.spec_height() as u32,
                                depth: t.spec_depth() as u32,
                            },
                        },
                    )
                },
            },
        }
    }
}

/// Decide how to create an image from a structured host array: reject
/// non-contiguous data and unsupported element layouts with
/// `ImproperDataFormat`, else derive the image type from the shape and the
/// pixel format from the element layout.
pub fn plan_image_from_array<D>(info: &ArrayInfo) -> (r: Result<ArrayImagePlan, Error<D>>)
    requires
        info.shape.fits_u32(),
    ensures
        r == spec_plan_image_from_array::<D>(*info),
{
    if !info.contiguous {
        return Err(Error::ImproperDataFormat);
    }
    let bf = match component_base_format(info.components) {
        None => {
            return Err(Error::ImproperDataFormat);
        },
        Some(bf) => bf,
    };
    let format = match format_from_base_and_layout(bf, info.scalar) {
        None => {
            return Err(Error::ImproperDataFormat);
        },
        Some(f) => f,
    };
    let t = info.shape.image_type();
    Ok(
        ArrayImagePlan {
            image_type: t,
            format,
            sub_level: SubresourceLevel { level: 0, layers_start: 0, layers_end: 1 },
            sub_layout: SubresourceLayout {
                base_format: bf,
                format_layout: info.scalar,
                row_pitch: 0,
                image_height: 0,
                alignment: 1,
            },
            offset: Offset3 { x: 0, y: 0, z: 0 },
            extent: Extent { width: t.width(), height: t.height(), depth: t.depth() },
        },
    )
}

/// Image/view round trip: an image planned from a structured array holds one
/// texel per array element, so a full read-back buffer has exactly
/// `element_count × components` entries.
pub proof fn lemma_array_image_round_trip<D>(info: ArrayInfo, plan: ArrayImagePlan)
    requires
        info.shape.fits_u32(),
        spec_plan_image_from_array::<D>(info) == Ok::<ArrayImagePlan, Error<D>>(plan),
    ensures
        plan.image_type.spec_num_texels() * plan.format.spec_num_components()
            == info.shape.spec_element_count() * info.components,
{
    info.shape.lemma_texels_match_elements();
}

/// Create and bind images, with bookkeeping for image properties.
pub struct ImageManager<I, W> {
    images: HandleTable<ImageRecord<I>>,
    views: HandleTable<ImageViewRecord<W>>,
}

impl<I: Copy, W: Copy> ImageManager<I, W> {
    /// Both tables are well formed and every recorded image's full read-back
    /// size fits in memory.
    pub closed spec fn wf(self) -> bool {
        &&& self.images.wf()
        &&& self.views.wf()
        &&& forall|h: RawHandle|
            self.images.contents().dom().contains(h) ==> (#[trigger] self.images.contents()[h]).image_type.spec_num_texels()
                * self.images.contents()[h].format.spec_num_components() <= usize::MAX
    }

    /// The live images, by handle.
    pub closed spec fn image_map(self) -> Map<RawHandle, ImageRecord<I>> {
        self.images.contents()
    }

    /// The live views, by handle.
    pub closed spec fn view_map(self) -> Map<RawHandle, ImageViewRecord<W>> {
        self.views.contents()
    }

    /// `id` resolves to a live image.
    pub closed spec fn image_live(self, id: ImageId) -> bool {
        self.images.live(id.raw)
    }

    /// `id` named an image once and never will again.
    pub closed spec fn image_dead(self, id: ImageId) -> bool {
        self.images.dead(id.raw)
    }

    /// `id` resolves to a live view.
    pub closed spec fn view_live(self, id: ImageViewId) -> bool {
        self.views.live(id.raw)
    }

    /// `id` named a view once and never will again.
    pub closed spec fn view_dead(self, id: ImageViewId) -> bool {
        self.views.dead(id.raw)
    }

    /// The record behind a live image handle.
    pub closed spec fn image_at(self, id: ImageId) -> ImageRecord<I> {
        self.images.contents()[id.raw]
    }

    /// The record behind a live view handle.
    pub closed spec fn view_at(self, id: ImageViewId) -> ImageViewRecord<W> {
        self.views.contents()[id.raw]
    }

    pub fn new() -> (r: ImageManager<I, W>)
        ensures
            r.wf(),
            forall|id: ImageId| !r.image_live(id) && !r.image_dead(id),
            forall|id: ImageViewId| !r.view_live(id) && !r.view_dead(id),
    {
        ImageManager { images: HandleTable::new(), views: HandleTable::new() }
    }

    /// `b` still holds every image `a` held, unchanged, and every handle
    /// that was spent in `a` is still spent in `b`.
    pub open spec fn images_preserved(a: Self, b: Self) -> bool {
        &&& forall|id: ImageId|
            #[trigger] a.image_live(id) ==> b.image_live(id) && b.image_at(id) == a.image_at(id)
        &&& forall|id: ImageId| #[trigger] a.image_dead(id) ==> b.image_dead(id)
    }

    /// `b` still holds every view `a` held, unchanged, and every handle that
    /// was spent in `a` is still spent in `b`.
    pub open spec fn views_preserved(a: Self, b: Self) -> bool {
        &&& forall|id: ImageViewId|
            #[trigger] a.view_live(id) ==> b.view_live(id) && b.view_at(id) == a.view_at(id)
        &&& forall|id: ImageViewId| #[trigger] a.view_dead(id) ==> b.view_dead(id)
    }

    /// The view side of the manager is exactly the same in `a` and `b`.
    pub open spec fn views_unchanged(a: Self, b: Self) -> bool {
        &&& a.view_map() == b.view_map()
        &&& forall|id: ImageViewId| #[trigger] a.view_live(id) == #[trigger] b.view_live(id)
        &&& forall|id: ImageViewId| #[trigger] a.view_dead(id) == #[trigger] b.view_dead(id)
    }

    /// The image side of the manager is exactly the same in `a` and `b`.
    pub open spec fn images_unchanged(a: Self, b: Self) -> bool {
        &&& a.image_map() == b.image_map()
        &&& forall|id: ImageId| #[trigger] a.image_live(id) == #[trigger] b.image_live(id)
        &&& forall|id: ImageId| #[trigger] a.image_dead(id) == #[trigger] b.image_dead(id)
    }

    /// `w` is the native view of some live view entry.
    pub open spec fn is_live_view_native(self, w: W) -> bool {
        exists|id: ImageViewId| self.view_live(id) && self.view_at(id).native == w
    }

    /// `n` is the native image of some live image entry.
    pub open spec fn is_live_image_native(self, n: I) -> bool {
        exists|id: ImageId| self.image_live(id) && self.image_at(id).native == n
    }

    /// A live image handle is in the image map, and vice versa.
    pub proof fn lemma_image_live_iff_mapped(self, id: ImageId)
        ensures
            self.image_live(id) <==> self.image_map().dom().contains(id.raw),
    {
        self.images.lemma_live_iff_contents(id.raw);
    }

    /// A live view handle is in the view map, and vice versa.
    pub proof fn lemma_view_live_iff_mapped(self, id: ImageViewId)
        ensures
            self.view_live(id) <==> self.view_map().dom().contains(id.raw),
    {
        self.views.lemma_live_iff_contents(id.raw);
    }

    /// Create a new image with the specified storage format and type. The
    /// caller hands in the device's allocation outcome: on success the
    /// native image is recorded under a fresh handle; a device failure is
    /// passed through wrapped, and leaves no bookkeeping behind.
    pub fn create_image<D>(
        &mut self,
        outcome: Result<I, D>,
        image_type: ImageType,
        format: Format,
        num_mipmap_levels: u32,
    ) -> (r: Result<ImageId, Error<D>>)
        requires
            old(self).wf(),
            image_type.spec_num_texels() * format.spec_num_components() <= usize::MAX,
        ensures
            final(self).wf(),
            (r is Ok) == (outcome is Ok),
            outcome matches Err(d) ==> (r == Err::<ImageId, Error<D>>(Error::Device(d)) && *final(self) == *old(self)),
            outcome matches Ok(n) ==> (r matches Ok(id) && !old(self).image_live(id) && !old(self).image_dead(id) && final(self).image_live(id) && final(self).image_at(id) == (
            ImageRecord { native: n, image_type, num_mipmap_levels, format }) && final(self).image_map() == old(self).image_map().insert(
                id.raw,
                ImageRecord { native: n, image_type, num_mipmap_levels, format },
            )),
            Self::images_preserved(*old(self), *final(self)),
            Self::views_unchanged(*old(self), *final(self)),
    {
        match outcome {
            Err(d) => Err(Error::Device(d)),
            Ok(native) => {
                let rec = ImageRecord { native, image_type, num_mipmap_levels, format };
                let h = self.images.insert(rec);
                proof {
                    assert forall|h2: RawHandle|
                        self.images.contents().dom().contains(
                            h2,
                        ) implies (#[trigger] self.images.contents()[h2]).image_type.spec_num_texels()
                        * self.images.contents()[h2].format.spec_num_components()
                        <= usize::MAX by {
                        if h2 != h {
                            assert(old(self).images.contents().dom().contains(h2));
                        }
                    }
                }
                Ok(ImageId { raw: h })
            },
        }
    }

    /// Native image handle behind `image`, while it is live.
    pub fn get_image_handle(&self, image: ImageId) -> (r: Option<I>)
        requires
            self.wf(),
        ensures
            r is Some <==> self.image_live(image),
            self.image_live(image) ==> r == Some(self.image_at(image).native),
    {
        match self.images.get(image.raw) {
            Some(rec) => Some(rec.native),
            None => None,
        }
    }

    /// Native view handle behind `view`, while it is live.
    pub fn get_image_view_handle(&self, view: ImageViewId) -> (r: Option<W>)
        requires
            self.wf(),
        ensures
            r is Some <==> self.view_live(view),
            self.view_live(view) ==> r == Some(self.view_at(view).native),
    {
        match self.views.get(view.raw) {
            Some(rec) => Some(rec.native),
            None => None,
        }
    }

    /// Recorded type, format and mip count of a live image; what a full
    /// upload or read-back of it must describe to the device.
    pub fn image_info(&self, image: ImageId) -> (r: Option<(ImageType, Format, u32)>)
        requires
            self.wf(),
        ensures
            r is Some <==> self.image_live(image),
            self.image_live(image) ==> r == Some(
                (
                    self.image_at(image).image_type,
                    self.image_at(image).format,
                    self.image_at(image).num_mipmap_levels,
                ),
            ),
    {
        match self.images.get(image.raw) {
            Some(rec) => Some((rec.image_type, rec.format, rec.num_mipmap_levels)),
            None => None,
        }
    }

    /// Decide a whole-image view of `image`: fails with `MissingImageId` for
    /// a stale handle, else derives the view type from the image's layer
    /// count and a subresource range spanning all its mip levels and layers.
    pub fn plan_image_view_whole<D>(&self, image: ImageId) -> (r: Result<
        (ImageViewType, SubresourceRange),
        Error<D>,
    >)
        requires
            self.wf(),
        ensures
            !self.image_live(image) ==> r == Err::<(ImageViewType, SubresourceRange), Error<D>>(
                Error::MissingImageId(image),
            ),
            self.image_live(image) ==> (r matches Ok(p) && p.0 == spec_image_type_to_view_type(
                self.image_at(image).image_type,
            ) && p.1 == (SubresourceRange {
                levels_start: 0,
                levels_end: self.image_at(image).num_mipmap_levels,
                layers_start: 0,
                layers_end: self.image_at(image).image_type.spec_layers() as u32,
            })),
    {
        let rec = match self.images.get(image.raw) {
            Some(rec) => rec,
            None => {
                return Err(Error::MissingImageId(image));
            },
        };
        let view_type = image_type_to_view_type(rec.image_type);
        let num_layers = rec.image_type.layers();
        Ok(
            (
                view_type,
                SubresourceRange {
                    levels_start: 0,
                    levels_end: rec.num_mipmap_levels,
                    layers_start: 0,
                    layers_end: num_layers,
                },
            ),
        )
    }

    /// Record a view the device created over the whole of `image`. A stale
    /// image handle fails with `MissingImageId`; a device failure is passed
    /// through wrapped; both leave the manager untouched.
    pub fn register_image_view<D>(&mut self, image: ImageId, outcome: Result<W, D>) -> (r: Result<
        ImageViewId,
        Error<D>,
    >)
        requires
            old(self).wf(),
        ensures
            final(self).wf(),
            !old(self).image_live(image) ==> (r == Err::<ImageViewId, Error<D>>(
                Error::MissingImageId(image),
            ) && *final(self) == *old(self)),
            outcome matches Err(d) ==> (old(self).image_live(image) ==> (r == Err::<
                ImageViewId,
                Error<D>,
            >(Error::Device(d)) && *final(self) == *old(self))),
            outcome matches Ok(w) ==> (old(self).image_live(image) ==> (r matches Ok(v) && !old(self).view_live(v) && !old(self).view_dead(v) && final(self).view_live(v) && final(self).view_at(v) == (ImageViewRecord {
                native: w,
                orig_handle: image,
                image_view_type: spec_image_type_to_view_type(
                    old(self).image_at(image).image_type,
                ),
                num_layers: old(self).image_at(image).image_type.spec_layers() as u32,
                num_mipmap_levels: old(self).image_at(image).num_mipmap_levels,
                format: old(self).image_at(image).format,
            }))),
            Self::views_preserved(*old(self), *final(self)),
            Self::images_unchanged(*old(self), *final(self)),
    {
        let rec = match self.images.get(image.raw) {
            Some(rec) => rec,
            None => {
                return Err(Error::MissingImageId(image));
            },
        };
        let native = match outcome {
            Err(d) => {
                return Err(Error::Device(d));
            },
            Ok(w) => w,
        };
        let view_rec = ImageViewRecord {
            native,
            orig_handle: image,
            image_view_type: image_type_to_view_type(rec.image_type),
            num_layers: rec.image_type.layers(),
            num_mipmap_levels: rec.num_mipmap_levels,
            format: rec.format,
        };
        let h = self.views.insert(view_rec);
        Ok(ImageViewId { raw: h })
    }

    /// A zero-filled buffer sized for a full read-back of `image`: one entry
    /// per texel and component. `zero` is the caller's zero value for the
    /// element type.
    pub fn texel_buffer<T: Copy, D>(&self, image: ImageId, zero: T) -> (r: Result<
        Vec<T>,
        Error<D>,
    >)
        requires
            self.wf(),
        ensures
            !self.image_live(image) ==> r == Err::<Vec<T>, Error<D>>(Error::MissingImageId(image)),
            self.image_live(image) ==> (r matches Ok(v) && v@.len() == self.image_at(
                image,
            ).image_type.spec_num_texels() * self.image_at(image).format.spec_num_components()
                && (forall|i: int| 0 <= i < v@.len() ==> v@[i] == zero)),
    {
        let rec = match self.images.get(image.raw) {
            Some(rec) => rec,
            None => {
                return Err(Error::MissingImageId(image));
            },
        };
        proof {
            self.images.lemma_live_iff_contents(image.raw);
            assert((#[trigger] self.images.contents()[image.raw]).image_type.spec_num_texels()
                * self.images.contents()[image.raw].format.spec_num_components() <= usize::MAX);
            vstd::arithmetic::mul::lemma_mul_nonnegative(
                rec.image_type.spec_num_texels(),
                rec.format.spec_num_components(),
            );
        }
        let texels = rec.image_type.num_texels();
        let comps = rec.format.num_components() as usize;
        proof {
            assert(texels * comps == rec.image_type.spec_num_texels()
                * rec.format.spec_num_components()) by (nonlinear_arith)
                requires
                    texels == rec.image_type.spec_num_texels(),
                    comps == rec.format.spec_num_components(),
            ;
        }
        let n = texels * comps;
        let mut v: Vec<T> = Vec::new();
        let mut i: usize = 0;
        while i < n
            invariant
                i <= n,
                v@.len() == i,
                forall|j: int| 0 <= j < i ==> v@[j] == zero,
            decreases n - i,
        {
            v.push(zero);
            i = i + 1;
        }
        Ok(v)
    }

    /// Delete an existing image, handing back the native image to release.
    /// Deletion is idempotent: a stale handle is a no-op that returns
    /// nothing, not an error.
    pub fn delete_image(&mut self, image: ImageId) -> (r: Option<I>)
        requires
            old(self).wf(),
        ensures
            final(self).wf(),
            old(self).image_live(image) ==> (r == Some(old(self).image_at(image).native) && final(self).image_dead(image) && final(self).image_map() == old(self).image_map().remove(
                image.raw,
            )),
            !old(self).image_live(image) ==> (r is None && *final(self) == *old(self)),
            forall|id2: ImageId|
                id2 != image && #[trigger] old(self).image_live(id2) ==> final(self).image_live(
                    id2,
                ) && final(self).image_at(id2) == old(self).image_at(id2),
            forall|id2: ImageId| #[trigger] old(self).image_dead(id2) ==> final(self).image_dead(id2),
            Self::views_unchanged(*old(self), *final(self)),
    {
        match self.images.remove(image.raw) {
            Some(rec) => Some(rec.native),
            None => None,
        }
    }

    /// Delete an image view, handing back the native view to release.
    /// Idempotent like `delete_image`.
    pub fn delete_image_view(&mut self, view: ImageViewId) -> (r: Option<W>)
        requires
            old(self).wf(),
        ensures
            final(self).wf(),
            old(self).view_live(view) ==> (r == Some(old(self).view_at(view).native) && final(self).view_dead(view) && final(self).view_map() == old(self).view_map().remove(view.raw)),
            !old(self).view_live(view) ==> (r is None && *final(self) == *old(self)),
            forall|id2: ImageViewId|
                id2 != view && #[trigger] old(self).view_live(id2) ==> final(self).view_live(id2)
                    && final(self).view_at(id2) == old(self).view_at(id2),
            forall|id2: ImageViewId| #[trigger] old(self).view_dead(id2) ==> final(self).view_dead(id2),
            Self::images_unchanged(*old(self), *final(self)),
    {
        match self.views.remove(view.raw) {
            Some(rec) => Some(rec.native),
            None => None,
        }
    }

    /// Empty the manager, handing back the natives to release: all views
    /// first, then all images, since a view may reference image-derived
    /// native state. Every old handle of either kind goes dead.
    pub fn clear(&mut self) -> (r: (Vec<W>, Vec<I>))
        requires
            old(self).wf(),
        ensures
            final(self).wf(),
            forall|id: ImageId| !final(self).image_live(id),
            forall|id: ImageViewId| !final(self).view_live(id),
            forall|id: ImageId|
                #[trigger] old(self).image_live(id) || #[trigger] old(self).image_dead(id)
                    ==> final(self).image_dead(id),
            forall|id: ImageViewId|
                #[trigger] old(self).view_live(id) || #[trigger] old(self).view_dead(id)
                    ==> final(self).view_dead(id),
            forall|w: W| #[trigger] r.0@.contains(w) ==> old(self).is_live_view_native(w),
            forall|id: ImageViewId|
                #[trigger] old(self).view_live(id) ==> r.0@.contains(
                    old(self).view_at(id).native,
                ),
            forall|n: I| #[trigger] r.1@.contains(n) ==> old(self).is_live_image_native(n),
            forall|id: ImageId|
                #[trigger] old(self).image_live(id) ==> r.1@.contains(
                    old(self).image_at(id).native,
                ),
    {
        let view_entries = self.views.drain();
        let image_entries = self.images.drain();
        let mut view_natives: Vec<W> = Vec::new();
        let mut i: usize = 0;
        let n_views = view_entries.len();
        while i < n_views
            invariant
                n_views == view_entries.len(),
                i <= n_views,
                view_natives@.len() == i,
                forall|j: int| 0 <= j < i ==> view_natives@[j] == view_entries@[j].1.native,
            decreases n_views - i,
        {
            let native = view_entries[i].1.native;
            view_natives.push(native);
            i = i + 1;
        }
        let mut image_natives: Vec<I> = Vec::new();
        let mut k: usize = 0;
        let n_images = image_entries.len();
        while k < n_images
            invariant
                n_images == image_entries.len(),
                k <= n_images,
                image_natives@.len() == k,
                forall|j: int| 0 <= j < k ==> image_natives@[j] == image_entries@[j].1.native,
            decreases n_images - k,
        {
            let native = image_entries[k].1.native;
            image_natives.push(native);
            k = k + 1;
        }
        proof {
            assert forall|h: RawHandle|
                self.images.contents().dom().contains(
                    h,
                ) implies (#[trigger] self.images.contents()[h]).image_type.spec_num_texels()
                * self.images.contents()[h].format.spec_num_components() <= usize::MAX by {
                self.images.lemma_live_iff_contents(h);
            }
            assert forall|w: W| #[trigger] view_natives@.contains(w) implies old(
                self,
            ).is_live_view_native(w) by {
                let j = choose|j: int| 0 <= j < view_natives@.len() && view_natives@[j] == w;
                let id = ImageViewId { raw: view_entries@[j].0 };
                assert(old(self).views.live(view_entries@[j].0));
                assert(old(self).view_live(id) && old(self).view_at(id).native == w);
            }
            assert forall|id: ImageViewId| #[trigger] old(self).view_live(id) implies
                view_natives@.contains(old(self).view_at(id).native) by {
                let j = choose|j: int|
                    0 <= j < view_entries@.len() && view_entries@[j].0 == id.raw;
                assert(old(self).views.live(view_entries@[j].0));
                assert(view_natives@[j] == old(self).view_at(id).native);
            }
            assert forall|x: I| #[trigger] image_natives@.contains(x) implies old(
                self,
            ).is_live_image_native(x) by {
                let j = choose|j: int| 0 <= j < image_natives@.len() && image_natives@[j] == x;
                let id = ImageId { raw: image_entries@[j].0 };
                assert(old(self).images.live(image_entries@[j].0));
                assert(old(self).image_live(id) && old(self).image_at(id).native == x);
            }
            assert forall|id: ImageId| #[trigger] old(self).image_live(id) implies
                image_natives@.contains(old(self).image_at(id).native) by {
                let j = choose|j: int|
                    0 <= j < image_entries@.len() && image_entries@[j].0 == id.raw;
                assert(old(self).images.live(image_entries@[j].0));
                assert(image_natives@[j] == old(self).image_at(id).native);
            }
        }
        (view_natives, image_natives)
    }

    /// Resolve either kind of handle to its native object, for label
    /// assignment; `None` for a stale handle, which is a silent no-op.
    pub fn resolve_native(&self, id: ImageOrViewId) -> (r: Option<NativeImageOrView<I, W>>)
        requires
            self.wf(),
        ensures
            id matches ImageOrViewId::Image(i) ==> ((r is Some <==> self.image_live(i)) && (
            self.image_live(i) ==> r == Some(
                NativeImageOrView::<I, W>::Image(self.image_at(i).native),
            ))),
            id matches ImageOrViewId::View(v) ==> ((r is Some <==> self.view_live(v)) && (
            self.view_live(v) ==> r == Some(
                NativeImageOrView::<I, W>::View(self.view_at(v).native),
            ))),
    {
        match id {
            ImageOrViewId::Image(i) => match self.get_image_handle(i) {
                Some(n) => Some(NativeImageOrView::Image(n)),
                None => None,
            },
            ImageOrViewId::View(v) => match self.get_image_view_handle(v) {
                Some(n) => Some(NativeImageOrView::View(n)),
                None => None,
            },
        }
    }
}

/// A native image or native view, as resolved from an `ImageOrViewId`.
#[derive(Clone, Copy, PartialEq, Eq, Debug)]
pub enum NativeImageOrView<I, W> {
    Image(I),
    View(W),
}

} // verus!
