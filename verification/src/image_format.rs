//! Image format and dimensionality model.
//!
//! Plain-value counterparts of the device's image descriptions: base format,
//! scalar layout, full pixel format, image type (1D/2D/3D with layers and
//! samples), view type and extent, plus the fixed lookup that maps a host
//! array's element layout to a device pixel format.
use vstd::prelude::*;

verus! {

/// Number and meaning of the components of a texel.
#[derive(Clone, Copy, PartialEq, Eq, Structural, Debug)]
pub enum BaseFormat {
    R,
    RG,
    RGB,
    RGBA,
}

/// Scalar layout of one component of a texel.
#[derive(Clone, Copy, PartialEq, Eq, Structural, Debug)]
pub enum FormatLayout {
    U8,
    U16,
    U32,
    I8,
    I16,
    I32,
    F32,
}

/// Full pixel format: the formats the structured-upload lookup can produce.
#[derive(Clone, Copy, PartialEq, Eq, Structural, Debug)]
pub enum Format {
    R32Sfloat,
    Rg32Sfloat,
    Rgb32Sfloat,
    Rgba32Sfloat,
}

/// Image dimensionality, extents, layer and sample counts.
#[derive(Clone, Copy, PartialEq, Eq, Structural, Debug)]
pub enum ImageType {
    D1 { width: u32, layers: u32 },
    D2 { width: u32, height: u32, layers: u32, samples: u32 },
    D3 { width: u32, height: u32, depth: u32 },
}

/// Dimensionality of an image view.
#[derive(Clone, Copy, PartialEq, Eq, Structural, Debug)]
pub enum ImageViewType {
    D1,
    D2,
    D3,
    D1Array,
    D2Array,
}

/// Region an image occupies: width, height and depth in texels.
#[derive(Clone, Copy, PartialEq, Eq, Structural, Debug)]
pub struct Extent {
    pub width: u32,
    pub height: u32,
    pub depth: u32,
}

impl BaseFormat {
    /// Number of components per texel.
    pub open spec fn spec_num_components(self) -> int {
        match self {
            BaseFormat::R => 1,
            BaseFormat::RG => 2,
            BaseFormat::RGB => 3,
            BaseFormat::RGBA => 4,
        }
    }

    pub fn num_components(self) -> (r: u32)
        ensures
            r == self.spec_num_components(),
    {
        match self {
            BaseFormat::R => 1,
            BaseFormat::RG => 2,
            BaseFormat::RGB => 3,
            BaseFormat::RGBA => 4,
        }
    }
}

impl Format {
    /// The components-and-meaning part of the format.
    pub open spec fn spec_base_format(self) -> BaseFormat {
        match self {
            Format::R32Sfloat => BaseFormat::R,
            Format::Rg32Sfloat => BaseFormat::RG,
            Format::Rgb32Sfloat => BaseFormat::RGB,
            Format::Rgba32Sfloat => BaseFormat::RGBA,
        }
    }

    pub fn base_format(self) -> (r: BaseFormat)
        ensures
            r == self.spec_base_format(),
    {
        match self {
            Format::R32Sfloat => BaseFormat::R,
            Format::Rg32Sfloat => BaseFormat::RG,
            Format::Rgb32Sfloat => BaseFormat::RGB,
            Format::Rgba32Sfloat => BaseFormat::RGBA,
        }
    }

    /// Number of components per texel.
    pub open spec fn spec_num_components(self) -> int {
        self.spec_base_format().spec_num_components()
    }

    pub fn num_components(self) -> (r: u32)
        ensures
            r == self.spec_num_components(),
    {
        self.base_format().num_components()
    }
}

/// The fixed (base format × layout) → pixel format lookup used when creating
/// an image from a structured host array.
pub open spec fn spec_format_from_base_and_layout(bf: BaseFormat, layout: FormatLayout) -> Option<
    Format,
> {
    match (bf, layout) {
        (BaseFormat::R, FormatLayout::F32) => Some(Format::R32Sfloat),
        (BaseFormat::RG, FormatLayout::F32) => Some(Format::Rg32Sfloat),
        (BaseFormat::RGB, FormatLayout::F32) => Some(Format::Rgb32Sfloat),
        (BaseFormat::RGBA, FormatLayout::F32) => Some(Format::Rgba32Sfloat),
        _ => None,
    }
}

/// Return a full format from a base format and a scalar layout; `None` for
/// the combinations the device upload path does not support.
pub fn format_from_base_and_layout(bf: BaseFormat, layout: FormatLayout) -> (r: Option<Format>)
    ensures
        r == spec_format_from_base_and_layout(bf, layout),
        r is Some ==> r->0.spec_base_format() == bf,
{
    match (bf, layout) {
        (BaseFormat::R, FormatLayout::F32) => Some(Format::R32Sfloat),
        (BaseFormat::RG, FormatLayout::F32) => Some(Format::Rg32Sfloat),
        (BaseFormat::RGB, FormatLayout::F32) => Some(Format::Rgb32Sfloat),
        (BaseFormat::RGBA, FormatLayout::F32) => Some(Format::Rgba32Sfloat),
        _ => None,
    }
}

impl ImageType {
    pub open spec fn spec_width(self) -> int {
        match self {
            ImageType::D1 { width, .. } => width as int,
            ImageType::D2 { width, .. } => width as int,
            ImageType::D3 { width, .. } => width as int,
        }
    }

    pub open spec fn spec_height(self) -> int {
        match self {
            ImageType::D1 { .. } => 1,
            ImageType::D2 { height, .. } => height as int,
            ImageType::D3 { height, .. } => height as int,
        }
    }

    pub open spec fn spec_depth(self) -> int {
        match self {
            ImageType::D1 { .. } => 1,
            ImageType::D2 { .. } => 1,
            ImageType::D3 { depth, .. } => depth as int,
        }
    }

    /// Layer count; a 3D image has a single layer.
    pub open spec fn spec_layers(self) -> int {
        match self {
            ImageType::D1 { layers, .. } => layers as int,
            ImageType::D2 { layers, .. } => layers as int,
            ImageType::D3 { .. } => 1,
        }
    }

    /// Number of texels in the top layer of the image.
    pub open spec fn spec_num_texels(self) -> int {
        self.spec_width() * self.spec_height() * self.spec_depth()
    }

    pub fn width(self) -> (r: u32)
        ensures
            r == self.spec_width(),
    {
        match self {
            ImageType::D1 { width, .. } => width,
            ImageType::D2 { width, .. } => width,
            ImageType::D3 { width, .. } => width,
        }
    }

    pub fn height(self) -> (r: u32)
        ensures
            r == self.spec_height(),
    {
        match self {
            ImageType::D1 { .. } => 1,
            ImageType::D2 { height, .. } => height,
            ImageType::D3 { height, .. } => height,
        }
    }

    pub fn depth(self) -> (r: u32)
        ensures
            r == self.spec_depth(),
    {
        match self {
            ImageType::D1 { .. } => 1,
            ImageType::D2 { .. } => 1,
            ImageType::D3 { depth, .. } => depth,
        }
    }

    pub fn layers(self) -> (r: u32)
        ensures
            r == self.spec_layers(),
    {
        match self {
            ImageType::D1 { layers, .. } => layers,
            ImageType::D2 { layers, .. } => layers,
            ImageType::D3 { .. } => 1,
        }
    }

    /// Number of texels in the top layer of the image.
    pub fn num_texels(self) -> (r: usize)
        requires
            self.spec_num_texels() <= usize::MAX,
        ensures
            r == self.spec_num_texels(),
    {
        let w = self.width() as usize;
        let h = self.height() as usize;
        let d = self.depth() as usize;
        proof {
            assert(w * h * d == self.spec_num_texels()) by (nonlinear_arith)
                requires
                    w == self.spec_width(),
                    h == self.spec_height(),
                    d == self.spec_depth(),
            ;
        }
        if w == 0 || h == 0 || d == 0 {
            proof {
                assert(w * h * d == 0) by (nonlinear_arith)
                    requires
                        w == 0 || h == 0 || d == 0,
                ;
            }
            0
        } else {
            proof {
                assert(w * h <= w * h * d) by (nonlinear_arith)
                    requires
                        w >= 0,
                        h >= 0,
                        d >= 1,
                ;
            }
            w * h * d
        }
    }
}

/// The view type most closely matching an image type: arrays where the image
/// has more than one layer.
pub open spec fn spec_image_type_to_view_type(t: ImageType) -> ImageViewType {
    match t {
        ImageType::D1 { layers, .. } => if layers == 1 {
            ImageViewType::D1
        } else {
            ImageViewType::D1Array
        },
        ImageType::D2 { layers, .. } => if layers == 1 {
            ImageViewType::D2
        } else {
            ImageViewType::D2Array
        },
        ImageType::D3 { .. } => ImageViewType::D3,
    }
}

/// Return the image view type most closely matching the image type.
pub fn image_type_to_view_type(t: ImageType) -> (r: ImageViewType)
    ensures
        r == spec_image_type_to_view_type(t),
{
    match t {
        ImageType::D1 { layers, .. } => if layers == 1 {
            ImageViewType::D1
        } else {
            ImageViewType::D1Array
        },
        ImageType::D2 { layers, .. } => if layers == 1 {
            ImageViewType::D2
        } else {
            ImageViewType::D2Array
        },
        ImageType::D3 { .. } => ImageViewType::D3,
    }
}

/// Given an image type, return the extent that fully encompasses it.
pub fn image_type_to_full_extent(t: ImageType) -> (r: Extent)
    ensures
        r.width == t.spec_width(),
        r.height == t.spec_height(),
        r.depth == t.spec_depth(),
{
    Extent { width: t.width(), height: t.height(), depth: t.depth() }
}

} // verus!
