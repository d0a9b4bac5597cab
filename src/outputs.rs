use vstd::prelude::*;

verus! {

/// Width and height of a display, in whole pixels.
#[derive(Debug, Clone, Copy, PartialEq, Eq, Structural)]
pub struct Dimensions {
    pub width: u32,
    pub height: u32,
}

/// Handle of a presentation surface created by the graphics factory.
#[derive(Debug, Clone, Copy, PartialEq, Eq, Structural)]
pub struct SurfaceId(pub u64);

/// A color with 8-bit red, green, blue and alpha channels.
#[derive(Debug, Clone, Copy, PartialEq, Eq, Structural)]
pub struct Rgba {
    pub red: u8,
    pub green: u8,
    pub blue: u8,
    pub alpha: u8,
}

/// A color with 8-bit red, green and blue channels.
#[derive(Debug, Clone, Copy, PartialEq, Eq, Structural)]
pub struct Rgb {
    pub red: u8,
    pub green: u8,
    pub blue: u8,
}

/// Pixel format of an attachment.
#[derive(Debug, Clone, Copy, PartialEq, Eq, Structural)]
pub enum Format {
    D32Sfloat,
    D24UnormS8Uint,
    Rgba8Unorm,
    Rgba8Srgb,
    Bgra8Srgb,
}

/// Depth value an attachment is cleared to: the near or the far plane.
#[derive(Debug, Clone, Copy, PartialEq, Eq, Structural)]
pub enum DepthClear {
    Zero,
    One,
}

/// The value an attachment is cleared to at the start of a frame.
#[derive(Debug, Clone, Copy, PartialEq, Eq, Structural)]
pub enum ClearValue {
    Color(Rgba),
    DepthStencil { depth: DepthClear, stencil: u32 },
}

/// Extent of a two-dimensional image.
#[derive(Debug, Clone, Copy, PartialEq, Eq, Structural)]
pub struct ImageKind {
    pub width: u32,
    pub height: u32,
    pub layers: u16,
    pub samples: u8,
}

/// Description of an image attachment.
#[derive(Debug, Clone, Copy, PartialEq, Eq, Structural)]
pub struct ImageOptions {
    pub kind: ImageKind,
    pub levels: u8,
    pub format: Format,
    pub clear: Option<ClearValue>,
}

/// One color output of a target: presented to a surface, or rendered to an
/// offscreen image.
#[derive(Debug, Clone, Copy, PartialEq, Eq, Structural)]
pub enum OutputColor {
    Surface(SurfaceId, Option<ClearValue>),
    Image(ImageOptions),
}

/// The attachments of a target: its color outputs in order, and an optional
/// depth/stencil attachment.
#[derive(Debug)]
pub struct TargetPlanOutputs {
    pub colors: Vec<OutputColor>,
    pub depth: Option<ImageOptions>,
}

/// What a `TargetPlanOutputs` holds.
pub struct OutputsView {
    pub colors: Seq<OutputColor>,
    pub depth: Option<ImageOptions>,
}

impl View for TargetPlanOutputs {
    type V = OutputsView;

    open spec fn view(&self) -> OutputsView {
        OutputsView { colors: self.colors@, depth: self.depth }
    }
}

} // verus!
