//! Composition of render passes contributed by independent plugins into one
//! ordered, validated frame graph that is rebuilt on demand.

pub mod bundle;
pub mod error;
pub mod outputs;
pub mod pass;
pub mod plan;
pub mod plugins;
pub mod target;

pub use bundle::{RenderPlugin, RenderingBundle};
pub use error::{RenderError, RenderErrorView};
pub use outputs::{
    ClearValue, DepthClear, Dimensions, Format, ImageKind, ImageOptions, OutputColor,
    OutputsView, Rgb, Rgba, SurfaceId, TargetPlanOutputs,
};
pub use pass::{PassGroup, Shading, SkyColors};
pub use plan::{CompiledGraph, CompiledTarget, Extension, GraphView, PlanView, RenderPlan};
pub use plugins::{
    AuxSystem, FrameContext, RenderBase3D, RenderDebugLines, RenderFlat2D, RenderSkybox,
    RenderToWindow,
};
pub use target::{RenderOrder, Target, TargetName, ORDER_COUNT};
