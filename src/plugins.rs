use vstd::prelude::*;

use crate::error::{RenderError, RenderErrorView};
use crate::outputs::{
    ClearValue, DepthClear, Dimensions, Format, ImageKind, ImageOptions, OutputColor, OutputsView,
    Rgb, Rgba, SurfaceId, TargetPlanOutputs,
};
use crate::pass::{PassGroup, Shading, SkyColors};
use crate::plan::{add_root_step, define_step, extend_step, PlanView, RenderPlan};
use crate::target::{RenderOrder, Target, TargetName};

verus! {

/// What the outside world looks like during one rebuild cycle: the current
/// display dimensions, and the surface that the graphics factory created
/// for the window (none if it could not).
#[derive(Debug, Clone, Copy)]
pub struct FrameContext {
    pub dimensions: Option<Dimensions>,
    pub surface: Option<SurfaceId>,
}

/// A long-lived auxiliary system that a plugin asks to be registered once,
/// before any frame is rendered.
#[derive(Debug, Clone, Copy, PartialEq, Eq, Structural)]
pub enum AuxSystem {
    /// Sorts 3D meshes by visibility.
    VisibilitySorting,
    /// Sorts 2D sprites by visibility.
    SpriteVisibilitySorting,
}

/// The depth attachment of a window of dimensions `d`.
pub open spec fn window_depth(d: Dimensions) -> ImageOptions {
    ImageOptions {
        kind: ImageKind { width: d.width, height: d.height, layers: 1, samples: 1 },
        levels: 1,
        format: Format::D32Sfloat,
        clear: Some(ClearValue::DepthStencil { depth: DepthClear::Zero, stencil: 0 }),
    }
}

/// The clear value of the window's color output.
pub open spec fn window_clear(clear: Option<Rgba>) -> Option<ClearValue> {
    match clear {
        Some(c) => Some(ClearValue::Color(c)),
        None => None,
    }
}

/// The outputs of the target presented to the window.
pub open spec fn window_outputs(surface: SurfaceId, d: Dimensions, clear: Option<Rgba>) -> OutputsView {
    OutputsView {
        colors: seq![OutputColor::Surface(surface, window_clear(clear))],
        depth: Some(window_depth(d)),
    }
}

/// Presents a render target to the window, with a depth buffer sized to the
/// window's current dimensions.
///
/// The plugin asks for a rebuild as soon as it sees the window dimensions
/// change, and until a rebuild has run.
#[derive(Debug)]
pub struct RenderToWindow {
    pub target: Target,
    pub dimensions: Option<Dimensions>,
    pub dirty: bool,
    pub clear: Option<Rgba>,
}

impl RenderToWindow {
    /// Presents the main target, with no clear color and no dimensions seen yet.
    pub fn new() -> (r: Self)
        ensures
            r.target@ == TargetName::Main,
            r.dimensions is None,
            !r.dirty,
            r.clear is None,
    {
        RenderToWindow { target: Target::Main, dimensions: None, dirty: false, clear: None }
    }

    /// Selects the target presented to the window.
    pub fn with_target(self, target: Target) -> (r: Self)
        ensures
            r.target@ == target@,
            r.dimensions == self.dimensions,
            r.dirty == self.dirty,
            r.clear == self.clear,
    {
        RenderToWindow { target, ..self }
    }

    /// Clears the window with `clear` every frame.
    pub fn with_clear(self, clear: Rgba) -> (r: Self)
        ensures
            r.target == self.target,
            r.dimensions == self.dimensions,
            r.dirty == self.dirty,
            r.clear == Some(clear),
    {
        RenderToWindow { clear: Some(clear), ..self }
    }

    /// Whether the window needs a rebuild, given the dimensions seen now.
    pub open spec fn needs_rebuild(&self, current: Option<Dimensions>) -> bool {
        self.dirty || self.dimensions != current
    }

    /// Records the dimensions seen now and says whether the graph must be
    /// rebuilt: when they changed, or when a change has not been planned for.
    pub fn should_rebuild(&mut self, current: Option<Dimensions>) -> (r: bool)
        ensures
            r == old(self).needs_rebuild(current),
            *final(self) == (RenderToWindow { dimensions: current, dirty: r, ..*old(self) }),
    {
        let changed = match (self.dimensions, current) {
            (Some(a), Some(b)) => a.width != b.width || a.height != b.height,
            (None, None) => false,
            _ => true,
        };
        if changed {
            self.dimensions = current;
            self.dirty = true;
        }
        self.dirty
    }

    /// What planning does to the plan `v` in the context `ctx`.
    pub open spec fn plan_effect(&self, v: PlanView, ctx: FrameContext) -> Result<PlanView, RenderErrorView> {
        match ctx.surface {
            None => Err(RenderErrorView::ResourceCreation),
            Some(s) => match ctx.dimensions {
                None => Err(RenderErrorView::PluginBuild),
                Some(d) => define_step(add_root_step(v, TargetName::Main), self.target@, window_outputs(s, d, self.clear)),
            },
        }
    }

    /// Makes the main target a root and defines the presented target's
    /// outputs: the window surface, and a depth buffer sized to the current
    /// dimensions. Clears the plugin's need for a rebuild.
    pub fn on_plan(&mut self, plan: &mut RenderPlan, ctx: &FrameContext) -> (r: Result<(), RenderError>)
        ensures
            *final(self) == (RenderToWindow { dirty: false, ..*old(self) }),
            match old(self).plan_effect(old(plan)@, *ctx) {
                Ok(v) => r is Ok && final(plan)@ == v,
                Err(e) => r is Err && r->Err_0@ == e,
            },
    {
        self.dirty = false;
        let surface = match ctx.surface {
            Some(s) => s,
            None => return Err(RenderError::ResourceCreation),
        };
        let d = match ctx.dimensions {
            Some(d) => d,
            None => return Err(RenderError::PluginBuild),
        };
        let depth = ImageOptions {
            kind: ImageKind { width: d.width, height: d.height, layers: 1, samples: 1 },
            levels: 1,
            format: Format::D32Sfloat,
            clear: Some(ClearValue::DepthStencil { depth: DepthClear::Zero, stencil: 0 }),
        };
        let clear = match self.clear {
            Some(c) => Some(ClearValue::Color(c)),
            None => None,
        };
        let mut colors: Vec<OutputColor> = Vec::new();
        colors.push(OutputColor::Surface(surface, clear));
        let outputs = TargetPlanOutputs { colors, depth: Some(depth) };
        assert(outputs@.colors =~= window_outputs(surface, d, self.clear).colors);
        plan.add_root(Target::Main);
        plan.define_pass(self.target.clone(), outputs)
    }
}

/// The passes that forward 3D mesh rendering contributes.
pub open spec fn mesh3d_passes(shading: Shading, skinning: bool) -> Seq<(RenderOrder, PassGroup)> {
    seq![
        (RenderOrder::Opaque, PassGroup::Mesh3D { shading, skinning, transparent: false }),
        (RenderOrder::Transparent, PassGroup::Mesh3D { shading, skinning, transparent: true }),
    ]
}

/// Forward rendering of 3D meshes with a chosen shading method.
#[derive(Debug)]
pub struct RenderBase3D {
    pub target: Target,
    pub skinning: bool,
    pub shading: Shading,
}

impl RenderBase3D {
    /// Renders to the main target with `shading`, without skinning.
    pub fn new(shading: Shading) -> (r: Self)
        ensures
            r.target@ == TargetName::Main,
            !r.skinning,
            r.shading == shading,
    {
        RenderBase3D { target: Target::Main, skinning: false, shading }
    }

    /// Sets the target to which 3D meshes are rendered.
    pub fn with_target(self, target: Target) -> (r: Self)
        ensures
            r.target@ == target@,
            r.skinning == self.skinning,
            r.shading == self.shading,
    {
        RenderBase3D { target, ..self }
    }

    /// Enables rendering of skinned meshes.
    pub fn with_skinning(self) -> (r: Self)
        ensures
            r.target == self.target,
            r.skinning,
            r.shading == self.shading,
    {
        RenderBase3D { skinning: true, ..self }
    }

    /// Contributes the opaque and the transparent mesh passes to its target.
    pub fn on_plan(&self, plan: &mut RenderPlan) -> (r: Result<(), RenderError>)
        ensures
            r is Ok,
            final(plan)@ == extend_step(old(plan)@, self.target@, mesh3d_passes(self.shading, self.skinning)),
    {
        let mut passes: Vec<(RenderOrder, PassGroup)> = Vec::new();
        passes.push((RenderOrder::Opaque, PassGroup::Mesh3D { shading: self.shading, skinning: self.skinning, transparent: false }));
        passes.push((RenderOrder::Transparent, PassGroup::Mesh3D { shading: self.shading, skinning: self.skinning, transparent: true }));
        assert(passes@ =~= mesh3d_passes(self.shading, self.skinning));
        plan.extend_target(self.target.clone(), passes);
        Ok(())
    }
}

/// The passes that 2D sprite rendering contributes.
pub open spec fn flat2d_passes() -> Seq<(RenderOrder, PassGroup)> {
    seq![
        (RenderOrder::Opaque, PassGroup::Flat2D { transparent: false }),
        (RenderOrder::Transparent, PassGroup::Flat2D { transparent: true }),
    ]
}

/// Rendering of 2D sprites with flat shading.
#[derive(Debug)]
pub struct RenderFlat2D {
    pub target: Target,
}

impl RenderFlat2D {
    /// Renders to the main target.
    pub fn new() -> (r: Self)
        ensures
            r.target@ == TargetName::Main,
    {
        RenderFlat2D { target: Target::Main }
    }

    /// Sets the target to which 2D sprites are rendered.
    pub fn with_target(self, target: Target) -> (r: Self)
        ensures
            r.target@ == target@,
    {
        RenderFlat2D { target }
    }

    /// Contributes the opaque and the transparent sprite passes to its target.
    pub fn on_plan(&self, plan: &mut RenderPlan) -> (r: Result<(), RenderError>)
        ensures
            r is Ok,
            final(plan)@ == extend_step(old(plan)@, self.target@, flat2d_passes()),
    {
        let mut passes: Vec<(RenderOrder, PassGroup)> = Vec::new();
        passes.push((RenderOrder::Opaque, PassGroup::Flat2D { transparent: false }));
        passes.push((RenderOrder::Transparent, PassGroup::Flat2D { transparent: true }));
        assert(passes@ =~= flat2d_passes());
        plan.extend_target(self.target.clone(), passes);
        Ok(())
    }
}

/// The pass that debug-line rendering contributes.
pub open spec fn debug_lines_passes() -> Seq<(RenderOrder, PassGroup)> {
    seq![(RenderOrder::BeforeTransparent, PassGroup::DebugLines)]
}

/// Rendering of debug lines.
#[derive(Debug)]
pub struct RenderDebugLines {
    pub target: Target,
}

impl RenderDebugLines {
    /// Renders to the main target.
    pub fn new() -> (r: Self)
        ensures
            r.target@ == TargetName::Main,
    {
        RenderDebugLines { target: Target::Main }
    }

    /// Sets the target to which debug lines are rendered.
    pub fn with_target(self, target: Target) -> (r: Self)
        ensures
            r.target@ == target@,
    {
        RenderDebugLines { target }
    }

    /// Contributes the debug-line pass to its target, before transparent passes.
    pub fn on_plan(&self, plan: &mut RenderPlan) -> (r: Result<(), RenderError>)
        ensures
            r is Ok,
            final(plan)@ == extend_step(old(plan)@, self.target@, debug_lines_passes()),
    {
        let mut passes: Vec<(RenderOrder, PassGroup)> = Vec::new();
        passes.push((RenderOrder::BeforeTransparent, PassGroup::DebugLines));
        assert(passes@ =~= debug_lines_passes());
        plan.extend_target(self.target.clone(), passes);
        Ok(())
    }
}

/// The pass that skybox rendering contributes.
pub open spec fn skybox_passes(colors: Option<SkyColors>) -> Seq<(RenderOrder, PassGroup)> {
    seq![(RenderOrder::AfterOpaque, PassGroup::Skybox { colors })]
}

/// Rendering of a skybox.
#[derive(Debug)]
pub struct RenderSkybox {
    pub target: Target,
    pub colors: Option<SkyColors>,
}

impl RenderSkybox {
    /// Renders to the main target with the skybox's own colors.
    pub fn new() -> (r: Self)
        ensures
            r.target@ == TargetName::Main,
            r.colors is None,
    {
        RenderSkybox { target: Target::Main, colors: None }
    }

    /// A skybox on the main target with the given nadir and zenith colors.
    pub fn with_colors(nadir_color: Rgb, zenith_color: Rgb) -> (r: Self)
        ensures
            r.target@ == TargetName::Main,
            r.colors == Some(SkyColors { nadir: nadir_color, zenith: zenith_color }),
    {
        RenderSkybox {
            target: Target::Main,
            colors: Some(SkyColors { nadir: nadir_color, zenith: zenith_color }),
        }
    }

    /// Sets the target to which the skybox is rendered.
    pub fn with_target(self, target: Target) -> (r: Self)
        ensures
            r.target@ == target@,
            r.colors == self.colors,
    {
        RenderSkybox { target, ..self }
    }

    /// Contributes the skybox pass to its target, after opaque passes.
    pub fn on_plan(&self, plan: &mut RenderPlan) -> (r: Result<(), RenderError>)
        ensures
            r is Ok,
            final(plan)@ == extend_step(old(plan)@, self.target@, skybox_passes(self.colors)),
    {
        let mut passes: Vec<(RenderOrder, PassGroup)> = Vec::new();
        passes.push((RenderOrder::AfterOpaque, PassGroup::Skybox { colors: self.colors }));
        assert(passes@ =~= skybox_passes(self.colors));
        plan.extend_target(self.target.clone(), passes);
        Ok(())
    }
}

} // verus!
