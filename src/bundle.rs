use vstd::prelude::*;

use crate::error::{RenderError, RenderErrorView};
use crate::outputs::Dimensions;
use crate::outputs::SurfaceId;
use crate::plan::{compile_view, empty_plan, extend_step, is_defined, CompiledGraph, GraphView, PlanView, RenderPlan};
use crate::plugins::{
    debug_lines_passes, flat2d_passes, mesh3d_passes, skybox_passes, window_outputs, AuxSystem,
    FrameContext,
    RenderBase3D, RenderDebugLines, RenderFlat2D, RenderSkybox, RenderToWindow,
};

verus! {

/// A rendering plugin: one of the plugins this library provides.
#[derive(Debug)]
pub enum RenderPlugin {
    Window(RenderToWindow),
    Base3D(RenderBase3D),
    Flat2D(RenderFlat2D),
    DebugLines(RenderDebugLines),
    Skybox(RenderSkybox),
}

impl RenderPlugin {
    /// The auxiliary system the plugin needs registered, if any.
    pub open spec fn aux_system(&self) -> Option<AuxSystem> {
        match self {
            RenderPlugin::Base3D(_) => Some(AuxSystem::VisibilitySorting),
            RenderPlugin::Flat2D(_) => Some(AuxSystem::SpriteVisibilitySorting),
            _ => None,
        }
    }

    /// Whether the plugin asks for a rebuild, given the current dimensions.
    pub open spec fn wants_rebuild(&self, current: Option<Dimensions>) -> bool {
        match self {
            RenderPlugin::Window(w) => w.needs_rebuild(current),
            _ => false,
        }
    }

    /// The plugin after it was asked whether to rebuild.
    pub open spec fn after_poll(self, current: Option<Dimensions>) -> RenderPlugin {
        match self {
            RenderPlugin::Window(w) => RenderPlugin::Window(
                RenderToWindow { dimensions: current, dirty: w.needs_rebuild(current), ..w },
            ),
            _ => self,
        }
    }

    /// The plugin after it planned.
    pub open spec fn after_plan(self) -> RenderPlugin {
        match self {
            RenderPlugin::Window(w) => RenderPlugin::Window(RenderToWindow { dirty: false, ..w }),
            _ => self,
        }
    }

    /// What the plugin's planning does to the plan `v`.
    pub open spec fn plan_effect(&self, v: PlanView, ctx: FrameContext) -> Result<PlanView, RenderErrorView> {
        match self {
            RenderPlugin::Window(w) => w.plan_effect(v, ctx),
            RenderPlugin::Base3D(p) => Ok(extend_step(v, p.target@, mesh3d_passes(p.shading, p.skinning))),
            RenderPlugin::Flat2D(p) => Ok(extend_step(v, p.target@, flat2d_passes())),
            RenderPlugin::DebugLines(p) => Ok(extend_step(v, p.target@, debug_lines_passes())),
            RenderPlugin::Skybox(p) => Ok(extend_step(v, p.target@, skybox_passes(p.colors))),
        }
    }

    /// Called once before any frame: the auxiliary system to register.
    pub fn on_build(&self) -> (r: Option<AuxSystem>)
        ensures
            r == self.aux_system(),
    {
        match self {
            RenderPlugin::Base3D(_) => Some(AuxSystem::VisibilitySorting),
            RenderPlugin::Flat2D(_) => Some(AuxSystem::SpriteVisibilitySorting),
            _ => None,
        }
    }

    /// Called every cycle: whether the frame graph must be rebuilt.
    pub fn should_rebuild(&mut self, current: Option<Dimensions>) -> (r: bool)
        ensures
            r == old(self).wants_rebuild(current),
            *final(self) == old(self).after_poll(current),
    {
        match self {
            RenderPlugin::Window(w) => w.should_rebuild(current),
            _ => false,
        }
    }

    /// Called once per rebuild: contributes the plugin's targets and passes.
    pub fn on_plan(&mut self, plan: &mut RenderPlan, ctx: &FrameContext) -> (r: Result<(), RenderError>)
        ensures
            *final(self) == old(self).after_plan(),
            match old(self).plan_effect(old(plan)@, *ctx) {
                Ok(v) => r is Ok && final(plan)@ == v,
                Err(e) => r is Err && r->Err_0@ == e,
            },
    {
        match self {
            RenderPlugin::Window(w) => w.on_plan(plan, ctx),
            RenderPlugin::Base3D(p) => p.on_plan(plan),
            RenderPlugin::Flat2D(p) => p.on_plan(plan),
            RenderPlugin::DebugLines(p) => p.on_plan(plan),
            RenderPlugin::Skybox(p) => p.on_plan(plan),
        }
    }
}

/// The plan that `plugins` build, each planning in turn, from an empty plan.
pub open spec fn plan_all(plugins: Seq<RenderPlugin>, ctx: FrameContext) -> Result<PlanView, RenderErrorView>
    decreases plugins.len(),
{
    if plugins.len() == 0 {
        Ok(empty_plan())
    } else {
        match plan_all(plugins.drop_last(), ctx) {
            Ok(v) => plugins.last().plan_effect(v, ctx),
            Err(e) => Err(e),
        }
    }
}

/// The graph that a rebuild with `plugins` compiles, or its error.
pub open spec fn rebuild_view(plugins: Seq<RenderPlugin>, ctx: FrameContext) -> Result<GraphView, RenderErrorView> {
    match plan_all(plugins, ctx) {
        Ok(v) => compile_view(v),
        Err(e) => Err(e),
    }
}

/// Whether any of `plugins` asks for a rebuild.
pub open spec fn any_wants_rebuild(plugins: Seq<RenderPlugin>, current: Option<Dimensions>) -> bool {
    exists|i: int| 0 <= i < plugins.len() && (#[trigger] plugins[i]).wants_rebuild(current)
}

pub open spec fn polled_all(plugins: Seq<RenderPlugin>, current: Option<Dimensions>) -> Seq<RenderPlugin> {
    plugins.map_values(|p: RenderPlugin| p.after_poll(current))
}

pub open spec fn planned_all(plugins: Seq<RenderPlugin>) -> Seq<RenderPlugin> {
    plugins.map_values(|p: RenderPlugin| p.after_plan())
}

/// Drives a list of plugins: builds them once, and rebuilds the frame graph
/// from all of them whenever one asks for it.
#[derive(Debug)]
pub struct RenderingBundle {
    pub plugins: Vec<RenderPlugin>,
    pub graph: Option<CompiledGraph>,
}

impl RenderingBundle {
    /// A bundle without plugins or graph.
    pub fn new() -> (r: Self)
        ensures
            r.plugins@.len() == 0,
            r.graph is None,
    {
        RenderingBundle { plugins: Vec::new(), graph: None }
    }

    /// Registers `plugin` after the plugins already registered.
    pub fn with_plugin(self, plugin: RenderPlugin) -> (r: Self)
        ensures
            r.plugins@ == self.plugins@.push(plugin),
            r.graph == self.graph,
    {
        let RenderingBundle { mut plugins, graph } = self;
        plugins.push(plugin);
        RenderingBundle { plugins, graph }
    }

    /// Builds every plugin, in registration order, and returns the auxiliary
    /// systems they need registered, in that order.
    pub fn on_build(&self) -> (r: Vec<AuxSystem>)
        ensures
            r@ == aux_systems(self.plugins@),
    {
        let mut r: Vec<AuxSystem> = Vec::new();
        let mut i: usize = 0;
        while i < self.plugins.len()
            invariant
                i <= self.plugins.len(),
                r@ == aux_systems(self.plugins@.take(i as int)),
            decreases self.plugins.len() - i,
        {
            assert(self.plugins@.take(i as int + 1).drop_last() =~= self.plugins@.take(i as int));
            match self.plugins[i].on_build() {
                Some(s) => r.push(s),
                None => {},
            }
            i += 1;
        }
        assert(self.plugins@.take(i as int) =~= self.plugins@);
        r
    }

    /// Asks every plugin, in registration order, whether the graph must be
    /// rebuilt; true if any does, or if no graph was built yet.
    pub fn poll(&mut self, current: Option<Dimensions>) -> (r: bool)
        ensures
            r == (old(self).graph is None || any_wants_rebuild(old(self).plugins@, current)),
            final(self).plugins@ == polled_all(old(self).plugins@, current),
            final(self).graph == old(self).graph,
    {
        let ghost ps = self.plugins@;
        let mut any = false;
        let mut i: usize = 0;
        while i < self.plugins.len()
            invariant
                i <= self.plugins.len(),
                self.plugins@.len() == ps.len(),
                self.graph == old(self).graph,
                ps == old(self).plugins@,
                forall|j: int| 0 <= j < i ==> self.plugins@[j] == ps[j].after_poll(current),
                forall|j: int| i <= j < ps.len() ==> self.plugins@[j] == ps[j],
                any == exists|j: int| 0 <= j < i && (#[trigger] ps[j]).wants_rebuild(current),
            decreases self.plugins.len() - i,
        {
            let mut p = self.plugins.remove(i);
            let wants = p.should_rebuild(current);
            self.plugins.insert(i, p);
            if wants {
                any = true;
            }
            assert(any == exists|j: int| 0 <= j < i + 1 && (#[trigger] ps[j]).wants_rebuild(current)) by {
                if any && !wants {
                    let j = choose|j: int| 0 <= j < i + 1 && (#[trigger] ps[j]).wants_rebuild(current);
                    assert(j < i);
                }
            }
            i += 1;
        }
        assert(self.plugins@ =~= polled_all(ps, current));
        self.graph.is_none() || any
    }

    /// Rebuilds the graph: a fresh plan, every plugin planning in
    /// registration order, then compilation. On success the new graph
    /// replaces the old one; on failure the old graph stays.
    pub fn rebuild(&mut self, ctx: &FrameContext) -> (r: Result<(), RenderError>)
        ensures
            final(self).plugins@.len() == old(self).plugins@.len(),
            match rebuild_view(old(self).plugins@, *ctx) {
                Ok(g) => r is Ok && final(self).graph is Some && final(self).graph->Some_0@ == g
                    && final(self).plugins@ == planned_all(old(self).plugins@),
                Err(e) => r is Err && r->Err_0@ == e && final(self).graph == old(self).graph
                    && forall|i: int| 0 <= i < old(self).plugins@.len() ==> {
                        let p = #[trigger] final(self).plugins@[i];
                        p == old(self).plugins@[i] || p == old(self).plugins@[i].after_plan()
                    },
            },
    {
        let ghost ps = self.plugins@;
        let mut plan = RenderPlan::new();
        let mut i: usize = 0;
        while i < self.plugins.len()
            invariant
                i <= self.plugins.len(),
                self.plugins@.len() == ps.len(),
                self.graph == old(self).graph,
                ps == old(self).plugins@,
                forall|j: int| 0 <= j < i ==> self.plugins@[j] == ps[j].after_plan(),
                forall|j: int| i <= j < ps.len() ==> self.plugins@[j] == ps[j],
                plan_all(ps.take(i as int), *ctx) == Ok::<PlanView, RenderErrorView>(plan@),
            decreases self.plugins.len() - i,
        {
            assert(ps.take(i as int + 1).drop_last() =~= ps.take(i as int));
            let mut p = self.plugins.remove(i);
            let res = p.on_plan(&mut plan, ctx);
            self.plugins.insert(i, p);
            match res {
                Ok(()) => {},
                Err(e) => {
                    proof {
                        lemma_plan_all_stops(ps, *ctx, i as int + 1);
                    }
                    return Err(e);
                },
            }
            i += 1;
        }
        assert(ps.take(ps.len() as int) =~= ps);
        assert(self.plugins@ =~= planned_all(ps));
        match plan.compile() {
            Ok(g) => {
                self.graph = Some(g);
                Ok(())
            },
            Err(e) => Err(e),
        }
    }

    /// One cycle: polls every plugin and rebuilds the graph if any asks for
    /// it. Returns whether a rebuild ran.
    pub fn run_cycle(&mut self, ctx: &FrameContext) -> (r: Result<bool, RenderError>)
        ensures
            ({
                let polled = polled_all(old(self).plugins@, ctx.dimensions);
                if old(self).graph is Some && !any_wants_rebuild(old(self).plugins@, ctx.dimensions) {
                    r == Ok::<bool, RenderError>(false) && final(self).plugins@ == polled
                        && final(self).graph == old(self).graph
                } else {
                    match rebuild_view(polled, *ctx) {
                        Ok(g) => r == Ok::<bool, RenderError>(true) && final(self).graph is Some
                            && final(self).graph->Some_0@ == g
                            && final(self).plugins@ == planned_all(polled),
                        Err(e) => r is Err && r->Err_0@ == e && final(self).graph == old(self).graph,
                    }
                }
            }),
    {
        if self.poll(ctx.dimensions) {
            match self.rebuild(ctx) {
                Ok(()) => Ok(true),
                Err(e) => Err(e),
            }
        } else {
            Ok(false)
        }
    }
}

/// The auxiliary systems that `plugins` need registered, in order.
pub open spec fn aux_systems(plugins: Seq<RenderPlugin>) -> Seq<AuxSystem>
    decreases plugins.len(),
{
    if plugins.len() == 0 {
        Seq::empty()
    } else {
        match plugins.last().aux_system() {
            Some(s) => aux_systems(plugins.drop_last()).push(s),
            None => aux_systems(plugins.drop_last()),
        }
    }
}

/// Once planning fails for a prefix of the plugins, the whole list fails
/// with the same error.
proof fn lemma_plan_all_stops(plugins: Seq<RenderPlugin>, ctx: FrameContext, k: int)
    requires
        0 <= k <= plugins.len(),
        plan_all(plugins.take(k), ctx) is Err,
    ensures
        plan_all(plugins, ctx) == plan_all(plugins.take(k), ctx),
    decreases plugins.len(),
{
    if k < plugins.len() {
        assert(plugins.drop_last().take(k) =~= plugins.take(k));
        lemma_plan_all_stops(plugins.drop_last(), ctx, k);
    } else {
        assert(plugins.take(k) =~= plugins);
    }
}

proof fn lemma_plan_all_stateless(ps: Seq<RenderPlugin>, qs: Seq<RenderPlugin>, ctx: FrameContext)
    requires
        ps.len() == qs.len(),
        forall|i: int, v: PlanView| 0 <= i < ps.len() ==> #[trigger] ps[i].plan_effect(v, ctx) == qs[i].plan_effect(v, ctx),
    ensures
        plan_all(ps, ctx) == plan_all(qs, ctx),
    decreases ps.len(),
{
    if ps.len() > 0 {
        assert forall|i: int, v: PlanView| 0 <= i < ps.drop_last().len() implies #[trigger] ps.drop_last()[i].plan_effect(v, ctx)
            == qs.drop_last()[i].plan_effect(v, ctx) by {
            assert(ps.drop_last()[i] == ps[i]);
            assert(qs.drop_last()[i] == qs[i]);
        }
        lemma_plan_all_stateless(ps.drop_last(), qs.drop_last(), ctx);
        assert(ps.last() == ps[ps.len() - 1]);
    }
}

/// Determinism across cycles: what polling and planning change in the
/// plugins never changes what they plan, so rebuilding again with the same
/// plugins in the same order, in the same context, compiles the same graph.
pub proof fn lemma_rebuild_deterministic(plugins: Seq<RenderPlugin>, current: Option<Dimensions>, ctx: FrameContext)
    ensures
        rebuild_view(planned_all(plugins), ctx) == rebuild_view(plugins, ctx),
        rebuild_view(polled_all(plugins, current), ctx) == rebuild_view(plugins, ctx),
{
    lemma_plan_all_stateless(planned_all(plugins), plugins, ctx);
    lemma_plan_all_stateless(polled_all(plugins, current), plugins, ctx);
}

/// Resize round trip: once the window plugin sees the display change to `d`,
/// it asks for a rebuild, and the rebuild defines the presented target with a
/// depth attachment of exactly `d`, whatever size it saw before.
pub proof fn lemma_resize_round_trip(w: RenderToWindow, d: Dimensions, surface: SurfaceId, v: PlanView)
    requires
        w.dimensions != Some(d),
        !is_defined(v.defs, w.target@),
    ensures
        RenderPlugin::Window(w).wants_rebuild(Some(d)),
        ({
            let polled = RenderPlugin::Window(w).after_poll(Some(d));
            let ctx = FrameContext { dimensions: Some(d), surface: Some(surface) };
            let r = polled.plan_effect(v, ctx);
            &&& r is Ok
            &&& r->Ok_0.defs.last() == (w.target@, window_outputs(surface, d, w.clear))
            &&& r->Ok_0.defs.last().1.depth->Some_0.kind.width == d.width
            &&& r->Ok_0.defs.last().1.depth->Some_0.kind.height == d.height
        }),
{
}
} // verus!
