use render_plan::{
    AuxSystem, ClearValue, CompiledGraph, DepthClear, Dimensions, Format, FrameContext,
    OutputColor, PassGroup, RenderBase3D, RenderDebugLines, RenderError, RenderFlat2D,
    RenderOrder, RenderPlan, RenderPlugin, RenderSkybox, RenderToWindow, RenderingBundle, Rgb,
    Rgba, Shading, SurfaceId, Target, TargetPlanOutputs,
};

fn offscreen_outputs() -> TargetPlanOutputs {
    TargetPlanOutputs { colors: Vec::new(), depth: None }
}

fn passes_of(graph: &CompiledGraph, target: &Target) -> Vec<PassGroup> {
    let i = graph.position(target).expect("target is compiled");
    graph.targets[i].passes.clone()
}

fn context(width: u32, height: u32) -> FrameContext {
    FrameContext { dimensions: Some(Dimensions { width, height }), surface: Some(SurfaceId(7)) }
}

#[test]
fn render_order_ranks_follow_declaration() {
    let orders = [
        RenderOrder::BeforeOpaque,
        RenderOrder::Opaque,
        RenderOrder::AfterOpaque,
        RenderOrder::BeforeTransparent,
        RenderOrder::Transparent,
        RenderOrder::AfterTransparent,
    ];
    for (i, o) in orders.iter().enumerate() {
        assert_eq!(o.rank() as usize, i);
    }
}

#[test]
fn targets_compare_by_name() {
    assert_eq!(Target::custom("shadow"), Target::Custom("shadow".to_string()));
    assert_ne!(Target::custom("shadow"), Target::custom("light"));
    assert_ne!(Target::custom("main"), Target::Main);
    assert_eq!(Target::default(), Target::Main);
    assert!(Target::Main.same_as(&Target::Main.clone()));
}

#[test]
fn compiling_twice_gives_identical_order() {
    let build = || {
        let mut plan = RenderPlan::new();
        plan.define_pass(Target::Main, offscreen_outputs()).unwrap();
        plan.extend_target(
            Target::Main,
            vec![
                (RenderOrder::Transparent, PassGroup::Custom(1)),
                (RenderOrder::Opaque, PassGroup::Custom(2)),
                (RenderOrder::Opaque, PassGroup::Custom(3)),
            ],
        );
        plan.compile().unwrap()
    };
    let first = build();
    let second = build();
    let expected = vec![PassGroup::Custom(2), PassGroup::Custom(3), PassGroup::Custom(1)];
    assert_eq!(passes_of(&first, &Target::Main), expected);
    assert_eq!(passes_of(&second, &Target::Main), expected);
}

#[test]
fn second_definition_is_rejected() {
    let mut plan = RenderPlan::new();
    assert!(plan.define_pass(Target::Main, offscreen_outputs()).is_ok());
    let r = plan.define_pass(Target::Main, offscreen_outputs());
    assert!(matches!(r, Err(RenderError::DuplicateTarget(Target::Main))));
    let graph = plan.compile().unwrap();
    assert_eq!(graph.targets.len(), 1);

    let mut next = RenderPlan::new();
    assert!(next.define_pass(Target::Main, offscreen_outputs()).is_ok());
}

#[test]
fn dangling_extension_fails_compilation() {
    let mut plan = RenderPlan::new();
    plan.define_pass(Target::Main, offscreen_outputs()).unwrap();
    plan.extend_target(Target::custom("shadow"), vec![(RenderOrder::Opaque, PassGroup::Custom(1))]);
    match plan.compile() {
        Err(RenderError::UndefinedTarget(t)) => assert_eq!(t, Target::custom("shadow")),
        other => panic!("unexpected outcome: {:?}", other),
    }
}

#[test]
fn extension_before_definition_is_accepted() {
    let mut plan = RenderPlan::new();
    plan.extend_target(Target::custom("shadow"), vec![(RenderOrder::Opaque, PassGroup::Custom(4))]);
    plan.define_pass(Target::custom("shadow"), offscreen_outputs()).unwrap();
    let graph = plan.compile().unwrap();
    assert_eq!(passes_of(&graph, &Target::custom("shadow")), vec![PassGroup::Custom(4)]);
}

#[test]
fn passes_merge_by_render_order() {
    let plugin_a = vec![
        (RenderOrder::Opaque, PassGroup::Custom(0xA)),
        (RenderOrder::Transparent, PassGroup::Custom(0xB)),
    ];
    let plugin_b = vec![(RenderOrder::BeforeTransparent, PassGroup::Custom(0xC))];
    let expected = vec![PassGroup::Custom(0xA), PassGroup::Custom(0xC), PassGroup::Custom(0xB)];

    let mut ab = RenderPlan::new();
    ab.define_pass(Target::Main, offscreen_outputs()).unwrap();
    ab.extend_target(Target::Main, plugin_a.clone());
    ab.extend_target(Target::Main, plugin_b.clone());
    assert_eq!(passes_of(&ab.compile().unwrap(), &Target::Main), expected);

    let mut ba = RenderPlan::new();
    ba.define_pass(Target::Main, offscreen_outputs()).unwrap();
    ba.extend_target(Target::Main, plugin_b);
    ba.extend_target(Target::Main, plugin_a);
    assert_eq!(passes_of(&ba.compile().unwrap(), &Target::Main), expected);
}

#[test]
fn ties_keep_registration_order() {
    let mut plan = RenderPlan::new();
    plan.define_pass(Target::Main, offscreen_outputs()).unwrap();
    plan.extend_target(Target::Main, vec![(RenderOrder::Opaque, PassGroup::Custom(2))]);
    plan.extend_target(Target::Main, vec![(RenderOrder::Opaque, PassGroup::Custom(1))]);
    plan.extend_target(Target::Main, vec![(RenderOrder::BeforeOpaque, PassGroup::Custom(3))]);
    let graph = plan.compile().unwrap();
    assert_eq!(
        passes_of(&graph, &Target::Main),
        vec![PassGroup::Custom(3), PassGroup::Custom(2), PassGroup::Custom(1)]
    );
}

#[test]
fn position_finds_defined_targets_only() {
    let mut plan = RenderPlan::new();
    plan.define_pass(Target::custom("shadow"), offscreen_outputs()).unwrap();
    plan.define_pass(Target::Main, offscreen_outputs()).unwrap();
    let graph = plan.compile().unwrap();
    assert_eq!(graph.position(&Target::Main), Some(1));
    assert_eq!(graph.position(&Target::custom("shadow")), Some(0));
    assert_eq!(graph.position(&Target::custom("light")), None);
}

#[test]
fn roots_are_idempotent() {
    let mut plan = RenderPlan::new();
    plan.add_root(Target::Main);
    plan.add_root(Target::Main);
    plan.add_root(Target::custom("shadow"));
    let graph = plan.compile().unwrap();
    assert_eq!(graph.roots, vec![Target::Main, Target::custom("shadow")]);
}

#[test]
fn window_defines_surface_and_depth() {
    let mut window = RenderToWindow::new().with_clear(Rgba { red: 1, green: 2, blue: 3, alpha: 4 });
    let mut plan = RenderPlan::new();
    window.on_plan(&mut plan, &context(640, 480)).unwrap();
    let graph = plan.compile().unwrap();
    assert_eq!(graph.roots, vec![Target::Main]);
    let main = &graph.targets[0];
    assert_eq!(main.target, Target::Main);
    assert_eq!(
        main.outputs.colors,
        vec![OutputColor::Surface(
            SurfaceId(7),
            Some(ClearValue::Color(Rgba { red: 1, green: 2, blue: 3, alpha: 4 }))
        )]
    );
    let depth = main.outputs.depth.unwrap();
    assert_eq!((depth.kind.width, depth.kind.height), (640, 480));
    assert_eq!((depth.kind.layers, depth.kind.samples, depth.levels), (1, 1, 1));
    assert_eq!(depth.format, Format::D32Sfloat);
    assert_eq!(
        depth.clear,
        Some(ClearValue::DepthStencil { depth: DepthClear::Zero, stencil: 0 })
    );
}

#[test]
fn window_without_surface_fails() {
    let mut window = RenderToWindow::new();
    let mut plan = RenderPlan::new();
    let ctx = FrameContext { dimensions: Some(Dimensions { width: 1, height: 1 }), surface: None };
    assert!(matches!(window.on_plan(&mut plan, &ctx), Err(RenderError::ResourceCreation)));
}

#[test]
fn window_without_dimensions_fails() {
    let mut window = RenderToWindow::new();
    let mut plan = RenderPlan::new();
    let ctx = FrameContext { dimensions: None, surface: Some(SurfaceId(1)) };
    assert!(matches!(window.on_plan(&mut plan, &ctx), Err(RenderError::PluginBuild)));
}

#[test]
fn window_asks_for_rebuild_on_change() {
    let mut window = RenderToWindow::new();
    let dims = Some(Dimensions { width: 800, height: 600 });
    assert!(window.should_rebuild(dims));
    assert!(window.should_rebuild(dims));
    let mut plan = RenderPlan::new();
    window.on_plan(&mut plan, &context(800, 600)).unwrap();
    assert!(!window.should_rebuild(dims));
    assert!(window.should_rebuild(Some(Dimensions { width: 800, height: 601 })));
}

#[test]
fn mesh_plugin_contributes_opaque_and_transparent() {
    let plugin = RenderBase3D::new(Shading::Pbr).with_skinning().with_target(Target::custom("scene"));
    let mut plan = RenderPlan::new();
    plugin.on_plan(&mut plan).unwrap();
    plan.define_pass(Target::custom("scene"), offscreen_outputs()).unwrap();
    let graph = plan.compile().unwrap();
    assert_eq!(
        passes_of(&graph, &Target::custom("scene")),
        vec![
            PassGroup::Mesh3D { shading: Shading::Pbr, skinning: true, transparent: false },
            PassGroup::Mesh3D { shading: Shading::Pbr, skinning: true, transparent: true },
        ]
    );
}

#[test]
fn reference_plugins_interleave_on_main() {
    let sky = Rgb { red: 10, green: 20, blue: 30 };
    let ground = Rgb { red: 1, green: 1, blue: 1 };
    let mut bundle = RenderingBundle::new()
        .with_plugin(RenderPlugin::Window(RenderToWindow::new()))
        .with_plugin(RenderPlugin::Skybox(RenderSkybox::with_colors(ground, sky)))
        .with_plugin(RenderPlugin::DebugLines(RenderDebugLines::new()))
        .with_plugin(RenderPlugin::Flat2D(RenderFlat2D::new()))
        .with_plugin(RenderPlugin::Base3D(RenderBase3D::new(Shading::Flat)));
    assert_eq!(bundle.run_cycle(&context(800, 600)).unwrap(), true);
    let graph = bundle.graph.as_ref().unwrap();
    let colors = Some(render_plan::SkyColors { nadir: ground, zenith: sky });
    assert_eq!(
        passes_of(graph, &Target::Main),
        vec![
            PassGroup::Flat2D { transparent: false },
            PassGroup::Mesh3D { shading: Shading::Flat, skinning: false, transparent: false },
            PassGroup::Skybox { colors },
            PassGroup::DebugLines,
            PassGroup::Flat2D { transparent: true },
            PassGroup::Mesh3D { shading: Shading::Flat, skinning: false, transparent: true },
        ]
    );
}

#[test]
fn build_lists_auxiliary_systems() {
    let bundle = RenderingBundle::new()
        .with_plugin(RenderPlugin::Flat2D(RenderFlat2D::new()))
        .with_plugin(RenderPlugin::DebugLines(RenderDebugLines::new()))
        .with_plugin(RenderPlugin::Base3D(RenderBase3D::new(Shading::Shaded)));
    assert_eq!(
        bundle.on_build(),
        vec![AuxSystem::SpriteVisibilitySorting, AuxSystem::VisibilitySorting]
    );
}

#[test]
fn one_dirty_plugin_replans_all() {
    let mut bundle = RenderingBundle::new()
        .with_plugin(RenderPlugin::Window(RenderToWindow::new()))
        .with_plugin(RenderPlugin::DebugLines(RenderDebugLines::new()))
        .with_plugin(RenderPlugin::Skybox(RenderSkybox::new()));
    let ctx = context(800, 600);
    assert_eq!(bundle.run_cycle(&ctx).unwrap(), true);
    // Nothing changed: the graph is reused.
    assert_eq!(bundle.run_cycle(&ctx).unwrap(), false);
    assert_eq!(bundle.run_cycle(&ctx).unwrap(), false);
    // Only the window reports a change; every plugin plans once more.
    let resized = context(1024, 768);
    assert_eq!(bundle.run_cycle(&resized).unwrap(), true);
    let graph = bundle.graph.as_ref().unwrap();
    assert_eq!(graph.targets.len(), 1);
    assert_eq!(
        passes_of(graph, &Target::Main),
        vec![PassGroup::Skybox { colors: None }, PassGroup::DebugLines]
    );
    assert_eq!(bundle.run_cycle(&resized).unwrap(), false);
}

#[test]
fn resize_resizes_depth_attachment() {
    let mut bundle = RenderingBundle::new().with_plugin(RenderPlugin::Window(RenderToWindow::new()));
    bundle.run_cycle(&context(800, 600)).unwrap();
    let depth = bundle.graph.as_ref().unwrap().targets[0].outputs.depth.unwrap();
    assert_eq!((depth.kind.width, depth.kind.height), (800, 600));
    assert_eq!(bundle.run_cycle(&context(1024, 768)).unwrap(), true);
    let depth = bundle.graph.as_ref().unwrap().targets[0].outputs.depth.unwrap();
    assert_eq!((depth.kind.width, depth.kind.height), (1024, 768));
}

#[test]
fn failed_rebuild_keeps_previous_graph() {
    let mut bundle = RenderingBundle::new()
        .with_plugin(RenderPlugin::Window(RenderToWindow::new()))
        .with_plugin(RenderPlugin::Flat2D(RenderFlat2D::new().with_target(Target::custom("hud"))));
    assert!(matches!(bundle.run_cycle(&context(800, 600)), Err(RenderError::UndefinedTarget(_))));
    assert!(bundle.graph.is_none());

    let mut good = RenderingBundle::new().with_plugin(RenderPlugin::Window(RenderToWindow::new()));
    good.run_cycle(&context(800, 600)).unwrap();
    let lost_surface = FrameContext { dimensions: Some(Dimensions { width: 5, height: 5 }), surface: None };
    assert!(matches!(good.run_cycle(&lost_surface), Err(RenderError::ResourceCreation)));
    let depth = good.graph.as_ref().unwrap().targets[0].outputs.depth.unwrap();
    assert_eq!((depth.kind.width, depth.kind.height), (800, 600));
}

#[test]
fn window_with_custom_target_presents_it() {
    let mut window = RenderToWindow::new().with_target(Target::custom("final"));
    let mut plan = RenderPlan::new();
    window.on_plan(&mut plan, &context(2, 3)).unwrap();
    let graph = plan.compile().unwrap();
    assert_eq!(graph.roots, vec![Target::Main]);
    assert_eq!(graph.targets[0].target, Target::custom("final"));
}

#[test]
fn builders_route_passes_to_their_targets() {
    let mut plan = RenderPlan::new();
    RenderSkybox::new().with_target(Target::custom("sky")).on_plan(&mut plan).unwrap();
    RenderDebugLines::new().with_target(Target::custom("debug")).on_plan(&mut plan).unwrap();
    RenderFlat2D::new().with_target(Target::custom("debug")).on_plan(&mut plan).unwrap();
    plan.define_pass(Target::custom("debug"), offscreen_outputs()).unwrap();
    plan.define_pass(Target::custom("sky"), offscreen_outputs()).unwrap();
    let graph = plan.compile().unwrap();
    assert_eq!(passes_of(&graph, &Target::custom("sky")), vec![PassGroup::Skybox { colors: None }]);
    assert_eq!(
        passes_of(&graph, &Target::custom("debug")),
        vec![
            PassGroup::Flat2D { transparent: false },
            PassGroup::DebugLines,
            PassGroup::Flat2D { transparent: true },
        ]
    );
}
