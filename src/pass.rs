use vstd::prelude::*;

use crate::outputs::Rgb;

verus! {

/// Colors of a skybox at its lowest and at its highest point.
#[derive(Debug, Clone, Copy, PartialEq, Eq, Structural)]
pub struct SkyColors {
    pub nadir: Rgb,
    pub zenith: Rgb,
}

/// Shading method of forward 3D mesh rendering.
#[derive(Debug, Clone, Copy, PartialEq, Eq, Structural)]
pub enum Shading {
    Flat,
    Shaded,
    Pbr,
}

/// A deferred description of one renderable pass group. A plan stores and
/// orders these without looking inside them.
#[derive(Debug, Clone, Copy, PartialEq, Eq, Structural)]
pub enum PassGroup {
    /// 3D meshes, the opaque or the transparent ones.
    Mesh3D { shading: Shading, skinning: bool, transparent: bool },
    /// 2D sprites, the opaque or the transparent ones.
    Flat2D { transparent: bool },
    /// Debug lines.
    DebugLines,
    /// A skybox, with its nadir and zenith colors if chosen.
    Skybox { colors: Option<SkyColors> },
    /// A pass group supplied by the application, known by its id.
    Custom(u64),
}

} // verus!
