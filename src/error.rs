use vstd::prelude::*;

use crate::target::{Target, TargetName};

verus! {

/// Why building a frame graph failed.
#[derive(Debug)]
pub enum RenderError {
    /// A target's outputs were defined twice in one plan.
    DuplicateTarget(Target),
    /// Passes were contributed to a target whose outputs were never defined.
    UndefinedTarget(Target),
    /// The graphics factory could not create a surface or another resource.
    ResourceCreation,
    /// A plugin could not make its contribution.
    PluginBuild,
}

/// What a `RenderError` denotes.
pub enum RenderErrorView {
    DuplicateTarget(TargetName),
    UndefinedTarget(TargetName),
    ResourceCreation,
    PluginBuild,
}

impl View for RenderError {
    type V = RenderErrorView;

    open spec fn view(&self) -> RenderErrorView {
        match self {
            RenderError::DuplicateTarget(t) => RenderErrorView::DuplicateTarget(t@),
            RenderError::UndefinedTarget(t) => RenderErrorView::UndefinedTarget(t@),
            RenderError::ResourceCreation => RenderErrorView::ResourceCreation,
            RenderError::PluginBuild => RenderErrorView::PluginBuild,
        }
    }
}

} // verus!
