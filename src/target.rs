use vstd::prelude::*;

verus! {

/// A named render destination: the distinguished main target, or an
/// offscreen target identified by its name.
#[derive(Debug)]
pub enum Target {
    Main,
    Custom(String),
}

/// What a `Target` denotes: its variant, and the characters of its name.
pub enum TargetName {
    Main,
    Custom(Seq<char>),
}

impl View for Target {
    type V = TargetName;

    open spec fn view(&self) -> TargetName {
        match self {
            Target::Main => TargetName::Main,
            Target::Custom(s) => TargetName::Custom(s@),
        }
    }
}

impl Target {
    /// A custom target named by `name`.
    pub fn custom(name: &str) -> (r: Target)
        ensures
            r@ == TargetName::Custom(name@),
    {
        Target::Custom(name.to_owned())
    }

    /// Whether both values name the same target.
    pub fn same_as(&self, other: &Target) -> (r: bool)
        ensures
            r == (self@ == other@),
    {
        match (self, other) {
            (Target::Main, Target::Main) => true,
            (Target::Custom(a), Target::Custom(b)) => a.eq(b),
            _ => false,
        }
    }
}

impl Clone for Target {
    fn clone(&self) -> (r: Self)
        ensures
            r@ == self@,
    {
        match self {
            Target::Main => Target::Main,
            Target::Custom(s) => Target::Custom(s.clone()),
        }
    }
}

impl PartialEq for Target {
    fn eq(&self, other: &Target) -> (r: bool) {
        self.same_as(other)
    }
}

impl vstd::std_specs::cmp::PartialEqSpecImpl for Target {
    open spec fn obeys_eq_spec() -> bool {
        true
    }

    open spec fn eq_spec(&self, other: &Target) -> bool {
        self@ == other@
    }
}

impl Eq for Target {}

impl Default for Target {
    fn default() -> (r: Self)
        ensures
            r@ == TargetName::Main,
    {
        Target::Main
    }
}

/// The number of distinct `RenderOrder` values.
pub const ORDER_COUNT: u8 = 6;

/// Relative position of a pass within the passes of one target.
#[derive(Debug, Clone, Copy, PartialEq, Eq, Structural, PartialOrd, Ord, Hash)]
pub enum RenderOrder {
    BeforeOpaque,
    Opaque,
    AfterOpaque,
    BeforeTransparent,
    Transparent,
    AfterTransparent,
}

impl RenderOrder {
    /// Position of this order in the total order of render orders.
    pub open spec fn spec_rank(self) -> u8 {
        match self {
            RenderOrder::BeforeOpaque => 0,
            RenderOrder::Opaque => 1,
            RenderOrder::AfterOpaque => 2,
            RenderOrder::BeforeTransparent => 3,
            RenderOrder::Transparent => 4,
            RenderOrder::AfterTransparent => 5,
        }
    }

    #[verifier::when_used_as_spec(spec_rank)]
    pub fn rank(self) -> (r: u8)
        ensures
            r == self.spec_rank(),
            r < ORDER_COUNT,
    {
        match self {
            RenderOrder::BeforeOpaque => 0,
            RenderOrder::Opaque => 1,
            RenderOrder::AfterOpaque => 2,
            RenderOrder::BeforeTransparent => 3,
            RenderOrder::Transparent => 4,
            RenderOrder::AfterTransparent => 5,
        }
    }
}

} // verus!
