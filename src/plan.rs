use vstd::prelude::*;

use crate::error::{RenderError, RenderErrorView};
use crate::outputs::{OutputsView, TargetPlanOutputs};
use crate::pass::PassGroup;
use crate::target::{RenderOrder, Target, TargetName, ORDER_COUNT};

verus! {

/// One pass group contributed to a target at a render order.
#[derive(Debug)]
pub struct Extension {
    pub target: Target,
    pub order: RenderOrder,
    pub group: PassGroup,
}

/// What an `Extension` holds.
pub type ExtView = (TargetName, RenderOrder, PassGroup);

impl View for Extension {
    type V = ExtView;

    open spec fn view(&self) -> ExtView {
        (self.target@, self.order, self.group)
    }
}

/// The build-time aggregate that plugins fill during one rebuild cycle.
#[derive(Debug)]
pub struct RenderPlan {
    roots: Vec<Target>,
    defs: Vec<(Target, TargetPlanOutputs)>,
    exts: Vec<Extension>,
}

/// What a plan holds: its roots without repetition, its target definitions in
/// the order they were made, and every contributed pass in registration order.
pub struct PlanView {
    pub roots: Seq<TargetName>,
    pub defs: Seq<(TargetName, OutputsView)>,
    pub exts: Seq<ExtView>,
}

pub open spec fn roots_view(roots: Seq<Target>) -> Seq<TargetName> {
    roots.map_values(|t: Target| t@)
}

pub open spec fn defs_view(defs: Seq<(Target, TargetPlanOutputs)>) -> Seq<(TargetName, OutputsView)> {
    defs.map_values(|d: (Target, TargetPlanOutputs)| (d.0@, d.1@))
}

pub open spec fn exts_view(exts: Seq<Extension>) -> Seq<ExtView> {
    exts.map_values(|e: Extension| e@)
}

impl View for RenderPlan {
    type V = PlanView;

    closed spec fn view(&self) -> PlanView {
        PlanView {
            roots: roots_view(self.roots@),
            defs: defs_view(self.defs@),
            exts: exts_view(self.exts@),
        }
    }
}

/// The plan that a rebuild cycle starts from.
pub open spec fn empty_plan() -> PlanView {
    PlanView { roots: Seq::empty(), defs: Seq::empty(), exts: Seq::empty() }
}

/// Whether `t` has outputs among `defs`.
pub open spec fn is_defined(defs: Seq<(TargetName, OutputsView)>, t: TargetName) -> bool {
    exists|i: int| 0 <= i < defs.len() && (#[trigger] defs[i]).0 == t
}

/// Every target is a root at most once.
pub open spec fn roots_distinct(roots: Seq<TargetName>) -> bool {
    forall|i: int, j: int| 0 <= i < j < roots.len() ==> roots[i] != roots[j]
}

/// Every target is defined at most once.
pub open spec fn defs_distinct(defs: Seq<(TargetName, OutputsView)>) -> bool {
    forall|i: int, j: int| 0 <= i < j < defs.len() ==> defs[i].0 != defs[j].0
}

impl PlanView {
    pub open spec fn wf(self) -> bool {
        roots_distinct(self.roots) && defs_distinct(self.defs)
    }
}

/// The plan after `t` is marked as a root.
pub open spec fn add_root_step(v: PlanView, t: TargetName) -> PlanView {
    if v.roots.contains(t) {
        v
    } else {
        PlanView { roots: v.roots.push(t), ..v }
    }
}

/// The plan after the outputs `o` are defined for `t`, or the error.
pub open spec fn define_step(v: PlanView, t: TargetName, o: OutputsView) -> Result<PlanView, RenderErrorView> {
    if is_defined(v.defs, t) {
        Err(RenderErrorView::DuplicateTarget(t))
    } else {
        Ok(PlanView { defs: v.defs.push((t, o)), ..v })
    }
}

/// The plan after the pass groups `passes` are contributed to `t`.
pub open spec fn extend_step(v: PlanView, t: TargetName, passes: Seq<(RenderOrder, PassGroup)>) -> PlanView {
    PlanView {
        exts: v.exts + passes.map_values(|p: (RenderOrder, PassGroup)| (t, p.0, p.1)),
        ..v
    }
}

/// The groups contributed to `t` at the order of rank `r`, in registration order.
pub open spec fn select(exts: Seq<ExtView>, t: TargetName, r: u8) -> Seq<PassGroup>
    decreases exts.len(),
{
    if exts.len() == 0 {
        Seq::empty()
    } else {
        let e = exts.last();
        let before = select(exts.drop_last(), t, r);
        if e.0 == t && e.1.rank() == r {
            before.push(e.2)
        } else {
            before
        }
    }
}

/// The groups contributed to `t` at orders of rank below `k`, ordered by rank
/// and, within one rank, by registration.
pub open spec fn ordered_upto(exts: Seq<ExtView>, t: TargetName, k: nat) -> Seq<PassGroup>
    decreases k,
{
    if k == 0 {
        Seq::empty()
    } else {
        ordered_upto(exts, t, (k - 1) as nat) + select(exts, t, (k - 1) as u8)
    }
}

/// The final pass sequence of `t`: sorted by render order, stable on
/// registration order.
pub open spec fn ordered_passes(exts: Seq<ExtView>, t: TargetName) -> Seq<PassGroup> {
    ordered_upto(exts, t, ORDER_COUNT as nat)
}

/// The target of the first contribution whose target has no outputs.
pub open spec fn first_undefined(defs: Seq<(TargetName, OutputsView)>, exts: Seq<ExtView>) -> Option<TargetName>
    decreases exts.len(),
{
    if exts.len() == 0 {
        None
    } else {
        match first_undefined(defs, exts.drop_last()) {
            Some(t) => Some(t),
            None => if is_defined(defs, exts.last().0) {
                None
            } else {
                Some(exts.last().0)
            },
        }
    }
}

/// Once a prefix of `exts` holds a contribution to an undefined target, the
/// first such contribution stays the first as more are added.
proof fn lemma_first_undefined_prefix(defs: Seq<(TargetName, OutputsView)>, exts: Seq<ExtView>, k: int)
    requires
        0 <= k <= exts.len(),
        first_undefined(defs, exts.take(k)) is Some,
    ensures
        first_undefined(defs, exts) == first_undefined(defs, exts.take(k)),
    decreases exts.len(),
{
    if k < exts.len() {
        assert(exts.drop_last().take(k) =~= exts.take(k));
        lemma_first_undefined_prefix(defs, exts.drop_last(), k);
    } else {
        assert(exts.take(k) =~= exts);
    }
}

/// A compiled target: its outputs and its ordered passes.
#[derive(Debug)]
pub struct CompiledTarget {
    pub target: Target,
    pub outputs: TargetPlanOutputs,
    pub passes: Vec<PassGroup>,
}

/// The validated, ordered structure that a plan compiles into.
#[derive(Debug)]
pub struct CompiledGraph {
    pub roots: Vec<Target>,
    pub targets: Vec<CompiledTarget>,
}

/// What a compiled graph holds: its roots, and each defined target, in the
/// order of definition, with its outputs and ordered passes.
pub struct GraphView {
    pub roots: Seq<TargetName>,
    pub targets: Seq<(TargetName, OutputsView, Seq<PassGroup>)>,
}

pub open spec fn compiled_target_view(c: CompiledTarget) -> (TargetName, OutputsView, Seq<PassGroup>) {
    (c.target@, c.outputs@, c.passes@)
}

impl View for CompiledGraph {
    type V = GraphView;

    open spec fn view(&self) -> GraphView {
        GraphView {
            roots: roots_view(self.roots@),
            targets: self.targets@.map_values(|c: CompiledTarget| compiled_target_view(c)),
        }
    }
}

impl CompiledGraph {
    /// Where `target` stands among the compiled targets, if it was defined.
    pub fn position(&self, target: &Target) -> (r: Option<usize>)
        ensures
            match r {
                Some(i) => i < self@.targets.len() && self@.targets[i as int].0 == target@,
                None => forall|i: int| 0 <= i < self@.targets.len() ==> (#[trigger] self@.targets[i]).0 != target@,
            },
    {
        let mut i: usize = 0;
        while i < self.targets.len()
            invariant
                i <= self.targets.len(),
                forall|j: int| 0 <= j < i ==> (#[trigger] self@.targets[j]).0 != target@,
            decreases self.targets.len() - i,
        {
            if self.targets[i].target.same_as(target) {
                return Some(i);
            }
            i += 1;
        }
        None
    }
}

pub open spec fn assemble_targets(defs: Seq<(TargetName, OutputsView)>, exts: Seq<ExtView>) -> Seq<(TargetName, OutputsView, Seq<PassGroup>)> {
    defs.map_values(|d: (TargetName, OutputsView)| (d.0, d.1, ordered_passes(exts, d.0)))
}

/// What compiling the plan `v` gives.
pub open spec fn compile_view(v: PlanView) -> Result<GraphView, RenderErrorView> {
    match first_undefined(v.defs, v.exts) {
        Some(t) => Err(RenderErrorView::UndefinedTarget(t)),
        None => Ok(GraphView { roots: v.roots, targets: assemble_targets(v.defs, v.exts) }),
    }
}

/// Whether `t` has outputs among `defs`.
fn defined_in(defs: &Vec<(Target, TargetPlanOutputs)>, t: &Target) -> (r: bool)
    ensures
        r == is_defined(defs_view(defs@), t@),
{
    let ghost dv = defs_view(defs@);
    let mut i: usize = 0;
    while i < defs.len()
        invariant
            i <= defs.len(),
            dv == defs_view(defs@),
            forall|j: int| 0 <= j < i ==> (#[trigger] dv[j]).0 != t@,
        decreases defs.len() - i,
    {
        if defs[i].0.same_as(t) {
            assert(dv[i as int].0 == t@);
            return true;
        }
        i += 1;
    }
    false
}

/// The pass groups contributed to `t`, ordered by render order, then by
/// registration.
fn passes_for(exts: &Vec<Extension>, t: &Target) -> (r: Vec<PassGroup>)
    ensures
        r@ == ordered_passes(exts_view(exts@), t@),
{
    let ghost ev = exts_view(exts@);
    let mut r: Vec<PassGroup> = Vec::new();
    let mut k: u8 = 0;
    while k < ORDER_COUNT
        invariant
            k <= ORDER_COUNT,
            ev == exts_view(exts@),
            r@ == ordered_upto(ev, t@, k as nat),
        decreases ORDER_COUNT - k,
    {
        let ghost before = r@;
        let mut i: usize = 0;
        while i < exts.len()
            invariant
                i <= exts.len(),
                k < ORDER_COUNT,
                ev == exts_view(exts@),
                r@ == before + select(ev.take(i as int), t@, k),
            decreases exts.len() - i,
        {
            assert(ev.take(i as int + 1).drop_last() =~= ev.take(i as int));
            if exts[i].order.rank() == k && exts[i].target.same_as(t) {
                r.push(exts[i].group);
                assert(r@ =~= before + select(ev.take(i as int + 1), t@, k));
            }
            i += 1;
        }
        assert(ev.take(exts.len() as int) =~= ev);
        k += 1;
    }
    r
}

impl RenderPlan {
    /// A plan with no roots, definitions or contributions.
    pub fn new() -> (r: RenderPlan)
        ensures
            r@ == empty_plan(),
    {
        let r = RenderPlan { roots: Vec::new(), defs: Vec::new(), exts: Vec::new() };
        assert(r@.roots =~= Seq::<TargetName>::empty());
        assert(r@.defs =~= Seq::<(TargetName, OutputsView)>::empty());
        assert(r@.exts =~= Seq::<ExtView>::empty());
        r
    }

    /// Marks `target` as a final output. Marking it again changes nothing.
    pub fn add_root(&mut self, target: Target)
        ensures
            final(self)@ == add_root_step(old(self)@, target@),
    {
        let ghost rv = roots_view(self.roots@);
        let mut i: usize = 0;
        while i < self.roots.len()
            invariant
                i <= self.roots.len(),
                self.roots == old(self).roots,
                self.defs == old(self).defs,
                self.exts == old(self).exts,
                rv == roots_view(self.roots@),
                forall|j: int| 0 <= j < i ==> rv[j] != target@,
            decreases self.roots.len() - i,
        {
            if self.roots[i].same_as(&target) {
                assert(rv[i as int] == target@);
                assert(rv.contains(target@));
                return;
            }
            i += 1;
        }
        assert(!rv.contains(target@));
        self.roots.push(target);
        assert(roots_view(self.roots@) =~= rv.push(target@));
    }

    /// Defines the outputs of `target`; fails with `DuplicateTarget` when the
    /// plan already defines it, and then changes nothing.
    pub fn define_pass(&mut self, target: Target, outputs: TargetPlanOutputs) -> (r: Result<(), RenderError>)
        ensures
            match define_step(old(self)@, target@, outputs@) {
                Ok(v) => r is Ok && final(self)@ == v,
                Err(e) => r is Err && r->Err_0@ == e && final(self)@ == old(self)@,
            },
    {
        if defined_in(&self.defs, &target) {
            return Err(RenderError::DuplicateTarget(target));
        }
        let ghost dv = defs_view(self.defs@);
        let ghost entry = (target@, outputs@);
        self.defs.push((target, outputs));
        assert(defs_view(self.defs@) =~= dv.push(entry));
        Ok(())
    }

    /// Contributes `passes` to `target`, each at its render order. The target
    /// need not be defined yet: that is checked when the plan is compiled.
    pub fn extend_target(&mut self, target: Target, passes: Vec<(RenderOrder, PassGroup)>)
        ensures
            final(self)@ == extend_step(old(self)@, target@, passes@),
    {
        let ghost ev = exts_view(self.exts@);
        let ghost added = passes@.map_values(|p: (RenderOrder, PassGroup)| (target@, p.0, p.1));
        let mut i: usize = 0;
        while i < passes.len()
            invariant
                i <= passes.len(),
                self.roots == old(self).roots,
                self.defs == old(self).defs,
                ev == exts_view(old(self).exts@),
                added == passes@.map_values(|p: (RenderOrder, PassGroup)| (target@, p.0, p.1)),
                exts_view(self.exts@) == ev + added.take(i as int),
            decreases passes.len() - i,
        {
            let (order, group) = passes[i];
            let e = Extension { target: target.clone(), order, group };
            assert(e@ == added[i as int]);
            let ghost before = self.exts@;
            self.exts.push(e);
            assert(exts_view(self.exts@) =~= exts_view(before).push(e@));
            assert(exts_view(self.exts@) =~= ev + added.take(i as int + 1));
            i += 1;
        }
        assert(added.take(passes.len() as int) =~= added);
    }

    /// Validates the plan and builds the graph: every target that received
    /// passes must be defined, else this fails with `UndefinedTarget` naming
    /// the first such contribution's target.
    pub fn compile(self) -> (r: Result<CompiledGraph, RenderError>)
        ensures
            match compile_view(self@) {
                Ok(g) => r is Ok && r->Ok_0@ == g,
                Err(e) => r is Err && r->Err_0@ == e,
            },
    {
        let ghost v = self@;
        let mut i: usize = 0;
        while i < self.exts.len()
            invariant
                i <= self.exts.len(),
                v.defs == defs_view(self.defs@),
                v.exts == exts_view(self.exts@),
                first_undefined(v.defs, v.exts.take(i as int)) is None,
            decreases self.exts.len() - i,
        {
            assert(v.exts.take(i as int + 1).drop_last() =~= v.exts.take(i as int));
            if !defined_in(&self.defs, &self.exts[i].target) {
                proof {
                    assert(v.exts.take(i as int + 1).last() == v.exts[i as int]);
                    assert(first_undefined(v.defs, v.exts.take(i as int + 1)) == Some(v.exts[i as int].0));
                    lemma_first_undefined_prefix(v.defs, v.exts, i as int + 1);
                }
                let t = self.exts[i].target.clone();
                assert(t@ == v.exts[i as int].0);
                return Err(RenderError::UndefinedTarget(t));
            }
            i += 1;
        }
        assert(v.exts.take(self.exts.len() as int) =~= v.exts);

        let RenderPlan { roots, defs, exts } = self;
        let ghost all = assemble_targets(v.defs, v.exts);
        let ghost n = defs.len();
        let mut rest = defs;
        let mut targets: Vec<CompiledTarget> = Vec::new();
        while rest.len() > 0
            invariant
                v.exts == exts_view(exts@),
                n == v.defs.len(),
                all == assemble_targets(v.defs, v.exts),
                rest.len() <= n,
                defs_view(rest@) == v.defs.skip(n - rest.len()),
                targets@.map_values(|c: CompiledTarget| compiled_target_view(c)) == all.take(n - rest.len()),
            decreases rest.len(),
        {
            let ghost k = n - rest.len();
            let ghost tv = targets@.map_values(|c: CompiledTarget| compiled_target_view(c));
            assert(defs_view(rest@)[0] == v.defs[k]);
            let ghost old_rest = rest@;
            let (target, outputs) = rest.remove(0);
            assert(defs_view(rest@) =~= defs_view(old_rest).skip(1));
            assert(v.defs.skip(k).skip(1) =~= v.defs.skip(k + 1));
            let passes = passes_for(&exts, &target);
            let c = CompiledTarget { target, outputs, passes };
            targets.push(c);
            assert(targets@.map_values(|c: CompiledTarget| compiled_target_view(c)) =~= tv.push(compiled_target_view(c)));
            assert(all.take(n - rest.len()) =~= all.take(k).push(all[k]));
        }
        assert(all.take(n as int) =~= all);
        let g = CompiledGraph { roots, targets };
        assert(g@.targets =~= all);
        Ok(g)
    }
}

/// Where the first dangling contribution of `a + b` lies: in `a` if `a` has
/// one, else in `b`.
proof fn lemma_first_undefined_concat(defs: Seq<(TargetName, OutputsView)>, a: Seq<ExtView>, b: Seq<ExtView>)
    ensures
        first_undefined(defs, a + b) == match first_undefined(defs, a) {
            Some(t) => Some(t),
            None => first_undefined(defs, b),
        },
    decreases b.len(),
{
    if b.len() == 0 {
        assert(a + b =~= a);
    } else {
        assert((a + b).drop_last() =~= a + b.drop_last());
        lemma_first_undefined_concat(defs, a, b.drop_last());
    }
}

/// Contributions to one undefined target: the first is dangling.
proof fn lemma_first_undefined_uniform(defs: Seq<(TargetName, OutputsView)>, s: Seq<ExtView>, t: TargetName)
    requires
        s.len() > 0,
        !is_defined(defs, t),
        forall|i: int| 0 <= i < s.len() ==> (#[trigger] s[i]).0 == t,
    ensures
        first_undefined(defs, s) == Some(t),
    decreases s.len(),
{
    assert(s[s.len() - 1].0 == t);
    if s.len() > 1 {
        lemma_first_undefined_uniform(defs, s.drop_last(), t);
    } else {
        assert(first_undefined(defs, s.drop_last()) is None);
    }
}

/// Passes of one rank keep their registration order across concatenation.
pub proof fn lemma_select_concat(a: Seq<ExtView>, b: Seq<ExtView>, t: TargetName, r: u8)
    ensures
        select(a + b, t, r) == select(a, t, r) + select(b, t, r),
    decreases b.len(),
{
    if b.len() == 0 {
        assert(a + b =~= a);
        assert(select(a, t, r) + select(b, t, r) =~= select(a, t, r));
    } else {
        assert((a + b).drop_last() =~= a + b.drop_last());
        assert((a + b).last() == b.last());
        lemma_select_concat(a, b.drop_last(), t, r);
        assert(select(a, t, r) + select(b.drop_last(), t, r).push(b.last().2)
            =~= (select(a, t, r) + select(b.drop_last(), t, r)).push(b.last().2));
    }
}

/// A pass selected for `t` at rank `r` comes from a contribution to `t` at
/// an order of that rank.
proof fn lemma_select_nonempty(s: Seq<ExtView>, t: TargetName, r: u8)
    requires
        select(s, t, r).len() > 0,
    ensures
        exists|i: int| 0 <= i < s.len() && (#[trigger] s[i]).0 == t && s[i].1.rank() == r,
    decreases s.len(),
{
    let e = s.last();
    if !(e.0 == t && e.1.rank() == r) {
        lemma_select_nonempty(s.drop_last(), t, r);
        let i = choose|i: int| 0 <= i < s.drop_last().len() && (#[trigger] s.drop_last()[i]).0 == t && s.drop_last()[i].1.rank() == r;
        assert(s[i] == s.drop_last()[i]);
    } else {
        assert(s[s.len() - 1] == e);
    }
}

/// Determinism: compiling two plans with the same definitions and the same
/// contributions, made in the same order, gives the same outcome and the
/// same pass order for every target.
pub proof fn lemma_compile_deterministic(v1: PlanView, v2: PlanView)
    requires
        v1.defs == v2.defs,
        v1.exts == v2.exts,
    ensures
        compile_view(v1) is Ok <==> compile_view(v2) is Ok,
        compile_view(v1) is Err ==> compile_view(v1) == compile_view(v2),
        compile_view(v1) is Ok ==> compile_view(v1)->Ok_0.targets == compile_view(v2)->Ok_0.targets,
        forall|t: TargetName| ordered_passes(v1.exts, t) == ordered_passes(v2.exts, t),
{
}

/// A target's outputs can be defined once per plan: a second definition of
/// it fails with `DuplicateTarget`, while a fresh plan accepts a definition.
pub proof fn lemma_duplicate_definition_rejected(v: PlanView, t: TargetName, first: OutputsView, second: OutputsView)
    ensures
        define_step(v, t, first) is Ok ==> define_step(define_step(v, t, first)->Ok_0, t, second)
            == Err::<PlanView, RenderErrorView>(RenderErrorView::DuplicateTarget(t)),
        define_step(empty_plan(), t, second) is Ok,
{
    if define_step(v, t, first) is Ok {
        let w = define_step(v, t, first)->Ok_0;
        assert(w.defs[w.defs.len() - 1].0 == t);
    }
}

/// Contributing passes to a target that no definition names makes the plan
/// fail to compile; when the plan had no dangling contribution before, the
/// error names that target.
pub proof fn lemma_dangling_reference_rejected(v: PlanView, t: TargetName, passes: Seq<(RenderOrder, PassGroup)>)
    requires
        !is_defined(v.defs, t),
        passes.len() > 0,
    ensures
        compile_view(extend_step(v, t, passes)) is Err,
        first_undefined(v.defs, v.exts) is None ==> compile_view(extend_step(v, t, passes))
            == Err::<GraphView, RenderErrorView>(RenderErrorView::UndefinedTarget(t)),
{
    let added = passes.map_values(|p: (RenderOrder, PassGroup)| (t, p.0, p.1));
    assert forall|i: int| 0 <= i < added.len() implies (#[trigger] added[i]).0 == t by {}
    lemma_first_undefined_uniform(v.defs, added, t);
    lemma_first_undefined_concat(v.defs, v.exts, added);
}

/// Order merge: when two plugins never contribute to `t` at the same render
/// order, their passes for `t` come out in the same order whichever of the
/// two registers first.
pub proof fn lemma_order_merge(before: Seq<ExtView>, a: Seq<ExtView>, b: Seq<ExtView>, t: TargetName)
    requires
        forall|i: int, j: int|
            0 <= i < a.len() && 0 <= j < b.len() && (#[trigger] a[i]).0 == t && (#[trigger] b[j]).0 == t
                ==> a[i].1 != b[j].1,
    ensures
        ordered_passes(before + a + b, t) == ordered_passes(before + b + a, t),
{
    lemma_order_merge_upto(before, a, b, t, ORDER_COUNT as nat);
}

proof fn lemma_order_merge_upto(before: Seq<ExtView>, a: Seq<ExtView>, b: Seq<ExtView>, t: TargetName, k: nat)
    requires
        k <= ORDER_COUNT,
        forall|i: int, j: int|
            0 <= i < a.len() && 0 <= j < b.len() && (#[trigger] a[i]).0 == t && (#[trigger] b[j]).0 == t
                ==> a[i].1 != b[j].1,
    ensures
        ordered_upto(before + a + b, t, k) == ordered_upto(before + b + a, t, k),
    decreases k,
{
    if k > 0 {
        let r = (k - 1) as u8;
        lemma_order_merge_upto(before, a, b, t, (k - 1) as nat);
        lemma_select_concat(before + a, b, t, r);
        lemma_select_concat(before, a, t, r);
        lemma_select_concat(before + b, a, t, r);
        lemma_select_concat(before, b, t, r);
        let sa = select(a, t, r);
        let sb = select(b, t, r);
        if sa.len() > 0 && sb.len() > 0 {
            lemma_select_nonempty(a, t, r);
            lemma_select_nonempty(b, t, r);
            let i = choose|i: int| 0 <= i < a.len() && (#[trigger] a[i]).0 == t && a[i].1.rank() == r;
            let j = choose|j: int| 0 <= j < b.len() && (#[trigger] b[j]).0 == t && b[j].1.rank() == r;
            assert(a[i].1 != b[j].1);
        } else if sa.len() == 0 {
            assert(sa =~= Seq::<PassGroup>::empty());
            assert(select(before, t, r) + sa + sb =~= select(before, t, r) + sb + sa);
        } else {
            assert(sb =~= Seq::<PassGroup>::empty());
            assert(select(before, t, r) + sa + sb =~= select(before, t, r) + sb + sa);
        }
    }
}

} // verus!
