//! The library's global guarantees, stated and proved over the traversal
//! specification: stack balance, inertness of skipped nodes, the behaviour
//! of unresolved references, and determinism.

use vstd::prelude::*;
use crate::doc::{Doc, Tag};
use crate::traverse::{
    Config,
    EventV,
    Fatal,
    RunV,
    StateV,
    lemma_balance_roots,
    n_pop,
    n_push,
    spec_apply_enter,
    spec_apply_exit,
    spec_enter_out,
    spec_initial_active,
    spec_initial_state,
    spec_relaxed_renders,
    spec_should_render,
    spec_traverse,
    spec_use_target,
    spec_visit_relaxed,
    spec_visit_strict,
};
use crate::viewport::spec_top_or_unit;

verus! {

/// Stack balance over a full traversal: in every run that completes, the
/// number of transform pushes handed to the sink equals the number of pops.
/// (The finer statement — every stack is restored exactly across each
/// subtree, viewport pushes matching pops on establishing elements alone —
/// is [`lemma_balance_roots`] and its companions.)
pub proof fn lemma_stack_balance(doc: Doc, cfg: Config)
    ensures
        spec_traverse(doc, cfg) matches Ok(run) ==> n_push(run.events) == n_pop(run.events),
{
    let active = spec_initial_active(doc.nodes.len() as nat);
    let sv = spec_initial_state();
    lemma_balance_roots(doc, cfg, 0, active, sv);
    assert(n_push(Seq::<EventV>::empty()) == 0);
    assert(n_pop(Seq::<EventV>::empty()) == 0);
}

/// A node that the strict walker does not render — a non-element, a hidden
/// element, or one of the three definition kinds (definitions container,
/// marker, symbol) — contributes nothing at all: no enter or exit, no
/// events, no diagnostics, no recursion into its subtree. A definition
/// kind therefore produces geometry only when reached through a reference,
/// where the relaxed walker applies instead.
pub proof fn lemma_skipped_node_inert(doc: Doc, cfg: Config, i: int, active: Seq<bool>, sv: StateV)
    requires
        0 <= i < doc.nodes.len(),
        !spec_should_render(doc.nodes[i]),
    ensures
        spec_visit_strict(doc, cfg, i, active, sv) == (Ok::<(), Fatal>(()), sv),
{
}

/// A hidden element is skipped by the relaxed walker too: even a reference
/// cannot make a hidden subtree render.
pub proof fn lemma_hidden_inert_relaxed(doc: Doc, cfg: Config, i: int, active: Seq<bool>, sv: StateV)
    requires
        0 <= i < doc.nodes.len(),
        !spec_relaxed_renders(doc.nodes[i]),
    ensures
        spec_visit_relaxed(doc, cfg, i, active, sv) == (Ok::<(), Fatal>(()), sv),
{
}

/// A reference element never draws geometry of its own.
proof fn lemma_use_draws_nothing(doc: Doc, cfg: Config, i: usize, dims: (i64, i64))
    requires
        i < doc.nodes.len(),
        doc.nodes[i as int].tag == Tag::Use,
    ensures
        spec_enter_out(doc.nodes[i as int], cfg, i, dims) matches Ok(o) ==> o.draw is None,
{
    reveal(spec_enter_out);
}

/// A rendered (in particular, not style-hidden) reference element whose
/// reference resolves to nothing, and which has no literal children,
/// yields zero geometry and zero descent, and raises no fatal error: the
/// walk enters it, annotates it, and exits — nothing more. The visibility
/// premise is necessary: a hidden reference element is skipped outright
/// ([`lemma_skipped_node_inert`]); and a reference element with literal
/// children recurses into those children with the strict filter, so only
/// the childless case is descent-free.
pub proof fn lemma_unresolved_reference(
    doc: Doc,
    cfg: Config,
    i: int,
    active: Seq<bool>,
    sv: StateV,
)
    requires
        0 <= i < doc.nodes.len(),
        active.len() == doc.nodes.len(),
        doc.nodes[i].tag == Tag::Use,
        spec_should_render(doc.nodes[i]),
        spec_use_target(doc, doc.nodes[i]) is None,
        doc.nodes[i].children@.len() == 0,
    ensures
        spec_enter_out(doc.nodes[i], cfg, i as usize, spec_top_or_unit(sv.vstack)) matches Ok(o)
            ==> ({
            let step = spec_visit_strict(doc, cfg, i, active, sv);
            &&& step.0 == Ok::<(), Fatal>(())
            &&& step.1.events == sv.events + seq![
                EventV::Push(o.transform),
                EventV::Annotate(doc.nodes[i].label@),
                EventV::Pop,
            ]
        }),
{
    let node = doc.nodes[i];
    match spec_enter_out(node, cfg, i as usize, spec_top_or_unit(sv.vstack)) {
        Ok(o) => {
            lemma_use_draws_nothing(doc, cfg, i as usize, spec_top_or_unit(sv.vstack));
            let sv1 = spec_apply_enter(sv, node.label@, o);
            let step = spec_visit_strict(doc, cfg, i, active, sv);
            assert(step == (Ok::<(), Fatal>(()), spec_apply_exit(sv1, node.tag)));
            assert(sv1.events.push(EventV::Pop) =~= sv.events + seq![
                EventV::Push(o.transform),
                EventV::Annotate(node.label@),
                EventV::Pop,
            ]);
        },
        Err(_) => {},
    }
}

/// Determinism: the traversal is a mathematical function of the immutable
/// document and the configuration, so two runs over the same input — each
/// pinned to [`spec_traverse`] by the contract of
/// [`crate::traverse::depth_first_visit`] — produce identical sequences of
/// transforms, segment sequences and labels, and identical diagnostics.
pub proof fn lemma_deterministic(
    doc: Doc,
    cfg: Config,
    r1: Result<RunV, Fatal>,
    r2: Result<RunV, Fatal>,
)
    requires
        r1 == spec_traverse(doc, cfg),
        r2 == spec_traverse(doc, cfg),
    ensures
        r1 == r2,
{
}

} // verus!
