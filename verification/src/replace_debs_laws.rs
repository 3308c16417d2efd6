//! Laws of De Bruijn replacement.

use vstd::prelude::*;
use crate::ast::{
    AstFamily, Deb, ExprView, IndView, MatchCaseView, VconDefView,
};
use crate::replace_debs::{
    item_cutoff, lemma_replace_exprs, replace,
    replace_case, replace_case_ok, replace_cases, replace_cases_ok, replace_exprs,
    replace_exprs_ok, replace_ind, replace_ind_ok, replace_ok, replace_vcon_def,
    replace_vcon_def_ok, replace_vcon_defs, replace_vcon_defs_ok, DebReplacement,
};

verus! {

// ---------------------------------------------------------------------------
// Upshifting by zero changes nothing.
// ---------------------------------------------------------------------------

/// Upshifting the free debs of any expression by zero gives back the same expression.
pub proof fn law_upshift_by_zero_is_identity<A: AstFamily>(e: ExprView<A>, cutoff: int)
    ensures
        replace(e, DebReplacement::Upshift(0), cutoff) == e,
    decreases e,
{
    match e {
        ExprView::Ind(i) => lemma_upshift_zero_ind(i, cutoff),
        ExprView::Vcon(v) => lemma_upshift_zero_ind(v.ind, cutoff),
        ExprView::Match(m) => {
            law_upshift_by_zero_is_identity(m.matchee, cutoff);
            law_upshift_by_zero_is_identity(m.return_type, cutoff + m.return_type_arity);
            lemma_upshift_zero_cases(m.cases, cutoff);
        },
        ExprView::Fun(f) => {
            lemma_upshift_zero_exprs(f.param_types, cutoff, true);
            law_upshift_by_zero_is_identity(f.return_type, cutoff + f.param_types.len());
            law_upshift_by_zero_is_identity(f.return_val, cutoff + f.param_types.len() + 1);
        },
        ExprView::App(a) => {
            law_upshift_by_zero_is_identity(a.callee, cutoff);
            lemma_upshift_zero_exprs(a.args, cutoff, false);
        },
        ExprView::For(f) => {
            lemma_upshift_zero_exprs(f.param_types, cutoff, true);
            law_upshift_by_zero_is_identity(f.return_type, cutoff + f.param_types.len());
        },
        ExprView::Deb(_, _) => {},
        ExprView::Universe(_, _) => {},
    }
}

proof fn lemma_upshift_zero_ind<A: AstFamily>(i: IndView<A>, cutoff: int)
    ensures
        replace_ind(i, DebReplacement::Upshift(0), cutoff) == i,
    decreases i,
{
    lemma_upshift_zero_exprs(i.index_types, cutoff, true);
    lemma_upshift_zero_vcon_defs(i.vcon_defs, cutoff + 1);
}

proof fn lemma_upshift_zero_vcon_def<A: AstFamily>(d: VconDefView<A>, cutoff: int)
    ensures
        replace_vcon_def(d, DebReplacement::Upshift(0), cutoff) == d,
    decreases d,
{
    lemma_upshift_zero_exprs(d.param_types, cutoff, true);
    lemma_upshift_zero_exprs(d.index_args, cutoff + d.param_types.len(), false);
}

proof fn lemma_upshift_zero_case<A: AstFamily>(c: MatchCaseView<A>, cutoff: int)
    ensures
        replace_case(c, DebReplacement::Upshift(0), cutoff) == c,
    decreases c,
{
    law_upshift_by_zero_is_identity(c.return_val, cutoff + c.arity);
}

proof fn lemma_upshift_zero_exprs<A: AstFamily>(es: Seq<ExprView<A>>, cutoff: int, dependent: bool)
    ensures
        replace_exprs(es, DebReplacement::Upshift(0), cutoff, dependent) == es,
    decreases es,
{
    if es.len() > 0 {
        lemma_upshift_zero_exprs(es.drop_last(), cutoff, dependent);
        law_upshift_by_zero_is_identity(es.last(), item_cutoff(cutoff, es.len() - 1, dependent));
        assert(es =~= es.drop_last().push(es.last()));
    }
}

proof fn lemma_upshift_zero_vcon_defs<A: AstFamily>(ds: Seq<VconDefView<A>>, cutoff: int)
    ensures
        replace_vcon_defs(ds, DebReplacement::Upshift(0), cutoff) == ds,
    decreases ds,
{
    if ds.len() > 0 {
        lemma_upshift_zero_vcon_defs(ds.drop_last(), cutoff);
        lemma_upshift_zero_vcon_def(ds.last(), cutoff);
        assert(ds =~= ds.drop_last().push(ds.last()));
    }
}

proof fn lemma_upshift_zero_cases<A: AstFamily>(cs: Seq<MatchCaseView<A>>, cutoff: int)
    ensures
        replace_cases(cs, DebReplacement::Upshift(0), cutoff) == cs,
    decreases cs,
{
    if cs.len() > 0 {
        lemma_upshift_zero_cases(cs.drop_last(), cutoff);
        lemma_upshift_zero_case(cs.last(), cutoff);
        assert(cs =~= cs.drop_last().push(cs.last()));
    }
}

// ---------------------------------------------------------------------------
// Substituting for debs that were just made room for gives back the original.
// ---------------------------------------------------------------------------

/// Upshifting the free debs by `n` and then substituting any `n` expressions
/// for the `n` debs that the upshift skipped gives back the original expression:
/// the substituted debs do not occur, and every other deb is shifted back down.
pub proof fn law_substitution_undoes_upshift<A: AstFamily>(
    e: ExprView<A>,
    new_exprs: Seq<ExprView<A>>,
    cutoff: int,
)
    requires
        replace_ok(e, DebReplacement::Upshift(new_exprs.len()), cutoff),
    ensures
        replace(
            replace(e, DebReplacement::Upshift(new_exprs.len()), cutoff),
            DebReplacement::Substitute(new_exprs),
            cutoff,
        ) == e,
    decreases e,
{
    let up = DebReplacement::<A>::Upshift(new_exprs.len());
    match e {
        ExprView::Ind(i) => lemma_subst_up_ind(i, new_exprs, cutoff),
        ExprView::Vcon(v) => lemma_subst_up_ind(v.ind, new_exprs, cutoff),
        ExprView::Match(m) => {
            law_substitution_undoes_upshift(m.matchee, new_exprs, cutoff);
            law_substitution_undoes_upshift(m.return_type, new_exprs, cutoff + m.return_type_arity);
            lemma_subst_up_cases(m.cases, new_exprs, cutoff);
        },
        ExprView::Fun(f) => {
            lemma_replace_exprs(f.param_types, up, cutoff, true);
            lemma_subst_up_exprs(f.param_types, new_exprs, cutoff, true);
            law_substitution_undoes_upshift(f.return_type, new_exprs, cutoff + f.param_types.len());
            law_substitution_undoes_upshift(f.return_val, new_exprs, cutoff + f.param_types.len() + 1);
        },
        ExprView::App(a) => {
            law_substitution_undoes_upshift(a.callee, new_exprs, cutoff);
            lemma_subst_up_exprs(a.args, new_exprs, cutoff, false);
        },
        ExprView::For(f) => {
            lemma_replace_exprs(f.param_types, up, cutoff, true);
            lemma_subst_up_exprs(f.param_types, new_exprs, cutoff, true);
            law_substitution_undoes_upshift(f.return_type, new_exprs, cutoff + f.param_types.len());
        },
        ExprView::Deb(_, _) => {},
        ExprView::Universe(_, _) => {},
    }
}

proof fn lemma_subst_up_ind<A: AstFamily>(i: IndView<A>, new_exprs: Seq<ExprView<A>>, cutoff: int)
    requires
        replace_ind_ok(i, DebReplacement::Upshift(new_exprs.len()), cutoff),
    ensures
        replace_ind(
            replace_ind(i, DebReplacement::Upshift(new_exprs.len()), cutoff),
            DebReplacement::Substitute(new_exprs),
            cutoff,
        ) == i,
    decreases i,
{
    lemma_subst_up_exprs(i.index_types, new_exprs, cutoff, true);
    lemma_subst_up_vcon_defs(i.vcon_defs, new_exprs, cutoff + 1);
}

proof fn lemma_subst_up_vcon_def<A: AstFamily>(d: VconDefView<A>, new_exprs: Seq<ExprView<A>>, cutoff: int)
    requires
        replace_vcon_def_ok(d, DebReplacement::Upshift(new_exprs.len()), cutoff),
    ensures
        replace_vcon_def(
            replace_vcon_def(d, DebReplacement::Upshift(new_exprs.len()), cutoff),
            DebReplacement::Substitute(new_exprs),
            cutoff,
        ) == d,
    decreases d,
{
    lemma_replace_exprs(d.param_types, DebReplacement::Upshift(new_exprs.len()), cutoff, true);
    lemma_subst_up_exprs(d.param_types, new_exprs, cutoff, true);
    lemma_subst_up_exprs(d.index_args, new_exprs, cutoff + d.param_types.len(), false);
}

proof fn lemma_subst_up_case<A: AstFamily>(c: MatchCaseView<A>, new_exprs: Seq<ExprView<A>>, cutoff: int)
    requires
        replace_case_ok(c, DebReplacement::Upshift(new_exprs.len()), cutoff),
    ensures
        replace_case(
            replace_case(c, DebReplacement::Upshift(new_exprs.len()), cutoff),
            DebReplacement::Substitute(new_exprs),
            cutoff,
        ) == c,
    decreases c,
{
    law_substitution_undoes_upshift(c.return_val, new_exprs, cutoff + c.arity);
}

proof fn lemma_subst_up_exprs<A: AstFamily>(
    es: Seq<ExprView<A>>,
    new_exprs: Seq<ExprView<A>>,
    cutoff: int,
    dependent: bool,
)
    requires
        replace_exprs_ok(es, DebReplacement::Upshift(new_exprs.len()), cutoff, dependent),
    ensures
        replace_exprs(
            replace_exprs(es, DebReplacement::Upshift(new_exprs.len()), cutoff, dependent),
            DebReplacement::Substitute(new_exprs),
            cutoff,
            dependent,
        ) == es,
    decreases es,
{
    if es.len() > 0 {
        let up = DebReplacement::<A>::Upshift(new_exprs.len());
        let shifted = replace_exprs(es, up, cutoff, dependent);
        lemma_replace_exprs(es.drop_last(), up, cutoff, dependent);
        lemma_subst_up_exprs(es.drop_last(), new_exprs, cutoff, dependent);
        law_substitution_undoes_upshift(es.last(), new_exprs, item_cutoff(cutoff, es.len() - 1, dependent));
        assert(shifted.drop_last() =~= replace_exprs(es.drop_last(), up, cutoff, dependent));
        assert(es =~= es.drop_last().push(es.last()));
    }
}

proof fn lemma_subst_up_vcon_defs<A: AstFamily>(
    ds: Seq<VconDefView<A>>,
    new_exprs: Seq<ExprView<A>>,
    cutoff: int,
)
    requires
        replace_vcon_defs_ok(ds, DebReplacement::Upshift(new_exprs.len()), cutoff),
    ensures
        replace_vcon_defs(
            replace_vcon_defs(ds, DebReplacement::Upshift(new_exprs.len()), cutoff),
            DebReplacement::Substitute(new_exprs),
            cutoff,
        ) == ds,
    decreases ds,
{
    if ds.len() > 0 {
        let up = DebReplacement::<A>::Upshift(new_exprs.len());
        let shifted = replace_vcon_defs(ds, up, cutoff);
        lemma_subst_up_vcon_defs(ds.drop_last(), new_exprs, cutoff);
        lemma_subst_up_vcon_def(ds.last(), new_exprs, cutoff);
        assert(shifted.drop_last() =~= replace_vcon_defs(ds.drop_last(), up, cutoff));
        assert(ds =~= ds.drop_last().push(ds.last()));
    }
}

proof fn lemma_subst_up_cases<A: AstFamily>(
    cs: Seq<MatchCaseView<A>>,
    new_exprs: Seq<ExprView<A>>,
    cutoff: int,
)
    requires
        replace_cases_ok(cs, DebReplacement::Upshift(new_exprs.len()), cutoff),
    ensures
        replace_cases(
            replace_cases(cs, DebReplacement::Upshift(new_exprs.len()), cutoff),
            DebReplacement::Substitute(new_exprs),
            cutoff,
        ) == cs,
    decreases cs,
{
    if cs.len() > 0 {
        let up = DebReplacement::<A>::Upshift(new_exprs.len());
        let shifted = replace_cases(cs, up, cutoff);
        lemma_subst_up_cases(cs.drop_last(), new_exprs, cutoff);
        lemma_subst_up_case(cs.last(), new_exprs, cutoff);
        assert(shifted.drop_last() =~= replace_cases(cs.drop_last(), up, cutoff));
        assert(cs =~= cs.drop_last().push(cs.last()));
    }
}

// ---------------------------------------------------------------------------
// Substituting under binders.
// ---------------------------------------------------------------------------

/// Substituting for the debs at and past `cutoff` (as seen under `cutoff` binders)
/// gives what substituting at the top gives, seen from under those binders, that is,
/// upshifted by `cutoff`. So a substituted expression, whatever its shape, keeps
/// referring to the same outer debs: none of its free debs is captured by the binders.
pub proof fn law_substitution_under_binders_is_substitution_seen_from_under_them<A: AstFamily>(
    d: Deb,
    aux: A::DebAux,
    new_exprs: Seq<ExprView<A>>,
    cutoff: nat,
)
    requires
        cutoff <= d.0,
    ensures
        replace(ExprView::Deb(d, aux), DebReplacement::Substitute(new_exprs), cutoff as int) == replace(
            replace(ExprView::Deb(Deb((d.0 - cutoff) as usize), aux), DebReplacement::Substitute(new_exprs), 0),
            DebReplacement::Upshift(cutoff),
            0,
        ),
{
    let adjusted = d.0 - cutoff;
    if adjusted < new_exprs.len() {
        law_upshift_by_zero_is_identity(new_exprs[new_exprs.len() - 1 - adjusted], 0);
    }
}

// ---------------------------------------------------------------------------
// Upshifts compose.
// ---------------------------------------------------------------------------

/// Upshifting by `a` and then by `b` (at the same cutoff) is upshifting by `a + b`.
pub proof fn law_upshifts_compose<A: AstFamily>(e: ExprView<A>, a: nat, b: nat, cutoff: int)
    requires
        replace_ok(e, DebReplacement::Upshift(a + b), cutoff),
    ensures
        replace(replace(e, DebReplacement::Upshift(a), cutoff), DebReplacement::Upshift(b), cutoff)
            == replace(e, DebReplacement::Upshift(a + b), cutoff),
    decreases e,
{
    match e {
        ExprView::Ind(i) => lemma_compose_ind(i, a, b, cutoff),
        ExprView::Vcon(v) => lemma_compose_ind(v.ind, a, b, cutoff),
        ExprView::Match(m) => {
            law_upshifts_compose(m.matchee, a, b, cutoff);
            law_upshifts_compose(m.return_type, a, b, cutoff + m.return_type_arity);
            lemma_compose_cases(m.cases, a, b, cutoff);
        },
        ExprView::Fun(f) => {
            lemma_replace_exprs(f.param_types, DebReplacement::<A>::Upshift(a), cutoff, true);
            lemma_compose_exprs(f.param_types, a, b, cutoff, true);
            law_upshifts_compose(f.return_type, a, b, cutoff + f.param_types.len());
            law_upshifts_compose(f.return_val, a, b, cutoff + f.param_types.len() + 1);
        },
        ExprView::App(app) => {
            law_upshifts_compose(app.callee, a, b, cutoff);
            lemma_compose_exprs(app.args, a, b, cutoff, false);
        },
        ExprView::For(f) => {
            lemma_replace_exprs(f.param_types, DebReplacement::<A>::Upshift(a), cutoff, true);
            lemma_compose_exprs(f.param_types, a, b, cutoff, true);
            law_upshifts_compose(f.return_type, a, b, cutoff + f.param_types.len());
        },
        ExprView::Deb(_, _) => {},
        ExprView::Universe(_, _) => {},
    }
}

proof fn lemma_compose_ind<A: AstFamily>(i: IndView<A>, a: nat, b: nat, cutoff: int)
    requires
        replace_ind_ok(i, DebReplacement::Upshift(a + b), cutoff),
    ensures
        replace_ind(replace_ind(i, DebReplacement::Upshift(a), cutoff), DebReplacement::Upshift(b), cutoff)
            == replace_ind(i, DebReplacement::Upshift(a + b), cutoff),
    decreases i,
{
    lemma_compose_exprs(i.index_types, a, b, cutoff, true);
    lemma_compose_vcon_defs(i.vcon_defs, a, b, cutoff + 1);
}

proof fn lemma_compose_vcon_def<A: AstFamily>(d: VconDefView<A>, a: nat, b: nat, cutoff: int)
    requires
        replace_vcon_def_ok(d, DebReplacement::Upshift(a + b), cutoff),
    ensures
        replace_vcon_def(replace_vcon_def(d, DebReplacement::Upshift(a), cutoff), DebReplacement::Upshift(b), cutoff)
            == replace_vcon_def(d, DebReplacement::Upshift(a + b), cutoff),
    decreases d,
{
    lemma_replace_exprs(d.param_types, DebReplacement::<A>::Upshift(a), cutoff, true);
    lemma_compose_exprs(d.param_types, a, b, cutoff, true);
    lemma_compose_exprs(d.index_args, a, b, cutoff + d.param_types.len(), false);
}

proof fn lemma_compose_case<A: AstFamily>(c: MatchCaseView<A>, a: nat, b: nat, cutoff: int)
    requires
        replace_case_ok(c, DebReplacement::Upshift(a + b), cutoff),
    ensures
        replace_case(replace_case(c, DebReplacement::Upshift(a), cutoff), DebReplacement::Upshift(b), cutoff)
            == replace_case(c, DebReplacement::Upshift(a + b), cutoff),
    decreases c,
{
    law_upshifts_compose(c.return_val, a, b, cutoff + c.arity);
}

proof fn lemma_compose_exprs<A: AstFamily>(es: Seq<ExprView<A>>, a: nat, b: nat, cutoff: int, dependent: bool)
    requires
        replace_exprs_ok(es, DebReplacement::Upshift(a + b), cutoff, dependent),
    ensures
        replace_exprs(
            replace_exprs(es, DebReplacement::Upshift(a), cutoff, dependent),
            DebReplacement::Upshift(b),
            cutoff,
            dependent,
        ) == replace_exprs(es, DebReplacement::Upshift(a + b), cutoff, dependent),
    decreases es,
{
    if es.len() > 0 {
        let up = DebReplacement::<A>::Upshift(a);
        let shifted = replace_exprs(es, up, cutoff, dependent);
        lemma_replace_exprs(es.drop_last(), up, cutoff, dependent);
        lemma_compose_exprs(es.drop_last(), a, b, cutoff, dependent);
        law_upshifts_compose(es.last(), a, b, item_cutoff(cutoff, es.len() - 1, dependent));
        assert(shifted.drop_last() =~= replace_exprs(es.drop_last(), up, cutoff, dependent));
    }
}

proof fn lemma_compose_vcon_defs<A: AstFamily>(ds: Seq<VconDefView<A>>, a: nat, b: nat, cutoff: int)
    requires
        replace_vcon_defs_ok(ds, DebReplacement::Upshift(a + b), cutoff),
    ensures
        replace_vcon_defs(replace_vcon_defs(ds, DebReplacement::Upshift(a), cutoff), DebReplacement::Upshift(b), cutoff)
            == replace_vcon_defs(ds, DebReplacement::Upshift(a + b), cutoff),
    decreases ds,
{
    if ds.len() > 0 {
        let up = DebReplacement::<A>::Upshift(a);
        let shifted = replace_vcon_defs(ds, up, cutoff);
        lemma_compose_vcon_defs(ds.drop_last(), a, b, cutoff);
        lemma_compose_vcon_def(ds.last(), a, b, cutoff);
        assert(shifted.drop_last() =~= replace_vcon_defs(ds.drop_last(), up, cutoff));
    }
}

proof fn lemma_compose_cases<A: AstFamily>(cs: Seq<MatchCaseView<A>>, a: nat, b: nat, cutoff: int)
    requires
        replace_cases_ok(cs, DebReplacement::Upshift(a + b), cutoff),
    ensures
        replace_cases(replace_cases(cs, DebReplacement::Upshift(a), cutoff), DebReplacement::Upshift(b), cutoff)
            == replace_cases(cs, DebReplacement::Upshift(a + b), cutoff),
    decreases cs,
{
    if cs.len() > 0 {
        let up = DebReplacement::<A>::Upshift(a);
        let shifted = replace_cases(cs, up, cutoff);
        lemma_compose_cases(cs.drop_last(), a, b, cutoff);
        lemma_compose_case(cs.last(), a, b, cutoff);
        assert(shifted.drop_last() =~= replace_cases(cs.drop_last(), up, cutoff));
    }
}

} // verus!
