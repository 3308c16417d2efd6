//! De Bruijn index replacement: upshifting free variables, and substituting
//! expressions for the innermost free variables (downshifting the rest).
//!
//! Every binder raises the cutoff below which a deb is bound:
//! - ind: index types are dependent (`cutoff + i` for the `i`-th),
//!   vcon defs see one more entry (the ind itself);
//! - vcon def: param types are dependent, index args see all params;
//! - match: the return type sees `return_type_arity` entries, a case sees `arity` entries;
//! - fun: param types are dependent, the return type sees all params,
//!   the return value sees all params and the function itself;
//! - for: param types are dependent, the return type sees all params.

use vstd::prelude::*;
use std::rc::Rc;
use crate::ast::{
    AuxData,
    cases_view, exprs_view, expr_view, ind_view, lemma_cases_view, lemma_exprs_view,
    lemma_vcon_defs_view, match_case_view, rc_clone, vcon_def_view, vcon_defs_view, App, AppView,
    AstFamily, Deb, DebNode, Expr, ExprView, For, ForView, Fun, FunView, Ind, IndView, Match,
    MatchCase, MatchCaseView, MatchView, Vcon, VconDef, VconDefView, VconView,
};

verus! {

/// What a replacement does to a free deb (one at or above the cutoff).
pub enum DebReplacement<A: AstFamily> {
    /// Add the amount to the deb.
    Upshift(nat),
    /// Deb `cutoff + k` becomes the `k`-th expression counted from the end
    /// (upshifted by the cutoff); debs past the sequence are downshifted by its length.
    Substitute(Seq<ExprView<A>>),
}

impl<A: AstFamily> DebReplacement<A> {
    pub open spec fn rank(self) -> nat {
        match self {
            DebReplacement::Upshift(_) => 0,
            DebReplacement::Substitute(_) => 1,
        }
    }
}

/// The effect of a replacement on the deb `d` seen under `cutoff` binders.
pub open spec fn replace_deb<A: AstFamily>(d: Deb, aux: A::DebAux, r: DebReplacement<A>, cutoff: int) -> ExprView<A> {
    replace(ExprView::Deb(d, aux), r, cutoff)
}

pub open spec fn replace<A: AstFamily>(e: ExprView<A>, r: DebReplacement<A>, cutoff: int) -> ExprView<A>
    decreases r.rank(), e,
{
    match e {
        ExprView::Ind(i) => ExprView::Ind(replace_ind(i, r, cutoff)),
        ExprView::Vcon(v) => ExprView::Vcon(
            VconView { ind: replace_ind(v.ind, r, cutoff), vcon_index: v.vcon_index, aux_data: v.aux_data },
        ),
        ExprView::Match(m) => ExprView::Match(
            Box::new(
                MatchView {
                    matchee: replace(m.matchee, r, cutoff),
                    return_type_arity: m.return_type_arity,
                    return_type: replace(m.return_type, r, cutoff + m.return_type_arity),
                    cases: replace_cases(m.cases, r, cutoff),
                    aux_data: m.aux_data,
                },
            ),
        ),
        ExprView::Fun(f) => ExprView::Fun(
            Box::new(
                FunView {
                    decreasing_index: f.decreasing_index,
                    param_types: replace_exprs(f.param_types, r, cutoff, true),
                    return_type: replace(f.return_type, r, cutoff + f.param_types.len()),
                    return_val: replace(f.return_val, r, cutoff + f.param_types.len() + 1),
                    aux_data: f.aux_data,
                },
            ),
        ),
        ExprView::App(a) => ExprView::App(
            Box::new(
                AppView {
                    callee: replace(a.callee, r, cutoff),
                    args: replace_exprs(a.args, r, cutoff, false),
                    aux_data: a.aux_data,
                },
            ),
        ),
        ExprView::For(f) => ExprView::For(
            Box::new(
                ForView {
                    param_types: replace_exprs(f.param_types, r, cutoff, true),
                    return_type: replace(f.return_type, r, cutoff + f.param_types.len()),
                    aux_data: f.aux_data,
                },
            ),
        ),
        ExprView::Deb(d, aux) => {
            if d.0 < cutoff {
                e
            } else {
                match r {
                    DebReplacement::Upshift(n) => ExprView::Deb(Deb((d.0 + n) as usize), aux),
                    DebReplacement::Substitute(new_exprs) => {
                        let adjusted = d.0 - cutoff;
                        if adjusted < new_exprs.len() {
                            replace(
                                new_exprs[new_exprs.len() - 1 - adjusted],
                                DebReplacement::Upshift(cutoff as nat),
                                0,
                            )
                        } else {
                            ExprView::Deb(Deb((d.0 - new_exprs.len()) as usize), aux)
                        }
                    },
                }
            }
        },
        ExprView::Universe(_, _) => e,
    }
}

pub open spec fn replace_ind<A: AstFamily>(i: IndView<A>, r: DebReplacement<A>, cutoff: int) -> IndView<A>
    decreases r.rank(), i,
{
    IndView {
        name: i.name,
        universe: i.universe,
        index_types: replace_exprs(i.index_types, r, cutoff, true),
        vcon_defs: replace_vcon_defs(i.vcon_defs, r, cutoff + 1),
        aux_data: i.aux_data,
    }
}

pub open spec fn replace_vcon_def<A: AstFamily>(
    d: VconDefView<A>,
    r: DebReplacement<A>,
    cutoff: int,
) -> VconDefView<A>
    decreases r.rank(), d,
{
    VconDefView {
        param_types: replace_exprs(d.param_types, r, cutoff, true),
        index_args: replace_exprs(d.index_args, r, cutoff + d.param_types.len(), false),
        aux_data: d.aux_data,
    }
}

pub open spec fn replace_case<A: AstFamily>(
    c: MatchCaseView<A>,
    r: DebReplacement<A>,
    cutoff: int,
) -> MatchCaseView<A>
    decreases r.rank(), c,
{
    MatchCaseView {
        arity: c.arity,
        return_val: replace(c.return_val, r, cutoff + c.arity),
        aux_data: c.aux_data,
    }
}

/// The cutoff for the `i`-th item of a list: dependent lists see their predecessors.
pub open spec fn item_cutoff(cutoff: int, i: int, dependent: bool) -> int {
    if dependent {
        cutoff + i
    } else {
        cutoff
    }
}

pub open spec fn replace_exprs<A: AstFamily>(
    es: Seq<ExprView<A>>,
    r: DebReplacement<A>,
    cutoff: int,
    dependent: bool,
) -> Seq<ExprView<A>>
    decreases r.rank(), es,
{
    if es.len() == 0 {
        Seq::empty()
    } else {
        replace_exprs(es.drop_last(), r, cutoff, dependent).push(
            replace(es.last(), r, item_cutoff(cutoff, es.len() - 1, dependent)),
        )
    }
}

pub open spec fn replace_vcon_defs<A: AstFamily>(
    ds: Seq<VconDefView<A>>,
    r: DebReplacement<A>,
    cutoff: int,
) -> Seq<VconDefView<A>>
    decreases r.rank(), ds,
{
    if ds.len() == 0 {
        Seq::empty()
    } else {
        replace_vcon_defs(ds.drop_last(), r, cutoff).push(replace_vcon_def(ds.last(), r, cutoff))
    }
}

pub open spec fn replace_cases<A: AstFamily>(
    cs: Seq<MatchCaseView<A>>,
    r: DebReplacement<A>,
    cutoff: int,
) -> Seq<MatchCaseView<A>>
    decreases r.rank(), cs,
{
    if cs.len() == 0 {
        Seq::empty()
    } else {
        replace_cases(cs.drop_last(), r, cutoff).push(replace_case(cs.last(), r, cutoff))
    }
}

// ---------------------------------------------------------------------------
// The inputs on which a replacement computes without overflowing a `usize`:
// every cutoff it computes, and every deb it produces, fits.
// ---------------------------------------------------------------------------

pub open spec fn fits(n: int) -> bool {
    0 <= n <= usize::MAX
}

pub open spec fn replace_ok<A: AstFamily>(e: ExprView<A>, r: DebReplacement<A>, cutoff: int) -> bool
    decreases r.rank(), e,
{
    match e {
        ExprView::Ind(i) => replace_ind_ok(i, r, cutoff),
        ExprView::Vcon(v) => replace_ind_ok(v.ind, r, cutoff),
        ExprView::Match(m) => {
            &&& replace_ok(m.matchee, r, cutoff)
            &&& fits(cutoff + m.return_type_arity)
            &&& replace_ok(m.return_type, r, cutoff + m.return_type_arity)
            &&& replace_cases_ok(m.cases, r, cutoff)
        },
        ExprView::Fun(f) => {
            &&& replace_exprs_ok(f.param_types, r, cutoff, true)
            &&& fits(cutoff + f.param_types.len() + 1)
            &&& replace_ok(f.return_type, r, cutoff + f.param_types.len())
            &&& replace_ok(f.return_val, r, cutoff + f.param_types.len() + 1)
        },
        ExprView::App(a) => {
            &&& replace_ok(a.callee, r, cutoff)
            &&& replace_exprs_ok(a.args, r, cutoff, false)
        },
        ExprView::For(f) => {
            &&& replace_exprs_ok(f.param_types, r, cutoff, true)
            &&& fits(cutoff + f.param_types.len())
            &&& replace_ok(f.return_type, r, cutoff + f.param_types.len())
        },
        ExprView::Deb(d, _) => {
            d.0 < cutoff || match r {
                DebReplacement::Upshift(n) => fits(d.0 + n),
                DebReplacement::Substitute(new_exprs) => {
                    let adjusted = d.0 - cutoff;
                    adjusted < new_exprs.len() ==> replace_ok(
                        new_exprs[new_exprs.len() - 1 - adjusted],
                        DebReplacement::Upshift(cutoff as nat),
                        0,
                    )
                },
            }
        },
        ExprView::Universe(_, _) => true,
    }
}

pub open spec fn replace_ind_ok<A: AstFamily>(i: IndView<A>, r: DebReplacement<A>, cutoff: int) -> bool
    decreases r.rank(), i,
{
    &&& replace_exprs_ok(i.index_types, r, cutoff, true)
    &&& fits(cutoff + 1)
    &&& replace_vcon_defs_ok(i.vcon_defs, r, cutoff + 1)
}

pub open spec fn replace_vcon_def_ok<A: AstFamily>(
    d: VconDefView<A>,
    r: DebReplacement<A>,
    cutoff: int,
) -> bool
    decreases r.rank(), d,
{
    &&& replace_exprs_ok(d.param_types, r, cutoff, true)
    &&& fits(cutoff + d.param_types.len())
    &&& replace_exprs_ok(d.index_args, r, cutoff + d.param_types.len(), false)
}

pub open spec fn replace_case_ok<A: AstFamily>(c: MatchCaseView<A>, r: DebReplacement<A>, cutoff: int) -> bool
    decreases r.rank(), c,
{
    fits(cutoff + c.arity) && replace_ok(c.return_val, r, cutoff + c.arity)
}

pub open spec fn replace_exprs_ok<A: AstFamily>(
    es: Seq<ExprView<A>>,
    r: DebReplacement<A>,
    cutoff: int,
    dependent: bool,
) -> bool
    decreases r.rank(), es,
{
    if es.len() == 0 {
        true
    } else {
        &&& replace_exprs_ok(es.drop_last(), r, cutoff, dependent)
        &&& fits(item_cutoff(cutoff, es.len() - 1, dependent))
        &&& replace_ok(es.last(), r, item_cutoff(cutoff, es.len() - 1, dependent))
    }
}

pub open spec fn replace_vcon_defs_ok<A: AstFamily>(
    ds: Seq<VconDefView<A>>,
    r: DebReplacement<A>,
    cutoff: int,
) -> bool
    decreases r.rank(), ds,
{
    if ds.len() == 0 {
        true
    } else {
        replace_vcon_defs_ok(ds.drop_last(), r, cutoff) && replace_vcon_def_ok(ds.last(), r, cutoff)
    }
}

pub open spec fn replace_cases_ok<A: AstFamily>(
    cs: Seq<MatchCaseView<A>>,
    r: DebReplacement<A>,
    cutoff: int,
) -> bool
    decreases r.rank(), cs,
{
    if cs.len() == 0 {
        true
    } else {
        replace_cases_ok(cs.drop_last(), r, cutoff) && replace_case_ok(cs.last(), r, cutoff)
    }
}

// ---------------------------------------------------------------------------
// Lemmas on lists
// ---------------------------------------------------------------------------

pub proof fn lemma_replace_exprs<A: AstFamily>(
    es: Seq<ExprView<A>>,
    r: DebReplacement<A>,
    cutoff: int,
    dependent: bool,
)
    ensures
        replace_exprs(es, r, cutoff, dependent).len() == es.len(),
        forall|i: int|
            0 <= i < es.len() ==> #[trigger] replace_exprs(es, r, cutoff, dependent)[i] == replace(
                es[i],
                r,
                item_cutoff(cutoff, i, dependent),
            ),
    decreases es.len(),
{
    if es.len() > 0 {
        lemma_replace_exprs(es.drop_last(), r, cutoff, dependent);
    }
}

/// The `i`-th item of a list that can be replaced can itself be replaced.
pub proof fn lemma_replace_exprs_ok<A: AstFamily>(
    es: Seq<ExprView<A>>,
    r: DebReplacement<A>,
    cutoff: int,
    dependent: bool,
    i: int,
)
    requires
        replace_exprs_ok(es, r, cutoff, dependent),
        0 <= i < es.len(),
    ensures
        fits(item_cutoff(cutoff, i, dependent)),
        replace_ok(es[i], r, item_cutoff(cutoff, i, dependent)),
    decreases es.len(),
{
    if i < es.len() - 1 {
        lemma_replace_exprs_ok(es.drop_last(), r, cutoff, dependent, i);
        assert(es.drop_last()[i] == es[i]);
    }
}

pub proof fn lemma_replace_vcon_defs<A: AstFamily>(
    ds: Seq<VconDefView<A>>,
    r: DebReplacement<A>,
    cutoff: int,
)
    ensures
        replace_vcon_defs(ds, r, cutoff).len() == ds.len(),
        forall|i: int|
            0 <= i < ds.len() ==> #[trigger] replace_vcon_defs(ds, r, cutoff)[i] == replace_vcon_def(ds[i], r, cutoff),
    decreases ds.len(),
{
    if ds.len() > 0 {
        lemma_replace_vcon_defs(ds.drop_last(), r, cutoff);
    }
}

pub proof fn lemma_replace_cases<A: AstFamily>(
    cs: Seq<MatchCaseView<A>>,
    r: DebReplacement<A>,
    cutoff: int,
)
    ensures
        replace_cases(cs, r, cutoff).len() == cs.len(),
        forall|i: int|
            0 <= i < cs.len() ==> #[trigger] replace_cases(cs, r, cutoff)[i] == replace_case(cs[i], r, cutoff),
    decreases cs.len(),
{
    if cs.len() > 0 {
        lemma_replace_cases(cs.drop_last(), r, cutoff);
    }
}

pub proof fn lemma_replace_vcon_defs_ok<A: AstFamily>(
    ds: Seq<VconDefView<A>>,
    r: DebReplacement<A>,
    cutoff: int,
    i: int,
)
    requires
        replace_vcon_defs_ok(ds, r, cutoff),
        0 <= i < ds.len(),
    ensures
        replace_vcon_def_ok(ds[i], r, cutoff),
    decreases ds.len(),
{
    if i < ds.len() - 1 {
        lemma_replace_vcon_defs_ok(ds.drop_last(), r, cutoff, i);
        assert(ds.drop_last()[i] == ds[i]);
    }
}

pub proof fn lemma_replace_cases_ok<A: AstFamily>(
    cs: Seq<MatchCaseView<A>>,
    r: DebReplacement<A>,
    cutoff: int,
    i: int,
)
    requires
        replace_cases_ok(cs, r, cutoff),
        0 <= i < cs.len(),
    ensures
        replace_case_ok(cs[i], r, cutoff),
    decreases cs.len(),
{
    if i < cs.len() - 1 {
        lemma_replace_cases_ok(cs.drop_last(), r, cutoff, i);
        assert(cs.drop_last()[i] == cs[i]);
    }
}

// ---------------------------------------------------------------------------
// Executable replacement
// ---------------------------------------------------------------------------

enum Replacer<'a, A: AstFamily> {
    Upshift(usize),
    Substitute(&'a [Expr<A>]),
}

impl<'a, A: AstFamily> Replacer<'a, A> {
    spec fn replacement(&self) -> DebReplacement<A> {
        match *self {
            Replacer::Upshift(n) => DebReplacement::Upshift(n as nat),
            Replacer::Substitute(s) => DebReplacement::Substitute(exprs_view(s@)),
        }
    }

    spec fn rank(&self) -> nat {
        self.replacement().rank()
    }
}

fn replace_in_deb<A: AstFamily>(d: &Rc<DebNode<A>>, r: &Replacer<A>, cutoff: usize) -> (res: Expr<A>)
    requires
        replace_ok(ExprView::Deb(d.deb, d.aux_data), r.replacement(), cutoff as int),
    ensures
        res@ == replace(ExprView::Deb(d.deb, d.aux_data), r.replacement(), cutoff as int),
    decreases r.rank(), 0nat,
{
    if d.deb.0 < cutoff {
        return Expr::Deb(rc_clone(d));
    }
    match r {
        Replacer::Upshift(n) => Expr::Deb(Rc::new(DebNode { deb: Deb(d.deb.0 + *n), aux_data: d.aux_data.duplicate() })),
        Replacer::Substitute(new_exprs) => {
            proof {
                lemma_exprs_view(new_exprs@);
            }
            let adjusted = d.deb.0 - cutoff;
            let len = new_exprs.len();
            if adjusted < len {
                let up: Replacer<A> = Replacer::Upshift(cutoff);
                replace_in_expr(&new_exprs[len - 1 - adjusted], &up, 0)
            } else {
                Expr::Deb(Rc::new(DebNode { deb: Deb(d.deb.0 - len), aux_data: d.aux_data.duplicate() }))
            }
        },
    }
}

fn replace_in_expr<A: AstFamily>(e: &Expr<A>, r: &Replacer<A>, cutoff: usize) -> (res: Expr<A>)
    requires
        replace_ok(e@, r.replacement(), cutoff as int),
    ensures
        res@ == replace(e@, r.replacement(), cutoff as int),
    decreases r.rank(), 1nat, *e,
{
    match e {
        Expr::Ind(i) => Expr::Ind(Rc::new(replace_in_ind(i, r, cutoff))),
        Expr::Vcon(v) => {
            let ind = replace_in_ind(&v.ind, r, cutoff);
            Expr::Vcon(Rc::new(Vcon { ind: Rc::new(ind), vcon_index: v.vcon_index, aux_data: v.aux_data.duplicate() }))
        },
        Expr::Match(m) => {
            let matchee = replace_in_expr(&m.matchee, r, cutoff);
            let return_type = replace_in_expr(&m.return_type, r, cutoff + m.return_type_arity);
            let cases = replace_in_cases(&m.cases, r, cutoff);
            Expr::Match(
                Rc::new(
                    Match {
                        matchee,
                        return_type_arity: m.return_type_arity,
                        return_type,
                        cases: Rc::new(cases),
                        aux_data: m.aux_data.duplicate(),
                    },
                ),
            )
        },
        Expr::Fun(f) => {
            proof {
                lemma_exprs_view(f.param_types@);
            }
            let len = f.param_types.len();
            let param_types = replace_in_exprs(&f.param_types, r, cutoff, true);
            let return_type = replace_in_expr(&f.return_type, r, cutoff + len);
            let return_val = replace_in_expr(&f.return_val, r, cutoff + len + 1);
            Expr::Fun(
                Rc::new(
                    Fun {
                        decreasing_index: f.decreasing_index,
                        param_types: Rc::new(param_types),
                        return_type,
                        return_val,
                        aux_data: f.aux_data.duplicate(),
                    },
                ),
            )
        },
        Expr::App(a) => {
            let callee = replace_in_expr(&a.callee, r, cutoff);
            let args = replace_in_exprs(&a.args, r, cutoff, false);
            Expr::App(Rc::new(App { callee, args: Rc::new(args), aux_data: a.aux_data.duplicate() }))
        },
        Expr::For(f) => {
            proof {
                lemma_exprs_view(f.param_types@);
            }
            let len = f.param_types.len();
            let param_types = replace_in_exprs(&f.param_types, r, cutoff, true);
            let return_type = replace_in_expr(&f.return_type, r, cutoff + len);
            Expr::For(Rc::new(For { param_types: Rc::new(param_types), return_type, aux_data: f.aux_data.duplicate() }))
        },
        Expr::Deb(d) => replace_in_deb(d, r, cutoff),
        Expr::Universe(_) => e.copy(),
    }
}

fn replace_in_ind<A: AstFamily>(i: &Ind<A>, r: &Replacer<A>, cutoff: usize) -> (res: Ind<A>)
    requires
        replace_ind_ok(ind_view(*i), r.replacement(), cutoff as int),
    ensures
        ind_view(res) == replace_ind(ind_view(*i), r.replacement(), cutoff as int),
    decreases r.rank(), 1nat, *i,
{
    let index_types = replace_in_exprs(&i.index_types, r, cutoff, true);
    let vcon_defs = replace_in_vcon_defs(&i.vcon_defs, r, cutoff + 1);
    Ind {
        name: rc_clone(&i.name),
        universe: i.universe,
        index_types: Rc::new(index_types),
        vcon_defs: Rc::new(vcon_defs),
        aux_data: i.aux_data.duplicate(),
    }
}

fn replace_in_vcon_def<A: AstFamily>(d: &VconDef<A>, r: &Replacer<A>, cutoff: usize) -> (res: VconDef<A>)
    requires
        replace_vcon_def_ok(vcon_def_view(*d), r.replacement(), cutoff as int),
    ensures
        vcon_def_view(res) == replace_vcon_def(vcon_def_view(*d), r.replacement(), cutoff as int),
    decreases r.rank(), 1nat, *d,
{
    proof {
        lemma_exprs_view(d.param_types@);
    }
    let param_types = replace_in_exprs(&d.param_types, r, cutoff, true);
    let index_args = replace_in_exprs(&d.index_args, r, cutoff + d.param_types.len(), false);
    VconDef { param_types: Rc::new(param_types), index_args: Rc::new(index_args), aux_data: d.aux_data.duplicate() }
}

fn replace_in_case<A: AstFamily>(c: &MatchCase<A>, r: &Replacer<A>, cutoff: usize) -> (res: MatchCase<A>)
    requires
        replace_case_ok(match_case_view(*c), r.replacement(), cutoff as int),
    ensures
        match_case_view(res) == replace_case(match_case_view(*c), r.replacement(), cutoff as int),
    decreases r.rank(), 1nat, *c,
{
    let return_val = replace_in_expr(&c.return_val, r, cutoff + c.arity);
    MatchCase { arity: c.arity, return_val, aux_data: c.aux_data.duplicate() }
}

fn replace_in_exprs<A: AstFamily>(es: &Vec<Expr<A>>, r: &Replacer<A>, cutoff: usize, dependent: bool) -> (res: Vec<Expr<A>>)
    requires
        replace_exprs_ok(exprs_view(es@), r.replacement(), cutoff as int, dependent),
    ensures
        exprs_view(res@) == replace_exprs(exprs_view(es@), r.replacement(), cutoff as int, dependent),
    decreases r.rank(), 1nat, *es,
{
    proof {
        lemma_exprs_view(es@);
        lemma_replace_exprs(exprs_view(es@), r.replacement(), cutoff as int, dependent);
    }
    let mut out: Vec<Expr<A>> = Vec::new();
    let mut k: usize = 0;
    while k < es.len()
        invariant
            k <= es@.len(),
            out@.len() == k,
            exprs_view(es@).len() == es@.len(),
            replace_exprs(exprs_view(es@), r.replacement(), cutoff as int, dependent).len() == es@.len(),
            forall|i: int| 0 <= i < es@.len() ==> #[trigger] exprs_view(es@)[i] == expr_view(es@[i]),
            forall|i: int|
                0 <= i < es@.len() ==> #[trigger] replace_exprs(exprs_view(es@), r.replacement(), cutoff as int, dependent)[i]
                    == replace(exprs_view(es@)[i], r.replacement(), item_cutoff(cutoff as int, i, dependent)),
            replace_exprs_ok(exprs_view(es@), r.replacement(), cutoff as int, dependent),
            forall|i: int|
                0 <= i < k ==> #[trigger] expr_view(out@[i]) == replace(
                    exprs_view(es@)[i],
                    r.replacement(),
                    item_cutoff(cutoff as int, i, dependent),
                ),
        decreases es@.len() - k,
    {
        proof {
            assert(decreases_to!(*es => es@));
            assert(decreases_to!(es@ => es@[k as int]));
        }
        proof {
            lemma_replace_exprs_ok(exprs_view(es@), r.replacement(), cutoff as int, dependent, k as int);
        }
        let item_cutoff_k = if dependent { cutoff + k } else { cutoff };
        let item = replace_in_expr(&es[k], r, item_cutoff_k);
        out.push(item);
        k += 1;
    }
    proof {
        lemma_exprs_view(out@);
        assert(exprs_view(out@) =~= replace_exprs(exprs_view(es@), r.replacement(), cutoff as int, dependent));
    }
    out
}

fn replace_in_vcon_defs<A: AstFamily>(ds: &Vec<VconDef<A>>, r: &Replacer<A>, cutoff: usize) -> (res: Vec<VconDef<A>>)
    requires
        replace_vcon_defs_ok(vcon_defs_view(ds@), r.replacement(), cutoff as int),
    ensures
        vcon_defs_view(res@) == replace_vcon_defs(vcon_defs_view(ds@), r.replacement(), cutoff as int),
    decreases r.rank(), 1nat, *ds,
{
    proof {
        lemma_vcon_defs_view(ds@);
        lemma_replace_vcon_defs(vcon_defs_view(ds@), r.replacement(), cutoff as int);
    }
    let mut out: Vec<VconDef<A>> = Vec::new();
    let mut k: usize = 0;
    while k < ds.len()
        invariant
            k <= ds@.len(),
            out@.len() == k,
            vcon_defs_view(ds@).len() == ds@.len(),
            replace_vcon_defs(vcon_defs_view(ds@), r.replacement(), cutoff as int).len() == ds@.len(),
            forall|i: int| 0 <= i < ds@.len() ==> #[trigger] vcon_defs_view(ds@)[i] == vcon_def_view(ds@[i]),
            forall|i: int|
                0 <= i < ds@.len() ==> #[trigger] replace_vcon_defs(vcon_defs_view(ds@), r.replacement(), cutoff as int)[i]
                    == replace_vcon_def(vcon_defs_view(ds@)[i], r.replacement(), cutoff as int),
            replace_vcon_defs_ok(vcon_defs_view(ds@), r.replacement(), cutoff as int),
            forall|i: int|
                0 <= i < k ==> #[trigger] vcon_def_view(out@[i]) == replace_vcon_def(
                    vcon_defs_view(ds@)[i],
                    r.replacement(),
                    cutoff as int,
                ),
        decreases ds@.len() - k,
    {
        proof {
            assert(decreases_to!(*ds => ds@));
            assert(decreases_to!(ds@ => ds@[k as int]));
        }
        proof {
            lemma_replace_vcon_defs_ok(vcon_defs_view(ds@), r.replacement(), cutoff as int, k as int);
        }
        let item = replace_in_vcon_def(&ds[k], r, cutoff);
        out.push(item);
        k += 1;
    }
    proof {
        lemma_vcon_defs_view(out@);
        assert(vcon_defs_view(out@) =~= replace_vcon_defs(vcon_defs_view(ds@), r.replacement(), cutoff as int));
    }
    out
}

fn replace_in_cases<A: AstFamily>(cs: &Vec<MatchCase<A>>, r: &Replacer<A>, cutoff: usize) -> (res: Vec<MatchCase<A>>)
    requires
        replace_cases_ok(cases_view(cs@), r.replacement(), cutoff as int),
    ensures
        cases_view(res@) == replace_cases(cases_view(cs@), r.replacement(), cutoff as int),
    decreases r.rank(), 1nat, *cs,
{
    proof {
        lemma_cases_view(cs@);
        lemma_replace_cases(cases_view(cs@), r.replacement(), cutoff as int);
    }
    let mut out: Vec<MatchCase<A>> = Vec::new();
    let mut k: usize = 0;
    while k < cs.len()
        invariant
            k <= cs@.len(),
            out@.len() == k,
            cases_view(cs@).len() == cs@.len(),
            replace_cases(cases_view(cs@), r.replacement(), cutoff as int).len() == cs@.len(),
            forall|i: int| 0 <= i < cs@.len() ==> #[trigger] cases_view(cs@)[i] == match_case_view(cs@[i]),
            forall|i: int|
                0 <= i < cs@.len() ==> #[trigger] replace_cases(cases_view(cs@), r.replacement(), cutoff as int)[i]
                    == replace_case(cases_view(cs@)[i], r.replacement(), cutoff as int),
            replace_cases_ok(cases_view(cs@), r.replacement(), cutoff as int),
            forall|i: int|
                0 <= i < k ==> #[trigger] match_case_view(out@[i]) == replace_case(
                    cases_view(cs@)[i],
                    r.replacement(),
                    cutoff as int,
                ),
        decreases cs@.len() - k,
    {
        proof {
            assert(decreases_to!(*cs => cs@));
            assert(decreases_to!(cs@ => cs@[k as int]));
        }
        proof {
            lemma_replace_cases_ok(cases_view(cs@), r.replacement(), cutoff as int, k as int);
        }
        let item = replace_in_case(&cs[k], r, cutoff);
        out.push(item);
        k += 1;
    }
    proof {
        lemma_cases_view(out@);
        assert(cases_view(out@) =~= replace_cases(cases_view(cs@), r.replacement(), cutoff as int));
    }
    out
}

// ---------------------------------------------------------------------------
// Public replacers
// ---------------------------------------------------------------------------

/// Adds `self.0` to every free deb.
pub struct DebUpshifter(pub usize);

impl DebUpshifter {
    pub open spec fn replacement<A: AstFamily>(self) -> DebReplacement<A> {
        DebReplacement::Upshift(self.0 as nat)
    }

    pub fn replace_deb<A: AstFamily>(&self, original: &Rc<DebNode<A>>, cutoff: usize) -> (res: Expr<A>)
        requires
            replace_ok(ExprView::Deb(original.deb, original.aux_data), self.replacement::<A>(), cutoff as int),
        ensures
            res@ == replace_deb(original.deb, original.aux_data, self.replacement::<A>(), cutoff as int),
    {
        let r: Replacer<A> = Replacer::Upshift(self.0);
        replace_in_deb(original, &r, cutoff)
    }

    pub fn replace_debs<A: AstFamily>(&self, e: &Expr<A>, cutoff: usize) -> (res: Expr<A>)
        requires
            replace_ok(e@, self.replacement::<A>(), cutoff as int),
        ensures
            res@ == replace(e@, self.replacement::<A>(), cutoff as int),
    {
        let r: Replacer<A> = Replacer::Upshift(self.0);
        replace_in_expr(e, &r, cutoff)
    }

    /// Replaces in each item of a list of independent expressions (all under `cutoff`).
    pub fn replace_debs_with_constant_cutoff<A: AstFamily>(&self, es: &Vec<Expr<A>>, cutoff: usize) -> (res: Vec<Expr<A>>)
        requires
            replace_exprs_ok(exprs_view(es@), self.replacement::<A>(), cutoff as int, false),
        ensures
            exprs_view(res@) == replace_exprs(exprs_view(es@), self.replacement::<A>(), cutoff as int, false),
    {
        let r: Replacer<A> = Replacer::Upshift(self.0);
        replace_in_exprs(es, &r, cutoff, false)
    }

    /// Replaces in each item of a list of dependent expressions (item `i` under `cutoff + i`).
    pub fn replace_debs_with_increasing_cutoff<A: AstFamily>(&self, es: &Vec<Expr<A>>, cutoff: usize) -> (res: Vec<Expr<A>>)
        requires
            replace_exprs_ok(exprs_view(es@), self.replacement::<A>(), cutoff as int, true),
        ensures
            exprs_view(res@) == replace_exprs(exprs_view(es@), self.replacement::<A>(), cutoff as int, true),
    {
        let r: Replacer<A> = Replacer::Upshift(self.0);
        replace_in_exprs(es, &r, cutoff, true)
    }
}

/// Replaces the free deb `0` with the last element of `new_exprs`,
/// `1` with the second to last element, and so on.
/// Free debs that are not replaced by an element of `new_exprs`
/// are downshifted by the length of `new_exprs`.
pub struct DebDownshiftSubstituter<'a, A: AstFamily> {
    pub new_exprs: &'a [Expr<A>],
}

impl<'a, A: AstFamily> DebDownshiftSubstituter<'a, A> {
    pub open spec fn replacement(self) -> DebReplacement<A> {
        DebReplacement::Substitute(exprs_view(self.new_exprs@))
    }

    pub fn replace_deb(&self, original: &Rc<DebNode<A>>, cutoff: usize) -> (res: Expr<A>)
        requires
            replace_ok(ExprView::Deb(original.deb, original.aux_data), self.replacement(), cutoff as int),
        ensures
            res@ == replace_deb(original.deb, original.aux_data, self.replacement(), cutoff as int),
    {
        let r: Replacer<A> = Replacer::Substitute(self.new_exprs);
        replace_in_deb(original, &r, cutoff)
    }

    pub fn replace_debs(&self, e: &Expr<A>, cutoff: usize) -> (res: Expr<A>)
        requires
            replace_ok(e@, self.replacement(), cutoff as int),
        ensures
            res@ == replace(e@, self.replacement(), cutoff as int),
    {
        let r: Replacer<A> = Replacer::Substitute(self.new_exprs);
        replace_in_expr(e, &r, cutoff)
    }

    /// Replaces in each item of a list of independent expressions (all under `cutoff`).
    pub fn replace_debs_with_constant_cutoff(&self, es: &Vec<Expr<A>>, cutoff: usize) -> (res: Vec<Expr<A>>)
        requires
            replace_exprs_ok(exprs_view(es@), self.replacement(), cutoff as int, false),
        ensures
            exprs_view(res@) == replace_exprs(exprs_view(es@), self.replacement(), cutoff as int, false),
    {
        let r: Replacer<A> = Replacer::Substitute(self.new_exprs);
        replace_in_exprs(es, &r, cutoff, false)
    }

    /// Replaces in each item of a list of dependent expressions (item `i` under `cutoff + i`).
    pub fn replace_debs_with_increasing_cutoff(&self, es: &Vec<Expr<A>>, cutoff: usize) -> (res: Vec<Expr<A>>)
        requires
            replace_exprs_ok(exprs_view(es@), self.replacement(), cutoff as int, true),
        ensures
            exprs_view(res@) == replace_exprs(exprs_view(es@), self.replacement(), cutoff as int, true),
    {
        let r: Replacer<A> = Replacer::Substitute(self.new_exprs);
        replace_in_exprs(es, &r, cutoff, true)
    }
}

} // verus!
