//! Removing the auxiliary data (such as source spans) from a tree.
//!
//! The result has the same shape and the same contents as the input, with
//! every piece of auxiliary data replaced by `()`.

use vstd::prelude::*;
use std::rc::Rc;
use crate::ast::{
    cases_view, exprs_view, expr_view, lemma_cases_view, lemma_exprs_view,
    lemma_vcon_defs_view, match_case_view, rc_clone, rc_hashed, vcon_def_view, vcon_defs_view, App,
    AppView, AstFamily, DebNode, Expr, ExprView, For, ForView, Fun, FunView, Ind, IndView, Match,
    MatchCase, MatchCaseView, MatchView, UniverseNode, Vcon, VconDef, VconDefView, VconView,
};
use crate::minimal_ast::MinimalAst;
use crate::replace_debs::{
    item_cutoff, replace, replace_case, replace_cases, replace_exprs, replace_ind, replace_vcon_def,
    replace_vcon_defs, DebReplacement,
};
use crate::spanned_ast::SpannedAst;

verus! {

// ---------------------------------------------------------------------------
// Specification
// ---------------------------------------------------------------------------

/// The tree `e` with all of its auxiliary data removed.
pub open spec fn strip<A: AstFamily>(e: ExprView<A>) -> ExprView<MinimalAst>
    decreases e,
{
    match e {
        ExprView::Ind(i) => ExprView::Ind(strip_ind(i)),
        ExprView::Vcon(v) => ExprView::Vcon(VconView { ind: strip_ind(v.ind), vcon_index: v.vcon_index, aux_data: () }),
        ExprView::Match(m) => ExprView::Match(
            Box::new(
                MatchView {
                    matchee: strip(m.matchee),
                    return_type_arity: m.return_type_arity,
                    return_type: strip(m.return_type),
                    cases: strip_cases(m.cases),
                    aux_data: (),
                },
            ),
        ),
        ExprView::Fun(f) => ExprView::Fun(
            Box::new(
                FunView {
                    decreasing_index: f.decreasing_index,
                    param_types: strip_exprs(f.param_types),
                    return_type: strip(f.return_type),
                    return_val: strip(f.return_val),
                    aux_data: (),
                },
            ),
        ),
        ExprView::App(a) => ExprView::App(
            Box::new(AppView { callee: strip(a.callee), args: strip_exprs(a.args), aux_data: () }),
        ),
        ExprView::For(f) => ExprView::For(
            Box::new(ForView { param_types: strip_exprs(f.param_types), return_type: strip(f.return_type), aux_data: () }),
        ),
        ExprView::Deb(d, _) => ExprView::Deb(d, ()),
        ExprView::Universe(u, _) => ExprView::Universe(u, ()),
    }
}

pub open spec fn strip_ind<A: AstFamily>(i: IndView<A>) -> IndView<MinimalAst>
    decreases i,
{
    IndView {
        name: i.name,
        universe: i.universe,
        index_types: strip_exprs(i.index_types),
        vcon_defs: strip_vcon_defs(i.vcon_defs),
        aux_data: (),
    }
}

pub open spec fn strip_vcon_def<A: AstFamily>(d: VconDefView<A>) -> VconDefView<MinimalAst>
    decreases d,
{
    VconDefView { param_types: strip_exprs(d.param_types), index_args: strip_exprs(d.index_args), aux_data: () }
}

pub open spec fn strip_case<A: AstFamily>(c: MatchCaseView<A>) -> MatchCaseView<MinimalAst>
    decreases c,
{
    MatchCaseView { arity: c.arity, return_val: strip(c.return_val), aux_data: () }
}

pub open spec fn strip_exprs<A: AstFamily>(s: Seq<ExprView<A>>) -> Seq<ExprView<MinimalAst>>
    decreases s,
{
    if s.len() == 0 {
        Seq::empty()
    } else {
        strip_exprs(s.drop_last()).push(strip(s.last()))
    }
}

pub open spec fn strip_vcon_defs<A: AstFamily>(s: Seq<VconDefView<A>>) -> Seq<VconDefView<MinimalAst>>
    decreases s,
{
    if s.len() == 0 {
        Seq::empty()
    } else {
        strip_vcon_defs(s.drop_last()).push(strip_vcon_def(s.last()))
    }
}

pub open spec fn strip_cases<A: AstFamily>(s: Seq<MatchCaseView<A>>) -> Seq<MatchCaseView<MinimalAst>>
    decreases s,
{
    if s.len() == 0 {
        Seq::empty()
    } else {
        strip_cases(s.drop_last()).push(strip_case(s.last()))
    }
}

/// Stripping a list strips each item.
pub proof fn lemma_strip_exprs<A: AstFamily>(s: Seq<ExprView<A>>)
    ensures
        strip_exprs(s).len() == s.len(),
        forall|i: int| 0 <= i < s.len() ==> #[trigger] strip_exprs(s)[i] == strip(s[i]),
    decreases s.len(),
{
    if s.len() > 0 {
        lemma_strip_exprs(s.drop_last());
    }
}

pub proof fn lemma_strip_vcon_defs<A: AstFamily>(s: Seq<VconDefView<A>>)
    ensures
        strip_vcon_defs(s).len() == s.len(),
        forall|i: int| 0 <= i < s.len() ==> #[trigger] strip_vcon_defs(s)[i] == strip_vcon_def(s[i]),
    decreases s.len(),
{
    if s.len() > 0 {
        lemma_strip_vcon_defs(s.drop_last());
    }
}

pub proof fn lemma_strip_cases<A: AstFamily>(s: Seq<MatchCaseView<A>>)
    ensures
        strip_cases(s).len() == s.len(),
        forall|i: int| 0 <= i < s.len() ==> #[trigger] strip_cases(s)[i] == strip_case(s[i]),
    decreases s.len(),
{
    if s.len() > 0 {
        lemma_strip_cases(s.drop_last());
    }
}

// ---------------------------------------------------------------------------
// Removing auxiliary data commutes with deb replacement
// ---------------------------------------------------------------------------

/// The replacement that acts on stripped trees as `r` acts on the originals.
pub open spec fn strip_replacement<A: AstFamily>(r: DebReplacement<A>) -> DebReplacement<MinimalAst> {
    match r {
        DebReplacement::Upshift(n) => DebReplacement::Upshift(n),
        DebReplacement::Substitute(new_exprs) => DebReplacement::Substitute(strip_exprs(new_exprs)),
    }
}

/// Removing the auxiliary data after replacing debs gives the same tree as
/// replacing debs (with the new expressions stripped too) after removing it:
/// deb replacement never looks at auxiliary data.
pub proof fn law_strip_commutes_with_replace<A: AstFamily>(e: ExprView<A>, r: DebReplacement<A>, cutoff: int)
    ensures
        strip(replace(e, r, cutoff)) == replace(strip(e), strip_replacement(r), cutoff),
    decreases r.rank(), e,
{
    match e {
        ExprView::Ind(i) => {
            lemma_strip_replace_ind(i, r, cutoff);
        },
        ExprView::Vcon(v) => {
            lemma_strip_replace_ind(v.ind, r, cutoff);
        },
        ExprView::Match(m) => {
            law_strip_commutes_with_replace(m.matchee, r, cutoff);
            law_strip_commutes_with_replace(m.return_type, r, cutoff + m.return_type_arity);
            lemma_strip_replace_cases(m.cases, r, cutoff);
        },
        ExprView::Fun(f) => {
            lemma_strip_replace_exprs(f.param_types, r, cutoff, true);
            lemma_strip_exprs(f.param_types);
            law_strip_commutes_with_replace(f.return_type, r, cutoff + f.param_types.len());
            law_strip_commutes_with_replace(f.return_val, r, cutoff + f.param_types.len() + 1);
        },
        ExprView::App(a) => {
            law_strip_commutes_with_replace(a.callee, r, cutoff);
            lemma_strip_replace_exprs(a.args, r, cutoff, false);
        },
        ExprView::For(f) => {
            lemma_strip_replace_exprs(f.param_types, r, cutoff, true);
            lemma_strip_exprs(f.param_types);
            law_strip_commutes_with_replace(f.return_type, r, cutoff + f.param_types.len());
        },
        ExprView::Deb(d, _) => {
            if d.0 >= cutoff {
                match r {
                    DebReplacement::Upshift(_) => {},
                    DebReplacement::Substitute(new_exprs) => {
                        lemma_strip_exprs(new_exprs);
                        let adjusted = d.0 - cutoff;
                        if adjusted < new_exprs.len() {
                            law_strip_commutes_with_replace(
                                new_exprs[new_exprs.len() - 1 - adjusted],
                                DebReplacement::Upshift(cutoff as nat),
                                0,
                            );
                        }
                    },
                }
            }
        },
        ExprView::Universe(_, _) => {},
    }
}

proof fn lemma_strip_replace_ind<A: AstFamily>(i: IndView<A>, r: DebReplacement<A>, cutoff: int)
    ensures
        strip_ind(replace_ind(i, r, cutoff)) == replace_ind(strip_ind(i), strip_replacement(r), cutoff),
    decreases r.rank(), i,
{
    lemma_strip_replace_exprs(i.index_types, r, cutoff, true);
    lemma_strip_replace_vcon_defs(i.vcon_defs, r, cutoff + 1);
}

proof fn lemma_strip_replace_vcon_def<A: AstFamily>(d: VconDefView<A>, r: DebReplacement<A>, cutoff: int)
    ensures
        strip_vcon_def(replace_vcon_def(d, r, cutoff)) == replace_vcon_def(strip_vcon_def(d), strip_replacement(r), cutoff),
    decreases r.rank(), d,
{
    lemma_strip_replace_exprs(d.param_types, r, cutoff, true);
    lemma_strip_exprs(d.param_types);
    lemma_strip_replace_exprs(d.index_args, r, cutoff + d.param_types.len(), false);
}

proof fn lemma_strip_replace_case<A: AstFamily>(c: MatchCaseView<A>, r: DebReplacement<A>, cutoff: int)
    ensures
        strip_case(replace_case(c, r, cutoff)) == replace_case(strip_case(c), strip_replacement(r), cutoff),
    decreases r.rank(), c,
{
    law_strip_commutes_with_replace(c.return_val, r, cutoff + c.arity);
}

proof fn lemma_strip_replace_exprs<A: AstFamily>(es: Seq<ExprView<A>>, r: DebReplacement<A>, cutoff: int, dependent: bool)
    ensures
        strip_exprs(replace_exprs(es, r, cutoff, dependent)) == replace_exprs(
            strip_exprs(es),
            strip_replacement(r),
            cutoff,
            dependent,
        ),
    decreases r.rank(), es,
{
    if es.len() > 0 {
        let dl = es.drop_last();
        lemma_strip_replace_exprs(dl, r, cutoff, dependent);
        law_strip_commutes_with_replace(es.last(), r, item_cutoff(cutoff, es.len() - 1, dependent));
        lemma_strip_exprs(dl);
        let replaced = replace_exprs(es, r, cutoff, dependent);
        assert(replaced.drop_last() =~= replace_exprs(dl, r, cutoff, dependent));
        let stripped = strip_exprs(es);
        assert(stripped.drop_last() =~= strip_exprs(dl));
    }
}

proof fn lemma_strip_replace_vcon_defs<A: AstFamily>(ds: Seq<VconDefView<A>>, r: DebReplacement<A>, cutoff: int)
    ensures
        strip_vcon_defs(replace_vcon_defs(ds, r, cutoff)) == replace_vcon_defs(strip_vcon_defs(ds), strip_replacement(r), cutoff),
    decreases r.rank(), ds,
{
    if ds.len() > 0 {
        let dl = ds.drop_last();
        lemma_strip_replace_vcon_defs(dl, r, cutoff);
        lemma_strip_replace_vcon_def(ds.last(), r, cutoff);
        lemma_strip_vcon_defs(dl);
        let replaced = replace_vcon_defs(ds, r, cutoff);
        assert(replaced.drop_last() =~= replace_vcon_defs(dl, r, cutoff));
        let stripped = strip_vcon_defs(ds);
        assert(stripped.drop_last() =~= strip_vcon_defs(dl));
    }
}

proof fn lemma_strip_replace_cases<A: AstFamily>(cs: Seq<MatchCaseView<A>>, r: DebReplacement<A>, cutoff: int)
    ensures
        strip_cases(replace_cases(cs, r, cutoff)) == replace_cases(strip_cases(cs), strip_replacement(r), cutoff),
    decreases r.rank(), cs,
{
    if cs.len() > 0 {
        let dl = cs.drop_last();
        lemma_strip_replace_cases(dl, r, cutoff);
        lemma_strip_replace_case(cs.last(), r, cutoff);
        lemma_strip_cases(dl);
        let replaced = replace_cases(cs, r, cutoff);
        assert(replaced.drop_last() =~= replace_cases(dl, r, cutoff));
        let stripped = strip_cases(cs);
        assert(stripped.drop_last() =~= strip_cases(dl));
    }
}

/// A tree that carries no auxiliary data is left as it is; in particular,
/// removing the auxiliary data twice is the same as removing it once.
pub proof fn law_strip_is_identity_on_minimal_trees(e: ExprView<MinimalAst>)
    ensures
        strip(e) == e,
    decreases e,
{
    match e {
        ExprView::Ind(i) => {
            lemma_strip_ind_minimal(i);
            assert(strip(e) == ExprView::Ind(i));
        },
        ExprView::Vcon(v) => {
            lemma_strip_ind_minimal(v.ind);
            let sv = VconView::<MinimalAst> { ind: strip_ind(v.ind), vcon_index: v.vcon_index, aux_data: () };
            assert(sv.aux_data == v.aux_data);
            assert(sv == v);
        },
        ExprView::Match(m) => {
            law_strip_is_identity_on_minimal_trees(m.matchee);
            law_strip_is_identity_on_minimal_trees(m.return_type);
            lemma_strip_cases_minimal(m.cases);
            let sm = MatchView::<MinimalAst> {
                matchee: strip(m.matchee),
                return_type_arity: m.return_type_arity,
                return_type: strip(m.return_type),
                cases: strip_cases(m.cases),
                aux_data: (),
            };
            assert(sm.aux_data == m.aux_data);
            assert(sm == *m);
        },
        ExprView::Fun(f) => {
            lemma_strip_exprs_minimal(f.param_types);
            law_strip_is_identity_on_minimal_trees(f.return_type);
            law_strip_is_identity_on_minimal_trees(f.return_val);
            let sf = FunView::<MinimalAst> {
                decreasing_index: f.decreasing_index,
                param_types: strip_exprs(f.param_types),
                return_type: strip(f.return_type),
                return_val: strip(f.return_val),
                aux_data: (),
            };
            assert(sf.aux_data == f.aux_data);
            assert(sf == *f);
        },
        ExprView::App(a) => {
            law_strip_is_identity_on_minimal_trees(a.callee);
            lemma_strip_exprs_minimal(a.args);
            let sa = AppView::<MinimalAst> { callee: strip(a.callee), args: strip_exprs(a.args), aux_data: () };
            assert(sa.aux_data == a.aux_data);
            assert(sa == *a);
        },
        ExprView::For(f) => {
            lemma_strip_exprs_minimal(f.param_types);
            law_strip_is_identity_on_minimal_trees(f.return_type);
            let sf = ForView::<MinimalAst> {
                param_types: strip_exprs(f.param_types),
                return_type: strip(f.return_type),
                aux_data: (),
            };
            assert(sf.aux_data == f.aux_data);
            assert(sf == *f);
        },
        ExprView::Deb(d, aux) => {
            assert(aux == ());
        },
        ExprView::Universe(u, aux) => {
            assert(aux == ());
        },
    }
}

proof fn lemma_strip_ind_minimal(i: IndView<MinimalAst>)
    ensures
        strip_ind(i) == i,
    decreases i,
{
    lemma_strip_exprs_minimal(i.index_types);
    lemma_strip_vcon_defs_minimal(i.vcon_defs);
    assert(strip_ind(i).index_types == i.index_types);
    assert(strip_ind(i).vcon_defs == i.vcon_defs);
    assert(strip_ind(i).name == i.name);
    assert(strip_ind(i).universe == i.universe);
    assert(strip_ind(i).aux_data == i.aux_data);
}

proof fn lemma_strip_exprs_minimal(s: Seq<ExprView<MinimalAst>>)
    ensures
        strip_exprs(s) == s,
    decreases s,
{
    if s.len() > 0 {
        lemma_strip_exprs_minimal(s.drop_last());
        law_strip_is_identity_on_minimal_trees(s.last());
        assert(s.drop_last().push(s.last()) =~= s);
    }
}

proof fn lemma_strip_vcon_defs_minimal(s: Seq<VconDefView<MinimalAst>>)
    ensures
        strip_vcon_defs(s) == s,
    decreases s,
{
    if s.len() > 0 {
        lemma_strip_vcon_defs_minimal(s.drop_last());
        lemma_strip_exprs_minimal(s.last().param_types);
        lemma_strip_exprs_minimal(s.last().index_args);
        assert(strip_vcon_def(s.last()).aux_data == s.last().aux_data);
        assert(strip_vcon_def(s.last()) == s.last());
        assert(s.drop_last().push(s.last()) =~= s);
    }
}

proof fn lemma_strip_cases_minimal(s: Seq<MatchCaseView<MinimalAst>>)
    ensures
        strip_cases(s) == s,
    decreases s,
{
    if s.len() > 0 {
        lemma_strip_cases_minimal(s.drop_last());
        law_strip_is_identity_on_minimal_trees(s.last().return_val);
        assert(strip_case(s.last()).aux_data == s.last().aux_data);
        assert(strip_case(s.last()) == s.last());
        assert(s.drop_last().push(s.last()) =~= s);
    }
}

// ---------------------------------------------------------------------------
// The converter
// ---------------------------------------------------------------------------

/// Converts a tree of any family into one without auxiliary data.
pub struct AuxDataRemover;

impl AuxDataRemover {
    pub fn new() -> (res: Self)
        ensures
            res == AuxDataRemover,
    {
        AuxDataRemover
    }

    pub fn convert<A: AstFamily>(&mut self, original: Expr<A>) -> (res: Expr<MinimalAst>)
        ensures
            *final(self) == *old(self),
            res@ == strip(original@),
        decreases original,
    {
        match original {
            Expr::Ind(e) => Expr::Ind(self.convert_ind(e)),
            Expr::Vcon(e) => Expr::Vcon(self.convert_vcon(e)),
            Expr::Match(e) => Expr::Match(self.convert_match(e)),
            Expr::Fun(e) => Expr::Fun(self.convert_fun(e)),
            Expr::App(e) => Expr::App(self.convert_app(e)),
            Expr::For(e) => Expr::For(self.convert_for(e)),
            Expr::Deb(e) => Expr::Deb(rc_hashed(self.convert_deb_node(&e))),
            Expr::Universe(e) => Expr::Universe(rc_hashed(self.convert_universe_node(&e))),
        }
    }

    pub fn convert_ind<A: AstFamily>(&mut self, original: Rc<Ind<A>>) -> (res: Rc<Ind<MinimalAst>>)
        ensures
            *final(self) == *old(self),
            res@ == strip_ind(original@),
        decreases original,
    {
        proof {
            assert(decreases_to!(original => original.index_types));
            assert(decreases_to!(*original.index_types => (*original.index_types)@));
            assert(decreases_to!(original => original.vcon_defs));
        }
        let index_types = self.convert_expressions(original.index_types.as_slice());
        let vcon_defs = self.convert_vcon_defs(rc_clone(&original.vcon_defs));
        rc_hashed(
            Ind {
                name: rc_clone(&original.name),
                universe: original.universe,
                index_types,
                vcon_defs,
                aux_data: (),
            },
        )
    }

    pub fn convert_vcon_defs<A: AstFamily>(&mut self, original: Rc<Vec<VconDef<A>>>) -> (res: Rc<Vec<VconDef<MinimalAst>>>)
        ensures
            *final(self) == *old(self),
            vcon_defs_view(res@) == strip_vcon_defs(vcon_defs_view(original@)),
        decreases original,
    {
        let ghost ds = original@;
        proof {
            lemma_vcon_defs_view(ds);
            lemma_strip_vcon_defs(vcon_defs_view(ds));
        }
        let mut v: Vec<VconDef<MinimalAst>> = Vec::new();
        let mut i: usize = 0;
        while i < original.len()
            invariant
                i <= ds.len(),
                ds == original@,
                v@.len() == i,
                vcon_defs_view(ds).len() == ds.len(),
                strip_vcon_defs(vcon_defs_view(ds)).len() == ds.len(),
                forall|j: int| 0 <= j < i ==> vcon_def_view(#[trigger] v@[j]) == strip_vcon_defs(vcon_defs_view(ds))[j],
            decreases ds.len() - i,
        {
            proof {
                assert(decreases_to!(*original => (*original)@));
                assert(decreases_to!((*original)@ => (*original)@[i as int]));
                lemma_vcon_defs_view(ds);
                lemma_strip_vcon_defs(vcon_defs_view(ds));
            }
            let def = self.convert_vcon_def(original[i].copy());
            v.push(def);
            i += 1;
        }
        proof {
            lemma_vcon_defs_view(v@);
            lemma_vcon_defs_view(ds);
            lemma_strip_vcon_defs(vcon_defs_view(ds));
            assert(vcon_defs_view(v@) =~= strip_vcon_defs(vcon_defs_view(ds)));
        }
        rc_hashed(v)
    }

    pub fn convert_vcon_def<A: AstFamily>(&mut self, original: VconDef<A>) -> (res: VconDef<MinimalAst>)
        ensures
            *final(self) == *old(self),
            res@ == strip_vcon_def(original@),
        decreases original,
    {
        proof {
            assert(decreases_to!(original => original.param_types));
            assert(decreases_to!(*original.param_types => (*original.param_types)@));
            assert(decreases_to!(original => original.index_args));
            assert(decreases_to!(*original.index_args => (*original.index_args)@));
        }
        VconDef {
            param_types: self.convert_expressions(original.param_types.as_slice()),
            index_args: self.convert_expressions(original.index_args.as_slice()),
            aux_data: (),
        }
    }

    pub fn convert_vcon<A: AstFamily>(&mut self, original: Rc<Vcon<A>>) -> (res: Rc<Vcon<MinimalAst>>)
        ensures
            *final(self) == *old(self),
            Expr::Vcon(res)@ == strip(Expr::Vcon(original)@),
        decreases original,
    {
        rc_hashed(Vcon { ind: self.convert_ind(rc_clone(&original.ind)), vcon_index: original.vcon_index, aux_data: () })
    }

    pub fn convert_match<A: AstFamily>(&mut self, original: Rc<Match<A>>) -> (res: Rc<Match<MinimalAst>>)
        ensures
            *final(self) == *old(self),
            Expr::Match(res)@ == strip(Expr::Match(original)@),
        decreases original,
    {
        let matchee = self.convert(original.matchee.copy());
        let return_type = self.convert(original.return_type.copy());
        let cases = self.convert_match_cases(rc_clone(&original.cases));
        rc_hashed(
            Match {
                matchee,
                return_type_arity: original.return_type_arity,
                return_type,
                cases,
                aux_data: (),
            },
        )
    }

    pub fn convert_match_cases<A: AstFamily>(&mut self, original: Rc<Vec<MatchCase<A>>>) -> (res: Rc<Vec<MatchCase<MinimalAst>>>)
        ensures
            *final(self) == *old(self),
            cases_view(res@) == strip_cases(cases_view(original@)),
        decreases original,
    {
        let ghost cs = original@;
        proof {
            lemma_cases_view(cs);
            lemma_strip_cases(cases_view(cs));
        }
        let mut v: Vec<MatchCase<MinimalAst>> = Vec::new();
        let mut i: usize = 0;
        while i < original.len()
            invariant
                i <= cs.len(),
                cs == original@,
                v@.len() == i,
                cases_view(cs).len() == cs.len(),
                strip_cases(cases_view(cs)).len() == cs.len(),
                forall|j: int| 0 <= j < i ==> match_case_view(#[trigger] v@[j]) == strip_cases(cases_view(cs))[j],
            decreases cs.len() - i,
        {
            proof {
                assert(decreases_to!(*original => (*original)@));
                assert(decreases_to!((*original)@ => (*original)@[i as int]));
                lemma_cases_view(cs);
                lemma_strip_cases(cases_view(cs));
            }
            let case = self.convert_match_case(original[i].copy());
            v.push(case);
            i += 1;
        }
        proof {
            lemma_cases_view(v@);
            lemma_cases_view(cs);
            lemma_strip_cases(cases_view(cs));
            assert(cases_view(v@) =~= strip_cases(cases_view(cs)));
        }
        rc_hashed(v)
    }

    pub fn convert_match_case<A: AstFamily>(&mut self, original: MatchCase<A>) -> (res: MatchCase<MinimalAst>)
        ensures
            *final(self) == *old(self),
            res@ == strip_case(original@),
        decreases original,
    {
        MatchCase { arity: original.arity, return_val: self.convert(original.return_val), aux_data: () }
    }

    pub fn convert_fun<A: AstFamily>(&mut self, original: Rc<Fun<A>>) -> (res: Rc<Fun<MinimalAst>>)
        ensures
            *final(self) == *old(self),
            Expr::Fun(res)@ == strip(Expr::Fun(original)@),
        decreases original,
    {
        proof {
            assert(decreases_to!(original => original.param_types));
            assert(decreases_to!(*original.param_types => (*original.param_types)@));
        }
        let param_types = self.convert_expressions(original.param_types.as_slice());
        let return_type = self.convert(original.return_type.copy());
        let return_val = self.convert(original.return_val.copy());
        rc_hashed(Fun { decreasing_index: original.decreasing_index, param_types, return_type, return_val, aux_data: () })
    }

    pub fn convert_app<A: AstFamily>(&mut self, original: Rc<App<A>>) -> (res: Rc<App<MinimalAst>>)
        ensures
            *final(self) == *old(self),
            Expr::App(res)@ == strip(Expr::App(original)@),
        decreases original,
    {
        proof {
            assert(decreases_to!(original => original.args));
            assert(decreases_to!(*original.args => (*original.args)@));
        }
        let callee = self.convert(original.callee.copy());
        let args = self.convert_expressions(original.args.as_slice());
        rc_hashed(App { callee, args, aux_data: () })
    }

    pub fn convert_for<A: AstFamily>(&mut self, original: Rc<For<A>>) -> (res: Rc<For<MinimalAst>>)
        ensures
            *final(self) == *old(self),
            Expr::For(res)@ == strip(Expr::For(original)@),
        decreases original,
    {
        proof {
            assert(decreases_to!(original => original.param_types));
            assert(decreases_to!(*original.param_types => (*original.param_types)@));
        }
        let param_types = self.convert_expressions(original.param_types.as_slice());
        let return_type = self.convert(original.return_type.copy());
        rc_hashed(For { param_types, return_type, aux_data: () })
    }

    pub fn convert_expressions<A: AstFamily>(&mut self, original: &[Expr<A>]) -> (res: Rc<Vec<Expr<MinimalAst>>>)
        ensures
            *final(self) == *old(self),
            exprs_view(res@) == strip_exprs(exprs_view(original@)),
        decreases original@,
    {
        let ghost es = original@;
        proof {
            lemma_exprs_view(es);
            lemma_strip_exprs(exprs_view(es));
        }
        let mut v: Vec<Expr<MinimalAst>> = Vec::new();
        let mut i: usize = 0;
        while i < original.len()
            invariant
                i <= es.len(),
                es == original@,
                v@.len() == i,
                exprs_view(es).len() == es.len(),
                strip_exprs(exprs_view(es)).len() == es.len(),
                forall|j: int| 0 <= j < i ==> expr_view(#[trigger] v@[j]) == strip_exprs(exprs_view(es))[j],
            decreases es.len() - i,
        {
            proof {
                assert(decreases_to!(original@ => original@[i as int]));
                lemma_exprs_view(es);
                lemma_strip_exprs(exprs_view(es));
            }
            let e = self.convert(original[i].copy());
            v.push(e);
            i += 1;
        }
        proof {
            lemma_exprs_view(v@);
            lemma_exprs_view(es);
            lemma_strip_exprs(exprs_view(es));
            assert(exprs_view(v@) =~= strip_exprs(exprs_view(es)));
        }
        rc_hashed(v)
    }

    pub fn convert_deb_node<A: AstFamily>(&mut self, original: &DebNode<A>) -> (res: DebNode<MinimalAst>)
        ensures
            *final(self) == *old(self),
            res.deb == original.deb,
    {
        DebNode { deb: original.deb, aux_data: () }
    }

    pub fn convert_universe_node<A: AstFamily>(&mut self, original: &UniverseNode<A>) -> (res: UniverseNode<MinimalAst>)
        ensures
            *final(self) == *old(self),
            res.universe == original.universe,
    {
        UniverseNode { universe: original.universe, aux_data: () }
    }
}

/// Converts a tree with source spans into one without auxiliary data:
/// [`AuxDataRemover`] on the spanned family.
pub struct SpanRemover {
    remover: AuxDataRemover,
}

impl SpanRemover {
    pub fn new() -> (res: Self) {
        SpanRemover { remover: AuxDataRemover::new() }
    }

    pub fn convert(&mut self, ist: Expr<SpannedAst>) -> (res: Expr<MinimalAst>)
        ensures
            *final(self) == *old(self),
            res@ == strip(ist@),
    {
        self.remover.convert(ist)
    }

    pub fn convert_ind(&mut self, ist: Rc<Ind<SpannedAst>>) -> (res: Rc<Ind<MinimalAst>>)
        ensures
            *final(self) == *old(self),
            res@ == strip_ind(ist@),
    {
        self.remover.convert_ind(ist)
    }

    pub fn convert_vcon_defs(&mut self, ist: Rc<Vec<VconDef<SpannedAst>>>) -> (res: Rc<Vec<VconDef<MinimalAst>>>)
        ensures
            *final(self) == *old(self),
            vcon_defs_view(res@) == strip_vcon_defs(vcon_defs_view(ist@)),
    {
        self.remover.convert_vcon_defs(ist)
    }

    pub fn convert_vcon_def(&mut self, ist: VconDef<SpannedAst>) -> (res: VconDef<MinimalAst>)
        ensures
            *final(self) == *old(self),
            res@ == strip_vcon_def(ist@),
    {
        self.remover.convert_vcon_def(ist)
    }

    pub fn convert_vcon(&mut self, ist: Rc<Vcon<SpannedAst>>) -> (res: Rc<Vcon<MinimalAst>>)
        ensures
            *final(self) == *old(self),
            Expr::Vcon(res)@ == strip(Expr::Vcon(ist)@),
    {
        self.remover.convert_vcon(ist)
    }

    pub fn convert_match(&mut self, ist: Rc<Match<SpannedAst>>) -> (res: Rc<Match<MinimalAst>>)
        ensures
            *final(self) == *old(self),
            Expr::Match(res)@ == strip(Expr::Match(ist)@),
    {
        self.remover.convert_match(ist)
    }

    pub fn convert_match_cases(&mut self, ist: Rc<Vec<MatchCase<SpannedAst>>>) -> (res: Rc<Vec<MatchCase<MinimalAst>>>)
        ensures
            *final(self) == *old(self),
            cases_view(res@) == strip_cases(cases_view(ist@)),
    {
        self.remover.convert_match_cases(ist)
    }

    pub fn convert_match_case(&mut self, ist: MatchCase<SpannedAst>) -> (res: MatchCase<MinimalAst>)
        ensures
            *final(self) == *old(self),
            res@ == strip_case(ist@),
    {
        self.remover.convert_match_case(ist)
    }

    pub fn convert_fun(&mut self, ist: Rc<Fun<SpannedAst>>) -> (res: Rc<Fun<MinimalAst>>)
        ensures
            *final(self) == *old(self),
            Expr::Fun(res)@ == strip(Expr::Fun(ist)@),
    {
        self.remover.convert_fun(ist)
    }

    pub fn convert_app(&mut self, ist: Rc<App<SpannedAst>>) -> (res: Rc<App<MinimalAst>>)
        ensures
            *final(self) == *old(self),
            Expr::App(res)@ == strip(Expr::App(ist)@),
    {
        self.remover.convert_app(ist)
    }

    pub fn convert_for(&mut self, ist: Rc<For<SpannedAst>>) -> (res: Rc<For<MinimalAst>>)
        ensures
            *final(self) == *old(self),
            Expr::For(res)@ == strip(Expr::For(ist)@),
    {
        self.remover.convert_for(ist)
    }

    pub fn convert_expressions(&mut self, ist: &[Expr<SpannedAst>]) -> (res: Rc<Vec<Expr<MinimalAst>>>)
        ensures
            *final(self) == *old(self),
            exprs_view(res@) == strip_exprs(exprs_view(ist@)),
    {
        self.remover.convert_expressions(ist)
    }
}

} // verus!
