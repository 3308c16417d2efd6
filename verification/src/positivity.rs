//! The positivity condition on inductive type definitions.
//!
//! A recursive occurrence of an inductive type in the parameter types of
//! one of its constructors must be strictly positive: it may stand as the
//! result of a `for` type or as the callee of an application whose arguments
//! do not mention it, but never to the left of an arrow, in an argument, or
//! anywhere inside a `vcon`, `match` or `fun`. Nor may it appear in the index
//! arguments of a constructor's result.
//!
//! The checkers work on normalized trees without auxiliary data. They walk an
//! expression with a context that records, for each deb, whether it stands for
//! a recursive occurrence ("restricted"). On failure they return the path from
//! the checked expression to the offending deb.
//!
//! The checkers assume that their input is otherwise well typed; in particular
//! every deb must be bound (see [`scoped`]).

use vstd::prelude::*;
use crate::ast::{
    cases_size, exprs_size, expr_size, fun_size, ind_size, lemma_cases_size, lemma_exprs_size,
    lemma_vcon_defs_size, vcon_def_size, vcon_defs_size, App, AstFamily, Deb, Expr, For, Fun, Ind,
    Match, MatchCase, VconDef,
};
use crate::minimal_ast::MinimalAst;
use crate::node_path::{
    NodeEdge, NodePath, APP_ARGS, APP_CALLEE, FOR_PARAM_TYPES, FOR_RETURN_TYPE, FUN_PARAM_TYPES,
    FUN_RETURN_TYPE, FUN_RETURN_VAL, IND_INDEX_TYPES, IND_VCON_DEFS, MATCH_CASES, MATCH_MATCHEE,
    MATCH_RETURN_TYPE, VCON_DEF_INDEX_ARGS, VCON_DEF_PARAM_TYPES, VCON_IND,
};
use crate::typechecker::TypeChecker;
use crate::type_error::TypeError;

verus! {

// ---------------------------------------------------------------------------
// Contexts
// ---------------------------------------------------------------------------

/// Whether a deb stands for a recursive occurrence of the inductive type being checked.
#[derive(Debug, Clone, Copy, PartialEq, Eq, Structural)]
pub struct IsRestrictedRecursiveIndEntry(pub bool);

/// A vector whose elements are all the same, stored as one element and a length.
#[derive(Debug, Clone, Copy)]
pub struct RepeatVec<T> {
    pub val: T,
    pub len: usize,
}

pub type RestrictionStatusVec = RepeatVec<IsRestrictedRecursiveIndEntry>;

impl<T> View for RepeatVec<T> {
    type V = Seq<T>;

    open spec fn view(&self) -> Seq<T> {
        Seq::new(self.len as nat, |i: int| self.val)
    }
}

#[derive(Debug, Clone, Copy)]
pub enum Context<'a> {
    Base(RestrictionStatusVec),
    Snoc(&'a Context<'a>, RestrictionStatusVec),
}

/// The restriction flags of a run of entries.
pub open spec fn flags(r: RestrictionStatusVec) -> Seq<bool> {
    Seq::new(r.len as nat, |i: int| r.val.0)
}

/// `n` unrestricted entries.
pub open spec fn falses(n: nat) -> Seq<bool> {
    Seq::new(n, |i: int| false)
}

impl<'a> Context<'a> {
    /// The flags of all entries, outermost first: the last one is that of deb `0`.
    pub open spec fn flat(&self) -> Seq<bool>
        decreases *self,
    {
        match *self {
            Context::Base(r) => flags(r),
            Context::Snoc(c, r) => c.flat() + flags(r),
        }
    }
}

/// The flag of `deb` in `ctx`, if `deb` is bound there.
pub open spec fn ctx_flag(ctx: Seq<bool>, deb: int) -> Option<bool> {
    if 0 <= deb < ctx.len() {
        Some(ctx[ctx.len() - 1 - deb])
    } else {
        None
    }
}

// ---------------------------------------------------------------------------
// Scope: every deb of an expression is bound by the context or the expression
// ---------------------------------------------------------------------------

pub open spec fn scoped<A: AstFamily>(e: Expr<A>, n: nat) -> bool
    decreases e, 0int,
{
    match e {
        Expr::Ind(i) => scoped_ind(*i, n),
        Expr::Vcon(v) => scoped_ind(*v.ind, n),
        Expr::Match(m) => {
            &&& scoped(m.matchee, n)
            &&& scoped(m.return_type, n + m.return_type_arity as nat)
            &&& scoped_cases(m.cases@, 0, n)
        },
        Expr::Fun(f) => {
            &&& scoped_dependent(f.param_types@, 0, n)
            &&& scoped(f.return_type, n + f.param_types@.len())
            &&& scoped(f.return_val, n + f.param_types@.len() + 1)
        },
        Expr::App(a) => scoped(a.callee, n) && scoped_independent(a.args@, 0, n),
        Expr::For(f) => scoped_dependent(f.param_types@, 0, n) && scoped(f.return_type, n + f.param_types@.len()),
        Expr::Deb(d) => d.deb.0 < n,
        Expr::Universe(_) => true,
    }
}

pub open spec fn scoped_ind<A: AstFamily>(ind: Ind<A>, n: nat) -> bool
    decreases ind, 0int,
{
    scoped_dependent(ind.index_types@, 0, n) && scoped_vcon_defs(ind.vcon_defs@, 0, n + 1)
}

pub open spec fn scoped_vcon_defs<A: AstFamily>(defs: Seq<VconDef<A>>, i: int, n: nat) -> bool
    decreases defs, defs.len() - i,
{
    if 0 <= i < defs.len() {
        scoped_vcon_def(defs[i], n) && scoped_vcon_defs(defs, i + 1, n)
    } else {
        true
    }
}

pub open spec fn scoped_vcon_def<A: AstFamily>(def: VconDef<A>, n: nat) -> bool
    decreases def, 0int,
{
    scoped_dependent(def.param_types@, 0, n) && scoped_independent(def.index_args@, 0, n + def.param_types@.len())
}

pub open spec fn scoped_cases<A: AstFamily>(cases: Seq<MatchCase<A>>, i: int, n: nat) -> bool
    decreases cases, cases.len() - i,
{
    if 0 <= i < cases.len() {
        scoped(cases[i].return_val, n + cases[i].arity as nat) && scoped_cases(cases, i + 1, n)
    } else {
        true
    }
}

/// Item `i` of the list sees `i` more debs.
pub open spec fn scoped_dependent<A: AstFamily>(exprs: Seq<Expr<A>>, i: int, n: nat) -> bool
    decreases exprs, exprs.len() - i,
{
    if 0 <= i < exprs.len() {
        scoped(exprs[i], n + i as nat) && scoped_dependent(exprs, i + 1, n)
    } else {
        true
    }
}

pub open spec fn scoped_independent<A: AstFamily>(exprs: Seq<Expr<A>>, i: int, n: nat) -> bool
    decreases exprs, exprs.len() - i,
{
    if 0 <= i < exprs.len() {
        scoped(exprs[i], n) && scoped_independent(exprs, i + 1, n)
    } else {
        true
    }
}

// ---------------------------------------------------------------------------
// Absence: no restricted deb occurs in the expression
// ---------------------------------------------------------------------------

pub open spec fn edge(path: Seq<NodeEdge>, k: int) -> Seq<NodeEdge> {
    path.push(NodeEdge(k as usize))
}

/// `Ok` if no restricted deb of `ctx` occurs in `e`; otherwise the path (from the
/// root, which `path` leads to) to the first one in traversal order.
pub open spec fn absent(e: Expr<MinimalAst>, ctx: Seq<bool>, path: Seq<NodeEdge>) -> Result<(), Seq<NodeEdge>>
    decreases e, 0int,
{
    match e {
        Expr::Ind(i) => absent_ind(*i, ctx, path),
        Expr::Vcon(v) => absent_ind(*v.ind, ctx, edge(path, VCON_IND as int)),
        Expr::Match(m) => match absent(m.matchee, ctx, edge(path, MATCH_MATCHEE as int)) {
            Err(p) => Err(p),
            Ok(_) => match absent(m.return_type, ctx + falses(m.return_type_arity as nat), edge(path, MATCH_RETURN_TYPE as int)) {
                Err(p) => Err(p),
                Ok(_) => absent_cases(m.cases@, 0, ctx, edge(path, MATCH_CASES as int)),
            },
        },
        Expr::Fun(f) => match absent_dependent(f.param_types@, 0, ctx, edge(path, FUN_PARAM_TYPES as int)) {
            Err(p) => Err(p),
            Ok(_) => match absent(f.return_type, ctx + falses(f.param_types@.len()), edge(path, FUN_RETURN_TYPE as int)) {
                Err(p) => Err(p),
                Ok(_) => absent(
                    f.return_val,
                    ctx + falses(f.param_types@.len()) + falses(1),
                    edge(path, FUN_RETURN_VAL as int),
                ),
            },
        },
        Expr::App(a) => match absent(a.callee, ctx, edge(path, APP_CALLEE as int)) {
            Err(p) => Err(p),
            Ok(_) => absent_independent(a.args@, 0, ctx, edge(path, APP_ARGS as int)),
        },
        Expr::For(f) => match absent_dependent(f.param_types@, 0, ctx, edge(path, FOR_PARAM_TYPES as int)) {
            Err(p) => Err(p),
            Ok(_) => absent(f.return_type, ctx + falses(f.param_types@.len()), edge(path, FOR_RETURN_TYPE as int)),
        },
        Expr::Deb(d) => if ctx_flag(ctx, d.deb.0 as int) == Some(true) {
            Err(path)
        } else {
            Ok(())
        },
        Expr::Universe(_) => Ok(()),
    }
}

pub open spec fn absent_ind(ind: Ind<MinimalAst>, ctx: Seq<bool>, path: Seq<NodeEdge>) -> Result<(), Seq<NodeEdge>>
    decreases ind, 0int,
{
    match absent_dependent(ind.index_types@, 0, ctx, edge(path, IND_INDEX_TYPES as int)) {
        Err(p) => Err(p),
        Ok(_) => absent_vcon_defs(ind.vcon_defs@, 0, ctx + falses(1), edge(path, IND_VCON_DEFS as int)),
    }
}

pub open spec fn absent_vcon_defs(
    defs: Seq<VconDef<MinimalAst>>,
    i: int,
    ctx: Seq<bool>,
    path: Seq<NodeEdge>,
) -> Result<(), Seq<NodeEdge>>
    decreases defs, defs.len() - i,
{
    if 0 <= i < defs.len() {
        match absent_vcon_def(defs[i], ctx, edge(path, i)) {
            Err(p) => Err(p),
            Ok(_) => absent_vcon_defs(defs, i + 1, ctx, path),
        }
    } else {
        Ok(())
    }
}

pub open spec fn absent_vcon_def(def: VconDef<MinimalAst>, ctx: Seq<bool>, path: Seq<NodeEdge>) -> Result<(), Seq<NodeEdge>>
    decreases def, 0int,
{
    match absent_dependent(def.param_types@, 0, ctx, edge(path, VCON_DEF_PARAM_TYPES as int)) {
        Err(p) => Err(p),
        Ok(_) => absent_independent(
            def.index_args@,
            0,
            ctx + falses(def.param_types@.len()),
            edge(path, VCON_DEF_INDEX_ARGS as int),
        ),
    }
}

pub open spec fn absent_cases(
    cases: Seq<MatchCase<MinimalAst>>,
    i: int,
    ctx: Seq<bool>,
    path: Seq<NodeEdge>,
) -> Result<(), Seq<NodeEdge>>
    decreases cases, cases.len() - i,
{
    if 0 <= i < cases.len() {
        match absent(cases[i].return_val, ctx + falses(cases[i].arity as nat), edge(path, i)) {
            Err(p) => Err(p),
            Ok(_) => absent_cases(cases, i + 1, ctx, path),
        }
    } else {
        Ok(())
    }
}

pub open spec fn absent_dependent(
    exprs: Seq<Expr<MinimalAst>>,
    i: int,
    ctx: Seq<bool>,
    path: Seq<NodeEdge>,
) -> Result<(), Seq<NodeEdge>>
    decreases exprs, exprs.len() - i,
{
    if 0 <= i < exprs.len() {
        match absent(exprs[i], ctx + falses(i as nat), edge(path, i)) {
            Err(p) => Err(p),
            Ok(_) => absent_dependent(exprs, i + 1, ctx, path),
        }
    } else {
        Ok(())
    }
}

pub open spec fn absent_independent(
    exprs: Seq<Expr<MinimalAst>>,
    i: int,
    ctx: Seq<bool>,
    path: Seq<NodeEdge>,
) -> Result<(), Seq<NodeEdge>>
    decreases exprs, exprs.len() - i,
{
    if 0 <= i < exprs.len() {
        match absent(exprs[i], ctx, edge(path, i)) {
            Err(p) => Err(p),
            Ok(_) => absent_independent(exprs, i + 1, ctx, path),
        }
    } else {
        Ok(())
    }
}

// ---------------------------------------------------------------------------
// Strict positivity
// ---------------------------------------------------------------------------

/// `Ok` if every restricted deb of `ctx` occurs only strictly positively in `e`;
/// otherwise the path to the first offending deb.
pub open spec fn strictly_positive(e: Expr<MinimalAst>, ctx: Seq<bool>, path: Seq<NodeEdge>) -> Result<(), Seq<NodeEdge>>
    decreases e, 1int,
{
    match e {
        Expr::Ind(i) => strictly_positive_ind(*i, ctx, path),
        Expr::Deb(_) => Ok(()),
        Expr::App(a) => strictly_positive_app(*a, ctx, path),
        Expr::For(f) => strictly_positive_for(*f, ctx, path),
        _ => absent(e, ctx, path),
    }
}

pub open spec fn strictly_positive_ind(ind: Ind<MinimalAst>, ctx: Seq<bool>, path: Seq<NodeEdge>) -> Result<(), Seq<NodeEdge>>
    decreases ind, 1int,
{
    match absent_dependent(ind.index_types@, 0, ctx, edge(path, IND_INDEX_TYPES as int)) {
        Err(p) => Err(p),
        Ok(_) => strictly_positive_vcon_defs(ind.vcon_defs@, 0, ctx.push(true), edge(path, IND_VCON_DEFS as int)),
    }
}

pub open spec fn strictly_positive_vcon_defs(
    defs: Seq<VconDef<MinimalAst>>,
    i: int,
    ctx: Seq<bool>,
    path: Seq<NodeEdge>,
) -> Result<(), Seq<NodeEdge>>
    decreases defs, defs.len() - i,
{
    if 0 <= i < defs.len() {
        match strictly_positive_vcon_def(defs[i], ctx, edge(path, i)) {
            Err(p) => Err(p),
            Ok(_) => strictly_positive_vcon_defs(defs, i + 1, ctx, path),
        }
    } else {
        Ok(())
    }
}

pub open spec fn strictly_positive_vcon_def(
    def: VconDef<MinimalAst>,
    ctx: Seq<bool>,
    path: Seq<NodeEdge>,
) -> Result<(), Seq<NodeEdge>>
    decreases def, 1int,
{
    match strictly_positive_dependent(def.param_types@, 0, ctx, edge(path, VCON_DEF_PARAM_TYPES as int)) {
        Err(p) => Err(p),
        Ok(_) => absent_independent(
            def.index_args@,
            0,
            ctx + falses(def.param_types@.len()),
            edge(path, VCON_DEF_INDEX_ARGS as int),
        ),
    }
}

pub open spec fn strictly_positive_app(app: App<MinimalAst>, ctx: Seq<bool>, path: Seq<NodeEdge>) -> Result<(), Seq<NodeEdge>>
    decreases app, 1int,
{
    match strictly_positive_app_callee(app.callee, ctx, edge(path, APP_CALLEE as int)) {
        Err(p) => Err(p),
        Ok(_) => absent_independent(app.args@, 0, ctx, edge(path, APP_ARGS as int)),
    }
}

/// A callee may be a (nested) inductive type or a deb; anything else must not
/// mention a restricted deb.
pub open spec fn strictly_positive_app_callee(
    callee: Expr<MinimalAst>,
    ctx: Seq<bool>,
    path: Seq<NodeEdge>,
) -> Result<(), Seq<NodeEdge>>
    decreases callee, 2int,
{
    match callee {
        Expr::Ind(i) => strictly_positive_ind(*i, ctx, path),
        Expr::Deb(_) => Ok(()),
        _ => absent(callee, ctx, path),
    }
}

pub open spec fn strictly_positive_for(for_: For<MinimalAst>, ctx: Seq<bool>, path: Seq<NodeEdge>) -> Result<(), Seq<NodeEdge>>
    decreases for_, 1int,
{
    match absent_dependent(for_.param_types@, 0, ctx, edge(path, FOR_PARAM_TYPES as int)) {
        Err(p) => Err(p),
        Ok(_) => strictly_positive(
            for_.return_type,
            ctx + falses(for_.param_types@.len()),
            edge(path, FOR_RETURN_TYPE as int),
        ),
    }
}

pub open spec fn strictly_positive_dependent(
    exprs: Seq<Expr<MinimalAst>>,
    i: int,
    ctx: Seq<bool>,
    path: Seq<NodeEdge>,
) -> Result<(), Seq<NodeEdge>>
    decreases exprs, exprs.len() - i,
{
    if 0 <= i < exprs.len() {
        match strictly_positive(exprs[i], ctx + falses(i as nat), edge(path, i)) {
            Err(p) => Err(p),
            Ok(_) => strictly_positive_dependent(exprs, i + 1, ctx, path),
        }
    } else {
        Ok(())
    }
}

// ---------------------------------------------------------------------------
// Paths are relative: where checking starts only prefixes the reported path
// ---------------------------------------------------------------------------

pub open spec fn prepend(p: Seq<NodeEdge>, r: Result<(), Seq<NodeEdge>>) -> Result<(), Seq<NodeEdge>> {
    match r {
        Ok(_) => Ok(()),
        Err(q) => Err(p + q),
    }
}

proof fn lemma_prepend_edge()
    ensures
        forall|p: Seq<NodeEdge>, k: int, r: Result<(), Seq<NodeEdge>>|
            #[trigger] prepend(edge(p, k), r) == prepend(p, prepend(edge(Seq::empty(), k), r)),
{
    assert forall|p: Seq<NodeEdge>, k: int, r: Result<(), Seq<NodeEdge>>|
        #[trigger] prepend(edge(p, k), r) == prepend(p, prepend(edge(Seq::empty(), k), r)) by {
        if let Err(q) = r {
            assert(edge(p, k) + q =~= p + (edge(Seq::empty(), k) + q));
        }
    }
}

/// The innermost `m` debs of `ctx` (those below `m`) are all unrestricted.
pub open spec fn innermost_unrestricted(ctx: Seq<bool>, m: nat) -> bool {
    forall|d: int| 0 <= d < m && d < ctx.len() ==> !#[trigger] ctx[ctx.len() - 1 - d]
}

proof fn lemma_innermost_unrestricted_extend(ctx: Seq<bool>, m: nat, k: nat)
    requires
        innermost_unrestricted(ctx, m),
    ensures
        innermost_unrestricted(ctx + falses(k), m + k),
{
    let ext = ctx + falses(k);
    assert forall|d: int| 0 <= d < m + k && d < ext.len() implies !#[trigger] ext[ext.len() - 1 - d] by {
        if d < k {
            assert(ext[ext.len() - 1 - d] == falses(k)[k - 1 - d]);
        } else {
            assert(ext[ext.len() - 1 - d] == ctx[ctx.len() - 1 - (d - k)]);
        }
    }
}

/// The absence check reports only restricted debs that the expression refers to:
/// if every deb free in `e` is below `m` and the innermost `m` debs of `ctx` are
/// unrestricted, the check succeeds. In particular it succeeds on every closed
/// expression (`m == 0`), whatever the context, and on every expression scoped in
/// a context without restricted entries; a nested inductive type's reference to
/// itself is never reported.
pub proof fn law_absence_only_reports_restricted_debs(e: &Expr<MinimalAst>, ctx: Seq<bool>, m: nat, p: Seq<NodeEdge>)
    requires
        scoped(*e, m),
        innermost_unrestricted(ctx, m),
    ensures
        absent(*e, ctx, p) == Ok::<(), Seq<NodeEdge>>(()),
    decreases *e, 0int,
{
    match e {
        Expr::Ind(i) => lemma_absent_ind_unrestricted(&*i, ctx, m, p),
        Expr::Vcon(v) => lemma_absent_ind_unrestricted(&*v.ind, ctx, m, edge(p, VCON_IND as int)),
        Expr::Match(mt) => {
            law_absence_only_reports_restricted_debs(&mt.matchee, ctx, m, edge(p, MATCH_MATCHEE as int));
            lemma_innermost_unrestricted_extend(ctx, m, mt.return_type_arity as nat);
            law_absence_only_reports_restricted_debs(
                &mt.return_type,
                ctx + falses(mt.return_type_arity as nat),
                m + mt.return_type_arity as nat,
                edge(p, MATCH_RETURN_TYPE as int),
            );
            lemma_absent_cases_unrestricted(mt.cases@, 0, ctx, m, edge(p, MATCH_CASES as int));
        },
        Expr::Fun(f) => {
            let n = f.param_types@.len();
            lemma_absent_dependent_unrestricted(f.param_types@, 0, ctx, m, edge(p, FUN_PARAM_TYPES as int));
            lemma_innermost_unrestricted_extend(ctx, m, n);
            law_absence_only_reports_restricted_debs(&f.return_type, ctx + falses(n), m + n, edge(p, FUN_RETURN_TYPE as int));
            lemma_innermost_unrestricted_extend(ctx + falses(n), m + n, 1);
            law_absence_only_reports_restricted_debs(
                &f.return_val,
                ctx + falses(n) + falses(1),
                m + n + 1,
                edge(p, FUN_RETURN_VAL as int),
            );
        },
        Expr::App(a) => {
            law_absence_only_reports_restricted_debs(&a.callee, ctx, m, edge(p, APP_CALLEE as int));
            lemma_absent_independent_unrestricted(a.args@, 0, ctx, m, edge(p, APP_ARGS as int));
        },
        Expr::For(f) => {
            let n = f.param_types@.len();
            lemma_absent_dependent_unrestricted(f.param_types@, 0, ctx, m, edge(p, FOR_PARAM_TYPES as int));
            lemma_innermost_unrestricted_extend(ctx, m, n);
            law_absence_only_reports_restricted_debs(&f.return_type, ctx + falses(n), m + n, edge(p, FOR_RETURN_TYPE as int));
        },
        Expr::Deb(d) => {
            if 0 <= d.deb.0 < ctx.len() {
                assert(!ctx[ctx.len() - 1 - d.deb.0]);
            }
        },
        Expr::Universe(_) => {},
    }
}

proof fn lemma_absent_ind_unrestricted(ind: &Ind<MinimalAst>, ctx: Seq<bool>, m: nat, p: Seq<NodeEdge>)
    requires
        scoped_ind(*ind, m),
        innermost_unrestricted(ctx, m),
    ensures
        absent_ind(*ind, ctx, p) == Ok::<(), Seq<NodeEdge>>(()),
    decreases *ind, 0int,
{
    lemma_absent_dependent_unrestricted(ind.index_types@, 0, ctx, m, edge(p, IND_INDEX_TYPES as int));
    lemma_innermost_unrestricted_extend(ctx, m, 1);
    lemma_absent_vcon_defs_unrestricted(ind.vcon_defs@, 0, ctx + falses(1), m + 1, edge(p, IND_VCON_DEFS as int));
}

proof fn lemma_absent_vcon_defs_unrestricted(
    defs: Seq<VconDef<MinimalAst>>,
    i: int,
    ctx: Seq<bool>,
    m: nat,
    p: Seq<NodeEdge>,
)
    requires
        scoped_vcon_defs(defs, i, m),
        innermost_unrestricted(ctx, m),
    ensures
        absent_vcon_defs(defs, i, ctx, p) == Ok::<(), Seq<NodeEdge>>(()),
    decreases defs, defs.len() - i,
{
    if 0 <= i < defs.len() {
        let def = defs[i];
        assert(scoped_vcon_def(def, m));
        assert(scoped_dependent(def.param_types@, 0, m));
        assert(scoped_independent(def.index_args@, 0, m + def.param_types@.len()));
        lemma_absent_dependent_unrestricted(def.param_types@, 0, ctx, m, edge(edge(p, i), VCON_DEF_PARAM_TYPES as int));
        lemma_innermost_unrestricted_extend(ctx, m, def.param_types@.len());
        lemma_absent_independent_unrestricted(
            def.index_args@,
            0,
            ctx + falses(def.param_types@.len()),
            m + def.param_types@.len(),
            edge(edge(p, i), VCON_DEF_INDEX_ARGS as int),
        );
        assert(absent_vcon_def(def, ctx, edge(p, i)) == Ok::<(), Seq<NodeEdge>>(()));
        lemma_absent_vcon_defs_unrestricted(defs, i + 1, ctx, m, p);
    }
}

proof fn lemma_absent_cases_unrestricted(
    cases: Seq<MatchCase<MinimalAst>>,
    i: int,
    ctx: Seq<bool>,
    m: nat,
    p: Seq<NodeEdge>,
)
    requires
        scoped_cases(cases, i, m),
        innermost_unrestricted(ctx, m),
    ensures
        absent_cases(cases, i, ctx, p) == Ok::<(), Seq<NodeEdge>>(()),
    decreases cases, cases.len() - i,
{
    if 0 <= i < cases.len() {
        let arity = cases[i].arity as nat;
        lemma_innermost_unrestricted_extend(ctx, m, arity);
        law_absence_only_reports_restricted_debs(&cases[i].return_val, ctx + falses(arity), m + arity, edge(p, i));
        lemma_absent_cases_unrestricted(cases, i + 1, ctx, m, p);
    }
}

proof fn lemma_absent_dependent_unrestricted(
    exprs: Seq<Expr<MinimalAst>>,
    i: int,
    ctx: Seq<bool>,
    m: nat,
    p: Seq<NodeEdge>,
)
    requires
        scoped_dependent(exprs, i, m),
        innermost_unrestricted(ctx, m),
    ensures
        absent_dependent(exprs, i, ctx, p) == Ok::<(), Seq<NodeEdge>>(()),
    decreases exprs, exprs.len() - i,
{
    if 0 <= i < exprs.len() {
        lemma_innermost_unrestricted_extend(ctx, m, i as nat);
        law_absence_only_reports_restricted_debs(&exprs[i], ctx + falses(i as nat), m + i as nat, edge(p, i));
        lemma_absent_dependent_unrestricted(exprs, i + 1, ctx, m, p);
    }
}

proof fn lemma_absent_independent_unrestricted(
    exprs: Seq<Expr<MinimalAst>>,
    i: int,
    ctx: Seq<bool>,
    m: nat,
    p: Seq<NodeEdge>,
)
    requires
        scoped_independent(exprs, i, m),
        innermost_unrestricted(ctx, m),
    ensures
        absent_independent(exprs, i, ctx, p) == Ok::<(), Seq<NodeEdge>>(()),
    decreases exprs, exprs.len() - i,
{
    if 0 <= i < exprs.len() {
        law_absence_only_reports_restricted_debs(&exprs[i], ctx, m, edge(p, i));
        lemma_absent_independent_unrestricted(exprs, i + 1, ctx, m, p);
    }
}

/// The absence check started at path `p` fails exactly when it fails started at
/// the root, and then reports `p` followed by the path from the root.
pub proof fn law_absence_paths_are_relative(e: &Expr<MinimalAst>, ctx: Seq<bool>, p: Seq<NodeEdge>)
    ensures
        absent(*e, ctx, p) == prepend(p, absent(*e, ctx, Seq::empty())),
    decreases *e, 0int,
{
    lemma_prepend_edge();
    let nil = Seq::<NodeEdge>::empty();
    match e {
        Expr::Ind(i) => {
            lemma_absent_ind_relative(&*i, ctx, p);
        },
        Expr::Vcon(v) => {
            lemma_absent_ind_relative(&*v.ind, ctx, edge(p, VCON_IND as int));
            lemma_absent_ind_relative(&*v.ind, ctx, edge(nil, VCON_IND as int));
        },
        Expr::Match(m) => {
            lemma_absent_child_relative(&m.matchee, ctx, p, MATCH_MATCHEE as int);
            let rt_ctx = ctx + falses(m.return_type_arity as nat);
            lemma_absent_child_relative(&m.return_type, rt_ctx, p, MATCH_RETURN_TYPE as int);
            lemma_absent_cases_relative(m.cases@, 0, ctx, edge(p, MATCH_CASES as int));
            lemma_absent_cases_relative(m.cases@, 0, ctx, edge(nil, MATCH_CASES as int));
        },
        Expr::Fun(f) => {
            let n = f.param_types@.len();
            lemma_absent_dependent_relative(f.param_types@, 0, ctx, edge(p, FUN_PARAM_TYPES as int));
            lemma_absent_dependent_relative(f.param_types@, 0, ctx, edge(nil, FUN_PARAM_TYPES as int));
            lemma_absent_child_relative(&f.return_type, ctx + falses(n), p, FUN_RETURN_TYPE as int);
            lemma_absent_child_relative(&f.return_val, ctx + falses(n) + falses(1), p, FUN_RETURN_VAL as int);
        },
        Expr::App(a) => {
            lemma_absent_child_relative(&a.callee, ctx, p, APP_CALLEE as int);
            lemma_absent_independent_relative(a.args@, 0, ctx, edge(p, APP_ARGS as int));
            lemma_absent_independent_relative(a.args@, 0, ctx, edge(nil, APP_ARGS as int));
        },
        Expr::For(f) => {
            let n = f.param_types@.len();
            lemma_absent_dependent_relative(f.param_types@, 0, ctx, edge(p, FOR_PARAM_TYPES as int));
            lemma_absent_dependent_relative(f.param_types@, 0, ctx, edge(nil, FOR_PARAM_TYPES as int));
            lemma_absent_child_relative(&f.return_type, ctx + falses(n), p, FOR_RETURN_TYPE as int);
        },
        Expr::Deb(_) => {
            assert(p + nil =~= p);
        },
        Expr::Universe(_) => {},
    }
}

/// The check of a child reached by edge `k` from `p`.
proof fn lemma_absent_child_relative(e: &Expr<MinimalAst>, ctx: Seq<bool>, p: Seq<NodeEdge>, k: int)
    ensures
        absent(*e, ctx, edge(p, k)) == prepend(p, absent(*e, ctx, edge(Seq::empty(), k))),
    decreases *e, 1int,
{
    lemma_prepend_edge();
    law_absence_paths_are_relative(e, ctx, edge(p, k));
    law_absence_paths_are_relative(e, ctx, edge(Seq::empty(), k));
}

proof fn lemma_absent_ind_relative(ind: &Ind<MinimalAst>, ctx: Seq<bool>, p: Seq<NodeEdge>)
    ensures
        absent_ind(*ind, ctx, p) == prepend(p, absent_ind(*ind, ctx, Seq::empty())),
    decreases *ind, 0int,
{
    lemma_prepend_edge();
    let nil = Seq::<NodeEdge>::empty();
    lemma_absent_dependent_relative(ind.index_types@, 0, ctx, edge(p, IND_INDEX_TYPES as int));
    lemma_absent_dependent_relative(ind.index_types@, 0, ctx, edge(nil, IND_INDEX_TYPES as int));
    lemma_absent_vcon_defs_relative(ind.vcon_defs@, 0, ctx + falses(1), edge(p, IND_VCON_DEFS as int));
    lemma_absent_vcon_defs_relative(ind.vcon_defs@, 0, ctx + falses(1), edge(nil, IND_VCON_DEFS as int));
}

proof fn lemma_absent_vcon_defs_relative(defs: Seq<VconDef<MinimalAst>>, i: int, ctx: Seq<bool>, p: Seq<NodeEdge>)
    ensures
        absent_vcon_defs(defs, i, ctx, p) == prepend(p, absent_vcon_defs(defs, i, ctx, Seq::empty())),
    decreases defs, defs.len() - i,
{
    lemma_prepend_edge();
    let nil = Seq::<NodeEdge>::empty();
    if 0 <= i < defs.len() {
        lemma_absent_vcon_def_relative(defs[i], ctx, edge(p, i));
        lemma_absent_vcon_def_relative(defs[i], ctx, edge(nil, i));
        lemma_absent_vcon_defs_relative(defs, i + 1, ctx, p);
    }
}

proof fn lemma_absent_vcon_def_relative(def: VconDef<MinimalAst>, ctx: Seq<bool>, p: Seq<NodeEdge>)
    ensures
        absent_vcon_def(def, ctx, p) == prepend(p, absent_vcon_def(def, ctx, Seq::empty())),
    decreases def, 0int,
{
    lemma_prepend_edge();
    let nil = Seq::<NodeEdge>::empty();
    let n = def.param_types@.len();
    lemma_absent_dependent_relative(def.param_types@, 0, ctx, edge(p, VCON_DEF_PARAM_TYPES as int));
    lemma_absent_dependent_relative(def.param_types@, 0, ctx, edge(nil, VCON_DEF_PARAM_TYPES as int));
    lemma_absent_independent_relative(def.index_args@, 0, ctx + falses(n), edge(p, VCON_DEF_INDEX_ARGS as int));
    lemma_absent_independent_relative(def.index_args@, 0, ctx + falses(n), edge(nil, VCON_DEF_INDEX_ARGS as int));
}

proof fn lemma_absent_cases_relative(cases: Seq<MatchCase<MinimalAst>>, i: int, ctx: Seq<bool>, p: Seq<NodeEdge>)
    ensures
        absent_cases(cases, i, ctx, p) == prepend(p, absent_cases(cases, i, ctx, Seq::empty())),
    decreases cases, cases.len() - i,
{
    if 0 <= i < cases.len() {
        assert(decreases_to!(cases => cases[i]));
        lemma_absent_child_relative(&cases[i].return_val, ctx + falses(cases[i].arity as nat), p, i);
        lemma_absent_cases_relative(cases, i + 1, ctx, p);
    }
}

proof fn lemma_absent_dependent_relative(exprs: Seq<Expr<MinimalAst>>, i: int, ctx: Seq<bool>, p: Seq<NodeEdge>)
    ensures
        absent_dependent(exprs, i, ctx, p) == prepend(p, absent_dependent(exprs, i, ctx, Seq::empty())),
    decreases exprs, exprs.len() - i,
{
    if 0 <= i < exprs.len() {
        lemma_absent_child_relative(&exprs[i], ctx + falses(i as nat), p, i);
        lemma_absent_dependent_relative(exprs, i + 1, ctx, p);
    }
}

proof fn lemma_absent_independent_relative(exprs: Seq<Expr<MinimalAst>>, i: int, ctx: Seq<bool>, p: Seq<NodeEdge>)
    ensures
        absent_independent(exprs, i, ctx, p) == prepend(p, absent_independent(exprs, i, ctx, Seq::empty())),
    decreases exprs, exprs.len() - i,
{
    if 0 <= i < exprs.len() {
        lemma_absent_child_relative(&exprs[i], ctx, p, i);
        lemma_absent_independent_relative(exprs, i + 1, ctx, p);
    }
}

/// The strict positivity check started at path `p` fails exactly when it fails
/// started at the root, and then reports `p` followed by the path from the root.
pub proof fn law_strict_positivity_paths_are_relative(e: &Expr<MinimalAst>, ctx: Seq<bool>, p: Seq<NodeEdge>)
    ensures
        strictly_positive(*e, ctx, p) == prepend(p, strictly_positive(*e, ctx, Seq::empty())),
    decreases *e, 1int,
{
    match e {
        Expr::Ind(i) => {
            lemma_strict_ind_relative(&*i, ctx, p);
        },
        Expr::Deb(_) => {},
        Expr::App(a) => {
            lemma_strict_app_relative(&*a, ctx, p);
        },
        Expr::For(f) => {
            lemma_strict_for_relative(&*f, ctx, p);
        },
        _ => {
            law_absence_paths_are_relative(e, ctx, p);
        },
    }
}

proof fn lemma_strict_child_relative(e: &Expr<MinimalAst>, ctx: Seq<bool>, p: Seq<NodeEdge>, k: int)
    ensures
        strictly_positive(*e, ctx, edge(p, k)) == prepend(p, strictly_positive(*e, ctx, edge(Seq::empty(), k))),
    decreases *e, 2int,
{
    lemma_prepend_edge();
    law_strict_positivity_paths_are_relative(e, ctx, edge(p, k));
    law_strict_positivity_paths_are_relative(e, ctx, edge(Seq::empty(), k));
}

proof fn lemma_strict_ind_relative(ind: &Ind<MinimalAst>, ctx: Seq<bool>, p: Seq<NodeEdge>)
    ensures
        strictly_positive_ind(*ind, ctx, p) == prepend(p, strictly_positive_ind(*ind, ctx, Seq::empty())),
    decreases *ind, 1int,
{
    lemma_prepend_edge();
    let nil = Seq::<NodeEdge>::empty();
    lemma_absent_dependent_relative(ind.index_types@, 0, ctx, edge(p, IND_INDEX_TYPES as int));
    lemma_absent_dependent_relative(ind.index_types@, 0, ctx, edge(nil, IND_INDEX_TYPES as int));
    lemma_strict_vcon_defs_relative(ind.vcon_defs@, 0, ctx.push(true), edge(p, IND_VCON_DEFS as int));
    lemma_strict_vcon_defs_relative(ind.vcon_defs@, 0, ctx.push(true), edge(nil, IND_VCON_DEFS as int));
}

proof fn lemma_strict_vcon_defs_relative(defs: Seq<VconDef<MinimalAst>>, i: int, ctx: Seq<bool>, p: Seq<NodeEdge>)
    ensures
        strictly_positive_vcon_defs(defs, i, ctx, p) == prepend(p, strictly_positive_vcon_defs(defs, i, ctx, Seq::empty())),
    decreases defs, defs.len() - i,
{
    lemma_prepend_edge();
    let nil = Seq::<NodeEdge>::empty();
    if 0 <= i < defs.len() {
        lemma_strict_vcon_def_relative(defs[i], ctx, edge(p, i));
        lemma_strict_vcon_def_relative(defs[i], ctx, edge(nil, i));
        lemma_strict_vcon_defs_relative(defs, i + 1, ctx, p);
    }
}

proof fn lemma_strict_vcon_def_relative(def: VconDef<MinimalAst>, ctx: Seq<bool>, p: Seq<NodeEdge>)
    ensures
        strictly_positive_vcon_def(def, ctx, p) == prepend(p, strictly_positive_vcon_def(def, ctx, Seq::empty())),
    decreases def, 1int,
{
    lemma_prepend_edge();
    let nil = Seq::<NodeEdge>::empty();
    let n = def.param_types@.len();
    lemma_strict_dependent_relative(def.param_types@, 0, ctx, edge(p, VCON_DEF_PARAM_TYPES as int));
    lemma_strict_dependent_relative(def.param_types@, 0, ctx, edge(nil, VCON_DEF_PARAM_TYPES as int));
    lemma_absent_independent_relative(def.index_args@, 0, ctx + falses(n), edge(p, VCON_DEF_INDEX_ARGS as int));
    lemma_absent_independent_relative(def.index_args@, 0, ctx + falses(n), edge(nil, VCON_DEF_INDEX_ARGS as int));
}

proof fn lemma_strict_app_relative(app: &App<MinimalAst>, ctx: Seq<bool>, p: Seq<NodeEdge>)
    ensures
        strictly_positive_app(*app, ctx, p) == prepend(p, strictly_positive_app(*app, ctx, Seq::empty())),
    decreases *app, 1int,
{
    lemma_prepend_edge();
    let nil = Seq::<NodeEdge>::empty();
    lemma_strict_app_callee_relative(&app.callee, ctx, edge(p, APP_CALLEE as int));
    lemma_strict_app_callee_relative(&app.callee, ctx, edge(nil, APP_CALLEE as int));
    lemma_absent_independent_relative(app.args@, 0, ctx, edge(p, APP_ARGS as int));
    lemma_absent_independent_relative(app.args@, 0, ctx, edge(nil, APP_ARGS as int));
}

proof fn lemma_strict_app_callee_relative(callee: &Expr<MinimalAst>, ctx: Seq<bool>, p: Seq<NodeEdge>)
    ensures
        strictly_positive_app_callee(*callee, ctx, p) == prepend(p, strictly_positive_app_callee(*callee, ctx, Seq::empty())),
    decreases *callee, 3int,
{
    match callee {
        Expr::Ind(i) => {
            lemma_strict_ind_relative(&*i, ctx, p);
        },
        Expr::Deb(_) => {},
        _ => {
            law_absence_paths_are_relative(callee, ctx, p);
        },
    }
}

proof fn lemma_strict_for_relative(for_: &For<MinimalAst>, ctx: Seq<bool>, p: Seq<NodeEdge>)
    ensures
        strictly_positive_for(*for_, ctx, p) == prepend(p, strictly_positive_for(*for_, ctx, Seq::empty())),
    decreases *for_, 1int,
{
    lemma_prepend_edge();
    let nil = Seq::<NodeEdge>::empty();
    let n = for_.param_types@.len();
    lemma_absent_dependent_relative(for_.param_types@, 0, ctx, edge(p, FOR_PARAM_TYPES as int));
    lemma_absent_dependent_relative(for_.param_types@, 0, ctx, edge(nil, FOR_PARAM_TYPES as int));
    lemma_strict_child_relative(&for_.return_type, ctx + falses(n), p, FOR_RETURN_TYPE as int);
}

proof fn lemma_strict_dependent_relative(exprs: Seq<Expr<MinimalAst>>, i: int, ctx: Seq<bool>, p: Seq<NodeEdge>)
    ensures
        strictly_positive_dependent(exprs, i, ctx, p) == prepend(p, strictly_positive_dependent(exprs, i, ctx, Seq::empty())),
    decreases exprs, exprs.len() - i,
{
    if 0 <= i < exprs.len() {
        lemma_strict_child_relative(&exprs[i], ctx + falses(i as nat), p, i);
        lemma_strict_dependent_relative(exprs, i + 1, ctx, p);
    }
}

// ---------------------------------------------------------------------------
// Contexts: operations
// ---------------------------------------------------------------------------

impl<T> RepeatVec<T> {
    pub fn len(&self) -> (res: usize)
        ensures
            res == self.len,
    {
        self.len
    }

    pub fn is_empty(&self) -> (res: bool)
        ensures
            res == (self.len == 0),
    {
        self.len == 0
    }

    /// Named `get_copied` rather than `get` because it returns the element itself.
    pub fn get_copied(&self, index: usize) -> (res: Option<T>)
        where
            T: Copy,
        ensures
            res == (if index < self.len {
                Some(self.val)
            } else {
                None
            }),
    {
        if index < self.len {
            Some(self.val)
        } else {
            None
        }
    }
}

impl RepeatVec<IsRestrictedRecursiveIndEntry> {
    pub fn restricted_singleton() -> (res: Self)
        ensures
            res.val == IsRestrictedRecursiveIndEntry(true),
            res.len == 1,
            flags(res) == seq![true],
    {
        let res = RepeatVec { val: IsRestrictedRecursiveIndEntry(true), len: 1 };
        assert(flags(res) =~= seq![true]);
        res
    }

    pub fn unrestricted(len: usize) -> (res: Self)
        ensures
            res.val == IsRestrictedRecursiveIndEntry(false),
            res.len == len,
            flags(res) == falses(len as nat),
    {
        let res = RepeatVec { val: IsRestrictedRecursiveIndEntry(false), len };
        assert(flags(res) =~= falses(len as nat));
        res
    }
}

impl<'a> Context<'a> {
    /// The last run of entries: that of deb `0` and its neighbours with the same flag.
    pub open spec fn last_run(&self) -> RestrictionStatusVec {
        match *self {
            Context::Base(r) => r,
            Context::Snoc(_, r) => r,
        }
    }

    /// Whether snocing `extension` merges it into the last run: it is not empty and
    /// has the same flag.
    pub open spec fn merges(&self, extension: RestrictionStatusVec) -> bool {
        extension.len > 0 && self.last_run().val == extension.val
    }

    /// The node that `collapsing_snoc` builds.
    pub open spec fn collapsed_snoc(&'a self, extension: RestrictionStatusVec) -> Context<'a> {
        if extension.len == 0 {
            *self
        } else if self.merges(extension) {
            let run = RepeatVec { val: extension.val, len: (self.last_run().len + extension.len) as usize };
            match *self {
                Context::Base(_) => Context::Base(run),
                Context::Snoc(rdc, _) => Context::Snoc(rdc, run),
            }
        } else {
            Context::Snoc(self, extension)
        }
    }

    /// A context that is equivalent to `Context::Snoc(self, extension)`, with as few
    /// nodes as possible: an empty extension gives back `self`, and an extension with
    /// the same flag as the last run of `self` lengthens that run.
    pub fn collapsing_snoc(&'a self, extension: RestrictionStatusVec) -> (res: Context<'a>)
        requires
            self.merges(extension) ==> self.last_run().len + extension.len <= usize::MAX,
        ensures
            res == self.collapsed_snoc(extension),
            res.flat() == Context::Snoc(self, extension).flat(),
            res.flat() == self.flat() + flags(extension),
    {
        if extension.is_empty() {
            assert(self.flat() + flags(extension) =~= self.flat());
            return *self;
        }
        match self {
            Context::Base(rac) => {
                if rac.val == extension.val {
                    let res = Context::Base(RepeatVec { val: extension.val, len: rac.len + extension.len });
                    assert(res.flat() =~= self.flat() + flags(extension));
                    res
                } else {
                    Context::Snoc(self, extension)
                }
            },
            Context::Snoc(rdc, rac) => {
                if rac.val == extension.val {
                    assert(self.flat().len() == rdc.flat().len() + rac.len);
                    let res = Context::Snoc(rdc, RepeatVec { val: extension.val, len: rac.len + extension.len });
                    assert(res.flat() =~= self.flat() + flags(extension));
                    res
                } else {
                    Context::Snoc(self, extension)
                }
            },
        }
    }

    pub fn get(&self, deb: Deb) -> (res: Option<IsRestrictedRecursiveIndEntry>)
        ensures
            res == (match ctx_flag(self.flat(), deb.0 as int) {
                Some(b) => Some(IsRestrictedRecursiveIndEntry(b)),
                None => None,
            }),
        decreases *self,
    {
        match self {
            Context::Base(entries) => {
                if deb.0 < entries.len() {
                    entries.get_copied(entries.len() - 1 - deb.0)
                } else {
                    None
                }
            },
            Context::Snoc(subcontext, entries) => {
                if deb.0 < entries.len() {
                    entries.get_copied(entries.len() - 1 - deb.0)
                } else {
                    subcontext.get(Deb(deb.0 - entries.len()))
                }
            },
        }
    }
}

// ---------------------------------------------------------------------------
// The checkers
// ---------------------------------------------------------------------------

pub open spec fn path_result(r: Result<(), Vec<NodeEdge>>) -> Result<(), Seq<NodeEdge>> {
    match r {
        Ok(_) => Ok(()),
        Err(p) => Err(p@),
    }
}

pub struct PositivityChecker<'a> {
    pub typechecker: &'a mut TypeChecker,
}

/// Checks on the type of a constructor.
pub struct VconPositivityChecker<'a>(pub PositivityChecker<'a>);

/// Its methods check that every restricted deb of the context occurs only
/// strictly positively in the given expression.
pub struct StrictPositivityChecker<'a>(pub PositivityChecker<'a>);

/// Its methods check that no restricted deb of the context occurs in the
/// given expression.
pub struct AbsenceChecker<'a>(pub PositivityChecker<'a>);

impl TypeChecker {
    pub fn get_positivity_checker(&mut self) -> (res: PositivityChecker<'_>)
        ensures
            *res.typechecker == *old(self),
            *final(self) == *final(res.typechecker),
    {
        PositivityChecker { typechecker: self }
    }
}

impl<'a> PositivityChecker<'a> {
    pub fn clone_mut<'b>(&'b mut self) -> (res: PositivityChecker<'b>)
        ensures
            *res.typechecker == *old(self).typechecker,
            *final(self).typechecker == *final(res.typechecker),
    {
        PositivityChecker { typechecker: &mut *self.typechecker }
    }

    pub fn vcon_positivity_checker<'b>(&'b mut self) -> (res: VconPositivityChecker<'b>)
        ensures
            *res.0.typechecker == *old(self).typechecker,
            *final(self).typechecker == *final(res.0.typechecker),
    {
        VconPositivityChecker(self.clone_mut())
    }
}

impl<'a> VconPositivityChecker<'a> {
    pub fn strict_positivity_checker<'b>(&'b mut self) -> (res: StrictPositivityChecker<'b>)
        ensures
            *res.0.typechecker == *old(self).0.typechecker,
            *final(self).0.typechecker == *final(res.0.typechecker),
    {
        StrictPositivityChecker(self.0.clone_mut())
    }

    pub fn absence_checker<'b>(&'b mut self) -> (res: AbsenceChecker<'b>)
        ensures
            *res.0.typechecker == *old(self).0.typechecker,
            *final(self).0.typechecker == *final(res.0.typechecker),
    {
        AbsenceChecker(self.0.clone_mut())
    }
}

impl<'a> AbsenceChecker<'a> {
    pub fn check(&mut self, expr: Expr<MinimalAst>, context: Context, path: NodePath) -> (res: Result<(), Vec<NodeEdge>>)
        requires
            scoped(expr, context.flat().len()),
            context.flat().len() + expr_size(expr) <= usize::MAX,
        ensures
            *final(self).0.typechecker == *old(self).0.typechecker,
            path_result(res) == absent(expr, context.flat(), path.edges()),
        decreases expr, 0int,
    {
        match expr {
            Expr::Ind(e) => self.check_ind(&e, context, path),
            Expr::Vcon(e) => {
                let path_to_ind = NodePath::Snoc(&path, NodeEdge(VCON_IND));
                self.check_ind(&e.ind, context, path_to_ind)
            },
            Expr::Match(e) => self.check_match(&e, context, path),
            Expr::Fun(e) => self.check_fun(&e, context, path),
            Expr::App(e) => self.check_app(&e, context, path),
            Expr::For(e) => self.check_for(&e, context, path),
            Expr::Deb(e) => self.check_deb(e.deb, context, path),
            Expr::Universe(_) => Ok(()),
        }
    }

    pub fn check_ind(&mut self, ind: &Ind<MinimalAst>, context: Context, path: NodePath) -> (res: Result<(), Vec<NodeEdge>>)
        requires
            scoped_ind(*ind, context.flat().len()),
            context.flat().len() + ind_size(*ind) <= usize::MAX,
        ensures
            *final(self).0.typechecker == *old(self).0.typechecker,
            path_result(res) == absent_ind(*ind, context.flat(), path.edges()),
        decreases *ind, 0int,
    {
        proof {
            assert(decreases_to!(*ind => ind.index_types));
            assert(decreases_to!(*ind.index_types => (*ind.index_types)@));
            assert(decreases_to!(*ind => ind.vcon_defs));
            assert(decreases_to!(*ind.vcon_defs => (*ind.vcon_defs)@));
        }
        let path_to_index_types = NodePath::Snoc(&path, NodeEdge(IND_INDEX_TYPES));
        let r = self.check_dependent_exprs(ind.index_types.as_slice(), context, path_to_index_types);
        if r.is_err() {
            return r;
        }
        let singleton = RestrictionStatusVec::unrestricted(1);
        let extended_context = context.collapsing_snoc(singleton);
        let path_to_vcon_defs = NodePath::Snoc(&path, NodeEdge(IND_VCON_DEFS));
        self.check_vcon_defs(ind.vcon_defs.as_slice(), extended_context, path_to_vcon_defs)
    }

    pub fn check_vcon_defs(&mut self, defs: &[VconDef<MinimalAst>], context: Context, path: NodePath) -> (res: Result<(), Vec<NodeEdge>>)
        requires
            scoped_vcon_defs(defs@, 0, context.flat().len()),
            context.flat().len() + vcon_defs_size(defs@) <= usize::MAX,
        ensures
            *final(self).0.typechecker == *old(self).0.typechecker,
            path_result(res) == absent_vcon_defs(defs@, 0, context.flat(), path.edges()),
        decreases defs@, 0int,
    {
        let ghost ctx = context.flat();
        let mut i: usize = 0;
        while i < defs.len()
            invariant
                i <= defs@.len(),
                ctx == context.flat(),
                scoped_vcon_defs(defs@, i as int, ctx.len()),
                ctx.len() + vcon_defs_size(defs@) <= usize::MAX,
                absent_vcon_defs(defs@, 0, ctx, path.edges()) == absent_vcon_defs(defs@, i as int, ctx, path.edges()),
            decreases defs@.len() - i,
        {
            proof {
                lemma_vcon_defs_size(defs@);
                assert(decreases_to!(defs@ => defs@[i as int]));
            }
            let extended_path = NodePath::Snoc(&path, NodeEdge(i));
            let r = self.check_vcon_def(defs[i].copy(), context, extended_path);
            if r.is_err() {
                return r;
            }
            i += 1;
        }
        Ok(())
    }

    pub fn check_vcon_def(&mut self, def: VconDef<MinimalAst>, context: Context, path: NodePath) -> (res: Result<(), Vec<NodeEdge>>)
        requires
            scoped_vcon_def(def, context.flat().len()),
            context.flat().len() + vcon_def_size(def) <= usize::MAX,
        ensures
            *final(self).0.typechecker == *old(self).0.typechecker,
            path_result(res) == absent_vcon_def(def, context.flat(), path.edges()),
        decreases def, 0int,
    {
        proof {
            assert(decreases_to!(def => def.param_types));
            assert(decreases_to!(*def.param_types => (*def.param_types)@));
            assert(decreases_to!(def => def.index_args));
            assert(decreases_to!(*def.index_args => (*def.index_args)@));
            lemma_exprs_size(def.param_types@);
        }
        let path_to_param_types = NodePath::Snoc(&path, NodeEdge(VCON_DEF_PARAM_TYPES));
        let r = self.check_dependent_exprs(def.param_types.as_slice(), context, path_to_param_types);
        if r.is_err() {
            return r;
        }
        let extension = RestrictionStatusVec::unrestricted(def.param_types.len());
        let extended_context = context.collapsing_snoc(extension);
        let path_to_index_args = NodePath::Snoc(&path, NodeEdge(VCON_DEF_INDEX_ARGS));
        self.check_independent_exprs(def.index_args.as_slice(), extended_context, path_to_index_args)
    }

    pub fn check_vcon(&mut self, vcon: &crate::ast::Vcon<MinimalAst>, context: Context, path: NodePath) -> (res: Result<(), Vec<NodeEdge>>)
        requires
            scoped_ind(*vcon.ind, context.flat().len()),
            context.flat().len() + ind_size(*vcon.ind) <= usize::MAX,
        ensures
            *final(self).0.typechecker == *old(self).0.typechecker,
            path_result(res) == absent_ind(*vcon.ind, context.flat(), edge(path.edges(), VCON_IND as int)),
    {
        let path_to_ind = NodePath::Snoc(&path, NodeEdge(VCON_IND));
        self.check_ind(&vcon.ind, context, path_to_ind)
    }

    pub fn check_match(&mut self, match_: &Match<MinimalAst>, context: Context, path: NodePath) -> (res: Result<(), Vec<NodeEdge>>)
        requires
            scoped(Expr::Match(std::rc::Rc::new(*match_)), context.flat().len()),
            context.flat().len() + expr_size(Expr::Match(std::rc::Rc::new(*match_))) <= usize::MAX,
        ensures
            *final(self).0.typechecker == *old(self).0.typechecker,
            path_result(res) == absent(Expr::Match(std::rc::Rc::new(*match_)), context.flat(), path.edges()),
        decreases *match_, 0int,
    {
        proof {
            assert(decreases_to!(*match_ => match_.cases));
            assert(decreases_to!(*match_.cases => (*match_.cases)@));
        }
        let path_to_matchee = NodePath::Snoc(&path, NodeEdge(MATCH_MATCHEE));
        let r = self.check(match_.matchee.copy(), context, path_to_matchee);
        if r.is_err() {
            return r;
        }
        let return_type_extension = RestrictionStatusVec::unrestricted(match_.return_type_arity);
        let context_with_return_type_extension = context.collapsing_snoc(return_type_extension);
        let path_to_return_type = NodePath::Snoc(&path, NodeEdge(MATCH_RETURN_TYPE));
        let r = self.check(match_.return_type.copy(), context_with_return_type_extension, path_to_return_type);
        if r.is_err() {
            return r;
        }
        let path_to_cases = NodePath::Snoc(&path, NodeEdge(MATCH_CASES));
        self.check_match_cases(match_.cases.as_slice(), context, path_to_cases)
    }

    pub fn check_match_cases(&mut self, cases: &[MatchCase<MinimalAst>], context: Context, path: NodePath) -> (res: Result<(), Vec<NodeEdge>>)
        requires
            scoped_cases(cases@, 0, context.flat().len()),
            context.flat().len() + cases_size(cases@) <= usize::MAX,
        ensures
            *final(self).0.typechecker == *old(self).0.typechecker,
            path_result(res) == absent_cases(cases@, 0, context.flat(), path.edges()),
        decreases cases@, 0int,
    {
        let ghost ctx = context.flat();
        let mut i: usize = 0;
        while i < cases.len()
            invariant
                i <= cases@.len(),
                ctx == context.flat(),
                scoped_cases(cases@, i as int, ctx.len()),
                ctx.len() + cases_size(cases@) <= usize::MAX,
                absent_cases(cases@, 0, ctx, path.edges()) == absent_cases(cases@, i as int, ctx, path.edges()),
            decreases cases@.len() - i,
        {
            proof {
                lemma_cases_size(cases@);
                assert(decreases_to!(cases@ => cases@[i as int]));
                assert(decreases_to!(cases@[i as int] => cases@[i as int].return_val));
            }
            let case = &cases[i];
            let extension = RestrictionStatusVec::unrestricted(case.arity);
            let extended_context = context.collapsing_snoc(extension);
            let extended_path = NodePath::Snoc(&path, NodeEdge(i));
            let r = self.check(case.return_val.copy(), extended_context, extended_path);
            if r.is_err() {
                return r;
            }
            i += 1;
        }
        Ok(())
    }

    pub fn check_fun(&mut self, fun: &Fun<MinimalAst>, context: Context, path: NodePath) -> (res: Result<(), Vec<NodeEdge>>)
        requires
            scoped(Expr::Fun(std::rc::Rc::new(*fun)), context.flat().len()),
            context.flat().len() + fun_size(*fun) <= usize::MAX,
        ensures
            *final(self).0.typechecker == *old(self).0.typechecker,
            path_result(res) == absent(Expr::Fun(std::rc::Rc::new(*fun)), context.flat(), path.edges()),
        decreases *fun, 0int,
    {
        proof {
            assert(decreases_to!(*fun => fun.param_types));
            assert(decreases_to!(*fun.param_types => (*fun.param_types)@));
            lemma_exprs_size(fun.param_types@);
        }
        let path_to_param_types = NodePath::Snoc(&path, NodeEdge(FUN_PARAM_TYPES));
        let r = self.check_dependent_exprs(fun.param_types.as_slice(), context, path_to_param_types);
        if r.is_err() {
            return r;
        }
        let param_extension = RestrictionStatusVec::unrestricted(fun.param_types.len());
        let context_with_params = context.collapsing_snoc(param_extension);
        let path_to_return_type = NodePath::Snoc(&path, NodeEdge(FUN_RETURN_TYPE));
        let r = self.check(fun.return_type.copy(), context_with_params, path_to_return_type);
        if r.is_err() {
            return r;
        }
        let recursive_fun_singleton = RestrictionStatusVec::unrestricted(1);
        let context_with_params_and_recursive_fun = context_with_params.collapsing_snoc(recursive_fun_singleton);
        proof {
            assert(context_with_params_and_recursive_fun.flat().len() == context.flat().len() + fun.param_types@.len() + 1);
            assert(falses(fun.param_types@.len()) + falses(1) =~= falses(fun.param_types@.len() + 1));
            assert(context.flat() + falses(fun.param_types@.len()) + falses(1) =~= context.flat() + falses(fun.param_types@.len() + 1));
        }
        let path_to_return_val = NodePath::Snoc(&path, NodeEdge(FUN_RETURN_VAL));
        self.check(fun.return_val.copy(), context_with_params_and_recursive_fun, path_to_return_val)
    }

    pub fn check_app(&mut self, app: &App<MinimalAst>, context: Context, path: NodePath) -> (res: Result<(), Vec<NodeEdge>>)
        requires
            scoped(Expr::App(std::rc::Rc::new(*app)), context.flat().len()),
            context.flat().len() + expr_size(Expr::App(std::rc::Rc::new(*app))) <= usize::MAX,
        ensures
            *final(self).0.typechecker == *old(self).0.typechecker,
            path_result(res) == absent(Expr::App(std::rc::Rc::new(*app)), context.flat(), path.edges()),
        decreases *app, 0int,
    {
        proof {
            assert(decreases_to!(*app => app.args));
            assert(decreases_to!(*app.args => (*app.args)@));
        }
        let path_to_callee = NodePath::Snoc(&path, NodeEdge(APP_CALLEE));
        let r = self.check(app.callee.copy(), context, path_to_callee);
        if r.is_err() {
            return r;
        }
        let path_to_args = NodePath::Snoc(&path, NodeEdge(APP_ARGS));
        self.check_independent_exprs(app.args.as_slice(), context, path_to_args)
    }

    pub fn check_for(&mut self, for_: &For<MinimalAst>, context: Context, path: NodePath) -> (res: Result<(), Vec<NodeEdge>>)
        requires
            scoped(Expr::For(std::rc::Rc::new(*for_)), context.flat().len()),
            context.flat().len() + expr_size(Expr::For(std::rc::Rc::new(*for_))) <= usize::MAX,
        ensures
            *final(self).0.typechecker == *old(self).0.typechecker,
            path_result(res) == absent(Expr::For(std::rc::Rc::new(*for_)), context.flat(), path.edges()),
        decreases *for_, 0int,
    {
        proof {
            assert(decreases_to!(*for_ => for_.param_types));
            assert(decreases_to!(*for_.param_types => (*for_.param_types)@));
            lemma_exprs_size(for_.param_types@);
        }
        let path_to_param_types = NodePath::Snoc(&path, NodeEdge(FOR_PARAM_TYPES));
        let r = self.check_dependent_exprs(for_.param_types.as_slice(), context, path_to_param_types);
        if r.is_err() {
            return r;
        }
        let extension = RestrictionStatusVec::unrestricted(for_.param_types.len());
        let extended_context = context.collapsing_snoc(extension);
        let path_to_return_type = NodePath::Snoc(&path, NodeEdge(FOR_RETURN_TYPE));
        self.check(for_.return_type.copy(), extended_context, path_to_return_type)
    }

    pub fn check_deb(&mut self, deb: Deb, context: Context, path: NodePath) -> (res: Result<(), Vec<NodeEdge>>)
        requires
            deb.0 < context.flat().len(),
        ensures
            *final(self).0.typechecker == *old(self).0.typechecker,
            path_result(res) == (if ctx_flag(context.flat(), deb.0 as int) == Some(true) {
                Err(path.edges())
            } else {
                Ok(())
            }),
    {
        match context.get(deb) {
            Some(entry) => {
                if entry.0 {
                    return Err(path.to_vec());
                }
                Ok(())
            },
            None => Ok(()),
        }
    }

    pub fn check_dependent_exprs(&mut self, exprs: &[Expr<MinimalAst>], context: Context, path: NodePath) -> (res: Result<(), Vec<NodeEdge>>)
        requires
            scoped_dependent(exprs@, 0, context.flat().len()),
            context.flat().len() + exprs_size(exprs@) <= usize::MAX,
        ensures
            *final(self).0.typechecker == *old(self).0.typechecker,
            path_result(res) == absent_dependent(exprs@, 0, context.flat(), path.edges()),
        decreases exprs@, 0int,
    {
        if exprs.len() == 0 {
            return Ok(());
        }
        let ghost ctx = context.flat();
        let mut i: usize = 0;
        while i < exprs.len()
            invariant
                i <= exprs@.len(),
                ctx == context.flat(),
                scoped_dependent(exprs@, i as int, ctx.len()),
                ctx.len() + exprs_size(exprs@) <= usize::MAX,
                absent_dependent(exprs@, 0, ctx, path.edges()) == absent_dependent(exprs@, i as int, ctx, path.edges()),
            decreases exprs@.len() - i,
        {
            proof {
                lemma_exprs_size(exprs@);
                assert(decreases_to!(exprs@ => exprs@[i as int]));
            }
            let extension = RestrictionStatusVec::unrestricted(i);
            let extended_context = context.collapsing_snoc(extension);
            let extended_path = NodePath::Snoc(&path, NodeEdge(i));
            let r = self.check(exprs[i].copy(), extended_context, extended_path);
            if r.is_err() {
                return r;
            }
            i += 1;
        }
        Ok(())
    }

    pub fn check_independent_exprs(&mut self, exprs: &[Expr<MinimalAst>], context: Context, path: NodePath) -> (res: Result<(), Vec<NodeEdge>>)
        requires
            scoped_independent(exprs@, 0, context.flat().len()),
            context.flat().len() + exprs_size(exprs@) <= usize::MAX,
        ensures
            *final(self).0.typechecker == *old(self).0.typechecker,
            path_result(res) == absent_independent(exprs@, 0, context.flat(), path.edges()),
        decreases exprs@, 0int,
    {
        let ghost ctx = context.flat();
        let mut i: usize = 0;
        while i < exprs.len()
            invariant
                i <= exprs@.len(),
                ctx == context.flat(),
                scoped_independent(exprs@, i as int, ctx.len()),
                ctx.len() + exprs_size(exprs@) <= usize::MAX,
                absent_independent(exprs@, 0, ctx, path.edges()) == absent_independent(exprs@, i as int, ctx, path.edges()),
            decreases exprs@.len() - i,
        {
            proof {
                lemma_exprs_size(exprs@);
                assert(decreases_to!(exprs@ => exprs@[i as int]));
            }
            let extended_path = NodePath::Snoc(&path, NodeEdge(i));
            let r = self.check(exprs[i].copy(), context, extended_path);
            if r.is_err() {
                return r;
            }
            i += 1;
        }
        Ok(())
    }
}

impl<'a> StrictPositivityChecker<'a> {
    pub fn absence_checker<'b>(&'b mut self) -> (res: AbsenceChecker<'b>)
        ensures
            *res.0.typechecker == *old(self).0.typechecker,
            *final(self).0.typechecker == *final(res.0.typechecker),
    {
        AbsenceChecker(self.0.clone_mut())
    }

    pub fn check(&mut self, expr: Expr<MinimalAst>, context: Context, path: NodePath) -> (res: Result<(), Vec<NodeEdge>>)
        requires
            scoped(expr, context.flat().len()),
            context.flat().len() + expr_size(expr) <= usize::MAX,
        ensures
            *final(self).0.typechecker == *old(self).0.typechecker,
            path_result(res) == strictly_positive(expr, context.flat(), path.edges()),
        decreases expr, 1int,
    {
        match &expr {
            Expr::Ind(e) => self.check_ind(e, context, path),
            Expr::Deb(_) => Ok(()),
            Expr::App(e) => self.check_app(e, context, path),
            Expr::For(e) => self.check_for(e, context, path),
            _ => self.absence_checker().check(expr, context, path),
        }
    }

    pub fn check_ind(&mut self, ind: &Ind<MinimalAst>, context: Context, path: NodePath) -> (res: Result<(), Vec<NodeEdge>>)
        requires
            scoped_ind(*ind, context.flat().len()),
            context.flat().len() + ind_size(*ind) <= usize::MAX,
        ensures
            *final(self).0.typechecker == *old(self).0.typechecker,
            path_result(res) == strictly_positive_ind(*ind, context.flat(), path.edges()),
        decreases *ind, 1int,
    {
        proof {
            assert(decreases_to!(*ind => ind.vcon_defs));
            assert(decreases_to!(*ind.vcon_defs => (*ind.vcon_defs)@));
        }
        let path_to_index_types = NodePath::Snoc(&path, NodeEdge(IND_INDEX_TYPES));
        let r = self.absence_checker().check_dependent_exprs(ind.index_types.as_slice(), context, path_to_index_types);
        if r.is_err() {
            return r;
        }
        let extension = RestrictionStatusVec::restricted_singleton();
        let extended_context = context.collapsing_snoc(extension);
        proof {
            assert(context.flat() + seq![true] =~= context.flat().push(true));
        }
        let path_to_vcon_defs = NodePath::Snoc(&path, NodeEdge(IND_VCON_DEFS));
        self.check_vcon_defs(ind.vcon_defs.as_slice(), extended_context, path_to_vcon_defs)
    }

    pub fn check_vcon_defs(&mut self, defs: &[VconDef<MinimalAst>], context: Context, path: NodePath) -> (res: Result<(), Vec<NodeEdge>>)
        requires
            scoped_vcon_defs(defs@, 0, context.flat().len()),
            context.flat().len() + vcon_defs_size(defs@) <= usize::MAX,
        ensures
            *final(self).0.typechecker == *old(self).0.typechecker,
            path_result(res) == strictly_positive_vcon_defs(defs@, 0, context.flat(), path.edges()),
        decreases defs@, 1int,
    {
        let ghost ctx = context.flat();
        let mut i: usize = 0;
        while i < defs.len()
            invariant
                i <= defs@.len(),
                ctx == context.flat(),
                scoped_vcon_defs(defs@, i as int, ctx.len()),
                ctx.len() + vcon_defs_size(defs@) <= usize::MAX,
                strictly_positive_vcon_defs(defs@, 0, ctx, path.edges()) == strictly_positive_vcon_defs(
                    defs@,
                    i as int,
                    ctx,
                    path.edges(),
                ),
            decreases defs@.len() - i,
        {
            proof {
                lemma_vcon_defs_size(defs@);
                assert(decreases_to!(defs@ => defs@[i as int]));
            }
            let extended_path = NodePath::Snoc(&path, NodeEdge(i));
            let r = self.check_vcon_def(defs[i].copy(), context, extended_path);
            if r.is_err() {
                return r;
            }
            i += 1;
        }
        Ok(())
    }

    pub fn check_vcon_def(&mut self, def: VconDef<MinimalAst>, context: Context, path: NodePath) -> (res: Result<(), Vec<NodeEdge>>)
        requires
            scoped_vcon_def(def, context.flat().len()),
            context.flat().len() + vcon_def_size(def) <= usize::MAX,
        ensures
            *final(self).0.typechecker == *old(self).0.typechecker,
            path_result(res) == strictly_positive_vcon_def(def, context.flat(), path.edges()),
        decreases def, 1int,
    {
        proof {
            assert(decreases_to!(def => def.param_types));
            assert(decreases_to!(*def.param_types => (*def.param_types)@));
            lemma_exprs_size(def.param_types@);
        }
        let path_to_param_types = NodePath::Snoc(&path, NodeEdge(VCON_DEF_PARAM_TYPES));
        let r = self.check_dependent_exprs(def.param_types.as_slice(), context, path_to_param_types);
        if r.is_err() {
            return r;
        }
        let extension = RestrictionStatusVec::unrestricted(def.param_types.len());
        let extended_context = context.collapsing_snoc(extension);
        let path_to_index_args = NodePath::Snoc(&path, NodeEdge(VCON_DEF_INDEX_ARGS));
        self.absence_checker().check_independent_exprs(def.index_args.as_slice(), extended_context, path_to_index_args)
    }

    pub fn check_app(&mut self, app: &App<MinimalAst>, context: Context, path: NodePath) -> (res: Result<(), Vec<NodeEdge>>)
        requires
            scoped(Expr::App(std::rc::Rc::new(*app)), context.flat().len()),
            context.flat().len() + expr_size(Expr::App(std::rc::Rc::new(*app))) <= usize::MAX,
        ensures
            *final(self).0.typechecker == *old(self).0.typechecker,
            path_result(res) == strictly_positive_app(*app, context.flat(), path.edges()),
        decreases *app, 1int,
    {
        let path_to_callee = NodePath::Snoc(&path, NodeEdge(APP_CALLEE));
        let r = self.check_app_callee(app.callee.copy(), context, path_to_callee);
        if r.is_err() {
            return r;
        }
        let path_to_args = NodePath::Snoc(&path, NodeEdge(APP_ARGS));
        self.absence_checker().check_independent_exprs(app.args.as_slice(), context, path_to_args)
    }

    pub fn check_app_callee(&mut self, callee: Expr<MinimalAst>, context: Context, path: NodePath) -> (res: Result<(), Vec<NodeEdge>>)
        requires
            scoped(callee, context.flat().len()),
            context.flat().len() + expr_size(callee) <= usize::MAX,
        ensures
            *final(self).0.typechecker == *old(self).0.typechecker,
            path_result(res) == strictly_positive_app_callee(callee, context.flat(), path.edges()),
        decreases callee, 2int,
    {
        match &callee {
            Expr::Ind(e) => self.check_ind(e, context, path),
            Expr::Deb(_) => Ok(()),
            _ => self.absence_checker().check(callee, context, path),
        }
    }

    pub fn check_for(&mut self, for_: &For<MinimalAst>, context: Context, path: NodePath) -> (res: Result<(), Vec<NodeEdge>>)
        requires
            scoped(Expr::For(std::rc::Rc::new(*for_)), context.flat().len()),
            context.flat().len() + expr_size(Expr::For(std::rc::Rc::new(*for_))) <= usize::MAX,
        ensures
            *final(self).0.typechecker == *old(self).0.typechecker,
            path_result(res) == strictly_positive_for(*for_, context.flat(), path.edges()),
        decreases *for_, 1int,
    {
        proof {
            lemma_exprs_size(for_.param_types@);
        }
        let path_to_param_types = NodePath::Snoc(&path, NodeEdge(FOR_PARAM_TYPES));
        let r = self.absence_checker().check_dependent_exprs(for_.param_types.as_slice(), context, path_to_param_types);
        if r.is_err() {
            return r;
        }
        let extension = RestrictionStatusVec::unrestricted(for_.param_types.len());
        let extended_context = context.collapsing_snoc(extension);
        let path_to_return_type = NodePath::Snoc(&path, NodeEdge(FOR_RETURN_TYPE));
        self.check(for_.return_type.copy(), extended_context, path_to_return_type)
    }

    pub fn check_dependent_exprs(&mut self, exprs: &[Expr<MinimalAst>], context: Context, path: NodePath) -> (res: Result<(), Vec<NodeEdge>>)
        requires
            scoped_dependent(exprs@, 0, context.flat().len()),
            context.flat().len() + exprs_size(exprs@) <= usize::MAX,
        ensures
            *final(self).0.typechecker == *old(self).0.typechecker,
            path_result(res) == strictly_positive_dependent(exprs@, 0, context.flat(), path.edges()),
        decreases exprs@, 1int,
    {
        if exprs.len() == 0 {
            return Ok(());
        }
        let ghost ctx = context.flat();
        let mut i: usize = 0;
        while i < exprs.len()
            invariant
                i <= exprs@.len(),
                ctx == context.flat(),
                scoped_dependent(exprs@, i as int, ctx.len()),
                ctx.len() + exprs_size(exprs@) <= usize::MAX,
                strictly_positive_dependent(exprs@, 0, ctx, path.edges()) == strictly_positive_dependent(
                    exprs@,
                    i as int,
                    ctx,
                    path.edges(),
                ),
            decreases exprs@.len() - i,
        {
            proof {
                lemma_exprs_size(exprs@);
                assert(decreases_to!(exprs@ => exprs@[i as int]));
            }
            let extension = RestrictionStatusVec::unrestricted(i);
            let extended_context = context.collapsing_snoc(extension);
            let extended_path = NodePath::Snoc(&path, NodeEdge(i));
            let r = self.check(exprs[i].copy(), extended_context, extended_path);
            if r.is_err() {
                return r;
            }
            i += 1;
        }
        Ok(())
    }
}

// ---------------------------------------------------------------------------
// The positivity condition on the type of a constructor
// ---------------------------------------------------------------------------

/// The first parameter type (from index `i` on) in which a restricted deb occurs
/// other than strictly positively, with the path to that deb.
pub open spec fn first_non_positive_param_type(
    param_types: Seq<Expr<MinimalAst>>,
    i: int,
    ctx: Seq<bool>,
) -> Option<(int, Seq<NodeEdge>)>
    decreases param_types.len() - i,
{
    if 0 <= i < param_types.len() {
        match strictly_positive(param_types[i], ctx + falses(i as nat), Seq::empty()) {
            Err(p) => Some((i, p)),
            Ok(_) => first_non_positive_param_type(param_types, i + 1, ctx),
        }
    } else {
        None
    }
}

/// The first index argument (from index `i` on) in which a restricted deb occurs,
/// with the path to that deb.
pub open spec fn first_index_arg_with_restricted_deb(
    index_args: Seq<Expr<MinimalAst>>,
    i: int,
    ctx: Seq<bool>,
) -> Option<(int, Seq<NodeEdge>)>
    decreases index_args.len() - i,
{
    if 0 <= i < index_args.len() {
        match absent(index_args[i], ctx, Seq::empty()) {
            Err(p) => Some((i, p)),
            Ok(_) => first_index_arg_with_restricted_deb(index_args, i + 1, ctx),
        }
    } else {
        None
    }
}

pub open spec fn param_types_result<A: AstFamily>(
    res: Result<(), TypeError<A>>,
    def: VconDef<A>,
    param_types: Seq<Expr<MinimalAst>>,
    ctx: Seq<bool>,
) -> bool {
    match first_non_positive_param_type(param_types, 0, ctx) {
        None => res is Ok,
        Some((i, p)) => res matches Err(
            TypeError::VconDefParamTypeFailsStrictPositivityCondition {
                def: d,
                param_type_index: k,
                normalized_param_type: t,
                path_from_param_type_to_problematic_deb: v,
            },
        ) && d == def && k == i && t == param_types[i] && v@ == p,
    }
}

pub open spec fn index_args_result<A: AstFamily>(
    res: Result<(), TypeError<A>>,
    def: VconDef<A>,
    index_args: Seq<Expr<MinimalAst>>,
    ctx: Seq<bool>,
) -> bool {
    match first_index_arg_with_restricted_deb(index_args, 0, ctx) {
        None => res is Ok,
        Some((i, p)) => res matches Err(
            TypeError::RecursiveIndParamAppearsInVconDefIndexArg {
                def: d,
                index_arg_index: k,
                normalized_index_arg: t,
                path_from_index_arg_to_problematic_deb: v,
            },
        ) && d == def && k == i && t == index_args[i] && v@ == p,
    }
}

impl<'a> VconPositivityChecker<'a> {
    /// Checks the positivity condition on the type of the constructor `def`, given
    /// its parameter types and index arguments in normal form.
    pub fn assert_vcon_type_satisfies_positivity_condition<A: AstFamily>(
        &mut self,
        def: &VconDef<A>,
        normalized_param_types: &[Expr<MinimalAst>],
        normalized_index_args: &[Expr<MinimalAst>],
        context: Context,
    ) -> (res: Result<(), TypeError<A>>)
        requires
            scoped_dependent(normalized_param_types@, 0, context.flat().len()),
            scoped_independent(normalized_index_args@, 0, context.flat().len() + def.param_types@.len()),
            context.flat().len() + exprs_size(normalized_param_types@) <= usize::MAX,
            context.flat().len() + def.param_types@.len() + exprs_size(normalized_index_args@) <= usize::MAX,
        ensures
            *final(self).0.typechecker == *old(self).0.typechecker,
            first_non_positive_param_type(normalized_param_types@, 0, context.flat()) is Some ==> param_types_result(
                res,
                *def,
                normalized_param_types@,
                context.flat(),
            ),
            first_non_positive_param_type(normalized_param_types@, 0, context.flat()) is None ==> index_args_result(
                res,
                *def,
                normalized_index_args@,
                context.flat() + falses(def.param_types@.len()),
            ),
    {
        let r = self.check_vcon_def_param_types(def, normalized_param_types, context);
        if r.is_err() {
            return r;
        }
        let extension = RestrictionStatusVec::unrestricted(def.param_types.len());
        let extended_context = context.collapsing_snoc(extension);
        self.check_vcon_def_index_args(def, normalized_index_args, extended_context)
    }

    /// Checks that the recursive occurrences in each (normalized) parameter type
    /// of `def` are strictly positive.
    pub fn check_vcon_def_param_types<A: AstFamily>(
        &mut self,
        def: &VconDef<A>,
        normalized_param_types: &[Expr<MinimalAst>],
        context: Context,
    ) -> (res: Result<(), TypeError<A>>)
        requires
            scoped_dependent(normalized_param_types@, 0, context.flat().len()),
            context.flat().len() + exprs_size(normalized_param_types@) <= usize::MAX,
        ensures
            *final(self).0.typechecker == *old(self).0.typechecker,
            param_types_result(res, *def, normalized_param_types@, context.flat()),
    {
        let ghost ts = normalized_param_types@;
        let ghost ctx = context.flat();
        let mut i: usize = 0;
        while i < normalized_param_types.len()
            invariant
                i <= ts.len(),
                ts == normalized_param_types@,
                ctx == context.flat(),
                scoped_dependent(ts, i as int, ctx.len()),
                ctx.len() + exprs_size(ts) <= usize::MAX,
                first_non_positive_param_type(ts, 0, ctx) == first_non_positive_param_type(ts, i as int, ctx),
            decreases ts.len() - i,
        {
            proof {
                lemma_exprs_size(ts);
            }
            let extension = RestrictionStatusVec::unrestricted(i);
            let extended_context = context.collapsing_snoc(extension);
            let nil = NodePath::Nil;
            let r = self.strict_positivity_checker().check(normalized_param_types[i].copy(), extended_context, nil);
            match r {
                Err(path_from_param_type_to_problematic_deb) => {
                    return Err(
                        TypeError::VconDefParamTypeFailsStrictPositivityCondition {
                            def: def.copy(),
                            param_type_index: i,
                            normalized_param_type: normalized_param_types[i].copy(),
                            path_from_param_type_to_problematic_deb,
                        },
                    );
                },
                Ok(()) => {},
            }
            i += 1;
        }
        Ok(())
    }

    /// Checks that no recursive occurrence appears in the (normalized) index
    /// arguments of `def`.
    pub fn check_vcon_def_index_args<A: AstFamily>(
        &mut self,
        def: &VconDef<A>,
        normalized_index_args: &[Expr<MinimalAst>],
        context: Context,
    ) -> (res: Result<(), TypeError<A>>)
        requires
            scoped_independent(normalized_index_args@, 0, context.flat().len()),
            context.flat().len() + exprs_size(normalized_index_args@) <= usize::MAX,
        ensures
            *final(self).0.typechecker == *old(self).0.typechecker,
            index_args_result(res, *def, normalized_index_args@, context.flat()),
    {
        let ghost ts = normalized_index_args@;
        let ghost ctx = context.flat();
        let mut i: usize = 0;
        while i < normalized_index_args.len()
            invariant
                i <= ts.len(),
                ts == normalized_index_args@,
                ctx == context.flat(),
                scoped_independent(ts, i as int, ctx.len()),
                ctx.len() + exprs_size(ts) <= usize::MAX,
                first_index_arg_with_restricted_deb(ts, 0, ctx) == first_index_arg_with_restricted_deb(ts, i as int, ctx),
            decreases ts.len() - i,
        {
            proof {
                lemma_exprs_size(ts);
            }
            let nil = NodePath::Nil;
            let r = self.absence_checker().check(normalized_index_args[i].copy(), context, nil);
            match r {
                Err(path_from_index_arg_to_problematic_deb) => {
                    return Err(
                        TypeError::RecursiveIndParamAppearsInVconDefIndexArg {
                            def: def.copy(),
                            index_arg_index: i,
                            normalized_index_arg: normalized_index_args[i].copy(),
                            path_from_index_arg_to_problematic_deb,
                        },
                    );
                },
                Ok(()) => {},
            }
            i += 1;
        }
        Ok(())
    }
}

} // verus!
