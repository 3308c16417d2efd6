//! Checking that recursive functions only recurse on strict substructures.
//!
//! A `fun` with a decreasing index `k` may only call itself with an argument
//! in position `k` that is a strict substructure of its own `k`-th parameter;
//! a `fun` declared `nonrec` may not refer to itself at all.
//!
//! The checker walks the expression with a context that has one entry per deb:
//! - `Top(None)`: nothing is known about the deb;
//! - `Top(Some(fun))`: the deb is the recursive `fun` itself;
//! - `Substruct(bound, strict)`: the deb is a (strict, if `strict`) substructure of `bound`.
//!
//! Entries are stored unshifted: a bound stored for deb `d` is relative to the
//! context in which the entry was made, so it is upshifted by `d + 1` on lookup.

use vstd::prelude::*;
use std::rc::Rc;
use crate::ast::{
    case_size, cases_size, exprs_size, expr_size, fun_size, ind_size, lemma_cases_size,
    lemma_exprs_size, lemma_vcon_defs_size, rc_clone, vcon_def_size, vcon_defs_size, App,
    AstFamily, Deb, DebNode, Expr, Fun, Ind, Match, MatchCase, Vcon, VconDef,
};
use vstd::slice::slice_subrange;
use crate::type_error::TypeError;

verus! {

#[derive(Debug, Clone, Copy, PartialEq, Eq, Structural)]
pub struct Strict(pub bool);

#[derive(Debug, Clone, Copy, PartialEq, Eq, Structural)]
pub enum SizeBound {
    Deb(Deb),
    CaselessMatch,
}

pub enum Entry<A: AstFamily> {
    Top(Option<Rc<Fun<A>>>),
    Substruct(SizeBound, Strict),
}

pub struct UnshiftedEntry<A: AstFamily>(pub Entry<A>);

#[derive(Clone, Copy)]
pub enum RecursionCheckingContext<'a, A: AstFamily> {
    Base(&'a [UnshiftedEntry<A>]),
    Snoc(&'a RecursionCheckingContext<'a, A>, &'a [UnshiftedEntry<A>]),
}

/// The mathematical content of an entry.
pub enum EntryView<A: AstFamily> {
    Top(Option<Fun<A>>),
    Substruct(SizeBound, Strict),
}

impl<A: AstFamily> Entry<A> {
    pub open spec fn view(&self) -> EntryView<A> {
        match *self {
            Entry::Top(None) => EntryView::Top(None),
            Entry::Top(Some(f)) => EntryView::Top(Some(*f)),
            Entry::Substruct(b, s) => EntryView::Substruct(b, s),
        }
    }
}

pub open spec fn entries_view<A: AstFamily>(s: Seq<UnshiftedEntry<A>>) -> Seq<EntryView<A>> {
    s.map_values(|e: UnshiftedEntry<A>| e.0.view())
}

impl<'a, A: AstFamily> RecursionCheckingContext<'a, A> {
    /// All entries, outermost first: the last one is the entry for deb `0`.
    pub open spec fn flat(&self) -> Seq<EntryView<A>>
        decreases *self,
    {
        match *self {
            RecursionCheckingContext::Base(s) => entries_view(s@),
            RecursionCheckingContext::Snoc(r, s) => r.flat() + entries_view(s@),
        }
    }
}

// ---------------------------------------------------------------------------
// Specification
// ---------------------------------------------------------------------------

pub open spec fn upshift_bound(b: SizeBound, n: int) -> SizeBound {
    match b {
        SizeBound::CaselessMatch => b,
        SizeBound::Deb(d) => SizeBound::Deb(Deb((d.0 + n) as usize)),
    }
}

pub open spec fn upshift_entry<A: AstFamily>(e: EntryView<A>, n: int) -> EntryView<A> {
    match e {
        EntryView::Top(_) => e,
        EntryView::Substruct(b, s) => EntryView::Substruct(upshift_bound(b, n), s),
    }
}

/// The entry for `deb`, upshifted to the current context.
pub open spec fn ctx_get<A: AstFamily>(ctx: Seq<EntryView<A>>, deb: int) -> Option<EntryView<A>> {
    if 0 <= deb < ctx.len() {
        Some(upshift_entry(ctx[ctx.len() - 1 - deb], deb + 1))
    } else {
        None
    }
}

/// `n` entries about which nothing is known.
pub open spec fn tops<A: AstFamily>(n: nat) -> Seq<EntryView<A>> {
    Seq::new(n, |i: int| EntryView::Top(None))
}

pub enum CallRequirement<A: AstFamily> {
    /// A call must pass, at `arg_index`, a strict substructure of `strict_superstruct`.
    Recursive { arg_index: usize, strict_superstruct: Deb, definition_src: Fun<A> },
    /// The deb is a `nonrec` function referring to itself.
    AccessForbidden(Fun<A>),
}

pub open spec fn call_requirement<A: AstFamily>(ctx: Seq<EntryView<A>>, deb: Deb) -> Option<CallRequirement<A>> {
    match ctx_get(ctx, deb.0 as int) {
        Some(EntryView::Top(Some(f))) => match f.decreasing_index {
            Some(di) => Some(
                CallRequirement::Recursive {
                    arg_index: di,
                    strict_superstruct: Deb((deb.0 + f.param_types@.len() - di) as usize),
                    definition_src: f,
                },
            ),
            None => Some(CallRequirement::AccessForbidden(f)),
        },
        _ => None,
    }
}

/// How far a deb is from leaving the context; walks towards outer debs shrink it.
pub open spec fn walk_measure(len: nat, deb: int) -> nat {
    if 0 <= deb < len {
        (len - deb) as nat
    } else {
        0
    }
}

/// If `deb` is a substructure of `possible_superstruct`, whether it is a strict one.
/// (A superstruct always lies further out than the deb it bounds.)
pub open spec fn is_deb_substruct<A: AstFamily>(deb: Deb, possible_superstruct: Deb, ctx: Seq<EntryView<A>>) -> Option<Strict>
    decreases walk_measure(ctx.len(), deb.0 as int),
{
    if deb == possible_superstruct {
        Some(Strict(false))
    } else {
        match ctx_get(ctx, deb.0 as int) {
            None => None,
            Some(EntryView::Top(_)) => None,
            Some(EntryView::Substruct(SizeBound::CaselessMatch, _)) => Some(Strict(true)),
            Some(EntryView::Substruct(SizeBound::Deb(direct), strict)) => {
                if direct.0 > deb.0 {
                    match is_deb_substruct(direct, possible_superstruct, ctx) {
                        Some(direct_strict) => Some(Strict(strict.0 || direct_strict.0)),
                        None => None,
                    }
                } else {
                    None
                }
            },
        }
    }
}

/// Walking outwards from `a_superstruct`, the first superstruct of `a` that is also one of `b`.
pub open spec fn smallest_common_superstruct<A: AstFamily>(a_superstruct: Deb, b: Deb, ctx: Seq<EntryView<A>>) -> Option<SizeBound>
    decreases walk_measure(ctx.len(), a_superstruct.0 as int),
{
    if is_deb_substruct(b, a_superstruct, ctx) is Some {
        Some(SizeBound::Deb(a_superstruct))
    } else {
        match ctx_get(ctx, a_superstruct.0 as int) {
            None => None,
            Some(EntryView::Top(_)) => None,
            Some(EntryView::Substruct(SizeBound::CaselessMatch, _)) => Some(SizeBound::Deb(b)),
            Some(EntryView::Substruct(SizeBound::Deb(next), _)) => {
                if next.0 > a_superstruct.0 {
                    smallest_common_superstruct(next, b, ctx)
                } else {
                    None
                }
            },
        }
    }
}

pub open spec fn min_size_bound<A: AstFamily>(a: SizeBound, b: SizeBound, ctx: Seq<EntryView<A>>) -> Option<SizeBound> {
    match (a, b) {
        (SizeBound::CaselessMatch, b) => Some(b),
        (a, SizeBound::CaselessMatch) => Some(a),
        (SizeBound::Deb(x), SizeBound::Deb(y)) => match smallest_common_superstruct(x, y, ctx) {
            Some(r) => Some(r),
            None => smallest_common_superstruct(y, x, ctx),
        },
    }
}

/// The entries for the parameters of a match case, given the bound of the matchee.
pub open spec fn case_extension<A: AstFamily>(matchee_bound: Option<SizeBound>, arity: nat) -> Seq<EntryView<A>> {
    match matchee_bound {
        None => tops(arity),
        Some(b) => Seq::new(arity, |i: int| EntryView::Substruct(upshift_bound(b, i), Strict(true))),
    }
}

/// A bound on the size of the value of `e`, if one is known.
pub open spec fn size_bound<A: AstFamily>(e: Expr<A>, ctx: Seq<EntryView<A>>) -> Option<SizeBound>
    decreases e,
{
    match e {
        Expr::Match(m) => {
            if m.cases@.len() == 0 {
                Some(SizeBound::CaselessMatch)
            } else {
                cases_size_bound(m.cases@, size_bound(m.matchee, ctx), ctx)
            }
        },
        Expr::Deb(d) => match ctx_get(ctx, d.deb.0 as int) {
            None => None,
            Some(EntryView::Substruct(SizeBound::CaselessMatch, _)) => Some(SizeBound::CaselessMatch),
            Some(_) => Some(SizeBound::Deb(d.deb)),
        },
        _ => None,
    }
}

/// The lowest common bound of the return values of (nonempty) `cases`.
pub open spec fn cases_size_bound<A: AstFamily>(
    cases: Seq<MatchCase<A>>,
    matchee_bound: Option<SizeBound>,
    ctx: Seq<EntryView<A>>,
) -> Option<SizeBound>
    decreases cases,
{
    if cases.len() == 0 {
        None
    } else if cases.len() == 1 {
        case_size_bound(cases[0], matchee_bound, ctx)
    } else {
        match cases_size_bound(cases.drop_last(), matchee_bound, ctx) {
            None => None,
            Some(lowest) => match case_size_bound(cases.last(), matchee_bound, ctx) {
                None => None,
                Some(case_bound) => min_size_bound(case_bound, lowest, ctx),
            },
        }
    }
}

pub open spec fn case_size_bound<A: AstFamily>(
    case: MatchCase<A>,
    matchee_bound: Option<SizeBound>,
    ctx: Seq<EntryView<A>>,
) -> Option<SizeBound>
    decreases case,
{
    size_bound(case.return_val, ctx + case_extension(matchee_bound, case.arity as nat))
}

pub open spec fn is_strict_substruct<A: AstFamily>(e: Expr<A>, possible_superstruct: Deb, ctx: Seq<EntryView<A>>) -> bool {
    match size_bound(e, ctx) {
        None => false,
        Some(SizeBound::CaselessMatch) => true,
        Some(SizeBound::Deb(bound)) => match is_deb_substruct(bound, possible_superstruct, ctx) {
            Some(strict) => strict.0,
            None => false,
        },
    }
}

/// The entry for argument `i` of a call of a `nonrec` fun literal.
pub open spec fn nonrecursive_arg_status<A: AstFamily>(bound: Option<SizeBound>, i: int) -> EntryView<A> {
    match bound {
        None => EntryView::Top(None),
        Some(SizeBound::CaselessMatch) => EntryView::Substruct(SizeBound::CaselessMatch, Strict(true)),
        Some(SizeBound::Deb(superstruct)) => EntryView::Substruct(
            SizeBound::Deb(Deb((superstruct.0 + i) as usize)),
            Strict(false),
        ),
    }
}

/// The entry for argument `i` of a call of a recursive fun literal.
pub open spec fn recursive_arg_status<A: AstFamily>(bound: Option<SizeBound>, i: int, decreasing_index: usize) -> EntryView<A> {
    if i == decreasing_index {
        match bound {
            Some(b) => EntryView::Substruct(upshift_bound(b, i), Strict(false)),
            None => EntryView::Top(None),
        }
    } else {
        EntryView::Top(None)
    }
}

/// The entries for the parameters of a fun literal that is applied to the arguments of `app`.
pub open spec fn app_callee_fun_arg_status<A: AstFamily>(app: App<A>, callee: Fun<A>, ctx: Seq<EntryView<A>>) -> Seq<EntryView<A>> {
    match callee.decreasing_index {
        None => Seq::new(
            app.args@.len(),
            |i: int| nonrecursive_arg_status(size_bound(app.args@[i], ctx), i),
        ),
        Some(di) => Seq::new(
            app.args@.len(),
            |i: int| recursive_arg_status(size_bound(app.args@[i], ctx), i, di),
        ),
    }
}

pub open spec fn check<A: AstFamily>(e: Expr<A>, ctx: Seq<EntryView<A>>) -> Result<(), TypeError<A>>
    decreases e,
{
    match e {
        Expr::Ind(i) => check_ind(*i, ctx),
        Expr::Vcon(v) => check_ind(*v.ind, ctx),
        Expr::Match(m) => match check(m.matchee, ctx) {
            Err(err) => Err(err),
            Ok(_) => check_match_cases(m.cases@, size_bound(m.matchee, ctx), ctx),
        },
        Expr::Fun(f) => check_fun(*f, None, ctx),
        Expr::App(a) => match check_app_callee(*a, ctx) {
            Err(err) => Err(err),
            Ok(_) => check_independent(a.args@, ctx),
        },
        Expr::For(f) => match check_dependent(f.param_types@, ctx) {
            Err(err) => Err(err),
            Ok(_) => check(f.return_type, ctx + tops(f.param_types@.len())),
        },
        Expr::Deb(d) => check_deb(*d, ctx),
        Expr::Universe(_) => Ok(()),
    }
}

pub open spec fn check_ind<A: AstFamily>(ind: Ind<A>, ctx: Seq<EntryView<A>>) -> Result<(), TypeError<A>>
    decreases ind,
{
    match check_dependent(ind.index_types@, ctx) {
        Err(err) => Err(err),
        Ok(_) => check_vcon_defs(ind.vcon_defs@, ctx.push(EntryView::Top(None))),
    }
}

pub open spec fn check_vcon_defs<A: AstFamily>(defs: Seq<VconDef<A>>, ctx: Seq<EntryView<A>>) -> Result<(), TypeError<A>>
    decreases defs,
{
    if defs.len() == 0 {
        Ok(())
    } else {
        match check_vcon_defs(defs.drop_last(), ctx) {
            Err(err) => Err(err),
            Ok(_) => check_vcon_def(defs.last(), ctx),
        }
    }
}

pub open spec fn check_vcon_def<A: AstFamily>(def: VconDef<A>, ctx: Seq<EntryView<A>>) -> Result<(), TypeError<A>>
    decreases def,
{
    match check_dependent(def.param_types@, ctx) {
        Err(err) => Err(err),
        Ok(_) => check_independent(def.index_args@, ctx + tops(def.param_types@.len())),
    }
}

pub open spec fn check_match_cases<A: AstFamily>(
    cases: Seq<MatchCase<A>>,
    matchee_bound: Option<SizeBound>,
    ctx: Seq<EntryView<A>>,
) -> Result<(), TypeError<A>>
    decreases cases,
{
    if cases.len() == 0 {
        Ok(())
    } else {
        match check_match_cases(cases.drop_last(), matchee_bound, ctx) {
            Err(err) => Err(err),
            Ok(_) => check_match_case(cases.last(), matchee_bound, ctx),
        }
    }
}

pub open spec fn check_match_case<A: AstFamily>(
    case: MatchCase<A>,
    matchee_bound: Option<SizeBound>,
    ctx: Seq<EntryView<A>>,
) -> Result<(), TypeError<A>>
    decreases case,
{
    check(case.return_val, ctx + case_extension(matchee_bound, case.arity as nat))
}

/// `app_arg_status` gives the entries of the parameters when the fun is applied directly.
pub open spec fn check_fun<A: AstFamily>(
    fun: Fun<A>,
    app_arg_status: Option<Seq<EntryView<A>>>,
    ctx: Seq<EntryView<A>>,
) -> Result<(), TypeError<A>>
    decreases fun,
{
    match check_dependent(fun.param_types@, ctx) {
        Err(err) => Err(err),
        Ok(_) => match check(fun.return_type, ctx + tops(fun.param_types@.len())) {
            Err(err) => Err(err),
            Ok(_) => {
                if fun.decreasing_index matches Some(di) && di >= fun.param_types@.len() {
                    Err(TypeError::DecreasingArgIndexTooBig { fun })
                } else {
                    let params = match app_arg_status {
                        Some(status) => status,
                        None => tops(fun.param_types@.len()),
                    };
                    check(fun.return_val, ctx + params.push(EntryView::Top(Some(fun))))
                }
            },
        },
    }
}

pub open spec fn check_app_callee<A: AstFamily>(app: App<A>, ctx: Seq<EntryView<A>>) -> Result<(), TypeError<A>>
    decreases app,
{
    match app.callee {
        Expr::Deb(callee) => check_app_callee_deb(app, *callee, ctx),
        Expr::Fun(callee) => check_fun(*callee, Some(app_callee_fun_arg_status(app, *callee, ctx)), ctx),
        _ => check(app.callee, ctx),
    }
}

pub open spec fn check_app_callee_deb<A: AstFamily>(app: App<A>, callee: DebNode<A>, ctx: Seq<EntryView<A>>) -> Result<(), TypeError<A>> {
    match call_requirement(ctx, callee.deb) {
        Some(CallRequirement::Recursive { arg_index, strict_superstruct, definition_src }) => {
            if arg_index >= app.args@.len() {
                Ok(())
            } else if !is_strict_substruct(app.args@[arg_index as int], strict_superstruct, ctx) {
                Err(
                    TypeError::IllegalRecursiveCall {
                        app,
                        callee_deb_definition_src: definition_src,
                        required_decreasing_arg_index: arg_index,
                        required_strict_superstruct: strict_superstruct,
                    },
                )
            } else {
                Ok(())
            }
        },
        Some(CallRequirement::AccessForbidden(definition_src)) => Err(
            TypeError::DeclaredFunNonrecursiveButUsedRecursiveFunParam { deb: callee, definition_src },
        ),
        None => check_deb(callee, ctx),
    }
}

pub open spec fn check_deb<A: AstFamily>(deb: DebNode<A>, ctx: Seq<EntryView<A>>) -> Result<(), TypeError<A>> {
    match call_requirement(ctx, deb.deb) {
        Some(CallRequirement::Recursive { definition_src, .. }) => Err(
            TypeError::RecursiveFunParamInNonCalleePosition { deb, definition_src },
        ),
        Some(CallRequirement::AccessForbidden(definition_src)) => Err(
            TypeError::DeclaredFunNonrecursiveButUsedRecursiveFunParam { deb, definition_src },
        ),
        None => Ok(()),
    }
}

/// Item `i` is checked with `i` more entries than the list.
pub open spec fn check_dependent<A: AstFamily>(exprs: Seq<Expr<A>>, ctx: Seq<EntryView<A>>) -> Result<(), TypeError<A>>
    decreases exprs,
{
    if exprs.len() == 0 {
        Ok(())
    } else {
        match check_dependent(exprs.drop_last(), ctx) {
            Err(err) => Err(err),
            Ok(_) => check(exprs.last(), ctx + tops((exprs.len() - 1) as nat)),
        }
    }
}

pub open spec fn check_independent<A: AstFamily>(exprs: Seq<Expr<A>>, ctx: Seq<EntryView<A>>) -> Result<(), TypeError<A>>
    decreases exprs,
{
    if exprs.len() == 0 {
        Ok(())
    } else {
        match check_independent(exprs.drop_last(), ctx) {
            Err(err) => Err(err),
            Ok(_) => check(exprs.last(), ctx),
        }
    }
}

// ---------------------------------------------------------------------------
// Laws: what the entries of case parameters and of the parameters of an
// applied `nonrec` fun literal say once looked up.
// ---------------------------------------------------------------------------

/// Inside a match case of arity `n` whose matchee is bounded by deb `b`, every case
/// parameter is a strict substructure of that same deb, seen from inside the case as
/// deb `b + n`; so a recursive call on any field of the matched value is accepted.
/// If the matchee is a caseless match, every case parameter is a strict substructure
/// of anything.
pub proof fn law_case_params_are_strict_substructs_of_the_matchee<A: AstFamily>(
    ctx: Seq<EntryView<A>>,
    b: Deb,
    n: nat,
    d: int,
)
    requires
        0 <= d < n,
        b.0 + n <= usize::MAX,
    ensures
        ctx_get(ctx + case_extension(Some(SizeBound::Deb(b)), n), d) == Some(
            EntryView::<A>::Substruct(SizeBound::Deb(Deb((b.0 + n) as usize)), Strict(true)),
        ),
        is_deb_substruct(
            Deb(d as usize),
            Deb((b.0 + n) as usize),
            ctx + case_extension(Some(SizeBound::Deb(b)), n),
        ) == Some(Strict(true)),
        ctx_get(ctx + case_extension(Some(SizeBound::CaselessMatch), n), d) == Some(
            EntryView::<A>::Substruct(SizeBound::CaselessMatch, Strict(true)),
        ),
{
    let ext = case_extension::<A>(Some(SizeBound::Deb(b)), n);
    let full = ctx + ext;
    assert(full[full.len() - 1 - d] == ext[n - 1 - d]);
    let ext2 = case_extension::<A>(Some(SizeBound::CaselessMatch), n);
    let full2 = ctx + ext2;
    assert(full2[full2.len() - 1 - d] == ext2[n - 1 - d]);
    let sup = Deb((b.0 + n) as usize);
    assert(ctx_get(full, d) == Some(EntryView::<A>::Substruct(SizeBound::Deb(sup), Strict(true))));
    assert(is_deb_substruct(sup, sup, full) == Some(Strict(false)));
}

/// When a `nonrec` fun literal is applied to `k` arguments, inside its body (past its
/// `k` parameters and itself) parameter `i` is deb `k - i`. If argument `i` is bounded
/// by deb `b`, that parameter is a substructure of the same deb, seen from the body as
/// `b + k + 1`; if the argument is a caseless match, so is the parameter's bound; and
/// otherwise nothing is known of it.
pub proof fn law_nonrec_fun_params_are_bounded_like_their_args<A: AstFamily>(
    app: App<A>,
    callee: Fun<A>,
    ctx: Seq<EntryView<A>>,
    i: int,
)
    requires
        callee.decreasing_index is None,
        0 <= i < app.args@.len(),
        size_bound(app.args@[i], ctx) matches Some(SizeBound::Deb(b)) ==> b.0 + app.args@.len() + 1 <= usize::MAX,
    ensures
        ctx_get(
            ctx + app_callee_fun_arg_status(app, callee, ctx).push(EntryView::Top(Some(callee))),
            app.args@.len() - i,
        ) == Some(
            match size_bound(app.args@[i], ctx) {
                None => EntryView::<A>::Top(None),
                Some(SizeBound::CaselessMatch) => EntryView::Substruct(SizeBound::CaselessMatch, Strict(true)),
                Some(SizeBound::Deb(b)) => EntryView::Substruct(
                    SizeBound::Deb(Deb((b.0 + app.args@.len() + 1) as usize)),
                    Strict(false),
                ),
            },
        ),
        size_bound(app.args@[i], ctx) matches Some(SizeBound::Deb(b)) ==> is_deb_substruct(
            Deb((app.args@.len() - i) as usize),
            Deb((b.0 + app.args@.len() + 1) as usize),
            ctx + app_callee_fun_arg_status(app, callee, ctx).push(EntryView::Top(Some(callee))),
        ) == Some(Strict(false)),
{
    let k = app.args@.len();
    let status = app_callee_fun_arg_status(app, callee, ctx);
    let body = ctx + status.push(EntryView::Top(Some(callee)));
    assert(body[body.len() - 1 - (k - i)] == status[i]);
    match size_bound(app.args@[i], ctx) {
        Some(SizeBound::Deb(b)) => {
            let sup = Deb((b.0 + k + 1) as usize);
            assert(is_deb_substruct(sup, sup, body) == Some(Strict(false)));
        },
        _ => {},
    }
}

// ---------------------------------------------------------------------------
// Bounds that keep every computed deb within a `usize`.
//
// `ctx_ok(ctx, c)`: the context has at most `c` entries, every stored bound,
// once upshifted to the current context, is at most `c`, and every recursive
// fun in the context has a valid decreasing index whose superstruct deb is
// at most `c`. Checking an expression `e` under such a context only needs
// `c + expr_size(e)` to fit in a `usize`.
// ---------------------------------------------------------------------------

pub open spec fn entry_ok<A: AstFamily>(e: EntryView<A>, deb: int, c: int) -> bool {
    match e {
        EntryView::Substruct(SizeBound::Deb(s), _) => s.0 + deb + 1 <= c,
        EntryView::Top(Some(f)) => {
            &&& deb + f.param_types@.len() <= c
            &&& (f.decreasing_index matches Some(di) ==> di < f.param_types@.len())
        },
        _ => true,
    }
}

pub open spec fn ctx_ok<A: AstFamily>(ctx: Seq<EntryView<A>>, c: int) -> bool {
    &&& ctx.len() <= c
    &&& forall|p: int| 0 <= p < ctx.len() ==> entry_ok(#[trigger] ctx[p], ctx.len() - 1 - p, c)
}

/// Extending a context with entries that are within a larger bound.
proof fn lemma_ctx_ok_extend<A: AstFamily>(ctx: Seq<EntryView<A>>, ext: Seq<EntryView<A>>, c: int, c2: int)
    requires
        ctx_ok(ctx, c),
        c + ext.len() <= c2,
        forall|j: int| 0 <= j < ext.len() ==> entry_ok(#[trigger] ext[j], ext.len() - 1 - j, c2),
    ensures
        ctx_ok(ctx + ext, c2),
{
    let full = ctx + ext;
    assert forall|p: int| 0 <= p < full.len() implies entry_ok(#[trigger] full[p], full.len() - 1 - p, c2) by {
        if p < ctx.len() {
            assert(full[p] == ctx[p]);
            assert(entry_ok(ctx[p], ctx.len() - 1 - p, c));
        } else {
            assert(full[p] == ext[p - ctx.len()]);
        }
    }
}

proof fn lemma_tops_ok<A: AstFamily>(n: nat, c: int)
    ensures
        forall|j: int| 0 <= j < n ==> entry_ok(#[trigger] tops::<A>(n)[j], n - 1 - j, c),
{
}

/// A looked-up bound lies further out than the deb it was looked up for, and within the bound.
proof fn lemma_ctx_get<A: AstFamily>(ctx: Seq<EntryView<A>>, c: int, deb: int)
    requires
        ctx_ok(ctx, c),
        c <= usize::MAX,
        0 <= deb < ctx.len(),
    ensures
        ctx_get(ctx, deb) matches Some(EntryView::Substruct(SizeBound::Deb(x), _)) ==> deb < x.0 <= c,
        ctx_get(ctx, deb) matches Some(EntryView::Top(Some(f))) ==> deb + f.param_types@.len() <= c
            && (f.decreasing_index matches Some(di) ==> di < f.param_types@.len()),
{
    assert(entry_ok(ctx[ctx.len() - 1 - deb], deb, c));
}

// ---------------------------------------------------------------------------
// Contexts
// ---------------------------------------------------------------------------

pub open spec fn entry_option_view<A: AstFamily>(e: Option<Entry<A>>) -> Option<EntryView<A>> {
    match e {
        Some(e) => Some(e.view()),
        None => None,
    }
}

fn copy_entry<A: AstFamily>(e: &Entry<A>) -> (res: Entry<A>)
    ensures
        res.view() == e.view(),
{
    match e {
        Entry::Top(None) => Entry::Top(None),
        Entry::Top(Some(f)) => Entry::Top(Some(rc_clone(f))),
        Entry::Substruct(b, s) => Entry::Substruct(*b, *s),
    }
}

fn tops_vec<A: AstFamily>(n: usize) -> (res: Vec<UnshiftedEntry<A>>)
    ensures
        entries_view(res@) == tops::<A>(n as nat),
{
    let mut v: Vec<UnshiftedEntry<A>> = Vec::new();
    let mut k: usize = 0;
    while k < n
        invariant
            k <= n,
            v@.len() == k,
            forall|j: int| 0 <= j < k ==> (#[trigger] v@[j]).0.view() == EntryView::<A>::Top(None),
        decreases n - k,
    {
        v.push(UnshiftedEntry(Entry::Top(None)));
        k += 1;
    }
    assert(entries_view(v@) =~= tops::<A>(n as nat));
    v
}

impl<A: AstFamily> RecursionCheckingContext<'static, A> {
    pub fn empty() -> (res: Self)
        ensures
            res matches RecursionCheckingContext::Base(entries) && entries@.len() == 0,
            res.flat() == Seq::<EntryView<A>>::empty(),
    {
        let res = RecursionCheckingContext::Base(&[]);
        assert(res.flat() =~= Seq::<EntryView<A>>::empty());
        res
    }
}

impl<'a, A: AstFamily> RecursionCheckingContext<'a, A> {
    fn get_unshifted(&self, deb: usize) -> (res: Option<Entry<A>>)
        ensures
            match res {
                Some(e) => deb < self.flat().len() && e.view() == self.flat()[self.flat().len() - 1 - deb],
                None => deb >= self.flat().len(),
            },
        decreases *self,
    {
        match self {
            RecursionCheckingContext::Base(entries) => {
                if deb < entries.len() {
                    Some(copy_entry(&entries[entries.len() - 1 - deb].0))
                } else {
                    None
                }
            },
            RecursionCheckingContext::Snoc(subcontext, entries) => {
                if deb < entries.len() {
                    Some(copy_entry(&entries[entries.len() - 1 - deb].0))
                } else {
                    subcontext.get_unshifted(deb - entries.len())
                }
            },
        }
    }

    fn get(&self, deb: Deb, Ghost(c): Ghost<int>) -> (res: Option<Entry<A>>)
        requires
            ctx_ok(self.flat(), c),
            c <= usize::MAX,
        ensures
            entry_option_view(res) == ctx_get(self.flat(), deb.0 as int),
    {
        match self.get_unshifted(deb.0) {
            None => None,
            Some(entry) => {
                proof {
                    assert(entry_ok(self.flat()[self.flat().len() - 1 - deb.0], deb.0 as int, c));
                }
                Some(entry.upshift(deb.0 + 1))
            },
        }
    }

    fn get_call_requirement(&self, deb: Deb, Ghost(c): Ghost<int>) -> (res: Option<CallRequirement<A>>)
        requires
            ctx_ok(self.flat(), c),
            c <= usize::MAX,
        ensures
            res == call_requirement(self.flat(), deb),
    {
        proof {
            if deb.0 < self.flat().len() {
                lemma_ctx_get(self.flat(), c, deb.0 as int);
            }
        }
        match self.get(deb, Ghost(c)) {
            Some(Entry::Top(Some(fun))) => match fun.decreasing_index {
                Some(decreasing_index) => Some(
                    CallRequirement::Recursive {
                        arg_index: decreasing_index,
                        strict_superstruct: Deb(deb.0 + fun.param_types.len() - decreasing_index),
                        definition_src: fun.copy(),
                    },
                ),
                None => Some(CallRequirement::AccessForbidden(fun.copy())),
            },
            _ => None,
        }
    }
}

impl<A: AstFamily> Entry<A> {
    /// The entry with its bound (if any) moved outwards by `upshift_amount` debs.
    pub fn upshift(self, upshift_amount: usize) -> (res: Self)
        requires
            self matches Entry::Substruct(SizeBound::Deb(d), _) ==> d.0 + upshift_amount <= usize::MAX,
        ensures
            res.view() == upshift_entry(self.view(), upshift_amount as int),
    {
        match self {
            Entry::Top(_) => self,
            Entry::Substruct(bound, strict) => Entry::Substruct(bound.upshift(upshift_amount), strict),
        }
    }
}

impl SizeBound {
    pub fn upshift(self, upshift_amount: usize) -> (res: Self)
        requires
            self matches SizeBound::Deb(d) ==> d.0 + upshift_amount <= usize::MAX,
        ensures
            res == upshift_bound(self, upshift_amount as int),
    {
        match self {
            SizeBound::CaselessMatch => SizeBound::CaselessMatch,
            SizeBound::Deb(deb) => SizeBound::Deb(Deb(deb.0 + upshift_amount)),
        }
    }
}

// ---------------------------------------------------------------------------
// Size bounds
// ---------------------------------------------------------------------------

/// If `deb` is a substruct of `possible_superstruct`, returns `Some(strictness)`.
fn is_deb_substruct_exec<A: AstFamily>(
    deb: Deb,
    possible_superstruct: Deb,
    rcon: &RecursionCheckingContext<A>,
    Ghost(c): Ghost<int>,
) -> (res: Option<Strict>)
    requires
        ctx_ok(rcon.flat(), c),
        c <= usize::MAX,
    ensures
        res == is_deb_substruct(deb, possible_superstruct, rcon.flat()),
    decreases walk_measure(rcon.flat().len(), deb.0 as int),
{
    if deb == possible_superstruct {
        return Some(Strict(false));
    }
    proof {
        if deb.0 < rcon.flat().len() {
            lemma_ctx_get(rcon.flat(), c, deb.0 as int);
        }
    }
    match rcon.get(deb, Ghost(c)) {
        None => None,
        Some(Entry::Top(_)) => None,
        Some(Entry::Substruct(SizeBound::CaselessMatch, _)) => Some(Strict(true)),
        Some(Entry::Substruct(SizeBound::Deb(direct_superstruct), strict)) => {
            match is_deb_substruct_exec(direct_superstruct, possible_superstruct, rcon, Ghost(c)) {
                Some(direct_strict) => Some(Strict(strict.0 || direct_strict.0)),
                None => None,
            }
        },
    }
}

fn get_smallest_superstruct_of_a_that_is_also_a_superstruct_of_b<A: AstFamily>(
    a: Deb,
    b: Deb,
    rcon: &RecursionCheckingContext<A>,
    Ghost(c): Ghost<int>,
) -> (res: Option<SizeBound>)
    requires
        ctx_ok(rcon.flat(), c),
        c <= usize::MAX,
    ensures
        res == smallest_common_superstruct(a, b, rcon.flat()),
        res matches Some(SizeBound::Deb(r)) ==> r.0 <= a.0 || r == b || r.0 <= c,
{
    let mut a_superstruct = a;
    loop
        invariant
            ctx_ok(rcon.flat(), c),
            c <= usize::MAX,
            smallest_common_superstruct(a_superstruct, b, rcon.flat()) == smallest_common_superstruct(a, b, rcon.flat()),
            a_superstruct.0 <= a.0 || a_superstruct.0 <= c,
        decreases walk_measure(rcon.flat().len(), a_superstruct.0 as int),
    {
        if is_deb_substruct_exec(b, a_superstruct, rcon, Ghost(c)).is_some() {
            return Some(SizeBound::Deb(a_superstruct));
        }
        proof {
            if a_superstruct.0 < rcon.flat().len() {
                lemma_ctx_get(rcon.flat(), c, a_superstruct.0 as int);
            }
        }
        match rcon.get(a_superstruct, Ghost(c)) {
            None => return None,
            Some(Entry::Top(_)) => return None,
            Some(Entry::Substruct(SizeBound::CaselessMatch, _)) => return Some(SizeBound::Deb(b)),
            Some(Entry::Substruct(SizeBound::Deb(next), _)) => {
                a_superstruct = next;
            },
        }
    }
}

fn get_min_size_bound_of_debs<A: AstFamily>(
    a: Deb,
    b: Deb,
    rcon: &RecursionCheckingContext<A>,
    Ghost(c): Ghost<int>,
) -> (res: Option<SizeBound>)
    requires
        ctx_ok(rcon.flat(), c),
        c <= usize::MAX,
    ensures
        res == min_size_bound(SizeBound::Deb(a), SizeBound::Deb(b), rcon.flat()),
        res matches Some(SizeBound::Deb(r)) ==> r.0 <= a.0 || r.0 <= b.0 || r.0 <= c,
{
    match get_smallest_superstruct_of_a_that_is_also_a_superstruct_of_b(a, b, rcon, Ghost(c)) {
        Some(r) => Some(r),
        None => get_smallest_superstruct_of_a_that_is_also_a_superstruct_of_b(b, a, rcon, Ghost(c)),
    }
}

fn get_min_size_bound<A: AstFamily>(
    a: SizeBound,
    b: SizeBound,
    rcon: &RecursionCheckingContext<A>,
    Ghost(c): Ghost<int>,
) -> (res: Option<SizeBound>)
    requires
        ctx_ok(rcon.flat(), c),
        c <= usize::MAX,
    ensures
        res == min_size_bound(a, b, rcon.flat()),
        res matches Some(SizeBound::Deb(r)) ==> (a matches SizeBound::Deb(x) && r.0 <= x.0) || (
        b matches SizeBound::Deb(y) && r.0 <= y.0) || r.0 <= c,
{
    match (a, b) {
        (SizeBound::CaselessMatch, b) => Some(b),
        (a, SizeBound::CaselessMatch) => Some(a),
        (SizeBound::Deb(a), SizeBound::Deb(b)) => get_min_size_bound_of_debs(a, b, rcon, Ghost(c)),
    }
}

fn get_rcon_extension_for_match_case_params<A: AstFamily>(
    matchee_bound: Option<SizeBound>,
    case_arity: usize,
) -> (res: Vec<UnshiftedEntry<A>>)
    requires
        matchee_bound matches Some(SizeBound::Deb(b)) ==> b.0 + case_arity <= usize::MAX,
    ensures
        entries_view(res@) == case_extension::<A>(matchee_bound, case_arity as nat),
{
    match matchee_bound {
        None => tops_vec(case_arity),
        Some(matchee_bound) => {
            let mut v: Vec<UnshiftedEntry<A>> = Vec::new();
            let mut case_param_index: usize = 0;
            while case_param_index < case_arity
                invariant
                    case_param_index <= case_arity,
                    matchee_bound matches SizeBound::Deb(b) ==> b.0 + case_arity <= usize::MAX,
                    v@.len() == case_param_index,
                    forall|j: int|
                        0 <= j < case_param_index ==> (#[trigger] v@[j]).0.view() == EntryView::<A>::Substruct(
                            upshift_bound(matchee_bound, j),
                            Strict(true),
                        ),
                decreases case_arity - case_param_index,
            {
                let bound = matchee_bound.upshift(case_param_index);
                v.push(UnshiftedEntry(Entry::Substruct(bound, Strict(true))));
                case_param_index += 1;
            }
            assert(entries_view(v@) =~= case_extension::<A>(Some(matchee_bound), case_arity as nat));
            v
        },
    }
}

/// The entries of a match case extension are within the bound of the extended context.
proof fn lemma_case_extension_ok<A: AstFamily>(matchee_bound: Option<SizeBound>, arity: nat, cb: int)
    requires
        matchee_bound matches Some(SizeBound::Deb(b)) ==> b.0 < cb,
        cb + arity <= usize::MAX,
    ensures
        forall|j: int|
            0 <= j < arity ==> entry_ok(
                #[trigger] case_extension::<A>(matchee_bound, arity)[j],
                arity - 1 - j,
                cb + arity,
            ),
{
}

fn get_size_bound<A: AstFamily>(
    expr: &Expr<A>,
    rcon: &RecursionCheckingContext<A>,
    Ghost(c): Ghost<int>,
) -> (res: Option<SizeBound>)
    requires
        ctx_ok(rcon.flat(), c),
        c + expr_size(*expr) <= usize::MAX,
    ensures
        res == size_bound(*expr, rcon.flat()),
        res matches Some(SizeBound::Deb(b)) ==> b.0 < c + expr_size(*expr),
    decreases *expr,
{
    match expr {
        Expr::Match(e) => get_size_bound_of_match(e, rcon, Ghost(c)),
        Expr::Deb(e) => get_size_bound_of_deb(e, rcon, Ghost(c)),
        _ => None,
    }
}

fn get_size_bound_of_match<A: AstFamily>(
    expr: &Match<A>,
    rcon: &RecursionCheckingContext<A>,
    Ghost(c): Ghost<int>,
) -> (res: Option<SizeBound>)
    requires
        ctx_ok(rcon.flat(), c),
        c + expr_size(Expr::Match(Rc::new(*expr))) <= usize::MAX,
    ensures
        res == size_bound(Expr::Match(Rc::new(*expr)), rcon.flat()),
        res matches Some(SizeBound::Deb(b)) ==> b.0 < c + expr_size(Expr::Match(Rc::new(*expr))),
    decreases *expr,
{
    let ghost whole = expr_size(Expr::Match(Rc::new(*expr)));
    let ghost cases = expr.cases@;
    proof {
        lemma_cases_size(cases);
    }
    if expr.cases.len() == 0 {
        return Some(SizeBound::CaselessMatch);
    }
    let matchee_bound = get_size_bound(&expr.matchee, rcon, Ghost(c));
    let ghost cb = c + expr_size(expr.matchee);
    assert(case_size(cases[0]) < cases_size(cases));
    let first = get_size_bound_of_match_case(&expr.cases[0], matchee_bound, rcon, Ghost(c), Ghost(cb));
    assert(cases.take(1) =~= seq![cases[0]]);
    let mut lowest_common_bound = match first {
        Some(b) => b,
        None => {
            proof {
                lemma_cases_size_bound_none_extends(cases, matchee_bound, rcon.flat(), 1);
            }
            return None;
        },
    };
    let mut i: usize = 1;
    while i < expr.cases.len()
        invariant
            1 <= i <= cases.len(),
            cases == expr.cases@,
            ctx_ok(rcon.flat(), c),
            c + expr_size(expr.matchee) == cb,
            whole == expr_size(Expr::Match(Rc::new(*expr))),
            c + whole <= usize::MAX,
            cb + cases_size(cases) <= whole + c,
            forall|j: int| 0 <= j < cases.len() ==> case_size(#[trigger] cases[j]) < cases_size(cases),
            matchee_bound == size_bound(expr.matchee, rcon.flat()),
            matchee_bound matches Some(SizeBound::Deb(b)) ==> b.0 < cb,
            cases_size_bound(cases.take(i as int), matchee_bound, rcon.flat()) == Some(lowest_common_bound),
            lowest_common_bound matches SizeBound::Deb(b) ==> b.0 < c + whole,
        decreases cases.len() - i,
    {
        proof {
            assert(decreases_to!(*expr => expr.cases));
            assert(decreases_to!(*expr.cases => (*expr.cases)@));
            assert(decreases_to!((*expr.cases)@ => (*expr.cases)@[i as int]));
            assert(case_size(cases[i as int]) < cases_size(cases));
        }
        let case_bound = match get_size_bound_of_match_case(&expr.cases[i], matchee_bound, rcon, Ghost(c), Ghost(cb)) {
            Some(b) => b,
            None => {
                proof {
                    assert(cases.take(i + 1).drop_last() =~= cases.take(i as int));
                    lemma_cases_size_bound_none_extends(cases, matchee_bound, rcon.flat(), (i + 1) as int);
                }
                return None;
            },
        };
        let next = get_min_size_bound(case_bound, lowest_common_bound, rcon, Ghost(c));
        proof {
            assert(cases.take(i + 1).drop_last() =~= cases.take(i as int));
            assert(cases.take(i + 1).last() == cases[i as int]);
        }
        match next {
            Some(b) => {
                lowest_common_bound = b;
            },
            None => {
                proof {
                    lemma_cases_size_bound_none_extends(cases, matchee_bound, rcon.flat(), (i + 1) as int);
                }
                return None;
            },
        }
        i += 1;
    }
    assert(cases.take(cases.len() as int) =~= cases);
    Some(lowest_common_bound)
}

/// Once a prefix of the cases has no common bound, no longer prefix has one.
proof fn lemma_cases_size_bound_none_extends<A: AstFamily>(
    cases: Seq<MatchCase<A>>,
    matchee_bound: Option<SizeBound>,
    ctx: Seq<EntryView<A>>,
    k: int,
)
    requires
        1 <= k <= cases.len(),
        cases_size_bound(cases.take(k), matchee_bound, ctx) is None,
    ensures
        cases_size_bound(cases, matchee_bound, ctx) is None,
    decreases cases.len() - k,
{
    if k < cases.len() {
        assert(cases.take(k + 1).drop_last() =~= cases.take(k));
        lemma_cases_size_bound_none_extends(cases, matchee_bound, ctx, k + 1);
    } else {
        assert(cases.take(k) =~= cases);
    }
}

fn get_size_bound_of_match_case<A: AstFamily>(
    expr: &MatchCase<A>,
    matchee_bound: Option<SizeBound>,
    rcon: &RecursionCheckingContext<A>,
    Ghost(c): Ghost<int>,
    Ghost(cb): Ghost<int>,
) -> (res: Option<SizeBound>)
    requires
        ctx_ok(rcon.flat(), c),
        c <= cb,
        matchee_bound matches Some(SizeBound::Deb(b)) ==> b.0 < cb,
        cb + case_size(*expr) <= usize::MAX,
    ensures
        res == case_size_bound(*expr, matchee_bound, rcon.flat()),
        res matches Some(SizeBound::Deb(b)) ==> b.0 < cb + case_size(*expr),
    decreases *expr,
{
    let extension = get_rcon_extension_for_match_case_params(matchee_bound, expr.arity);
    let extended_rcon = RecursionCheckingContext::Snoc(rcon, extension.as_slice());
    proof {
        lemma_case_extension_ok::<A>(matchee_bound, expr.arity as nat, cb);
        lemma_ctx_ok_extend(rcon.flat(), entries_view(extension@), c, cb + expr.arity);
        assert(extended_rcon.flat() == rcon.flat() + case_extension::<A>(matchee_bound, expr.arity as nat));
    }
    get_size_bound(&expr.return_val, &extended_rcon, Ghost(cb + expr.arity))
}

fn get_size_bound_of_deb<A: AstFamily>(
    expr: &DebNode<A>,
    rcon: &RecursionCheckingContext<A>,
    Ghost(c): Ghost<int>,
) -> (res: Option<SizeBound>)
    requires
        ctx_ok(rcon.flat(), c),
        c <= usize::MAX,
    ensures
        res == size_bound(Expr::Deb(Rc::new(*expr)), rcon.flat()),
        res matches Some(SizeBound::Deb(b)) ==> b.0 < c,
{
    let entry = rcon.get(expr.deb, Ghost(c));
    match entry {
        None => None,
        Some(Entry::Substruct(SizeBound::CaselessMatch, _)) => Some(SizeBound::CaselessMatch),
        Some(_) => Some(SizeBound::Deb(expr.deb)),
    }
}

fn is_strict_substruct_exec<A: AstFamily>(
    expr: &Expr<A>,
    possible_superstruct: Deb,
    rcon: &RecursionCheckingContext<A>,
    Ghost(c): Ghost<int>,
) -> (res: bool)
    requires
        ctx_ok(rcon.flat(), c),
        c + expr_size(*expr) <= usize::MAX,
    ensures
        res == is_strict_substruct(*expr, possible_superstruct, rcon.flat()),
{
    let bound = get_size_bound(expr, rcon, Ghost(c));
    match bound {
        None => false,
        Some(SizeBound::CaselessMatch) => true,
        Some(SizeBound::Deb(bound_deb)) => {
            match is_deb_substruct_exec(bound_deb, possible_superstruct, rcon, Ghost(c)) {
                Some(strict) => strict.0,
                None => false,
            }
        },
    }
}

// ---------------------------------------------------------------------------
// The checker
// ---------------------------------------------------------------------------

pub open spec fn arg_status_view<A: AstFamily>(s: Option<Vec<UnshiftedEntry<A>>>) -> Option<Seq<EntryView<A>>> {
    match s {
        Some(v) => Some(entries_view(v@)),
        None => None,
    }
}

/// Once a prefix of the list fails, the whole list fails with the same error.
proof fn lemma_check_dependent_err_extends<A: AstFamily>(exprs: Seq<Expr<A>>, ctx: Seq<EntryView<A>>, k: int)
    requires
        0 <= k <= exprs.len(),
        check_dependent(exprs.take(k), ctx) is Err,
    ensures
        check_dependent(exprs, ctx) == check_dependent(exprs.take(k), ctx),
    decreases exprs.len() - k,
{
    if k < exprs.len() {
        assert(exprs.take(k + 1).drop_last() =~= exprs.take(k));
        lemma_check_dependent_err_extends(exprs, ctx, k + 1);
    } else {
        assert(exprs.take(k) =~= exprs);
    }
}

proof fn lemma_check_independent_err_extends<A: AstFamily>(exprs: Seq<Expr<A>>, ctx: Seq<EntryView<A>>, k: int)
    requires
        0 <= k <= exprs.len(),
        check_independent(exprs.take(k), ctx) is Err,
    ensures
        check_independent(exprs, ctx) == check_independent(exprs.take(k), ctx),
    decreases exprs.len() - k,
{
    if k < exprs.len() {
        assert(exprs.take(k + 1).drop_last() =~= exprs.take(k));
        lemma_check_independent_err_extends(exprs, ctx, k + 1);
    } else {
        assert(exprs.take(k) =~= exprs);
    }
}

proof fn lemma_check_vcon_defs_err_extends<A: AstFamily>(defs: Seq<VconDef<A>>, ctx: Seq<EntryView<A>>, k: int)
    requires
        0 <= k <= defs.len(),
        check_vcon_defs(defs.take(k), ctx) is Err,
    ensures
        check_vcon_defs(defs, ctx) == check_vcon_defs(defs.take(k), ctx),
    decreases defs.len() - k,
{
    if k < defs.len() {
        assert(defs.take(k + 1).drop_last() =~= defs.take(k));
        lemma_check_vcon_defs_err_extends(defs, ctx, k + 1);
    } else {
        assert(defs.take(k) =~= defs);
    }
}

proof fn lemma_check_match_cases_err_extends<A: AstFamily>(
    cases: Seq<MatchCase<A>>,
    matchee_bound: Option<SizeBound>,
    ctx: Seq<EntryView<A>>,
    k: int,
)
    requires
        0 <= k <= cases.len(),
        check_match_cases(cases.take(k), matchee_bound, ctx) is Err,
    ensures
        check_match_cases(cases, matchee_bound, ctx) == check_match_cases(cases.take(k), matchee_bound, ctx),
    decreases cases.len() - k,
{
    if k < cases.len() {
        assert(cases.take(k + 1).drop_last() =~= cases.take(k));
        lemma_check_match_cases_err_extends(cases, matchee_bound, ctx, k + 1);
    } else {
        assert(cases.take(k) =~= cases);
    }
}

proof fn lemma_check_dependent_step<A: AstFamily>(exprs: Seq<Expr<A>>, ctx: Seq<EntryView<A>>, i: int)
    requires
        0 <= i < exprs.len(),
        check_dependent(exprs.take(i), ctx) is Ok,
    ensures
        check_dependent(exprs.take(i + 1), ctx) == check(exprs[i], ctx + tops::<A>(i as nat)),
{
    assert(exprs.take(i + 1).drop_last() =~= exprs.take(i));
    assert(exprs.take(i + 1).last() == exprs[i]);
}

proof fn lemma_check_independent_step<A: AstFamily>(exprs: Seq<Expr<A>>, ctx: Seq<EntryView<A>>, i: int)
    requires
        0 <= i < exprs.len(),
        check_independent(exprs.take(i), ctx) is Ok,
    ensures
        check_independent(exprs.take(i + 1), ctx) == check(exprs[i], ctx),
{
    assert(exprs.take(i + 1).drop_last() =~= exprs.take(i));
    assert(exprs.take(i + 1).last() == exprs[i]);
}

proof fn lemma_check_vcon_defs_step<A: AstFamily>(defs: Seq<VconDef<A>>, ctx: Seq<EntryView<A>>, i: int)
    requires
        0 <= i < defs.len(),
        check_vcon_defs(defs.take(i), ctx) is Ok,
    ensures
        check_vcon_defs(defs.take(i + 1), ctx) == check_vcon_def(defs[i], ctx),
{
    assert(defs.take(i + 1).drop_last() =~= defs.take(i));
    assert(defs.take(i + 1).last() == defs[i]);
}

proof fn lemma_check_match_cases_step<A: AstFamily>(
    cases: Seq<MatchCase<A>>,
    matchee_bound: Option<SizeBound>,
    ctx: Seq<EntryView<A>>,
    i: int,
)
    requires
        0 <= i < cases.len(),
        check_match_cases(cases.take(i), matchee_bound, ctx) is Ok,
    ensures
        check_match_cases(cases.take(i + 1), matchee_bound, ctx) == check_match_case(cases[i], matchee_bound, ctx),
{
    assert(cases.take(i + 1).drop_last() =~= cases.take(i));
    assert(cases.take(i + 1).last() == cases[i]);
}

/// Checks the recursion in `expr`, whose free debs `rcon` describes.
pub fn check_recursion_in_context<A: AstFamily>(
    expr: &Expr<A>,
    rcon: &RecursionCheckingContext<A>,
) -> (res: Result<(), TypeError<A>>)
    requires
        expr_size(*expr) <= usize::MAX,
        ctx_ok(rcon.flat(), usize::MAX - expr_size(*expr)),
    ensures
        res == check(*expr, rcon.flat()),
{
    check_expr(expr, rcon, Ghost(usize::MAX - expr_size(*expr)))
}

fn check_expr<A: AstFamily>(
    expr: &Expr<A>,
    rcon: &RecursionCheckingContext<A>,
    Ghost(c): Ghost<int>,
) -> (res: Result<(), TypeError<A>>)
    requires
        ctx_ok(rcon.flat(), c),
        c + expr_size(*expr) <= usize::MAX,
    ensures
        res == check(*expr, rcon.flat()),
    decreases *expr,
{
    match expr {
        Expr::Ind(e) => check_ind_exec(e, rcon, Ghost(c)),
        Expr::Vcon(e) => {
            proof {
                assert(decreases_to!(*expr => *e));
                assert(decreases_to!(**e => e.ind));
            }
            check_ind_exec(&e.ind, rcon, Ghost(c))
        },
        Expr::Match(e) => check_match_exec(e, rcon, Ghost(c)),
        Expr::Fun(e) => check_fun_exec(e, None, rcon, Ghost(c), Ghost(0)),
        Expr::App(e) => {
            proof {
                lemma_exprs_size(e.args@);
            }
            match check_app_callee_exec(e, rcon, Ghost(c)) {
                Err(err) => Err(err),
                Ok(()) => check_independent_exec(&e.args, rcon, Ghost(c)),
            }
        },
        Expr::For(e) => check_for_exec(e, rcon, Ghost(c)),
        Expr::Deb(e) => check_deb_exec(e, rcon, Ghost(c)),
        Expr::Universe(_) => Ok(()),
    }
}

fn check_ind_exec<A: AstFamily>(
    ind: &Ind<A>,
    rcon: &RecursionCheckingContext<A>,
    Ghost(c): Ghost<int>,
) -> (res: Result<(), TypeError<A>>)
    requires
        ctx_ok(rcon.flat(), c),
        c + ind_size(*ind) <= usize::MAX,
    ensures
        res == check_ind(*ind, rcon.flat()),
    decreases *ind,
{
    match check_dependent_exec(&ind.index_types, rcon, Ghost(c)) {
        Err(err) => {
            return Err(err);
        },
        Ok(()) => {},
    }
    let singleton = tops_vec::<A>(1);
    let extended_rcon = RecursionCheckingContext::Snoc(rcon, singleton.as_slice());
    proof {
        lemma_tops_ok::<A>(1, c + 1);
        lemma_ctx_ok_extend(rcon.flat(), tops::<A>(1), c, c + 1);
        assert(tops::<A>(1) =~= seq![EntryView::<A>::Top(None)]);
        assert(extended_rcon.flat() =~= rcon.flat().push(EntryView::Top(None)));
    }
    check_vcon_defs_exec(&ind.vcon_defs, &extended_rcon, Ghost(c + 1))
}

fn check_vcon_defs_exec<A: AstFamily>(
    defs: &Rc<Vec<VconDef<A>>>,
    rcon: &RecursionCheckingContext<A>,
    Ghost(c): Ghost<int>,
) -> (res: Result<(), TypeError<A>>)
    requires
        ctx_ok(rcon.flat(), c),
        c + vcon_defs_size(defs@) <= usize::MAX,
    ensures
        res == check_vcon_defs(defs@, rcon.flat()),
    decreases *defs,
{
    let ghost ds = defs@;
    proof {
        lemma_vcon_defs_size(ds);
    }
    let n = defs.len();
    let mut i: usize = 0;
    let mut result: Result<(), TypeError<A>> = Ok(());
    assert(ds.take(0) =~= Seq::<VconDef<A>>::empty());
    while i < n
        invariant
            0 <= i <= n,
            n == ds.len(),
            ds == defs@,
            ctx_ok(rcon.flat(), c),
            c + vcon_defs_size(ds) <= usize::MAX,
            forall|j: int| 0 <= j < ds.len() ==> vcon_def_size(#[trigger] ds[j]) < vcon_defs_size(ds),
            check_vcon_defs(ds.take(i as int), rcon.flat()) == result,
            result is Ok,
        decreases n - i,
    {
        proof {
            assert(decreases_to!(**defs => (**defs)@));
            assert(decreases_to!((**defs)@ => (**defs)@[i as int]));
        }
        let r = check_vcon_def_exec(&defs[i], rcon, Ghost(c));
        proof {
            lemma_check_vcon_defs_step(ds, rcon.flat(), i as int);
        }
        if r.is_err() {
            proof {
                lemma_check_vcon_defs_err_extends(ds, rcon.flat(), i + 1);
            }
            return r;
        }
        result = r;
        i += 1;
    }
    assert(ds.take(n as int) =~= ds);
    result
}

fn check_vcon_def_exec<A: AstFamily>(
    def: &VconDef<A>,
    rcon: &RecursionCheckingContext<A>,
    Ghost(c): Ghost<int>,
) -> (res: Result<(), TypeError<A>>)
    requires
        ctx_ok(rcon.flat(), c),
        c + vcon_def_size(*def) <= usize::MAX,
    ensures
        res == check_vcon_def(*def, rcon.flat()),
    decreases *def,
{
    proof {
        lemma_exprs_size(def.param_types@);
    }
    match check_dependent_exec(&def.param_types, rcon, Ghost(c)) {
        Err(err) => {
            return Err(err);
        },
        Ok(()) => {},
    }
    let n = def.param_types.len();
    let extension = tops_vec::<A>(n);
    let extended_rcon = RecursionCheckingContext::Snoc(rcon, extension.as_slice());
    proof {
        lemma_tops_ok::<A>(n as nat, c + n);
        lemma_ctx_ok_extend(rcon.flat(), tops::<A>(n as nat), c, c + n);
        assert(extended_rcon.flat() == rcon.flat() + tops::<A>(n as nat));
    }
    check_independent_exec(&def.index_args, &extended_rcon, Ghost(c + n))
}

fn check_match_exec<A: AstFamily>(
    m: &Match<A>,
    rcon: &RecursionCheckingContext<A>,
    Ghost(c): Ghost<int>,
) -> (res: Result<(), TypeError<A>>)
    requires
        ctx_ok(rcon.flat(), c),
        c + expr_size(Expr::Match(Rc::new(*m))) <= usize::MAX,
    ensures
        res == check(Expr::Match(Rc::new(*m)), rcon.flat()),
    decreases *m,
{
    match check_expr(&m.matchee, rcon, Ghost(c)) {
        Err(err) => {
            return Err(err);
        },
        Ok(()) => {},
    }
    let matchee_bound = get_size_bound(&m.matchee, rcon, Ghost(c));
    check_match_cases_exec(&m.cases, matchee_bound, rcon, Ghost(c), Ghost(c + expr_size(m.matchee)))
}

fn check_match_cases_exec<A: AstFamily>(
    cases: &Rc<Vec<MatchCase<A>>>,
    matchee_bound: Option<SizeBound>,
    rcon: &RecursionCheckingContext<A>,
    Ghost(c): Ghost<int>,
    Ghost(cb): Ghost<int>,
) -> (res: Result<(), TypeError<A>>)
    requires
        ctx_ok(rcon.flat(), c),
        c <= cb,
        matchee_bound matches Some(SizeBound::Deb(b)) ==> b.0 < cb,
        cb + cases_size(cases@) <= usize::MAX,
    ensures
        res == check_match_cases(cases@, matchee_bound, rcon.flat()),
    decreases *cases,
{
    let ghost cs = cases@;
    proof {
        lemma_cases_size(cs);
    }
    let n = cases.len();
    let mut i: usize = 0;
    let mut result: Result<(), TypeError<A>> = Ok(());
    assert(cs.take(0) =~= Seq::<MatchCase<A>>::empty());
    while i < n
        invariant
            0 <= i <= n,
            n == cs.len(),
            cs == cases@,
            ctx_ok(rcon.flat(), c),
            c <= cb,
            matchee_bound matches Some(SizeBound::Deb(b)) ==> b.0 < cb,
            cb + cases_size(cs) <= usize::MAX,
            forall|j: int| 0 <= j < cs.len() ==> case_size(#[trigger] cs[j]) < cases_size(cs),
            check_match_cases(cs.take(i as int), matchee_bound, rcon.flat()) == result,
            result is Ok,
        decreases n - i,
    {
        proof {
            assert(decreases_to!(**cases => (**cases)@));
            assert(decreases_to!((**cases)@ => (**cases)@[i as int]));
        }
        let r = check_match_case_exec(&cases[i], matchee_bound, rcon, Ghost(c), Ghost(cb));
        proof {
            lemma_check_match_cases_step(cs, matchee_bound, rcon.flat(), i as int);
        }
        if r.is_err() {
            proof {
                lemma_check_match_cases_err_extends(cs, matchee_bound, rcon.flat(), i + 1);
            }
            return r;
        }
        result = r;
        i += 1;
    }
    assert(cs.take(n as int) =~= cs);
    result
}

fn check_match_case_exec<A: AstFamily>(
    case: &MatchCase<A>,
    matchee_bound: Option<SizeBound>,
    rcon: &RecursionCheckingContext<A>,
    Ghost(c): Ghost<int>,
    Ghost(cb): Ghost<int>,
) -> (res: Result<(), TypeError<A>>)
    requires
        ctx_ok(rcon.flat(), c),
        c <= cb,
        matchee_bound matches Some(SizeBound::Deb(b)) ==> b.0 < cb,
        cb + case_size(*case) <= usize::MAX,
    ensures
        res == check_match_case(*case, matchee_bound, rcon.flat()),
    decreases *case,
{
    let extension = get_rcon_extension_for_match_case_params(matchee_bound, case.arity);
    let extended_rcon = RecursionCheckingContext::Snoc(rcon, extension.as_slice());
    proof {
        lemma_case_extension_ok::<A>(matchee_bound, case.arity as nat, cb);
        lemma_ctx_ok_extend(rcon.flat(), entries_view(extension@), c, cb + case.arity);
        assert(extended_rcon.flat() == rcon.flat() + case_extension::<A>(matchee_bound, case.arity as nat));
    }
    check_expr(&case.return_val, &extended_rcon, Ghost(cb + case.arity))
}

fn check_for_exec<A: AstFamily>(
    for_: &crate::ast::For<A>,
    rcon: &RecursionCheckingContext<A>,
    Ghost(c): Ghost<int>,
) -> (res: Result<(), TypeError<A>>)
    requires
        ctx_ok(rcon.flat(), c),
        c + expr_size(Expr::For(Rc::new(*for_))) <= usize::MAX,
    ensures
        res == check(Expr::For(Rc::new(*for_)), rcon.flat()),
    decreases *for_,
{
    proof {
        lemma_exprs_size(for_.param_types@);
    }
    match check_dependent_exec(&for_.param_types, rcon, Ghost(c)) {
        Err(err) => {
            return Err(err);
        },
        Ok(()) => {},
    }
    let n = for_.param_types.len();
    let extension = tops_vec::<A>(n);
    let extended_rcon = RecursionCheckingContext::Snoc(rcon, extension.as_slice());
    proof {
        lemma_tops_ok::<A>(n as nat, c + n);
        lemma_ctx_ok_extend(rcon.flat(), tops::<A>(n as nat), c, c + n);
        assert(extended_rcon.flat() == rcon.flat() + tops::<A>(n as nat));
    }
    check_expr(&for_.return_type, &extended_rcon, Ghost(c + n))
}

fn check_deb_exec<A: AstFamily>(
    deb: &DebNode<A>,
    rcon: &RecursionCheckingContext<A>,
    Ghost(c): Ghost<int>,
) -> (res: Result<(), TypeError<A>>)
    requires
        ctx_ok(rcon.flat(), c),
        c <= usize::MAX,
    ensures
        res == check_deb(*deb, rcon.flat()),
{
    match rcon.get_call_requirement(deb.deb, Ghost(c)) {
        Some(CallRequirement::Recursive { definition_src, .. }) => Err(
            TypeError::RecursiveFunParamInNonCalleePosition { deb: deb.copy(), definition_src },
        ),
        Some(CallRequirement::AccessForbidden(definition_src)) => Err(
            TypeError::DeclaredFunNonrecursiveButUsedRecursiveFunParam { deb: deb.copy(), definition_src },
        ),
        None => Ok(()),
    }
}

fn check_dependent_exec<A: AstFamily>(
    exprs: &Rc<Vec<Expr<A>>>,
    rcon: &RecursionCheckingContext<A>,
    Ghost(c): Ghost<int>,
) -> (res: Result<(), TypeError<A>>)
    requires
        ctx_ok(rcon.flat(), c),
        c + exprs_size(exprs@) <= usize::MAX,
    ensures
        res == check_dependent(exprs@, rcon.flat()),
    decreases *exprs,
{
    let ghost es = exprs@;
    proof {
        lemma_exprs_size(es);
    }
    let n = exprs.len();
    if n == 0 {
        return Ok(());
    }
    let extension = tops_vec::<A>(n - 1);
    let mut i: usize = 0;
    let mut result: Result<(), TypeError<A>> = Ok(());
    assert(es.take(0) =~= Seq::<Expr<A>>::empty());
    while i < n
        invariant
            0 <= i <= n,
            n == es.len(),
            es == exprs@,
            ctx_ok(rcon.flat(), c),
            c + exprs_size(es) <= usize::MAX,
            forall|j: int| 0 <= j < es.len() ==> expr_size(#[trigger] es[j]) + es.len() <= exprs_size(es),
            entries_view(extension@) == tops::<A>((n - 1) as nat),
            check_dependent(es.take(i as int), rcon.flat()) == result,
            result is Ok,
        decreases n - i,
    {
        let prefix = slice_subrange(extension.as_slice(), 0, i);
        let extended_rcon = RecursionCheckingContext::Snoc(rcon, prefix);
        proof {
            assert(decreases_to!(**exprs => (**exprs)@));
            assert(decreases_to!((**exprs)@ => (**exprs)@[i as int]));
            assert forall|j: int| 0 <= j < i implies (#[trigger] entries_view(prefix@)[j]) == entries_view(extension@)[j] by {
                assert(prefix@[j] == extension@[j]);
            }
            assert(entries_view(prefix@) =~= tops::<A>(i as nat));
            lemma_tops_ok::<A>(i as nat, c + i);
            lemma_ctx_ok_extend(rcon.flat(), tops::<A>(i as nat), c, c + i);
            assert(extended_rcon.flat() == rcon.flat() + tops::<A>(i as nat));
        }
        let r = check_expr(&exprs[i], &extended_rcon, Ghost(c + i));
        proof {
            lemma_check_dependent_step(es, rcon.flat(), i as int);
        }
        if r.is_err() {
            proof {
                lemma_check_dependent_err_extends(es, rcon.flat(), i + 1);
            }
            return r;
        }
        result = r;
        i += 1;
    }
    assert(es.take(n as int) =~= es);
    result
}

fn check_independent_exec<A: AstFamily>(
    exprs: &Rc<Vec<Expr<A>>>,
    rcon: &RecursionCheckingContext<A>,
    Ghost(c): Ghost<int>,
) -> (res: Result<(), TypeError<A>>)
    requires
        ctx_ok(rcon.flat(), c),
        c + exprs_size(exprs@) <= usize::MAX,
    ensures
        res == check_independent(exprs@, rcon.flat()),
    decreases *exprs,
{
    let ghost es = exprs@;
    proof {
        lemma_exprs_size(es);
    }
    let n = exprs.len();
    let mut i: usize = 0;
    let mut result: Result<(), TypeError<A>> = Ok(());
    assert(es.take(0) =~= Seq::<Expr<A>>::empty());
    while i < n
        invariant
            0 <= i <= n,
            n == es.len(),
            es == exprs@,
            ctx_ok(rcon.flat(), c),
            c + exprs_size(es) <= usize::MAX,
            forall|j: int| 0 <= j < es.len() ==> expr_size(#[trigger] es[j]) + es.len() <= exprs_size(es),
            check_independent(es.take(i as int), rcon.flat()) == result,
            result is Ok,
        decreases n - i,
    {
        proof {
            assert(decreases_to!(**exprs => (**exprs)@));
            assert(decreases_to!((**exprs)@ => (**exprs)@[i as int]));
        }
        let r = check_expr(&exprs[i], rcon, Ghost(c));
        proof {
            lemma_check_independent_step(es, rcon.flat(), i as int);
        }
        if r.is_err() {
            proof {
                lemma_check_independent_err_extends(es, rcon.flat(), i + 1);
            }
            return r;
        }
        result = r;
        i += 1;
    }
    assert(es.take(n as int) =~= es);
    result
}

/// `app_arg_status` gives the entries of the parameters when the fun is applied directly;
/// `k` is the budget that those entries were computed within.
fn check_fun_exec<A: AstFamily>(
    fun: &Rc<Fun<A>>,
    app_arg_status: Option<Vec<UnshiftedEntry<A>>>,
    rcon: &RecursionCheckingContext<A>,
    Ghost(c): Ghost<int>,
    Ghost(k): Ghost<int>,
) -> (res: Result<(), TypeError<A>>)
    requires
        ctx_ok(rcon.flat(), c),
        0 <= k,
        c + k + fun_size(**fun) <= usize::MAX,
        app_arg_status matches Some(s) ==> s@.len() <= k && forall|j: int|
            0 <= j < s@.len() ==> entry_ok(#[trigger] entries_view(s@)[j], s@.len() - j, c + k),
    ensures
        res == check_fun(**fun, arg_status_view(app_arg_status), rcon.flat()),
    decreases *fun,
{
    proof {
        lemma_exprs_size(fun.param_types@);
    }
    match check_dependent_exec(&fun.param_types, rcon, Ghost(c)) {
        Err(err) => {
            return Err(err);
        },
        Ok(()) => {},
    }
    let n = fun.param_types.len();
    let return_type_extension = tops_vec::<A>(n);
    let return_type_rcon = RecursionCheckingContext::Snoc(rcon, return_type_extension.as_slice());
    proof {
        lemma_tops_ok::<A>(n as nat, c + n);
        lemma_ctx_ok_extend(rcon.flat(), tops::<A>(n as nat), c, c + n);
        assert(return_type_rcon.flat() == rcon.flat() + tops::<A>(n as nat));
    }
    match check_expr(&fun.return_type, &return_type_rcon, Ghost(c + n)) {
        Err(err) => {
            return Err(err);
        },
        Ok(()) => {},
    }
    let ghost status = arg_status_view(app_arg_status);
    let extension = match get_fun_rcon_extension(fun, app_arg_status) {
        Err(err) => {
            return Err(err);
        },
        Ok(extension) => extension,
    };
    let extended_rcon = RecursionCheckingContext::Snoc(rcon, extension.as_slice());
    let ghost c2 = c + k + 1 + n;
    proof {
        let ext = entries_view(extension@);
        let params = match status {
            Some(s) => s,
            None => tops::<A>(n as nat),
        };
        assert(ext == params.push(EntryView::Top(Some(**fun))));
        assert forall|j: int| 0 <= j < ext.len() implies entry_ok(#[trigger] ext[j], ext.len() - 1 - j, c2) by {
            if j < params.len() {
                assert(ext[j] == params[j]);
                if status is Some {
                    assert(entry_ok(params[j], params.len() - j, c + k));
                }
            }
        }
        lemma_ctx_ok_extend(rcon.flat(), ext, c, c2);
        assert(extended_rcon.flat() == rcon.flat() + ext);
    }
    check_expr(&fun.return_val, &extended_rcon, Ghost(c2))
}

fn get_fun_rcon_extension<A: AstFamily>(
    fun: &Rc<Fun<A>>,
    app_arg_status: Option<Vec<UnshiftedEntry<A>>>,
) -> (res: Result<Vec<UnshiftedEntry<A>>, TypeError<A>>)
    ensures
        match res {
            Ok(v) => {
                &&& !(fun.decreasing_index matches Some(di) && di >= fun.param_types@.len())
                &&& entries_view(v@) == (match arg_status_view(app_arg_status) {
                    Some(s) => s,
                    None => tops::<A>(fun.param_types@.len()),
                }).push(EntryView::Top(Some(**fun)))
            },
            Err(err) => {
                &&& fun.decreasing_index matches Some(di) && di >= fun.param_types@.len()
                &&& err == TypeError::DecreasingArgIndexTooBig { fun: **fun }
            },
        },
{
    match assert_decreasing_index_is_valid(fun) {
        Err(err) => {
            return Err(err);
        },
        Ok(()) => {},
    }
    let fun_entry = UnshiftedEntry(Entry::Top(Some(rc_clone(fun))));
    let mut out = get_fun_param_entries(fun, app_arg_status);
    let ghost before = out@;
    out.push(fun_entry);
    proof {
        assert(out@ == before.push(UnshiftedEntry(Entry::Top(Some(*fun)))));
        assert(entries_view(out@) =~= entries_view(before).push(EntryView::Top(Some(**fun))));
    }
    Ok(out)
}

fn assert_decreasing_index_is_valid<A: AstFamily>(fun: &Fun<A>) -> (res: Result<(), TypeError<A>>)
    ensures
        match res {
            Ok(_) => !(fun.decreasing_index matches Some(di) && di >= fun.param_types@.len()),
            Err(err) => {
                &&& fun.decreasing_index matches Some(di) && di >= fun.param_types@.len()
                &&& err == TypeError::DecreasingArgIndexTooBig { fun: *fun }
            },
        },
{
    match fun.decreasing_index {
        Some(decreasing_arg_index) => {
            if decreasing_arg_index >= fun.param_types.len() {
                return Err(TypeError::DecreasingArgIndexTooBig { fun: fun.copy() });
            }
            Ok(())
        },
        None => Ok(()),
    }
}

fn get_fun_param_entries<A: AstFamily>(
    fun: &Fun<A>,
    app_arg_status: Option<Vec<UnshiftedEntry<A>>>,
) -> (res: Vec<UnshiftedEntry<A>>)
    ensures
        entries_view(res@) == match arg_status_view(app_arg_status) {
            Some(s) => s,
            None => tops::<A>(fun.param_types@.len()),
        },
{
    match app_arg_status {
        Some(status) => status,
        None => tops_vec(fun.param_types.len()),
    }
}

fn check_app_callee_exec<A: AstFamily>(
    app: &App<A>,
    rcon: &RecursionCheckingContext<A>,
    Ghost(c): Ghost<int>,
) -> (res: Result<(), TypeError<A>>)
    requires
        ctx_ok(rcon.flat(), c),
        c + expr_size(Expr::App(Rc::new(*app))) <= usize::MAX,
    ensures
        res == check_app_callee(*app, rcon.flat()),
    decreases *app,
{
    proof {
        lemma_exprs_size(app.args@);
    }
    match &app.callee {
        Expr::Deb(callee) => check_app_callee_deb_exec(app, callee, rcon, Ghost(c)),
        Expr::Fun(callee) => {
            let arg_status = get_app_callee_fun_arg_status(app, callee, rcon, Ghost(c));
            proof {
                assert(decreases_to!(*app => app.callee));
                assert(expr_size(app.callee) == 1 + fun_size(**callee));
            }
            check_fun_exec(callee, Some(arg_status), rcon, Ghost(c), Ghost(exprs_size(app.args@) as int))
        },
        _ => check_expr(&app.callee, rcon, Ghost(c)),
    }
}

fn check_app_callee_deb_exec<A: AstFamily>(
    app: &App<A>,
    callee: &DebNode<A>,
    rcon: &RecursionCheckingContext<A>,
    Ghost(c): Ghost<int>,
) -> (res: Result<(), TypeError<A>>)
    requires
        ctx_ok(rcon.flat(), c),
        c + exprs_size(app.args@) <= usize::MAX,
    ensures
        res == check_app_callee_deb(*app, *callee, rcon.flat()),
{
    proof {
        lemma_exprs_size(app.args@);
    }
    match rcon.get_call_requirement(callee.deb, Ghost(c)) {
        Some(CallRequirement::Recursive { arg_index, strict_superstruct, definition_src }) => {
            assert_arg_satisfies_recursive_call_requirement(
                app,
                arg_index,
                strict_superstruct,
                definition_src,
                rcon,
                Ghost(c),
            )
        },
        Some(CallRequirement::AccessForbidden(definition_src)) => Err(
            TypeError::DeclaredFunNonrecursiveButUsedRecursiveFunParam { deb: callee.copy(), definition_src },
        ),
        None => check_deb_exec(callee, rcon, Ghost(c)),
    }
}

fn assert_arg_satisfies_recursive_call_requirement<A: AstFamily>(
    app: &App<A>,
    arg_index: usize,
    strict_superstruct: Deb,
    definition_src: Fun<A>,
    rcon: &RecursionCheckingContext<A>,
    Ghost(c): Ghost<int>,
) -> (res: Result<(), TypeError<A>>)
    requires
        ctx_ok(rcon.flat(), c),
        c + exprs_size(app.args@) <= usize::MAX,
    ensures
        res == (if arg_index >= app.args@.len() {
            Ok(())
        } else if !is_strict_substruct(app.args@[arg_index as int], strict_superstruct, rcon.flat()) {
            Err(
                TypeError::IllegalRecursiveCall {
                    app: *app,
                    callee_deb_definition_src: definition_src,
                    required_decreasing_arg_index: arg_index,
                    required_strict_superstruct: strict_superstruct,
                },
            )
        } else {
            Ok(())
        }),
{
    if arg_index >= app.args.len() {
        // A decreasing index or argument count that is out of range is a type error
        // that the rest of typechecking reports.
        return Ok(());
    }
    proof {
        lemma_exprs_size(app.args@);
    }
    let arg = &app.args[arg_index];
    if !is_strict_substruct_exec(arg, strict_superstruct, rcon, Ghost(c)) {
        return Err(
            TypeError::IllegalRecursiveCall {
                app: app.copy(),
                callee_deb_definition_src: definition_src,
                required_decreasing_arg_index: arg_index,
                required_strict_superstruct: strict_superstruct,
            },
        );
    }
    Ok(())
}

fn get_app_callee_fun_arg_status<A: AstFamily>(
    app: &App<A>,
    callee: &Fun<A>,
    rcon: &RecursionCheckingContext<A>,
    Ghost(c): Ghost<int>,
) -> (res: Vec<UnshiftedEntry<A>>)
    requires
        ctx_ok(rcon.flat(), c),
        c + exprs_size(app.args@) <= usize::MAX,
    ensures
        entries_view(res@) == app_callee_fun_arg_status(*app, *callee, rcon.flat()),
        res@.len() <= exprs_size(app.args@),
        forall|j: int|
            0 <= j < res@.len() ==> entry_ok(
                #[trigger] entries_view(res@)[j],
                res@.len() - j,
                c + exprs_size(app.args@),
            ),
{
    match callee.decreasing_index {
        None => get_app_callee_nonrecursive_fun_arg_status(app, rcon, Ghost(c)),
        Some(decreasing_index) => get_app_callee_recursive_fun_arg_status(app, decreasing_index, rcon, Ghost(c)),
    }
}

fn get_app_callee_nonrecursive_fun_arg_status<A: AstFamily>(
    app: &App<A>,
    rcon: &RecursionCheckingContext<A>,
    Ghost(c): Ghost<int>,
) -> (res: Vec<UnshiftedEntry<A>>)
    requires
        ctx_ok(rcon.flat(), c),
        c + exprs_size(app.args@) <= usize::MAX,
    ensures
        entries_view(res@) == Seq::new(
            app.args@.len(),
            |i: int| nonrecursive_arg_status::<A>(size_bound(app.args@[i], rcon.flat()), i),
        ),
        res@.len() <= exprs_size(app.args@),
        forall|j: int|
            0 <= j < res@.len() ==> entry_ok(
                #[trigger] entries_view(res@)[j],
                res@.len() - j,
                c + exprs_size(app.args@),
            ),
{
    let ghost args = app.args@;
    let ghost k = exprs_size(args);
    proof {
        lemma_exprs_size(args);
    }
    let n = app.args.len();
    let mut out: Vec<UnshiftedEntry<A>> = Vec::new();
    let mut arg_index: usize = 0;
    while arg_index < n
        invariant
            arg_index <= n,
            n == args.len(),
            args == app.args@,
            k == exprs_size(args),
            ctx_ok(rcon.flat(), c),
            c + k <= usize::MAX,
            forall|j: int| 0 <= j < args.len() ==> expr_size(#[trigger] args[j]) + args.len() <= k,
            out@.len() == arg_index,
            forall|j: int|
                0 <= j < arg_index ==> (#[trigger] out@[j]).0.view() == nonrecursive_arg_status::<A>(
                    size_bound(args[j], rcon.flat()),
                    j,
                ) && entry_ok(out@[j].0.view(), n - j, c + k),
        decreases n - arg_index,
    {
        let bound = get_size_bound(&app.args[arg_index], rcon, Ghost(c));
        let entry = match bound {
            None => UnshiftedEntry(Entry::Top(None)),
            Some(SizeBound::CaselessMatch) => UnshiftedEntry(Entry::Substruct(SizeBound::CaselessMatch, Strict(true))),
            Some(SizeBound::Deb(superstruct)) => UnshiftedEntry(
                Entry::Substruct(SizeBound::Deb(Deb(superstruct.0 + arg_index)), Strict(false)),
            ),
        };
        out.push(entry);
        arg_index += 1;
    }
    let ghost spec_status = Seq::new(
        args.len(),
        |i: int| nonrecursive_arg_status::<A>(size_bound(args[i], rcon.flat()), i),
    );
    assert(entries_view(out@) =~= spec_status);
    out
}

fn get_app_callee_recursive_fun_arg_status<A: AstFamily>(
    app: &App<A>,
    decreasing_index: usize,
    rcon: &RecursionCheckingContext<A>,
    Ghost(c): Ghost<int>,
) -> (res: Vec<UnshiftedEntry<A>>)
    requires
        ctx_ok(rcon.flat(), c),
        c + exprs_size(app.args@) <= usize::MAX,
    ensures
        entries_view(res@) == Seq::new(
            app.args@.len(),
            |i: int| recursive_arg_status::<A>(size_bound(app.args@[i], rcon.flat()), i, decreasing_index),
        ),
        res@.len() <= exprs_size(app.args@),
        forall|j: int|
            0 <= j < res@.len() ==> entry_ok(
                #[trigger] entries_view(res@)[j],
                res@.len() - j,
                c + exprs_size(app.args@),
            ),
{
    let ghost args = app.args@;
    let ghost k = exprs_size(args);
    proof {
        lemma_exprs_size(args);
    }
    let n = app.args.len();
    let mut out: Vec<UnshiftedEntry<A>> = Vec::new();
    let mut arg_index: usize = 0;
    while arg_index < n
        invariant
            arg_index <= n,
            n == args.len(),
            args == app.args@,
            k == exprs_size(args),
            ctx_ok(rcon.flat(), c),
            c + k <= usize::MAX,
            forall|j: int| 0 <= j < args.len() ==> expr_size(#[trigger] args[j]) + args.len() <= k,
            out@.len() == arg_index,
            forall|j: int|
                0 <= j < arg_index ==> (#[trigger] out@[j]).0.view() == recursive_arg_status::<A>(
                    size_bound(args[j], rcon.flat()),
                    j,
                    decreasing_index,
                ) && entry_ok(out@[j].0.view(), n - j, c + k),
        decreases n - arg_index,
    {
        let mut entry = UnshiftedEntry(Entry::Top(None));
        if arg_index == decreasing_index {
            let bound = get_size_bound(&app.args[arg_index], rcon, Ghost(c));
            if let Some(bound) = bound {
                let bound = bound.upshift(arg_index);
                entry = UnshiftedEntry(Entry::Substruct(bound, Strict(false)));
            }
        }
        out.push(entry);
        arg_index += 1;
    }
    let ghost spec_status = Seq::new(
        args.len(),
        |i: int| recursive_arg_status::<A>(size_bound(args[i], rcon.flat()), i, decreasing_index),
    );
    assert(entries_view(out@) =~= spec_status);
    out
}

} // verus!
