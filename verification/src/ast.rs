//! The abstract syntax tree of Zo, generic over an "AST family" that
//! decides which auxiliary data (such as source spans) each node carries.
//!
//! Children are shared through `Rc`, so cloning a node is cheap.

use vstd::prelude::*;
use std::rc::Rc;

verus! {

/// Auxiliary data that a node carries (for example, its source span).
pub trait AuxData: Sized {
    /// An exact copy.
    fn duplicate(&self) -> (res: Self)
        ensures
            res == *self,
    ;
}

impl AuxData for () {
    fn duplicate(&self) -> (res: Self) {
        ()
    }
}

/// An AST family fixes the type of auxiliary data carried by every kind of node.
pub trait AstFamily {
    type IndAux: AuxData;
    type VconAux: AuxData;
    type MatchAux: AuxData;
    type FunAux: AuxData;
    type AppAux: AuxData;
    type ForAux: AuxData;
    type DebAux: AuxData;
    type UniverseAux: AuxData;
    type VconDefAux: AuxData;
    type MatchCaseAux: AuxData;
}

pub enum Expr<A: AstFamily> {
    Ind(Rc<Ind<A>>),
    Vcon(Rc<Vcon<A>>),
    Match(Rc<Match<A>>),
    Fun(Rc<Fun<A>>),
    App(Rc<App<A>>),
    For(Rc<For<A>>),
    Deb(Rc<DebNode<A>>),
    Universe(Rc<UniverseNode<A>>),
}

pub struct Ind<A: AstFamily> {
    pub name: Rc<StringValue>,
    pub universe: Universe,
    pub index_types: Rc<Vec<Expr<A>>>,
    pub vcon_defs: Rc<Vec<VconDef<A>>>,
    pub aux_data: A::IndAux,
}

pub struct StringValue(pub String);

pub struct VconDef<A: AstFamily> {
    pub param_types: Rc<Vec<Expr<A>>>,
    pub index_args: Rc<Vec<Expr<A>>>,
    pub aux_data: A::VconDefAux,
}

pub struct Vcon<A: AstFamily> {
    pub ind: Rc<Ind<A>>,
    pub vcon_index: usize,
    pub aux_data: A::VconAux,
}

pub struct Match<A: AstFamily> {
    pub matchee: Expr<A>,
    pub return_type_arity: usize,
    pub return_type: Expr<A>,
    pub cases: Rc<Vec<MatchCase<A>>>,
    pub aux_data: A::MatchAux,
}

pub struct MatchCase<A: AstFamily> {
    pub arity: usize,
    pub return_val: Expr<A>,
    pub aux_data: A::MatchCaseAux,
}

pub struct Fun<A: AstFamily> {
    pub decreasing_index: Option<usize>,
    pub param_types: Rc<Vec<Expr<A>>>,
    pub return_type: Expr<A>,
    pub return_val: Expr<A>,
    pub aux_data: A::FunAux,
}

pub struct App<A: AstFamily> {
    pub callee: Expr<A>,
    pub args: Rc<Vec<Expr<A>>>,
    pub aux_data: A::AppAux,
}

pub struct For<A: AstFamily> {
    pub param_types: Rc<Vec<Expr<A>>>,
    pub return_type: Expr<A>,
    pub aux_data: A::ForAux,
}

pub struct DebNode<A: AstFamily> {
    pub deb: Deb,
    pub aux_data: A::DebAux,
}

pub struct UniverseNode<A: AstFamily> {
    pub universe: Universe,
    pub aux_data: A::UniverseAux,
}

/// A De Bruijn index.
#[derive(Debug, Clone, Copy, PartialEq, Eq, Structural)]
pub struct Deb(pub usize);

#[derive(Debug, Clone, Copy, PartialEq, Eq, Structural)]
pub struct Universe {
    pub level: UniverseLevel,
    pub erasable: bool,
}

#[derive(Debug, Clone, Copy, PartialEq, Eq, Structural)]
pub struct UniverseLevel(pub usize);

// ---------------------------------------------------------------------------
// Mathematical model of the tree: the same shape, with sequences for lists.
// ---------------------------------------------------------------------------

pub enum ExprView<A: AstFamily> {
    Ind(IndView<A>),
    Vcon(VconView<A>),
    Match(Box<MatchView<A>>),
    Fun(Box<FunView<A>>),
    App(Box<AppView<A>>),
    For(Box<ForView<A>>),
    Deb(Deb, A::DebAux),
    Universe(Universe, A::UniverseAux),
}

pub struct IndView<A: AstFamily> {
    pub name: Seq<char>,
    pub universe: Universe,
    pub index_types: Seq<ExprView<A>>,
    pub vcon_defs: Seq<VconDefView<A>>,
    pub aux_data: A::IndAux,
}

pub struct VconDefView<A: AstFamily> {
    pub param_types: Seq<ExprView<A>>,
    pub index_args: Seq<ExprView<A>>,
    pub aux_data: A::VconDefAux,
}

pub struct VconView<A: AstFamily> {
    pub ind: IndView<A>,
    pub vcon_index: usize,
    pub aux_data: A::VconAux,
}

pub struct MatchView<A: AstFamily> {
    pub matchee: ExprView<A>,
    pub return_type_arity: usize,
    pub return_type: ExprView<A>,
    pub cases: Seq<MatchCaseView<A>>,
    pub aux_data: A::MatchAux,
}

pub struct MatchCaseView<A: AstFamily> {
    pub arity: usize,
    pub return_val: ExprView<A>,
    pub aux_data: A::MatchCaseAux,
}

pub struct FunView<A: AstFamily> {
    pub decreasing_index: Option<usize>,
    pub param_types: Seq<ExprView<A>>,
    pub return_type: ExprView<A>,
    pub return_val: ExprView<A>,
    pub aux_data: A::FunAux,
}

pub struct AppView<A: AstFamily> {
    pub callee: ExprView<A>,
    pub args: Seq<ExprView<A>>,
    pub aux_data: A::AppAux,
}

pub struct ForView<A: AstFamily> {
    pub param_types: Seq<ExprView<A>>,
    pub return_type: ExprView<A>,
    pub aux_data: A::ForAux,
}

pub open spec fn expr_view<A: AstFamily>(e: Expr<A>) -> ExprView<A>
    decreases e,
{
    match e {
        Expr::Ind(i) => ExprView::Ind(ind_view(*i)),
        Expr::Vcon(v) => ExprView::Vcon(
            VconView { ind: ind_view(*v.ind), vcon_index: v.vcon_index, aux_data: v.aux_data },
        ),
        Expr::Match(m) => ExprView::Match(
            Box::new(
                MatchView {
                    matchee: expr_view(m.matchee),
                    return_type_arity: m.return_type_arity,
                    return_type: expr_view(m.return_type),
                    cases: cases_view(m.cases@),
                    aux_data: m.aux_data,
                },
            ),
        ),
        Expr::Fun(f) => ExprView::Fun(
            Box::new(
                FunView {
                    decreasing_index: f.decreasing_index,
                    param_types: exprs_view(f.param_types@),
                    return_type: expr_view(f.return_type),
                    return_val: expr_view(f.return_val),
                    aux_data: f.aux_data,
                },
            ),
        ),
        Expr::App(a) => ExprView::App(
            Box::new(
                AppView { callee: expr_view(a.callee), args: exprs_view(a.args@), aux_data: a.aux_data },
            ),
        ),
        Expr::For(f) => ExprView::For(
            Box::new(
                ForView {
                    param_types: exprs_view(f.param_types@),
                    return_type: expr_view(f.return_type),
                    aux_data: f.aux_data,
                },
            ),
        ),
        Expr::Deb(d) => ExprView::Deb(d.deb, d.aux_data),
        Expr::Universe(u) => ExprView::Universe(u.universe, u.aux_data),
    }
}

pub open spec fn ind_view<A: AstFamily>(i: Ind<A>) -> IndView<A>
    decreases i,
{
    IndView {
        name: i.name.0@,
        universe: i.universe,
        index_types: exprs_view(i.index_types@),
        vcon_defs: vcon_defs_view(i.vcon_defs@),
        aux_data: i.aux_data,
    }
}

pub open spec fn vcon_def_view<A: AstFamily>(d: VconDef<A>) -> VconDefView<A>
    decreases d,
{
    VconDefView {
        param_types: exprs_view(d.param_types@),
        index_args: exprs_view(d.index_args@),
        aux_data: d.aux_data,
    }
}

pub open spec fn match_case_view<A: AstFamily>(c: MatchCase<A>) -> MatchCaseView<A>
    decreases c,
{
    MatchCaseView { arity: c.arity, return_val: expr_view(c.return_val), aux_data: c.aux_data }
}

pub open spec fn exprs_view<A: AstFamily>(es: Seq<Expr<A>>) -> Seq<ExprView<A>>
    decreases es,
{
    if es.len() == 0 {
        Seq::empty()
    } else {
        exprs_view(es.drop_last()).push(expr_view(es.last()))
    }
}

pub open spec fn vcon_defs_view<A: AstFamily>(ds: Seq<VconDef<A>>) -> Seq<VconDefView<A>>
    decreases ds,
{
    if ds.len() == 0 {
        Seq::empty()
    } else {
        vcon_defs_view(ds.drop_last()).push(vcon_def_view(ds.last()))
    }
}

pub open spec fn cases_view<A: AstFamily>(cs: Seq<MatchCase<A>>) -> Seq<MatchCaseView<A>>
    decreases cs,
{
    if cs.len() == 0 {
        Seq::empty()
    } else {
        cases_view(cs.drop_last()).push(match_case_view(cs.last()))
    }
}

impl<A: AstFamily> View for Expr<A> {
    type V = ExprView<A>;

    open spec fn view(&self) -> ExprView<A> {
        expr_view(*self)
    }
}

impl<A: AstFamily> View for Ind<A> {
    type V = IndView<A>;

    open spec fn view(&self) -> IndView<A> {
        ind_view(*self)
    }
}

impl<A: AstFamily> View for VconDef<A> {
    type V = VconDefView<A>;

    open spec fn view(&self) -> VconDefView<A> {
        vcon_def_view(*self)
    }
}

impl<A: AstFamily> View for MatchCase<A> {
    type V = MatchCaseView<A>;

    open spec fn view(&self) -> MatchCaseView<A> {
        match_case_view(*self)
    }
}

pub proof fn lemma_exprs_view<A: AstFamily>(es: Seq<Expr<A>>)
    ensures
        exprs_view(es).len() == es.len(),
        forall|i: int| 0 <= i < es.len() ==> #[trigger] exprs_view(es)[i] == expr_view(es[i]),
    decreases es.len(),
{
    if es.len() > 0 {
        lemma_exprs_view(es.drop_last());
    }
}

pub proof fn lemma_vcon_defs_view<A: AstFamily>(ds: Seq<VconDef<A>>)
    ensures
        vcon_defs_view(ds).len() == ds.len(),
        forall|i: int| 0 <= i < ds.len() ==> #[trigger] vcon_defs_view(ds)[i] == vcon_def_view(ds[i]),
    decreases ds.len(),
{
    if ds.len() > 0 {
        lemma_vcon_defs_view(ds.drop_last());
    }
}

pub proof fn lemma_cases_view<A: AstFamily>(cs: Seq<MatchCase<A>>)
    ensures
        cases_view(cs).len() == cs.len(),
        forall|i: int| 0 <= i < cs.len() ==> #[trigger] cases_view(cs)[i] == match_case_view(cs[i]),
    decreases cs.len(),
{
    if cs.len() > 0 {
        lemma_cases_view(cs.drop_last());
    }
}

// ---------------------------------------------------------------------------
// Size of a tree: the number of nodes, list slots and bound parameters.
// Everything a traversal pushes onto a context is counted, so the size
// bounds how deep contexts grow.
// ---------------------------------------------------------------------------

pub open spec fn expr_size<A: AstFamily>(e: Expr<A>) -> nat
    decreases e,
{
    match e {
        Expr::Ind(i) => 1 + ind_size(*i),
        Expr::Vcon(v) => 1 + ind_size(*v.ind),
        Expr::Match(m) => 1 + expr_size(m.matchee) + m.return_type_arity as nat + expr_size(m.return_type)
            + cases_size(m.cases@),
        Expr::Fun(f) => 1 + fun_size(*f),
        Expr::App(a) => 1 + expr_size(a.callee) + exprs_size(a.args@),
        Expr::For(f) => 1 + exprs_size(f.param_types@) + expr_size(f.return_type),
        Expr::Deb(_) => 1,
        Expr::Universe(_) => 1,
    }
}

pub open spec fn ind_size<A: AstFamily>(i: Ind<A>) -> nat
    decreases i,
{
    1 + exprs_size(i.index_types@) + vcon_defs_size(i.vcon_defs@)
}

pub open spec fn vcon_def_size<A: AstFamily>(d: VconDef<A>) -> nat
    decreases d,
{
    1 + exprs_size(d.param_types@) + exprs_size(d.index_args@)
}

pub open spec fn case_size<A: AstFamily>(c: MatchCase<A>) -> nat
    decreases c,
{
    1 + c.arity as nat + expr_size(c.return_val)
}

pub open spec fn fun_size<A: AstFamily>(f: Fun<A>) -> nat
    decreases f,
{
    1 + exprs_size(f.param_types@) + expr_size(f.return_type) + expr_size(f.return_val)
}

pub open spec fn exprs_size<A: AstFamily>(es: Seq<Expr<A>>) -> nat
    decreases es,
{
    if es.len() == 0 {
        0
    } else {
        exprs_size(es.drop_last()) + expr_size(es.last()) + 1
    }
}

pub open spec fn vcon_defs_size<A: AstFamily>(ds: Seq<VconDef<A>>) -> nat
    decreases ds,
{
    if ds.len() == 0 {
        0
    } else {
        vcon_defs_size(ds.drop_last()) + vcon_def_size(ds.last()) + 1
    }
}

pub open spec fn cases_size<A: AstFamily>(cs: Seq<MatchCase<A>>) -> nat
    decreases cs,
{
    if cs.len() == 0 {
        0
    } else {
        cases_size(cs.drop_last()) + case_size(cs.last()) + 1
    }
}

/// Each item of a list, plus one slot per item, fits in the size of the list.
pub proof fn lemma_exprs_size<A: AstFamily>(es: Seq<Expr<A>>)
    ensures
        exprs_size(es) >= 2 * es.len(),
        forall|i: int| 0 <= i < es.len() ==> expr_size(#[trigger] es[i]) + es.len() <= exprs_size(es),
    decreases es.len(),
{
    if es.len() > 0 {
        let dl = es.drop_last();
        lemma_exprs_size(dl);
        assert(expr_size(es.last()) >= 1);
        assert forall|i: int| 0 <= i < es.len() implies expr_size(#[trigger] es[i]) + es.len() <= exprs_size(es) by {
            if i < dl.len() {
                assert(dl[i] == es[i]);
                assert(expr_size(dl[i]) + dl.len() <= exprs_size(dl));
            }
        }
    }
}

pub proof fn lemma_vcon_defs_size<A: AstFamily>(ds: Seq<VconDef<A>>)
    ensures
        forall|i: int| 0 <= i < ds.len() ==> vcon_def_size(#[trigger] ds[i]) < vcon_defs_size(ds),
    decreases ds.len(),
{
    if ds.len() > 0 {
        let dl = ds.drop_last();
        lemma_vcon_defs_size(dl);
        assert forall|i: int| 0 <= i < ds.len() implies vcon_def_size(#[trigger] ds[i]) < vcon_defs_size(ds) by {
            if i < dl.len() {
                assert(dl[i] == ds[i]);
            }
        }
    }
}

pub proof fn lemma_cases_size<A: AstFamily>(cs: Seq<MatchCase<A>>)
    ensures
        forall|i: int| 0 <= i < cs.len() ==> case_size(#[trigger] cs[i]) < cases_size(cs),
    decreases cs.len(),
{
    if cs.len() > 0 {
        let dl = cs.drop_last();
        lemma_cases_size(dl);
        assert forall|i: int| 0 <= i < cs.len() implies case_size(#[trigger] cs[i]) < cases_size(cs) by {
            if i < dl.len() {
                assert(dl[i] == cs[i]);
            }
        }
    }
}

/// `Rc::clone`: makes another pointer to the same allocation.
/// The contract claims that the new pointer denotes the same value.
#[verifier::external_body]
pub(crate) fn rc_clone<T>(r: &Rc<T>) -> (res: Rc<T>)
    ensures
        res == *r,
{
    Rc::clone(r)
}

/// Wraps a value in a fresh reference-counted allocation.
pub fn rc_hashed<T>(t: T) -> (res: Rc<T>)
    ensures
        *res == t,
{
    Rc::new(t)
}

impl<A: AstFamily> Expr<A> {
    /// A cheap copy: only the top-level pointer is duplicated.
    pub fn copy(&self) -> (res: Self)
        ensures
            res == *self,
    {
        match self {
            Expr::Ind(e) => Expr::Ind(rc_clone(e)),
            Expr::Vcon(e) => Expr::Vcon(rc_clone(e)),
            Expr::Match(e) => Expr::Match(rc_clone(e)),
            Expr::Fun(e) => Expr::Fun(rc_clone(e)),
            Expr::App(e) => Expr::App(rc_clone(e)),
            Expr::For(e) => Expr::For(rc_clone(e)),
            Expr::Deb(e) => Expr::Deb(rc_clone(e)),
            Expr::Universe(e) => Expr::Universe(rc_clone(e)),
        }
    }

    pub fn try_into_ind(self) -> (res: Result<Rc<Ind<A>>, Self>)
        ensures
            match self {
                Expr::Ind(e) => res == Ok::<Rc<Ind<A>>, Self>(e),
                _ => res == Err::<Rc<Ind<A>>, Self>(self),
            },
    {
        match self {
            Expr::Ind(e) => Ok(e),
            _ => Err(self),
        }
    }

    pub fn try_into_vcon(self) -> (res: Result<Rc<Vcon<A>>, Self>)
        ensures
            match self {
                Expr::Vcon(e) => res == Ok::<Rc<Vcon<A>>, Self>(e),
                _ => res == Err::<Rc<Vcon<A>>, Self>(self),
            },
    {
        match self {
            Expr::Vcon(e) => Ok(e),
            _ => Err(self),
        }
    }

    pub fn try_into_match(self) -> (res: Result<Rc<Match<A>>, Self>)
        ensures
            match self {
                Expr::Match(e) => res == Ok::<Rc<Match<A>>, Self>(e),
                _ => res == Err::<Rc<Match<A>>, Self>(self),
            },
    {
        match self {
            Expr::Match(e) => Ok(e),
            _ => Err(self),
        }
    }

    pub fn try_into_fun(self) -> (res: Result<Rc<Fun<A>>, Self>)
        ensures
            match self {
                Expr::Fun(e) => res == Ok::<Rc<Fun<A>>, Self>(e),
                _ => res == Err::<Rc<Fun<A>>, Self>(self),
            },
    {
        match self {
            Expr::Fun(e) => Ok(e),
            _ => Err(self),
        }
    }

    pub fn try_into_app(self) -> (res: Result<Rc<App<A>>, Self>)
        ensures
            match self {
                Expr::App(e) => res == Ok::<Rc<App<A>>, Self>(e),
                _ => res == Err::<Rc<App<A>>, Self>(self),
            },
    {
        match self {
            Expr::App(e) => Ok(e),
            _ => Err(self),
        }
    }

    pub fn try_into_for(self) -> (res: Result<Rc<For<A>>, Self>)
        ensures
            match self {
                Expr::For(e) => res == Ok::<Rc<For<A>>, Self>(e),
                _ => res == Err::<Rc<For<A>>, Self>(self),
            },
    {
        match self {
            Expr::For(e) => Ok(e),
            _ => Err(self),
        }
    }

    pub fn try_into_deb(self) -> (res: Result<Rc<DebNode<A>>, Self>)
        ensures
            match self {
                Expr::Deb(e) => res == Ok::<Rc<DebNode<A>>, Self>(e),
                _ => res == Err::<Rc<DebNode<A>>, Self>(self),
            },
    {
        match self {
            Expr::Deb(e) => Ok(e),
            _ => Err(self),
        }
    }

    pub fn try_into_universe(self) -> (res: Result<Rc<UniverseNode<A>>, Self>)
        ensures
            match self {
                Expr::Universe(e) => res == Ok::<Rc<UniverseNode<A>>, Self>(e),
                _ => res == Err::<Rc<UniverseNode<A>>, Self>(self),
            },
    {
        match self {
            Expr::Universe(e) => Ok(e),
            _ => Err(self),
        }
    }
}

impl<A: AstFamily> Ind<A> {
    pub fn copy(&self) -> (res: Self)
        ensures
            res == *self,
    {
        Ind {
            name: rc_clone(&self.name),
            universe: self.universe,
            index_types: rc_clone(&self.index_types),
            vcon_defs: rc_clone(&self.vcon_defs),
            aux_data: self.aux_data.duplicate(),
        }
    }
}

impl<A: AstFamily> VconDef<A> {
    pub fn copy(&self) -> (res: Self)
        ensures
            res == *self,
    {
        VconDef {
            param_types: rc_clone(&self.param_types),
            index_args: rc_clone(&self.index_args),
            aux_data: self.aux_data.duplicate(),
        }
    }
}

impl<A: AstFamily> Vcon<A> {
    pub fn copy(&self) -> (res: Self)
        ensures
            res == *self,
    {
        Vcon { ind: rc_clone(&self.ind), vcon_index: self.vcon_index, aux_data: self.aux_data.duplicate() }
    }
}

impl<A: AstFamily> Match<A> {
    pub fn copy(&self) -> (res: Self)
        ensures
            res == *self,
    {
        Match {
            matchee: self.matchee.copy(),
            return_type_arity: self.return_type_arity,
            return_type: self.return_type.copy(),
            cases: rc_clone(&self.cases),
            aux_data: self.aux_data.duplicate(),
        }
    }
}

impl<A: AstFamily> MatchCase<A> {
    pub fn copy(&self) -> (res: Self)
        ensures
            res == *self,
    {
        MatchCase { arity: self.arity, return_val: self.return_val.copy(), aux_data: self.aux_data.duplicate() }
    }
}

impl<A: AstFamily> Fun<A> {
    pub fn copy(&self) -> (res: Self)
        ensures
            res == *self,
    {
        Fun {
            decreasing_index: self.decreasing_index,
            param_types: rc_clone(&self.param_types),
            return_type: self.return_type.copy(),
            return_val: self.return_val.copy(),
            aux_data: self.aux_data.duplicate(),
        }
    }
}

impl<A: AstFamily> App<A> {
    pub fn copy(&self) -> (res: Self)
        ensures
            res == *self,
    {
        App { callee: self.callee.copy(), args: rc_clone(&self.args), aux_data: self.aux_data.duplicate() }
    }
}

impl<A: AstFamily> For<A> {
    pub fn copy(&self) -> (res: Self)
        ensures
            res == *self,
    {
        For {
            param_types: rc_clone(&self.param_types),
            return_type: self.return_type.copy(),
            aux_data: self.aux_data.duplicate(),
        }
    }
}

impl<A: AstFamily> DebNode<A> {
    pub fn copy(&self) -> (res: Self)
        ensures
            res == *self,
    {
        DebNode { deb: self.deb, aux_data: self.aux_data.duplicate() }
    }
}

impl<A: AstFamily> UniverseNode<A> {
    pub fn copy(&self) -> (res: Self)
        ensures
            res == *self,
    {
        UniverseNode { universe: self.universe, aux_data: self.aux_data.duplicate() }
    }
}

impl<A: AstFamily> App<A> {
    /// An application without arguments is just its callee.
    pub fn collapse_if_nullary(self) -> (res: Expr<A>)
        ensures
            self.args@.len() == 0 ==> res == self.callee,
            self.args@.len() != 0 ==> res == Expr::App(Rc::new(self)),
    {
        if self.args.len() == 0 {
            self.callee
        } else {
            Expr::App(Rc::new(self))
        }
    }
}

impl<A: AstFamily> For<A> {
    /// A `for` without parameters is just its return type.
    pub fn collapse_if_nullary(self) -> (res: Expr<A>)
        ensures
            self.param_types@.len() == 0 ==> res == self.return_type,
            self.param_types@.len() != 0 ==> res == Expr::For(Rc::new(self)),
    {
        if self.param_types.len() == 0 {
            self.return_type
        } else {
            Expr::For(Rc::new(self))
        }
    }
}

} // verus!
