//! The typechecker: its state, its shape checks, and the parts of its typing rules that need no evaluation.

use vstd::prelude::*;
use std::rc::Rc;
use crate::ast::{
    expr_size, exprs_view, lemma_exprs_view, rc_clone, vcon_defs_view, lemma_vcon_defs_view, App, AppView,
    AstFamily, Expr, ExprView, For, ForView, Fun, Ind, IndView, Match, Universe, UniverseLevel, UniverseNode, Vcon,
    VconDef,
};
use crate::replace_debs::{
    lemma_replace_exprs, replace, replace_exprs, replace_exprs_ok, replace_ok, DebDownshiftSubstituter, DebReplacement, DebUpshifter,
};
use crate::replace_debs_laws::law_substitution_undoes_upshift;
use crate::check_fun_recursion::{check, check_recursion_in_context, ctx_ok, RecursionCheckingContext};
use crate::minimal_ast::MinimalAst;
use crate::remove_aux_data::AuxDataRemover;
use crate::type_error::{NormalForm, TypeError};

verus! {

pub struct TypeChecker {
    pub aux_remover: AuxDataRemover,
}

impl TypeChecker {
    pub fn new() -> (res: Self)
        ensures
            res == (TypeChecker { aux_remover: AuxDataRemover }),
    {
        TypeChecker { aux_remover: AuxDataRemover::new() }
    }

    /// Checks that every recursive `fun` in `expr` calls itself only on a strict
    /// substructure of its decreasing parameter, and that no `nonrec` fun refers to itself.
    /// `rcon` describes the debs that are free in `expr`; it is usually empty.
    pub fn check_recursion<A: AstFamily>(
        &mut self,
        expr: &Expr<A>,
        rcon: &RecursionCheckingContext<A>,
    ) -> (res: Result<(), TypeError<A>>)
        requires
            expr_size(*expr) <= usize::MAX,
            ctx_ok(rcon.flat(), usize::MAX - expr_size(*expr)),
        ensures
            *final(self) == *old(self),
            res == check(*expr, rcon.flat()),
    {
        check_recursion_in_context(expr, rcon)
    }
}

impl TypeChecker {
    /// The type of a universe is the next universe, which is erasable.
    pub fn get_type_of_universe<A: AstFamily>(&mut self, universe_node: Rc<UniverseNode<A>>) -> (res: Result<NormalForm, TypeError<A>>)
        requires
            universe_node.universe.level.0 < usize::MAX,
        ensures
            *final(self) == *old(self),
            res matches Ok(Expr::Universe(u)) && u.universe == (Universe {
                level: UniverseLevel((universe_node.universe.level.0 + 1) as usize),
                erasable: true,
            }),
    {
        Ok(
            Expr::Universe(
                Rc::new(
                    UniverseNode {
                        universe: Universe { level: UniverseLevel(universe_node.universe.level.0 + 1), erasable: true },
                        aux_data: (),
                    },
                ),
            ),
        )
    }

    pub fn assert_fun_has_at_least_one_param<A: AstFamily>(&self, fun: Rc<Fun<A>>) -> (res: Result<(), TypeError<A>>)
        ensures
            fun.param_types@.len() == 0 ==> res == Err::<(), TypeError<A>>(TypeError::FunHasZeroParams { fun: *fun }),
            fun.param_types@.len() != 0 ==> res is Ok,
    {
        if fun.param_types.len() == 0 {
            return Err(TypeError::FunHasZeroParams { fun: fun.copy() });
        }
        Ok(())
    }

    pub fn assert_app_has_at_least_one_arg<A: AstFamily>(&mut self, app: Rc<App<A>>) -> (res: Result<(), TypeError<A>>)
        ensures
            *final(self) == *old(self),
            app.args@.len() == 0 ==> res == Err::<(), TypeError<A>>(TypeError::AppHasZeroArgs { app: *app }),
            app.args@.len() != 0 ==> res is Ok,
    {
        if app.args.len() == 0 {
            return Err(TypeError::AppHasZeroArgs { app: app.copy() });
        }
        Ok(())
    }

    pub fn assert_for_has_at_least_one_param<A: AstFamily>(&mut self, for_: Rc<For<A>>) -> (res: Result<(), TypeError<A>>)
        ensures
            *final(self) == *old(self),
            for_.param_types@.len() == 0 ==> res == Err::<(), TypeError<A>>(TypeError::ForHasZeroParams { for_: *for_ }),
            for_.param_types@.len() != 0 ==> res is Ok,
    {
        if for_.param_types.len() == 0 {
            return Err(TypeError::ForHasZeroParams { for_: for_.copy() });
        }
        Ok(())
    }

    pub fn assert_vcon_index_is_valid<A: AstFamily>(&mut self, vcon: Rc<Vcon<A>>) -> (res: Result<(), TypeError<A>>)
        ensures
            *final(self) == *old(self),
            vcon.vcon_index >= vcon.ind.vcon_defs@.len() ==> res == Err::<(), TypeError<A>>(TypeError::InvalidVconIndex(*vcon)),
            vcon.vcon_index < vcon.ind.vcon_defs@.len() ==> res is Ok,
    {
        if vcon.vcon_index >= vcon.ind.vcon_defs.len() {
            return Err(TypeError::InvalidVconIndex(vcon.copy()));
        }
        Ok(())
    }

    pub fn assert_index_arg_count_is_correct<A: AstFamily>(
        &mut self,
        def: &VconDef<A>,
        expected_index_arg_count: usize,
    ) -> (res: Result<(), TypeError<A>>)
        ensures
            *final(self) == *old(self),
            def.index_args@.len() != expected_index_arg_count ==> res == Err::<(), TypeError<A>>(
                TypeError::WrongNumberOfIndexArguments {
                    def: *def,
                    expected: expected_index_arg_count,
                    actual: def.index_args@.len() as usize,
                },
            ),
            def.index_args@.len() == expected_index_arg_count ==> res is Ok,
    {
        let actual_index_arg_count = def.index_args.len();
        if expected_index_arg_count != actual_index_arg_count {
            return Err(
                TypeError::WrongNumberOfIndexArguments {
                    def: def.copy(),
                    expected: expected_index_arg_count,
                    actual: actual_index_arg_count,
                },
            );
        }
        Ok(())
    }

    pub fn assert_callee_type_is_a_for_expression<A: AstFamily>(
        &mut self,
        callee_type: NormalForm,
        app: Rc<App<A>>,
    ) -> (res: Result<Rc<For<MinimalAst>>, TypeError<A>>)
        ensures
            *final(self) == *old(self),
            match callee_type {
                Expr::For(f) => res == Ok::<Rc<For<MinimalAst>>, TypeError<A>>(f),
                _ => res == Err::<Rc<For<MinimalAst>>, TypeError<A>>(
                    TypeError::CalleeTypeIsNotAForExpression { app: *app, callee_type },
                ),
            },
    {
        match callee_type {
            Expr::For(f) => Ok(f),
            _ => Err(TypeError::CalleeTypeIsNotAForExpression { app: app.copy(), callee_type }),
        }
    }

    pub fn assert_arg_count_is_correct<A: AstFamily>(
        &mut self,
        app: Rc<App<A>>,
        callee_type: Rc<For<MinimalAst>>,
    ) -> (res: Result<(), TypeError<A>>)
        ensures
            *final(self) == *old(self),
            app.args@.len() != callee_type.param_types@.len() ==> res == Err::<(), TypeError<A>>(
                TypeError::WrongNumberOfAppArguments {
                    app: *app,
                    callee_type: *callee_type,
                    expected: callee_type.param_types@.len() as usize,
                    actual: app.args@.len() as usize,
                },
            ),
            app.args@.len() == callee_type.param_types@.len() ==> res is Ok,
    {
        let arg_count = app.args.len();
        let param_count = callee_type.param_types.len();
        if arg_count != param_count {
            return Err(
                TypeError::WrongNumberOfAppArguments {
                    app: app.copy(),
                    callee_type: callee_type.copy(),
                    expected: param_count,
                    actual: arg_count,
                },
            );
        }
        Ok(())
    }

    pub fn assert_number_of_match_cases_is_correct<A: AstFamily>(
        &mut self,
        match_: Rc<Match<A>>,
        matchee_type_ind: Rc<Ind<MinimalAst>>,
    ) -> (res: Result<(), TypeError<A>>)
        ensures
            *final(self) == *old(self),
            matchee_type_ind.vcon_defs@.len() != match_.cases@.len() ==> res == Err::<(), TypeError<A>>(
                TypeError::WrongNumberOfMatchCases { match_: *match_, matchee_type_ind: *matchee_type_ind },
            ),
            matchee_type_ind.vcon_defs@.len() == match_.cases@.len() ==> res is Ok,
    {
        let expected = matchee_type_ind.vcon_defs.len();
        let actual = match_.cases.len();
        if expected != actual {
            return Err(
                TypeError::WrongNumberOfMatchCases { match_: match_.copy(), matchee_type_ind: matchee_type_ind.copy() },
            );
        }
        Ok(())
    }

    /// The return type of a match binds the matchee type's arguments and the matchee.
    pub fn assert_stated_return_type_arity_is_correct<A: AstFamily>(
        &mut self,
        match_: Rc<Match<A>>,
        matchee_type_args: Vec<NormalForm>,
    ) -> (res: Result<(), TypeError<A>>)
        ensures
            *final(self) == *old(self),
            match_.return_type_arity != 1 + matchee_type_args@.len() ==> res == Err::<(), TypeError<A>>(
                TypeError::WrongMatchReturnTypeArity { match_: *match_, matchee_type_args },
            ),
            match_.return_type_arity == 1 + matchee_type_args@.len() ==> res is Ok,
    {
        if match_.return_type_arity == 0 || match_.return_type_arity - 1 != matchee_type_args.len() {
            return Err(TypeError::WrongMatchReturnTypeArity { match_: match_.copy(), matchee_type_args });
        }
        Ok(())
    }

    pub fn assert_stated_case_arity_is_correct<A: AstFamily>(
        &mut self,
        stated_arity: usize,
        expected_arity: usize,
        match_case_index: usize,
        match_: Rc<Match<A>>,
    ) -> (res: Result<(), TypeError<A>>)
        ensures
            *final(self) == *old(self),
            stated_arity != expected_arity ==> res == Err::<(), TypeError<A>>(
                TypeError::WrongMatchCaseArity {
                    stated_arity,
                    expected: expected_arity,
                    match_: *match_,
                    match_case_index,
                },
            ),
            stated_arity == expected_arity ==> res is Ok,
    {
        if stated_arity != expected_arity {
            return Err(
                TypeError::WrongMatchCaseArity {
                    stated_arity,
                    expected: expected_arity,
                    match_: match_.copy(),
                    match_case_index,
                },
            );
        }
        Ok(())
    }

    /// Each of `types` (the types of `exprs`) must be a universe.
    pub fn assert_every_type_is_universe<A: AstFamily>(
        &mut self,
        types: &[NormalForm],
        exprs: &[Expr<A>],
    ) -> (res: Result<(), TypeError<A>>)
        requires
            types@.len() <= exprs@.len(),
        ensures
            *final(self) == *old(self),
            match first_non_universe(types@, 0) {
                None => res is Ok,
                Some(i) => res == Err::<(), TypeError<A>>(
                    TypeError::UnexpectedNonTypeExpression { expr: exprs@[i], type_: types@[i] },
                ),
            },
    {
        let mut i: usize = 0;
        while i < types.len()
            invariant
                i <= types@.len(),
                types@.len() <= exprs@.len(),
                first_non_universe(types@, 0) == first_non_universe(types@, i as int),
            decreases types@.len() - i,
        {
            if !types[i].is_universe() {
                return Err(TypeError::UnexpectedNonTypeExpression { expr: exprs[i].copy(), type_: types[i].copy() });
            }
            i += 1;
        }
        Ok(())
    }
}

impl TypeChecker {
    /// The typing rule of a `for` expression once its parts have been typed:
    /// `param_type_types` are the types of its parameter types, and `return_type_type`
    /// is the type of its return type under the context extended by the parameters.
    /// A `for` needs at least one parameter, every parameter type and the return type
    /// must be types, and then the `for` lives in the universe of the highest level
    /// among them, erasable exactly when the return type's universe is.
    pub fn get_type_of_for_from_parts<A: AstFamily>(
        &mut self,
        for_: Rc<For<A>>,
        param_type_types: &[NormalForm],
        return_type_type: NormalForm,
    ) -> (res: Result<NormalForm, TypeError<A>>)
        requires
            param_type_types@.len() == for_.param_types@.len(),
        ensures
            *final(self) == *old(self),
            for_.param_types@.len() == 0 ==> res == Err::<NormalForm, TypeError<A>>(
                TypeError::ForHasZeroParams { for_: *for_ },
            ),
            for_.param_types@.len() != 0 ==> match first_non_universe(param_type_types@, 0) {
                Some(i) => res == Err::<NormalForm, TypeError<A>>(
                    TypeError::UnexpectedNonTypeExpression {
                        expr: for_.param_types@[i],
                        type_: param_type_types@[i],
                    },
                ),
                None => match return_type_type {
                    Expr::Universe(u) => res matches Ok(Expr::Universe(n)) && n.universe == (Universe {
                        level: match max_universe_level(param_type_types@) {
                            Some(m) => if u.universe.level.0 >= m.0 {
                                u.universe.level
                            } else {
                                m
                            },
                            None => u.universe.level,
                        },
                        erasable: u.universe.erasable,
                    }),
                    _ => res == Err::<NormalForm, TypeError<A>>(
                        TypeError::UnexpectedNonTypeExpression {
                            expr: for_.return_type,
                            type_: return_type_type,
                        },
                    ),
                },
            },
    {
        match self.assert_for_has_at_least_one_param(rc_clone(&for_)) {
            Err(e) => return Err(e),
            Ok(()) => {},
        }
        match self.assert_every_type_is_universe(param_type_types, for_.param_types.as_slice()) {
            Err(e) => return Err(e),
            Ok(()) => {},
        }
        let return_universe = match &return_type_type {
            Expr::Universe(u) => u.universe,
            _ => {
                return Err(
                    TypeError::UnexpectedNonTypeExpression { expr: for_.return_type.copy(), type_: return_type_type },
                );
            },
        };
        let max_level = return_universe.level.max_or_self(get_max_universe_level(param_type_types));
        Ok(
            Expr::Universe(
                Rc::new(
                    UniverseNode {
                        universe: Universe { level: max_level, erasable: return_universe.erasable },
                        aux_data: (),
                    },
                ),
            ),
        )
    }
}

/// Whether `t` is an erasable universe.
pub open spec fn is_erasable_universe(t: NormalForm) -> bool {
    t matches Expr::Universe(u) && u.universe.erasable
}

impl TypeChecker {
    /// The erasability rule of a well-typed inductive type `ind`, once the types of
    /// the parameter types of its first constructor are known (`first_def_param_type_types`,
    /// which are universes since `ind` is well-typed; they are not looked at unless `ind`
    /// has exactly one constructor): the type has at most one constructor, and every
    /// parameter of that constructor has an erasable type.
    pub fn does_well_typed_ind_have_at_most_one_vcon_def_where_all_params_are_erasable_from_parts<A: AstFamily>(
        &mut self,
        ind: &Ind<A>,
        first_def_param_type_types: &[NormalForm],
    ) -> (res: bool)
        requires
            ind.vcon_defs@.len() == 1 ==> forall|i: int|
                0 <= i < first_def_param_type_types@.len() ==> #[trigger] first_def_param_type_types@[i] is Universe,
        ensures
            *final(self) == *old(self),
            res == (ind.vcon_defs@.len() <= 1 && (ind.vcon_defs@.len() == 1 ==> forall|i: int|
                0 <= i < first_def_param_type_types@.len() ==> #[trigger] is_erasable_universe(
                    first_def_param_type_types@[i],
                ))),
    {
        let defs_len = ind.vcon_defs.len();
        if defs_len > 1 {
            return false;
        }
        if defs_len == 0 {
            return true;
        }
        let mut i: usize = 0;
        while i < first_def_param_type_types.len()
            invariant
                ind.vcon_defs@.len() == 1,
                i <= first_def_param_type_types@.len(),
                forall|j: int| 0 <= j < i ==> #[trigger] is_erasable_universe(first_def_param_type_types@[j]),
            decreases first_def_param_type_types@.len() - i,
        {
            match &first_def_param_type_types[i] {
                Expr::Universe(u) => {
                    if !u.universe.erasable {
                        assert(!is_erasable_universe(first_def_param_type_types@[i as int]));
                        return false;
                    }
                },
                _ => {
                    assert(!is_erasable_universe(first_def_param_type_types@[i as int]));
                    return false;
                },
            }
            i += 1;
        }
        true
    }
}

/// The index of the first expression (from `i` on) that is not a universe.
pub open spec fn first_non_universe(types: Seq<NormalForm>, i: int) -> Option<int>
    decreases types.len() - i,
{
    if 0 <= i < types.len() {
        if types[i] is Universe {
            first_non_universe(types, i + 1)
        } else {
            Some(i)
        }
    } else {
        None
    }
}

impl Expr<MinimalAst> {
    pub fn is_universe(&self) -> (res: bool)
        ensures
            res == (*self is Universe),
    {
        match self {
            Expr::Universe(_) => true,
            _ => false,
        }
    }
}

/// The level of `e` if it is a universe.
pub open spec fn universe_level_of(e: NormalForm) -> Option<UniverseLevel> {
    match e {
        Expr::Universe(u) => Some(u.universe.level),
        _ => None,
    }
}

pub open spec fn max_level(a: Option<UniverseLevel>, b: Option<UniverseLevel>) -> Option<UniverseLevel> {
    match (a, b) {
        (Some(x), Some(y)) => Some(if x.0 >= y.0 { x } else { y }),
        (Some(x), None) => Some(x),
        (None, y) => y,
    }
}

/// The highest level among the universes in `exprs`, if there is one.
pub open spec fn max_universe_level(exprs: Seq<NormalForm>) -> Option<UniverseLevel>
    decreases exprs.len(),
{
    if exprs.len() == 0 {
        None
    } else {
        max_level(max_universe_level(exprs.drop_last()), universe_level_of(exprs.last()))
    }
}

/// The highest level among the universe expressions of `exprs`; the other expressions
/// are ignored. `None` if there is no universe among them.
pub fn get_max_universe_level(exprs: &[NormalForm]) -> (res: Option<UniverseLevel>)
    ensures
        res == max_universe_level(exprs@),
{
    let mut max: Option<UniverseLevel> = None;
    let mut i: usize = 0;
    while i < exprs.len()
        invariant
            i <= exprs@.len(),
            max == max_universe_level(exprs@.take(i as int)),
        decreases exprs@.len() - i,
    {
        proof {
            assert(exprs@.take(i + 1).drop_last() =~= exprs@.take(i as int));
            assert(exprs@.take(i + 1).last() == exprs@[i as int]);
        }
        match &exprs[i] {
            Expr::Universe(universe) => {
                let level = universe.universe.level;
                max = Some(level.max_or_self(max));
            },
            _ => {},
        }
        i += 1;
    }
    assert(exprs@.take(exprs@.len() as int) =~= exprs@);
    max
}

impl UniverseLevel {
    /// `self` if `other` is `None`, otherwise the larger of the two.
    pub fn max_or_self(self, other: Option<UniverseLevel>) -> (res: UniverseLevel)
        ensures
            res == match other {
                Some(o) => if self.0 >= o.0 {
                    self
                } else {
                    o
                },
                None => self,
            },
    {
        match other {
            Some(other) => if self.0 >= other.0 {
                self
            } else {
                other
            },
            None => self,
        }
    }
}

/// The type of the constructor `vcon_index` of the (normalized) inductive type `ind`:
/// a `for` over its parameter types whose return type applies the type to the
/// constructor's index arguments. Inside the definition, deb `0` (seen past the
/// parameters) is the type itself; here it is replaced by `ind`. A `for` without
/// parameters is its return type, and an application without arguments is its callee.
pub open spec fn vcon_type(ind: IndView<MinimalAst>, vcon_index: int) -> ExprView<MinimalAst> {
    let def = ind.vcon_defs[vcon_index];
    let n = def.param_types.len();
    let self_type = DebReplacement::Substitute(seq![ExprView::Ind(ind)]);
    let param_types = replace_exprs(def.param_types, self_type, 0, true);
    let index_args = replace_exprs(def.index_args, self_type, n as int, false);
    let callee = replace(ExprView::Ind(ind), DebReplacement::Upshift(n), 0);
    let capp = if index_args.len() == 0 {
        callee
    } else {
        ExprView::App(Box::new(AppView { callee, args: index_args, aux_data: () }))
    };
    if param_types.len() == 0 {
        capp
    } else {
        ExprView::For(Box::new(ForView { param_types, return_type: capp, aux_data: () }))
    }
}

/// The return type of a `for` (anything else is its own return type).
pub open spec fn for_return_type(e: ExprView<MinimalAst>) -> ExprView<MinimalAst> {
    match e {
        ExprView::For(f) => f.return_type,
        _ => e,
    }
}

/// The callee of an application (anything else is its own callee).
pub open spec fn app_callee(e: ExprView<MinimalAst>) -> ExprView<MinimalAst> {
    match e {
        ExprView::App(a) => a.callee,
        _ => e,
    }
}

/// A constructor's type returns the inductive type as seen from under the constructor's
/// parameters: instantiating those parameters with any expressions (one per parameter)
/// turns the callee of its return type back into the inductive type itself, so every
/// deb that is free in the type still refers to the same outer variable.
pub proof fn law_vcon_type_returns_its_ind_seen_under_the_params(
    ind: IndView<MinimalAst>,
    vcon_index: int,
    params: Seq<ExprView<MinimalAst>>,
)
    requires
        0 <= vcon_index < ind.vcon_defs.len(),
        vcon_type_ok(ind, vcon_index),
        params.len() == ind.vcon_defs[vcon_index].param_types.len(),
    ensures
        replace(
            app_callee(for_return_type(vcon_type(ind, vcon_index))),
            DebReplacement::Substitute(params),
            0,
        ) == ExprView::Ind(ind),
{
    let def = ind.vcon_defs[vcon_index];
    let n = def.param_types.len();
    let self_type = DebReplacement::Substitute(seq![ExprView::Ind(ind)]);
    lemma_replace_exprs(def.param_types, self_type, 0, true);
    lemma_replace_exprs(def.index_args, self_type, n as int, false);
    law_substitution_undoes_upshift(ExprView::Ind(ind), params, 0);
}

/// The constructor's type can be computed without a deb overflowing a `usize`.
pub open spec fn vcon_type_ok(ind: IndView<MinimalAst>, vcon_index: int) -> bool {
    let def = ind.vcon_defs[vcon_index];
    let n = def.param_types.len();
    let self_type = DebReplacement::Substitute(seq![ExprView::Ind(ind)]);
    &&& replace_exprs_ok(def.param_types, self_type, 0, true)
    &&& n <= usize::MAX
    &&& replace_exprs_ok(def.index_args, self_type, n as int, false)
    &&& replace_ok(ExprView::Ind(ind), DebReplacement::Upshift(n), 0)
}

impl TypeChecker {
    /// The type of constructor `vcon_index` of `ind`, which must be well typed and normalized.
    pub fn get_type_of_vcon_from_well_typed_ind_and_valid_vcon_index(
        &mut self,
        ind: Rc<Ind<MinimalAst>>,
        vcon_index: usize,
    ) -> (res: NormalForm)
        requires
            vcon_index < ind.vcon_defs@.len(),
            vcon_type_ok(ind@, vcon_index as int),
        ensures
            *final(self) == *old(self),
            res@ == vcon_type(ind@, vcon_index as int),
    {
        proof {
            lemma_vcon_defs_view(ind.vcon_defs@);
        }
        let def = &ind.vcon_defs[vcon_index];
        proof {
            lemma_exprs_view(def.param_types@);
            assert(ind@.vcon_defs[vcon_index as int] == def@);
        }
        let self_type = vec![Expr::Ind(rc_clone(&ind))];
        proof {
            lemma_exprs_view(self_type@);
            assert(exprs_view(self_type@) =~= seq![ExprView::Ind(ind@)]);
        }
        let substituter = DebDownshiftSubstituter { new_exprs: self_type.as_slice() };
        let substituted_downshifted_param_types = substituter.replace_debs_with_increasing_cutoff(&def.param_types, 0);
        let param_count = def.param_types.len();
        let substituted_downshifted_index_args = substituter.replace_debs_with_constant_cutoff(
            &def.index_args,
            param_count,
        );
        let upshifted_ind = DebUpshifter(param_count).replace_debs(&Expr::Ind(rc_clone(&ind)), 0);
        proof {
            lemma_exprs_view(substituted_downshifted_index_args@);
            lemma_exprs_view(substituted_downshifted_param_types@);
        }
        let ghost spec_capp = if substituted_downshifted_index_args@.len() == 0 {
            upshifted_ind@
        } else {
            ExprView::App(
                Box::new(
                    AppView {
                        callee: upshifted_ind@,
                        args: exprs_view(substituted_downshifted_index_args@),
                        aux_data: (),
                    },
                ),
            )
        };
        let capp = App { callee: upshifted_ind, args: Rc::new(substituted_downshifted_index_args), aux_data: () }.collapse_if_nullary();
        assert(capp@ == spec_capp);
        let res = For {
            param_types: Rc::new(substituted_downshifted_param_types),
            return_type: capp,
            aux_data: (),
        }.collapse_if_nullary();
        res
    }
}

/// Limits the universe of the index and parameter types of an inductive type
/// to the universe of the type itself.
pub struct LimitToIndUniverse<A: AstFamily>(pub Rc<Ind<A>>);

impl<A: AstFamily> LimitToIndUniverse<A> {
    /// `expr`, whose type lies in `param_type_type_universe`, may appear in the definition.
    pub fn assert_ul_is_within_limit(&self, param_type_type_universe: Universe, expr: Expr<A>) -> (res: Result<(), TypeError<A>>)
        ensures
            param_type_type_universe.level.0 > self.0.universe.level.0 ==> res == Err::<(), TypeError<A>>(
                TypeError::UniverseInconsistencyInIndDef {
                    index_or_param_type: expr,
                    universe: param_type_type_universe,
                    ind: *self.0,
                },
            ),
            param_type_type_universe.level.0 <= self.0.universe.level.0 ==> res is Ok,
    {
        let inclusive_max = self.0.universe.level;
        if param_type_type_universe.level.0 > inclusive_max.0 {
            return Err(
                TypeError::UniverseInconsistencyInIndDef {
                    index_or_param_type: expr,
                    universe: param_type_type_universe,
                    ind: self.0.copy(),
                },
            );
        }
        Ok(())
    }
}

/// No limit on universes.
pub struct NoLimit;

impl NoLimit {
    pub fn assert_ul_is_within_limit<A: AstFamily>(&self, _universe: Universe, _expr: Expr<A>) -> (res: Result<(), TypeError<A>>)
        ensures
            res is Ok,
    {
        Ok(())
    }
}

} // verus!
