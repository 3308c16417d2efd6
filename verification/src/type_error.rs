//! The errors that typechecking reports.

use vstd::prelude::*;
use crate::ast::{App, AstFamily, Deb, DebNode, Expr, For, Fun, Ind, Match, Universe, UniverseNode, Vcon, VconDef};
use crate::minimal_ast::MinimalAst;
use crate::node_path::NodeEdge;
use crate::ast::{ind_view, rc_hashed, vcon_def_view};
use crate::remove_aux_data::{strip, strip_ind, strip_vcon_def, AuxDataRemover};
use std::rc::Rc;

verus! {

/// An expression in normal form.
pub type NormalForm = Expr<MinimalAst>;

#[allow(inconsistent_fields)]
pub enum TypeError<A: AstFamily> {
    InvalidDeb { deb: DebNode<A>, tcon_len: usize },
    InvalidVconIndex(Vcon<A>),
    UnexpectedNonTypeExpression { expr: Expr<A>, type_: NormalForm },
    UniverseInconsistencyInIndDef { index_or_param_type: Expr<A>, universe: Universe, ind: Ind<A> },
    WrongNumberOfIndexArguments { def: VconDef<A>, expected: usize, actual: usize },
    NonInductiveMatcheeType { expr: Expr<A>, type_: NormalForm },
    WrongNumberOfMatchCases { match_: Match<A>, matchee_type_ind: Ind<MinimalAst> },
    WrongMatchReturnTypeArity { match_: Match<A>, matchee_type_args: Vec<NormalForm> },
    WrongMatchCaseArity { stated_arity: usize, expected: usize, match_: Match<A>, match_case_index: usize },
    TypeMismatch { expr: Expr<A>, expected_type: NormalForm, actual_type: NormalForm },
    CalleeTypeIsNotAForExpression { app: App<A>, callee_type: NormalForm },
    WrongNumberOfAppArguments { app: App<A>, callee_type: For<MinimalAst>, expected: usize, actual: usize },
    FunHasZeroParams { fun: Fun<A> },
    AppHasZeroArgs { app: App<A> },
    ForHasZeroParams { for_: For<A> },
    IllegalRecursiveCall {
        app: App<A>,
        callee_deb_definition_src: Fun<A>,
        required_decreasing_arg_index: usize,
        required_strict_superstruct: Deb,
    },
    RecursiveFunParamInNonCalleePosition { deb: DebNode<A>, definition_src: Fun<A> },
    DeclaredFunNonrecursiveButUsedRecursiveFunParam { deb: DebNode<A>, definition_src: Fun<A> },
    DecreasingArgIndexTooBig { fun: Fun<A> },
    VconDefParamTypeFailsStrictPositivityCondition {
        def: VconDef<A>,
        param_type_index: usize,
        normalized_param_type: NormalForm,
        path_from_param_type_to_problematic_deb: Vec<NodeEdge>,
    },
    RecursiveIndParamAppearsInVconDefIndexArg {
        def: VconDef<A>,
        index_arg_index: usize,
        normalized_index_arg: NormalForm,
        path_from_index_arg_to_problematic_deb: Vec<NodeEdge>,
    },
    MatcheeTypeTypeIsErasableButReturnTypeTypeIsNotErasable {
        match_: Match<A>,
        matchee_type_type: UniverseNode<MinimalAst>,
        match_return_type_type: UniverseNode<MinimalAst>,
    },
}

/// `res` is the error `err` with the auxiliary data removed from every tree in it
/// that came from the checked expression (the normal forms carry none).
pub open spec fn error_stripped<A: AstFamily>(res: TypeError<MinimalAst>, err: TypeError<A>) -> bool {
    match (err, res) {
        (TypeError::InvalidDeb { deb, tcon_len }, TypeError::InvalidDeb { deb: d, tcon_len: t }) => d.deb == deb.deb
            && t == tcon_len,
        (TypeError::InvalidVconIndex(vcon), TypeError::InvalidVconIndex(v)) => Expr::Vcon(Rc::new(v))@ == strip(
            Expr::Vcon(Rc::new(vcon))@,
        ),
        (
            TypeError::UnexpectedNonTypeExpression { expr, type_ },
            TypeError::UnexpectedNonTypeExpression { expr: e, type_: t },
        ) => e@ == strip(expr@) && t == type_,
        (
            TypeError::UniverseInconsistencyInIndDef { index_or_param_type, universe, ind },
            TypeError::UniverseInconsistencyInIndDef { index_or_param_type: e, universe: u, ind: i },
        ) => e@ == strip(index_or_param_type@) && u == universe && ind_view(i) == strip_ind(ind_view(ind)),
        (
            TypeError::WrongNumberOfIndexArguments { def, expected, actual },
            TypeError::WrongNumberOfIndexArguments { def: d, expected: x, actual: y },
        ) => vcon_def_view(d) == strip_vcon_def(vcon_def_view(def)) && x == expected && y == actual,
        (
            TypeError::NonInductiveMatcheeType { expr, type_ },
            TypeError::NonInductiveMatcheeType { expr: e, type_: t },
        ) => e@ == strip(expr@) && t == type_,
        (
            TypeError::WrongNumberOfMatchCases { match_, matchee_type_ind },
            TypeError::WrongNumberOfMatchCases { match_: m, matchee_type_ind: i },
        ) => Expr::Match(Rc::new(m))@ == strip(Expr::Match(Rc::new(match_))@) && i == matchee_type_ind,
        (
            TypeError::WrongMatchReturnTypeArity { match_, matchee_type_args },
            TypeError::WrongMatchReturnTypeArity { match_: m, matchee_type_args: a },
        ) => Expr::Match(Rc::new(m))@ == strip(Expr::Match(Rc::new(match_))@) && a == matchee_type_args,
        (
            TypeError::WrongMatchCaseArity { stated_arity, expected, match_, match_case_index },
            TypeError::WrongMatchCaseArity { stated_arity: s, expected: x, match_: m, match_case_index: k },
        ) => s == stated_arity && x == expected && Expr::Match(Rc::new(m))@ == strip(Expr::Match(Rc::new(match_))@)
            && k == match_case_index,
        (
            TypeError::TypeMismatch { expr, expected_type, actual_type },
            TypeError::TypeMismatch { expr: e, expected_type: x, actual_type: y },
        ) => e@ == strip(expr@) && x == expected_type && y == actual_type,
        (
            TypeError::CalleeTypeIsNotAForExpression { app, callee_type },
            TypeError::CalleeTypeIsNotAForExpression { app: a, callee_type: t },
        ) => Expr::App(Rc::new(a))@ == strip(Expr::App(Rc::new(app))@) && t == callee_type,
        (
            TypeError::WrongNumberOfAppArguments { app, callee_type, expected, actual },
            TypeError::WrongNumberOfAppArguments { app: a, callee_type: t, expected: x, actual: y },
        ) => Expr::App(Rc::new(a))@ == strip(Expr::App(Rc::new(app))@) && t == callee_type && x == expected && y
            == actual,
        (TypeError::FunHasZeroParams { fun }, TypeError::FunHasZeroParams { fun: f }) => Expr::Fun(Rc::new(f))@
            == strip(Expr::Fun(Rc::new(fun))@),
        (TypeError::AppHasZeroArgs { app }, TypeError::AppHasZeroArgs { app: a }) => Expr::App(Rc::new(a))@ == strip(
            Expr::App(Rc::new(app))@,
        ),
        (TypeError::ForHasZeroParams { for_ }, TypeError::ForHasZeroParams { for_: f }) => Expr::For(Rc::new(f))@
            == strip(Expr::For(Rc::new(for_))@),
        (
            TypeError::IllegalRecursiveCall {
                app,
                callee_deb_definition_src,
                required_decreasing_arg_index,
                required_strict_superstruct,
            },
            TypeError::IllegalRecursiveCall {
                app: a,
                callee_deb_definition_src: f,
                required_decreasing_arg_index: k,
                required_strict_superstruct: d,
            },
        ) => Expr::App(Rc::new(a))@ == strip(Expr::App(Rc::new(app))@) && Expr::Fun(Rc::new(f))@ == strip(
            Expr::Fun(Rc::new(callee_deb_definition_src))@,
        ) && k == required_decreasing_arg_index && d == required_strict_superstruct,
        (
            TypeError::RecursiveFunParamInNonCalleePosition { deb, definition_src },
            TypeError::RecursiveFunParamInNonCalleePosition { deb: d, definition_src: f },
        ) => d.deb == deb.deb && Expr::Fun(Rc::new(f))@ == strip(Expr::Fun(Rc::new(definition_src))@),
        (
            TypeError::DeclaredFunNonrecursiveButUsedRecursiveFunParam { deb, definition_src },
            TypeError::DeclaredFunNonrecursiveButUsedRecursiveFunParam { deb: d, definition_src: f },
        ) => d.deb == deb.deb && Expr::Fun(Rc::new(f))@ == strip(Expr::Fun(Rc::new(definition_src))@),
        (TypeError::DecreasingArgIndexTooBig { fun }, TypeError::DecreasingArgIndexTooBig { fun: f }) => Expr::Fun(
            Rc::new(f),
        )@ == strip(Expr::Fun(Rc::new(fun))@),
        (
            TypeError::VconDefParamTypeFailsStrictPositivityCondition {
                def,
                param_type_index,
                normalized_param_type,
                path_from_param_type_to_problematic_deb,
            },
            TypeError::VconDefParamTypeFailsStrictPositivityCondition {
                def: d,
                param_type_index: k,
                normalized_param_type: t,
                path_from_param_type_to_problematic_deb: p,
            },
        ) => vcon_def_view(d) == strip_vcon_def(vcon_def_view(def)) && k == param_type_index && t
            == normalized_param_type && p == path_from_param_type_to_problematic_deb,
        (
            TypeError::RecursiveIndParamAppearsInVconDefIndexArg {
                def,
                index_arg_index,
                normalized_index_arg,
                path_from_index_arg_to_problematic_deb,
            },
            TypeError::RecursiveIndParamAppearsInVconDefIndexArg {
                def: d,
                index_arg_index: k,
                normalized_index_arg: t,
                path_from_index_arg_to_problematic_deb: p,
            },
        ) => vcon_def_view(d) == strip_vcon_def(vcon_def_view(def)) && k == index_arg_index && t == normalized_index_arg
            && p == path_from_index_arg_to_problematic_deb,
        (
            TypeError::MatcheeTypeTypeIsErasableButReturnTypeTypeIsNotErasable {
                match_,
                matchee_type_type,
                match_return_type_type,
            },
            TypeError::MatcheeTypeTypeIsErasableButReturnTypeTypeIsNotErasable {
                match_: m,
                matchee_type_type: t,
                match_return_type_type: r,
            },
        ) => Expr::Match(Rc::new(m))@ == strip(Expr::Match(Rc::new(match_))@) && t == matchee_type_type && r
            == match_return_type_type,
        _ => false,
    }
}

impl<A: AstFamily> TypeError<A> {
    /// The same error, with the auxiliary data removed from the trees that came
    /// from the checked expression.
    pub fn remove_ast_aux_data(self, remover: &mut AuxDataRemover) -> (res: TypeError<MinimalAst>)
        ensures
            error_stripped(res, self),
            *final(remover) == *old(remover),
    {
        match self {
            TypeError::InvalidDeb { deb, tcon_len } => TypeError::InvalidDeb {
                deb: remover.convert_deb_node(&deb),
                tcon_len,
            },
            TypeError::InvalidVconIndex(vcon) => TypeError::InvalidVconIndex(
                remover.convert_vcon(rc_hashed(vcon)).copy(),
            ),
            TypeError::UnexpectedNonTypeExpression { expr, type_ } => TypeError::UnexpectedNonTypeExpression {
                expr: remover.convert(expr),
                type_,
            },
            TypeError::UniverseInconsistencyInIndDef { index_or_param_type, universe, ind } => {
                TypeError::UniverseInconsistencyInIndDef {
                    index_or_param_type: remover.convert(index_or_param_type),
                    universe,
                    ind: remover.convert_ind(rc_hashed(ind)).copy(),
                }
            },
            TypeError::WrongNumberOfIndexArguments { def, expected, actual } => TypeError::WrongNumberOfIndexArguments {
                def: remover.convert_vcon_def(def),
                expected,
                actual,
            },
            TypeError::NonInductiveMatcheeType { expr, type_ } => TypeError::NonInductiveMatcheeType {
                expr: remover.convert(expr),
                type_,
            },
            TypeError::WrongNumberOfMatchCases { match_, matchee_type_ind } => TypeError::WrongNumberOfMatchCases {
                match_: remover.convert_match(rc_hashed(match_)).copy(),
                matchee_type_ind,
            },
            TypeError::WrongMatchReturnTypeArity { match_, matchee_type_args } => TypeError::WrongMatchReturnTypeArity {
                match_: remover.convert_match(rc_hashed(match_)).copy(),
                matchee_type_args,
            },
            TypeError::WrongMatchCaseArity { stated_arity, expected, match_, match_case_index } => {
                TypeError::WrongMatchCaseArity {
                    stated_arity,
                    expected,
                    match_: remover.convert_match(rc_hashed(match_)).copy(),
                    match_case_index,
                }
            },
            TypeError::TypeMismatch { expr, expected_type, actual_type } => TypeError::TypeMismatch {
                expr: remover.convert(expr),
                expected_type,
                actual_type,
            },
            TypeError::CalleeTypeIsNotAForExpression { app, callee_type } => TypeError::CalleeTypeIsNotAForExpression {
                app: remover.convert_app(rc_hashed(app)).copy(),
                callee_type,
            },
            TypeError::WrongNumberOfAppArguments { app, callee_type, expected, actual } => {
                TypeError::WrongNumberOfAppArguments {
                    app: remover.convert_app(rc_hashed(app)).copy(),
                    callee_type,
                    expected,
                    actual,
                }
            },
            TypeError::FunHasZeroParams { fun } => TypeError::FunHasZeroParams {
                fun: remover.convert_fun(rc_hashed(fun)).copy(),
            },
            TypeError::AppHasZeroArgs { app } => TypeError::AppHasZeroArgs {
                app: remover.convert_app(rc_hashed(app)).copy(),
            },
            TypeError::ForHasZeroParams { for_ } => TypeError::ForHasZeroParams {
                for_: remover.convert_for(rc_hashed(for_)).copy(),
            },
            TypeError::IllegalRecursiveCall {
                app,
                callee_deb_definition_src,
                required_decreasing_arg_index,
                required_strict_superstruct,
            } => TypeError::IllegalRecursiveCall {
                app: remover.convert_app(rc_hashed(app)).copy(),
                callee_deb_definition_src: remover.convert_fun(rc_hashed(callee_deb_definition_src)).copy(),
                required_decreasing_arg_index,
                required_strict_superstruct,
            },
            TypeError::RecursiveFunParamInNonCalleePosition { deb, definition_src } => {
                TypeError::RecursiveFunParamInNonCalleePosition {
                    deb: remover.convert_deb_node(&deb),
                    definition_src: remover.convert_fun(rc_hashed(definition_src)).copy(),
                }
            },
            TypeError::DeclaredFunNonrecursiveButUsedRecursiveFunParam { deb, definition_src } => {
                TypeError::DeclaredFunNonrecursiveButUsedRecursiveFunParam {
                    deb: remover.convert_deb_node(&deb),
                    definition_src: remover.convert_fun(rc_hashed(definition_src)).copy(),
                }
            },
            TypeError::DecreasingArgIndexTooBig { fun } => TypeError::DecreasingArgIndexTooBig {
                fun: remover.convert_fun(rc_hashed(fun)).copy(),
            },
            TypeError::VconDefParamTypeFailsStrictPositivityCondition {
                def,
                param_type_index,
                normalized_param_type,
                path_from_param_type_to_problematic_deb,
            } => TypeError::VconDefParamTypeFailsStrictPositivityCondition {
                def: remover.convert_vcon_def(def),
                param_type_index,
                normalized_param_type,
                path_from_param_type_to_problematic_deb,
            },
            TypeError::RecursiveIndParamAppearsInVconDefIndexArg {
                def,
                index_arg_index,
                normalized_index_arg,
                path_from_index_arg_to_problematic_deb,
            } => TypeError::RecursiveIndParamAppearsInVconDefIndexArg {
                def: remover.convert_vcon_def(def),
                index_arg_index,
                normalized_index_arg,
                path_from_index_arg_to_problematic_deb,
            },
            TypeError::MatcheeTypeTypeIsErasableButReturnTypeTypeIsNotErasable {
                match_,
                matchee_type_type,
                match_return_type_type,
            } => TypeError::MatcheeTypeTypeIsErasableButReturnTypeTypeIsNotErasable {
                match_: remover.convert_match(rc_hashed(match_)).copy(),
                matchee_type_type,
                match_return_type_type,
            },
        }
    }
}

} // verus!
