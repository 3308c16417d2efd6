use std::rc::Rc;

use zoc::ast::{
    App, Deb, DebNode, Expr, Fun, Ind, Match, MatchCase, StringValue, Universe, UniverseLevel, UniverseNode,
    Vcon, VconDef,
};
use zoc::check_fun_recursion::RecursionCheckingContext;
use zoc::minimal_ast::MinimalAst;
use zoc::type_error::TypeError;
use zoc::typechecker::TypeChecker;

type E = Expr<MinimalAst>;

fn deb(n: usize) -> E {
    Expr::Deb(Rc::new(DebNode { deb: Deb(n), aux_data: () }))
}

fn set0() -> E {
    Expr::Universe(Rc::new(UniverseNode {
        universe: Universe { level: UniverseLevel(0), erasable: false },
        aux_data: (),
    }))
}

fn def(param_types: Vec<E>, index_args: Vec<E>) -> VconDef<MinimalAst> {
    VconDef { param_types: Rc::new(param_types), index_args: Rc::new(index_args), aux_data: () }
}

/// `(ind Set0 "Nat" () ((() ()) ((0) ())))`
fn nat_ind() -> Rc<Ind<MinimalAst>> {
    Rc::new(Ind {
        name: Rc::new(StringValue("Nat".to_string())),
        universe: Universe { level: UniverseLevel(0), erasable: false },
        index_types: Rc::new(vec![]),
        vcon_defs: Rc::new(vec![def(vec![], vec![]), def(vec![deb(0)], vec![])]),
        aux_data: (),
    })
}

fn nat_type() -> E {
    Expr::Ind(nat_ind())
}

fn succ() -> E {
    Expr::Vcon(Rc::new(Vcon { ind: nat_ind(), vcon_index: 1, aux_data: () }))
}

fn app(callee: E, args: Vec<E>) -> E {
    Expr::App(Rc::new(App { callee, args: Rc::new(args), aux_data: () }))
}

fn match_(matchee: E, return_type_arity: usize, return_type: E, cases: Vec<(usize, E)>) -> E {
    let cases = cases
        .into_iter()
        .map(|(arity, return_val)| MatchCase { arity, return_val, aux_data: () })
        .collect();
    Expr::Match(Rc::new(Match { matchee, return_type_arity, return_type, cases: Rc::new(cases), aux_data: () }))
}

fn fun(decreasing_index: Option<usize>, param_types: Vec<E>, return_type: E, return_val: E) -> E {
    Expr::Fun(Rc::new(Fun { decreasing_index, param_types: Rc::new(param_types), return_type, return_val, aux_data: () }))
}

fn check(e: &E) -> Result<(), TypeError<MinimalAst>> {
    let mut typechecker = TypeChecker::new();
    let rcon = RecursionCheckingContext::empty();
    typechecker.check_recursion(e, &rcon)
}

/// `(fun 0 (<NAT> <NAT>) <NAT> (match 2 1 <NAT> ((0 1) (1 (<SUCC> (1 0 2))))))`
fn add() -> E {
    fun(
        Some(0),
        vec![nat_type(), nat_type()],
        nat_type(),
        match_(deb(2), 1, nat_type(), vec![(0, deb(1)), (1, app(succ(), vec![app(deb(1), vec![deb(0), deb(2)])]))]),
    )
}

#[test]
fn structural_recursion_on_a_match_case_param_is_accepted() {
    assert!(check(&add()).is_ok());
}

#[test]
fn decreasing_equal() {
    // (fun 0 (<NAT>) <NAT> (match 2 1 <NAT> ((0 1) (1 (1 2)))))
    let e = fun(Some(0), vec![nat_type()], nat_type(), match_(deb(2), 1, nat_type(), vec![(0, deb(1)), (1, app(deb(1), vec![deb(2)]))]));
    let err = check(&e).unwrap_err();
    assert!(matches!(
        err,
        TypeError::IllegalRecursiveCall {
            required_decreasing_arg_index: 0,
            required_strict_superstruct: Deb(2),
            ..
        }
    ));
}

#[test]
fn recursive_call_on_the_parameter_itself_is_rejected() {
    // (fun 0 (<NAT>) <NAT> (0 1))
    let e = fun(Some(0), vec![nat_type()], nat_type(), app(deb(0), vec![deb(1)]));
    let err = check(&e).unwrap_err();
    assert!(matches!(
        err,
        TypeError::IllegalRecursiveCall { required_decreasing_arg_index: 0, required_strict_superstruct: Deb(1), .. }
    ));
}

#[test]
fn recursive_call_on_a_case_param_of_the_parameter_is_accepted() {
    // (fun 0 (<NAT>) <NAT> (match 1 1 <NAT> ((0 1) (1 (1 0)))))
    let e = fun(Some(0), vec![nat_type()], nat_type(), match_(deb(1), 1, nat_type(), vec![(0, deb(1)), (1, app(deb(1), vec![deb(0)]))]));
    assert!(check(&e).is_ok());
}

#[test]
fn recursive_call_with_too_few_arguments_is_left_to_typechecking() {
    // (fun 1 (<NAT> <NAT>) <NAT> (0 2)): the decreasing argument is missing.
    let e = fun(Some(1), vec![nat_type(), nat_type()], nat_type(), app(deb(0), vec![deb(2)]));
    assert!(check(&e).is_ok());
}

#[test]
fn nonrec_fun_may_not_call_itself() {
    // (fun nonrec (<NAT>) <NAT> (0 1))
    let e = fun(None, vec![nat_type()], nat_type(), app(deb(0), vec![deb(1)]));
    let err = check(&e).unwrap_err();
    match err {
        TypeError::DeclaredFunNonrecursiveButUsedRecursiveFunParam { deb, definition_src } => {
            assert_eq!(Deb(0), deb.deb);
            assert_eq!(None, definition_src.decreasing_index);
        }
        _ => panic!("unexpected error"),
    }
}

#[test]
fn nonrec_fun_may_not_mention_itself() {
    // (fun nonrec (<NAT>) <NAT> 0)
    let e = fun(None, vec![nat_type()], nat_type(), deb(0));
    let err = check(&e).unwrap_err();
    assert!(matches!(err, TypeError::DeclaredFunNonrecursiveButUsedRecursiveFunParam { .. }));
}

#[test]
fn recursive_fun_may_only_appear_as_a_callee() {
    // (fun 0 (<NAT>) <NAT> 0)
    let e = fun(Some(0), vec![nat_type()], nat_type(), deb(0));
    let err = check(&e).unwrap_err();
    match err {
        TypeError::RecursiveFunParamInNonCalleePosition { deb, definition_src } => {
            assert_eq!(Deb(0), deb.deb);
            assert_eq!(Some(0), definition_src.decreasing_index);
        }
        _ => panic!("unexpected error"),
    }
}

#[test]
fn decreasing_index_must_name_a_parameter() {
    // (fun 1 (<NAT>) <NAT> 1)
    let e = fun(Some(1), vec![nat_type()], nat_type(), deb(1));
    let err = check(&e).unwrap_err();
    match err {
        TypeError::DecreasingArgIndexTooBig { fun } => assert_eq!(Some(1), fun.decreasing_index),
        _ => panic!("unexpected error"),
    }
}

#[test]
fn errors_in_param_types_come_first() {
    // (fun 5 ((fun nonrec (Set0) Set0 0)) <NAT> 1): the param type fails before the index is checked.
    let bad_param_type = fun(None, vec![set0()], set0(), deb(0));
    let e = fun(Some(5), vec![bad_param_type], nat_type(), deb(1));
    let err = check(&e).unwrap_err();
    assert!(matches!(err, TypeError::DeclaredFunNonrecursiveButUsedRecursiveFunParam { .. }));
}

#[test]
fn applied_fun_literal_sees_its_arguments_as_substructures() {
    // (fun 0 (<NAT>) <NAT> (match 1 1 <NAT> ((0 1) (1 ((fun nonrec (<NAT>) <NAT> (3 1)) 0)))))
    // Inside the inner fun, its param (deb 1) is the pred, a strict substructure,
    // so calling the outer fun (deb 3) on it is allowed.
    let inner = fun(None, vec![nat_type()], nat_type(), app(deb(3), vec![deb(1)]));
    let e = fun(Some(0), vec![nat_type()], nat_type(), match_(deb(1), 1, nat_type(), vec![(0, deb(1)), (1, app(inner, vec![deb(0)]))]));
    assert!(check(&e).is_ok());
}

#[test]
fn unapplied_fun_literal_forgets_its_arguments() {
    // Same as above, but the inner fun is passed its argument through a match
    // instead of a direct application, so nothing is known about its param.
    // (fun 0 (<NAT>) <NAT> (match 1 1 <NAT> ((0 1) (1 (fun nonrec (<NAT>) <NAT> (3 1))))))
    let inner = fun(None, vec![nat_type()], nat_type(), app(deb(3), vec![deb(1)]));
    let e = fun(Some(0), vec![nat_type()], nat_type(), match_(deb(1), 1, nat_type(), vec![(0, deb(1)), (1, inner)]));
    let err = check(&e).unwrap_err();
    assert!(matches!(err, TypeError::IllegalRecursiveCall { .. }));
}

#[test]
fn caseless_match_is_smaller_than_anything() {
    // (fun 0 (<NAT>) <NAT> (0 (match 1 1 <NAT> ())))
    let e = fun(Some(0), vec![nat_type()], nat_type(), app(deb(0), vec![match_(deb(1), 1, nat_type(), vec![])]));
    assert!(check(&e).is_ok());
}

#[test]
fn expressions_without_funs_pass() {
    assert!(check(&nat_type()).is_ok());
    assert!(check(&set0()).is_ok());
    assert!(check(&app(succ(), vec![deb(7)])).is_ok());
}
