use std::rc::Rc;

use zoc::ast::{
    App, Deb, DebNode, Expr, For, Fun, Ind, Match, MatchCase, StringValue, Universe, UniverseLevel, UniverseNode,
    Vcon, VconDef,
};
use zoc::minimal_ast::MinimalAst;
use zoc::type_error::TypeError;
use zoc::typechecker::{get_max_universe_level, LimitToIndUniverse, NoLimit, TypeChecker};

type E = Expr<MinimalAst>;

fn deb(n: usize) -> E {
    Expr::Deb(Rc::new(DebNode { deb: Deb(n), aux_data: () }))
}

fn universe(level: usize, erasable: bool) -> E {
    Expr::Universe(Rc::new(UniverseNode {
        universe: Universe { level: UniverseLevel(level), erasable },
        aux_data: (),
    }))
}

fn def(param_types: Vec<E>, index_args: Vec<E>) -> VconDef<MinimalAst> {
    VconDef { param_types: Rc::new(param_types), index_args: Rc::new(index_args), aux_data: () }
}

fn ind(vcon_defs: Vec<VconDef<MinimalAst>>) -> Rc<Ind<MinimalAst>> {
    Rc::new(Ind {
        name: Rc::new(StringValue("T".to_string())),
        universe: Universe { level: UniverseLevel(0), erasable: false },
        index_types: Rc::new(vec![]),
        vcon_defs: Rc::new(vcon_defs),
        aux_data: (),
    })
}

fn app(args: Vec<E>) -> Rc<App<MinimalAst>> {
    Rc::new(App { callee: deb(0), args: Rc::new(args), aux_data: () })
}

fn for_(param_types: Vec<E>) -> Rc<For<MinimalAst>> {
    Rc::new(For { param_types: Rc::new(param_types), return_type: universe(0, false), aux_data: () })
}

fn match_(return_type_arity: usize, cases: usize) -> Rc<Match<MinimalAst>> {
    let cases = (0..cases).map(|_| MatchCase { arity: 0, return_val: deb(0), aux_data: () }).collect();
    Rc::new(Match {
        matchee: deb(0),
        return_type_arity,
        return_type: universe(0, false),
        cases: Rc::new(cases),
        aux_data: (),
    })
}

#[test]
fn type_of_a_universe_is_the_next_erasable_universe() {
    let mut typechecker = TypeChecker::new();
    let node = Rc::new(UniverseNode::<MinimalAst> { universe: Universe { level: UniverseLevel(3), erasable: false }, aux_data: () });
    match typechecker.get_type_of_universe(node) {
        Ok(Expr::Universe(u)) => {
            assert_eq!(Universe { level: UniverseLevel(4), erasable: true }, u.universe);
        }
        _ => panic!("expected a universe"),
    }
}

#[test]
fn nullary_fun_app_and_for_are_rejected() {
    let mut typechecker = TypeChecker::new();
    let nullary_fun = Rc::new(Fun {
        decreasing_index: None,
        param_types: Rc::new(vec![]),
        return_type: universe(0, false),
        return_val: deb(0),
        aux_data: (),
    });
    assert!(matches!(typechecker.assert_fun_has_at_least_one_param(nullary_fun), Err(TypeError::FunHasZeroParams { .. })));
    assert!(matches!(typechecker.assert_app_has_at_least_one_arg(app(vec![])), Err(TypeError::AppHasZeroArgs { .. })));
    assert!(matches!(typechecker.assert_for_has_at_least_one_param(for_(vec![])), Err(TypeError::ForHasZeroParams { .. })));
    assert!(typechecker.assert_app_has_at_least_one_arg(app(vec![deb(1)])).is_ok());
    assert!(typechecker.assert_for_has_at_least_one_param(for_(vec![deb(1)])).is_ok());
}

#[test]
fn vcon_index_must_name_a_constructor() {
    let mut typechecker = TypeChecker::new();
    let t = ind(vec![def(vec![], vec![])]);
    let ok = Rc::new(Vcon { ind: Rc::clone(&t), vcon_index: 0, aux_data: () });
    let bad = Rc::new(Vcon { ind: t, vcon_index: 1, aux_data: () });
    assert!(typechecker.assert_vcon_index_is_valid(ok).is_ok());
    match typechecker.assert_vcon_index_is_valid(bad) {
        Err(TypeError::InvalidVconIndex(v)) => assert_eq!(1, v.vcon_index),
        _ => panic!("expected an invalid vcon index"),
    }
}

#[test]
fn index_arg_count_must_match() {
    let mut typechecker = TypeChecker::new();
    let d = def(vec![], vec![deb(0), deb(1)]);
    assert!(typechecker.assert_index_arg_count_is_correct(&d, 2).is_ok());
    assert!(matches!(
        typechecker.assert_index_arg_count_is_correct(&d, 3),
        Err(TypeError::WrongNumberOfIndexArguments { expected: 3, actual: 2, .. })
    ));
}

#[test]
fn callee_type_must_be_a_for_with_the_right_arity() {
    let mut typechecker = TypeChecker::new();
    let callee_type = Expr::For(for_(vec![deb(0), deb(1)]));
    let for_type = typechecker.assert_callee_type_is_a_for_expression(callee_type, app(vec![deb(1)])).ok().unwrap();
    assert_eq!(2, for_type.param_types.len());
    assert!(matches!(
        typechecker.assert_arg_count_is_correct(app(vec![deb(1)]), Rc::clone(&for_type)),
        Err(TypeError::WrongNumberOfAppArguments { expected: 2, actual: 1, .. })
    ));
    assert!(typechecker.assert_arg_count_is_correct(app(vec![deb(1), deb(2)]), for_type).is_ok());
    assert!(matches!(
        typechecker.assert_callee_type_is_a_for_expression(universe(0, false), app(vec![deb(1)])),
        Err(TypeError::CalleeTypeIsNotAForExpression { .. })
    ));
}

#[test]
fn match_shape_checks() {
    let mut typechecker = TypeChecker::new();
    let t = ind(vec![def(vec![], vec![]), def(vec![], vec![])]);
    assert!(typechecker.assert_number_of_match_cases_is_correct(match_(1, 2), Rc::clone(&t)).is_ok());
    assert!(matches!(
        typechecker.assert_number_of_match_cases_is_correct(match_(1, 1), t),
        Err(TypeError::WrongNumberOfMatchCases { .. })
    ));
    assert!(typechecker.assert_stated_return_type_arity_is_correct(match_(3, 0), vec![deb(0), deb(1)]).is_ok());
    assert!(matches!(
        typechecker.assert_stated_return_type_arity_is_correct(match_(2, 0), vec![deb(0), deb(1)]),
        Err(TypeError::WrongMatchReturnTypeArity { .. })
    ));
    assert!(matches!(
        typechecker.assert_stated_return_type_arity_is_correct(match_(0, 0), vec![]),
        Err(TypeError::WrongMatchReturnTypeArity { .. })
    ));
    assert!(typechecker.assert_stated_case_arity_is_correct(2, 2, 0, match_(1, 1)).is_ok());
    assert!(matches!(
        typechecker.assert_stated_case_arity_is_correct(1, 2, 4, match_(1, 1)),
        Err(TypeError::WrongMatchCaseArity { stated_arity: 1, expected: 2, match_case_index: 4, .. })
    ));
}

#[test]
fn every_type_must_be_a_universe() {
    let mut typechecker = TypeChecker::new();
    let exprs = vec![deb(0), deb(1), deb(2)];
    let types = vec![universe(0, false), universe(1, true), universe(0, false)];
    assert!(typechecker.assert_every_type_is_universe(&types, &exprs).is_ok());
    let types = vec![universe(0, false), deb(7), deb(8)];
    match typechecker.assert_every_type_is_universe(&types, &exprs) {
        Err(TypeError::UnexpectedNonTypeExpression { expr: Expr::Deb(e), type_: Expr::Deb(t) }) => {
            assert_eq!(Deb(1), e.deb);
            assert_eq!(Deb(7), t.deb);
        }
        _ => panic!("expected the second expression to be reported"),
    }
}

#[test]
fn max_universe_level_ignores_non_universes() {
    assert_eq!(None, get_max_universe_level(&[]));
    assert_eq!(None, get_max_universe_level(&[deb(3)]));
    assert_eq!(
        Some(UniverseLevel(5)),
        get_max_universe_level(&[universe(2, false), deb(9), universe(5, true), universe(1, false)])
    );
}

#[test]
fn max_or_self() {
    assert_eq!(UniverseLevel(3), UniverseLevel(3).max_or_self(None));
    assert_eq!(UniverseLevel(7), UniverseLevel(3).max_or_self(Some(UniverseLevel(7))));
    assert_eq!(UniverseLevel(3), UniverseLevel(3).max_or_self(Some(UniverseLevel(1))));
}

fn nat_ind() -> Rc<Ind<MinimalAst>> {
    Rc::new(Ind {
        name: Rc::new(StringValue("Nat".to_string())),
        universe: Universe { level: UniverseLevel(0), erasable: false },
        index_types: Rc::new(vec![]),
        vcon_defs: Rc::new(vec![def(vec![], vec![]), def(vec![deb(0)], vec![])]),
        aux_data: (),
    })
}

fn is_nat(e: &E) -> bool {
    match e {
        Expr::Ind(i) => i.name.0 == "Nat" && i.vcon_defs.len() == 2,
        _ => false,
    }
}

#[test]
fn type_of_a_nullary_constructor_is_the_type_itself() {
    let mut typechecker = TypeChecker::new();
    let zero_type = typechecker.get_type_of_vcon_from_well_typed_ind_and_valid_vcon_index(nat_ind(), 0);
    assert!(is_nat(&zero_type));
}

#[test]
fn type_of_a_constructor_with_params_is_a_for() {
    let mut typechecker = TypeChecker::new();
    let succ_type = typechecker.get_type_of_vcon_from_well_typed_ind_and_valid_vcon_index(nat_ind(), 1);
    match succ_type {
        Expr::For(f) => {
            assert_eq!(1, f.param_types.len());
            assert!(is_nat(&f.param_types[0]));
            assert!(is_nat(&f.return_type));
        }
        _ => panic!("expected a for"),
    }
}

#[test]
fn type_of_a_constructor_of_an_indexed_type_applies_the_type_to_its_index_args() {
    let mut typechecker = TypeChecker::new();
    // (ind Set0 "Fin" (Set0) ((() (Set0)) ((Set0 1) (5))))
    let fin = Rc::new(Ind {
        name: Rc::new(StringValue("Fin".to_string())),
        universe: Universe { level: UniverseLevel(0), erasable: false },
        index_types: Rc::new(vec![universe(0, false)]),
        vcon_defs: Rc::new(vec![
            def(vec![], vec![universe(0, false)]),
            def(vec![universe(0, false), deb(1)], vec![deb(5)]),
        ]),
        aux_data: (),
    });
    match typechecker.get_type_of_vcon_from_well_typed_ind_and_valid_vcon_index(Rc::clone(&fin), 0) {
        Expr::App(a) => {
            assert!(matches!(&a.callee, Expr::Ind(_)));
            assert_eq!(1, a.args.len());
            assert!(matches!(&a.args[0], Expr::Universe(_)));
        }
        _ => panic!("expected an application"),
    }
    match typechecker.get_type_of_vcon_from_well_typed_ind_and_valid_vcon_index(fin, 1) {
        Expr::For(f) => {
            assert_eq!(2, f.param_types.len());
            assert!(matches!(&f.param_types[0], Expr::Universe(_)));
            // The second param type is deb 1 seen past one param: the type itself.
            assert!(matches!(&f.param_types[1], Expr::Ind(_)));
            match &f.return_type {
                Expr::App(a) => match &a.args[0] {
                    // Deb 5 seen past the two params lies beyond the type, so it drops by one.
                    Expr::Deb(d) => assert_eq!(Deb(4), d.deb),
                    _ => panic!("expected a deb"),
                },
                _ => panic!("expected an application"),
            }
        }
        _ => panic!("expected a for"),
    }
}

#[test]
fn index_and_param_types_must_not_live_in_a_higher_universe_than_the_type() {
    let limit = LimitToIndUniverse(ind(vec![]));
    let set0 = Universe { level: UniverseLevel(0), erasable: false };
    let set1 = Universe { level: UniverseLevel(1), erasable: false };
    assert!(limit.assert_ul_is_within_limit(set0, deb(0)).is_ok());
    match limit.assert_ul_is_within_limit(set1, deb(3)) {
        Err(TypeError::UniverseInconsistencyInIndDef { index_or_param_type: Expr::Deb(d), universe, ind }) => {
            assert_eq!(Deb(3), d.deb);
            assert_eq!(set1, universe);
            assert_eq!(UniverseLevel(0), ind.universe.level);
        }
        _ => panic!("expected a universe inconsistency"),
    }
    assert!(NoLimit.assert_ul_is_within_limit(set1, deb(3)).is_ok());
}

fn for_with_return_type(param_types: Vec<E>, return_type: E) -> Rc<For<MinimalAst>> {
    Rc::new(For { param_types: Rc::new(param_types), return_type, aux_data: () })
}

fn universe_of(e: &E) -> Option<Universe> {
    match e {
        Expr::Universe(u) => Some(u.universe),
        _ => None,
    }
}

#[test]
fn type_of_a_for_is_the_highest_universe_of_its_parts() {
    let mut typechecker = TypeChecker::new();
    let f = for_with_return_type(vec![deb(0), deb(1)], deb(2));
    let param_type_types = vec![universe(4, false), universe(1, true)];
    let res = typechecker.get_type_of_for_from_parts(f.clone(), &param_type_types, universe(2, true));
    assert_eq!(Some(Universe { level: UniverseLevel(4), erasable: true }), res.ok().and_then(|e| universe_of(&e)));
    let res = typechecker.get_type_of_for_from_parts(f, &param_type_types, universe(6, false));
    assert_eq!(Some(Universe { level: UniverseLevel(6), erasable: false }), res.ok().and_then(|e| universe_of(&e)));
}

#[test]
fn type_of_a_for_rejects_bad_parts() {
    let mut typechecker = TypeChecker::new();
    let nullary = for_with_return_type(vec![], deb(0));
    assert!(matches!(
        typechecker.get_type_of_for_from_parts(nullary, &[], universe(0, false)),
        Err(TypeError::ForHasZeroParams { .. })
    ));
    let f = for_with_return_type(vec![deb(0), deb(1)], deb(2));
    match typechecker.get_type_of_for_from_parts(f.clone(), &[universe(0, false), deb(7)], universe(0, false)) {
        Err(TypeError::UnexpectedNonTypeExpression { expr: Expr::Deb(e), type_: Expr::Deb(t) }) => {
            assert_eq!(Deb(1), e.deb);
            assert_eq!(Deb(7), t.deb);
        }
        _ => panic!("expected the second param type to be reported"),
    }
    match typechecker.get_type_of_for_from_parts(f, &[universe(0, false), universe(0, false)], deb(9)) {
        Err(TypeError::UnexpectedNonTypeExpression { expr: Expr::Deb(e), type_: Expr::Deb(t) }) => {
            assert_eq!(Deb(2), e.deb);
            assert_eq!(Deb(9), t.deb);
        }
        _ => panic!("expected the return type to be reported"),
    }
}

#[test]
fn erasability_needs_at_most_one_constructor_with_erasable_params() {
    let mut typechecker = TypeChecker::new();
    let empty = ind(vec![]);
    assert!(typechecker.does_well_typed_ind_have_at_most_one_vcon_def_where_all_params_are_erasable_from_parts(&empty, &[]));
    let two = ind(vec![def(vec![], vec![]), def(vec![], vec![])]);
    assert!(!typechecker.does_well_typed_ind_have_at_most_one_vcon_def_where_all_params_are_erasable_from_parts(&two, &[]));
    let one = ind(vec![def(vec![deb(0), deb(1)], vec![])]);
    assert!(typechecker.does_well_typed_ind_have_at_most_one_vcon_def_where_all_params_are_erasable_from_parts(
        &one,
        &[universe(0, true), universe(3, true)]
    ));
    assert!(!typechecker.does_well_typed_ind_have_at_most_one_vcon_def_where_all_params_are_erasable_from_parts(
        &one,
        &[universe(0, true), universe(3, false)]
    ));
}
