use std::rc::Rc;

use zoc::ast::{
    App, Deb, DebNode, Expr, For, Fun, Ind, Match, MatchCase, StringValue, Universe, UniverseLevel, UniverseNode,
    Vcon, VconDef,
};
use zoc::minimal_ast::MinimalAst;
use zoc::node_path::{NodeEdge, NodePath};
use zoc::positivity::{
    AbsenceChecker, Context, IsRestrictedRecursiveIndEntry, PositivityChecker, RepeatVec, RestrictionStatusVec,
    StrictPositivityChecker, VconPositivityChecker,
};
use zoc::type_error::TypeError;
use zoc::typechecker::TypeChecker;

type E = Expr<MinimalAst>;

fn deb(n: usize) -> E {
    Expr::Deb(Rc::new(DebNode { deb: Deb(n), aux_data: () }))
}

fn set0() -> E {
    Expr::Universe(Rc::new(UniverseNode {
        universe: Universe { level: UniverseLevel(0), erasable: false },
        aux_data: (),
    }))
}

fn def(param_types: Vec<E>, index_args: Vec<E>) -> VconDef<MinimalAst> {
    VconDef { param_types: Rc::new(param_types), index_args: Rc::new(index_args), aux_data: () }
}

fn ind(index_types: Vec<E>, vcon_defs: Vec<VconDef<MinimalAst>>) -> Rc<Ind<MinimalAst>> {
    Rc::new(Ind {
        name: Rc::new(StringValue("T".to_string())),
        universe: Universe { level: UniverseLevel(0), erasable: false },
        index_types: Rc::new(index_types),
        vcon_defs: Rc::new(vcon_defs),
        aux_data: (),
    })
}

fn app(callee: E, args: Vec<E>) -> E {
    Expr::App(Rc::new(App { callee, args: Rc::new(args), aux_data: () }))
}

fn for_(param_types: Vec<E>, return_type: E) -> E {
    Expr::For(Rc::new(For { param_types: Rc::new(param_types), return_type, aux_data: () }))
}

fn fun(param_types: Vec<E>, return_type: E, return_val: E) -> E {
    Expr::Fun(Rc::new(Fun { decreasing_index: None, param_types: Rc::new(param_types), return_type, return_val, aux_data: () }))
}

fn match_(matchee: E, return_type_arity: usize, return_type: E, cases: Vec<(usize, E)>) -> E {
    let cases = cases
        .into_iter()
        .map(|(arity, return_val)| MatchCase { arity, return_val, aux_data: () })
        .collect();
    Expr::Match(Rc::new(Match { matchee, return_type_arity, return_type, cases: Rc::new(cases), aux_data: () }))
}

/// One restricted entry (the inductive type being defined) under `outer` unrestricted ones.
fn restricted_base(outer: usize) -> (RestrictionStatusVec, RestrictionStatusVec) {
    (RestrictionStatusVec::unrestricted(outer), RestrictionStatusVec::restricted_singleton())
}

fn strict(e: E, outer: usize) -> Result<(), Vec<NodeEdge>> {
    let mut typechecker = TypeChecker::new();
    let checker = PositivityChecker { typechecker: &mut typechecker };
    let mut strict = StrictPositivityChecker(checker);
    let (base, rec) = restricted_base(outer);
    let base = Context::Base(base);
    let context = base.collapsing_snoc(rec);
    strict.check(e, context, NodePath::Nil)
}

fn absent(e: E, outer: usize) -> Result<(), Vec<NodeEdge>> {
    let mut typechecker = TypeChecker::new();
    let checker = PositivityChecker { typechecker: &mut typechecker };
    let mut absence = AbsenceChecker(checker);
    let (base, rec) = restricted_base(outer);
    let base = Context::Base(base);
    let context = base.collapsing_snoc(rec);
    absence.check(e, context, NodePath::Nil)
}

#[test]
fn repeat_vec_has_one_value_throughout() {
    let v = RepeatVec { val: 'x', len: 3 };
    assert_eq!(3, v.len());
    assert!(!v.is_empty());
    assert_eq!(Some('x'), v.get_copied(0));
    assert_eq!(Some('x'), v.get_copied(2));
    assert_eq!(None, v.get_copied(3));
    assert!(RepeatVec { val: 'x', len: 0 }.is_empty());
}

#[test]
fn restriction_vecs() {
    let r = RestrictionStatusVec::restricted_singleton();
    assert_eq!(1, r.len());
    assert_eq!(Some(IsRestrictedRecursiveIndEntry(true)), r.get_copied(0));
    let u = RestrictionStatusVec::unrestricted(4);
    assert_eq!(4, u.len());
    assert_eq!(Some(IsRestrictedRecursiveIndEntry(false)), u.get_copied(3));
}

#[test]
fn collapsing_snoc_merges_runs_with_the_same_flag() {
    let base = Context::Base(RestrictionStatusVec::unrestricted(2));
    let merged = base.collapsing_snoc(RestrictionStatusVec::unrestricted(3));
    match merged {
        Context::Base(run) => assert_eq!(5, run.len()),
        _ => panic!("expected a single run"),
    }
    for d in 0..5 {
        assert_eq!(Some(IsRestrictedRecursiveIndEntry(false)), merged.get(Deb(d)));
    }
    assert_eq!(None, merged.get(Deb(5)));
}

#[test]
fn collapsing_snoc_with_an_empty_extension_changes_nothing() {
    let base = Context::Base(RestrictionStatusVec::restricted_singleton());
    let same = base.collapsing_snoc(RestrictionStatusVec::unrestricted(0));
    match same {
        Context::Base(run) => assert_eq!(1, run.len()),
        _ => panic!("expected the same context"),
    }
}

#[test]
fn collapsing_snoc_behaves_like_snoc() {
    let base = Context::Base(RestrictionStatusVec::unrestricted(2));
    let with_rec = base.collapsing_snoc(RestrictionStatusVec::restricted_singleton());
    let collapsed = with_rec.collapsing_snoc(RestrictionStatusVec::unrestricted(2));
    let plain = Context::Snoc(&with_rec, RestrictionStatusVec::unrestricted(2));
    for d in 0..6 {
        assert_eq!(plain.get(Deb(d)), collapsed.get(Deb(d)));
    }
    assert_eq!(Some(IsRestrictedRecursiveIndEntry(false)), collapsed.get(Deb(1)));
    assert_eq!(Some(IsRestrictedRecursiveIndEntry(true)), collapsed.get(Deb(2)));
    assert_eq!(Some(IsRestrictedRecursiveIndEntry(false)), collapsed.get(Deb(3)));
    assert_eq!(None, collapsed.get(Deb(5)));
}

#[test]
fn recursive_occurrence_as_a_param_type_is_strictly_positive() {
    assert_eq!(Ok(()), strict(deb(0), 0));
}

#[test]
fn recursive_occurrence_as_a_callee_is_strictly_positive() {
    assert_eq!(Ok(()), strict(app(deb(0), vec![set0()]), 1));
}

#[test]
fn recursive_occurrence_in_an_argument_is_rejected() {
    // (0 0): the argument mentions the type.
    assert_eq!(Err(vec![NodeEdge(1), NodeEdge(0)]), strict(app(deb(0), vec![deb(0)]), 0));
}

#[test]
fn recursive_occurrence_as_a_for_return_type_is_strictly_positive() {
    // (for (Set0) 1)
    assert_eq!(Ok(()), strict(for_(vec![set0()], deb(1)), 0));
}

#[test]
fn recursive_occurrence_left_of_an_arrow_is_rejected() {
    // (for (Set0 1) Set0): the second param type is the recursive occurrence (deb 0 seen under one param).
    assert_eq!(Err(vec![NodeEdge(0), NodeEdge(1)]), strict(for_(vec![set0(), deb(1)], set0()), 0));
}

#[test]
fn unrestricted_debs_may_appear_anywhere() {
    // (for (1) (2 2)): deb 1 outside the param, deb 2 inside, is an outer, unrestricted entry.
    assert_eq!(Ok(()), strict(for_(vec![deb(1)], app(deb(2), vec![deb(2)])), 1));
}

#[test]
fn recursive_occurrence_inside_a_fun_is_rejected() {
    // (fun nonrec (Set0) Set0 2): inside the fun, deb 2 is the recursive occurrence.
    assert_eq!(Err(vec![NodeEdge(2)]), strict(fun(vec![set0()], set0(), deb(2)), 0));
}

#[test]
fn nested_ind_with_positive_occurrence_is_accepted() {
    // (ind ... ((1) ())): a nested inductive type whose constructor takes the outer type.
    let nested = Expr::Ind(ind(vec![], vec![def(vec![deb(1)], vec![])]));
    assert_eq!(Ok(()), strict(app(nested, vec![]), 0));
}

#[test]
fn nested_ind_with_occurrence_in_index_type_is_rejected() {
    // (ind ... (0) ()): an index type mentions the outer type.
    let nested = Expr::Ind(ind(vec![deb(0)], vec![]));
    assert_eq!(Err(vec![NodeEdge(0), NodeEdge(0)]), strict(nested, 0));
}

#[test]
fn absence_reports_the_path_to_the_first_occurrence() {
    // (match Set0 1 Set0 ((0 Set0) (2 2))): in the second case deb 2 is the restricted entry.
    let e = match_(set0(), 1, set0(), vec![(0, set0()), (2, deb(2))]);
    assert_eq!(Err(vec![NodeEdge(2), NodeEdge(1)]), absent(e, 0));
}

#[test]
fn absence_looks_inside_vcons() {
    // (vcon (ind ... ((0) ())) 0): inside the vcon defs, deb 1 is the restricted entry.
    let nested = ind(vec![], vec![def(vec![deb(1)], vec![])]);
    let e = Expr::Vcon(Rc::new(Vcon { ind: nested, vcon_index: 0, aux_data: () }));
    assert_eq!(
        Err(vec![NodeEdge(0), NodeEdge(1), NodeEdge(0), NodeEdge(0), NodeEdge(0)]),
        absent(e, 0)
    );
}

#[test]
fn absence_accepts_expressions_without_the_type() {
    assert_eq!(Ok(()), absent(for_(vec![deb(1)], deb(0)), 1));
    assert_eq!(Ok(()), absent(set0(), 0));
}

#[test]
fn vcon_param_types_must_be_strictly_positive() {
    let mut typechecker = TypeChecker::new();
    let mut checker = PositivityChecker { typechecker: &mut typechecker };
    let mut vcon_checker: VconPositivityChecker = checker.vcon_positivity_checker();
    // A constructor with params `(T)` and `(for (T) T)`, where T is deb 0 outside the params.
    let param_types = vec![deb(0), for_(vec![deb(1)], deb(2))];
    let d = def(vec![deb(0), for_(vec![deb(1)], deb(2))], vec![]);
    let base = Context::Base(RestrictionStatusVec::restricted_singleton());
    let err = vcon_checker.check_vcon_def_param_types(&d, &param_types, base).unwrap_err();
    match err {
        TypeError::VconDefParamTypeFailsStrictPositivityCondition {
            param_type_index,
            path_from_param_type_to_problematic_deb,
            ..
        } => {
            assert_eq!(1, param_type_index);
            assert_eq!(vec![NodeEdge(0), NodeEdge(0)], path_from_param_type_to_problematic_deb);
        }
        _ => panic!("unexpected error"),
    }
}

#[test]
fn vcon_index_args_must_not_mention_the_type() {
    let mut typechecker = TypeChecker::new();
    let mut checker = PositivityChecker { typechecker: &mut typechecker };
    let mut vcon_checker = checker.vcon_positivity_checker();
    // One param; the index args see it as deb 0 and the type as deb 1.
    let index_args = vec![deb(0), app(deb(2), vec![deb(1)])];
    let d = def(vec![set0()], vec![deb(0), app(deb(2), vec![deb(1)])]);
    let base = Context::Base(RestrictionStatusVec::unrestricted(1));
    let base = base.collapsing_snoc(RestrictionStatusVec::restricted_singleton());
    let err = vcon_checker.assert_vcon_type_satisfies_positivity_condition(&d, &[set0()], &index_args, base).unwrap_err();
    match err {
        TypeError::RecursiveIndParamAppearsInVconDefIndexArg {
            index_arg_index,
            path_from_index_arg_to_problematic_deb,
            ..
        } => {
            assert_eq!(1, index_arg_index);
            assert_eq!(vec![NodeEdge(1), NodeEdge(0)], path_from_index_arg_to_problematic_deb);
        }
        _ => panic!("unexpected error"),
    }
}

#[test]
fn positive_vcon_type_is_accepted() {
    let mut typechecker = TypeChecker::new();
    let mut checker = typechecker.get_positivity_checker();
    let mut vcon_checker = checker.vcon_positivity_checker();
    // Params `(Set0)` and `(for (1) 2)`: the type only appears as a return type.
    let param_types = vec![set0(), for_(vec![deb(0)], deb(2))];
    let d = def(vec![set0(), for_(vec![deb(0)], deb(2))], vec![]);
    let base = Context::Base(RestrictionStatusVec::restricted_singleton());
    assert!(vcon_checker.assert_vcon_type_satisfies_positivity_condition(&d, &param_types, &[], base).is_ok());
}

#[test]
fn absence_check_of_a_vcon_starts_at_its_ind() {
    let mut typechecker = TypeChecker::new();
    let checker = PositivityChecker { typechecker: &mut typechecker };
    let mut absence = AbsenceChecker(checker);
    let nested = ind(vec![deb(0)], vec![]);
    let vcon = Vcon { ind: nested, vcon_index: 0, aux_data: () };
    let context = Context::Base(RestrictionStatusVec::restricted_singleton());
    assert_eq!(Err(vec![NodeEdge(0), NodeEdge(0), NodeEdge(0)]), absence.check_vcon(&vcon, context, NodePath::Nil));
}

#[test]
fn reported_paths_are_relative_to_where_checking_starts() {
    let e = match_(set0(), 1, set0(), vec![(0, set0()), (2, deb(2))]);
    let e2 = match_(set0(), 1, set0(), vec![(0, set0()), (2, deb(2))]);
    let mut typechecker = TypeChecker::new();
    let checker = PositivityChecker { typechecker: &mut typechecker };
    let mut absence = AbsenceChecker(checker);
    let context = Context::Base(RestrictionStatusVec::restricted_singleton());
    let root = NodePath::Nil;
    let a = NodePath::Snoc(&root, NodeEdge(7));
    let start = NodePath::Snoc(&a, NodeEdge(1));
    let from_root = absence.check(e, context, NodePath::Nil).unwrap_err();
    let from_start = absence.check(e2, context, start).unwrap_err();
    let mut expected = vec![NodeEdge(7), NodeEdge(1)];
    expected.extend(from_root);
    assert_eq!(expected, from_start);
}

#[test]
fn strict_positivity_paths_are_relative_to_where_checking_starts() {
    let mut typechecker = TypeChecker::new();
    let checker = PositivityChecker { typechecker: &mut typechecker };
    let mut strict = StrictPositivityChecker(checker);
    let context = Context::Base(RestrictionStatusVec::restricted_singleton());
    let root = NodePath::Nil;
    let start = NodePath::Snoc(&root, NodeEdge(4));
    let from_root = strict.check(for_(vec![set0(), deb(1)], set0()), context, NodePath::Nil).unwrap_err();
    let from_start = strict.check(for_(vec![set0(), deb(1)], set0()), context, start).unwrap_err();
    assert_eq!(vec![NodeEdge(0), NodeEdge(1)], from_root);
    assert_eq!(vec![NodeEdge(4), NodeEdge(0), NodeEdge(1)], from_start);
}

#[test]
fn collapsing_snoc_adds_a_node_only_when_the_flag_changes() {
    let base = Context::Base(RestrictionStatusVec::unrestricted(2));
    let with_rec = base.collapsing_snoc(RestrictionStatusVec::restricted_singleton());
    match with_rec {
        Context::Snoc(_, run) => {
            assert_eq!(IsRestrictedRecursiveIndEntry(true), run.val);
            assert_eq!(1, run.len());
        }
        _ => panic!("expected a new node"),
    }
    let lengthened = with_rec.collapsing_snoc(RestrictionStatusVec::restricted_singleton());
    match lengthened {
        Context::Snoc(Context::Base(first), run) => {
            assert_eq!(2, first.len());
            assert_eq!(IsRestrictedRecursiveIndEntry(true), run.val);
            assert_eq!(2, run.len());
        }
        _ => panic!("expected the last run to be lengthened"),
    }
}
