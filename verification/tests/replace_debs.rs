use std::rc::Rc;

use zoc::ast::{App, Deb, DebNode, Expr, For, Fun, Universe, UniverseLevel, UniverseNode};
use zoc::minimal_ast::MinimalAst;
use zoc::replace_debs::{DebDownshiftSubstituter, DebUpshifter};

type E = Expr<MinimalAst>;

fn deb(n: usize) -> E {
    Expr::Deb(Rc::new(DebNode { deb: Deb(n), aux_data: () }))
}

fn universe(level: usize) -> E {
    Expr::Universe(Rc::new(UniverseNode {
        universe: Universe { level: UniverseLevel(level), erasable: false },
        aux_data: (),
    }))
}

fn app(callee: E, args: Vec<E>) -> E {
    Expr::App(Rc::new(App { callee, args: Rc::new(args), aux_data: () }))
}

fn for_(param_types: Vec<E>, return_type: E) -> E {
    Expr::For(Rc::new(For { param_types: Rc::new(param_types), return_type, aux_data: () }))
}

fn fun(param_types: Vec<E>, return_type: E, return_val: E) -> E {
    Expr::Fun(Rc::new(Fun { decreasing_index: None, param_types: Rc::new(param_types), return_type, return_val, aux_data: () }))
}

/// A compact rendering of a tree, for comparisons.
fn show(e: &E) -> String {
    match e {
        Expr::Deb(d) => format!("{}", d.deb.0),
        Expr::Universe(u) => format!("Set{}", u.universe.level.0),
        Expr::App(a) => format!("({} {})", show(&a.callee), show_all(&a.args)),
        Expr::For(f) => format!("(for ({}) {})", show_all(&f.param_types), show(&f.return_type)),
        Expr::Fun(f) => format!(
            "(fun ({}) {} {})",
            show_all(&f.param_types),
            show(&f.return_type),
            show(&f.return_val)
        ),
        _ => "?".to_string(),
    }
}

fn show_all(es: &[E]) -> String {
    es.iter().map(show).collect::<Vec<_>>().join(" ")
}

#[test]
fn upshift_moves_free_debs_only() {
    let upshifter = DebUpshifter(2);
    assert_eq!("3", show(&upshifter.replace_debs(&deb(1), 1)));
    assert_eq!("0", show(&upshifter.replace_debs(&deb(0), 1)));
    assert_eq!("(4 0 5)", show(&upshifter.replace_debs(&app(deb(2), vec![deb(0), deb(3)]), 1)));
}

#[test]
fn upshift_respects_binders() {
    // (for (0 1) 2): param i sees i more debs, the return type sees both params.
    let e = for_(vec![deb(0), deb(1)], deb(2));
    let upshifted = DebUpshifter(10).replace_debs(&e, 0);
    assert_eq!("(for (10 11) 12)", show(&upshifted));
    let e = for_(vec![deb(0), deb(0)], deb(1));
    assert_eq!("(for (10 0) 1)", show(&DebUpshifter(10).replace_debs(&e, 0)));
}

#[test]
fn upshift_under_a_fun_skips_params_and_the_fun_itself() {
    // (fun (0) 1 (0 1 2)): in the return value, 0 is the fun, 1 its param, 2 is free.
    let e = fun(vec![deb(0)], deb(1), app(deb(0), vec![deb(1), deb(2)]));
    assert_eq!("(fun (3) 4 (0 1 5))", show(&DebUpshifter(3).replace_debs(&e, 0)));
}

#[test]
fn upshift_of_a_single_deb_node() {
    let node = Rc::new(DebNode { deb: Deb(4), aux_data: () });
    assert_eq!("7", show(&DebUpshifter(3).replace_deb(&node, 2)));
    assert_eq!("4", show(&DebUpshifter(3).replace_deb(&node, 5)));
}

#[test]
fn substitution_replaces_innermost_debs_from_the_end() {
    let new_exprs = vec![universe(7), deb(5)];
    let substituter = DebDownshiftSubstituter { new_exprs: &new_exprs };
    assert_eq!("5", show(&substituter.replace_debs(&deb(0), 0)));
    assert_eq!("Set7", show(&substituter.replace_debs(&deb(1), 0)));
    assert_eq!("0", show(&substituter.replace_debs(&deb(2), 0)));
    assert_eq!("3", show(&substituter.replace_debs(&deb(5), 0)));
}

#[test]
fn substitution_under_binders_upshifts_the_new_expressions() {
    let new_exprs = vec![deb(5)];
    let substituter = DebDownshiftSubstituter { new_exprs: &new_exprs };
    // (for (Set0) 1): deb 1 in the return type is the free deb 0.
    let e = for_(vec![universe(0)], deb(1));
    assert_eq!("(for (Set0) 6)", show(&substituter.replace_debs(&e, 0)));
    // With cutoff 2, deb 2 is the first free deb and deb 0 stays bound.
    assert_eq!("7", show(&substituter.replace_debs(&deb(2), 2)));
    assert_eq!("0", show(&substituter.replace_debs(&deb(0), 2)));
    assert_eq!("2", show(&substituter.replace_debs(&deb(3), 2)));
}

#[test]
fn lists_with_constant_and_increasing_cutoffs() {
    let es = vec![deb(0), deb(1), deb(2)];
    let constant = DebUpshifter(1).replace_debs_with_constant_cutoff(&es, 1);
    assert_eq!("0 2 3", show_all(&constant));
    let increasing = DebUpshifter(1).replace_debs_with_increasing_cutoff(&es, 1);
    assert_eq!("0 1 2", show_all(&increasing));

    let new_exprs = vec![universe(3)];
    let substituter = DebDownshiftSubstituter { new_exprs: &new_exprs };
    assert_eq!("Set3 0 1", show_all(&substituter.replace_debs_with_constant_cutoff(&es, 0)));
    assert_eq!("Set3 Set3 Set3", show_all(&substituter.replace_debs_with_increasing_cutoff(&es, 0)));
}

#[test]
fn upshift_by_zero_changes_nothing() {
    let e = fun(vec![deb(3), deb(0)], app(deb(4), vec![deb(1)]), deb(9));
    assert_eq!(show(&e), show(&DebUpshifter(0).replace_debs(&e, 0)));
    assert_eq!(show(&e), show(&DebUpshifter(0).replace_debs(&e, 3)));
}

#[test]
fn substitution_undoes_upshift() {
    let e = for_(vec![deb(0), deb(3)], app(deb(2), vec![deb(7)]));
    let new_exprs = vec![universe(1), universe(2), deb(9)];
    let upshifted = DebUpshifter(new_exprs.len()).replace_debs(&e, 1);
    let substituter = DebDownshiftSubstituter { new_exprs: &new_exprs };
    let back = substituter.replace_debs(&upshifted, 1);
    assert_eq!(show(&e), show(&back));
}

#[test]
fn upshifts_compose() {
    let e = for_(vec![deb(0), deb(3)], app(deb(2), vec![deb(7)]));
    let twice = DebUpshifter(3).replace_debs(&DebUpshifter(2).replace_debs(&e, 1), 1);
    let once = DebUpshifter(5).replace_debs(&e, 1);
    assert_eq!(show(&once), show(&twice));
}
