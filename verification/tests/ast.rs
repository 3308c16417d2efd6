use std::rc::Rc;

use zoc::ast::{App, Deb, DebNode, Expr, For, Universe, UniverseLevel, UniverseNode};
use zoc::minimal_ast::MinimalAst;

type E = Expr<MinimalAst>;

fn deb(n: usize) -> E {
    Expr::Deb(Rc::new(DebNode { deb: Deb(n), aux_data: () }))
}

fn set0() -> E {
    Expr::Universe(Rc::new(UniverseNode {
        universe: Universe { level: UniverseLevel(0), erasable: false },
        aux_data: (),
    }))
}

#[test]
fn try_into_gives_the_node_of_the_right_kind() {
    match deb(3).try_into_deb() {
        Ok(d) => assert_eq!(Deb(3), d.deb),
        Err(_) => panic!("expected a deb"),
    }
    match set0().try_into_universe() {
        Ok(u) => assert_eq!(UniverseLevel(0), u.universe.level),
        Err(_) => panic!("expected a universe"),
    }
}

#[test]
fn try_into_gives_back_the_expression_of_another_kind() {
    assert!(matches!(deb(3).try_into_universe(), Err(Expr::Deb(_))));
    assert!(matches!(deb(3).try_into_ind(), Err(Expr::Deb(_))));
    assert!(matches!(deb(3).try_into_vcon(), Err(Expr::Deb(_))));
    assert!(matches!(deb(3).try_into_match(), Err(Expr::Deb(_))));
    assert!(matches!(deb(3).try_into_fun(), Err(Expr::Deb(_))));
    assert!(matches!(deb(3).try_into_app(), Err(Expr::Deb(_))));
    assert!(matches!(set0().try_into_for(), Err(Expr::Universe(_))));
    assert!(matches!(set0().try_into_deb(), Err(Expr::Universe(_))));
}

#[test]
fn nullary_app_collapses_to_its_callee() {
    let app = App { callee: deb(2), args: Rc::new(vec![]), aux_data: () };
    assert!(matches!(app.collapse_if_nullary(), Expr::Deb(_)));
    let app = App { callee: deb(2), args: Rc::new(vec![deb(0)]), aux_data: () };
    match app.collapse_if_nullary().try_into_app() {
        Ok(a) => assert_eq!(1, a.args.len()),
        Err(_) => panic!("expected an application"),
    }
}

#[test]
fn nullary_for_collapses_to_its_return_type() {
    let for_ = For { param_types: Rc::new(vec![]), return_type: set0(), aux_data: () };
    assert!(matches!(for_.collapse_if_nullary(), Expr::Universe(_)));
    let for_ = For { param_types: Rc::new(vec![set0(), deb(0)]), return_type: set0(), aux_data: () };
    match for_.collapse_if_nullary().try_into_for() {
        Ok(f) => assert_eq!(2, f.param_types.len()),
        Err(_) => panic!("expected a for"),
    }
}

#[test]
fn copy_keeps_the_node() {
    let e = deb(9);
    assert!(matches!(e.copy(), Expr::Deb(d) if d.deb == Deb(9)));
}
