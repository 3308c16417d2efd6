use std::rc::Rc;

use zoc::ast::{
    App, Deb, DebNode, Expr, Fun, Ind, Match, MatchCase, StringValue, Universe, UniverseLevel, UniverseNode, Vcon,
    VconDef,
};
use zoc::minimal_ast::MinimalAst;
use zoc::remove_aux_data::{AuxDataRemover, SpanRemover};
use zoc::replace_debs::DebUpshifter;
use zoc::spanned_ast::{FunSpans, IndSpans, MatchCaseSpans, MatchSpans, SpannedAst, VconDefSpans, VconSpans};
use zoc::token::{ByteIndex, Span};
use zoc::type_error::TypeError;

type S = Expr<SpannedAst>;
type M = Expr<MinimalAst>;

fn sp(a: usize, b: usize) -> Span {
    (ByteIndex(a), ByteIndex(b))
}

fn deb(n: usize, at: usize) -> S {
    Expr::Deb(Rc::new(DebNode { deb: Deb(n), aux_data: sp(at, at + 1) }))
}

fn universe(level: usize, at: usize) -> S {
    Expr::Universe(Rc::new(UniverseNode {
        universe: Universe { level: UniverseLevel(level), erasable: true },
        aux_data: sp(at, at + 5),
    }))
}

fn spanned_ind() -> Rc<Ind<SpannedAst>> {
    Rc::new(Ind {
        name: Rc::new(StringValue("Nat".to_string())),
        universe: Universe { level: UniverseLevel(0), erasable: false },
        index_types: Rc::new(vec![]),
        vcon_defs: Rc::new(vec![
            VconDef {
                param_types: Rc::new(vec![]),
                index_args: Rc::new(vec![]),
                aux_data: VconDefSpans { span: sp(20, 27), param_types_span: sp(21, 23), index_args_span: sp(24, 26) },
            },
            VconDef {
                param_types: Rc::new(vec![deb(0, 30)]),
                index_args: Rc::new(vec![]),
                aux_data: VconDefSpans { span: sp(28, 36), param_types_span: sp(29, 32), index_args_span: sp(33, 35) },
            },
        ]),
        aux_data: IndSpans {
            span: sp(0, 40),
            universe_span: sp(5, 9),
            name_span: sp(10, 15),
            index_types_span: sp(16, 18),
            vcon_defs_span: sp(19, 39),
        },
    })
}

/// A compact rendering of a minimal tree.
fn show(e: &M) -> String {
    match e {
        Expr::Deb(d) => format!("{}", d.deb.0),
        Expr::Universe(u) => format!("Type{}{}", u.universe.level.0, if u.universe.erasable { "e" } else { "" }),
        Expr::Ind(i) => format!(
            "(ind {} {} ({}) ({}))",
            i.universe.level.0,
            i.name.0,
            show_all(&i.index_types),
            i.vcon_defs
                .iter()
                .map(|d| format!("(({}) ({}))", show_all(&d.param_types), show_all(&d.index_args)))
                .collect::<Vec<_>>()
                .join(" ")
        ),
        Expr::Vcon(v) => format!("(vcon {} {})", show(&Expr::Ind(Rc::clone(&v.ind))), v.vcon_index),
        Expr::Match(m) => format!(
            "(match {} {} {} ({}))",
            show(&m.matchee),
            m.return_type_arity,
            show(&m.return_type),
            m.cases.iter().map(|c| format!("({} {})", c.arity, show(&c.return_val))).collect::<Vec<_>>().join(" ")
        ),
        Expr::Fun(f) => format!(
            "(fun {:?} ({}) {} {})",
            f.decreasing_index,
            show_all(&f.param_types),
            show(&f.return_type),
            show(&f.return_val)
        ),
        Expr::App(a) => format!("({} {})", show(&a.callee), show_all(&a.args)),
        Expr::For(f) => format!("(for ({}) {})", show_all(&f.param_types), show(&f.return_type)),
    }
}

fn show_all(es: &[M]) -> String {
    es.iter().map(show).collect::<Vec<_>>().join(" ")
}

fn spanned_tree() -> S {
    let vcon = Expr::Vcon(Rc::new(Vcon {
        ind: spanned_ind(),
        vcon_index: 1,
        aux_data: VconSpans { span: sp(0, 50), vcon_index_span: sp(45, 46) },
    }));
    let case = MatchCase {
        arity: 1,
        return_val: Expr::App(Rc::new(App { callee: vcon, args: Rc::new(vec![deb(0, 60)]), aux_data: sp(55, 65) })),
        aux_data: MatchCaseSpans { span: sp(54, 66), arity_span: sp(54, 55) },
    };
    let body = Expr::Match(Rc::new(Match {
        matchee: deb(1, 52),
        return_type_arity: 1,
        return_type: universe(0, 53),
        cases: Rc::new(vec![case]),
        aux_data: MatchSpans { span: sp(51, 67), return_type_arity_span: sp(52, 53), cases_span: sp(53, 66) },
    }));
    Expr::Fun(Rc::new(Fun {
        decreasing_index: Some(0),
        param_types: Rc::new(vec![Expr::Ind(spanned_ind())]),
        return_type: universe(2, 48),
        return_val: body,
        aux_data: FunSpans { span: sp(0, 70), decreasing_index_span: sp(5, 6), param_types_span: sp(7, 40) },
    }))
}

const EXPECTED: &str = "(fun Some(0) ((ind 0 Nat () ((() ()) ((0) ())))) Type2e (match 1 1 Type0e ((1 ((vcon (ind 0 Nat () ((() ()) ((0) ()))) 1) 0)))))";

#[test]
fn span_remover_keeps_the_tree() {
    let minimal = SpanRemover::new().convert(spanned_tree());
    assert_eq!(EXPECTED, show(&minimal));
}

#[test]
fn aux_data_remover_keeps_the_tree() {
    let mut remover = AuxDataRemover::new();
    let minimal = remover.convert(spanned_tree());
    assert_eq!(EXPECTED, show(&minimal));
}

#[test]
fn removing_aux_data_twice_gives_the_same_tree() {
    let mut remover = AuxDataRemover::new();
    let once = remover.convert(spanned_tree());
    let twice = remover.convert(once.copy());
    assert_eq!(show(&once), show(&twice));
}

#[test]
fn converting_parts() {
    let mut remover = SpanRemover::new();
    let ind = remover.convert_ind(spanned_ind());
    assert_eq!("(ind 0 Nat () ((() ()) ((0) ())))", show(&Expr::Ind(ind)));
    let exprs = remover.convert_expressions(&[deb(3, 0), universe(1, 2)]);
    assert_eq!("3 Type1e", show_all(&exprs));
    let defs = remover.convert_vcon_defs(Rc::clone(&spanned_ind().vcon_defs));
    assert_eq!(2, defs.len());
    assert_eq!("0", show_all(&defs[1].param_types));
}

#[test]
fn converting_a_type_error() {
    let err: TypeError<SpannedAst> = TypeError::InvalidDeb {
        deb: DebNode { deb: Deb(4), aux_data: sp(1, 2) },
        tcon_len: 3,
    };
    let mut remover = AuxDataRemover::new();
    match err.remove_ast_aux_data(&mut remover) {
        TypeError::InvalidDeb { deb, tcon_len } => {
            assert_eq!(Deb(4), deb.deb);
            assert_eq!(3, tcon_len);
        }
        _ => panic!("unexpected variant"),
    }

    let err: TypeError<SpannedAst> = TypeError::UnexpectedNonTypeExpression {
        expr: spanned_tree(),
        type_: Expr::Deb(Rc::new(DebNode { deb: Deb(0), aux_data: () })),
    };
    match err.remove_ast_aux_data(&mut remover) {
        TypeError::UnexpectedNonTypeExpression { expr, type_ } => {
            assert_eq!(EXPECTED, show(&expr));
            assert_eq!("0", show(&type_));
        }
        _ => panic!("unexpected variant"),
    }
}

#[test]
fn removing_aux_data_commutes_with_upshifting() {
    let mut remover = AuxDataRemover::new();
    let upshifted_then_stripped = remover.convert(DebUpshifter(3).replace_debs(&spanned_tree(), 0));
    let stripped_then_upshifted = DebUpshifter(3).replace_debs(&remover.convert(spanned_tree()), 0);
    assert_eq!(show(&upshifted_then_stripped), show(&stripped_then_upshifted));
    // An expression with a free deb.
    let open = Expr::App(Rc::new(App { callee: deb(4, 0), args: Rc::new(vec![deb(0, 2)]), aux_data: sp(0, 3) }));
    let open2 = Expr::App(Rc::new(App { callee: deb(4, 0), args: Rc::new(vec![deb(0, 2)]), aux_data: sp(0, 3) }));
    let a = remover.convert(DebUpshifter(2).replace_debs(&open, 1));
    let b = DebUpshifter(2).replace_debs(&remover.convert(open2), 1);
    assert_eq!("(6 0)", show(&a));
    assert_eq!(show(&a), show(&b));
}

#[test]
fn converting_a_recursion_error_strips_its_fun() {
    let fun = match spanned_tree() {
        Expr::Fun(f) => f,
        _ => panic!("expected a fun"),
    };
    let err: TypeError<SpannedAst> = TypeError::DecreasingArgIndexTooBig { fun: fun.copy() };
    let mut remover = AuxDataRemover::new();
    match err.remove_ast_aux_data(&mut remover) {
        TypeError::DecreasingArgIndexTooBig { fun } => {
            assert_eq!(EXPECTED, show(&Expr::Fun(Rc::new(fun))));
        }
        _ => panic!("unexpected variant"),
    }
}

#[test]
fn spans_of_spanned_nodes() {
    let tree = spanned_tree();
    assert_eq!(sp(0, 70), tree.span());
    let ind = spanned_ind();
    assert_eq!(sp(0, 40), ind.span());
    assert_eq!(sp(28, 36), ind.vcon_defs[1].span());
    assert_eq!(sp(3, 4), deb(0, 3).span());
    assert_eq!(sp(9, 14), universe(1, 9).span());
    match &tree {
        Expr::Fun(f) => {
            assert_eq!(sp(0, 70), f.span());
            match &f.return_val {
                Expr::Match(m) => {
                    assert_eq!(sp(51, 67), m.span());
                    assert_eq!(sp(54, 66), m.cases[0].span());
                    match &m.cases[0].return_val {
                        Expr::App(a) => {
                            assert_eq!(sp(55, 65), a.span());
                            match &a.callee {
                                Expr::Vcon(v) => assert_eq!(sp(0, 50), v.span()),
                                _ => panic!("expected a vcon"),
                            }
                        }
                        _ => panic!("expected an application"),
                    }
                }
                _ => panic!("expected a match"),
            }
        }
        _ => panic!("expected a fun"),
    }
}
