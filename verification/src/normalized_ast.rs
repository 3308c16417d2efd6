//! The AST family of expressions in normal form: each node carries a marker
//! that only the evaluator hands out.

use vstd::prelude::*;
use crate::ast::{self, AstFamily, AuxData};

verus! {

/// Marks a node as being in normal form.
#[derive(Debug, Clone, Copy, PartialEq, Eq, Structural)]
pub struct NormalFormMarker;

impl AuxData for NormalFormMarker {
    fn duplicate(&self) -> (res: Self) {
        *self
    }
}

#[derive(Debug, Clone, Copy, PartialEq, Eq)]
pub struct NormalizedAst;

impl AstFamily for NormalizedAst {
    type IndAux = NormalFormMarker;
    type VconAux = NormalFormMarker;
    type MatchAux = NormalFormMarker;
    type FunAux = NormalFormMarker;
    type AppAux = NormalFormMarker;
    type ForAux = NormalFormMarker;
    type DebAux = NormalFormMarker;
    type UniverseAux = NormalFormMarker;
    type VconDefAux = NormalFormMarker;
    type MatchCaseAux = NormalFormMarker;
}

pub type Expr = ast::Expr<NormalizedAst>;
pub type Ind = ast::Ind<NormalizedAst>;
pub type VconDef = ast::VconDef<NormalizedAst>;
pub type Vcon = ast::Vcon<NormalizedAst>;
pub type Match = ast::Match<NormalizedAst>;
pub type MatchCase = ast::MatchCase<NormalizedAst>;
pub type Fun = ast::Fun<NormalizedAst>;
pub type App = ast::App<NormalizedAst>;
pub type For = ast::For<NormalizedAst>;
pub type DebNode = ast::DebNode<NormalizedAst>;
pub type UniverseNode = ast::UniverseNode<NormalizedAst>;

} // verus!
