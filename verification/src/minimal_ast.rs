//! The AST family without auxiliary data.

use vstd::prelude::*;
use crate::ast::{self, AstFamily};

verus! {

#[derive(Debug, Clone, Copy, PartialEq, Eq)]
pub struct MinimalAst;

impl AstFamily for MinimalAst {
    type IndAux = ();
    type VconAux = ();
    type MatchAux = ();
    type FunAux = ();
    type AppAux = ();
    type ForAux = ();
    type DebAux = ();
    type UniverseAux = ();
    type VconDefAux = ();
    type MatchCaseAux = ();
}

/// The same family under the name the older parts of the code use.
pub type UnitAuxData = MinimalAst;

pub type Expr = ast::Expr<MinimalAst>;
pub type Ind = ast::Ind<MinimalAst>;
pub type VconDef = ast::VconDef<MinimalAst>;
pub type Vcon = ast::Vcon<MinimalAst>;
pub type Match = ast::Match<MinimalAst>;
pub type MatchCase = ast::MatchCase<MinimalAst>;
pub type Fun = ast::Fun<MinimalAst>;
pub type App = ast::App<MinimalAst>;
pub type For = ast::For<MinimalAst>;
pub type DebNode = ast::DebNode<MinimalAst>;
pub type UniverseNode = ast::UniverseNode<MinimalAst>;

} // verus!
