//! The AST family that records where each node stands in the source.

use vstd::prelude::*;
use crate::ast::{self, AstFamily, AuxData};
use crate::token::Span;

verus! {

#[derive(Debug, Clone, Copy, PartialEq, Eq)]
pub struct SpannedAst;

impl AstFamily for SpannedAst {
    type IndAux = IndSpans;
    type VconAux = VconSpans;
    type MatchAux = MatchSpans;
    type FunAux = FunSpans;
    type AppAux = Span;
    type ForAux = ForSpans;
    type DebAux = Span;
    type UniverseAux = Span;
    type VconDefAux = VconDefSpans;
    type MatchCaseAux = MatchCaseSpans;
}

/// The same family under the name the older parts of the code use.
pub type SpanAuxData = SpannedAst;

pub type Expr = ast::Expr<SpannedAst>;
pub type Ind = ast::Ind<SpannedAst>;
pub type VconDef = ast::VconDef<SpannedAst>;
pub type Vcon = ast::Vcon<SpannedAst>;
pub type Match = ast::Match<SpannedAst>;
pub type MatchCase = ast::MatchCase<SpannedAst>;
pub type Fun = ast::Fun<SpannedAst>;
pub type App = ast::App<SpannedAst>;
pub type For = ast::For<SpannedAst>;
pub type DebNode = ast::DebNode<SpannedAst>;
pub type UniverseNode = ast::UniverseNode<SpannedAst>;

#[derive(Debug, Clone, Copy, PartialEq, Eq)]
pub struct IndSpans {
    pub span: Span,
    pub universe_span: Span,
    pub name_span: Span,
    pub index_types_span: Span,
    pub vcon_defs_span: Span,
}

#[derive(Debug, Clone, Copy, PartialEq, Eq)]
pub struct VconSpans {
    pub span: Span,
    pub vcon_index_span: Span,
}

#[derive(Debug, Clone, Copy, PartialEq, Eq)]
pub struct VconDefSpans {
    pub span: Span,
    pub param_types_span: Span,
    pub index_args_span: Span,
}

#[derive(Debug, Clone, Copy, PartialEq, Eq)]
pub struct MatchSpans {
    pub span: Span,
    pub return_type_arity_span: Span,
    pub cases_span: Span,
}

#[derive(Debug, Clone, Copy, PartialEq, Eq)]
pub struct MatchCaseSpans {
    pub span: Span,
    pub arity_span: Span,
}

#[derive(Debug, Clone, Copy, PartialEq, Eq)]
pub struct FunSpans {
    pub span: Span,
    pub decreasing_index_span: Span,
    pub param_types_span: Span,
}

#[derive(Debug, Clone, Copy, PartialEq, Eq)]
pub struct ForSpans {
    pub span: Span,
    pub param_types_span: Span,
}

impl AuxData for Span {
    fn duplicate(&self) -> (res: Self) {
        (self.0, self.1)
    }
}

impl AuxData for IndSpans {
    fn duplicate(&self) -> (res: Self) {
        IndSpans {
            span: self.span.duplicate(),
            universe_span: self.universe_span.duplicate(),
            name_span: self.name_span.duplicate(),
            index_types_span: self.index_types_span.duplicate(),
            vcon_defs_span: self.vcon_defs_span.duplicate(),
        }
    }
}

impl AuxData for VconSpans {
    fn duplicate(&self) -> (res: Self) {
        VconSpans {
            span: self.span.duplicate(),
            vcon_index_span: self.vcon_index_span.duplicate(),
        }
    }
}

impl AuxData for VconDefSpans {
    fn duplicate(&self) -> (res: Self) {
        VconDefSpans {
            span: self.span.duplicate(),
            param_types_span: self.param_types_span.duplicate(),
            index_args_span: self.index_args_span.duplicate(),
        }
    }
}

impl AuxData for MatchSpans {
    fn duplicate(&self) -> (res: Self) {
        MatchSpans {
            span: self.span.duplicate(),
            return_type_arity_span: self.return_type_arity_span.duplicate(),
            cases_span: self.cases_span.duplicate(),
        }
    }
}

impl AuxData for MatchCaseSpans {
    fn duplicate(&self) -> (res: Self) {
        MatchCaseSpans {
            span: self.span.duplicate(),
            arity_span: self.arity_span.duplicate(),
        }
    }
}

impl AuxData for FunSpans {
    fn duplicate(&self) -> (res: Self) {
        FunSpans {
            span: self.span.duplicate(),
            decreasing_index_span: self.decreasing_index_span.duplicate(),
            param_types_span: self.param_types_span.duplicate(),
        }
    }
}

impl AuxData for ForSpans {
    fn duplicate(&self) -> (res: Self) {
        ForSpans {
            span: self.span.duplicate(),
            param_types_span: self.param_types_span.duplicate(),
        }
    }
}

impl ast::Expr<SpannedAst> {
    pub open spec fn spec_span(&self) -> Span {
        match *self {
            ast::Expr::Ind(e) => e.aux_data.span,
            ast::Expr::Vcon(e) => e.aux_data.span,
            ast::Expr::Match(e) => e.aux_data.span,
            ast::Expr::Fun(e) => e.aux_data.span,
            ast::Expr::App(e) => e.aux_data,
            ast::Expr::For(e) => e.aux_data.span,
            ast::Expr::Deb(e) => e.aux_data,
            ast::Expr::Universe(e) => e.aux_data,
        }
    }

    /// The span of the whole expression.
    pub fn span(&self) -> (res: Span)
        ensures
            res == self.spec_span(),
    {
        match self {
            ast::Expr::Ind(e) => e.aux_data.span.duplicate(),
            ast::Expr::Vcon(e) => e.aux_data.span.duplicate(),
            ast::Expr::Match(e) => e.aux_data.span.duplicate(),
            ast::Expr::Fun(e) => e.aux_data.span.duplicate(),
            ast::Expr::App(e) => e.aux_data.duplicate(),
            ast::Expr::For(e) => e.aux_data.span.duplicate(),
            ast::Expr::Deb(e) => e.aux_data.duplicate(),
            ast::Expr::Universe(e) => e.aux_data.duplicate(),
        }
    }
}

impl ast::Ind<SpannedAst> {
    pub fn span(&self) -> (res: Span)
        ensures
            res == self.aux_data.span,
    {
        self.aux_data.span.duplicate()
    }
}

impl ast::VconDef<SpannedAst> {
    pub fn span(&self) -> (res: Span)
        ensures
            res == self.aux_data.span,
    {
        self.aux_data.span.duplicate()
    }
}

impl ast::Vcon<SpannedAst> {
    pub fn span(&self) -> (res: Span)
        ensures
            res == self.aux_data.span,
    {
        self.aux_data.span.duplicate()
    }
}

impl ast::Match<SpannedAst> {
    pub fn span(&self) -> (res: Span)
        ensures
            res == self.aux_data.span,
    {
        self.aux_data.span.duplicate()
    }
}

impl ast::MatchCase<SpannedAst> {
    pub fn span(&self) -> (res: Span)
        ensures
            res == self.aux_data.span,
    {
        self.aux_data.span.duplicate()
    }
}

impl ast::Fun<SpannedAst> {
    pub fn span(&self) -> (res: Span)
        ensures
            res == self.aux_data.span,
    {
        self.aux_data.span.duplicate()
    }
}

impl ast::App<SpannedAst> {
    pub fn span(&self) -> (res: Span)
        ensures
            res == self.aux_data,
    {
        self.aux_data.duplicate()
    }
}

impl ast::For<SpannedAst> {
    pub fn span(&self) -> (res: Span)
        ensures
            res == self.aux_data.span,
    {
        self.aux_data.span.duplicate()
    }
}

impl ast::DebNode<SpannedAst> {
    pub fn span(&self) -> (res: Span)
        ensures
            res == self.aux_data,
    {
        self.aux_data.duplicate()
    }
}

impl ast::UniverseNode<SpannedAst> {
    pub fn span(&self) -> (res: Span)
        ensures
            res == self.aux_data,
    {
        self.aux_data.duplicate()
    }
}

} // verus!
