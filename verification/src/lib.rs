//! Zo: a small dependently typed language with inductive types.
//!
//! This crate holds Zo's syntax trees and the parts of its typechecker that
//! work on trees alone: De Bruijn index replacement, removal of auxiliary data,
//! the check that recursive functions recurse on strict substructures, the
//! positivity condition on inductive types, and the typechecker's shape checks.

pub mod ast;
pub mod minimal_ast;
pub mod normalized_ast;
pub mod spanned_ast;
pub mod token;
pub mod node_path;

pub mod replace_debs;
pub mod replace_debs_laws;
pub mod remove_aux_data;

pub mod type_error;
pub mod typechecker;
pub mod check_fun_recursion;
pub mod positivity;

pub mod test_utils;
