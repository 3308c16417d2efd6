# zoc

The syntax trees of Zo, a small dependently typed language with inductive
types, and the parts of its typechecker that work on trees alone, written in
Verus with their contracts proved.

- `ast`: the tree, generic over the auxiliary data each node carries, with a
  mathematical view (`ExprView`) and a size measure. `minimal_ast`,
  `spanned_ast` and `normalized_ast` are its families.
- `replace_debs`: upshifting and substituting De Bruijn indices;
  `replace_debs_laws` proves how the two interact.
- `remove_aux_data`: turning any tree into a minimal one, and the laws that
  this commutes with deb replacement and leaves minimal trees alone.
- `check_fun_recursion`: the check that a recursive `fun` only calls itself on
  a strict substructure of its decreasing parameter.
- `positivity`: the strict positivity and absence checks on constructor types.
- `typechecker`, `type_error`: the typechecker's shape checks and its errors.
- `token`, `node_path`, `test_utils`: source positions, paths into trees, and
  textual substitution for building test sources.

Tests are under `tests/`.
