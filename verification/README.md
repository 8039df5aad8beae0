# erg_compiler (verified core)

A verified core of the middle end of the Erg compiler, written in Verus.
Every function of `src/` carries a `requires`/`ensures` contract that Verus
proves; the few calls into `std` and `erg_common` that are not proved stand
behind small trusted wrappers, each documented where it is declared.

## Layout

- `src/hir.rs` — the high-level intermediate representation (HIR): the
  typed syntax tree, with what the passes read of each node kept as plain
  values (names, tokens, visibility, a `TypeInfo` per typed node), and its
  queries and constructors (argument lookup, definition kinds, accessor
  display, complexity for type inference, ...).
- `src/ty.rs` — `TypeInfo`, what the passes read of a type: its printed form
  and whether it is a procedure, mutable, a reference, callable.
- `src/token.rs` — token kinds and tokens.
- `src/effectcheck.rs` — the side-effect checker, specified by
  `module_errs`, with the laws that all its diagnostics are side-effect
  errors and that a procedure call inside a function is always reported.
- `src/desugar_hir.rs` — moving static class members out of class bodies;
  idempotence is proved for classes whose members are definitions or their
  own desugaring.
- `src/context.rs` — scopes: context kinds, control-flow calls, the chain of
  enclosing scopes, scope construction with parameters, and the laws of
  opening and closing scopes.
- `src/error.rs`, `src/lower_error.rs` — diagnostics with their exact
  English messages, operator-name helpers, and the laws of joining outcomes.
- `src/style.rs` — highlighting of words in messages through `erg_common`.
- `src/register.rs` — registering parameters in a scope (with the
  reassignment rule) and looking registered names up; module-name validity.
- `src/instantiate_spec.rs`, `src/strutil.rs` — operator and parameter
  kinds, string helpers.

## What is not here

Type inference is left out: unification of types, type parameters and
predicates, instantiation of type specifications and constant expressions,
and the registration and declaration of generated types. They work on the
compiler's type representation (types, type parameters, predicates, values,
free type variables), which this crate does not model; a type is seen only
through `TypeInfo`. Where a verified function needs what inference computes
(the type of a parameter, say), it takes that result as an argument.
Scopes hold their parameters but not their locals, declarations, methods or
type-variable cache. Diagnostics carry their error number and location as
given to their constructors, but not the compiler input they came from;
the HIR here carries no source positions, so the checkers raise at an
unknown location.

Tests live in `tests/`.
