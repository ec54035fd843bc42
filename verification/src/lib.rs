//! Compile-time rewriting of annotated function declarations.
//!
//! A function declaration may carry callback annotations. Each annotation
//! holds a single expression and a timing: it runs before the original
//! body, after it, or "around" it (which this tool deliberately sequences
//! exactly like a before-callback). The library classifies the annotations,
//! parses their argument expressions, strips the callback annotations from
//! the declaration while preserving every other attribute, and synthesizes
//! a replacement body that runs the before-expressions in order, captures
//! the original body's value under an internal binding, runs the
//! after-expressions (which may read the captured value), and finally
//! yields the captured value.
//!
//! The declaration itself is modelled as plain source text: an ordered
//! attribute list (name, argument tokens, verbatim text), a signature, and
//! a body block. The host-language boundary that turns a compiler's parse
//! tree into this model and back lives outside this crate.

pub mod callback;
pub mod codegen;
pub mod decl;
pub mod fn_with_callbacks;
pub mod generate_fn;
pub mod semantics;
