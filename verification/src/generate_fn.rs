//! Entry adapters, one per timing: each takes the invoking annotation's
//! raw argument text and the annotated declaration, runs extraction and
//! synthesis, and hands back the rewritten declaration's source text.

use vstd::prelude::*;

use crate::callback::{spec_callback, CallbackType};
use crate::codegen::{block_text, fn_text};
use crate::decl::{FnDecl, FnDeclView};
use crate::fn_with_callbacks::{callbacks_of, kept_attrs, FnWithCallbacks};

verus! {

/// The full rewrite of one declaration: the invocation's own descriptor
/// first, then the descriptors of the declaration's callback attributes
/// in source order, sequenced into a synthesized body; every other
/// attribute and the signature pass through verbatim.
pub open spec fn rewritten_fn_text(f: FnDeclView, cty: CallbackType, arg: Seq<char>) -> Seq<char> {
    fn_text(
        kept_attrs(f.attrs),
        f.sig,
        block_text(seq![spec_callback(cty, arg)] + callbacks_of(f.attrs), f.body),
    )
}

/// Malformed-argument isolation: an argument text that is not a single
/// expression yields a descriptor holding exactly the diagnostic
/// expression derived from its parse error — a compile-time error
/// localized to that argument — while the rewritten declaration still
/// carries the kept attributes, the untouched signature, and the other
/// descriptors exactly as a well-formed argument would; the failure
/// surfaces nowhere but inside that one descriptor's statement.
pub proof fn lemma_malformed_argument_isolation(
    f: FnDeclView,
    cty: CallbackType,
    arg: Seq<char>,
)
    requires
        crate::callback::expr_tokens_of(arg) is None,
    ensures
        spec_callback(cty, arg).fns == seq![crate::callback::compile_error_of(arg)],
        rewritten_fn_text(f, cty, arg) == crate::codegen::attrs_text(kept_attrs(f.attrs)) + f.sig
            + " "@ + block_text(seq![spec_callback(cty, arg)] + callbacks_of(f.attrs), f.body),
{
}

/// Rewrites a declaration whose invoking annotation has the before timing.
pub fn generate_before_fn(attr: &str, function: FnDecl) -> (r: String)
    ensures
        r@ == rewritten_fn_text(function@, CallbackType::Before, attr@),
{
    FnWithCallbacks::new(function, CallbackType::Before, attr).generate()
}

/// Rewrites a declaration whose invoking annotation has the after timing.
pub fn generate_after_fn(attr: &str, function: FnDecl) -> (r: String)
    ensures
        r@ == rewritten_fn_text(function@, CallbackType::After, attr@),
{
    FnWithCallbacks::new(function, CallbackType::After, attr).generate()
}

/// Rewrites a declaration whose invoking annotation has the around
/// timing; its expression is sequenced exactly like a before-callback.
pub fn generate_around_fn(attr: &str, function: FnDecl) -> (r: String)
    ensures
        r@ == rewritten_fn_text(function@, CallbackType::Around, attr@),
{
    FnWithCallbacks::new(function, CallbackType::Around, attr).generate()
}

} // verus!
