//! Attribute extraction: separating a declaration's callback annotations
//! from everything else it carries.

use vstd::prelude::*;

use crate::callback::{spec_callback, Callback, CallbackType, CallbackView};
use crate::decl::{Attr, AttrView, FnDecl};

verus! {

/// The descriptors contributed by a declaration's own attribute list, in
/// source order: one per attribute whose name classifies as a callback,
/// built from that attribute's timing and argument text.
pub open spec fn callbacks_of(attrs: Seq<AttrView>) -> Seq<CallbackView>
    decreases attrs.len(),
{
    if attrs.len() == 0 {
        Seq::empty()
    } else {
        let rest = callbacks_of(attrs.drop_last());
        match CallbackType::spec_from_str(attrs.last().name) {
            Some(ty) => rest.push(spec_callback(ty, attrs.last().args)),
            None => rest,
        }
    }
}

/// The attributes a declaration keeps: those whose name does not classify
/// as a callback, in their original relative order. Documentation
/// annotations and arbitrary other modifiers pass through here verbatim.
pub open spec fn kept_attrs(attrs: Seq<AttrView>) -> Seq<AttrView>
    decreases attrs.len(),
{
    if attrs.len() == 0 {
        Seq::empty()
    } else {
        let rest = kept_attrs(attrs.drop_last());
        if CallbackType::spec_from_str(attrs.last().name) is None {
            rest.push(attrs.last())
        } else {
            rest
        }
    }
}

/// Idempotent structure preservation, extraction side: a declaration
/// none of whose attribute names classifies as a callback keeps its
/// attribute list exactly as it stands and contributes no descriptors,
/// so the transformation leaves everything but the body's serialization
/// untouched.
pub proof fn lemma_no_callbacks_extraction(attrs: Seq<AttrView>)
    requires
        forall|i: int|
            0 <= i < attrs.len() ==> CallbackType::spec_from_str(attrs[i].name) is None,
    ensures
        kept_attrs(attrs) == attrs,
        callbacks_of(attrs) == Seq::<CallbackView>::empty(),
    decreases attrs.len(),
{
    if attrs.len() > 0 {
        let rest = attrs.drop_last();
        assert(forall|i: int| 0 <= i < rest.len() ==> rest[i] == attrs[i]);
        lemma_no_callbacks_extraction(rest);
        assert(CallbackType::spec_from_str(attrs.last().name) is None);
        assert(kept_attrs(attrs) =~= attrs);
    } else {
        assert(kept_attrs(attrs) =~= attrs);
    }
}

/// A function declaration stripped of its callback annotations, paired
/// with the ordered descriptors those annotations produced.
#[derive(Debug)]
pub struct FnWithCallbacks {
    pub function: FnDecl,
    pub callbacks: Vec<Callback>,
}

impl FnWithCallbacks {
    /// Extraction. The invoking annotation's own argument is parsed first,
    /// under the invocation's timing; then the declaration's attribute
    /// list is scanned top to bottom, each callback-named attribute
    /// becoming a descriptor in the order encountered, while every other
    /// attribute is kept verbatim. The declaration's signature and body
    /// are untouched. Total: a malformed argument degrades to a
    /// diagnostic expression inside its own descriptor (see
    /// `crate::callback::parsed_expr`) and disturbs nothing else.
    pub fn new(function: FnDecl, cty: CallbackType, token_stream: &str) -> (r: FnWithCallbacks)
        ensures
            r.callbacks.deep_view() == seq![spec_callback(cty, token_stream@)]
                + callbacks_of(function@.attrs),
            r.function@.attrs == kept_attrs(function@.attrs),
            r.function@.sig == function@.sig,
            r.function@.body == function@.body,
    {
        let FnDecl { attrs, sig, body } = function;

        let mut callbacks: Vec<Callback> = Vec::new();
        callbacks.push(Callback::from_token_stream(cty, token_stream));

        let mut other_attrs: Vec<Attr> = Vec::new();

        proof {
            assert(attrs.deep_view().take(0) =~= Seq::<AttrView>::empty());
            assert(callbacks.deep_view() =~= seq![spec_callback(cty, token_stream@)]
                + callbacks_of(attrs.deep_view().take(0)));
            assert(other_attrs.deep_view() =~= kept_attrs(attrs.deep_view().take(0)));
        }

        let n = attrs.len();
        for i in 0..n
            invariant
                n == attrs.len(),
                callbacks.deep_view() == seq![spec_callback(cty, token_stream@)]
                    + callbacks_of(attrs.deep_view().take(i as int)),
                other_attrs.deep_view() == kept_attrs(attrs.deep_view().take(i as int)),
        {
            let ghost prefix = attrs.deep_view().take(i as int);
            let a = &attrs[i];
            match CallbackType::from_str(a.name.as_str()) {
                Some(ty) => {
                    let ghost old_cbs = callbacks.deep_view();
                    callbacks.push(Callback::from_token_stream(ty, a.args.as_str()));
                    proof {
                        assert(callbacks.deep_view() =~= old_cbs.push(
                            spec_callback(ty, a@.args),
                        ));
                    }
                }
                None => {
                    let ghost old_kept = other_attrs.deep_view();
                    other_attrs.push(a.clone());
                    proof {
                        assert(other_attrs.deep_view() =~= old_kept.push(a@));
                    }
                }
            }
            proof {
                let next = attrs.deep_view().take(i + 1);
                assert(next.drop_last() =~= prefix);
                assert(next.last() == attrs.deep_view()[i as int]);
                assert(callbacks.deep_view() =~= seq![spec_callback(cty, token_stream@)]
                    + callbacks_of(next));
                assert(other_attrs.deep_view() =~= kept_attrs(next));
            }
        }

        proof {
            assert(attrs.deep_view().take(n as int) =~= attrs.deep_view());
        }

        FnWithCallbacks {
            function: FnDecl { attrs: other_attrs, sig: sig, body: body },
            callbacks: callbacks,
        }
    }

    /// Re-emits the declaration with its synthesized body.
    pub fn generate(self) -> (r: String)
        ensures
            r@ == crate::codegen::fn_text(
                self.function@.attrs,
                self.function@.sig,
                crate::codegen::block_text(self.callbacks.deep_view(), self.function@.body),
            ),
    {
        crate::codegen::generate(self)
    }
}

} // verus!
