//! The model of a host-language function declaration, as plain source
//! text: an ordered attribute list, a signature, and a body block. The
//! boundary that turns a compiler's parse tree into this model and back
//! lives outside this crate.

use vstd::prelude::*;

verus! {

/// One annotation on a function declaration. `name` is the annotation's
/// final path segment, the part the timing classifier reads; `args` is its
/// argument token text, read only where the name classifies as a callback;
/// `text` is the annotation's verbatim source, re-emitted unchanged where
/// the annotation is kept.
#[derive(Debug)]
pub struct Attr {
    pub name: String,
    pub args: String,
    pub text: String,
}

/// The mathematical value of an `Attr`.
#[verifier::ext_equal]
pub struct AttrView {
    pub name: Seq<char>,
    pub args: Seq<char>,
    pub text: Seq<char>,
}

impl View for Attr {
    type V = AttrView;

    open spec fn view(&self) -> AttrView {
        AttrView { name: self.name@, args: self.args@, text: self.text@ }
    }
}

impl DeepView for Attr {
    type V = AttrView;

    open spec fn deep_view(&self) -> AttrView {
        self.view()
    }
}

impl Clone for Attr {
    fn clone(&self) -> (r: Self)
        ensures
            r@ == self@,
    {
        Attr { name: self.name.clone(), args: self.args.clone(), text: self.text.clone() }
    }
}

/// A function declaration. `sig` carries everything the transformation
/// passes through untouched: visibility, name, generic parameters,
/// parameter list and return type. `body` is the body block's source
/// text, braces included.
#[derive(Debug)]
pub struct FnDecl {
    pub attrs: Vec<Attr>,
    pub sig: String,
    pub body: String,
}

/// The mathematical value of a `FnDecl`.
#[verifier::ext_equal]
pub struct FnDeclView {
    pub attrs: Seq<AttrView>,
    pub sig: Seq<char>,
    pub body: Seq<char>,
}

impl View for FnDecl {
    type V = FnDeclView;

    open spec fn view(&self) -> FnDeclView {
        FnDeclView { attrs: self.attrs.deep_view(), sig: self.sig@, body: self.body@ }
    }
}

impl DeepView for FnDecl {
    type V = FnDeclView;

    open spec fn deep_view(&self) -> FnDeclView {
        self.view()
    }
}

} // verus!
