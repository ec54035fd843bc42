//! Callback descriptors: the timing classifier and the argument parser.

use vstd::prelude::*;

verus! {

/// The timing with which a callback expression runs relative to the
/// original function body. `Around` is accepted by the classifier but is
/// deliberately sequenced exactly like `Before` during synthesis; full
/// around-wrapping semantics are a known limitation, not implemented here.
#[derive(Debug, Copy, Clone, PartialEq, Eq, Structural)]
pub enum CallbackType {
    Before,
    After,
    Around,
}

impl CallbackType {
    /// The attribute names that mark a callback, mapped to their timing.
    /// Any other name is not a callback and is left untouched by the
    /// transformation.
    pub open spec fn spec_from_str(name: Seq<char>) -> Option<CallbackType> {
        if name == "before_callback"@ {
            Some(CallbackType::Before)
        } else if name == "after_callback"@ {
            Some(CallbackType::After)
        } else if name == "around_callback"@ {
            Some(CallbackType::Around)
        } else {
            None
        }
    }

    /// Classifies an attribute name. Total: an unrecognized name yields
    /// `None`, which is a valid outcome, not an error.
    pub fn from_str(ident: &str) -> (r: Option<CallbackType>)
        ensures
            r == Self::spec_from_str(ident@),
    {
        let s = ident.to_owned();
        if s == "before_callback".to_owned() {
            Some(CallbackType::Before)
        } else if s == "after_callback".to_owned() {
            Some(CallbackType::After)
        } else if s == "around_callback".to_owned() {
            Some(CallbackType::Around)
        } else {
            None
        }
    }
}

/// What the host-language expression parser re-emits for a text that it
/// accepts as a single expression: `Some` of the normalized token text on
/// success, `None` where the text is not one expression.
pub uninterp spec fn expr_tokens_of(src: Seq<char>) -> Option<Seq<char>>;

/// The `compile_error!` invocation text derived from the parse error of a
/// text that is not a single expression.
pub uninterp spec fn compile_error_of(src: Seq<char>) -> Seq<char>;

/// The expression a callback argument contributes to the synthesized
/// body: the re-emitted tokens where the argument parses as a single
/// expression, else a deliberately-broken expression that surfaces the
/// parse error as a compile-time diagnostic.
pub open spec fn parsed_expr(src: Seq<char>) -> Seq<char> {
    match expr_tokens_of(src) {
        Some(t) => t,
        None => compile_error_of(src),
    }
}

/// Relies on `syn::parse_str::<syn::Expr>`: it decides from the text alone
/// whether the text is a single expression of the host grammar. An accepted
/// expression is re-emitted through `quote::ToTokens` and the token
/// stream's `to_string`; a rejected one through `syn::Error::to_compile_error`
/// and `to_string`, which render the parser's message as a `compile_error!`
/// invocation. Each step depends on the argument text alone.
#[verifier::external_body]
fn parse_expr_text(src: &str) -> (r: Result<String, String>)
    ensures
        r is Ok <==> expr_tokens_of(src@) is Some,
        r matches Ok(t) ==> expr_tokens_of(src@) == Some(t@),
        r matches Err(t) ==> t@ == compile_error_of(src@),
{
    match syn::parse_str::<syn::Expr>(src) {
        Ok(expr) => Ok(quote::ToTokens::to_token_stream(&expr).to_string()),
        Err(err) => Err(err.to_compile_error().to_string()),
    }
}

/// Parses one callback argument into its expression list. The grammar
/// admits exactly one expression per annotation instance, so the result
/// always holds one element; a text that fails to parse degrades to the
/// diagnostic expression rather than aborting the transformation.
pub fn parse_to_expr(token_stream: &str) -> (r: Vec<String>)
    ensures
        r.deep_view() == seq![parsed_expr(token_stream@)],
{
    let expr: String = match parse_expr_text(token_stream) {
        Ok(e) => e,
        Err(e) => e,
    };
    let mut v: Vec<String> = Vec::new();
    v.push(expr);
    proof {
        assert(v.deep_view() =~= seq![parsed_expr(token_stream@)]);
    }
    v
}

/// The parsed representation of one callback annotation instance: its
/// timing and the expressions to run at that timing.
#[derive(Debug)]
pub struct Callback {
    pub callback_type: CallbackType,
    pub fns: Vec<String>,
}

/// The mathematical value of a `Callback`.
#[verifier::ext_equal]
pub struct CallbackView {
    pub callback_type: CallbackType,
    pub fns: Seq<Seq<char>>,
}

impl View for Callback {
    type V = CallbackView;

    open spec fn view(&self) -> CallbackView {
        CallbackView { callback_type: self.callback_type, fns: self.fns.deep_view() }
    }
}

impl DeepView for Callback {
    type V = CallbackView;

    open spec fn deep_view(&self) -> CallbackView {
        self.view()
    }
}

/// The descriptor an annotation instance with the given timing and
/// argument text produces.
pub open spec fn spec_callback(callback_type: CallbackType, token_stream: Seq<char>) -> CallbackView {
    CallbackView { callback_type: callback_type, fns: seq![parsed_expr(token_stream)] }
}

impl Callback {
    /// Builds the descriptor for one annotation instance.
    pub fn from_token_stream(callback_type: CallbackType, token_stream: &str) -> (r: Callback)
        ensures
            r@ == spec_callback(callback_type, token_stream@),
    {
        let r = Callback { callback_type, fns: parse_to_expr(token_stream) };
        proof {
            assert(r@ =~= spec_callback(callback_type, token_stream@));
        }
        r
    }
}

} // verus!
