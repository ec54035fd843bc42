//! The transformation driven directly: classification, argument parsing
//! with its diagnostic fallback, extraction, and the exact text of the
//! synthesized declaration.

use callback_fn::callback::{parse_to_expr, Callback, CallbackType};
use callback_fn::codegen::generate;
use callback_fn::decl::{Attr, FnDecl};
use callback_fn::fn_with_callbacks::FnWithCallbacks;
use callback_fn::generate_fn::{generate_after_fn, generate_around_fn, generate_before_fn};

fn attr(name: &str, args: &str, text: &str) -> Attr {
    Attr {
        name: name.to_string(),
        args: args.to_string(),
        text: text.to_string(),
    }
}

fn decl_with_mixed_callbacks() -> FnDecl {
    FnDecl {
        attrs: vec![
            attr("doc", "", "#[doc = \"d\"]"),
            attr("before_callback", "b1", "#[before_callback(b1)]"),
            attr("after_callback", "a1", "#[after_callback(a1)]"),
            attr("before_callback", "b2", "#[before_callback(b2)]"),
            attr("after_callback", "a2", "#[after_callback(a2)]"),
        ],
        sig: "fn f () -> i32".to_string(),
        body: "{ 7 }".to_string(),
    }
}

#[test]
fn parse_single_identifier_is_unchanged() {
    let v = parse_to_expr("b0");
    assert_eq!(v.len(), 1);
    assert_eq!(v[0], "b0");
}

#[test]
fn parse_normalizes_token_spacing() {
    let v = parse_to_expr("a+b");
    assert_eq!(v.len(), 1);
    assert_eq!(v[0], "a + b");
}

#[test]
fn parse_failure_degrades_to_diagnostic_expression() {
    let v = parse_to_expr("1 +");
    assert_eq!(v.len(), 1);
    assert!(v[0].contains("compile_error"));
    assert_ne!(v[0], "1 +");
}

#[test]
fn extraction_orders_descriptors_and_keeps_other_attrs() {
    let f = FnWithCallbacks::new(decl_with_mixed_callbacks(), CallbackType::Before, "b0");

    assert_eq!(f.function.attrs.len(), 1);
    assert_eq!(f.function.attrs[0].name, "doc");
    assert_eq!(f.function.attrs[0].text, "#[doc = \"d\"]");
    assert_eq!(f.function.sig, "fn f () -> i32");
    assert_eq!(f.function.body, "{ 7 }");

    let kinds: Vec<CallbackType> = f.callbacks.iter().map(|c| c.callback_type).collect();
    assert_eq!(
        kinds,
        vec![
            CallbackType::Before,
            CallbackType::Before,
            CallbackType::After,
            CallbackType::Before,
            CallbackType::After,
        ]
    );
    let exprs: Vec<String> = f
        .callbacks
        .iter()
        .map(|c| c.fns[0].clone())
        .collect();
    assert_eq!(exprs, vec!["b0", "b1", "a1", "b2", "a2"]);
}

#[test]
fn rewrite_sequences_callbacks_in_source_order() {
    let out = generate_before_fn("b0", decl_with_mixed_callbacks());
    assert_eq!(
        out,
        "#[doc = \"d\"] fn f () -> i32 \
         { b0 ; b1 ; b2 ; #[allow(unused_mut)] let mut ret = { 7 } ; a1 ; a2 ; ret }"
    );
}

#[test]
fn after_invocation_argument_runs_after_the_body() {
    let decl = FnDecl {
        attrs: vec![attr("before_callback", "b1", "#[before_callback(b1)]")],
        sig: "fn f () -> i32".to_string(),
        body: "{ 7 }".to_string(),
    };
    let out = generate_after_fn("a0", decl);
    assert_eq!(
        out,
        "fn f () -> i32 { b1 ; #[allow(unused_mut)] let mut ret = { 7 } ; a0 ; ret }"
    );
}

#[test]
fn around_invocation_argument_runs_before_the_body() {
    let decl = FnDecl {
        attrs: Vec::new(),
        sig: "fn f () -> i32".to_string(),
        body: "{ 7 }".to_string(),
    };
    let out = generate_around_fn("g()", decl);
    assert_eq!(
        out,
        "fn f () -> i32 { g () ; #[allow(unused_mut)] let mut ret = { 7 } ; ret }"
    );
}

#[test]
fn no_descriptors_reserializes_the_declaration() {
    let f = FnWithCallbacks {
        function: FnDecl {
            attrs: vec![attr("doc", "", "#[doc = \"d\"]")],
            sig: "fn f () -> i32".to_string(),
            body: "{ 7 }".to_string(),
        },
        callbacks: Vec::new(),
    };
    let out = generate(f);
    assert_eq!(
        out,
        "#[doc = \"d\"] fn f () -> i32 { #[allow(unused_mut)] let mut ret = { 7 } ; ret }"
    );
}

#[test]
fn malformed_argument_corrupts_nothing_else() {
    let out = generate_before_fn("1 +", decl_with_mixed_callbacks());
    assert!(out.contains("compile_error"));
    assert!(out.starts_with("#[doc = \"d\"] fn f () -> i32 {"));
    assert!(out.contains("b1 ; b2 ; #[allow(unused_mut)] let mut ret = { 7 } ; a1 ; a2 ; ret }"));
}

#[test]
fn rewritten_declaration_is_valid_source() {
    let out = generate_before_fn("check_zero(divisor)?", FnDecl {
        attrs: vec![attr("doc", "", "#[doc = \"d\"]")],
        sig: "fn div (dividend : i32 , divisor : i32) -> Result < i32 , String >".to_string(),
        body: "{ Ok (dividend / divisor) }".to_string(),
    });
    assert!(syn::parse_str::<syn::ItemFn>(&out).is_ok());
    let item = syn::parse_str::<syn::ItemFn>(&out).unwrap();
    assert_eq!(item.attrs.len(), 1);
    assert_eq!(item.sig.ident.to_string(), "div");
}

#[test]
fn empty_argument_degrades_to_diagnostic_expression() {
    let v = parse_to_expr("");
    assert_eq!(v.len(), 1);
    assert!(v[0].contains("compile_error"));
}

#[test]
fn after_expression_can_reference_the_captured_result() {
    let decl = FnDecl {
        attrs: Vec::new(),
        sig: "fn f () -> i32".to_string(),
        body: "{ 7 }".to_string(),
    };
    let out = generate_after_fn("log(ret)", decl);
    assert_eq!(
        out,
        "fn f () -> i32 { #[allow(unused_mut)] let mut ret = { 7 } ; log (ret) ; ret }"
    );
}

// The captured result at runtime: an after-expression reading `ret`
// observes exactly the value the body produced, and the function still
// yields that value. `produce` is written as the transformation rewrites
// a declaration with the after-callback `log.push(ret)`.
fn produce(log: &mut Vec<i32>) -> i32 {
    #[allow(unused_mut)]
    let mut ret = { 41 + 1 };
    log.push(ret);
    ret
}

#[test]
fn after_callback_observes_captured_result() {
    let mut log = Vec::new();
    assert_eq!(produce(&mut log), 42);
    assert_eq!(log, vec![42]);
}

#[test]
fn from_token_stream_builds_one_descriptor() {
    let c: Callback = Callback::from_token_stream(CallbackType::After, "self.update_total_price()");
    assert!(matches!(c.callback_type, CallbackType::After));
    assert_eq!(c.fns.len(), 1);
    assert_eq!(c.fns[0], "self . update_total_price ()");
}
