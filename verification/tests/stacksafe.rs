use gpui_view::stacksafe::{
    choose_crate, expand, replace_statements, stacksafe, try_stacksafe, wrap_block, FnAttribute,
    FnOutput, FnParts, MetaTrace, NestedMeta,
};
use proc_macro2::{Span, TokenStream};

fn tokens(source: &str) -> TokenStream {
    source.parse().unwrap()
}

fn expands(args: &str, item: &str, expected: &str) {
    let result = stacksafe(tokens(args), tokens(item)).to_string();
    assert_eq!(result, tokens(expected).to_string());
    let result = try_stacksafe(tokens(args), tokens(item)).unwrap().to_string();
    assert_eq!(result, tokens(expected).to_string());
}

fn fails(args: &str, item: &str, message: &str) {
    expands(args, item, &format!("::core::compile_error! {{ {:?} }}", message));
}

#[test]
fn a_function_runs_on_a_stack_that_grows() {
    expands(
        "",
        "fn depth(n: u64) -> u64 { if n == 0 { 0 } else { 1 + depth(n - 1) } }",
        "fn depth(n: u64) -> u64 {
            ::stacksafe::internal::stacker::maybe_grow(
                ::stacksafe::get_minimum_stack_size(),
                ::stacksafe::get_stack_allocation_size(),
                ::stacksafe::internal::with_protected(
                    move | | -> u64 { { if n == 0 { 0 } else { 1 + depth(n - 1) } } }
                )
            )
        }",
    );
}

#[test]
fn the_crate_can_be_chosen() {
    expands(
        "crate = my::own::crate_path",
        "pub fn f() {}",
        "pub fn f() {
            my::own::crate_path::internal::stacker::maybe_grow(
                my::own::crate_path::get_minimum_stack_size(),
                my::own::crate_path::get_stack_allocation_size(),
                my::own::crate_path::internal::with_protected(move | | { {} })
            )
        }",
    );
}

#[test]
fn the_last_crate_counts() {
    expands(
        "crate = first, crate = second,",
        "fn f() {}",
        "fn f() {
            second::internal::stacker::maybe_grow(
                second::get_minimum_stack_size(),
                second::get_stack_allocation_size(),
                second::internal::with_protected(move | | { {} })
            )
        }",
    );
}

#[test]
fn impl_trait_is_left_to_be_inferred() {
    expands(
        "",
        "fn f() -> impl Iterator<Item = u8> { empty() }",
        "fn f() -> impl Iterator<Item = u8> {
            ::stacksafe::internal::stacker::maybe_grow(
                ::stacksafe::get_minimum_stack_size(),
                ::stacksafe::get_stack_allocation_size(),
                ::stacksafe::internal::with_protected(move | | { { empty() } })
            )
        }",
    );
}

#[test]
fn attributes_keep_their_places() {
    expands(
        "",
        "#[inline] #[must_use] pub(crate) unsafe fn f<T>(x: T) -> T where T: Copy {
            #![allow(unused)]
            let y = x;
            y
        }",
        "#[inline] #[must_use] pub(crate) unsafe fn f<T>(x: T) -> T where T: Copy {
            # ![allow(unused)]
            ::stacksafe::internal::stacker::maybe_grow(
                ::stacksafe::get_minimum_stack_size(),
                ::stacksafe::get_stack_allocation_size(),
                ::stacksafe::internal::with_protected(move | | -> T { { let y = x; y } })
            )
        }",
    );
}

#[test]
fn unknown_parameters_are_reported() {
    fails("size = big", "fn f() {}", "unknown attribute parameter `size`");
    fails("size", "fn f() {}", "unknown attribute parameter `size`");
    fails("a::b = c", "fn f() {}", "unknown attribute parameter `unknown`");
    fails("crate = a, size = 3, other", "fn f() {}", "unknown attribute parameter `size`");
}

#[test]
fn parameters_are_read_before_the_item() {
    fails("size ???", "not a function", "unknown attribute parameter `size`");
    fails("crate", "not a function", "expected `=`");
    fails("crate = 3", "fn f() {}", "expected identifier");
    fails("crate = a crate = b", "fn f() {}", "expected `,`");
    fails(
        "\"text\"",
        "fn f() {}",
        "unexpected literal in nested attribute, expected ident",
    );
}

#[test]
fn only_functions_are_accepted() {
    fails("", "struct S;", "expected `fn`");
    fails("", "fn f();", "expected curly braces");
}

#[test]
fn async_functions_are_refused() {
    fails("", "async fn f() {}", "#[stacksafe] does not support async functions");
    fails("crate = a", "pub async fn f() {}", "#[stacksafe] does not support async functions");
}

#[test]
fn a_path_that_is_no_expression_gives_nothing() {
    assert!(try_stacksafe(tokens("crate = a<b>"), tokens("fn f() {}")).is_none());
    assert!(try_stacksafe(tokens("crate = a"), tokens("fn f() {}")).is_some());
}

fn meta(ident: Option<&str>, value: Option<&str>) -> NestedMeta {
    NestedMeta {
        path: tokens("a"),
        ident: ident.map(str::to_string),
        value: value.map(tokens),
    }
}

fn error(message: &str) -> syn::Error {
    syn::Error::new(Span::call_site(), message)
}

#[test]
fn the_crate_is_chosen_by_the_parameters() {
    let trace = MetaTrace { metas: vec![], failure: None };
    assert!(choose_crate(trace).unwrap().is_none());

    let metas = vec![meta(Some("crate"), Some("a::b")), meta(Some("crate"), Some("c"))];
    let trace = MetaTrace { metas, failure: None };
    assert_eq!(choose_crate(trace).unwrap().unwrap().to_string(), "c");

    let metas = vec![meta(Some("crate"), Some("a")), meta(Some("crate"), None)];
    let trace = MetaTrace { metas, failure: Some(error("no path")) };
    assert_eq!(choose_crate(trace).unwrap_err().to_string(), "no path");

    let metas = vec![meta(Some("crate"), Some("a")), meta(None, None)];
    let trace = MetaTrace { metas, failure: Some(error("no path")) };
    assert_eq!(
        choose_crate(trace).unwrap_err().to_string(),
        "unknown attribute parameter `unknown`"
    );
}

fn parts(output: FnOutput, asyncness: Option<&str>) -> FnParts {
    FnParts {
        attributes: vec![
            FnAttribute { is_inner: false, tokens: tokens("#[a]") },
            FnAttribute { is_inner: true, tokens: tokens("#![b]") },
            FnAttribute { is_inner: false, tokens: tokens("#[c]") },
        ],
        visibility: tokens("pub"),
        signature: tokens("fn f()"),
        asyncness: asyncness.map(tokens),
        output,
        block: tokens("{ x }"),
    }
}

#[test]
fn statements_are_replaced() {
    assert_eq!(
        replace_statements(parts(FnOutput::Default, None), tokens("y; z")).to_string(),
        tokens("#[a] #[c] pub fn f() { #![b] y; z }").to_string()
    );
}

#[test]
fn a_block_is_wrapped() {
    let path = tokens("p");
    let expected = |closure: &str| {
        tokens(&format!(
            "{{ p::internal::stacker::maybe_grow(
                p::get_minimum_stack_size(),
                p::get_stack_allocation_size(),
                p::internal::with_protected({closure})
            ) }}"
        ))
        .to_string()
    };
    assert_eq!(
        wrap_block(&path, &FnOutput::Type(tokens("-> u8")), tokens("{ 1 }")).to_string(),
        expected("move || -> u8 { { 1 } }")
    );
    assert_eq!(
        wrap_block(&path, &FnOutput::Default, tokens("{ 1 }")).to_string(),
        expected("move || { { 1 } }")
    );
    assert_eq!(
        wrap_block(&path, &FnOutput::ImplTrait(tokens("-> impl A")), tokens("{ 1 }")).to_string(),
        expected("move || { { 1 } }")
    );
}

#[test]
fn what_was_read_is_expanded() {
    let trace = || MetaTrace { metas: vec![meta(Some("crate"), Some("p"))], failure: None };
    assert_eq!(
        expand(trace(), Err(error("no function"))).unwrap().to_string(),
        tokens("::core::compile_error! { \"no function\" }").to_string()
    );
    assert_eq!(
        expand(trace(), Ok(parts(FnOutput::Default, Some("async")))).unwrap().to_string(),
        tokens("::core::compile_error! { \"#[stacksafe] does not support async functions\" }")
            .to_string()
    );
    assert_eq!(
        expand(trace(), Ok(parts(FnOutput::Default, None))).unwrap().to_string(),
        tokens(
            "#[a] #[c] pub fn f() {
                #![b]
                p::internal::stacker::maybe_grow(
                    p::get_minimum_stack_size(),
                    p::get_stack_allocation_size(),
                    p::internal::with_protected(move | | { { x } })
                )
            }"
        )
        .to_string()
    );
    let mut first = error("first");
    first.combine(error("second"));
    assert_eq!(
        expand(MetaTrace { metas: vec![], failure: Some(first) }, Err(error("third")))
            .unwrap()
            .to_string(),
        tokens(
            "::core::compile_error! { \"first\" } ::core::compile_error! { \"second\" }"
        )
        .to_string()
    );
}
