use crate::tokens::{
    Delimiter, Token, append, compile_errors, error_at, error_messages, group, ident, punct,
    separator, stream_tokens,
};
use proc_macro2::TokenStream;
use quote::{ToTokens, TokenStreamExt};
use syn::parse::Parser;
use vstd::prelude::*;

verus! {

/// One parameter of the attribute, as far as it could be read.
pub struct NestedMeta {
    /// The names of which the parameter's path consists.
    pub path: TokenStream,
    /// The parameter's name, if its path is a single one.
    pub ident: Option<String>,
    /// The path that was given as its value. There is none if the value could not be read.
    pub value: Option<TokenStream>,
}

/// The parameters of the attribute, up to where reading them failed, if it did.
pub struct MetaTrace {
    pub metas: Vec<NestedMeta>,
    pub failure: Option<syn::Error>,
}

/// What an attribute parameter is made of.
pub struct MetaView {
    pub path: Seq<Token>,
    pub ident: Option<Seq<char>>,
    pub value: Option<Seq<Token>>,
}

/// What the parameters of an attribute are made of, and what is wrong with them.
pub struct MetaTraceView {
    pub metas: Seq<MetaView>,
    pub failure: Option<Seq<Seq<char>>>,
}

/// The characters of a text, if there is one.
pub open spec fn text_of(text: Option<String>) -> Option<Seq<char>> {
    match text {
        Some(text) => Some(text@),
        None => None,
    }
}

/// The tokens of a stream, if there is one.
pub open spec fn tokens_of(stream: Option<TokenStream>) -> Option<Seq<Token>> {
    match stream {
        Some(stream) => Some(stream_tokens(stream)),
        None => None,
    }
}

impl View for NestedMeta {
    type V = MetaView;

    open spec fn view(&self) -> MetaView {
        MetaView {
            path: stream_tokens(self.path),
            ident: text_of(self.ident),
            value: tokens_of(self.value),
        }
    }
}

impl View for MetaTrace {
    type V = MetaTraceView;

    open spec fn view(&self) -> MetaTraceView {
        MetaTraceView {
            metas: self.metas@.map_values(|meta: NestedMeta| meta@),
            failure: match self.failure {
                Some(error) => Some(error_messages(error)),
                None => None,
            },
        }
    }
}

impl MetaTraceView {
    /// Reading stops at a parameter whose value cannot be read.
    pub open spec fn wf(self) -> bool {
        forall|i: int|
            0 <= i < self.metas.len() && (#[trigger] self.metas[i]).value is None ==> i
                == self.metas.len() - 1 && self.failure is Some
    }
}

/// Notes a parameter, and passes on what was wrong with its value.
fn record_meta(
    metas: &mut Vec<NestedMeta>,
    path: TokenStream,
    ident: Option<String>,
    value: Result<TokenStream, syn::Error>,
) -> (result: Result<(), syn::Error>)
    ensures
        final(metas)@ == old(metas)@.push(NestedMeta { path, ident, value: value.ok() }),
        match value {
            Ok(_) => result is Ok,
            Err(error) => result == Err::<(), syn::Error>(error),
        },
{
    match value {
        Ok(value) => {
            metas.push(NestedMeta { path, ident, value: Some(value) });
            Ok(())
        },
        Err(error) => {
            metas.push(NestedMeta { path, ident, value: None });
            Err(error)
        },
    }
}

/// What `syn::meta::parser` makes of the parameters of an attribute when the value of each is
/// read as `= path`.
pub uninterp spec fn nested_metas(args: Seq<Token>) -> MetaTraceView;

/// `syn::meta::parser` on `args`. It hands over one parameter after the other, and stops with
/// the failure of the first whose value is no path. Of no tokens it makes no parameters and
/// no failure.
#[verifier::external_body]
fn read_metas(args: TokenStream) -> (trace: MetaTrace)
    ensures
        trace@ == nested_metas(stream_tokens(args)),
        trace@.wf(),
        stream_tokens(args).len() == 0 ==> trace.metas@.len() == 0 && trace.failure is None,
{
    let mut metas: Vec<NestedMeta> = Vec::new();
    let parser = syn::meta::parser(
        |meta|
            record_meta(
                &mut metas,
                meta.path.segments.to_token_stream(),
                meta.path.get_ident().map(|ident| ident.to_string()),
                meta.value().and_then(|value| value.parse::<syn::Path>()).map(
                    |path| path.into_token_stream(),
                ),
            ),
    );
    let failure = parser.parse2(args).err();
    MetaTrace { metas, failure }
}

/// Whether this is the parameter that names the crate.
pub open spec fn is_crate(meta: MetaView) -> bool {
    meta.ident == Some("crate"@)
}

/// Parameter `i` is the first that is not known.
pub open spec fn first_unknown(metas: Seq<MetaView>, i: int) -> bool {
    &&& 0 <= i < metas.len()
    &&& !is_crate(metas[i])
    &&& forall|j: int| 0 <= j < i ==> is_crate(#[trigger] metas[j])
}

/// The message on a parameter that is not known.
pub open spec fn unknown_parameter(ident: Option<Seq<char>>) -> Seq<char> {
    "unknown attribute parameter `"@ + (match ident {
        Some(ident) => ident,
        None => "unknown"@,
    }) + "`"@
}

/// The path of the crate that the parameters of the attribute choose, if they choose one, or
/// what is wrong with them. A parameter that is not known is reported before anything that is
/// wrong with what follows it. Of several paths the last one counts.
pub open spec fn chosen_crate(trace: MetaTraceView) -> Result<
    Option<Seq<Token>>,
    Seq<Seq<char>>,
> {
    if exists|i: int| first_unknown(trace.metas, i) {
        let i = choose|i: int| first_unknown(trace.metas, i);
        Err(seq![unknown_parameter(trace.metas[i].ident)])
    } else if trace.failure is Some {
        Err(trace.failure->0)
    } else if trace.metas.len() == 0 {
        Ok(None)
    } else {
        Ok(trace.metas.last().value)
    }
}

/// What a path or an error stands for.
pub open spec fn chosen_view(result: Result<Option<TokenStream>, syn::Error>) -> Result<
    Option<Seq<Token>>,
    Seq<Seq<char>>,
> {
    match result {
        Ok(path) => Ok(tokens_of(path)),
        Err(error) => Err(error_messages(error)),
    }
}

fn unknown_parameter_message(ident: Option<String>) -> (message: String)
    ensures
        message@ == unknown_parameter(text_of(ident)),
{
    let name = match ident {
        Some(ident) => ident,
        None => "unknown".to_string(),
    };
    "unknown attribute parameter `".to_string().concat(name.as_str()).concat("`")
}

fn is_crate_name(ident: &Option<String>) -> (is_crate: bool)
    ensures
        is_crate == (text_of(*ident) == Some("crate"@)),
{
    match ident {
        Some(ident) => *ident == "crate".to_string(),
        None => false,
    }
}

/// Chooses the path of the crate by the parameters of the attribute.
pub fn choose_crate(trace: MetaTrace) -> (result: Result<Option<TokenStream>, syn::Error>)
    ensures
        chosen_view(result) == chosen_crate(trace@),
{
    let mut crate_path: Option<TokenStream> = None;
    let mut i: usize = 0;
    while i < trace.metas.len()
        invariant
            i <= trace.metas@.len(),
            forall|j: int| 0 <= j < i ==> is_crate(#[trigger] trace@.metas[j]),
            tokens_of(crate_path) == (if i == 0 {
                None
            } else {
                trace@.metas[i - 1].value
            }),
        decreases trace.metas@.len() - i,
    {
        let meta = &trace.metas[i];
        assert(trace@.metas[i as int] == meta@);
        if !is_crate_name(&meta.ident) {
            let name = match &meta.ident {
                Some(ident) => Some(ident.clone()),
                None => None,
            };
            assert(first_unknown(trace@.metas, i as int));
            return Err(error_at(meta.path.clone(), unknown_parameter_message(name)));
        }
        crate_path = match &meta.value {
            Some(path) => Some(path.clone()),
            None => None,
        };
        i = i + 1;
    }
    match trace.failure {
        Some(error) => Err(error),
        None => Ok(crate_path),
    }
}

/// An attribute of a function. An inner one stands in the function's block.
pub struct FnAttribute {
    pub is_inner: bool,
    pub tokens: TokenStream,
}

/// What a function says of its return type. The tokens are those of the arrow and the type.
pub enum FnOutput {
    Default,
    ImplTrait(TokenStream),
    Type(TokenStream),
}

/// A function, taken apart.
pub struct FnParts {
    pub attributes: Vec<FnAttribute>,
    pub visibility: TokenStream,
    /// From the qualifiers before `fn` to the `where` clause.
    pub signature: TokenStream,
    pub asyncness: Option<TokenStream>,
    pub output: FnOutput,
    /// The block with its braces, without its inner attributes.
    pub block: TokenStream,
}

/// What an attribute of a function is made of.
pub struct FnAttributeView {
    pub is_inner: bool,
    pub tokens: Seq<Token>,
}

/// What the return type of a function is made of.
pub enum FnOutputView {
    Default,
    ImplTrait(Seq<Token>),
    Type(Seq<Token>),
}

/// What a function is made of.
pub struct FnView {
    pub attributes: Seq<FnAttributeView>,
    pub visibility: Seq<Token>,
    pub signature: Seq<Token>,
    pub asyncness: Option<Seq<Token>>,
    pub output: FnOutputView,
    pub block: Seq<Token>,
}

impl View for FnAttribute {
    type V = FnAttributeView;

    open spec fn view(&self) -> FnAttributeView {
        FnAttributeView { is_inner: self.is_inner, tokens: stream_tokens(self.tokens) }
    }
}

impl View for FnOutput {
    type V = FnOutputView;

    open spec fn view(&self) -> FnOutputView {
        match self {
            FnOutput::Default => FnOutputView::Default,
            FnOutput::ImplTrait(tokens) => FnOutputView::ImplTrait(stream_tokens(*tokens)),
            FnOutput::Type(tokens) => FnOutputView::Type(stream_tokens(*tokens)),
        }
    }
}

impl View for FnParts {
    type V = FnView;

    open spec fn view(&self) -> FnView {
        FnView {
            attributes: self.attributes@.map_values(|attribute: FnAttribute| attribute@),
            visibility: stream_tokens(self.visibility),
            signature: stream_tokens(self.signature),
            asyncness: tokens_of(self.asyncness),
            output: self.output@,
            block: stream_tokens(self.block),
        }
    }
}

/// What a function or an error stands for.
pub open spec fn fn_view(result: Result<FnParts, syn::Error>) -> Result<FnView, Seq<Seq<char>>> {
    match result {
        Ok(parts) => Ok(parts@),
        Err(error) => Err(error_messages(error)),
    }
}

/// What `syn::parse2` makes of tokens that are to be a function (a `syn::ItemFn`), each part
/// of it as `quote::ToTokens` prints it.
pub uninterp spec fn parsed_fn(item: Seq<Token>) -> Result<FnView, Seq<Seq<char>>>;

/// `syn::parse2` to a `syn::ItemFn`, whose parts are printed by `quote::ToTokens`.
#[verifier::external_body]
fn parse_fn(item: TokenStream) -> (result: Result<FnParts, syn::Error>)
    ensures
        fn_view(result) == parsed_fn(stream_tokens(item)),
{
    let item: syn::ItemFn = syn::parse2(item)?;
    let output = item.sig.output.to_token_stream();
    Ok(FnParts {
        attributes: item.attrs.iter().map(|attribute| FnAttribute {
            is_inner: matches!(attribute.style, syn::AttrStyle::Inner(_)),
            tokens: attribute.to_token_stream(),
        }).collect(),
        visibility: item.vis.to_token_stream(),
        signature: item.sig.to_token_stream(),
        asyncness: item.sig.asyncness.map(|asyncness| asyncness.to_token_stream()),
        output: match &item.sig.output { syn::ReturnType::Default => FnOutput::Default,
            syn::ReturnType::Type(_, ty) => match **ty { syn::Type::ImplTrait(_) => FnOutput::ImplTrait(output), _ => FnOutput::Type(output) } },
        block: item.block.to_token_stream(),
    })
}

/// What `syn::parse2` makes of tokens that are to be a block (a `syn::Block`): its statements,
/// as `quote::ToTokens` prints them.
pub uninterp spec fn block_statements(block: Seq<Token>) -> Result<Seq<Token>, Seq<Seq<char>>>;

/// `syn::parse2` to a `syn::Block`, whose statements are printed by `quote::ToTokens`.
#[verifier::external_body]
fn parse_block(block: TokenStream) -> (result: Result<TokenStream, syn::Error>)
    ensures
        match result {
            Ok(statements) => Ok::<Seq<Token>, Seq<Seq<char>>>(stream_tokens(statements)),
            Err(error) => Err(error_messages(error)),
        } == block_statements(stream_tokens(block)),
{
    let block: syn::Block = syn::parse2(block)?;
    let mut statements = TokenStream::new();
    statements.append_all(&block.stmts);
    Ok(statements)
}

/// The return type that the closure around a function's block says that it has. A closure
/// cannot say that it returns `impl Trait`; then it says nothing, and its type is inferred.
pub open spec fn closure_output(output: FnOutputView) -> Seq<Token> {
    match output {
        FnOutputView::Default => Seq::empty(),
        FnOutputView::ImplTrait(_) => Seq::empty(),
        FnOutputView::Type(tokens) => tokens,
    }
}

/// `::stacksafe`, the crate that is used if the attribute does not choose one.
pub open spec fn default_crate() -> Seq<Token> {
    separator() + seq![Token::Ident("stacksafe"@)]
}

/// The path `path::name`.
pub open spec fn member(path: Seq<Token>, name: Seq<char>) -> Seq<Token> {
    path + separator() + seq![Token::Ident(name)]
}

/// `inner` between two delimiters.
pub open spec fn grouped(delimiter: Delimiter, inner: Seq<Token>) -> Seq<Token> {
    seq![Token::Open(delimiter)] + inner + seq![Token::Close(delimiter)]
}

/// A comma.
pub open spec fn comma() -> Seq<Token> {
    seq![Token::Punct(',', false)]
}

/// `move || output { block }`, the closure that holds a function's block.
pub open spec fn closure(output: Seq<Token>, block: Seq<Token>) -> Seq<Token> {
    seq![Token::Ident("move"@), Token::Punct('|', true), Token::Punct('|', false)] + output
        + grouped(Delimiter::Brace, block)
}

/// The block that runs a function's block on a stack that is large enough:
///
/// ```text
/// {
///     path::internal::stacker::maybe_grow(
///         path::get_minimum_stack_size(),
///         path::get_stack_allocation_size(),
///         path::internal::with_protected(move || output { block })
///     )
/// }
/// ```
pub open spec fn wrapped_block(path: Seq<Token>, output: Seq<Token>, block: Seq<Token>) -> Seq<
    Token,
> {
    let none = grouped(Delimiter::Parenthesis, Seq::empty());
    let protected = member(member(path, "internal"@), "with_protected"@) + grouped(
        Delimiter::Parenthesis,
        closure(output, block),
    );
    let arguments = member(path, "get_minimum_stack_size"@) + none + comma() + member(
        path,
        "get_stack_allocation_size"@,
    ) + none + comma() + protected;
    grouped(
        Delimiter::Brace,
        member(member(member(path, "internal"@), "stacker"@), "maybe_grow"@) + grouped(
            Delimiter::Parenthesis,
            arguments,
        ),
    )
}

/// The tokens of the attributes that are inner ones, or of those that are not, in their order.
pub open spec fn attribute_tokens(attributes: Seq<FnAttributeView>, inner: bool) -> Seq<Token>
    decreases attributes.len(),
{
    if attributes.len() == 0 {
        Seq::empty()
    } else {
        attribute_tokens(attributes.drop_last(), inner) + if attributes.last().is_inner == inner {
            attributes.last().tokens
        } else {
            Seq::empty()
        }
    }
}

/// What stands before the block of a function.
pub open spec fn header(item: FnView) -> Seq<Token> {
    attribute_tokens(item.attributes, false) + item.visibility + item.signature
}

/// The function with these statements in place of those that it has.
pub open spec fn with_statements(item: FnView, statements: Seq<Token>) -> Seq<Token> {
    header(item) + grouped(
        Delimiter::Brace,
        attribute_tokens(item.attributes, true) + statements,
    )
}

/// The path `path::name`.
fn member_path(path: &TokenStream, name: &str) -> (stream: TokenStream)
    requires
        crate::tokens::is_plain_name(name@),
    ensures
        stream_tokens(stream) == member(stream_tokens(*path), name@),
{
    let mut stream = path.clone();
    append(&mut stream, punct(':', true));
    append(&mut stream, punct(':', false));
    append(&mut stream, ident(name));
    stream
}

/// Puts `block` on a stack that is large enough (see [`wrapped_block`]).
pub fn wrap_block(path: &TokenStream, output: &FnOutput, block: TokenStream) -> (stream:
    TokenStream)
    ensures
        stream_tokens(stream) == wrapped_block(
            stream_tokens(*path),
            closure_output(output@),
            stream_tokens(block),
        ),
{
    proof {
        reveal_strlit("internal");
        reveal_strlit("stacker");
        reveal_strlit("maybe_grow");
        reveal_strlit("get_minimum_stack_size");
        reveal_strlit("get_stack_allocation_size");
        reveal_strlit("with_protected");
        reveal_strlit("move");
    }
    let mut closure = ident("move");
    append(&mut closure, punct('|', true));
    append(&mut closure, punct('|', false));
    match output {
        FnOutput::Type(tokens) => append(&mut closure, tokens.clone()),
        FnOutput::Default => {},
        // A closure cannot return `impl Trait`, so its type is left to be inferred.
        FnOutput::ImplTrait(_) => {},
    }
    append(&mut closure, group(Delimiter::Brace, block));

    let internal = member_path(path, "internal");
    let mut arguments = member_path(path, "get_minimum_stack_size");
    append(&mut arguments, group(Delimiter::Parenthesis, TokenStream::new()));
    append(&mut arguments, punct(',', false));
    append(&mut arguments, member_path(path, "get_stack_allocation_size"));
    append(&mut arguments, group(Delimiter::Parenthesis, TokenStream::new()));
    append(&mut arguments, punct(',', false));
    append(&mut arguments, member_path(&internal, "with_protected"));
    append(&mut arguments, group(Delimiter::Parenthesis, closure));

    let mut call = member_path(&member_path(&internal, "stacker"), "maybe_grow");
    append(&mut call, group(Delimiter::Parenthesis, arguments));
    group(Delimiter::Brace, call)
}

fn print_attributes(attributes: &Vec<FnAttribute>, inner: bool) -> (stream: TokenStream)
    ensures
        stream_tokens(stream) == attribute_tokens(
            attributes@.map_values(|attribute: FnAttribute| attribute@),
            inner,
        ),
{
    let ghost views = attributes@.map_values(|attribute: FnAttribute| attribute@);
    let mut stream = TokenStream::new();
    let mut i: usize = 0;
    while i < attributes.len()
        invariant
            i <= attributes@.len(),
            views == attributes@.map_values(|attribute: FnAttribute| attribute@),
            stream_tokens(stream) == attribute_tokens(views.take(i as int), inner),
        decreases attributes@.len() - i,
    {
        assert(views.take(i + 1).drop_last() == views.take(i as int));
        if attributes[i].is_inner == inner {
            append(&mut stream, attributes[i].tokens.clone());
        }
        i = i + 1;
    }
    assert(views.take(i as int) == views);
    stream
}

/// The function with these statements in place of those that it has.
pub fn replace_statements(item: FnParts, statements: TokenStream) -> (stream: TokenStream)
    ensures
        stream_tokens(stream) == with_statements(item@, stream_tokens(statements)),
{
    let mut block = print_attributes(&item.attributes, true);
    append(&mut block, statements);
    let mut stream = print_attributes(&item.attributes, false);
    append(&mut stream, item.visibility);
    append(&mut stream, item.signature);
    append(&mut stream, group(Delimiter::Brace, block));
    stream
}

/// The message on an asynchronous function.
pub open spec fn async_message() -> Seq<char> {
    "#[stacksafe] does not support async functions"@
}

/// The block that takes the place of the block of `item`.
pub open spec fn new_block(item: FnView, crate_path: Option<Seq<Token>>) -> Seq<Token> {
    let path = match crate_path {
        Some(path) => path,
        None => default_crate(),
    };
    wrapped_block(path, closure_output(item.output), item.block)
}

/// What the attribute makes of its parameters and of the function that it stands on: calls of
/// `compile_error!` if something is wrong with the parameters, or else with the function, or
/// else if the function is asynchronous; and else the function, with its block on a stack
/// that is large enough.
///
/// There is nothing that it makes of a function if the path that was chosen for the crate
/// does not read as part of an expression.
pub open spec fn expansion(
    trace: MetaTraceView,
    item: Result<FnView, Seq<Seq<char>>>,
) -> Option<Seq<Token>> {
    match (chosen_crate(trace), item) {
        (Err(messages), _) => Some(compile_errors(messages)),
        (Ok(_), Err(messages)) => Some(compile_errors(messages)),
        (Ok(crate_path), Ok(item)) => if item.asyncness is Some {
            Some(compile_errors(seq![async_message()]))
        } else {
            match block_statements(new_block(item, crate_path)) {
                Ok(statements) => Some(with_statements(item, statements)),
                Err(_) => None,
            }
        },
    }
}

/// What the attribute makes of parameters and of a function that have been read (see
/// [`expansion`]).
pub fn expand(trace: MetaTrace, item: Result<FnParts, syn::Error>) -> (result: Option<
    TokenStream,
>)
    ensures
        tokens_of(result) == expansion(trace@, fn_view(item)),
{
    let crate_path = match choose_crate(trace) {
        Ok(crate_path) => crate_path,
        Err(error) => return Some(error.to_compile_error()),
    };
    let item = match item {
        Ok(item) => item,
        Err(error) => return Some(error.to_compile_error()),
    };
    if let Some(asyncness) = item.asyncness {
        let message = "#[stacksafe] does not support async functions".to_string();
        return Some(error_at(asyncness, message).to_compile_error());
    }
    let path = match crate_path {
        Some(path) => path,
        None => {
            proof {
                reveal_strlit("stacksafe");
            }
            member_path(&TokenStream::new(), "stacksafe")
        },
    };
    let block = wrap_block(&path, &item.output, item.block.clone());
    match parse_block(block) {
        Ok(statements) => Some(replace_statements(item, statements)),
        Err(_) => None,
    }
}

/// The attribute `#[stacksafe]`: `args` are its parameters, and `item` is what it stands on.
/// The function that it makes of a function grows the stack where what is left of it is too
/// small, so that deep recursion does not run out of stack.
///
/// The one parameter is `crate = path`, the path to this crate where it is not `::stacksafe`.
pub fn stacksafe(args: TokenStream, item: TokenStream) -> (result: TokenStream)
    requires
        expansion(nested_metas(stream_tokens(args)), parsed_fn(stream_tokens(item))) is Some,
    ensures
        Some(stream_tokens(result)) == expansion(
            nested_metas(stream_tokens(args)),
            parsed_fn(stream_tokens(item)),
        ),
        stream_tokens(args).len() == 0 ==> chosen_crate(nested_metas(stream_tokens(args))) == Ok::<
            Option<Seq<Token>>,
            Seq<Seq<char>>,
        >(None),
{
    let trace = read_metas(args);
    expand(trace, parse_fn(item)).unwrap()
}

/// [`stacksafe`] where it makes something of its input, and nothing where it does not.
pub fn try_stacksafe(args: TokenStream, item: TokenStream) -> (result: Option<TokenStream>)
    ensures
        tokens_of(result) == expansion(
            nested_metas(stream_tokens(args)),
            parsed_fn(stream_tokens(item)),
        ),
        stream_tokens(args).len() == 0 ==> chosen_crate(nested_metas(stream_tokens(args))) == Ok::<
            Option<Seq<Token>>,
            Seq<Seq<char>>,
        >(None),
{
    let trace = read_metas(args.clone());
    match expand(trace, parse_fn(item.clone())) {
        Some(_) => Some(stacksafe(args, item)),
        None => None,
    }
}

/// The first parameter that is not known is the one that is reported.
pub proof fn first_unknown_is_reported(trace: MetaTraceView, i: int)
    requires
        first_unknown(trace.metas, i),
    ensures
        chosen_crate(trace) == Err::<Option<Seq<Token>>, Seq<Seq<char>>>(
            seq![unknown_parameter(trace.metas[i].ident)],
        ),
{
    let j = choose|j: int| first_unknown(trace.metas, j);
    assert(first_unknown(trace.metas, j));
    if i < j {
        assert(is_crate(trace.metas[i]));
    } else if j < i {
        assert(is_crate(trace.metas[j]));
    }
}

/// Only an attribute without parameters leaves the choice of the crate open.
pub proof fn default_crate_without_parameters(trace: MetaTraceView)
    requires
        trace.wf(),
    ensures
        chosen_crate(trace) == Ok::<Option<Seq<Token>>, Seq<Seq<char>>>(None) <==> {
            &&& trace.metas.len() == 0
            &&& trace.failure is None
        },
{
    if trace.metas.len() > 0 {
        assert(trace.metas[trace.metas.len() - 1].value is None ==> trace.failure is Some);
    }
}

/// What is wrong with the parameters is reported whatever the attribute stands on, and then
/// what is wrong with the function.
pub proof fn errors_in_order(
    trace: MetaTraceView,
    item: Result<FnView, Seq<Seq<char>>>,
    messages: Seq<Seq<char>>,
)
    ensures
        chosen_crate(trace) == Err::<Option<Seq<Token>>, Seq<Seq<char>>>(messages) ==> expansion(
            trace,
            item,
        ) == Some(compile_errors(messages)),
        chosen_crate(trace) is Ok && item == Err::<FnView, Seq<Seq<char>>>(messages)
            ==> expansion(trace, item) == Some(compile_errors(messages)),
{
}

/// No asynchronous function gets a new block.
pub proof fn async_is_refused(trace: MetaTraceView, item: FnView)
    requires
        chosen_crate(trace) is Ok,
        item.asyncness is Some,
    ensures
        expansion(trace, Ok(item)) == Some(compile_errors(seq![async_message()])),
{
}

/// Where the attribute makes a function of a function, everything up to the block stays as it
/// is: the outer attributes, the visibility and the whole signature, `impl Trait` included.
/// The block that follows begins with the inner attributes.
pub proof fn header_is_kept(trace: MetaTraceView, item: FnView, tokens: Seq<Token>)
    requires
        chosen_crate(trace) is Ok,
        item.asyncness is None,
        expansion(trace, Ok(item)) == Some(tokens),
    ensures
        tokens.len() >= header(item).len() + 2,
        tokens.take(header(item).len() as int) == header(item),
        tokens[header(item).len() as int] == Token::Open(Delimiter::Brace),
        tokens.last() == Token::Close(Delimiter::Brace),
        attribute_tokens(item.attributes, true).is_prefix_of(
            tokens.skip(header(item).len() as int + 1),
        ),
{
    let statements = block_statements(new_block(item, chosen_crate(trace)->Ok_0))->Ok_0;
    let inner = attribute_tokens(item.attributes, true);
    let body = grouped(Delimiter::Brace, inner + statements);
    assert(tokens == header(item) + body);
    assert(tokens.skip(header(item).len() as int + 1) == inner + statements
        + seq![Token::Close(Delimiter::Brace)]);
}

/// A function that returns `impl Trait` gets the same new block as one that does not say what
/// it returns.
pub proof fn impl_trait_is_inferred(
    item: FnView,
    crate_path: Option<Seq<Token>>,
    output: Seq<Token>,
)
    ensures
        new_block(FnView { output: FnOutputView::ImplTrait(output), ..item }, crate_path)
            == new_block(FnView { output: FnOutputView::Default, ..item }, crate_path),
{
}

/// A parameter that is not `crate = path` is refused by its name, whatever follows it, if none
/// before it was.
pub proof fn parameters_are_refused_by_name(
    trace: MetaTrace,
    i: int,
    result: Result<Option<TokenStream>, syn::Error>,
)
    requires
        call_ensures(choose_crate, (trace,), result),
        0 <= i < trace.metas@.len(),
        forall|j: int|
            0 <= j < i ==> (#[trigger] trace.metas@[j]).ident is Some && trace.metas@[j].ident->0@
                == "crate"@,
        trace.metas@[i].ident matches Some(name) ==> name@ != "crate"@,
    ensures
        result is Err,
        error_messages(result->Err_0) == seq![
            "unknown attribute parameter `"@ + (match trace.metas@[i].ident {
                Some(name) => name@,
                None => "unknown"@,
            }) + "`"@,
        ],
{
    assert forall|j: int| 0 <= j < i implies is_crate(#[trigger] trace@.metas[j]) by {
        assert(trace.metas@[j].ident is Some);
    }
    assert(first_unknown(trace@.metas, i));
    first_unknown_is_reported(trace@, i);
}

/// Where every parameter is `crate = path`, the path of the last one is chosen, and none where
/// there is no parameter. If reading the parameters has failed, that is what is reported.
pub proof fn last_path_is_chosen(
    trace: MetaTrace,
    result: Result<Option<TokenStream>, syn::Error>,
)
    requires
        call_ensures(choose_crate, (trace,), result),
        forall|j: int|
            0 <= j < trace.metas@.len() ==> (#[trigger] trace.metas@[j]).ident is Some
                && trace.metas@[j].ident->0@ == "crate"@,
    ensures
        match trace.failure {
            Some(failure) => result is Err && error_messages(result->Err_0) == error_messages(
                failure,
            ),
            None => {
                &&& result is Ok
                &&& trace.metas@.len() == 0 ==> result->Ok_0 is None
                &&& trace.metas@.len() > 0 ==> match trace.metas@.last().value {
                    Some(path) => result->Ok_0 is Some && stream_tokens(result->Ok_0->0)
                        == stream_tokens(path),
                    None => result->Ok_0 is None,
                }
            },
        },
        call_requires(choose_crate, (trace,)),
{
    assert forall|j: int| 0 <= j < trace@.metas.len() implies is_crate(
        #[trigger] trace@.metas[j],
    ) by {
        assert(trace.metas@[j].ident is Some);
    }
    assert(!exists|j: int| first_unknown(trace@.metas, j));
    if trace.metas@.len() > 0 {
        assert(trace@.metas.last() == trace.metas@.last()@);
    }
}

proof fn crate_paths(path: Seq<Token>)
    ensures
        ({
            let colon = Token::Punct(':', true);
            let last_colon = Token::Punct(':', false);
            &&& member(member(member(path, "internal"@), "stacker"@), "maybe_grow"@) == path + seq![
                colon,
                last_colon,
                Token::Ident("internal"@),
                colon,
                last_colon,
                Token::Ident("stacker"@),
                colon,
                last_colon,
                Token::Ident("maybe_grow"@),
            ]
            &&& member(path, "get_minimum_stack_size"@) == path + seq![
                colon,
                last_colon,
                Token::Ident("get_minimum_stack_size"@),
            ]
            &&& member(path, "get_stack_allocation_size"@) == path + seq![
                colon,
                last_colon,
                Token::Ident("get_stack_allocation_size"@),
            ]
            &&& member(member(path, "internal"@), "with_protected"@) == path + seq![
                colon,
                last_colon,
                Token::Ident("internal"@),
                colon,
                last_colon,
                Token::Ident("with_protected"@),
            ]
            &&& grouped(Delimiter::Parenthesis, Seq::empty()) == seq![
                Token::Open(Delimiter::Parenthesis),
                Token::Close(Delimiter::Parenthesis),
            ]
        }),
{
}

/// The block of a function is put, as it is, into a closure that a call with four paths into the
/// crate `path` runs:
///
/// ```text
/// {
///     path::internal::stacker::maybe_grow(
///         path::get_minimum_stack_size(),
///         path::get_stack_allocation_size(),
///         path::internal::with_protected(move || -> Type { block })
///     )
/// }
/// ```
///
/// The closure says which type it returns where the function does, unless that is `impl Trait`.
pub proof fn block_is_run_by_the_crate(
    path: TokenStream,
    output: FnOutput,
    block: TokenStream,
    wrapped: TokenStream,
)
    requires
        call_ensures(wrap_block, (&path, &output, block), wrapped),
    ensures
        ({
            let colon = Token::Punct(':', true);
            let last_colon = Token::Punct(':', false);
            let arrow = match output {
                FnOutput::Type(tokens) => stream_tokens(tokens),
                _ => Seq::empty(),
            };
            let grow = stream_tokens(path) + seq![
                colon,
                last_colon,
                Token::Ident("internal"@),
                colon,
                last_colon,
                Token::Ident("stacker"@),
                colon,
                last_colon,
                Token::Ident("maybe_grow"@),
            ];
            let minimum = stream_tokens(path) + seq![
                colon,
                last_colon,
                Token::Ident("get_minimum_stack_size"@),
            ];
            let allocation = stream_tokens(path) + seq![
                colon,
                last_colon,
                Token::Ident("get_stack_allocation_size"@),
            ];
            let protect = stream_tokens(path) + seq![
                colon,
                last_colon,
                Token::Ident("internal"@),
                colon,
                last_colon,
                Token::Ident("with_protected"@),
            ];
            let open = seq![Token::Open(Delimiter::Parenthesis)];
            let close = seq![Token::Close(Delimiter::Parenthesis)];
            let open_block = seq![Token::Open(Delimiter::Brace)];
            let close_block = seq![Token::Close(Delimiter::Brace)];
            let then_comma = seq![Token::Punct(',', false)];
            let no_arguments = seq![
                Token::Open(Delimiter::Parenthesis),
                Token::Close(Delimiter::Parenthesis),
            ];
            let run = seq![Token::Ident("move"@), Token::Punct('|', true), Token::Punct('|', false)]
                + arrow + (open_block + stream_tokens(block) + close_block);
            let arguments = minimum + no_arguments + then_comma + allocation + no_arguments
                + then_comma + (protect + (open + run + close));
            stream_tokens(wrapped) == open_block + (grow + (open + arguments + close)) + close_block
        }),
        call_requires(wrap_block, (&path, &output, block)),
{
    crate_paths(stream_tokens(path));
}

proof fn attributes_in_order(
    attributes: Seq<FnAttribute>,
    inner: bool,
    take: spec_fn(Seq<Token>, FnAttribute) -> Seq<Token>,
)
    requires
        forall|tokens: Seq<Token>, attribute: FnAttribute| #[trigger]
            take(tokens, attribute) == (if attribute.is_inner == inner {
                tokens + stream_tokens(attribute.tokens)
            } else {
                tokens
            }),
    ensures
        attribute_tokens(attributes.map_values(|attribute: FnAttribute| attribute@), inner)
            == attributes.fold_left(Seq::<Token>::empty(), take),
    decreases attributes.len(),
{
    let views = attributes.map_values(|attribute: FnAttribute| attribute@);
    if attributes.len() > 0 {
        attributes_in_order(attributes.drop_last(), inner, take);
        assert(views.drop_last() == attributes.drop_last().map_values(
            |attribute: FnAttribute| attribute@,
        ));
        assert(views.last() == attributes.last()@);
        let before = attributes.drop_last().fold_left(Seq::<Token>::empty(), take);
        assert(attributes.fold_left(Seq::<Token>::empty(), take) == take(
            before,
            attributes.last(),
        ));
        assert(before + Seq::<Token>::empty() == before);
    }
}

proof fn both_attributes_in_order(attributes: Seq<FnAttribute>)
    ensures
        attribute_tokens(attributes.map_values(|attribute: FnAttribute| attribute@), false)
            == attributes.fold_left(
            Seq::<Token>::empty(),
            |tokens: Seq<Token>, attribute: FnAttribute|
                if attribute.is_inner {
                    tokens
                } else {
                    tokens + stream_tokens(attribute.tokens)
                },
        ),
        attribute_tokens(attributes.map_values(|attribute: FnAttribute| attribute@), true)
            == attributes.fold_left(
            Seq::<Token>::empty(),
            |tokens: Seq<Token>, attribute: FnAttribute|
                if attribute.is_inner {
                    tokens + stream_tokens(attribute.tokens)
                } else {
                    tokens
                },
        ),
{
    attributes_in_order(
        attributes,
        false,
        |tokens: Seq<Token>, attribute: FnAttribute|
            if attribute.is_inner {
                tokens
            } else {
                tokens + stream_tokens(attribute.tokens)
            },
    );
    attributes_in_order(
        attributes,
        true,
        |tokens: Seq<Token>, attribute: FnAttribute|
            if attribute.is_inner {
                tokens + stream_tokens(attribute.tokens)
            } else {
                tokens
            },
    );
}

/// A function whose statements are replaced keeps its outer attributes in their order, its
/// visibility and its signature; its block holds the inner attributes in their order and then
/// the new statements, and nothing of the old ones.
pub proof fn only_statements_are_replaced(
    item: FnParts,
    statements: TokenStream,
    result: TokenStream,
)
    requires
        call_ensures(replace_statements, (item, statements), result),
    ensures
        stream_tokens(result) == item.attributes@.fold_left(
            Seq::<Token>::empty(),
            |tokens: Seq<Token>, attribute: FnAttribute|
                if attribute.is_inner {
                    tokens
                } else {
                    tokens + stream_tokens(attribute.tokens)
                },
        ) + stream_tokens(item.visibility) + stream_tokens(item.signature) + seq![
            Token::Open(Delimiter::Brace),
        ] + item.attributes@.fold_left(
            Seq::<Token>::empty(),
            |tokens: Seq<Token>, attribute: FnAttribute|
                if attribute.is_inner {
                    tokens + stream_tokens(attribute.tokens)
                } else {
                    tokens
                },
        ) + stream_tokens(statements) + seq![Token::Close(Delimiter::Brace)],
        call_requires(replace_statements, (item, statements)),
{
    both_attributes_in_order(item.attributes@);
}

/// What is wrong with the parameters is reported first, then what is wrong with the function,
/// and then that it is asynchronous; each in full, and nothing else is made.
pub proof fn errors_are_reported(
    trace: MetaTrace,
    choice: Result<Option<TokenStream>, syn::Error>,
    item: Result<FnParts, syn::Error>,
    result: Option<TokenStream>,
)
    requires
        call_ensures(choose_crate, (trace,), choice),
        call_ensures(expand, (trace, item), result),
        choice is Err || item is Err || item->Ok_0.asyncness is Some,
    ensures
        result is Some,
        choice is Err ==> stream_tokens(result->0) == compile_errors(
            error_messages(choice->Err_0),
        ),
        choice is Ok && item is Err ==> stream_tokens(result->0) == compile_errors(
            error_messages(item->Err_0),
        ),
        choice is Ok && item is Ok ==> stream_tokens(result->0) == seq![
            Token::Punct(':', true),
            Token::Punct(':', false),
            Token::Ident("core"@),
            Token::Punct(':', true),
            Token::Punct(':', false),
            Token::Ident("compile_error"@),
            Token::Punct('!', false),
            Token::Open(Delimiter::Brace),
            Token::Str("#[stacksafe] does not support async functions"@),
            Token::Close(Delimiter::Brace),
        ],
        call_requires(expand, (trace, item)),
{
    let messages = seq!["#[stacksafe] does not support async functions"@];
    assert(messages.drop_last() == Seq::<Seq<char>>::empty());
    reveal_with_fuel(compile_errors, 2);
}

/// A function that is not asynchronous keeps everything but its statements, whatever it returns.
/// They are those of the block that runs its own block by way of the crate `path`: the path of
/// the last parameter, and `::stacksafe` exactly where none was given. Nothing is made exactly
/// where that block cannot be read.
pub proof fn chosen_crate_runs_the_block(
    trace: MetaTrace,
    path: Seq<Token>,
    item: FnParts,
    result: Option<TokenStream>,
)
    requires
        call_ensures(expand, (trace, Ok::<FnParts, syn::Error>(item)), result),
        forall|j: int|
            0 <= j < trace.metas@.len() ==> (#[trigger] trace.metas@[j]).ident is Some
                && trace.metas@[j].ident->0@ == "crate"@,
        trace.failure is None,
        item.asyncness is None,
        if trace.metas@.len() > 0 && trace.metas@.last().value is Some {
            path == stream_tokens(trace.metas@.last().value->0)
        } else {
            path == seq![
                Token::Punct(':', true),
                Token::Punct(':', false),
                Token::Ident("stacksafe"@),
            ]
        },
    ensures
        ({
            let colon = Token::Punct(':', true);
            let last_colon = Token::Punct(':', false);
            let arrow = match item.output {
                FnOutput::Type(tokens) => stream_tokens(tokens),
                _ => Seq::empty(),
            };
            let grow = path + seq![
                colon,
                last_colon,
                Token::Ident("internal"@),
                colon,
                last_colon,
                Token::Ident("stacker"@),
                colon,
                last_colon,
                Token::Ident("maybe_grow"@),
            ];
            let minimum = path + seq![
                colon,
                last_colon,
                Token::Ident("get_minimum_stack_size"@),
            ];
            let allocation = path + seq![
                colon,
                last_colon,
                Token::Ident("get_stack_allocation_size"@),
            ];
            let protect = path + seq![
                colon,
                last_colon,
                Token::Ident("internal"@),
                colon,
                last_colon,
                Token::Ident("with_protected"@),
            ];
            let open = seq![Token::Open(Delimiter::Parenthesis)];
            let close = seq![Token::Close(Delimiter::Parenthesis)];
            let open_block = seq![Token::Open(Delimiter::Brace)];
            let close_block = seq![Token::Close(Delimiter::Brace)];
            let then_comma = seq![Token::Punct(',', false)];
            let no_arguments = seq![
                Token::Open(Delimiter::Parenthesis),
                Token::Close(Delimiter::Parenthesis),
            ];
            let run = seq![Token::Ident("move"@), Token::Punct('|', true), Token::Punct('|', false)]
                + arrow + (open_block + stream_tokens(item.block) + close_block);
            let arguments = minimum + no_arguments + then_comma + allocation + no_arguments
                + then_comma + (protect + (open + run + close));
            let block = open_block + (grow + (open + arguments + close)) + close_block;
            match block_statements(block) {
                Ok(statements) => result is Some && stream_tokens(result->0)
                    == item.attributes@.fold_left(
                        Seq::<Token>::empty(),
                        |tokens: Seq<Token>, attribute: FnAttribute|
                            if attribute.is_inner {
                                tokens
                            } else {
                                tokens + stream_tokens(attribute.tokens)
                            },
                    ) + stream_tokens(item.visibility) + stream_tokens(item.signature) + seq![
                    Token::Open(Delimiter::Brace),
                ] + item.attributes@.fold_left(
                        Seq::<Token>::empty(),
                        |tokens: Seq<Token>, attribute: FnAttribute|
                            if attribute.is_inner {
                                tokens + stream_tokens(attribute.tokens)
                            } else {
                                tokens
                            },
                    ) + statements + seq![Token::Close(Delimiter::Brace)],
                Err(_) => result is None,
            }
        }),
        call_requires(expand, (trace, Ok::<FnParts, syn::Error>(item))),
{
    assert forall|j: int| 0 <= j < trace@.metas.len() implies is_crate(
        #[trigger] trace@.metas[j],
    ) by {
        assert(trace.metas@[j].ident is Some);
    }
    assert(!exists|j: int| first_unknown(trace@.metas, j));
    if trace.metas@.len() > 0 {
        assert(trace@.metas.last() == trace.metas@.last()@);
    }
    assert(trace.metas@.len() > 0 && trace.metas@.last().value is Some || path == default_crate());
    both_attributes_in_order(item.attributes@);
    crate_paths(path);
}

/// The attribute makes of its tokens what is made of the parameters and the function that are
/// read from them, and nothing where nothing is made of these.
pub proof fn attribute_expands_what_was_read(
    args: TokenStream,
    item: TokenStream,
    trace: MetaTrace,
    parts: Result<FnParts, syn::Error>,
    expanded: Option<TokenStream>,
    tried: Option<TokenStream>,
    result: TokenStream,
)
    requires
        trace@ == nested_metas(stream_tokens(args)),
        fn_view(parts) == parsed_fn(stream_tokens(item)),
        call_ensures(expand, (trace, parts), expanded),
        call_ensures(try_stacksafe, (args, item), tried),
        expanded is Some ==> call_ensures(stacksafe, (args, item), result),
    ensures
        call_requires(try_stacksafe, (args, item)),
        expanded is Some ==> call_requires(stacksafe, (args, item)),
        tried is Some <==> expanded is Some,
        expanded matches Some(expanded) ==> {
            &&& stream_tokens(tried->0) == stream_tokens(expanded)
            &&& stream_tokens(result) == stream_tokens(expanded)
        },
{
}

} // verus!
