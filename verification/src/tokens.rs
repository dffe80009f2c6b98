use proc_macro2::TokenStream;
use vstd::prelude::*;

verus! {

/// What stands around a group of tokens.
#[derive(Clone, Copy, Debug, PartialEq, Eq, Structural)]
pub enum Delimiter {
    Parenthesis,
    Brace,
    Bracket,
    /// Nothing that is written down: the group holds together what was one before.
    Invisible,
}

/// One token of Rust source, without the place where it comes from.
pub enum Token {
    /// A name or a keyword, with `r#` before it where it is raw.
    Ident(Seq<char>),
    /// One punctuation character, and whether the next token is punctuation that follows
    /// without a space.
    Punct(char, bool),
    /// A string literal without a suffix, by the text that it stands for.
    Str(Seq<char>),
    /// Any other literal, as it is written.
    Literal(Seq<char>),
    Open(Delimiter),
    Close(Delimiter),
}

/// `proc_macro2::TokenStream`, a sequence of token trees.
#[verifier::external_type_specification]
#[verifier::external_body]
pub struct ExTokenStream(proc_macro2::TokenStream);

/// What a token stream holds: its tokens in their order, each group as what stands between
/// its opening and its closing delimiter.
pub uninterp spec fn stream_tokens(stream: proc_macro2::TokenStream) -> Seq<Token>;

/// `TokenStream::new` returns a stream that holds nothing.
pub assume_specification[ proc_macro2::TokenStream::new ]() -> (stream: TokenStream)
    ensures
        stream_tokens(stream) == Seq::<Token>::empty(),
;

/// `TokenStream::clone` returns a stream that holds the same tokens.
pub assume_specification[ <proc_macro2::TokenStream as Clone>::clone ](
    stream: &TokenStream,
) -> (copy: TokenStream)
    ensures
        stream_tokens(copy) == stream_tokens(*stream),
;

/// `TokenStream::extend` with another stream: its tokens come behind those that are there.
/// (Streams of the compiler and streams made without it do not mix; a process works with one
/// of the two kinds.)
#[verifier::external_body]
pub(crate) fn append(stream: &mut TokenStream, more: TokenStream)
    ensures
        stream_tokens(*final(stream)) == stream_tokens(*old(stream)) + stream_tokens(more),
{
    stream.extend(more);
}

/// A name of lower-case letters and underscores that starts with a letter.
pub open spec fn is_plain_name(name: Seq<char>) -> bool {
    &&& name.len() > 0
    &&& 'a' <= name[0] <= 'z'
    &&& forall|i: int|
        0 <= i < name.len() ==> 'a' <= #[trigger] name[i] <= 'z' || name[i] == '_'
}

/// `Ident::new` makes the identifier with this name. It panics on a text that is no
/// identifier, so only plain names are handed to it. Its place is that of the macro's call.
#[verifier::external_body]
pub(crate) fn ident(name: &str) -> (stream: TokenStream)
    requires
        is_plain_name(name@),
    ensures
        stream_tokens(stream) == seq![Token::Ident(name@)],
{
    let name = proc_macro2::Ident::new(name, proc_macro2::Span::call_site());
    TokenStream::from(proc_macro2::TokenTree::Ident(name))
}

/// `Punct::new` makes a punctuation token. It panics on a character that is no punctuation
/// of the language, so only some that are can be handed to it. Its place is that of the
/// macro's call.
#[verifier::external_body]
pub(crate) fn punct(character: char, joint: bool) -> (stream: TokenStream)
    requires
        character == ':' || character == ',' || character == '|',
    ensures
        stream_tokens(stream) == seq![Token::Punct(character, joint)],
{
    let spacing = match joint {
        true => proc_macro2::Spacing::Joint,
        false => proc_macro2::Spacing::Alone,
    };
    TokenStream::from(proc_macro2::TokenTree::Punct(proc_macro2::Punct::new(character, spacing)))
}

/// `Group::new` makes a group: what it holds is `inner` between the two delimiters. Its place
/// is that of the macro's call.
#[verifier::external_body]
pub(crate) fn group(delimiter: Delimiter, inner: TokenStream) -> (stream: TokenStream)
    ensures
        stream_tokens(stream) == seq![Token::Open(delimiter)] + stream_tokens(inner)
            + seq![Token::Close(delimiter)],
{
    let delimiter = match delimiter {
        Delimiter::Parenthesis => proc_macro2::Delimiter::Parenthesis,
        Delimiter::Brace => proc_macro2::Delimiter::Brace,
        Delimiter::Bracket => proc_macro2::Delimiter::Bracket,
        Delimiter::Invisible => proc_macro2::Delimiter::None,
    };
    TokenStream::from(proc_macro2::TokenTree::Group(proc_macro2::Group::new(delimiter, inner)))
}

/// `syn::Error`, a collection of one or more messages on source code.
#[verifier::external_type_specification]
#[verifier::external_body]
pub struct ExError(syn::Error);

/// The messages that an error holds, in their order.
pub uninterp spec fn error_messages(error: syn::Error) -> Seq<Seq<char>>;

/// The two tokens of a path separator.
pub open spec fn separator() -> Seq<Token> {
    seq![Token::Punct(':', true), Token::Punct(':', false)]
}

/// The tokens that make the compiler report `messages`, one after the other:
/// `::core::compile_error! { "message" }` for each.
pub open spec fn compile_errors(messages: Seq<Seq<char>>) -> Seq<Token>
    decreases messages.len(),
{
    if messages.len() == 0 {
        Seq::empty()
    } else {
        compile_errors(messages.drop_last()) + separator() + seq![Token::Ident("core"@)]
            + separator() + seq![
            Token::Ident("compile_error"@),
            Token::Punct('!', false),
            Token::Open(Delimiter::Brace),
            Token::Str(messages.last()),
            Token::Close(Delimiter::Brace),
        ]
    }
}

/// `Error::to_compile_error` renders an error as calls of `compile_error!`, one for each of
/// its messages.
pub assume_specification[ syn::Error::to_compile_error ](error: &syn::Error) -> (stream:
    TokenStream)
    ensures
        stream_tokens(stream) == compile_errors(error_messages(*error)),
;

/// `Error::new_spanned` makes an error with one message that points at `place`. Where in the
/// source it points is left unsaid.
#[verifier::external_body]
pub(crate) fn error_at(place: TokenStream, message: String) -> (error: syn::Error)
    ensures
        error_messages(error) == seq![message@],
{
    syn::Error::new_spanned(place, message)
}

} // verus!
