//! Token streams, and the vocabulary in which generated code is written down.
//!
//! A token stream is seen as the sequence of its token trees, [`trees`]. The methods of
//! [`TreeSeq`] append to such a sequence; each has an executable counterpart of the same
//! name that appends to the stream itself.

use proc_macro2::{Group, Ident, Punct, Span, TokenStream};
use quote::{ToTokens, TokenStreamExt};
use syn::{Generics, Lifetime, LifetimeParam};
use vstd::prelude::*;

verus! {

/// A stream of tokens, as `proc_macro2` holds it.
#[verifier::external_type_specification]
#[verifier::external_body]
pub struct ExTokenStream(proc_macro2::TokenStream);

/// An identifier, with the place in the source that it came from.
#[verifier::external_type_specification]
#[verifier::external_body]
pub struct ExIdent(proc_macro2::Ident);

/// The generic parameters and the `where` clause of a type.
#[verifier::external_type_specification]
#[verifier::external_body]
pub struct ExGenerics(syn::Generics);

/// What encloses a group of tokens.
#[derive(Clone, Copy, Debug, PartialEq, Eq, Structural)]
pub enum Delimiter {
    Parenthesis,
    Brace,
    Bracket,
    /// No visible delimiter.
    Invisible,
}

/// Whether a punctuation character and the one that follows make one operator.
#[derive(Clone, Copy, Debug, PartialEq, Eq, Structural)]
pub enum Spacing {
    Alone,
    Joint,
}

/// A token tree, without its place in the source.
pub enum Tree {
    /// An identifier or keyword, with the `r#` of a raw one.
    Ident(Seq<char>),
    /// A punctuation character.
    Punct(char, Spacing),
    /// A string literal, by its value.
    Str(Seq<char>),
    /// Any other literal, as it is written.
    Literal(Seq<char>),
    /// A delimited group.
    Group(Delimiter, Seq<Tree>),
}

/// The token trees that a stream holds, in order.
pub uninterp spec fn trees(stream: TokenStream) -> Seq<Tree>;

/// The characters of an identifier, with the `r#` of a raw one.
pub uninterp spec fn ident_text(ident: Ident) -> Seq<char>;

/// The generic parameters as an `impl` declares them: `<'a, T: Bound>`, or nothing.
pub uninterp spec fn impl_generics(generics: Generics) -> Seq<Tree>;

/// The generic parameters as a use of the type names them: `<'a, T>`, or nothing.
pub uninterp spec fn type_generics(generics: Generics) -> Seq<Tree>;

/// The `where` clause, or nothing.
pub uninterp spec fn where_clause(generics: Generics) -> Seq<Tree>;

/// A letter of the ASCII alphabet, a digit or an underscore.
pub open spec fn word_char(c: char) -> bool {
    ('a' <= c && c <= 'z') || ('A' <= c && c <= 'Z') || ('0' <= c && c <= '9') || c == '_'
}

/// An identifier or keyword in ASCII.
pub open spec fn plain_word(text: Seq<char>) -> bool {
    &&& text.len() > 0
    &&& !('0' <= text[0] && text[0] <= '9')
    &&& forall|i: int| 0 <= i < text.len() ==> word_char(#[trigger] text[i])
}

/// The characters that punctuation is made of.
pub open spec fn punct_char(c: char) -> bool {
    ||| c == '!' || c == '#' || c == '$' || c == '%' || c == '&' || c == '\'' || c == '*'
    ||| c == '+' || c == ',' || c == '-' || c == '.' || c == '/' || c == ':' || c == ';'
    ||| c == '<' || c == '=' || c == '>' || c == '?' || c == '@' || c == '^' || c == '|'
    ||| c == '~'
}

/// Appending to a sequence of token trees.
pub trait TreeSeq: Sized {
    /// An identifier or keyword.
    spec fn word(self, name: Seq<char>) -> Self;

    /// A punctuation character that stands alone or ends an operator.
    spec fn punct(self, c: char) -> Self;

    /// A punctuation character that the next one continues.
    spec fn joint(self, c: char) -> Self;

    /// A string literal.
    spec fn string(self, value: Seq<char>) -> Self;

    /// The trees of another sequence.
    spec fn splice(self, other: Self) -> Self;

    /// A group.
    spec fn group(self, delimiter: Delimiter, inner: Self) -> Self;

    /// `( inner )`
    spec fn paren(self, inner: Self) -> Self;

    /// `:: name`
    spec fn seg(self, name: Seq<char>) -> Self;

    /// `. name ( args )`
    spec fn call(self, name: Seq<char>, args: Self) -> Self;

    /// `'name`
    spec fn lifetime(self, name: Seq<char>) -> Self;

    /// `->`
    spec fn arrow(self) -> Self;
}

impl TreeSeq for Seq<Tree> {
    open spec fn word(self, name: Seq<char>) -> Seq<Tree> {
        self.push(Tree::Ident(name))
    }

    open spec fn punct(self, c: char) -> Seq<Tree> {
        self.push(Tree::Punct(c, Spacing::Alone))
    }

    open spec fn joint(self, c: char) -> Seq<Tree> {
        self.push(Tree::Punct(c, Spacing::Joint))
    }

    open spec fn string(self, value: Seq<char>) -> Seq<Tree> {
        self.push(Tree::Str(value))
    }

    open spec fn splice(self, other: Seq<Tree>) -> Seq<Tree> {
        self + other
    }

    open spec fn group(self, delimiter: Delimiter, inner: Seq<Tree>) -> Seq<Tree> {
        self.push(Tree::Group(delimiter, inner))
    }

    open spec fn paren(self, inner: Seq<Tree>) -> Seq<Tree> {
        self.group(Delimiter::Parenthesis, inner)
    }

    open spec fn seg(self, name: Seq<char>) -> Seq<Tree> {
        self.joint(':').punct(':').word(name)
    }

    open spec fn call(self, name: Seq<char>, args: Seq<Tree>) -> Seq<Tree> {
        self.punct('.').word(name).paren(args)
    }

    open spec fn lifetime(self, name: Seq<char>) -> Seq<Tree> {
        self.joint('\'').word(name)
    }

    open spec fn arrow(self) -> Seq<Tree> {
        self.joint('-').punct('>')
    }
}

/// No tokens.
pub open spec fn nothing() -> Seq<Tree> {
    Seq::empty()
}

/// `proc_macro2::TokenStream::new`: a stream without tokens.
#[verifier::external_body]
pub(crate) fn new_stream() -> (stream: TokenStream)
    ensures
        trees(stream) == nothing(),
{
    TokenStream::new()
}

/// `proc_macro2::Ident::new` at the call site of the macro: an identifier of exactly these
/// characters. The function panics on text that is no identifier.
#[verifier::external_body]
pub(crate) fn new_ident(name: &str) -> (ident: Ident)
    requires
        plain_word(name@),
    ensures
        ident_text(ident) == name@,
{
    Ident::new(name, Span::call_site())
}

/// The `Display` of `proc_macro2::Ident`: the characters of the identifier.
#[verifier::external_body]
pub(crate) fn ident_to_string(ident: &Ident) -> (text: String)
    ensures
        text@ == ident_text(*ident),
{
    ident.to_string()
}

/// `quote::ToTokens` of an identifier: appends one token, the identifier.
#[verifier::external_body]
pub(crate) fn push_ident(tokens: &mut TokenStream, ident: &Ident)
    ensures
        trees(*final(tokens)) == trees(*old(tokens)).word(ident_text(*ident)),
{
    ident.to_tokens(tokens);
}

/// `proc_macro2::Punct::new`, appended: one punctuation character. The function panics on a
/// character that is no punctuation.
#[verifier::external_body]
pub(crate) fn push_punct(tokens: &mut TokenStream, c: char, spacing: Spacing)
    requires
        punct_char(c),
    ensures
        trees(*final(tokens)) == trees(*old(tokens)).push(Tree::Punct(c, spacing)),
{
    let spacing = match spacing {
        Spacing::Alone => proc_macro2::Spacing::Alone,
        Spacing::Joint => proc_macro2::Spacing::Joint,
    };
    tokens.append(Punct::new(c, spacing));
}

/// `quote::ToTokens` of a `str`: appends one token, a string literal of this value.
#[verifier::external_body]
pub(crate) fn string(tokens: &mut TokenStream, value: &str)
    ensures
        trees(*final(tokens)) == trees(*old(tokens)).string(value@),
{
    value.to_tokens(tokens);
}

/// `quote::ToTokens` of a stream: appends a copy of each of its tokens.
#[verifier::external_body]
pub(crate) fn splice(tokens: &mut TokenStream, other: &TokenStream)
    ensures
        trees(*final(tokens)) == trees(*old(tokens)).splice(trees(*other)),
{
    other.to_tokens(tokens);
}

/// `proc_macro2::Group::new`, appended: one group that encloses the given stream.
#[verifier::external_body]
pub(crate) fn group(tokens: &mut TokenStream, delimiter: Delimiter, inner: TokenStream)
    ensures
        trees(*final(tokens)) == trees(*old(tokens)).group(delimiter, trees(inner)),
{
    let delimiter = match delimiter {
        Delimiter::Parenthesis => proc_macro2::Delimiter::Parenthesis,
        Delimiter::Brace => proc_macro2::Delimiter::Brace,
        Delimiter::Bracket => proc_macro2::Delimiter::Bracket,
        Delimiter::Invisible => proc_macro2::Delimiter::None,
    };
    tokens.append(Group::new(delimiter, inner));
}

/// `syn::Generics::split_for_impl`: the parameters as an `impl` declares them, the
/// parameters as a use of the type names them, and the `where` clause, as tokens.
#[verifier::external_body]
pub(crate) fn split_for_impl(generics: &Generics) -> (parts: (
    TokenStream,
    TokenStream,
    TokenStream,
))
    ensures
        trees(parts.0) == impl_generics(*generics),
        trees(parts.1) == type_generics(*generics),
        trees(parts.2) == where_clause(*generics),
{
    let (declared, named, condition) = generics.split_for_impl();
    (declared.to_token_stream(), named.to_token_stream(), condition.to_token_stream())
}

/// What `impl` declares when a lifetime comes before all other generic parameters.
pub open spec fn lifetime_first(name: Seq<char>, declared: Seq<Tree>) -> Seq<Tree> {
    let opened = nothing().punct('<').lifetime(name);
    if declared.len() == 0 {
        opened.punct('>')
    } else {
        opened.punct(',').splice(declared.skip(1))
    }
}

/// `syn::Lifetime::new`, `syn::LifetimeParam::new` and `syn::punctuated::Punctuated::insert`
/// at the front: the same generics with one lifetime parameter before all others. An `impl`
/// lists it directly behind the opening `<`, followed by a comma unless it is the only
/// parameter. `Lifetime::new` panics on text that is no apostrophe and identifier.
#[verifier::external_body]
pub(crate) fn with_lifetime(generics: &Generics, lifetime: &str) -> (extended: Generics)
    requires
        lifetime@.len() > 0,
        lifetime@[0] == '\'',
        plain_word(lifetime@.skip(1)),
    ensures
        impl_generics(extended) == lifetime_first(lifetime@.skip(1), impl_generics(*generics)),
{
    let mut extended = generics.clone();
    let lifetime = Lifetime::new(lifetime, Span::call_site());
    extended.params.insert(0, LifetimeParam::new(lifetime).into());
    extended
}

/// Appends an identifier or keyword.
pub(crate) fn word(tokens: &mut TokenStream, name: &str)
    requires
        plain_word(name@),
    ensures
        trees(*final(tokens)) == trees(*old(tokens)).word(name@),
{
    let ident = new_ident(name);
    push_ident(tokens, &ident);
}

/// Appends a punctuation character that stands alone or ends an operator.
pub(crate) fn punct(tokens: &mut TokenStream, c: char)
    requires
        punct_char(c),
    ensures
        trees(*final(tokens)) == trees(*old(tokens)).punct(c),
{
    push_punct(tokens, c, Spacing::Alone);
}

/// Appends a punctuation character that the next one continues.
pub(crate) fn joint(tokens: &mut TokenStream, c: char)
    requires
        punct_char(c),
    ensures
        trees(*final(tokens)) == trees(*old(tokens)).joint(c),
{
    push_punct(tokens, c, Spacing::Joint);
}

/// Appends `( inner )`.
pub(crate) fn paren(tokens: &mut TokenStream, inner: TokenStream)
    ensures
        trees(*final(tokens)) == trees(*old(tokens)).paren(trees(inner)),
{
    group(tokens, Delimiter::Parenthesis, inner);
}

/// Appends `:: name`.
pub(crate) fn seg(tokens: &mut TokenStream, name: &str)
    requires
        plain_word(name@),
    ensures
        trees(*final(tokens)) == trees(*old(tokens)).seg(name@),
{
    joint(tokens, ':');
    punct(tokens, ':');
    word(tokens, name);
}

/// Appends `. name ( args )`.
pub(crate) fn call(tokens: &mut TokenStream, name: &str, args: TokenStream)
    requires
        plain_word(name@),
    ensures
        trees(*final(tokens)) == trees(*old(tokens)).call(name@, trees(args)),
{
    punct(tokens, '.');
    word(tokens, name);
    paren(tokens, args);
}

/// Appends `'name`.
pub(crate) fn lifetime(tokens: &mut TokenStream, name: &str)
    requires
        plain_word(name@),
    ensures
        trees(*final(tokens)) == trees(*old(tokens)).lifetime(name@),
{
    joint(tokens, '\'');
    word(tokens, name);
}

/// Appends `->`.
pub(crate) fn arrow(tokens: &mut TokenStream)
    ensures
        trees(*final(tokens)) == trees(*old(tokens)).arrow(),
{
    joint(tokens, '-');
    punct(tokens, '>');
}

} // verus!
