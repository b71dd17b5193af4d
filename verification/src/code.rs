//! The trait implementations that are generated for a struct.
//!
//! Each `.._code` says which tokens a fragment of them is; the function that writes the
//! fragment stands further down.

use crate::extract::{quote_rename_rule, rule_code};
use crate::feature::RenameRule;
use crate::tokens::{
    arrow, call, group, ident_text, joint, lifetime, new_ident, new_stream, nothing, paren,
    plain_word, punct, push_ident, seg, splice, string, trees, word, Delimiter, Tree, TreeSeq,
};
use proc_macro2::{Ident, TokenStream};
use vstd::prelude::*;

verus! {

/// The type that the traits are implemented for.
pub struct Target {
    /// Its generic parameters.
    pub declared: Seq<Tree>,
    /// Its generic parameters behind the lifetime of the request.
    pub extended: Seq<Tree>,
    pub ident: Seq<char>,
    /// Its generic arguments.
    pub arguments: Seq<Tree>,
    /// Its `where` clause.
    pub condition: Seq<Tree>,
}

/// The type that the traits are implemented for, as tokens.
pub struct TargetTokens<'a> {
    /// Its generic parameters.
    pub declared: TokenStream,
    /// Its generic parameters behind the lifetime of the request.
    pub extended: TokenStream,
    pub ident: &'a Ident,
    /// Its generic arguments.
    pub arguments: TokenStream,
    /// Its `where` clause.
    pub condition: TokenStream,
}

impl<'a> View for TargetTokens<'a> {
    type V = Target;

    open spec fn view(&self) -> Target {
        Target {
            declared: trees(self.declared),
            extended: trees(self.extended),
            ident: ident_text(*self.ident),
            arguments: trees(self.arguments),
            condition: trees(self.condition),
        }
    }
}

/// The tokens of some streams.
pub open spec fn codes(streams: Seq<TokenStream>) -> Seq<Seq<Tree>> {
    streams.map_values(|stream: TokenStream| trees(stream))
}

/// The tokens of some streams and one more.
pub proof fn lemma_codes_push(streams: Seq<TokenStream>, stream: TokenStream)
    ensures
        codes(streams.push(stream)) == codes(streams).push(trees(stream)),
{
    assert(codes(streams.push(stream)) =~= codes(streams).push(trees(stream)));
}

/// The function that lists the parameters.
///
/// `fn to_parameters(components: &mut oapi::oapi::Components) -> oapi::oapi::Parameters { .. }`
pub open spec fn to_parameters_fn_code(
    oapi: Seq<char>,
    args: Seq<Tree>,
    body: Seq<Tree>,
) -> Seq<Tree> {
    nothing()
        .word("fn"@)
        .word("to_parameters"@)
        .paren(args)
        .arrow()
        .word(oapi)
        .seg("oapi"@)
        .seg("Parameters"@)
        .group(Delimiter::Brace, body)
}

/// The argument that takes the components.
///
/// `components: &mut oapi::oapi::Components`
pub open spec fn components_arg_code(oapi: Seq<char>) -> Seq<Tree> {
    nothing()
        .word("components"@)
        .punct(':')
        .punct('&')
        .word("mut"@)
        .word(oapi)
        .seg("oapi"@)
        .seg("Components"@)
}

/// The parameters.
///
/// `oapi::oapi::Parameters([..].to_vec())`
pub open spec fn parameters_value_code(oapi: Seq<char>, list: Seq<Tree>) -> Seq<Tree> {
    nothing()
        .word(oapi)
        .seg("oapi"@)
        .seg("Parameters"@)
        .paren(list)
}

/// The list of the parameters.
///
/// `[..].to_vec()`
pub open spec fn listed_values_code(items: Seq<Tree>) -> Seq<Tree> {
    nothing()
        .group(Delimiter::Bracket, items)
        .punct('.')
        .word("to_vec"@)
        .paren(nothing())
}

/// The trait of the parameters.
///
/// `oapi::oapi::ToParameters<'__macro_gen_ex>`
pub open spec fn oapi_trait_code(oapi: Seq<char>) -> Seq<Tree> {
    nothing()
        .word(oapi)
        .seg("oapi"@)
        .seg("ToParameters"@)
        .punct('<')
        .lifetime("__macro_gen_ex"@)
        .punct('>')
}

/// The trait of the registration.
///
/// `oapi::oapi::EndpointArgRegister`
pub open spec fn register_trait_code(oapi: Seq<char>) -> Seq<Tree> {
    nothing()
        .word(oapi)
        .seg("oapi"@)
        .seg("EndpointArgRegister"@)
}

/// The trait of the extraction.
///
/// `salvo::Extractible<'__macro_gen_ex>`
pub open spec fn extractible_trait_code(salvo: Seq<char>) -> Seq<Tree> {
    nothing()
        .word(salvo)
        .seg("Extractible"@)
        .punct('<')
        .lifetime("__macro_gen_ex"@)
        .punct('>')
}

/// An implementation of a trait for a type.
///
/// `impl generics trait for ident arguments where_clause { .. }`
pub open spec fn impl_code(
    generics: Seq<Tree>,
    implemented: Seq<Tree>,
    ident: Seq<char>,
    arguments: Seq<Tree>,
    condition: Seq<Tree>,
    body: Seq<Tree>,
) -> Seq<Tree> {
    nothing()
        .word("impl"@)
        .splice(generics)
        .splice(implemented)
        .word("for"@)
        .word(ident)
        .splice(arguments)
        .splice(condition)
        .group(Delimiter::Brace, body)
}

/// The arguments of the registration.
///
/// `components: &mut oapi::oapi::Components, operation: &mut oapi::oapi::Operation, _arg: &str`
pub open spec fn register_args_code(oapi: Seq<char>) -> Seq<Tree> {
    nothing()
        .word("components"@)
        .punct(':')
        .punct('&')
        .word("mut"@)
        .word(oapi)
        .seg("oapi"@)
        .seg("Components"@)
        .punct(',')
        .word("operation"@)
        .punct(':')
        .punct('&')
        .word("mut"@)
        .word(oapi)
        .seg("oapi"@)
        .seg("Operation"@)
        .punct(',')
        .word("_arg"@)
        .punct(':')
        .punct('&')
        .word("str"@)
}

/// The insertion of a parameter.
///
/// `operation.parameters.insert(parameter);`
pub open spec fn insertion_code(args: Seq<Tree>) -> Seq<Tree> {
    nothing()
        .word("operation"@)
        .punct('.')
        .word("parameters"@)
        .punct('.')
        .word("insert"@)
        .paren(args)
        .punct(';')
}

/// The insertion of all parameters.
///
/// `for parameter in <Self as oapi::oapi::ToParameters>::to_parameters(components) { .. }`
pub open spec fn insertions_code(oapi: Seq<char>, args: Seq<Tree>, body: Seq<Tree>) -> Seq<Tree> {
    nothing()
        .word("for"@)
        .word("parameter"@)
        .word("in"@)
        .punct('<')
        .word("Self"@)
        .word("as"@)
        .word(oapi)
        .seg("oapi"@)
        .seg("ToParameters"@)
        .punct('>')
        .seg("to_parameters"@)
        .paren(args)
        .group(Delimiter::Brace, body)
}

/// The function that registers the parameters.
///
/// `fn register(..) { .. }`
pub open spec fn register_fn_code(args: Seq<Tree>, body: Seq<Tree>) -> Seq<Tree> {
    nothing()
        .word("fn"@)
        .word("register"@)
        .paren(args)
        .group(Delimiter::Brace, body)
}

/// The description of the struct.
///
/// `salvo::extract::Metadata::new("name").default_sources(vec![..]).fields(vec![..])`, and the
/// calls that hand the rules over
pub open spec fn metadata_value_code(
    salvo: Seq<char>,
    name: Seq<Tree>,
    sources: Seq<Tree>,
    fields: Seq<Tree>,
    rename_all: Seq<Tree>,
    serde_rename_all: Seq<Tree>,
) -> Seq<Tree> {
    nothing()
        .word(salvo)
        .seg("extract"@)
        .seg("Metadata"@)
        .seg("new"@)
        .paren(name)
        .punct('.')
        .word("default_sources"@)
        .paren(sources)
        .punct('.')
        .word("fields"@)
        .paren(fields)
        .splice(rename_all)
        .splice(serde_rename_all)
}

/// A vector.
///
/// `vec![..]`
pub open spec fn vec_macro_code(items: Seq<Tree>) -> Seq<Tree> {
    nothing()
        .word("vec"@)
        .punct('!')
        .group(Delimiter::Bracket, items)
}

/// A value that is made at its first use.
///
/// `|| ..`
pub open spec fn lazy_code(value: Seq<Tree>) -> Seq<Tree> {
    nothing()
        .joint('|')
        .punct('|')
        .splice(value)
}

/// The description, made at its first use.
///
/// `static METADATA: Cell<salvo::extract::Metadata> = Cell::new(); METADATA.get_or_init(..)`
/// where `Cell` is `salvo::__private::once_cell::sync::OnceCell`
pub open spec fn metadata_body_code(salvo: Seq<char>, value: Seq<Tree>) -> Seq<Tree> {
    nothing()
        .word("static"@)
        .word("METADATA"@)
        .punct(':')
        .word(salvo)
        .seg("__private"@)
        .seg("once_cell"@)
        .seg("sync"@)
        .seg("OnceCell"@)
        .punct('<')
        .word(salvo)
        .seg("extract"@)
        .seg("Metadata"@)
        .punct('>')
        .punct('=')
        .word(salvo)
        .seg("__private"@)
        .seg("once_cell"@)
        .seg("sync"@)
        .seg("OnceCell"@)
        .seg("new"@)
        .paren(nothing())
        .punct(';')
        .word("METADATA"@)
        .punct('.')
        .word("get_or_init"@)
        .paren(value)
}

/// The function that describes the struct.
///
/// `fn metadata() -> &'__macro_gen_ex salvo::extract::Metadata { .. }`
pub open spec fn metadata_fn_code(salvo: Seq<char>, body: Seq<Tree>) -> Seq<Tree> {
    nothing()
        .word("fn"@)
        .word("metadata"@)
        .paren(nothing())
        .arrow()
        .punct('&')
        .lifetime("__macro_gen_ex"@)
        .word(salvo)
        .seg("extract"@)
        .seg("Metadata"@)
        .group(Delimiter::Brace, body)
}

/// The argument that takes the request.
///
/// `req: &'__macro_gen_ex mut salvo::Request`
pub open spec fn request_arg_code(salvo: Seq<char>) -> Seq<Tree> {
    nothing()
        .word("req"@)
        .punct(':')
        .punct('&')
        .lifetime("__macro_gen_ex"@)
        .word("mut"@)
        .word(salvo)
        .seg("Request"@)
}

/// The arguments that take the request and the name of the argument.
///
/// `req: &'__macro_gen_ex mut salvo::Request, _arg: &str`
pub open spec fn request_and_name_args_code(salvo: Seq<char>) -> Seq<Tree> {
    nothing()
        .word("req"@)
        .punct(':')
        .punct('&')
        .lifetime("__macro_gen_ex"@)
        .word("mut"@)
        .word(salvo)
        .seg("Request"@)
        .punct(',')
        .word("_arg"@)
        .punct(':')
        .punct('&')
        .word("str"@)
}

/// A function that reads the struct from a request.
///
/// `async fn name(..) -> Result<Self, impl salvo::Writer + Send + std::fmt::Debug + 'static> { .. }`
pub open spec fn async_fn_code(
    salvo: Seq<char>,
    name: Seq<char>,
    args: Seq<Tree>,
    body: Seq<Tree>,
) -> Seq<Tree> {
    nothing()
        .word("async"@)
        .word("fn"@)
        .word(name)
        .paren(args)
        .arrow()
        .word("Result"@)
        .punct('<')
        .word("Self"@)
        .punct(',')
        .word("impl"@)
        .word(salvo)
        .seg("Writer"@)
        .punct('+')
        .word("Send"@)
        .punct('+')
        .word("std"@)
        .seg("fmt"@)
        .seg("Debug"@)
        .punct('+')
        .lifetime("static"@)
        .punct('>')
        .group(Delimiter::Brace, body)
}

/// The struct, read from a request.
///
/// `salvo::serde::from_request(..).await`
pub open spec fn from_request_code(salvo: Seq<char>, args: Seq<Tree>) -> Seq<Tree> {
    nothing()
        .word(salvo)
        .seg("serde"@)
        .seg("from_request"@)
        .paren(args)
        .punct('.')
        .word("await"@)
}

/// The arguments of the reading.
///
/// `req, Self::metadata()`
pub open spec fn from_request_args_code() -> Seq<Tree> {
    nothing()
        .word("req"@)
        .punct(',')
        .word("Self"@)
        .seg("metadata"@)
        .paren(nothing())
}

/// The struct, read by the other function.
///
/// `Self::extract(..).await`
pub open spec fn delegation_code(args: Seq<Tree>) -> Seq<Tree> {
    nothing()
        .word("Self"@)
        .seg("extract"@)
        .paren(args)
        .punct('.')
        .word("await"@)
}

/// Items, each followed by a comma.
pub open spec fn terminated(items: Seq<Seq<Tree>>) -> Seq<Tree>
    decreases items.len(),
{
    if items.len() == 0 {
        nothing()
    } else {
        terminated(items.drop_last()).splice(items.last()).punct(',')
    }
}

/// Items with commas between them.
pub open spec fn separated(items: Seq<Seq<Tree>>) -> Seq<Tree>
    decreases items.len(),
{
    if items.len() == 0 {
        nothing()
    } else if items.len() == 1 {
        items.last()
    } else {
        separated(items.drop_last()).punct(',').splice(items.last())
    }
}

/// A call that hands a rule over, where there is a rule: `.method(salvo::extract::RenameRule::..)`
pub open spec fn rule_call_code(
    salvo: Seq<char>,
    method: Seq<char>,
    rule: Option<RenameRule>,
) -> Seq<Tree> {
    match rule {
        Some(rule) => nothing().call(method, rule_code(salvo, rule)),
        None => nothing(),
    }
}

/// The implementation that lists the parameters, each given by its code.
pub open spec fn parameters_impl(
    target: Target,
    oapi: Seq<char>,
    parameters: Seq<Seq<Tree>>,
) -> Seq<Tree> {
    impl_code(
        target.extended,
        oapi_trait_code(oapi),
        target.ident,
        target.arguments,
        target.condition,
        to_parameters_fn_code(
            oapi,
            components_arg_code(oapi),
            parameters_value_code(oapi, listed_values_code(terminated(parameters))),
        ),
    )
}

/// The implementation that registers the parameters with an operation.
pub open spec fn register_impl(target: Target, oapi: Seq<char>) -> Seq<Tree> {
    impl_code(
        target.declared,
        register_trait_code(oapi),
        target.ident,
        target.arguments,
        target.condition,
        register_fn_code(
            register_args_code(oapi),
            insertions_code(
                oapi,
                nothing().word("components"@),
                insertion_code(nothing().word("parameter"@)),
            ),
        ),
    )
}

/// The function that describes how the struct is read: by default from `source`, with the
/// given fields, each given by its code.
pub open spec fn metadata_code(
    salvo: Seq<char>,
    name: Seq<char>,
    source: Seq<Tree>,
    fields: Seq<Seq<Tree>>,
    rename_all: Option<RenameRule>,
    serde_rename_all: Option<RenameRule>,
) -> Seq<Tree> {
    metadata_fn_code(
        salvo,
        metadata_body_code(
            salvo,
            lazy_code(
                metadata_value_code(
                    salvo,
                    nothing().string(name),
                    vec_macro_code(source),
                    vec_macro_code(separated(fields)),
                    rule_call_code(salvo, "rename_all"@, rename_all),
                    rule_call_code(salvo, "serde_rename_all"@, serde_rename_all),
                ),
            ),
        ),
    )
}

/// The two functions that read the struct from a request.
pub open spec fn reading_code(before: Seq<Tree>, salvo: Seq<char>) -> Seq<Tree> {
    let extract = async_fn_code(
        salvo,
        "extract"@,
        request_arg_code(salvo),
        from_request_code(salvo, from_request_args_code()),
    );
    let extract_with_arg = async_fn_code(
        salvo,
        "extract_with_arg"@,
        request_and_name_args_code(salvo),
        delegation_code(nothing().word("req"@)),
    );
    before.splice(extract).splice(extract_with_arg)
}

/// The implementation that reads the struct from a request.
pub open spec fn extractible_impl(
    target: Target,
    salvo: Seq<char>,
    metadata: Seq<Tree>,
) -> Seq<Tree> {
    impl_code(
        target.extended,
        extractible_trait_code(salvo),
        target.ident,
        target.arguments,
        target.condition,
        reading_code(metadata, salvo),
    )
}

/// The fixed words of the code are identifiers.
proof fn lemma_words()
    ensures
        plain_word("Components"@),
        plain_word("Debug"@),
        plain_word("EndpointArgRegister"@),
        plain_word("Extractible"@),
        plain_word("METADATA"@),
        plain_word("Metadata"@),
        plain_word("OnceCell"@),
        plain_word("Operation"@),
        plain_word("Parameters"@),
        plain_word("Request"@),
        plain_word("Result"@),
        plain_word("Self"@),
        plain_word("Send"@),
        plain_word("ToParameters"@),
        plain_word("Writer"@),
        plain_word("__macro_gen_ex"@),
        plain_word("__private"@),
        plain_word("_arg"@),
        plain_word("as"@),
        plain_word("async"@),
        plain_word("await"@),
        plain_word("components"@),
        plain_word("default_sources"@),
        plain_word("extract"@),
        plain_word("extract_with_arg"@),
        plain_word("fields"@),
        plain_word("fmt"@),
        plain_word("fn"@),
        plain_word("for"@),
        plain_word("from_request"@),
        plain_word("get_or_init"@),
        plain_word("impl"@),
        plain_word("in"@),
        plain_word("insert"@),
        plain_word("metadata"@),
        plain_word("mut"@),
        plain_word("new"@),
        plain_word("oapi"@),
        plain_word("once_cell"@),
        plain_word("operation"@),
        plain_word("parameter"@),
        plain_word("parameters"@),
        plain_word("register"@),
        plain_word("rename_all"@),
        plain_word("req"@),
        plain_word("serde"@),
        plain_word("serde_rename_all"@),
        plain_word("static"@),
        plain_word("std"@),
        plain_word("str"@),
        plain_word("sync"@),
        plain_word("to_parameters"@),
        plain_word("to_vec"@),
        plain_word("vec"@),
{
    reveal_strlit("Components");
    reveal_strlit("Debug");
    reveal_strlit("EndpointArgRegister");
    reveal_strlit("Extractible");
    reveal_strlit("METADATA");
    reveal_strlit("Metadata");
    reveal_strlit("OnceCell");
    reveal_strlit("Operation");
    reveal_strlit("Parameters");
    reveal_strlit("Request");
    reveal_strlit("Result");
    reveal_strlit("Self");
    reveal_strlit("Send");
    reveal_strlit("ToParameters");
    reveal_strlit("Writer");
    reveal_strlit("__macro_gen_ex");
    reveal_strlit("__private");
    reveal_strlit("_arg");
    reveal_strlit("as");
    reveal_strlit("async");
    reveal_strlit("await");
    reveal_strlit("components");
    reveal_strlit("default_sources");
    reveal_strlit("extract");
    reveal_strlit("extract_with_arg");
    reveal_strlit("fields");
    reveal_strlit("fmt");
    reveal_strlit("fn");
    reveal_strlit("for");
    reveal_strlit("from_request");
    reveal_strlit("get_or_init");
    reveal_strlit("impl");
    reveal_strlit("in");
    reveal_strlit("insert");
    reveal_strlit("metadata");
    reveal_strlit("mut");
    reveal_strlit("new");
    reveal_strlit("oapi");
    reveal_strlit("once_cell");
    reveal_strlit("operation");
    reveal_strlit("parameter");
    reveal_strlit("parameters");
    reveal_strlit("register");
    reveal_strlit("rename_all");
    reveal_strlit("req");
    reveal_strlit("serde");
    reveal_strlit("serde_rename_all");
    reveal_strlit("static");
    reveal_strlit("std");
    reveal_strlit("str");
    reveal_strlit("sync");
    reveal_strlit("to_parameters");
    reveal_strlit("to_vec");
    reveal_strlit("vec");
}

fn quote_to_parameters_fn(
    oapi: &Ident,
    args: TokenStream,
    body: TokenStream,
) -> (tokens: TokenStream)
    ensures
        trees(tokens) == to_parameters_fn_code(ident_text(*oapi), trees(args), trees(body)),
{
    proof {
        lemma_words();
    }
    let mut tokens = new_stream();
    word(&mut tokens, "fn");
    word(&mut tokens, "to_parameters");
    paren(&mut tokens, args);
    arrow(&mut tokens);
    push_ident(&mut tokens, oapi);
    seg(&mut tokens, "oapi");
    seg(&mut tokens, "Parameters");
    group(&mut tokens, Delimiter::Brace, body);
    tokens
}

fn quote_components_arg(oapi: &Ident) -> (tokens: TokenStream)
    ensures
        trees(tokens) == components_arg_code(ident_text(*oapi)),
{
    proof {
        lemma_words();
    }
    let mut tokens = new_stream();
    word(&mut tokens, "components");
    punct(&mut tokens, ':');
    punct(&mut tokens, '&');
    word(&mut tokens, "mut");
    push_ident(&mut tokens, oapi);
    seg(&mut tokens, "oapi");
    seg(&mut tokens, "Components");
    tokens
}

fn quote_parameters_value(oapi: &Ident, list: TokenStream) -> (tokens: TokenStream)
    ensures
        trees(tokens) == parameters_value_code(ident_text(*oapi), trees(list)),
{
    proof {
        lemma_words();
    }
    let mut tokens = new_stream();
    push_ident(&mut tokens, oapi);
    seg(&mut tokens, "oapi");
    seg(&mut tokens, "Parameters");
    paren(&mut tokens, list);
    tokens
}

fn quote_listed_values(items: TokenStream) -> (tokens: TokenStream)
    ensures
        trees(tokens) == listed_values_code(trees(items)),
{
    proof {
        lemma_words();
    }
    let mut tokens = new_stream();
    group(&mut tokens, Delimiter::Bracket, items);
    punct(&mut tokens, '.');
    word(&mut tokens, "to_vec");
    paren(&mut tokens, new_stream());
    tokens
}

fn quote_oapi_trait(oapi: &Ident) -> (tokens: TokenStream)
    ensures
        trees(tokens) == oapi_trait_code(ident_text(*oapi)),
{
    proof {
        lemma_words();
    }
    let mut tokens = new_stream();
    push_ident(&mut tokens, oapi);
    seg(&mut tokens, "oapi");
    seg(&mut tokens, "ToParameters");
    punct(&mut tokens, '<');
    lifetime(&mut tokens, "__macro_gen_ex");
    punct(&mut tokens, '>');
    tokens
}

fn quote_register_trait(oapi: &Ident) -> (tokens: TokenStream)
    ensures
        trees(tokens) == register_trait_code(ident_text(*oapi)),
{
    proof {
        lemma_words();
    }
    let mut tokens = new_stream();
    push_ident(&mut tokens, oapi);
    seg(&mut tokens, "oapi");
    seg(&mut tokens, "EndpointArgRegister");
    tokens
}

fn quote_extractible_trait(salvo: &Ident) -> (tokens: TokenStream)
    ensures
        trees(tokens) == extractible_trait_code(ident_text(*salvo)),
{
    proof {
        lemma_words();
    }
    let mut tokens = new_stream();
    push_ident(&mut tokens, salvo);
    seg(&mut tokens, "Extractible");
    punct(&mut tokens, '<');
    lifetime(&mut tokens, "__macro_gen_ex");
    punct(&mut tokens, '>');
    tokens
}

fn quote_impl(
    generics: &TokenStream,
    implemented: &TokenStream,
    ident: &Ident,
    arguments: &TokenStream,
    condition: &TokenStream,
    body: TokenStream,
) -> (tokens: TokenStream)
    ensures
        trees(tokens) == impl_code(
            trees(*generics),
            trees(*implemented),
            ident_text(*ident),
            trees(*arguments),
            trees(*condition),
            trees(body),
        ),
{
    proof {
        lemma_words();
    }
    let mut tokens = new_stream();
    word(&mut tokens, "impl");
    splice(&mut tokens, generics);
    splice(&mut tokens, implemented);
    word(&mut tokens, "for");
    push_ident(&mut tokens, ident);
    splice(&mut tokens, arguments);
    splice(&mut tokens, condition);
    group(&mut tokens, Delimiter::Brace, body);
    tokens
}

fn quote_register_args(oapi: &Ident) -> (tokens: TokenStream)
    ensures
        trees(tokens) == register_args_code(ident_text(*oapi)),
{
    proof {
        lemma_words();
    }
    let mut tokens = new_stream();
    word(&mut tokens, "components");
    punct(&mut tokens, ':');
    punct(&mut tokens, '&');
    word(&mut tokens, "mut");
    push_ident(&mut tokens, oapi);
    seg(&mut tokens, "oapi");
    seg(&mut tokens, "Components");
    punct(&mut tokens, ',');
    word(&mut tokens, "operation");
    punct(&mut tokens, ':');
    punct(&mut tokens, '&');
    word(&mut tokens, "mut");
    push_ident(&mut tokens, oapi);
    seg(&mut tokens, "oapi");
    seg(&mut tokens, "Operation");
    punct(&mut tokens, ',');
    word(&mut tokens, "_arg");
    punct(&mut tokens, ':');
    punct(&mut tokens, '&');
    word(&mut tokens, "str");
    tokens
}

fn quote_insertion(args: TokenStream) -> (tokens: TokenStream)
    ensures
        trees(tokens) == insertion_code(trees(args)),
{
    proof {
        lemma_words();
    }
    let mut tokens = new_stream();
    word(&mut tokens, "operation");
    punct(&mut tokens, '.');
    word(&mut tokens, "parameters");
    punct(&mut tokens, '.');
    word(&mut tokens, "insert");
    paren(&mut tokens, args);
    punct(&mut tokens, ';');
    tokens
}

fn quote_insertions(oapi: &Ident, args: TokenStream, body: TokenStream) -> (tokens: TokenStream)
    ensures
        trees(tokens) == insertions_code(ident_text(*oapi), trees(args), trees(body)),
{
    proof {
        lemma_words();
    }
    let mut tokens = new_stream();
    word(&mut tokens, "for");
    word(&mut tokens, "parameter");
    word(&mut tokens, "in");
    punct(&mut tokens, '<');
    word(&mut tokens, "Self");
    word(&mut tokens, "as");
    push_ident(&mut tokens, oapi);
    seg(&mut tokens, "oapi");
    seg(&mut tokens, "ToParameters");
    punct(&mut tokens, '>');
    seg(&mut tokens, "to_parameters");
    paren(&mut tokens, args);
    group(&mut tokens, Delimiter::Brace, body);
    tokens
}

fn quote_register_fn(args: TokenStream, body: TokenStream) -> (tokens: TokenStream)
    ensures
        trees(tokens) == register_fn_code(trees(args), trees(body)),
{
    proof {
        lemma_words();
    }
    let mut tokens = new_stream();
    word(&mut tokens, "fn");
    word(&mut tokens, "register");
    paren(&mut tokens, args);
    group(&mut tokens, Delimiter::Brace, body);
    tokens
}

fn quote_metadata_value(
    salvo: &Ident,
    name: TokenStream,
    sources: TokenStream,
    fields: TokenStream,
    rename_all: &TokenStream,
    serde_rename_all: &TokenStream,
) -> (tokens: TokenStream)
    ensures
        trees(tokens) == metadata_value_code(
            ident_text(*salvo),
            trees(name),
            trees(sources),
            trees(fields),
            trees(*rename_all),
            trees(*serde_rename_all),
        ),
{
    proof {
        lemma_words();
    }
    let mut tokens = new_stream();
    push_ident(&mut tokens, salvo);
    seg(&mut tokens, "extract");
    seg(&mut tokens, "Metadata");
    seg(&mut tokens, "new");
    paren(&mut tokens, name);
    punct(&mut tokens, '.');
    word(&mut tokens, "default_sources");
    paren(&mut tokens, sources);
    punct(&mut tokens, '.');
    word(&mut tokens, "fields");
    paren(&mut tokens, fields);
    splice(&mut tokens, rename_all);
    splice(&mut tokens, serde_rename_all);
    tokens
}

fn quote_vec_macro(items: TokenStream) -> (tokens: TokenStream)
    ensures
        trees(tokens) == vec_macro_code(trees(items)),
{
    proof {
        lemma_words();
    }
    let mut tokens = new_stream();
    word(&mut tokens, "vec");
    punct(&mut tokens, '!');
    group(&mut tokens, Delimiter::Bracket, items);
    tokens
}

fn quote_lazy(value: &TokenStream) -> (tokens: TokenStream)
    ensures
        trees(tokens) == lazy_code(trees(*value)),
{
    let mut tokens = new_stream();
    joint(&mut tokens, '|');
    punct(&mut tokens, '|');
    splice(&mut tokens, value);
    tokens
}

fn quote_metadata_body(salvo: &Ident, value: TokenStream) -> (tokens: TokenStream)
    ensures
        trees(tokens) == metadata_body_code(ident_text(*salvo), trees(value)),
{
    proof {
        lemma_words();
    }
    let mut tokens = new_stream();
    word(&mut tokens, "static");
    word(&mut tokens, "METADATA");
    punct(&mut tokens, ':');
    push_ident(&mut tokens, salvo);
    seg(&mut tokens, "__private");
    seg(&mut tokens, "once_cell");
    seg(&mut tokens, "sync");
    seg(&mut tokens, "OnceCell");
    punct(&mut tokens, '<');
    push_ident(&mut tokens, salvo);
    seg(&mut tokens, "extract");
    seg(&mut tokens, "Metadata");
    punct(&mut tokens, '>');
    punct(&mut tokens, '=');
    push_ident(&mut tokens, salvo);
    seg(&mut tokens, "__private");
    seg(&mut tokens, "once_cell");
    seg(&mut tokens, "sync");
    seg(&mut tokens, "OnceCell");
    seg(&mut tokens, "new");
    paren(&mut tokens, new_stream());
    punct(&mut tokens, ';');
    word(&mut tokens, "METADATA");
    punct(&mut tokens, '.');
    word(&mut tokens, "get_or_init");
    paren(&mut tokens, value);
    tokens
}

fn quote_metadata_fn(salvo: &Ident, body: TokenStream) -> (tokens: TokenStream)
    ensures
        trees(tokens) == metadata_fn_code(ident_text(*salvo), trees(body)),
{
    proof {
        lemma_words();
    }
    let mut tokens = new_stream();
    word(&mut tokens, "fn");
    word(&mut tokens, "metadata");
    paren(&mut tokens, new_stream());
    arrow(&mut tokens);
    punct(&mut tokens, '&');
    lifetime(&mut tokens, "__macro_gen_ex");
    push_ident(&mut tokens, salvo);
    seg(&mut tokens, "extract");
    seg(&mut tokens, "Metadata");
    group(&mut tokens, Delimiter::Brace, body);
    tokens
}

fn quote_request_arg(salvo: &Ident) -> (tokens: TokenStream)
    ensures
        trees(tokens) == request_arg_code(ident_text(*salvo)),
{
    proof {
        lemma_words();
    }
    let mut tokens = new_stream();
    word(&mut tokens, "req");
    punct(&mut tokens, ':');
    punct(&mut tokens, '&');
    lifetime(&mut tokens, "__macro_gen_ex");
    word(&mut tokens, "mut");
    push_ident(&mut tokens, salvo);
    seg(&mut tokens, "Request");
    tokens
}

fn quote_request_and_name_args(salvo: &Ident) -> (tokens: TokenStream)
    ensures
        trees(tokens) == request_and_name_args_code(ident_text(*salvo)),
{
    proof {
        lemma_words();
    }
    let mut tokens = new_stream();
    word(&mut tokens, "req");
    punct(&mut tokens, ':');
    punct(&mut tokens, '&');
    lifetime(&mut tokens, "__macro_gen_ex");
    word(&mut tokens, "mut");
    push_ident(&mut tokens, salvo);
    seg(&mut tokens, "Request");
    punct(&mut tokens, ',');
    word(&mut tokens, "_arg");
    punct(&mut tokens, ':');
    punct(&mut tokens, '&');
    word(&mut tokens, "str");
    tokens
}

fn quote_async_fn(
    salvo: &Ident,
    name: &Ident,
    args: TokenStream,
    body: TokenStream,
) -> (tokens: TokenStream)
    ensures
        trees(tokens) == async_fn_code(
            ident_text(*salvo),
            ident_text(*name),
            trees(args),
            trees(body),
        ),
{
    proof {
        lemma_words();
    }
    let mut tokens = new_stream();
    word(&mut tokens, "async");
    word(&mut tokens, "fn");
    push_ident(&mut tokens, name);
    paren(&mut tokens, args);
    arrow(&mut tokens);
    word(&mut tokens, "Result");
    punct(&mut tokens, '<');
    word(&mut tokens, "Self");
    punct(&mut tokens, ',');
    word(&mut tokens, "impl");
    push_ident(&mut tokens, salvo);
    seg(&mut tokens, "Writer");
    punct(&mut tokens, '+');
    word(&mut tokens, "Send");
    punct(&mut tokens, '+');
    word(&mut tokens, "std");
    seg(&mut tokens, "fmt");
    seg(&mut tokens, "Debug");
    punct(&mut tokens, '+');
    lifetime(&mut tokens, "static");
    punct(&mut tokens, '>');
    group(&mut tokens, Delimiter::Brace, body);
    tokens
}

fn quote_from_request(salvo: &Ident, args: TokenStream) -> (tokens: TokenStream)
    ensures
        trees(tokens) == from_request_code(ident_text(*salvo), trees(args)),
{
    proof {
        lemma_words();
    }
    let mut tokens = new_stream();
    push_ident(&mut tokens, salvo);
    seg(&mut tokens, "serde");
    seg(&mut tokens, "from_request");
    paren(&mut tokens, args);
    punct(&mut tokens, '.');
    word(&mut tokens, "await");
    tokens
}

fn quote_from_request_args() -> (tokens: TokenStream)
    ensures
        trees(tokens) == from_request_args_code(),
{
    proof {
        lemma_words();
    }
    let mut tokens = new_stream();
    word(&mut tokens, "req");
    punct(&mut tokens, ',');
    word(&mut tokens, "Self");
    seg(&mut tokens, "metadata");
    paren(&mut tokens, new_stream());
    tokens
}

fn quote_delegation(args: TokenStream) -> (tokens: TokenStream)
    ensures
        trees(tokens) == delegation_code(trees(args)),
{
    proof {
        lemma_words();
    }
    let mut tokens = new_stream();
    word(&mut tokens, "Self");
    seg(&mut tokens, "extract");
    paren(&mut tokens, args);
    punct(&mut tokens, '.');
    word(&mut tokens, "await");
    tokens
}

/// Writes items, each followed by a comma.
pub fn quote_terminated(items: &Vec<TokenStream>) -> (tokens: TokenStream)
    ensures
        trees(tokens) == terminated(codes(items@)),
{
    let mut tokens = new_stream();
    for i in 0..items.len()
        invariant
            trees(tokens) == terminated(codes(items@.take(i as int))),
    {
        splice(&mut tokens, &items[i]);
        punct(&mut tokens, ',');
        assert(codes(items@.take(i + 1)).drop_last() =~= codes(items@.take(i as int)));
    }
    assert(items@.take(items@.len() as int) =~= items@);
    tokens
}

/// Writes items with commas between them.
pub fn quote_separated(items: &Vec<TokenStream>) -> (tokens: TokenStream)
    ensures
        trees(tokens) == separated(codes(items@)),
{
    let mut tokens = new_stream();
    for i in 0..items.len()
        invariant
            trees(tokens) == separated(codes(items@.take(i as int))),
    {
        if i > 0 {
            punct(&mut tokens, ',');
        }
        splice(&mut tokens, &items[i]);
        assert(codes(items@.take(i + 1)).drop_last() =~= codes(items@.take(i as int)));
        assert(i == 0 ==> trees(tokens) =~= trees(items@[0]));
    }
    assert(items@.take(items@.len() as int) =~= items@);
    tokens
}

/// A stream of one word.
fn single(name: &str) -> (tokens: TokenStream)
    requires
        plain_word(name@),
    ensures
        trees(tokens) == nothing().word(name@),
{
    let mut tokens = new_stream();
    word(&mut tokens, name);
    tokens
}

fn quote_rule_call(salvo: &Ident, method: &str, rule: Option<RenameRule>) -> (tokens: TokenStream)
    requires
        plain_word(method@),
    ensures
        trees(tokens) == rule_call_code(ident_text(*salvo), method@, rule),
{
    let mut tokens = new_stream();
    if let Some(rule) = rule {
        call(&mut tokens, method, quote_rename_rule(salvo, rule));
    }
    tokens
}

/// Writes the implementation that lists the parameters.
pub fn quote_parameters_impl(
    target: &TargetTokens,
    oapi: &Ident,
    parameters: &Vec<TokenStream>,
) -> (tokens: TokenStream)
    ensures
        trees(tokens) == parameters_impl(target@, ident_text(*oapi), codes(parameters@)),
{
    let list = quote_listed_values(quote_terminated(parameters));
    let body = quote_to_parameters_fn(
        oapi,
        quote_components_arg(oapi),
        quote_parameters_value(oapi, list),
    );
    quote_impl(
        &target.extended,
        &quote_oapi_trait(oapi),
        target.ident,
        &target.arguments,
        &target.condition,
        body,
    )
}

/// Writes the implementation that registers the parameters with an operation.
pub fn quote_register_impl(target: &TargetTokens, oapi: &Ident) -> (tokens: TokenStream)
    ensures
        trees(tokens) == register_impl(target@, ident_text(*oapi)),
{
    proof {
        lemma_words();
    }
    let insertion = quote_insertion(single("parameter"));
    let body = quote_register_fn(
        quote_register_args(oapi),
        quote_insertions(oapi, single("components"), insertion),
    );
    quote_impl(
        &target.declared,
        &quote_register_trait(oapi),
        target.ident,
        &target.arguments,
        &target.condition,
        body,
    )
}

/// Writes the function that describes how the struct is read.
pub fn quote_metadata(
    salvo: &Ident,
    name: &str,
    source: TokenStream,
    fields: &Vec<TokenStream>,
    rename_all: Option<RenameRule>,
    serde_rename_all: Option<RenameRule>,
) -> (tokens: TokenStream)
    ensures
        trees(tokens) == metadata_code(
            ident_text(*salvo),
            name@,
            trees(source),
            codes(fields@),
            rename_all,
            serde_rename_all,
        ),
{
    proof {
        lemma_words();
    }
    let mut name_tokens = new_stream();
    string(&mut name_tokens, name);
    let value = quote_metadata_value(
        salvo,
        name_tokens,
        quote_vec_macro(source),
        quote_vec_macro(quote_separated(fields)),
        &quote_rule_call(salvo, "rename_all", rename_all),
        &quote_rule_call(salvo, "serde_rename_all", serde_rename_all),
    );
    quote_metadata_fn(salvo, quote_metadata_body(salvo, quote_lazy(&value)))
}

/// Writes the implementation that reads the struct from a request.
pub fn quote_extractible_impl(
    target: &TargetTokens,
    salvo: &Ident,
    metadata: TokenStream,
) -> (tokens: TokenStream)
    ensures
        trees(tokens) == extractible_impl(target@, ident_text(*salvo), trees(metadata)),
{
    proof {
        lemma_words();
    }
    let extract = new_ident("extract");
    let extract_with_arg = new_ident("extract_with_arg");
    let mut body = metadata;
    splice(
        &mut body,
        &quote_async_fn(
            salvo,
            &extract,
            quote_request_arg(salvo),
            quote_from_request(salvo, quote_from_request_args()),
        ),
    );
    splice(
        &mut body,
        &quote_async_fn(
            salvo,
            &extract_with_arg,
            quote_request_and_name_args(salvo),
            quote_delegation(single("req")),
        ),
    );
    quote_impl(
        &target.extended,
        &quote_extractible_trait(salvo),
        target.ident,
        &target.arguments,
        &target.condition,
        body,
    )
}

} // verus!
