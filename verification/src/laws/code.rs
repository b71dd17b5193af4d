//! What holds of the generated code.

use crate::code::{
    codes, components_arg_code, extractible_impl, extractible_trait_code, insertion_code,
    insertions_code, lazy_code, listed_values_code, metadata_body_code, metadata_code,
    metadata_fn_code, metadata_value_code, oapi_trait_code, parameters_impl,
    parameters_value_code, reading_code, register_args_code, register_fn_code, register_impl,
    register_trait_code, rule_call_code, separated, terminated, to_parameters_fn_code,
    vec_macro_code, Target, TargetTokens,
};
use crate::container::{parameter_codes, ResolvedView, ToParameters};
use crate::extract::{rule_code, source_code, SourceParser};
use crate::feature::RenameRule;
use crate::laws::parameters::method_call;
use crate::parameter::{Context, Rendered};
use crate::tokens::{
    ident_text, impl_generics, lifetime_first, nothing, trees, type_generics, where_clause,
    Delimiter, Spacing, Tree, TreeSeq,
};
use proc_macro2::TokenStream;
use vstd::prelude::*;

verus! {

/// What is appended to some code comes behind it and is what it is called, whatever stands before
/// it.
pub proof fn law_appended_behind(
    before: Seq<Tree>,
    name: Seq<char>,
    c: char,
    inner: Seq<Tree>,
    delimiter: Delimiter,
)
    ensures
        nothing().len() == 0,
        before.word(name) == before + seq![Tree::Ident(name)],
        before.punct(c) == before + seq![Tree::Punct(c, Spacing::Alone)],
        before.joint(c) == before + seq![Tree::Punct(c, Spacing::Joint)],
        before.string(name) == before + seq![Tree::Str(name)],
        before.splice(inner) == before + inner,
        before.group(delimiter, inner) == before + seq![Tree::Group(delimiter, inner)],
        before.paren(inner) == before + seq![Tree::Group(Delimiter::Parenthesis, inner)],
        before.seg(name) == before + seq![
            Tree::Punct(':', Spacing::Joint),
            Tree::Punct(':', Spacing::Alone),
            Tree::Ident(name),
        ],
        before.call(name, inner) == before + method_call(name, inner),
        before.lifetime(name) == before + seq![
            Tree::Punct('\'', Spacing::Joint),
            Tree::Ident(name),
        ],
        before.arrow() == before + seq![
            Tree::Punct('-', Spacing::Joint),
            Tree::Punct('>', Spacing::Alone),
        ],
{
}

/// Lists with a comma behind each item go item by item, and a list with commas between its items
/// is one with a comma behind each, without the last comma.
pub proof fn law_lists_with_commas(
    front: Seq<Seq<Tree>>,
    back: Seq<Seq<Tree>>,
    item: Seq<Tree>,
)
    ensures
        terminated(Seq::empty()) == Seq::<Tree>::empty(),
        terminated(seq![item]) == item + seq![Tree::Punct(',', Spacing::Alone)],
        terminated(front + back) == terminated(front) + terminated(back),
        separated(Seq::empty()) == Seq::<Tree>::empty(),
        front.len() > 0 ==> separated(front) + seq![Tree::Punct(',', Spacing::Alone)]
            == terminated(front),
    decreases back.len(), front.len(),
{
    let comma = seq![Tree::Punct(',', Spacing::Alone)];
    let single = seq![item];
    assert(single.drop_last() =~= Seq::<Seq<Tree>>::empty());
    reveal_with_fuel(terminated, 2);
    assert(terminated(single) =~= item + comma);
    if back.len() == 0 {
        assert(front + back =~= front);
        assert(terminated(front) + Seq::<Tree>::empty() =~= terminated(front));
        lemma_separated(front);
    } else {
        law_lists_with_commas(front, back.drop_last(), item);
        assert((front + back).drop_last() =~= front + back.drop_last());
        assert((front + back).last() == back.last());
        assert(terminated(front + back) =~= terminated(front) + terminated(back));
    }
}

/// A list with commas between its items lacks the last comma.
proof fn lemma_separated(items: Seq<Seq<Tree>>)
    ensures
        items.len() > 0 ==> separated(items) + seq![Tree::Punct(',', Spacing::Alone)]
            == terminated(items),
    decreases items.len(),
{
    let comma = seq![Tree::Punct(',', Spacing::Alone)];
    if items.len() == 1 {
        reveal_with_fuel(terminated, 2);
        assert(terminated(items.drop_last()) =~= Seq::<Tree>::empty());
        assert(separated(items) + comma =~= terminated(items));
    } else if items.len() > 1 {
        lemma_separated(items.drop_last());
        assert(separated(items.drop_last()).punct(',') =~= separated(items.drop_last()) + comma);
        assert(separated(items) + comma =~= terminated(items));
    }
}

/// The views of code as tokens hold all that there is.
pub proof fn law_tokens_show_everything<'a>(target: TargetTokens<'a>, streams: Seq<TokenStream>)
    ensures
        target@.declared == trees(target.declared),
        target@.extended == trees(target.extended),
        target@.ident == ident_text(*target.ident),
        target@.arguments == trees(target.arguments),
        target@.condition == trees(target.condition),
        codes(streams).len() == streams.len(),
        forall|i: int| 0 <= i < streams.len() ==> #[trigger] codes(streams)[i] == trees(streams[i]),
{
}

/// The traits are implemented for the type under its own name, with its own generic parameters,
/// arguments and conditions. Where the lifetime of the request is declared, it comes first, and
/// a comma separates it from other parameters, if there are any.
pub proof fn law_target_is_the_type(container: ToParameters)
    ensures
        container.target().ident == ident_text(container.ident),
        container.target().declared == impl_generics(container.generics),
        container.target().arguments == type_generics(container.generics),
        container.target().condition == where_clause(container.generics),
        ({
            let declared = impl_generics(container.generics);
            container.target().extended == seq![
                Tree::Punct('<', Spacing::Alone),
                Tree::Punct('\'', Spacing::Joint),
                Tree::Ident("__macro_gen_ex"@),
            ] + (if declared.len() == 0 {
                seq![Tree::Punct('>', Spacing::Alone)]
            } else {
                seq![Tree::Punct(',', Spacing::Alone)] + declared.skip(1)
            })
        }),
{
    let declared = impl_generics(container.generics);
    let start = seq![
        Tree::Punct('<', Spacing::Alone),
        Tree::Punct('\'', Spacing::Joint),
        Tree::Ident("__macro_gen_ex"@),
    ];
    let extended = lifetime_first("__macro_gen_ex"@, declared);
    if declared.len() == 0 {
        assert(extended =~= start + seq![Tree::Punct('>', Spacing::Alone)]);
    } else {
        assert(extended =~= start + (seq![Tree::Punct(',', Spacing::Alone)] + declared.skip(1)));
    }
}

/// An `impl` of a trait for a type: its generic parameters, the trait, the type with its generic
/// arguments and its conditions, and a body.
pub open spec fn implementation(
    generics: Seq<Tree>,
    implemented: Seq<Tree>,
    target: Target,
    body: Seq<Tree>,
) -> Seq<Tree> {
    seq![Tree::Ident("impl"@)] + generics + implemented + seq![
        Tree::Ident("for"@),
        Tree::Ident(target.ident),
    ] + target.arguments + target.condition + seq![Tree::Group(Delimiter::Brace, body)]
}

/// The implementation for parameters holds one function, which hands back the list of all
/// parameters, each followed by a comma. It declares the lifetime of the request.
pub proof fn law_parameters_are_listed(
    target: Target,
    oapi: Seq<char>,
    parameters: Seq<Seq<Tree>>,
)
    ensures
        parameters_impl(target, oapi, parameters) == implementation(
            target.extended,
            nothing().word(oapi).seg("oapi"@).seg("ToParameters"@).punct('<').lifetime(
                "__macro_gen_ex"@,
            ).punct('>'),
            target,
            nothing()
                .word("fn"@)
                .word("to_parameters"@)
                .paren(
                    nothing()
                        .word("components"@)
                        .punct(':')
                        .punct('&')
                        .word("mut"@)
                        .word(oapi)
                        .seg("oapi"@)
                        .seg("Components"@),
                )
                .arrow()
                .word(oapi)
                .seg("oapi"@)
                .seg("Parameters"@)
                .group(
                    Delimiter::Brace,
                    nothing().word(oapi).seg("oapi"@).seg("Parameters"@).paren(
                        nothing().group(Delimiter::Bracket, terminated(parameters)).call(
                            "to_vec"@,
                            nothing(),
                        ),
                    ),
                ),
        ),
{
    assert(parameters_impl(target, oapi, parameters) =~= implementation(
        target.extended,
        oapi_trait_code(oapi),
        target,
        to_parameters_fn_code(
            oapi,
            components_arg_code(oapi),
            parameters_value_code(
                oapi,
                listed_values_code(terminated(parameters)),
            ),
        ),
    ));
}

/// The implementation for the registration declares only the parameters of the type. Its function
/// inserts each parameter that the type lists into the operation.
pub proof fn law_all_parameters_are_registered(target: Target, oapi: Seq<char>)
    ensures
        register_impl(target, oapi) == implementation(
            target.declared,
            nothing().word(oapi).seg("oapi"@).seg("EndpointArgRegister"@),
            target,
            nothing()
                .word("fn"@)
                .word("register"@)
                .paren(
                    nothing()
                        .word("components"@)
                        .punct(':')
                        .punct('&')
                        .word("mut"@)
                        .word(oapi)
                        .seg("oapi"@)
                        .seg("Components"@)
                        .punct(',')
                        .word("operation"@)
                        .punct(':')
                        .punct('&')
                        .word("mut"@)
                        .word(oapi)
                        .seg("oapi"@)
                        .seg("Operation"@)
                        .punct(',')
                        .word("_arg"@)
                        .punct(':')
                        .punct('&')
                        .word("str"@),
                )
                .group(
                    Delimiter::Brace,
                    nothing()
                        .word("for"@)
                        .word("parameter"@)
                        .word("in"@)
                        .punct('<')
                        .word("Self"@)
                        .word("as"@)
                        .word(oapi)
                        .seg("oapi"@)
                        .seg("ToParameters"@)
                        .punct('>')
                        .seg("to_parameters"@)
                        .paren(nothing().word("components"@))
                        .group(
                            Delimiter::Brace,
                            nothing()
                                .word("operation"@)
                                .punct('.')
                                .word("parameters"@)
                                .call("insert"@, nothing().word("parameter"@))
                                .punct(';'),
                        ),
                ),
        ),
{
    assert(register_impl(target, oapi) =~= implementation(
        target.declared,
        register_trait_code(oapi),
        target,
        register_fn_code(
            register_args_code(oapi),
            insertions_code(
                oapi,
                nothing().word("components"@),
                insertion_code(nothing().word("parameter"@)),
            ),
        ),
    ));
}

/// `async fn name(args) -> Result<Self, impl salvo::Writer + Send + std::fmt::Debug + 'static>`
pub open spec fn reading_function(
    salvo: Seq<char>,
    name: Seq<char>,
    args: Seq<Tree>,
    body: Seq<Tree>,
) -> Seq<Tree> {
    nothing()
        .word("async"@)
        .word("fn"@)
        .word(name)
        .paren(args)
        .arrow()
        .word("Result"@)
        .punct('<')
        .word("Self"@)
        .punct(',')
        .word("impl"@)
        .word(salvo)
        .seg("Writer"@)
        .punct('+')
        .word("Send"@)
        .punct('+')
        .word("std"@)
        .seg("fmt"@)
        .seg("Debug"@)
        .punct('+')
        .lifetime("static"@)
        .punct('>')
        .group(Delimiter::Brace, body)
}

/// `req: &'__macro_gen_ex mut salvo::Request`
pub open spec fn request(salvo: Seq<char>) -> Seq<Tree> {
    nothing()
        .word("req"@)
        .punct(':')
        .punct('&')
        .lifetime("__macro_gen_ex"@)
        .word("mut"@)
        .word(salvo)
        .seg("Request"@)
}

/// The implementation for reading declares the lifetime of the request. It holds the description
/// of the type, the function that reads the type by that description, and one that takes the name
/// of an argument and reads the type by the first, in this order.
pub proof fn law_type_is_read_by_its_description(
    target: Target,
    salvo: Seq<char>,
    metadata: Seq<Tree>,
)
    ensures
        extractible_impl(target, salvo, metadata) == implementation(
            target.extended,
            nothing().word(salvo).seg("Extractible"@).punct('<').lifetime(
                "__macro_gen_ex"@,
            ).punct('>'),
            target,
            metadata + reading_function(
                salvo,
                "extract"@,
                request(salvo),
                nothing().word(salvo).seg("serde"@).seg("from_request"@).paren(
                    nothing().word("req"@).punct(',').word("Self"@).seg("metadata"@).paren(
                        nothing(),
                    ),
                ).punct('.').word("await"@),
            ) + reading_function(
                salvo,
                "extract_with_arg"@,
                request(salvo).punct(',').word("_arg"@).punct(':').punct('&').word("str"@),
                nothing().word("Self"@).seg("extract"@).paren(nothing().word("req"@)).punct(
                    '.',
                ).word("await"@),
            ),
        ),
{
    assert(extractible_impl(target, salvo, metadata) =~= implementation(
        target.extended,
        extractible_trait_code(salvo),
        target,
        reading_code(metadata, salvo),
    ));
}

/// What hands a rule over: a call with the rule, if and only if there is one.
pub open spec fn rule_handed_over(
    salvo: Seq<char>,
    method: Seq<char>,
    rule: Option<RenameRule>,
) -> Seq<Tree> {
    match rule {
        Some(rule) => method_call(method, rule_code(salvo, rule)),
        None => seq![],
    }
}

/// `fn metadata() -> &'__macro_gen_ex salvo::extract::Metadata`, which makes a value at its first
/// use.
pub open spec fn description(salvo: Seq<char>, value: Seq<Tree>) -> Seq<Tree> {
    let cell = nothing().word(salvo).seg("__private"@).seg("once_cell"@).seg("sync"@).seg(
        "OnceCell"@,
    );
    nothing()
        .word("fn"@)
        .word("metadata"@)
        .paren(nothing())
        .arrow()
        .punct('&')
        .lifetime("__macro_gen_ex"@)
        .word(salvo)
        .seg("extract"@)
        .seg("Metadata"@)
        .group(
            Delimiter::Brace,
            nothing().word("static"@).word("METADATA"@).punct(':') + cell + nothing().punct(
                '<',
            ).word(salvo).seg("extract"@).seg("Metadata"@).punct('>').punct('=') + cell
                + nothing().seg("new"@).paren(nothing()).punct(';').word("METADATA"@).call(
                "get_or_init"@,
                nothing().joint('|').punct('|') + value,
            ),
        )
}

/// `vec![items]`
pub open spec fn vector(items: Seq<Tree>) -> Seq<Tree> {
    seq![
        Tree::Ident("vec"@),
        Tree::Punct('!', Spacing::Alone),
        Tree::Group(Delimiter::Bracket, items),
    ]
}

/// The description of a struct is made of its name, its one default source, and its fields with
/// commas between them. Behind these the rule of the struct is handed over if and only if the
/// struct has one, whatever serde has, and behind that the rule of serde if and only if serde has
/// one, whatever the struct has. Nothing else follows.
pub proof fn law_description_hands_over_both_rules<'a>(
    container: ToParameters,
    resolved: ResolvedView<'a>,
    salvo: Seq<char>,
)
    ensures
        container.metadata(resolved, salvo) == description(
            salvo,
            nothing().word(salvo).seg("extract"@).seg("Metadata"@).seg("new"@).paren(
                seq![Tree::Str(ident_text(container.ident))],
            ) + method_call(
                "default_sources"@,
                vector(
                    source_code(
                        salvo,
                        resolved.settings.default_place(),
                        SourceParser::MultiMap,
                    ),
                ),
            ) + method_call(
                "fields"@,
                vector(separated(container.extract_fields(resolved, salvo))),
            ) + rule_handed_over(salvo, "rename_all"@, resolved.settings.rename_all)
                + rule_handed_over(
                salvo,
                "serde_rename_all"@,
                match container.serde {
                    Some(serde) => serde.rename_all,
                    None => None,
                },
            ),
        ),
{
    lemma_metadata_code(
        salvo,
        ident_text(container.ident),
        source_code(salvo, resolved.settings.default_place(), SourceParser::MultiMap),
        container.extract_fields(resolved, salvo),
        resolved.settings.rename_all,
        container.serde_rename_all(),
    );
}

/// The parts of a description come one behind the other.
proof fn lemma_metadata_code(
    salvo: Seq<char>,
    name: Seq<char>,
    source: Seq<Tree>,
    fields: Seq<Seq<Tree>>,
    rename_all: Option<RenameRule>,
    serde_rename_all: Option<RenameRule>,
)
    ensures
        metadata_code(salvo, name, source, fields, rename_all, serde_rename_all) == description(
            salvo,
            nothing().word(salvo).seg("extract"@).seg("Metadata"@).seg("new"@).paren(
                seq![Tree::Str(name)],
            ) + method_call("default_sources"@, vector(source)) + method_call(
                "fields"@,
                vector(separated(fields)),
            ) + rule_handed_over(salvo, "rename_all"@, rename_all) + rule_handed_over(
                salvo,
                "serde_rename_all"@,
                serde_rename_all,
            ),
        ),
{
    let named = nothing().string(name);
    assert(named =~= seq![Tree::Str(name)]);
    let sources = vec_macro_code(source);
    assert(sources =~= vector(source));
    let list = vec_macro_code(separated(fields));
    assert(list =~= vector(separated(fields)));
    let own = rule_call_code(salvo, "rename_all"@, rename_all);
    assert(own =~= rule_handed_over(salvo, "rename_all"@, rename_all));
    let serde = rule_call_code(salvo, "serde_rename_all"@, serde_rename_all);
    assert(serde =~= rule_handed_over(salvo, "serde_rename_all"@, serde_rename_all));
    let start = nothing().word(salvo).seg("extract"@).seg("Metadata"@).seg("new"@).paren(named);
    let value = metadata_value_code(salvo, named, sources, list, own, serde);
    assert(value =~= start + method_call("default_sources"@, sources) + method_call(
        "fields"@,
        list,
    ) + own + serde);
    lemma_description(salvo, value);
}

/// The function that describes a type.
proof fn lemma_description(salvo: Seq<char>, value: Seq<Tree>)
    ensures
        metadata_fn_code(
            salvo,
            metadata_body_code(salvo, lazy_code(value)),
        ) == description(salvo, value),
{
    let cell = nothing().word(salvo).seg("__private"@).seg("once_cell"@).seg("sync"@).seg(
        "OnceCell"@,
    );
    let lazy = nothing().joint('|').punct('|') + value;
    assert(lazy_code(value) =~= lazy);
    assert(metadata_body_code(salvo, lazy) =~= nothing().word("static"@).word(
        "METADATA"@,
    ).punct(':') + cell + nothing().punct('<').word(salvo).seg("extract"@).seg("Metadata"@).punct(
        '>',
    ).punct('=') + cell + nothing().seg("new"@).paren(nothing()).punct(';').word("METADATA"@).call(
        "get_or_init"@,
        lazy,
    ));
}

/// The code of a struct is made of three implementations for the type, and of nothing else: the
/// one that lists its parameters, the one that registers them, and the one that reads it by its
/// description.
pub proof fn law_three_implementations<'a>(
    container: ToParameters,
    resolved: ResolvedView<'a>,
    context: Context<'a>,
    rendered: Seq<Rendered>,
)
    ensures
        container.code(resolved, context, rendered) == parameters_impl(
            container.target(),
            ident_text(*context.oapi),
            parameter_codes(resolved.parameters, context, rendered),
        ) + register_impl(container.target(), ident_text(*context.oapi)) + extractible_impl(
            container.target(),
            ident_text(*context.salvo),
            container.metadata(resolved, ident_text(*context.salvo)),
        ),
{
}

} // verus!
