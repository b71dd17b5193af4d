use proc_macro2::{Ident, Span, TokenStream};
use to_parameters::attribute::{find_nested_list, Attribute, NestedList};
use to_parameters::container::ToParameters;
use to_parameters::data::{Data, Field, Fields, SerdeContainer, SerdeValue};
use to_parameters::error::Rejection;
use to_parameters::feature::{
    Feature, FeatureEntry, FeatureKind, FeatureValue, ParameterIn, RenameRule, TypeTree,
};
use to_parameters::parameter::{Context, Plan, Rendered, Schema, Setting};

fn tokens(code: &str) -> TokenStream {
    code.parse().unwrap()
}

fn ident(name: &str) -> Ident {
    Ident::new(name, Span::call_site())
}

fn path(text: &str) -> syn::Path {
    syn::parse_str(text).unwrap()
}

fn feature(value: FeatureValue, rendered: &str) -> FeatureEntry {
    FeatureEntry::Parsed(Feature { value, rendered: tokens(rendered) })
}

fn salvo(list: &str, entries: Vec<FeatureEntry>) -> Attribute {
    Attribute {
        path: path("salvo"),
        nested: Ok(vec![NestedList { path: path(list), entries }]),
    }
}

fn field(name: Option<Ident>, ty: &str) -> Field {
    Field {
        ident: name,
        attrs: vec![],
        serde: Some(SerdeValue { skip: false, rename: None }),
        serde_required: true,
        deprecated: None,
        description: String::new(),
        type_tree: TypeTree { is_option: ty.starts_with("Option"), ty: tokens(ty) },
    }
}

fn named(name: &str, ty: &str) -> Field {
    field(Some(ident(name)), ty)
}

fn container(data: Data) -> ToParameters {
    ToParameters {
        attrs: vec![],
        generics: syn::Generics::default(),
        data,
        ident: ident("Query"),
        serde: None,
    }
}

fn named_struct(fields: Vec<Field>) -> ToParameters {
    container(Data::Struct(Fields::Named(fields)))
}

fn tuple_struct(fields: Vec<Field>, names: &[&str]) -> ToParameters {
    let mut result = container(Data::Struct(Fields::Unnamed(fields)));
    let names = names.iter().map(|name| name.to_string()).collect();
    result.attrs.push(salvo(
        "parameters",
        vec![feature(FeatureValue::ToParametersNames(names), "")],
    ));
    result
}

/// The code for a type, with the type of each component for its schema.
fn expand(input: &ToParameters) -> String {
    let salvo = ident("salvo");
    let oapi = ident("doc");
    let required = tokens("Yes");
    let not_required = tokens("No");
    let context = Context {
        salvo: &salvo,
        oapi: &oapi,
        required: &required,
        not_required: &not_required,
    };
    let resolved = match input.resolve() {
        Ok(resolved) => resolved,
        Err(_) => panic!("rejected"),
    };
    let mut rendered = vec![];
    for parameter in &resolved.parameters {
        let plan = match parameter.plan() {
            Ok(plan) => plan,
            Err(_) => panic!("rejected"),
        };
        rendered.push(Rendered {
            name: plan.rename.cloned(),
            schema: match &plan.schema {
                Schema::With(_) => TokenStream::new(),
                Schema::Component(component) => component.type_tree.ty.clone(),
            },
        });
    }
    let mut out = tokens("before");
    assert!(input.to_tokens(&context, &rendered, &mut out).is_ok());
    out.to_string()
}

/// The expected code for a type, from what differs between types.
fn expected(
    impl_generics: &str,
    extended: &str,
    ty: &str,
    parameters: &str,
    source: &str,
    fields: &str,
    rules: &str,
) -> String {
    let name = ty.split(' ').next().unwrap();
    tokens(&format!(
        r#"before
        impl {extended} doc::oapi::ToParameters< '__macro_gen_ex> for {ty} {{
            fn to_parameters(components: &mut doc::oapi::Components) -> doc::oapi::Parameters {{
                doc::oapi::Parameters([{parameters}].to_vec())
            }}
        }}
        impl {impl_generics} doc::oapi::EndpointArgRegister for {ty} {{
            fn register(components: &mut doc::oapi::Components, operation: &mut doc::oapi::Operation, _arg: &str) {{
                for parameter in <Self as doc::oapi::ToParameters> ::to_parameters(components) {{
                    operation.parameters.insert(parameter);
                }}
            }}
        }}
        impl {extended} salvo::Extractible< '__macro_gen_ex> for {ty} {{
            fn metadata() -> & '__macro_gen_ex salvo::extract::Metadata {{
                static METADATA: salvo::__private::once_cell::sync::OnceCell<salvo::extract::Metadata> = salvo::__private::once_cell::sync::OnceCell::new();
                METADATA.get_or_init(||
                    salvo::extract::Metadata::new("{name}")
                        .default_sources(vec![salvo::extract::metadata::Source::new(
                            salvo::extract::metadata::SourceFrom::{source},
                            salvo::extract::metadata::SourceParser::MultiMap
                        )])
                        .fields(vec![{fields}])
                        {rules}
                )
            }}
            async fn extract(req: & '__macro_gen_ex mut salvo::Request) -> Result<Self, impl salvo::Writer + Send + std::fmt::Debug + 'static> {{
                salvo::serde::from_request(req, Self::metadata()).await
            }}
            async fn extract_with_arg(req: & '__macro_gen_ex mut salvo::Request, _arg: &str) -> Result<Self, impl salvo::Writer + Send + std::fmt::Debug + 'static> {{
                Self::extract(req).await
            }}
        }}"#
    ))
    .to_string()
}

fn rejection(input: &ToParameters) -> Rejection<'_> {
    match input.resolve() {
        Ok(_) => panic!("accepted"),
        Err(error) => error,
    }
}

fn plan_of<'a>(input: &'a ToParameters, index: usize) -> Plan<'a> {
    match input.resolve() {
        Ok(resolved) => match resolved.parameters[index].plan() {
            Ok(plan) => plan,
            Err(_) => panic!("rejected"),
        },
        Err(_) => panic!("rejected"),
    }
}

#[test]
fn named_struct_without_attributes() {
    let input = named_struct(vec![named("name", "String"), named("age", "Option<u8>")]);
    assert_eq!(
        expand(&input),
        expected(
            "",
            "< '__macro_gen_ex>",
            "Query",
            r#"doc::oapi::parameter::Parameter::new("name").required(Yes).schema(String),
               doc::oapi::parameter::Parameter::new("age").required(No).schema(Option<u8>),"#,
            "Query",
            r#"salvo::extract::metadata::Field::new("name"), salvo::extract::metadata::Field::new("age")"#,
            "",
        )
    );
}

#[test]
fn named_struct_with_everything() {
    let mut first = named("id", "u64");
    first.deprecated = Some(tokens("Deprecated"));
    first.description = "The \"key\".".to_string();
    first.serde = Some(SerdeValue { skip: false, rename: Some("serde_id".to_string()) });
    first.attrs.push(salvo(
        "parameter",
        vec![
            feature(FeatureValue::Rename("key".to_string()), ".never()"),
            feature(FeatureValue::Explode, ".explode(true)"),
            feature(FeatureValue::ParameterIn(ParameterIn::Path, tokens("InPath")), ".never()"),
            feature(FeatureValue::MaxLength, ".max_length(3)"),
        ],
    ));
    first.attrs.push(salvo(
        "parameter",
        vec![
            feature(FeatureValue::Style(tokens("Simple")), ".never()"),
            feature(FeatureValue::Example, ".example(1)"),
        ],
    ));
    let mut input = named_struct(vec![first, named("plain", "Vec<u8>")]);
    input.generics = syn::parse_str("< 'a, T: Clone = u8, const N: usize>").unwrap();
    input.generics.where_clause = Some(syn::parse_str("where T: Send").unwrap());
    input.serde = Some(SerdeContainer { rename_all: Some(RenameRule::KebabCase) });
    input.attrs.push(salvo(
        "parameters",
        vec![
            feature(FeatureValue::DefaultStyle, ".style(Form)"),
            feature(FeatureValue::RenameAll(RenameRule::CamelCase), ".never()"),
            feature(FeatureValue::DefaultParameterIn(ParameterIn::Header), ".parameter_in(InHeader)"),
        ],
    ));
    assert_eq!(
        expand(&input),
        expected(
            "< 'a, T: Clone, const N: usize>",
            "< '__macro_gen_ex, 'a, T: Clone, const N: usize>",
            "Query < 'a, T, N> where T: Send",
            r#"doc::oapi::parameter::Parameter::new("key")
                   .parameter_in(InPath)
                   .style(Simple)
                   .deprecated(Deprecated)
                   .description("The \"key\".")
                   .required(Yes)
                   .example(1)
                   .explode(true)
                   .schema(u64),
               doc::oapi::parameter::Parameter::new("plain")
                   .parameter_in(InHeader)
                   .style(Form)
                   .required(Yes)
                   .schema(Vec<u8>),"#,
            "Header",
            r#"salvo::extract::metadata::Field::new("id")
                   .add_source(salvo::extract::metadata::Source::new(
                       salvo::extract::metadata::SourceFrom::Param,
                       salvo::extract::metadata::SourceParser::Smart
                   ))
                   .rename("key")
                   .serde_rename("serde_id"),
               salvo::extract::metadata::Field::new("plain")"#,
            ".rename_all(salvo::extract::RenameRule::CamelCase).serde_rename_all(salvo::extract::RenameRule::KebabCase)",
        )
    );
}

#[test]
fn tuple_struct_reads_skipped_fields_too() {
    let mut skipped = field(None, "u8");
    skipped.serde = Some(SerdeValue { skip: true, rename: None });
    let input = tuple_struct(vec![field(None, "u16"), skipped, field(None, "u32")], &["a", "b", "c"]);
    assert_eq!(
        expand(&input),
        expected(
            "",
            "< '__macro_gen_ex>",
            "Query",
            r#"doc::oapi::parameter::Parameter::new("a").required(Yes).schema(u16),
               doc::oapi::parameter::Parameter::new("c").required(Yes).schema(u32),"#,
            "Query",
            r#"salvo::extract::metadata::Field::new("a"),
               salvo::extract::metadata::Field::new("b"),
               salvo::extract::metadata::Field::new("c")"#,
            "",
        )
    );
}

#[test]
fn struct_without_parameters() {
    assert_eq!(
        expand(&named_struct(vec![])),
        expected("", "< '__macro_gen_ex>", "Query", "", "Query", "", "")
    );
    assert_eq!(
        expand(&tuple_struct(vec![], &[])),
        expected("", "< '__macro_gen_ex>", "Query", "", "Query", "", "")
    );
}

#[test]
fn fields_that_serde_skips_or_does_not_know_are_no_parameters() {
    let mut skipped = named("skipped", "u8");
    skipped.serde = Some(SerdeValue { skip: true, rename: None });
    let mut unknown = named("unknown", "u8");
    unknown.serde = None;
    let input = named_struct(vec![skipped, named("kept", "u8"), unknown]);
    match input.resolve() {
        Ok(resolved) => {
            assert_eq!(resolved.parameters.len(), 1);
            assert_eq!(resolved.parameters[0].field.ident, Some(ident("kept")));
        }
        Err(_) => panic!("rejected"),
    }
}

#[test]
fn tuple_parameters_keep_the_names_of_their_fields() {
    let mut skipped = field(None, "u8");
    skipped.serde = None;
    let input = tuple_struct(vec![skipped, field(None, "u8")], &["first", "second"]);
    let plan = plan_of(&input, 0);
    assert_eq!(plan.name, "second");
}

#[test]
fn default_sources() {
    for (place, source) in [
        (ParameterIn::Query, "Query"),
        (ParameterIn::Header, "Header"),
        (ParameterIn::Path, "Param"),
        (ParameterIn::Cookie, "Cookie"),
    ] {
        let mut input = named_struct(vec![]);
        input.attrs.push(salvo(
            "parameters",
            vec![feature(FeatureValue::DefaultParameterIn(place), "")],
        ));
        assert_eq!(expand(&input), expected("", "< '__macro_gen_ex>", "Query", "", source, "", ""));
    }
}

#[test]
fn rename_rules() {
    for (rule, name) in [
        (RenameRule::LowerCase, "LowerCase"),
        (RenameRule::UpperCase, "UpperCase"),
        (RenameRule::PascalCase, "PascalCase"),
        (RenameRule::CamelCase, "CamelCase"),
        (RenameRule::SnakeCase, "SnakeCase"),
        (RenameRule::ScreamingSnakeCase, "ScreamingSnakeCase"),
        (RenameRule::KebabCase, "KebabCase"),
        (RenameRule::ScreamingKebabCase, "ScreamingKebabCase"),
    ] {
        let mut input = named_struct(vec![]);
        input.serde = Some(SerdeContainer { rename_all: Some(rule) });
        let call = format!(".serde_rename_all(salvo::extract::RenameRule::{name})");
        assert_eq!(expand(&input), expected("", "< '__macro_gen_ex>", "Query", "", "Query", "", &call));
    }
}

#[test]
fn raw_identifiers_lose_their_mark_in_parameters_only() {
    let input = named_struct(vec![field(Some(Ident::new_raw("type", Span::call_site())), "u8")]);
    assert_eq!(
        expand(&input),
        expected(
            "",
            "< '__macro_gen_ex>",
            "Query",
            r#"doc::oapi::parameter::Parameter::new("type").required(Yes).schema(u8),"#,
            "Query",
            r##"salvo::extract::metadata::Field::new("r#type")"##,
            "",
        )
    );
}

#[test]
fn schema_function_decides_alone() {
    let mut with = named("x", "Option<u8>");
    with.description = "described".to_string();
    with.deprecated = Some(tokens("Old"));
    with.attrs.push(salvo(
        "parameter",
        vec![
            feature(FeatureValue::Example, ".example(1)"),
            feature(FeatureValue::SchemaWith, "make_schema()"),
            feature(FeatureValue::Required(true), ".never()"),
        ],
    ));
    assert_eq!(
        expand(&named_struct(vec![with])),
        expected(
            "",
            "< '__macro_gen_ex>",
            "Query",
            r#"doc::oapi::parameter::Parameter::new("x").deprecated(Old).schema(make_schema()),"#,
            "Query",
            r#"salvo::extract::metadata::Field::new("x")"#,
            "",
        )
    );
}

#[test]
fn what_has_to_be_given() {
    for (option, demanded, serde_required, required) in [
        (false, false, true, true),
        (false, false, false, false),
        (false, true, true, true),
        (false, true, false, false),
        (true, false, true, false),
        (true, false, false, false),
        (true, true, true, true),
        (true, true, false, false),
    ] {
        let mut one = named("x", if option { "Option<u8>" } else { "u8" });
        one.serde_required = serde_required;
        one.attrs.push(salvo("parameter", vec![feature(FeatureValue::Required(demanded), "")]));
        let input = named_struct(vec![one]);
        match plan_of(&input, 0).schema {
            Schema::Component(component) => assert_eq!(component.required, required),
            Schema::With(_) => panic!("no component"),
        };
    }
}

#[test]
fn value_type_replaces_the_type() {
    let mut one = named("x", "Option<u8>");
    one.attrs.push(salvo(
        "parameter",
        vec![feature(
            FeatureValue::ValueType(TypeTree { is_option: false, ty: tokens("String") }),
            "",
        )],
    ));
    let input = named_struct(vec![one]);
    match plan_of(&input, 0).schema {
        Schema::Component(component) => {
            assert_eq!(component.type_tree.ty.to_string(), "String");
            assert!(component.required);
            assert!(component.features.is_empty());
        }
        Schema::With(_) => panic!("no component"),
    };
}

#[test]
fn own_settings_come_before_those_of_the_struct() {
    let mut one = named("x", "u8");
    one.attrs.push(salvo(
        "parameter",
        vec![
            feature(FeatureValue::Style(tokens("Own")), ""),
            feature(FeatureValue::Style(tokens("Second")), ".style(Second)"),
        ],
    ));
    let mut input = named_struct(vec![one]);
    input.attrs.push(salvo(
        "parameters",
        vec![
            feature(FeatureValue::DefaultStyle, ".style(Default)"),
            feature(FeatureValue::DefaultParameterIn(ParameterIn::Cookie), ".parameter_in(Cookie)"),
        ],
    ));
    let plan = plan_of(&input, 0);
    match plan.style {
        Setting::Own(style) => assert_eq!(style.to_string(), "Own"),
        _ => panic!("not the own style"),
    }
    match plan.parameter_in {
        Setting::Inherited(code) => assert_eq!(code.to_string(), tokens(".parameter_in(Cookie)").to_string()),
        _ => panic!("not the place of the struct"),
    }
    match plan.schema {
        Schema::Component(component) => assert_eq!(component.features.len(), 1),
        Schema::With(_) => panic!("no component"),
    };
}

#[test]
fn own_names_come_before_those_of_serde() {
    let mut one = named("x", "u8");
    one.serde = Some(SerdeValue { skip: false, rename: Some("by_serde".to_string()) });
    let mut two = named("y", "u8");
    two.serde = Some(SerdeValue { skip: false, rename: Some("by_serde".to_string()) });
    two.attrs.push(salvo(
        "parameter",
        vec![feature(FeatureValue::Rename("by_salvo".to_string()), "")],
    ));
    let input = named_struct(vec![one, two, named("z", "u8")]);
    assert_eq!(plan_of(&input, 0).rename.map(String::as_str), Some("by_serde"));
    assert_eq!(plan_of(&input, 1).rename.map(String::as_str), Some("by_salvo"));
    assert_eq!(plan_of(&input, 2).rename, None);
}

#[test]
fn rule_of_the_struct_holds_where_serde_has_none() {
    let mut input = named_struct(vec![named("x", "u8")]);
    assert_eq!(plan_of(&input, 0).rename_all, None);
    input.attrs.push(salvo(
        "parameters",
        vec![feature(FeatureValue::RenameAll(RenameRule::UpperCase), "")],
    ));
    assert_eq!(plan_of(&input, 0).rename_all, Some(RenameRule::UpperCase));
    input.serde = Some(SerdeContainer { rename_all: None });
    assert_eq!(plan_of(&input, 0).rename_all, Some(RenameRule::UpperCase));
    input.serde = Some(SerdeContainer { rename_all: Some(RenameRule::LowerCase) });
    assert_eq!(plan_of(&input, 0).rename_all, Some(RenameRule::LowerCase));
    match input.resolve() {
        Ok(resolved) => assert_eq!(resolved.settings.rename_all, Some(RenameRule::UpperCase)),
        Err(_) => panic!("rejected"),
    }
}

#[test]
fn features_are_split_in_order() {
    let mut one = named("x", "u8");
    one.attrs.push(salvo(
        "parameter",
        vec![
            feature(FeatureValue::Pattern, ""),
            feature(FeatureValue::Explode, ""),
            feature(FeatureValue::Inline, ""),
        ],
    ));
    one.attrs.push(salvo(
        "parameter",
        vec![feature(FeatureValue::Example, ""), feature(FeatureValue::MinItems, "")],
    ));
    let input = named_struct(vec![one]);
    match input.resolve() {
        Ok(resolved) => match resolved.parameters[0].resolve_field_features() {
            Ok((schema, parameter)) => {
                let schema: Vec<FeatureKind> = schema.iter().map(|f| f.kind()).collect();
                let parameter: Vec<FeatureKind> = parameter.iter().map(|f| f.kind()).collect();
                assert_eq!(
                    schema,
                    vec![FeatureKind::Pattern, FeatureKind::Inline, FeatureKind::MinItems]
                );
                assert_eq!(parameter, vec![FeatureKind::Explode, FeatureKind::Example]);
            }
            Err(_) => panic!("rejected"),
        },
        Err(_) => panic!("rejected"),
    }
}

#[test]
fn settings_in_any_order_and_in_any_attribute() {
    let make = |order: [usize; 4], split: usize| {
        let mut input = container(Data::Struct(Fields::Unnamed(vec![field(None, "u8")])));
        let one = |index: usize| match index {
            0 => feature(FeatureValue::ToParametersNames(vec!["a".to_string()]), ""),
            1 => feature(FeatureValue::DefaultStyle, ".style(S)"),
            2 => feature(FeatureValue::DefaultParameterIn(ParameterIn::Header), ".place(H)"),
            _ => feature(FeatureValue::RenameAll(RenameRule::SnakeCase), ""),
        };
        let front = order[..split].iter().map(|index| one(*index)).collect();
        let back = order[split..].iter().map(|index| one(*index)).collect();
        input.attrs.push(salvo("parameters", front));
        input.attrs.push(salvo("parameters", back));
        expand(&input)
    };
    let first = make([0, 1, 2, 3], 4);
    assert_eq!(first, make([3, 2, 1, 0], 2));
    assert_eq!(first, make([1, 3, 0, 2], 0));
    assert_eq!(first, make([2, 0, 3, 1], 3));
}

#[test]
fn source_follows_the_documented_place() {
    for (place, source) in [
        (ParameterIn::Query, "Query"),
        (ParameterIn::Header, "Header"),
        (ParameterIn::Path, "Param"),
        (ParameterIn::Cookie, "Cookie"),
    ] {
        let mut one = named("x", "u8");
        one.attrs.push(salvo(
            "parameter",
            vec![feature(FeatureValue::ParameterIn(place, tokens(source)), "")],
        ));
        let input = named_struct(vec![one]);
        match input.resolve() {
            Ok(resolved) => {
                let code = resolved.parameters[0].to_extract_field_token_stream(&ident("my"));
                match code {
                    Ok(code) => assert_eq!(
                        code.to_string(),
                        tokens(&format!(
                            "my::extract::metadata::Field::new(\"x\").add_source(
                                my::extract::metadata::Source::new(
                                    my::extract::metadata::SourceFrom::{source},
                                    my::extract::metadata::SourceParser::Smart))"
                        ))
                        .to_string()
                    ),
                    Err(_) => panic!("rejected"),
                }
            }
            Err(_) => panic!("rejected"),
        }
        match plan_of(&input, 0).parameter_in {
            Setting::Own(expression) => assert_eq!(expression.to_string(), source),
            _ => panic!("no place of its own"),
        };
    }
}

#[test]
fn generics_that_are_empty_or_end_in_a_comma_or_are_out_of_order() {
    for (generics, declared, extended, ty) in [
        ("<>", "", "< '__macro_gen_ex>", "Query"),
        ("<T,>", "<T, >", "< '__macro_gen_ex, T, >", "Query <T, >"),
        ("<T, 'a>", "< 'a, T, >", "< '__macro_gen_ex, 'a, T, >", "Query < 'a, T, >"),
    ] {
        let mut input = named_struct(vec![]);
        input.generics = syn::parse_str(generics).unwrap();
        assert_eq!(expand(&input), expected(declared, extended, ty, "", "Query", "", ""));
    }
}

#[test]
fn attributes_of_others_are_ignored() {
    let mut input = named_struct(vec![]);
    for other in ["serde", "::salvo", "salvo::oapi", "salvo<T>"] {
        input.attrs.push(Attribute {
            path: path(other),
            nested: Ok(vec![NestedList {
                path: path("parameter"),
                entries: vec![FeatureEntry::Unknown("x".to_string())],
            }]),
        });
    }
    input.attrs.push(Attribute {
        path: path("salvo"),
        nested: Err(syn::Error::new(Span::call_site(), "no list")),
    });
    input.attrs.push(salvo("schema", vec![FeatureEntry::Unknown("x".to_string())]));
    assert!(input.resolve().is_ok());
}

#[test]
fn first_list_with_the_name_is_found() {
    let attr = Attribute {
        path: path("salvo"),
        nested: Ok(vec![
            NestedList { path: path("schema"), entries: vec![] },
            NestedList { path: path("parameter"), entries: vec![FeatureEntry::Unknown("1".to_string())] },
            NestedList { path: path("parameter"), entries: vec![] },
        ]),
    };
    match find_nested_list(&attr, "parameter") {
        Ok(Some(list)) => assert_eq!(list.entries.len(), 1),
        _ => panic!("not found"),
    }
    assert!(matches!(find_nested_list(&attr, "parameters"), Ok(None)));
    let broken = Attribute {
        path: path("salvo"),
        nested: Err(syn::Error::new(Span::call_site(), "no list")),
    };
    match find_nested_list(&broken, "parameter") {
        Err(error) => assert_eq!(error.to_string(), "no list"),
        Ok(_) => panic!("found"),
    }
}

#[test]
fn container_features_are_rejected_on_fields_and_field_features_on_containers() {
    let mut input = named_struct(vec![named("x", "u8")]);
    input.attrs.push(salvo("parameters", vec![feature(FeatureValue::Explode, "")]));
    assert!(matches!(
        rejection(&input),
        Rejection::Unexpected(FeatureEntry::Parsed(Feature { value: FeatureValue::Explode, .. }))
    ));
    let mut one = named("x", "u8");
    one.attrs.push(salvo("parameter", vec![feature(FeatureValue::DefaultStyle, "")]));
    let input = named_struct(vec![one]);
    match input.resolve() {
        Ok(resolved) => {
            assert!(matches!(
                resolved.parameters[0].resolve_field_features(),
                Err(Rejection::Unexpected(_))
            ));
            assert!(matches!(resolved.parameters[0].plan(), Err(Rejection::Unexpected(_))));
            assert!(resolved.parameters[0].to_extract_field_token_stream(&ident("salvo")).is_err());
        }
        Err(_) => panic!("rejected"),
    }
}

#[test]
fn first_error_in_a_list_is_reported() {
    let broken = || syn::Error::new(Span::call_site(), "expected a string");
    let mut input = named_struct(vec![]);
    input.attrs.push(salvo(
        "parameters",
        vec![
            feature(FeatureValue::RenameAll(RenameRule::CamelCase), ""),
            FeatureEntry::Malformed(FeatureKind::ToParametersNames, broken()),
            FeatureEntry::Unknown("nonsense".to_string()),
        ],
    ));
    match rejection(&input) {
        Rejection::Parse(error) => assert_eq!(error.to_string(), "expected a string"),
        _ => panic!("another error"),
    }
    let mut input = named_struct(vec![]);
    input.attrs.push(salvo(
        "parameters",
        vec![FeatureEntry::Malformed(FeatureKind::Inline, broken())],
    ));
    assert!(matches!(rejection(&input), Rejection::Unexpected(FeatureEntry::Malformed(_, _))));
    let mut input = named_struct(vec![]);
    input.attrs.push(salvo("parameters", vec![FeatureEntry::Unknown("nonsense".to_string())]));
    assert!(matches!(rejection(&input), Rejection::Unexpected(FeatureEntry::Unknown(_))));
    assert!(rejection(&input).diagnostic(&input.ident).is_none());
}

#[test]
fn error_in_a_field_leaves_the_tokens_alone() {
    let mut one = named("x", "u8");
    one.attrs.push(salvo("parameter", vec![FeatureEntry::Unknown("nonsense".to_string())]));
    let input = named_struct(vec![named("ok", "u8"), one]);
    let name = ident("salvo");
    let expression = TokenStream::new();
    let context = Context {
        salvo: &name,
        oapi: &name,
        required: &expression,
        not_required: &expression,
    };
    let rendered = vec![
        Rendered { name: None, schema: TokenStream::new() },
        Rendered { name: None, schema: TokenStream::new() },
    ];
    let mut out = tokens("before");
    assert!(matches!(
        input.to_tokens(&context, &rendered, &mut out),
        Err(Rejection::Unexpected(FeatureEntry::Unknown(_)))
    ));
    assert_eq!(out.to_string(), "before");
    match input.resolve() {
        Ok(resolved) => {
            assert!(resolved.parameters[1].to_tokens(&context, &rendered[1], &mut out).is_err());
            assert_eq!(out.to_string(), "before");
            assert!(resolved.parameters[0].to_tokens(&context, &rendered[0], &mut out).is_ok());
            assert_eq!(
                out.to_string(),
                tokens(r#"before salvo::oapi::parameter::Parameter::new("ok").required().schema()"#)
                    .to_string()
            );
        }
        Err(_) => panic!("rejected"),
    }
}

#[test]
fn misplaced_attribute() {
    let mut input = named_struct(vec![]);
    input.attrs.push(salvo("parameter", vec![]));
    let error = rejection(&input);
    assert!(matches!(error, Rejection::MisplacedParameter));
    let report = error.diagnostic(&input.ident).unwrap();
    assert_eq!(report.message, "found `parameter` attribute in unsupported context");
    assert_eq!(report.helps, vec!["Did you mean `parameters`?"]);
    assert_eq!(report.note, None);
}

#[test]
fn misplaced_attribute_is_reported_after_broken_lists_and_before_wrong_data() {
    let mut input = container(Data::Enum);
    input.attrs.push(salvo("parameter", vec![]));
    assert!(matches!(rejection(&input), Rejection::MisplacedParameter));
    input.attrs.push(salvo("parameters", vec![FeatureEntry::Unknown("x".to_string())]));
    assert!(matches!(rejection(&input), Rejection::Unexpected(_)));
}

#[test]
fn unsupported_data() {
    let message = "unsupported data type, expected struct with named fields `struct Query {...}` or unnamed fields `struct Query(...)`";
    let input = container(Data::Struct(Fields::Unit));
    let report = rejection(&input).diagnostic(&input.ident).unwrap();
    assert_eq!(report.message, message);
    assert_eq!(report.note.as_deref(), Some("Unit type struct is not supported"));
    assert!(report.helps.is_empty());
    for data in [Data::Enum, Data::Union] {
        let input = container(data);
        let error = rejection(&input);
        assert!(matches!(error, Rejection::NotStruct));
        let report = error.diagnostic(&input.ident).unwrap();
        assert_eq!(report.message, message);
        assert_eq!(report.note.as_deref(), Some("Only struct type is supported"));
    }
}

#[test]
fn names_on_named_fields() {
    let mut input = tuple_struct(vec![], &["a"]);
    input.data = Data::Struct(Fields::Named(vec![named("x", "u8")]));
    let error = rejection(&input);
    assert!(matches!(error, Rejection::NamesOnNamedFields));
    assert_eq!(
        error.diagnostic(&input.ident).unwrap().message,
        "`#[salvo(parameters(names(...)))]` is not supported attribute on a struct with named fields"
    );
}

#[test]
fn wrong_number_of_names() {
    let input = tuple_struct(vec![field(None, "u8")], &["a"; 12]);
    let error = rejection(&input);
    assert!(matches!(error, Rejection::NamesMismatch { names: 12, fields: 1 }));
    let report = error.diagnostic(&input.ident).unwrap();
    assert_eq!(
        report.message,
        "declared names amount '12' does not match to the unnamed fields amount '1' in type: Query"
    );
    assert_eq!(
        report.helps,
        vec![
            "Did you forget to add a field name to `#[salvo(parameters(names(... , \"field_name\")))]`",
            "Or have you added extra name but haven't defined a type?",
        ]
    );
}

#[test]
fn missing_names() {
    let input = container(Data::Struct(Fields::Unnamed(vec![field(None, "u8")])));
    let error = rejection(&input);
    assert!(matches!(error, Rejection::NamesMissing));
    let report = error.diagnostic(&input.ident).unwrap();
    assert_eq!(report.message, "struct with unnamed fields must have explicit name declarations.");
    assert_eq!(
        report.helps,
        vec!["Try defining `#[salvo(parameters(names(...)))]` over your type: Query"]
    );
}

#[test]
fn field_without_any_name() {
    let input = tuple_struct(vec![field(None, "u8")], &["a"]);
    match input.resolve() {
        Ok(mut resolved) => {
            resolved.parameters[0].container_attributes.name = None;
            match resolved.parameters[0].plan() {
                Err(error) => {
                    assert!(matches!(error, Rejection::UnnamedField(_)));
                    let report = error.diagnostic(&input.ident).unwrap();
                    assert_eq!(report.message, "No name specified for unnamed field.");
                    assert_eq!(
                        report.helps,
                        vec!["Try adding #[salvo(parameters(names(...)))] container attribute to specify the name for this field"]
                    );
                }
                Ok(_) => panic!("accepted"),
            };
        }
        Err(_) => panic!("rejected"),
    }
}

#[test]
fn kinds_of_structs() {
    assert!(named_struct(vec![]).is_named_struct());
    assert!(!tuple_struct(vec![], &[]).is_named_struct());
    assert!(!container(Data::Struct(Fields::Unit)).is_named_struct());
    assert!(!container(Data::Enum).is_named_struct());
    assert!(!container(Data::Union).is_named_struct());
}
