//! The struct as a whole: its settings, its parameters and the code for it.

use crate::attribute::{declared, declared_features, find_salvo_list, salvo_list, Attribute};
use crate::code::{
    codes, extractible_impl, lemma_codes_push, metadata_code, parameters_impl, quote_extractible_impl,
    quote_metadata, quote_parameters_impl, quote_register_impl, register_impl, Target,
    TargetTokens,
};
use crate::data::{Data, Field, Fields, SerdeContainer};
use crate::error::Rejection;
use crate::extract::{field_code, quote_field, quote_source, source_code, SourceParser};
use crate::feature::{
    first_of, pop_by, rest_of, Feature, FeatureKind, FeatureValue, ParameterIn, RenameRule, Scope,
};
use crate::parameter::{Context, FieldParameterContainerAttributes, Parameter, Rendered};
use crate::tokens::{
    ident_text, ident_to_string, impl_generics, lifetime_first, new_stream, splice, split_for_impl,
    trees, type_generics, where_clause, with_lifetime, Tree, TreeSeq,
};
use proc_macro2::{Ident, TokenStream};
use syn::Generics;
use vstd::prelude::*;

verus! {

/// A type that parameters are derived from.
pub struct ToParameters {
    pub attrs: Vec<Attribute>,
    pub generics: Generics,
    pub data: Data,
    pub ident: Ident,
    /// The serde attributes of the type, if they could be read.
    pub serde: Option<SerdeContainer>,
}

/// What the attributes of the struct set for all fields.
pub struct Settings<'a> {
    /// The names of the fields of a tuple struct.
    pub names: Option<&'a Vec<String>>,
    /// The style of the parameters that name none.
    pub default_style: Option<&'a Feature>,
    /// The place of the parameters that name none.
    pub default_parameter_in: Option<&'a Feature>,
    /// The rule by which the names of all fields are rewritten.
    pub rename_all: Option<RenameRule>,
}

/// A struct whose attributes and fields fit together.
pub struct Resolved<'a> {
    pub settings: Settings<'a>,
    /// The fields that become parameters, in order.
    pub parameters: Vec<Parameter<'a>>,
}

/// A [`Resolved`], over sequences.
#[verifier::ext_equal]
pub struct ResolvedView<'a> {
    pub settings: Settings<'a>,
    pub parameters: Seq<Parameter<'a>>,
}

impl<'a> View for Resolved<'a> {
    type V = ResolvedView<'a>;

    open spec fn view(&self) -> ResolvedView<'a> {
        ResolvedView { settings: self.settings, parameters: self.parameters@ }
    }
}

/// The names that a feature declares.
pub open spec fn names_of<'a>(feature: Option<&'a Feature>) -> Option<&'a Vec<String>> {
    match feature {
        Some(feature) => match &feature.value {
            FeatureValue::ToParametersNames(names) => Some(names),
            _ => None,
        },
        None => None,
    }
}

/// The rule that a feature declares.
pub open spec fn rule_of(feature: Option<&Feature>) -> Option<RenameRule> {
    match feature {
        Some(feature) => match feature.value {
            FeatureValue::RenameAll(rule) => Some(rule),
            _ => None,
        },
        None => None,
    }
}

/// What the features of a struct set.
pub open spec fn settings_of<'a>(features: Seq<&'a Feature>) -> Settings<'a> {
    let after_names = rest_of(features, FeatureKind::ToParametersNames);
    let after_style = rest_of(after_names, FeatureKind::DefaultStyle);
    let after_place = rest_of(after_style, FeatureKind::DefaultParameterIn);
    Settings {
        names: names_of(first_of(features, FeatureKind::ToParametersNames)),
        default_style: first_of(after_names, FeatureKind::DefaultStyle),
        default_parameter_in: first_of(after_style, FeatureKind::DefaultParameterIn),
        rename_all: rule_of(first_of(after_place, FeatureKind::RenameAll)),
    }
}

impl<'a> Settings<'a> {
    /// Where the fields are read from that name no place.
    pub open spec fn default_place(self) -> ParameterIn {
        match self.default_parameter_in {
            Some(feature) => match feature.value {
                FeatureValue::DefaultParameterIn(place) => place,
                _ => ParameterIn::Query,
            },
            None => ParameterIn::Query,
        }
    }

    /// Where the fields are read from that name no place.
    fn find_default_place(&self) -> (place: ParameterIn)
        ensures
            place == self.default_place(),
    {
        match self.default_parameter_in {
            Some(feature) => match feature.value {
                FeatureValue::DefaultParameterIn(place) => place,
                _ => ParameterIn::Query,
            },
            None => ParameterIn::Query,
        }
    }
}

/// Whether a field becomes a parameter: serde knows it and does not skip it.
pub open spec fn kept(field: Field) -> bool {
    field.serde matches Some(serde) && !serde.skip
}

impl ToParameters {
    /// The fields that are said to be named have names.
    pub open spec fn well_formed(self) -> bool {
        self.data.well_formed()
    }

    /// Whether the fields of the struct have names.
    pub open spec fn named(self) -> bool {
        self.data matches Data::Struct(Fields::Named(_))
    }

    /// Whether the attribute of a field stands on the struct.
    pub open spec fn misplaced(self) -> bool {
        exists|i: int|
            0 <= i < self.attrs@.len() && salvo_list(#[trigger] self.attrs@[i], "parameter"@) is Some
    }

    /// The fields of the struct, if the declared names suit them.
    pub open spec fn fields<'a>(self, names: Option<&'a Vec<String>>) -> Result<
        &'a Vec<Field>,
        Rejection<'a>,
    > {
        match self.data {
            Data::Struct(Fields::Named(fields)) => match names {
                Some(_) => Err(Rejection::NamesOnNamedFields),
                None => Ok(&fields),
            },
            Data::Struct(Fields::Unnamed(fields)) => match names {
                Some(names) => if names@.len() == fields@.len() {
                    Ok(&fields)
                } else {
                    Err(
                        Rejection::NamesMismatch {
                            names: names@.len() as usize,
                            fields: fields@.len() as usize,
                        },
                    )
                },
                None => Err(Rejection::NamesMissing),
            },
            Data::Struct(Fields::Unit) => Err(Rejection::UnitStruct),
            _ => Err(Rejection::NotStruct),
        }
    }

    /// The parameter that a field becomes.
    pub open spec fn parameter<'a>(
        self,
        settings: Settings<'a>,
        fields: Seq<Field>,
        index: int,
    ) -> Parameter<'a> {
        Parameter {
            field: &fields[index],
            field_serde_params: match &fields[index].serde {
                Some(serde) => Some(serde),
                None => None,
            },
            container_attributes: FieldParameterContainerAttributes {
                default_style: settings.default_style,
                name: match settings.names {
                    Some(names) => Some(&names@[index]),
                    None => None,
                },
                default_parameter_in: settings.default_parameter_in,
                rename_all: settings.rename_all,
            },
            serde_container: match &self.serde {
                Some(serde) => Some(serde),
                None => None,
            },
        }
    }

    /// The parameters that the first `count` fields become, in order.
    pub open spec fn parameters<'a>(
        self,
        settings: Settings<'a>,
        fields: Seq<Field>,
        count: int,
    ) -> Seq<Parameter<'a>>
        decreases count,
    {
        if count <= 0 {
            Seq::empty()
        } else {
            let front = self.parameters(settings, fields, count - 1);
            if kept(fields[count - 1]) {
                front.push(self.parameter(settings, fields, count - 1))
            } else {
                front
            }
        }
    }

    /// The settings and the parameters of the struct, or why its attributes and its fields do
    /// not fit together.
    pub open spec fn resolved<'a>(self) -> Result<ResolvedView<'a>, Rejection<'a>> {
        match declared(self.attrs@, Scope::Container) {
            Ok(features) => if self.misplaced() {
                Err(Rejection::MisplacedParameter)
            } else {
                let settings = settings_of(features);
                match self.fields(settings.names) {
                    Ok(fields) => Ok(
                        ResolvedView {
                            settings,
                            parameters: self.parameters(
                                settings,
                                fields@,
                                fields@.len() as int,
                            ),
                        },
                    ),
                    Err(error) => Err(error),
                }
            },
            Err(error) => Err(error),
        }
    }

    /// Whether the fields of the struct have names.
    pub fn is_named_struct(&self) -> (result: bool)
        ensures
            result == self.named(),
    {
        match &self.data {
            Data::Struct(Fields::Named(_)) => true,
            _ => false,
        }
    }

    /// Finds the fields of the struct.
    pub fn get_struct_fields<'a>(&'a self, field_names: Option<&'a Vec<String>>) -> (result: Result<
        &'a Vec<Field>,
        Rejection<'a>,
    >)
        ensures
            result == self.fields(field_names),
    {
        match &self.data {
            Data::Struct(Fields::Named(fields)) => {
                if field_names.is_some() {
                    return Err(Rejection::NamesOnNamedFields);
                }
                Ok(fields)
            },
            Data::Struct(Fields::Unnamed(fields)) => {
                match self.validate_unnamed_field_names(fields, field_names) {
                    Ok(()) => Ok(fields),
                    Err(error) => Err(error),
                }
            },
            Data::Struct(Fields::Unit) => Err(Rejection::UnitStruct),
            _ => Err(Rejection::NotStruct),
        }
    }

    /// Checks that there is one name for each field of a tuple struct.
    pub fn validate_unnamed_field_names<'a>(
        &self,
        unnamed_fields: &'a Vec<Field>,
        field_names: Option<&'a Vec<String>>,
    ) -> (result: Result<(), Rejection<'a>>)
        ensures
            result == match field_names {
                Some(names) => if names@.len() == unnamed_fields@.len() {
                    Ok::<(), Rejection>(())
                } else {
                    Err(
                        Rejection::NamesMismatch {
                            names: names@.len() as usize,
                            fields: unnamed_fields@.len() as usize,
                        },
                    )
                },
                None => Err(Rejection::NamesMissing),
            },
    {
        match field_names {
            Some(names) => if names.len() != unnamed_fields.len() {
                Err(Rejection::NamesMismatch { names: names.len(), fields: unnamed_fields.len() })
            } else {
                Ok(())
            },
            None => Err(Rejection::NamesMissing),
        }
    }

    /// Whether the attribute of a field stands on the struct.
    fn is_misplaced(&self) -> (result: bool)
        ensures
            result == self.misplaced(),
    {
        for i in 0..self.attrs.len()
            invariant
                forall|j: int|
                    0 <= j < i ==> salvo_list(#[trigger] self.attrs@[j], "parameter"@) is None,
        {
            if find_salvo_list(&self.attrs[i], "parameter").is_some() {
                return true;
            }
        }
        false
    }

    /// Reads the settings of the struct and finds its parameters.
    pub fn resolve<'a>(&'a self) -> (result: Result<Resolved<'a>, Rejection<'a>>)
        ensures
            match result {
                Ok(resolved) => self.resolved() == Ok::<_, Rejection>(resolved@),
                Err(error) => self.resolved() == Err::<ResolvedView, _>(error),
            },
    {
        let mut features = match declared_features(&self.attrs, Scope::Container) {
            Ok(features) => features,
            Err(error) => return Err(error),
        };
        if self.is_misplaced() {
            return Err(Rejection::MisplacedParameter);
        }
        let names: Option<&'a Vec<String>> = match pop_by(
            &mut features,
            FeatureKind::ToParametersNames,
        ) {
            Some(feature) => match &feature.value {
                FeatureValue::ToParametersNames(names) => Some(names),
                _ => None,
            },
            None => None,
        };
        let default_style = pop_by(&mut features, FeatureKind::DefaultStyle);
        let default_parameter_in = pop_by(&mut features, FeatureKind::DefaultParameterIn);
        let rename_all: Option<RenameRule> = match pop_by(&mut features, FeatureKind::RenameAll) {
            Some(feature) => match feature.value {
                FeatureValue::RenameAll(rule) => Some(rule),
                _ => None,
            },
            None => None,
        };
        let settings = Settings { names, default_style, default_parameter_in, rename_all };
        let fields = match self.get_struct_fields(names) {
            Ok(fields) => fields,
            Err(error) => return Err(error),
        };
        let mut parameters: Vec<Parameter<'a>> = Vec::new();
        for index in 0..fields.len()
            invariant
                settings.names matches Some(names) ==> names@.len() == fields@.len(),
                settings == (Settings { names, default_style, default_parameter_in, rename_all }),
                parameters@ == self.parameters(settings, fields@, index as int),
        {
            let field: &'a Field = &fields[index];
            if let Some(serde) = &field.serde {
                if !serde.skip {
                    let name: Option<&'a String> = match names {
                        Some(names) => Some(&names[index]),
                        None => None,
                    };
                    parameters.push(
                        Parameter {
                            field,
                            field_serde_params: Some(serde),
                            container_attributes: FieldParameterContainerAttributes {
                                default_style,
                                name,
                                default_parameter_in,
                                rename_all,
                            },
                            serde_container: match &self.serde {
                                Some(serde) => Some(serde),
                                None => None,
                            },
                        },
                    );
                }
            }
        }
        Ok(Resolved { settings, parameters })
    }

    /// The settings and the parameters of the struct, or why no code can be generated for it.
    pub open spec fn accepted<'a>(self) -> Result<ResolvedView<'a>, Rejection<'a>> {
        match self.resolved() {
            Ok(resolved) => match first_rejection(resolved.parameters) {
                Some(error) => Err(error),
                None => Ok(resolved),
            },
            Err(error) => Err(error),
        }
    }

    /// The fields that are read from a request, each given by its code. Of a struct with named
    /// fields these are the parameters; of a tuple struct, one for each declared name.
    pub open spec fn extract_fields<'a>(self, resolved: ResolvedView<'a>, salvo: Seq<char>) -> Seq<
        Seq<Tree>,
    > {
        if self.named() {
            resolved.parameters.map_values(
                |parameter: Parameter<'a>|
                    parameter.extract_code(
                        salvo,
                        ident_text(parameter.field.ident->Some_0),
                        parameter.features()->Ok_0,
                    ),
            )
        } else {
            match resolved.settings.names {
                Some(names) => names@.map_values(|name: String| field_code(salvo, name@)),
                None => Seq::empty(),
            }
        }
    }

    /// The type that the traits are implemented for.
    pub open spec fn target(self) -> Target {
        Target {
            declared: impl_generics(self.generics),
            extended: lifetime_first("__macro_gen_ex"@, impl_generics(self.generics)),
            ident: ident_text(self.ident),
            arguments: type_generics(self.generics),
            condition: where_clause(self.generics),
        }
    }

    /// The rule by which serde rewrites the names of the fields.
    pub open spec fn serde_rename_all(self) -> Option<RenameRule> {
        match self.serde {
            Some(serde) => serde.rename_all,
            None => None,
        }
    }

    /// The code by which the struct describes how it is read.
    pub open spec fn metadata<'a>(self, resolved: ResolvedView<'a>, salvo: Seq<char>) -> Seq<Tree> {
        metadata_code(
            salvo,
            ident_text(self.ident),
            source_code(salvo, resolved.settings.default_place(), SourceParser::MultiMap),
            self.extract_fields(resolved, salvo),
            resolved.settings.rename_all,
            self.serde_rename_all(),
        )
    }

    /// The implementations for the struct: it lists its parameters, registers them and is read
    /// from a request.
    pub open spec fn code<'a>(
        self,
        resolved: ResolvedView<'a>,
        context: Context,
        rendered: Seq<Rendered>,
    ) -> Seq<Tree> {
        let salvo = ident_text(*context.salvo);
        let oapi = ident_text(*context.oapi);
        parameters_impl(
            self.target(),
            oapi,
            parameter_codes(resolved.parameters, context, rendered),
        ).splice(register_impl(self.target(), oapi)).splice(
            extractible_impl(self.target(), salvo, self.metadata(resolved, salvo)),
        )
    }

    /// Writes the parts of the type that the traits are implemented for.
    fn quote_target(&self) -> (target: TargetTokens<'_>)
        ensures
            target@ == self.target(),
    {
        proof {
            reveal_strlit("'__macro_gen_ex");
            reveal_strlit("__macro_gen_ex");
            assert("'__macro_gen_ex"@.skip(1) =~= "__macro_gen_ex"@);
        }
        let extended = with_lifetime(&self.generics, "'__macro_gen_ex");
        let (extended, _, _) = split_for_impl(&extended);
        let (declared, arguments, condition) = split_for_impl(&self.generics);
        TargetTokens { declared, extended, ident: &self.ident, arguments, condition }
    }

    /// Writes the code of the fields that are read from a request.
    fn quote_extract_fields<'a>(&'a self, resolved: &Resolved<'a>, salvo: &Ident) -> (result: Result<
        Vec<TokenStream>,
        Rejection<'a>,
    >)
        requires
            self.named() ==> forall|i: int|
                0 <= i < resolved.parameters@.len() ==> (
                #[trigger] resolved.parameters@[i]).field.ident is Some,
        ensures
            match result {
                Ok(fields) => codes(fields@) == self.extract_fields(resolved@, ident_text(*salvo)),
                Err(error) => first_rejection(resolved.parameters@) == Some(error),
            },
    {
        let mut fields: Vec<TokenStream> = Vec::new();
        let ghost all = self.extract_fields(resolved@, ident_text(*salvo));
        if self.is_named_struct() {
            let parameters: &Vec<Parameter<'a>> = &resolved.parameters;
            for i in 0..parameters.len()
                invariant
                    self.named(),
                    *parameters == resolved.parameters,
                    all == self.extract_fields(resolved@, ident_text(*salvo)),
                    forall|j: int|
                        0 <= j < parameters@.len() ==> (
                        #[trigger] parameters@[j]).field.ident is Some,
                    first_rejection(parameters@.take(i as int)) is None,
                    codes(fields@) == all.take(i as int),
            {
                proof {
                    assert(parameters@.take(i + 1).drop_last() =~= parameters@.take(i as int));
                    if first_rejection(parameters@.take(i + 1)) is Some {
                        lemma_first_rejection_in_front(parameters@, i + 1);
                    }
                }
                match parameters[i].to_extract_field_token_stream(salvo) {
                    Ok(tokens) => {
                        proof {
                            lemma_codes_push(fields@, tokens);
                        }
                        fields.push(tokens);
                    },
                    Err(error) => return Err(error),
                }
                assert(all.take(i + 1) =~= all.take(i as int).push(all[i as int]));
            }
            assert(all.take(parameters@.len() as int) =~= all);
        } else if let Some(names) = resolved.settings.names {
            for i in 0..names.len()
                invariant
                    all == names@.map_values(|name: String| field_code(ident_text(*salvo), name@)),
                    codes(fields@) == all.take(i as int),
            {
                let tokens = quote_field(salvo, names[i].as_str());
                proof {
                    lemma_codes_push(fields@, tokens);
                    assert(all.take(i + 1) =~= all.take(i as int).push(all[i as int]));
                }
                fields.push(tokens);
            }
            assert(all.take(names@.len() as int) =~= all);
        }
        assert(codes(fields@) =~= all);
        Ok(fields)
    }

    /// Writes the code of the parameters.
    fn quote_parameters<'a>(
        resolved: &Resolved<'a>,
        context: &Context,
        rendered: &Vec<Rendered>,
    ) -> (result: Result<Vec<TokenStream>, Rejection<'a>>)
        requires
            rendered@.len() == resolved.parameters@.len(),
        ensures
            match result {
                Ok(codes_of) => {
                    &&& first_rejection(resolved.parameters@) is None
                    &&& codes(codes_of@) == parameter_codes(
                        resolved.parameters@,
                        *context,
                        rendered@,
                    )
                },
                Err(error) => first_rejection(resolved.parameters@) == Some(error),
            },
    {
        let mut all: Vec<TokenStream> = Vec::new();
        let ghost wanted = parameter_codes(resolved.parameters@, *context, rendered@);
        let parameters: &Vec<Parameter<'a>> = &resolved.parameters;
        for i in 0..parameters.len()
            invariant
                rendered@.len() == parameters@.len(),
                *parameters == resolved.parameters,
                first_rejection(parameters@.take(i as int)) is None,
                wanted == parameter_codes(parameters@, *context, rendered@),
                codes(all@) == wanted.take(i as int),
        {
            proof {
                assert(parameters@.take(i + 1).drop_last() =~= parameters@.take(i as int));
                if first_rejection(parameters@.take(i + 1)) is Some {
                    lemma_first_rejection_in_front(parameters@, i + 1);
                }
            }
            let mut tokens = new_stream();
            match parameters[i].to_tokens(context, &rendered[i], &mut tokens) {
                Ok(()) => {
                    assert(trees(tokens) =~= wanted[i as int]);
                    proof {
                        lemma_codes_push(all@, tokens);
                    }
                    all.push(tokens);
                },
                Err(error) => return Err(error),
            }
            assert(wanted.take(i + 1) =~= wanted.take(i as int).push(wanted[i as int]));
        }
        assert(parameters@.take(parameters@.len() as int) =~= parameters@);
        assert(wanted.take(parameters@.len() as int) =~= wanted);
        Ok(all)
    }

    /// Writes the implementations for the struct.
    pub fn to_tokens<'a>(
        &'a self,
        context: &Context,
        rendered: &Vec<Rendered>,
        tokens: &mut TokenStream,
    ) -> (result: Result<(), Rejection<'a>>)
        requires
            self.well_formed(),
            self.resolved() matches Ok(resolved) ==> rendered@.len() == resolved.parameters.len(),
        ensures
            match self.accepted() {
                Ok(resolved) => {
                    &&& result is Ok
                    &&& trees(*final(tokens)) == trees(*old(tokens)).splice(
                        self.code(resolved, *context, rendered@),
                    )
                },
                Err(error) => {
                    &&& result == Err::<(), _>(error)
                    &&& trees(*final(tokens)) == trees(*old(tokens))
                },
            },
    {
        let resolved = match self.resolve() {
            Ok(resolved) => resolved,
            Err(error) => return Err(error),
        };
        proof {
            if self.named() {
                let settings = resolved.settings;
                let fields = self.fields(settings.names)->Ok_0;
                self.lemma_parameter_fields(settings, fields@, fields@.len() as int);
            }
        }
        let fields = match self.quote_extract_fields(&resolved, context.salvo) {
            Ok(fields) => fields,
            Err(error) => return Err(error),
        };
        let parameters = match Self::quote_parameters(&resolved, context, rendered) {
            Ok(parameters) => parameters,
            Err(error) => return Err(error),
        };
        let serde_rename_all: Option<RenameRule> = match &self.serde {
            Some(serde) => serde.rename_all,
            None => None,
        };
        let name = ident_to_string(&self.ident);
        let source = quote_source(
            context.salvo,
            resolved.settings.find_default_place(),
            SourceParser::MultiMap,
        );
        let metadata = quote_metadata(
            context.salvo,
            name.as_str(),
            source,
            &fields,
            resolved.settings.rename_all,
            serde_rename_all,
        );
        let target = self.quote_target();
        let mut all = quote_parameters_impl(&target, context.oapi, &parameters);
        splice(&mut all, &quote_register_impl(&target, context.oapi));
        splice(&mut all, &quote_extractible_impl(&target, context.salvo, metadata));
        splice(tokens, &all);
        Ok(())
    }

    /// Each parameter stands for one of the fields that it was made from.
    proof fn lemma_parameter_fields<'a>(
        self,
        settings: Settings<'a>,
        fields: Seq<Field>,
        count: int,
    )
        requires
            count <= fields.len(),
        ensures
            forall|i: int|
                0 <= i < self.parameters(settings, fields, count).len() ==> exists|j: int|
                    0 <= j < fields.len() && *(#[trigger] self.parameters(
                        settings,
                        fields,
                        count,
                    )[i]).field == #[trigger] fields[j],
        decreases count,
    {
        if count > 0 {
            self.lemma_parameter_fields(settings, fields, count - 1);
            let front = self.parameters(settings, fields, count - 1);
            let all = self.parameters(settings, fields, count);
            assert forall|i: int| 0 <= i < all.len() implies exists|j: int|
                0 <= j < fields.len() && *(#[trigger] all[i]).field == #[trigger] fields[j] by {
                if i < front.len() {
                    assert(all[i] == front[i]);
                } else {
                    assert(*all[i].field == fields[count - 1]);
                }
            }
        }
    }
}

/// Why the first of some fields that cannot be a parameter cannot be one.
pub open spec fn first_rejection<'a>(parameters: Seq<Parameter<'a>>) -> Option<Rejection<'a>>
    decreases parameters.len(),
{
    if parameters.len() == 0 {
        None
    } else {
        match first_rejection(parameters.drop_last()) {
            Some(error) => Some(error),
            None => match parameters.last().planned() {
                Ok(_) => None,
                Err(error) => Some(error),
            },
        }
    }
}

/// What is rejected in front of some fields is what is rejected of all of them.
proof fn lemma_first_rejection_in_front<'a>(parameters: Seq<Parameter<'a>>, front: int)
    requires
        0 <= front <= parameters.len(),
        first_rejection(parameters.take(front)) is Some,
    ensures
        first_rejection(parameters) == first_rejection(parameters.take(front)),
    decreases parameters.len(),
{
    if front == parameters.len() {
        assert(parameters.take(front) =~= parameters);
    } else {
        assert(parameters.drop_last().take(front) =~= parameters.take(front));
        lemma_first_rejection_in_front(parameters.drop_last(), front);
    }
}

/// The code of each of some parameters.
pub open spec fn parameter_codes<'a>(
    parameters: Seq<Parameter<'a>>,
    context: Context,
    rendered: Seq<Rendered>,
) -> Seq<Seq<Tree>> {
    Seq::new(
        parameters.len(),
        |i: int| parameters[i].planned()->Ok_0.code(context, rendered[i]),
    )
}

} // verus!
