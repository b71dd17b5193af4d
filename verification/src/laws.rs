//! What holds of the library as a whole.

use crate::attribute::{declared, list_name, salvo_list, Attribute};
use crate::container::{
    first_rejection, kept, names_of, rule_of, settings_of, Settings, ToParameters,
};
use crate::data::{Data, Field, Fields};
use crate::error::Rejection;
use crate::extract::{field_code, rule_name, source_code, source_from, SourceParser};
use crate::feature::{
    first_index, first_of, lemma_first_index, listed, rest_of, Feature, FeatureEntry, FeatureKind,
    FeatureValue, ParameterIn, RenameRule, Scope,
};
use crate::parameter::{
    demanded, has_to_be_given, parameter_part, rename_of, schema_part, Context, Parameter,
    PlanView, Rendered, SchemaView, Setting,
};
use crate::text::bare_name;
use crate::tokens::{ident_text, nothing, TreeSeq};
use vstd::prelude::*;

pub mod code;
pub mod features;
pub mod parameters;
pub mod structs;

verus! {

/// A feature may stand either on a struct or on a field, never on both, and on a field it says
/// something either of the schema or of the parameter.
pub proof fn law_every_feature_has_one_place(kind: FeatureKind)
    ensures
        kind.allowed_in(Scope::Container) != kind.allowed_in(Scope::Field),
        kind.allowed_in(Scope::Field) ==> kind.of_schema() != kind.of_parameter(),
{
}

/// Splitting the features of a field loses none and invents none.
pub proof fn law_split_keeps_all_features(features: Seq<&Feature>)
    ensures
        schema_part(features).to_multiset().add(parameter_part(features).to_multiset())
            == features.to_multiset(),
        schema_part(features).len() + parameter_part(features).len() == features.len(),
        forall|i: int|
            0 <= i < schema_part(features).len() ==> (
            #[trigger] schema_part(features)[i]).kind().of_schema(),
        forall|i: int|
            0 <= i < parameter_part(features).len() ==> !(
            #[trigger] parameter_part(features)[i]).kind().of_schema(),
    decreases features.len(),
{
    reveal(Seq::filter);
    broadcast use vstd::seq_lib::group_to_multiset_ensures;

    let schema = schema_part(features);
    let parameter = parameter_part(features);
    if features.len() == 0 {
        assert(schema.to_multiset().add(parameter.to_multiset()) =~= features.to_multiset());
    } else {
        let front = features.drop_last();
        law_split_keeps_all_features(front);
        assert(features =~= front.push(features.last()));
        assert(features.to_multiset() =~= front.to_multiset().insert(features.last()));
        if features.last().kind().of_schema() {
            assert(schema == schema_part(front).push(features.last()));
            assert(parameter == parameter_part(front));
        } else {
            assert(schema == schema_part(front));
            assert(parameter == parameter_part(front).push(features.last()));
        }
        assert(schema.to_multiset().add(parameter.to_multiset()) =~= features.to_multiset());
    }
}

/// Attributes declare their features independently of each other: what two groups of attributes
/// declare is what the first declares followed by what the second declares, and an error in the
/// first comes before an error in the second.
pub proof fn law_attributes_declare_in_sequence(
    first: Seq<Attribute>,
    second: Seq<Attribute>,
    scope: Scope,
)
    ensures
        declared(first + second, scope) == match (declared(first, scope), declared(second, scope)) {
            (Ok(front), Ok(back)) => Ok::<Seq<&Feature>, Rejection>(front + back),
            (Ok(_), Err(error)) => Err(error),
            (Err(error), _) => Err(error),
        },
    decreases second.len(),
{
    if second.len() == 0 {
        assert(first + second =~= first);
        match declared(first, scope) {
            Ok(front) => {
                assert(front + Seq::<&Feature>::empty() =~= front);
            },
            Err(_) => {},
        }
    } else {
        law_attributes_declare_in_sequence(first, second.drop_last(), scope);
        assert((first + second).drop_last() =~= first + second.drop_last());
        assert((first + second).last() == second.last());
        match (declared(first, scope), declared(second.drop_last(), scope)) {
            (Ok(front), Ok(back)) => {
                match salvo_list(second.last(), list_name(scope)) {
                    Some(list) => {
                        match listed(list.entries@, scope) {
                            Ok(more) => {
                                assert(front + back + more =~= front + (back + more));
                            },
                            Err(_) => {},
                        }
                    },
                    None => {},
                }
            },
            _ => {},
        }
    }
}

/// A list declares as many features as it has items, all of which may stand there.
proof fn lemma_listed_is_allowed(entries: Seq<FeatureEntry>, scope: Scope)
    ensures
        listed(entries, scope) matches Ok(features) ==> {
            &&& features.len() == entries.len()
            &&& forall|i: int|
                0 <= i < features.len() ==> (#[trigger] features[i]).kind().allowed_in(scope)
        },
    decreases entries.len(),
{
    if entries.len() > 0 {
        lemma_listed_is_allowed(entries.drop_last(), scope);
    }
}

/// Only features that may stand in a place are declared there.
pub proof fn law_declared_features_are_allowed(attrs: Seq<Attribute>, scope: Scope)
    ensures
        declared(attrs, scope) matches Ok(features) ==> forall|i: int|
            0 <= i < features.len() ==> (#[trigger] features[i]).kind().allowed_in(scope),
    decreases attrs.len(),
{
    if attrs.len() > 0 {
        law_declared_features_are_allowed(attrs.drop_last(), scope);
        if let Some(list) = salvo_list(attrs.last(), list_name(scope)) {
            lemma_listed_is_allowed(list.entries@, scope);
        }
    }
}

/// Taking the first feature of a kind takes that feature and no other.
pub proof fn law_pop_takes_one_feature(features: Seq<&Feature>, kind: FeatureKind)
    ensures
        match first_of(features, kind) {
            Some(feature) => {
                &&& feature.kind() == kind
                &&& features.to_multiset() == rest_of(features, kind).to_multiset().insert(feature)
            },
            None => {
                &&& rest_of(features, kind) == features
                &&& forall|i: int|
                    0 <= i < features.len() ==> (#[trigger] features[i]).kind() != kind
            },
        },
{
    broadcast use vstd::seq_lib::group_to_multiset_ensures;

    lemma_first_index(features, kind);
    if let Some(index) = first_index(features, kind) {
        let taken = features[index];
        let rest = rest_of(features, kind);
        let swapped = features.update(index, features.last());
        assert(swapped =~= rest.push(features.last()));
        assert(features.contains(taken));
        assert forall|other: &Feature|
            #[trigger] features.to_multiset().count(other) == rest.to_multiset().insert(
                taken,
            ).count(other) by {
            let more = features.to_multiset().insert(features.last());
            assert(swapped.to_multiset() == more.remove(taken));
            assert(swapped.to_multiset() == rest.to_multiset().insert(features.last()));
            assert(more.remove(taken).count(other) == rest.to_multiset().insert(
                features.last(),
            ).count(other));
        }
        assert(features.to_multiset() =~= rest.to_multiset().insert(taken));
    }
}

/// Whether a feature of a kind is declared at most once.
pub open spec fn declared_once(features: Seq<&Feature>, kind: FeatureKind) -> bool {
    forall|i: int, j: int|
        0 <= i < features.len() && 0 <= j < features.len() && (#[trigger] features[i]).kind()
            == kind && (#[trigger] features[j]).kind() == kind ==> i == j
}

/// Taking a feature of one kind leaves those of another kind: one is found afterwards if and
/// only if one was there before, and the same one if it was declared only once.
pub proof fn law_pop_leaves_other_kinds(
    features: Seq<&Feature>,
    taken: FeatureKind,
    wanted: FeatureKind,
)
    requires
        taken != wanted,
    ensures
        first_of(rest_of(features, taken), wanted) is Some == first_of(features, wanted) is Some,
        declared_once(features, wanted) ==> {
            &&& declared_once(rest_of(features, taken), wanted)
            &&& first_of(rest_of(features, taken), wanted) == first_of(features, wanted)
        },
{
    let rest = rest_of(features, taken);
    lemma_first_index(features, taken);
    lemma_first_index(features, wanted);
    lemma_first_index(rest, wanted);
    if let Some(hole) = first_index(features, taken) {
        let last = features.len() - 1;
        assert(forall|i: int|
            0 <= i < last ==> #[trigger] rest[i] == features[if i == hole {
                last
            } else {
                i
            }]);
        if let Some(index) = first_index(features, wanted) {
            let moved = if index == last {
                hole
            } else {
                index
            };
            assert(rest[moved] == features[index]);
        }
    }
}

/// Whether no feature of a struct is declared twice.
pub open spec fn no_setting_twice(features: Seq<&Feature>) -> bool {
    &&& declared_once(features, FeatureKind::ToParametersNames)
    &&& declared_once(features, FeatureKind::DefaultStyle)
    &&& declared_once(features, FeatureKind::DefaultParameterIn)
    &&& declared_once(features, FeatureKind::RenameAll)
}

/// Where no feature is declared twice, each setting is the one that is declared.
proof fn lemma_settings_declared_once(features: Seq<&Feature>)
    requires
        no_setting_twice(features),
    ensures
        settings_of(features) == (Settings {
            names: names_of(first_of(features, FeatureKind::ToParametersNames)),
            default_style: first_of(features, FeatureKind::DefaultStyle),
            default_parameter_in: first_of(features, FeatureKind::DefaultParameterIn),
            rename_all: rule_of(first_of(features, FeatureKind::RenameAll)),
        }),
{
    let after_names = rest_of(features, FeatureKind::ToParametersNames);
    let after_style = rest_of(after_names, FeatureKind::DefaultStyle);
    law_pop_leaves_other_kinds(
        features,
        FeatureKind::ToParametersNames,
        FeatureKind::DefaultStyle,
    );
    law_pop_leaves_other_kinds(
        features,
        FeatureKind::ToParametersNames,
        FeatureKind::DefaultParameterIn,
    );
    law_pop_leaves_other_kinds(features, FeatureKind::ToParametersNames, FeatureKind::RenameAll);
    law_pop_leaves_other_kinds(
        after_names,
        FeatureKind::DefaultStyle,
        FeatureKind::DefaultParameterIn,
    );
    law_pop_leaves_other_kinds(after_names, FeatureKind::DefaultStyle, FeatureKind::RenameAll);
    law_pop_leaves_other_kinds(
        after_style,
        FeatureKind::DefaultParameterIn,
        FeatureKind::RenameAll,
    );
}

/// Reordering features does not change which one of a kind is found, if there is only one.
proof fn lemma_first_of_reordered(first: Seq<&Feature>, second: Seq<&Feature>, kind: FeatureKind)
    requires
        first.to_multiset() == second.to_multiset(),
        declared_once(second, kind),
    ensures
        first_of(first, kind) == first_of(second, kind),
{
    broadcast use vstd::seq_lib::group_to_multiset_ensures;

    lemma_first_index(first, kind);
    lemma_first_index(second, kind);
    if let Some(index) = first_index(first, kind) {
        assert(first.contains(first[index]));
        assert(second.to_multiset().contains(first[index]));
        assert(second.contains(first[index]));
        let other = choose|i: int| 0 <= i < second.len() && second[i] == first[index];
        assert(second[other].kind() == kind);
    } else if let Some(index) = first_index(second, kind) {
        assert(second.contains(second[index]));
        assert(first.to_multiset().contains(second[index]));
        assert(first.contains(second[index]));
    }
}

/// The settings of a struct do not depend on the order in which its features are declared, as
/// long as none is declared twice.
pub proof fn law_settings_regardless_of_order(first: Seq<&Feature>, second: Seq<&Feature>)
    requires
        first.to_multiset() == second.to_multiset(),
        no_setting_twice(first),
        no_setting_twice(second),
    ensures
        settings_of(first) == settings_of(second),
{
    lemma_settings_declared_once(first);
    lemma_settings_declared_once(second);
    lemma_first_of_reordered(first, second, FeatureKind::ToParametersNames);
    lemma_first_of_reordered(first, second, FeatureKind::DefaultStyle);
    lemma_first_of_reordered(first, second, FeatureKind::DefaultParameterIn);
    lemma_first_of_reordered(first, second, FeatureKind::RenameAll);
}

/// The fields that a struct has.
pub open spec fn fields_of(data: Data) -> Seq<Field> {
    match data {
        Data::Struct(Fields::Named(fields)) => fields@,
        Data::Struct(Fields::Unnamed(fields)) => fields@,
        _ => Seq::empty(),
    }
}

/// The parameters of some fields are those that are kept, each with what belongs to it.
proof fn lemma_parameters_of<'a>(
    container: ToParameters,
    settings: Settings<'a>,
    fields: Seq<Field>,
    count: int,
)
    requires
        0 <= count <= fields.len(),
    ensures
        container.parameters(settings, fields, count).map_values(|p: Parameter<'a>| *p.field)
            == fields.take(count).filter(|field: Field| kept(field)),
        forall|i: int|
            0 <= i < container.parameters(settings, fields, count).len() ==> exists|j: int|
                0 <= j < count && kept(fields[j]) && (#[trigger] container.parameters(
                    settings,
                    fields,
                    count,
                )[i]) == #[trigger] container.parameter(settings, fields, j),
    decreases count,
{
    reveal(Seq::filter);
    let all = container.parameters(settings, fields, count);
    let of = |p: Parameter<'a>| *p.field;
    let keep = |field: Field| kept(field);
    if count > 0 {
        lemma_parameters_of(container, settings, fields, count - 1);
        let front = container.parameters(settings, fields, count - 1);
        assert(fields.take(count).drop_last() =~= fields.take(count - 1));
        assert(fields.take(count).last() == fields[count - 1]);
        if kept(fields[count - 1]) {
            assert(all.map_values(of) =~= front.map_values(of).push(fields[count - 1]));
        }
        assert forall|i: int| 0 <= i < all.len() implies exists|j: int|
            0 <= j < count && kept(fields[j]) && (#[trigger] all[i])
                == #[trigger] container.parameter(settings, fields, j) by {
            if i < front.len() {
                assert(all[i] == front[i]);
            } else {
                assert(all[i] == container.parameter(settings, fields, count - 1));
            }
        }
    }
    assert(all.map_values(of) =~= fields.take(count).filter(keep));
}

/// The parameters of a struct are its fields that serde knows and does not skip, in order.
pub proof fn law_parameters_are_the_kept_fields<'a>(container: ToParameters)
    ensures
        container.resolved::<'a>() matches Ok(resolved) ==> resolved.parameters.map_values(
            |p: Parameter<'a>| *p.field,
        ) == fields_of(container.data).filter(|field: Field| kept(field)),
{
    if let Ok(resolved) = container.resolved::<'a>() {
        let fields = fields_of(container.data);
        lemma_parameters_of(container, resolved.settings, fields, fields.len() as int);
        assert(fields.take(fields.len() as int) =~= fields);
    }
}

/// All parameters of a struct share its settings and its serde attributes, and the place that the
/// struct is read from by default is the one that they are documented with by default.
pub proof fn law_parameters_share_the_settings<'a>(container: ToParameters)
    ensures
        container.resolved::<'a>() matches Ok(resolved) ==> forall|i: int|
            0 <= i < resolved.parameters.len() ==> {
                let parameter = #[trigger] resolved.parameters[i];
                &&& parameter.container_attributes.default_style == resolved.settings.default_style
                &&& parameter.container_attributes.default_parameter_in
                    == resolved.settings.default_parameter_in
                &&& parameter.container_attributes.rename_all == resolved.settings.rename_all
                &&& parameter.serde_rule() == container.serde_rename_all()
                &&& resolved.settings.default_place()
                    == match parameter.container_attributes.default_parameter_in {
                    Some(feature) => feature.value->DefaultParameterIn_0,
                    None => ParameterIn::Query,
                }
            },
{
    if let Ok(resolved) = container.resolved::<'a>() {
        let fields = fields_of(container.data);
        lemma_parameters_of(container, resolved.settings, fields, fields.len() as int);
        let features = declared(container.attrs@, Scope::Container)->Ok_0;
        let after_names = rest_of(features, FeatureKind::ToParametersNames);
        let after_style = rest_of(after_names, FeatureKind::DefaultStyle);
        lemma_first_index(after_style, FeatureKind::DefaultParameterIn);
    }
}

/// A struct with named fields declares no names. A tuple struct declares as many as it has
/// fields, and the name of a parameter is the one at the place of its field.
pub proof fn law_names_suit_the_fields<'a>(container: ToParameters)
    ensures
        container.resolved::<'a>() matches Ok(resolved) ==> match resolved.settings.names {
            Some(names) => {
                &&& !container.named()
                &&& names@.len() == fields_of(container.data).len()
                &&& forall|i: int|
                    0 <= i < resolved.parameters.len() ==> exists|j: int|
                        {
                            &&& 0 <= j < names@.len()
                            &&& *(#[trigger] resolved.parameters[i]).field == fields_of(
                                container.data,
                            )[j]
                            &&& resolved.parameters[i].container_attributes.name == Some(
                                #[trigger] &names@[j],
                            )
                        }
            },
            None => container.named() && forall|i: int|
                0 <= i < resolved.parameters.len() ==> (
                #[trigger] resolved.parameters[i]).container_attributes.name is None,
        },
{
    if let Ok(resolved) = container.resolved::<'a>() {
        let fields = fields_of(container.data);
        let settings = resolved.settings;
        lemma_parameters_of(container, settings, fields, fields.len() as int);
        if let Some(names) = settings.names {
            assert forall|i: int| 0 <= i < resolved.parameters.len() implies exists|j: int|
                {
                    &&& 0 <= j < names@.len()
                    &&& *(#[trigger] resolved.parameters[i]).field == fields[j]
                    &&& resolved.parameters[i].container_attributes.name == Some(
                        #[trigger] &names@[j],
                    )
                } by {
                let j = choose|j: int|
                    0 <= j < fields.len() && kept(fields[j]) && resolved.parameters[i]
                        == #[trigger] container.parameter(settings, fields, j);
                assert(resolved.parameters[i].container_attributes.name == Some(&names@[j]));
            }
        }
    }
}

/// Every parameter of a struct has a name, so that no struct is rejected for want of one.
pub proof fn law_every_parameter_has_a_name<'a>(container: ToParameters)
    requires
        container.well_formed(),
    ensures
        container.resolved::<'a>() matches Ok(resolved) ==> forall|i: int|
            0 <= i < resolved.parameters.len() ==> (
            #[trigger] resolved.parameters[i]).given_name() is Some,
        container.accepted::<'a>() matches Err(error) ==> !(error is UnnamedField),
{
    if let Ok(resolved) = container.resolved::<'a>() {
        let fields = fields_of(container.data);
        let settings = resolved.settings;
        lemma_parameters_of(container, settings, fields, fields.len() as int);
        assert forall|i: int| 0 <= i < resolved.parameters.len() implies (
        #[trigger] resolved.parameters[i]).given_name() is Some by {
            let j = choose|j: int|
                0 <= j < fields.len() && kept(fields[j]) && resolved.parameters[i]
                    == #[trigger] container.parameter(settings, fields, j);
            assert(*resolved.parameters[i].field == fields[j]);
        }
        lemma_rejection_of_one(resolved.parameters);
        if first_rejection(resolved.parameters) is Some {
            let i = choose|i: int|
                0 <= i < resolved.parameters.len() && (
                #[trigger] resolved.parameters[i]).planned() == Err::<PlanView, _>(
                    first_rejection(resolved.parameters)->Some_0,
                );
            lemma_declared_error_is_of_a_list(resolved.parameters[i].field.attrs@, Scope::Field);
        }
    }
    lemma_declared_error_is_of_a_list(container.attrs@, Scope::Container);
}

/// Fields are rejected if and only if one of them is.
proof fn lemma_rejection_of_one<'a>(parameters: Seq<Parameter<'a>>)
    ensures
        match first_rejection(parameters) {
            Some(error) => exists|i: int|
                0 <= i < parameters.len() && (#[trigger] parameters[i]).planned() == Err::<
                    PlanView,
                    _,
                >(error),
            None => forall|i: int|
                0 <= i < parameters.len() ==> (#[trigger] parameters[i]).planned() is Ok,
        },
    decreases parameters.len(),
{
    if parameters.len() > 0 {
        let front = parameters.drop_last();
        lemma_rejection_of_one(front);
        assert(forall|i: int| 0 <= i < front.len() ==> #[trigger] parameters[i] == front[i]);
        if let Some(error) = first_rejection(front) {
            let i = choose|i: int|
                0 <= i < front.len() && (#[trigger] front[i]).planned() == Err::<PlanView, _>(
                    error,
                );
            assert(parameters[i] == front[i]);
        } else {
            assert(parameters[parameters.len() - 1] == parameters.last());
        }
    }
}

/// What is wrong with a list is one of its items.
proof fn lemma_listed_error_is_of_a_list(entries: Seq<FeatureEntry>, scope: Scope)
    ensures
        listed(entries, scope) matches Err(error) ==> error is Parse || error is Unexpected,
    decreases entries.len(),
{
    if entries.len() > 0 {
        lemma_listed_error_is_of_a_list(entries.drop_last(), scope);
    }
}

/// What is wrong with attributes is an item of one of their lists.
proof fn lemma_declared_error_is_of_a_list(attrs: Seq<Attribute>, scope: Scope)
    ensures
        declared(attrs, scope) matches Err(error) ==> error is Parse || error is Unexpected,
    decreases attrs.len(),
{
    if attrs.len() > 0 {
        lemma_declared_error_is_of_a_list(attrs.drop_last(), scope);
        if let Some(list) = salvo_list(attrs.last(), list_name(scope)) {
            lemma_listed_error_is_of_a_list(list.entries@, scope);
        }
    }
}

/// Code is generated for a struct if and only if its attributes and fields fit together and the
/// attributes of every parameter can be read.
pub proof fn law_accepted_with_all_parameters<'a>(container: ToParameters)
    requires
        container.well_formed(),
    ensures
        container.accepted::<'a>() is Ok <==> {
            &&& container.resolved::<'a>() matches Ok(resolved)
            &&& forall|i: int|
                0 <= i < resolved.parameters.len() ==> (
                #[trigger] resolved.parameters[i]).features() is Ok
        },
{
    law_every_parameter_has_a_name(container);
    if let Ok(resolved) = container.resolved::<'a>() {
        lemma_rejection_of_one(resolved.parameters);
        if let Some(error) = first_rejection(resolved.parameters) {
            let i = choose|i: int|
                0 <= i < resolved.parameters.len() && (
                #[trigger] resolved.parameters[i]).planned() == Err::<PlanView, _>(error);
            assert(resolved.parameters[i].features() is Err);
        } else {
            assert forall|i: int| 0 <= i < resolved.parameters.len() implies (
            #[trigger] resolved.parameters[i]).features() is Ok by {
                assert(resolved.parameters[i].planned() is Ok);
            }
        }
    }
}

/// A struct with named fields reads its parameters from a request and nothing else. A tuple
/// struct reads all its fields, those too that serde skips, each under its declared name and
/// without options.
pub proof fn law_fields_read_from_a_request<'a>(container: ToParameters, salvo: Seq<char>)
    ensures
        container.resolved::<'a>() matches Ok(resolved) ==> {
            let read = container.extract_fields(resolved, salvo);
            if container.named() {
                &&& read.len() == resolved.parameters.len()
                &&& forall|i: int|
                    0 <= i < read.len() ==> #[trigger] read[i]
                        == resolved.parameters[i].extract_code(
                        salvo,
                        ident_text(resolved.parameters[i].field.ident->Some_0),
                        resolved.parameters[i].features()->Ok_0,
                    )
            } else {
                &&& resolved.settings.names is Some
                &&& read.len() == fields_of(container.data).len()
                &&& forall|i: int|
                    0 <= i < read.len() ==> #[trigger] read[i] == field_code(
                        salvo,
                        resolved.settings.names->Some_0@[i]@,
                    )
            }
        },
{
    law_names_suit_the_fields(container);
}

/// A parameter is read from the place that it is documented with: the feature that places it in
/// the documentation is the one that gives its source. Where the field names no place, it has no
/// source of its own and its documentation no place of its own.
pub proof fn law_read_from_the_documented_place<'a>(
    parameter: Parameter<'a>,
    features: Seq<&'a Feature>,
    name: Seq<char>,
    salvo: Seq<char>,
)
    ensures
        match parameter.decided(name, features).parameter_in {
            Setting::Own(expression) => exists|i: int|
                {
                    &&& 0 <= i < features.len()
                    &&& (#[trigger] features[i]).value matches FeatureValue::ParameterIn(
                        place,
                        own,
                    )
                    &&& own == expression
                    &&& field_code(salvo, name).call(
                        "add_source"@,
                        source_code(salvo, place, SourceParser::Smart),
                    ).is_prefix_of(parameter.extract_code(salvo, name, features))
                },
            _ => parameter.extract_code(salvo, name, features) == {
                let renamed = match rename_of(
                    first_of(parameter_part(features), FeatureKind::Rename),
                ) {
                    Some(rename) => field_code(salvo, name).call(
                        "rename"@,
                        nothing().string(rename@),
                    ),
                    None => field_code(salvo, name),
                };
                match parameter.serde_rename() {
                    Some(rename) => renamed.call("serde_rename"@, nothing().string(rename@)),
                    None => renamed,
                }
            },
        },
{
    let all = parameter_part(features);
    let unnamed = rest_of(all, FeatureKind::Rename);
    lemma_first_index(all, FeatureKind::Rename);
    lemma_first_index(unnamed, FeatureKind::ParameterIn);
    if let Some(feature) = first_of(unnamed, FeatureKind::ParameterIn) {
        let index = first_index(unnamed, FeatureKind::ParameterIn)->Some_0;
        assert(all.contains(feature)) by {
            assert(unnamed[index] == feature);
            if let Some(hole) = first_index(all, FeatureKind::Rename) {
                assert(unnamed[index] == all[if index == hole {
                    all.len() - 1
                } else {
                    index
                }]);
            }
        }
        lemma_part_of(features, feature);
        let i = choose|i: int| 0 <= i < features.len() && features[i] == feature;
        assert(features[i] == feature);
        if let FeatureValue::ParameterIn(place, _) = feature.value {
            let sourced = field_code(salvo, name).call(
                "add_source"@,
                source_code(salvo, place, SourceParser::Smart),
            );
            let code = parameter.extract_code(salvo, name, features);
            assert(sourced =~= code.subrange(0, sourced.len() as int));
        }
    }
}

/// The features of a parameter are among those of its field.
proof fn lemma_part_of<'a>(features: Seq<&'a Feature>, feature: &'a Feature)
    requires
        parameter_part(features).contains(feature),
    ensures
        features.contains(feature),
    decreases features.len(),
{
    reveal(Seq::filter);
    let part = parameter_part(features);
    let i = choose|i: int| 0 <= i < part.len() && part[i] == feature;
    assert(part[i] == feature);
    if features.len() > 0 {
        let front = features.drop_last();
        if i < parameter_part(front).len() {
            assert(parameter_part(front)[i] == feature);
            lemma_part_of(front, feature);
            let j = choose|j: int| 0 <= j < front.len() && front[j] == feature;
            assert(features[j] == feature);
        } else {
            assert(features[features.len() - 1] == feature);
        }
    }
}

/// Where a function makes the schema, the code of a parameter depends neither on the doc
/// comments and the type of the field, nor on whether the parameter has to be given, nor on any
/// other schema.
pub proof fn law_schema_function_decides_alone<'a>(
    parameter: Parameter<'a>,
    other: Parameter<'a>,
    features: Seq<&'a Feature>,
    name: Seq<char>,
    context: Context,
    other_context: Context,
    rendered: Rendered,
    other_rendered: Rendered,
)
    requires
        first_of(parameter_part(features), FeatureKind::SchemaWith) is Some,
        parameter.container_attributes == other.container_attributes,
        parameter.field.deprecated == other.field.deprecated,
        context.oapi == other_context.oapi,
        rendered.name == other_rendered.name,
    ensures
        parameter.decided(name, features).schema is With,
        parameter.decided(name, features).code(context, rendered) == other.decided(
            name,
            features,
        ).code(other_context, other_rendered),
{
    let all = parameter_part(features);
    let unnamed = rest_of(all, FeatureKind::Rename);
    let unplaced = rest_of(unnamed, FeatureKind::ParameterIn);
    law_pop_leaves_other_kinds(all, FeatureKind::Rename, FeatureKind::SchemaWith);
    law_pop_leaves_other_kinds(unnamed, FeatureKind::ParameterIn, FeatureKind::SchemaWith);
    law_pop_leaves_other_kinds(unplaced, FeatureKind::Style, FeatureKind::SchemaWith);
}

/// What a field says of the place and the style of its parameter, and of its name, holds
/// whatever the struct and serde say.
pub proof fn law_field_decides_first<'a>(
    parameter: Parameter<'a>,
    other: Parameter<'a>,
    features: Seq<&'a Feature>,
    name: Seq<char>,
)
    ensures
        first_of(parameter_part(features), FeatureKind::ParameterIn) is Some ==> {
            &&& parameter.decided(name, features).parameter_in == other.decided(
                name,
                features,
            ).parameter_in
            &&& parameter.decided(name, features).parameter_in is Own
        },
        first_of(parameter_part(features), FeatureKind::Style) is Some ==> {
            &&& parameter.decided(name, features).style == other.decided(name, features).style
            &&& parameter.decided(name, features).style is Own
        },
        first_of(parameter_part(features), FeatureKind::Rename) is Some ==> {
            &&& parameter.decided(name, features).rename == other.decided(name, features).rename
            &&& parameter.decided(name, features).rename is Some
        },
{
    let all = parameter_part(features);
    let unnamed = rest_of(all, FeatureKind::Rename);
    let unplaced = rest_of(unnamed, FeatureKind::ParameterIn);
    lemma_first_index(all, FeatureKind::Rename);
    lemma_first_index(unnamed, FeatureKind::ParameterIn);
    lemma_first_index(unplaced, FeatureKind::Style);
    law_pop_leaves_other_kinds(all, FeatureKind::Rename, FeatureKind::ParameterIn);
    law_pop_leaves_other_kinds(all, FeatureKind::Rename, FeatureKind::Style);
    law_pop_leaves_other_kinds(unnamed, FeatureKind::ParameterIn, FeatureKind::Style);
}

/// The place and the style that a field does not give are those of the struct. The name that it
/// does not give is that of serde. The rule for the names is that of serde, and that of the
/// struct only where serde has none.
pub proof fn law_who_decides_otherwise<'a>(
    parameter: Parameter<'a>,
    features: Seq<&'a Feature>,
    name: Seq<char>,
)
    ensures
        first_of(parameter_part(features), FeatureKind::ParameterIn) is None ==> parameter.decided(
            name,
            features,
        ).parameter_in == match parameter.container_attributes.default_parameter_in {
            Some(feature) => Setting::Inherited(&feature.rendered),
            None => Setting::Unset,
        },
        first_of(parameter_part(features), FeatureKind::Style) is None ==> parameter.decided(
            name,
            features,
        ).style == match parameter.container_attributes.default_style {
            Some(feature) => Setting::Inherited(&feature.rendered),
            None => Setting::Unset,
        },
        first_of(parameter_part(features), FeatureKind::Rename) is None ==> parameter.decided(
            name,
            features,
        ).rename == parameter.serde_rename(),
        parameter.serde_rule() is Some ==> parameter.decided(name, features).rename_all
            == parameter.serde_rule(),
        parameter.serde_rule() is None ==> parameter.decided(name, features).rename_all
            == parameter.container_attributes.rename_all,
{
    let all = parameter_part(features);
    let unnamed = rest_of(all, FeatureKind::Rename);
    law_pop_leaves_other_kinds(all, FeatureKind::Rename, FeatureKind::ParameterIn);
    law_pop_leaves_other_kinds(all, FeatureKind::Rename, FeatureKind::Style);
    law_pop_leaves_other_kinds(unnamed, FeatureKind::ParameterIn, FeatureKind::Style);
}

/// A parameter has to be given if serde misses it and its type is no `Option`. If serde does
/// not miss it, no declaration makes it required; if its type is an `Option`, only a declaration
/// does, and the one that stands alone always does what it says.
pub proof fn law_what_has_to_be_given<'a>(
    parameter: Parameter<'a>,
    features: Seq<&'a Feature>,
    name: Seq<char>,
)
    ensures
        parameter.decided(name, features).schema matches SchemaView::Component(component) ==> {
            &&& component.required ==> parameter.field.serde_required
            &&& parameter.field.serde_required && !component.type_tree.is_option
                ==> component.required
            &&& component.required && component.type_tree.is_option ==> first_of(
                parameter_part(features),
                FeatureKind::Required,
            ) is Some
            &&& declared_once(parameter_part(features), FeatureKind::Required) ==> (
            component.required <==> has_to_be_given(
                component.type_tree,
                demanded(first_of(parameter_part(features), FeatureKind::Required)),
                parameter.field.serde_required,
            ))
        },
{
    let all = parameter_part(features);
    let unnamed = rest_of(all, FeatureKind::Rename);
    let unplaced = rest_of(unnamed, FeatureKind::ParameterIn);
    let unstyled = rest_of(unplaced, FeatureKind::Style);
    let after_with = rest_of(unstyled, FeatureKind::SchemaWith);
    law_pop_leaves_other_kinds(all, FeatureKind::Rename, FeatureKind::Required);
    law_pop_leaves_other_kinds(unnamed, FeatureKind::ParameterIn, FeatureKind::Required);
    law_pop_leaves_other_kinds(unplaced, FeatureKind::Style, FeatureKind::Required);
    law_pop_leaves_other_kinds(unstyled, FeatureKind::SchemaWith, FeatureKind::Required);
    law_pop_leaves_other_kinds(after_with, FeatureKind::ValueType, FeatureKind::Required);
}

/// The mark of a raw identifier is no part of the name of a parameter, and nothing else is
/// taken off a name.
pub proof fn law_raw_mark_is_no_part_of_a_name(name: Seq<char>)
    ensures
        bare_name(seq!['r', '#'] + name) == name,
        bare_name(name) == name || name == seq!['r', '#'] + bare_name(name),
{
    assert(bare_name(seq!['r', '#'] + name) =~= name);
    if bare_name(name) != name {
        assert(name =~= seq!['r', '#'] + bare_name(name));
    }
}

/// The implementations that borrow from a request declare the lifetime of the request before
/// the generic parameters of the type, and those parameters after it.
pub proof fn law_request_lifetime_comes_first(container: ToParameters)
    ensures
        nothing().punct('<').lifetime("__macro_gen_ex"@).is_prefix_of(container.target().extended),
        container.target().declared.len() > 0 ==> container.target().declared.skip(1).is_suffix_of(
            container.target().extended,
        ),
{
    let extended = container.target().extended;
    let start = nothing().punct('<').lifetime("__macro_gen_ex"@);
    assert(start =~= extended.subrange(0, start.len() as int));
    let declared = container.target().declared;
    if declared.len() > 0 {
        assert(declared.skip(1) =~= extended.subrange(
            extended.len() - declared.skip(1).len(),
            extended.len() as int,
        ));
    }
}

/// Parameters from different places are read from different sources.
pub proof fn law_places_have_their_own_sources(one: ParameterIn, other: ParameterIn)
    ensures
        source_from(one) == source_from(other) ==> one == other,
{
    reveal_strlit("Query");
    reveal_strlit("Header");
    reveal_strlit("Param");
    reveal_strlit("Cookie");
    assert(source_from(one)[0] == 'Q' <==> one is Query);
    assert(source_from(one)[0] == 'H' <==> one is Header);
    assert(source_from(one)[0] == 'P' <==> one is Path);
    assert(source_from(other)[0] == 'Q' <==> other is Query);
    assert(source_from(other)[0] == 'H' <==> other is Header);
    assert(source_from(other)[0] == 'P' <==> other is Path);
}

/// Different rules are handed over by different names.
pub proof fn law_rules_have_their_own_names(one: RenameRule, other: RenameRule)
    ensures
        rule_name(one) == rule_name(other) ==> one == other,
{
    reveal_strlit("LowerCase");
    reveal_strlit("UpperCase");
    reveal_strlit("PascalCase");
    reveal_strlit("CamelCase");
    reveal_strlit("SnakeCase");
    reveal_strlit("ScreamingSnakeCase");
    reveal_strlit("KebabCase");
    reveal_strlit("ScreamingKebabCase");
    if rule_name(one) == rule_name(other) {
        assert(rule_name(one)[0] == rule_name(other)[0]);
        assert(rule_name(one).len() == rule_name(other).len());
        assert(rule_name(one)[9] == rule_name(other)[9]);
    }
}

} // verus!
