//! What holds of one parameter: its plan, the code for it and the code by which it is read.

use crate::attribute::declared;
use crate::error::Rejection;
use crate::extract::{field_code, rule_code, rule_name, source_code, source_from, SourceParser};
use crate::feature::{
    first_index, lemma_first_index, rest_of, Feature, FeatureKind, FeatureValue, ParameterIn,
    RenameRule, Scope,
};
use crate::laws::declared_once;
use crate::laws::features::{chosen, law_the_declared_feature_decides, left};
use crate::parameter::{
    features_code, parameter_part, setting_code, Component, Context, Parameter, Plan, PlanView,
    Rendered, Schema, SchemaView, Setting,
};
use crate::text::bare_name;
use crate::tokens::{ident_text, nothing, trees, Delimiter, Spacing, Tree, TreeSeq};
use proc_macro2::TokenStream;
use vstd::prelude::*;

verus! {

/// A parameter is planned if and only if its field has a name and its attributes can be read. A
/// missing name is reported before an unreadable attribute. The name is that of the field itself
/// where it has one, and else the declared one.
pub proof fn law_planned_with_name_and_features<'a>(parameter: Parameter<'a>)
    ensures
        parameter.field.ident is None && parameter.container_attributes.name is None
            ==> parameter.planned() == Err::<PlanView, _>(
            Rejection::UnnamedField(parameter.field),
        ),
        parameter.field.ident is Some || parameter.container_attributes.name is Some ==> (
        parameter.planned() is Ok <==> declared::<'a>(
            parameter.field.attrs@,
            Scope::Field,
        ) is Ok),
        parameter.field.ident is Some || parameter.container_attributes.name is Some ==> (declared::<
            'a,
        >(parameter.field.attrs@, Scope::Field) matches Err(error) ==> parameter.planned() == Err::<
            PlanView,
            _,
        >(error)),
        parameter.planned() matches Ok(plan) ==> match parameter.field.ident {
            Some(ident) => plan.name == bare_name(ident_text(ident)),
            None => plan.name == bare_name(parameter.container_attributes.name->Some_0@),
        },
        parameter.features() == declared::<'a>(parameter.field.attrs@, Scope::Field),
{
}

/// Where the schema of a parameter is made from its type, it is handed exactly the features of
/// the field that say something of the schema: each of them, as often and in the order in which
/// they are declared, and no other.
pub proof fn law_schema_gets_all_schema_features<'a>(parameter: Parameter<'a>, plan: PlanView<'a>)
    requires
        parameter.planned() == Ok::<_, Rejection>(plan),
    ensures
        plan.schema matches SchemaView::Component(component) ==> {
            let features = declared::<'a>(parameter.field.attrs@, Scope::Field)->Ok_0;
            &&& component.schema_features == features.filter(
                |feature: &'a Feature| feature.kind().of_schema(),
            )
            &&& forall|i: int|
                0 <= i < features.len() && (#[trigger] features[i]).kind().of_schema()
                    ==> component.schema_features.contains(features[i])
        },
{
    let features = declared::<'a>(parameter.field.attrs@, Scope::Field)->Ok_0;
    let keep = |feature: &'a Feature| feature.kind().of_schema();
    assert forall|i: int|
        0 <= i < features.len() && (
        #[trigger] features[i]).kind().of_schema() implies features.filter(keep).contains(
        features[i],
    ) by {
        features.lemma_filter_contains(keep, i);
    }
}

/// The kinds of features that are settled before the schema is, in order.
pub open spec fn settled_first() -> Seq<FeatureKind> {
    seq![FeatureKind::Rename, FeatureKind::ParameterIn, FeatureKind::Style]
}

/// The kinds of which one feature at most is settled when the schema is made from the type.
pub open spec fn settled() -> Seq<FeatureKind> {
    seq![
        FeatureKind::Rename,
        FeatureKind::ParameterIn,
        FeatureKind::Style,
        FeatureKind::SchemaWith,
        FeatureKind::ValueType,
        FeatureKind::Required,
    ]
}

/// What is left after one kind more.
proof fn lemma_left_push<'a>(features: Seq<&'a Feature>, taken: Seq<FeatureKind>, kind: FeatureKind)
    ensures
        left(features, taken.push(kind)) == rest_of(left(features, taken), kind),
{
    assert(taken.push(kind).drop_last() =~= taken);
}

/// What is left after each of the kinds that are settled.
proof fn lemma_left_settled<'a>(features: Seq<&'a Feature>)
    ensures
        left(features, seq![]) == features,
        left(features, seq![FeatureKind::Rename]) == rest_of(features, FeatureKind::Rename),
        left(features, seq![FeatureKind::Rename, FeatureKind::ParameterIn]) == rest_of(
            rest_of(features, FeatureKind::Rename),
            FeatureKind::ParameterIn,
        ),
        left(features, settled_first()) == rest_of(
            rest_of(rest_of(features, FeatureKind::Rename), FeatureKind::ParameterIn),
            FeatureKind::Style,
        ),
        left(features, settled().take(4)) == rest_of(
            left(features, settled_first()),
            FeatureKind::SchemaWith,
        ),
        left(features, settled().take(5)) == rest_of(
            left(features, settled().take(4)),
            FeatureKind::ValueType,
        ),
        left(features, settled()) == rest_of(
            left(features, settled().take(5)),
            FeatureKind::Required,
        ),
{
    let none = Seq::<FeatureKind>::empty();
    let one = seq![FeatureKind::Rename];
    let two = seq![FeatureKind::Rename, FeatureKind::ParameterIn];
    lemma_left_push(features, none, FeatureKind::Rename);
    lemma_left_push(features, one, FeatureKind::ParameterIn);
    lemma_left_push(features, two, FeatureKind::Style);
    lemma_left_push(features, settled_first(), FeatureKind::SchemaWith);
    lemma_left_push(features, settled().take(4), FeatureKind::ValueType);
    lemma_left_push(features, settled().take(5), FeatureKind::Required);
    assert(none.push(FeatureKind::Rename) =~= one);
    assert(one.push(FeatureKind::ParameterIn) =~= two);
    assert(two.push(FeatureKind::Style) =~= settled_first());
    assert(settled_first().push(FeatureKind::SchemaWith) =~= settled().take(4));
    assert(settled().take(4).push(FeatureKind::ValueType) =~= settled().take(5));
    assert(settled().take(5).push(FeatureKind::Required) =~= settled());
}

/// The kinds that are settled differ from each other.
proof fn lemma_settled_kinds()
    ensures
        !Seq::<FeatureKind>::empty().contains(FeatureKind::Rename),
        !seq![FeatureKind::Rename].contains(FeatureKind::ParameterIn),
        !seq![FeatureKind::Rename, FeatureKind::ParameterIn].contains(FeatureKind::Style),
        !settled_first().contains(FeatureKind::SchemaWith),
        !settled().take(4).contains(FeatureKind::ValueType),
        !settled().take(5).contains(FeatureKind::Required),
{
}

/// The name that takes the place of the name of the field is the one that the field declares,
/// and where it declares none the one that serde gives. Nothing else is looked at.
pub proof fn law_name_of_the_field_then_of_serde<'a>(parameter: Parameter<'a>, plan: PlanView<'a>)
    requires
        parameter.planned() == Ok::<_, Rejection>(plan),
    ensures
        ({
            let features = declared::<'a>(parameter.field.attrs@, Scope::Field)->Ok_0;
            &&& match chosen(parameter_part(features), seq![], FeatureKind::Rename) {
                Some(feature) => feature.value matches FeatureValue::Rename(name) && plan.rename
                    == Some(&name),
                None => match parameter.field_serde_params {
                    Some(serde) => match serde.rename {
                        Some(name) => plan.rename == Some(&name),
                        None => plan.rename is None,
                    },
                    None => plan.rename is None,
                },
            }
            &&& declared_once(features, FeatureKind::Rename) ==> forall|i: int|
                0 <= i < features.len() ==> (
                (#[trigger] features[i]).value matches FeatureValue::Rename(name) ==> plan.rename
                    == Some(&name))
        }),
{
    let features = declared::<'a>(parameter.field.attrs@, Scope::Field)->Ok_0;
    lemma_left_settled(parameter_part(features));
    lemma_settled_kinds();
    law_the_declared_feature_decides(features, seq![], FeatureKind::Rename);
    assert forall|i: int|
        declared_once(features, FeatureKind::Rename) && 0 <= i < features.len() implies ((
    #[trigger] features[i]).value matches FeatureValue::Rename(name) ==> plan.rename == Some(
        &name,
    )) by {
        if features[i].value is Rename {
            assert(features[i].kind() == FeatureKind::Rename);
        }
    }
}

/// The rule for the name, and the deprecation, are taken over as they are: the rule from serde,
/// and from the struct where serde has none; the deprecation from the field.
pub proof fn law_rule_and_deprecation_are_taken_over<'a>(
    parameter: Parameter<'a>,
    plan: PlanView<'a>,
)
    requires
        parameter.planned() == Ok::<_, Rejection>(plan),
    ensures
        match parameter.serde_container {
            Some(serde) => match serde.rename_all {
                Some(rule) => plan.rename_all == Some(rule),
                None => plan.rename_all == parameter.container_attributes.rename_all,
            },
            None => plan.rename_all == parameter.container_attributes.rename_all,
        },
        match parameter.field.deprecated {
            Some(expression) => plan.deprecated == Some(&expression),
            None => plan.deprecated is None,
        },
{
}

/// The place and the style of a parameter are those that the field declares. Where it declares
/// none they are set by the code that the struct has for them, and where it has none either they
/// are not set.
pub proof fn law_place_and_style_of_the_field_then_of_the_struct<'a>(
    parameter: Parameter<'a>,
    plan: PlanView<'a>,
)
    requires
        parameter.planned() == Ok::<_, Rejection>(plan),
    ensures
        ({
            let features = declared::<'a>(parameter.field.attrs@, Scope::Field)->Ok_0;
            let all = parameter_part(features);
            &&& match chosen(all, seq![FeatureKind::Rename], FeatureKind::ParameterIn) {
                Some(feature) => feature.value matches FeatureValue::ParameterIn(_, expression)
                    && plan.parameter_in == Setting::Own(&expression),
                None => match parameter.container_attributes.default_parameter_in {
                    Some(default) => plan.parameter_in == Setting::Inherited(&default.rendered),
                    None => plan.parameter_in is Unset,
                },
            }
            &&& match chosen(
                all,
                seq![FeatureKind::Rename, FeatureKind::ParameterIn],
                FeatureKind::Style,
            ) {
                Some(feature) => feature.value matches FeatureValue::Style(expression)
                    && plan.style == Setting::Own(&expression),
                None => match parameter.container_attributes.default_style {
                    Some(default) => plan.style == Setting::Inherited(&default.rendered),
                    None => plan.style is Unset,
                },
            }
            &&& declared_once(features, FeatureKind::ParameterIn) ==> forall|i: int|
                0 <= i < features.len() ==> ((
                #[trigger] features[i]).value matches FeatureValue::ParameterIn(_, expression)
                    ==> plan.parameter_in == Setting::Own(&expression))
            &&& declared_once(features, FeatureKind::Style) ==> forall|i: int|
                0 <= i < features.len() ==> ((
                #[trigger] features[i]).value matches FeatureValue::Style(expression)
                    ==> plan.style == Setting::Own(&expression))
        }),
{
    let features = declared::<'a>(parameter.field.attrs@, Scope::Field)->Ok_0;
    lemma_left_settled(parameter_part(features));
    lemma_settled_kinds();
    law_the_declared_feature_decides(
        features,
        seq![FeatureKind::Rename],
        FeatureKind::ParameterIn,
    );
    law_the_declared_feature_decides(
        features,
        seq![FeatureKind::Rename, FeatureKind::ParameterIn],
        FeatureKind::Style,
    );
    assert forall|i: int|
        declared_once(features, FeatureKind::ParameterIn) && 0 <= i < features.len() implies ((
    #[trigger] features[i]).value matches FeatureValue::ParameterIn(_, expression)
        ==> plan.parameter_in == Setting::Own(&expression)) by {
        if features[i].value is ParameterIn {
            assert(features[i].kind() == FeatureKind::ParameterIn);
        }
    }
    assert forall|i: int|
        declared_once(features, FeatureKind::Style) && 0 <= i < features.len() implies ((
    #[trigger] features[i]).value matches FeatureValue::Style(expression) ==> plan.style
        == Setting::Own(&expression)) by {
        if features[i].value is Style {
            assert(features[i].kind() == FeatureKind::Style);
        }
    }
}

/// The schema is made by a function if and only if the field declares one, and then by that
/// function.
pub proof fn law_declared_function_makes_the_schema<'a>(
    parameter: Parameter<'a>,
    plan: PlanView<'a>,
)
    requires
        parameter.planned() == Ok::<_, Rejection>(plan),
    ensures
        ({
            let features = declared::<'a>(parameter.field.attrs@, Scope::Field)->Ok_0;
            &&& plan.schema is With <==> exists|i: int|
                0 <= i < features.len() && (#[trigger] features[i]).value is SchemaWith
            &&& plan.schema matches SchemaView::With(expression) ==> chosen(
                parameter_part(features),
                settled_first(),
                FeatureKind::SchemaWith,
            ) matches Some(feature) && expression == &feature.rendered && features.contains(
                feature,
            )
            &&& declared_once(features, FeatureKind::SchemaWith) ==> forall|i: int|
                0 <= i < features.len() && (#[trigger] features[i]).value is SchemaWith
                    ==> plan.schema == SchemaView::With(&features[i].rendered)
        }),
{
    let features = declared::<'a>(parameter.field.attrs@, Scope::Field)->Ok_0;
    lemma_left_settled(parameter_part(features));
    lemma_settled_kinds();
    law_the_declared_feature_decides(features, settled_first(), FeatureKind::SchemaWith);
    let found = chosen(parameter_part(features), settled_first(), FeatureKind::SchemaWith);
    if let Some(feature) = found {
        let i = choose|i: int| 0 <= i < features.len() && features[i] == feature;
        assert(features[i].value is SchemaWith);
    }
    assert forall|i: int|
        0 <= i < features.len() && (
        #[trigger] features[i]).value is SchemaWith implies features[i].kind()
        == FeatureKind::SchemaWith by {}
}

/// The type of a component is the type that the field declares for it, whatever the type of the
/// field is. Where the field declares none, it is the type of the field.
pub proof fn law_declared_type_is_the_type<'a>(parameter: Parameter<'a>, plan: PlanView<'a>)
    requires
        parameter.planned() == Ok::<_, Rejection>(plan),
    ensures
        plan.schema matches SchemaView::Component(component) ==> {
            let features = declared::<'a>(parameter.field.attrs@, Scope::Field)->Ok_0;
            &&& match chosen(
                parameter_part(features),
                settled().take(4),
                FeatureKind::ValueType,
            ) {
                Some(feature) => feature.value matches FeatureValue::ValueType(type_tree)
                    && component.type_tree == &type_tree,
                None => component.type_tree == &parameter.field.type_tree,
            }
            &&& (forall|i: int|
                0 <= i < features.len() ==> !((#[trigger] features[i]).value is ValueType))
                ==> component.type_tree == &parameter.field.type_tree
            &&& declared_once(features, FeatureKind::ValueType) ==> forall|i: int|
                0 <= i < features.len() ==> ((
                #[trigger] features[i]).value matches FeatureValue::ValueType(type_tree)
                    ==> component.type_tree == &type_tree)
        },
{
    let features = declared::<'a>(parameter.field.attrs@, Scope::Field)->Ok_0;
    lemma_left_settled(parameter_part(features));
    lemma_settled_kinds();
    law_the_declared_feature_decides(features, settled().take(4), FeatureKind::ValueType);
    if let SchemaView::Component(component) = plan.schema {
        if forall|i: int| 0 <= i < features.len() ==> !((#[trigger] features[i]).value is ValueType)
        {
            assert forall|i: int| 0 <= i < features.len() implies (#[trigger] features[i]).kind()
                != FeatureKind::ValueType by {
                assert(!(features[i].value is ValueType));
            }
        }
        assert forall|i: int|
            declared_once(features, FeatureKind::ValueType) && 0 <= i < features.len() implies ((
        #[trigger] features[i]).value matches FeatureValue::ValueType(type_tree)
            ==> component.type_tree == &type_tree) by {
            if features[i].value is ValueType {
                assert(features[i].kind() == FeatureKind::ValueType);
            }
        }
    }
}

/// A parameter has to be given if and only if serde misses it and either its type is no `Option`
/// or the field declares it required. The description is that of the field.
pub proof fn law_required_by_serde_and_by_type_or_declaration<'a>(
    parameter: Parameter<'a>,
    plan: PlanView<'a>,
)
    requires
        parameter.planned() == Ok::<_, Rejection>(plan),
    ensures
        plan.schema matches SchemaView::Component(component) ==> {
            let features = declared::<'a>(parameter.field.attrs@, Scope::Field)->Ok_0;
            let declaration = chosen(
                parameter_part(features),
                settled().take(5),
                FeatureKind::Required,
            );
            &&& component.required <==> {
                &&& parameter.field.serde_required
                &&& !component.type_tree.is_option || (declaration matches Some(feature)
                    && feature.value == FeatureValue::Required(true))
            }
            &&& component.description == &parameter.field.description
        },
{
    let features = declared::<'a>(parameter.field.attrs@, Scope::Field)->Ok_0;
    lemma_left_settled(parameter_part(features));
    lemma_settled_kinds();
    law_the_declared_feature_decides(features, settled().take(5), FeatureKind::Required);
}

/// The features that say something else of the parameter are all that are left when one feature
/// at most of each of the kinds that are settled has been taken out of those that say nothing of
/// the schema. None of another kind is lost, and none is added.
pub proof fn law_other_features_are_kept<'a>(parameter: Parameter<'a>, plan: PlanView<'a>)
    requires
        parameter.planned() == Ok::<_, Rejection>(plan),
    ensures
        plan.schema matches SchemaView::Component(component) ==> {
            let features = declared::<'a>(parameter.field.attrs@, Scope::Field)->Ok_0;
            &&& component.features == left(parameter_part(features), settled())
            &&& forall|kind: FeatureKind| #![trigger kind.of_schema()]
                !kind.of_schema() && !settled().contains(kind) ==> ((exists|i: int|
                    0 <= i < features.len() && (#[trigger] features[i]).kind() == kind) <==> (
                exists|i: int|
                    0 <= i < component.features.len() && (
                    #[trigger] component.features[i]).kind() == kind))
        },
{
    let features = declared::<'a>(parameter.field.attrs@, Scope::Field)->Ok_0;
    let all = parameter_part(features);
    lemma_left_settled(all);
    if let SchemaView::Component(component) = plan.schema {
        lemma_settled_kinds();
        assert(component.features == left(all, settled()));
        assert forall|kind: FeatureKind| #![trigger kind.of_schema()]
            !kind.of_schema() && !settled().contains(kind) implies ((exists|i: int|
            0 <= i < features.len() && (#[trigger] features[i]).kind() == kind) <==> (exists|i: int|
            0 <= i < component.features.len() && (#[trigger] component.features[i]).kind()
                == kind)) by {
            law_the_declared_feature_decides(features, settled(), kind);
            lemma_first_index(component.features, kind);
            if let Some(index) = first_index(component.features, kind) {
                assert(component.features[index].kind() == kind);
            }
        }
    }
}

/// `.name(args)`
pub open spec fn method_call(name: Seq<char>, args: Seq<Tree>) -> Seq<Tree> {
    seq![
        Tree::Punct('.', Spacing::Alone),
        Tree::Ident(name),
        Tree::Group(Delimiter::Parenthesis, args),
    ]
}

/// A call behind some code comes after it.
proof fn lemma_call(before: Seq<Tree>, name: Seq<char>, args: Seq<Tree>)
    ensures
        before.call(name, args) == before + method_call(name, args),
{
    assert(before.call(name, args) =~= before + method_call(name, args));
}

/// The code by which a field is read is `Field::new` of its name, and behind it exactly these
/// calls, each independently of the others: the source, if and only if the field declares a
/// place; the name, if and only if the field declares one; the name of serde, if and only if
/// serde gives one.
pub proof fn law_field_is_read_with_all_it_declares<'a>(
    parameter: Parameter<'a>,
    features: Seq<&'a Feature>,
    name: Seq<char>,
    salvo: Seq<char>,
)
    ensures
        parameter.extract_code(salvo, name, features) == field_code(salvo, name) + (match chosen(
            parameter_part(features),
            seq![FeatureKind::Rename],
            FeatureKind::ParameterIn,
        ) {
            Some(feature) => method_call(
                "add_source"@,
                source_code(salvo, feature.value->ParameterIn_0, SourceParser::Smart),
            ),
            None => seq![],
        }) + (match chosen(parameter_part(features), seq![], FeatureKind::Rename) {
            Some(feature) => method_call("rename"@, seq![Tree::Str(feature.value->Rename_0@)]),
            None => seq![],
        }) + (match parameter.field_serde_params {
            Some(serde) => match serde.rename {
                Some(rename) => method_call("serde_rename"@, seq![Tree::Str(rename@)]),
                None => seq![],
            },
            None => seq![],
        }),
{
    let all = parameter_part(features);
    lemma_left_settled(all);
    lemma_settled_kinds();
    law_the_declared_feature_decides(features, seq![], FeatureKind::Rename);
    law_the_declared_feature_decides(
        features,
        seq![FeatureKind::Rename],
        FeatureKind::ParameterIn,
    );
    let none = Seq::<Tree>::empty();
    let start = field_code(salvo, name);
    let source = match chosen(all, seq![FeatureKind::Rename], FeatureKind::ParameterIn) {
        Some(feature) => method_call(
            "add_source"@,
            source_code(salvo, feature.value->ParameterIn_0, SourceParser::Smart),
        ),
        None => seq![],
    };
    let rename = match chosen(all, seq![], FeatureKind::Rename) {
        Some(feature) => method_call("rename"@, seq![Tree::Str(feature.value->Rename_0@)]),
        None => seq![],
    };
    if let Some(feature) = chosen(all, seq![FeatureKind::Rename], FeatureKind::ParameterIn) {
        lemma_call(
            start,
            "add_source"@,
            source_code(salvo, feature.value->ParameterIn_0, SourceParser::Smart),
        );
    } else {
        assert(start + none =~= start);
    }
    let sourced = start + source;
    if let Some(feature) = chosen(all, seq![], FeatureKind::Rename) {
        let value = feature.value->Rename_0@;
        lemma_call(sourced, "rename"@, nothing().string(value));
        assert(nothing().string(value) =~= seq![Tree::Str(value)]);
    } else {
        assert(sourced + none =~= sourced);
    }
    let renamed = sourced + rename;
    assert(renamed + none =~= renamed);
    if let Some(serde) = parameter.serde_rename() {
        lemma_call(renamed, "serde_rename"@, nothing().string(serde@));
        assert(nothing().string(serde@) =~= seq![Tree::Str(serde@)]);
    }
}

/// The code of some features is the code of each, one after the other, whatever stands before.
pub proof fn law_code_of_features_in_order(
    before: Seq<Tree>,
    front: Seq<&Feature>,
    back: Seq<&Feature>,
    feature: &Feature,
)
    ensures
        features_code(before, Seq::empty()) == before,
        features_code(before, seq![feature]) == before + trees(feature.rendered),
        features_code(before, front + back) == features_code(features_code(before, front), back),
        features_code(before, front) == before + features_code(seq![], front),
    decreases back.len(), front.len(),
{
    let single = seq![feature];
    assert(single.drop_last() =~= Seq::<&Feature>::empty());
    reveal_with_fuel(features_code, 2);
    if back.len() == 0 {
        assert(front + back =~= front);
        if front.len() == 0 {
            assert(before + Seq::<Tree>::empty() =~= before);
        } else {
            law_code_of_features_in_order(before, front.drop_last(), back, feature);
            let start = features_code(seq![], front.drop_last());
            let last = trees(front.last().rendered);
            assert(before + start + last =~= before + (start + last));
        }
    } else {
        law_code_of_features_in_order(before, front, back.drop_last(), feature);
        assert((front + back).drop_last() =~= front + back.drop_last());
        assert((front + back).last() == back.last());
    }
}

/// `oapi::oapi::parameter::Parameter::new("name")`
pub open spec fn new_parameter(oapi: Seq<char>, name: Seq<char>) -> Seq<Tree> {
    nothing()
        .word(oapi)
        .seg("oapi"@)
        .seg("parameter"@)
        .seg("Parameter"@)
        .seg("new"@)
        .paren(seq![Tree::Str(name)])
}

/// What sets a property: a call with the expression of the field, or the code of the struct.
pub open spec fn set_by(name: Seq<char>, setting: Setting) -> Seq<Tree> {
    match setting {
        Setting::Own(expression) => method_call(name, trees(*expression)),
        Setting::Inherited(code) => trees(*code),
        Setting::Unset => seq![],
    }
}

/// What sets the schema. The schema that a function makes stands alone; one that is made from
/// the type comes behind the description, unless that is empty, whether the parameter has to be
/// given, and the code of each other feature, in order.
pub open spec fn schema_set_by(schema: SchemaView, context: Context, rendered: Rendered) -> Seq<
    Tree,
> {
    match schema {
        SchemaView::With(expression) => method_call("schema"@, trees(*expression)),
        SchemaView::Component(component) => (if component.description@.len() == 0 {
            seq![]
        } else {
            method_call("description"@, seq![Tree::Str(component.description@)])
        }) + method_call(
            "required"@,
            if component.required {
                trees(*context.required)
            } else {
                trees(*context.not_required)
            },
        ) + features_code(seq![], component.features) + method_call(
            "schema"@,
            trees(rendered.schema),
        ),
    }
}

/// The code of a parameter begins with `Parameter::new` of the name that renaming gave, or of the
/// name of the field where renaming gave none, whatever else is decided. Behind it come, each
/// independently of the others, the place, the style, the deprecation and the schema.
pub proof fn law_code_of_a_parameter<'a>(
    plan: PlanView<'a>,
    context: Context<'a>,
    rendered: Rendered,
)
    ensures
        ({
            let name = match rendered.name {
                Some(name) => name@,
                None => plan.name,
            };
            let start = new_parameter(ident_text(*context.oapi), name);
            &&& start.is_prefix_of(plan.code(context, rendered))
            &&& plan.code(context, rendered) == start + set_by("parameter_in"@, plan.parameter_in)
                + set_by("style"@, plan.style) + (match plan.deprecated {
                Some(expression) => method_call("deprecated"@, trees(*expression)),
                None => seq![],
            }) + schema_set_by(plan.schema, context, rendered)
        }),
{
    let name = match rendered.name {
        Some(name) => name@,
        None => plan.name,
    };
    assert(nothing().string(name) =~= seq![Tree::Str(name)]);
    let start = new_parameter(ident_text(*context.oapi), name);
    let place = set_by("parameter_in"@, plan.parameter_in);
    let style = set_by("style"@, plan.style);
    let deprecated = match plan.deprecated {
        Some(expression) => method_call("deprecated"@, trees(*expression)),
        None => seq![],
    };
    let schema = schema_set_by(plan.schema, context, rendered);
    lemma_setting_code(start, "parameter_in"@, plan.parameter_in);
    lemma_setting_code(start + place, "style"@, plan.style);
    let styled = start + place + style;
    match plan.deprecated {
        Some(expression) => lemma_call(styled, "deprecated"@, trees(*expression)),
        None => lemma_nothing_behind(styled),
    }
    lemma_schema_code(styled + deprecated, plan.schema, context, rendered);
    lemma_prefix(start, place, style, deprecated, schema);
}

/// Nothing behind some code leaves it as it is.
proof fn lemma_nothing_behind(code: Seq<Tree>)
    ensures
        code + Seq::<Tree>::empty() == code,
{
    assert(code + Seq::<Tree>::empty() =~= code);
}

/// Some code begins with its first part.
proof fn lemma_prefix(a: Seq<Tree>, b: Seq<Tree>, c: Seq<Tree>, d: Seq<Tree>, e: Seq<Tree>)
    ensures
        a.is_prefix_of(a + b + c + d + e),
{
    assert(a =~= (a + b + c + d + e).subrange(0, a.len() as int));
}

/// What sets the schema comes behind the code that stands before.
proof fn lemma_schema_code(
    before: Seq<Tree>,
    schema: SchemaView,
    context: Context,
    rendered: Rendered,
)
    ensures
        schema.code(before, context, rendered) == before + schema_set_by(schema, context, rendered),
{
    match schema {
        SchemaView::With(expression) => {
            lemma_call(before, "schema"@, trees(*expression));
        },
        SchemaView::Component(component) => {
            let text = component.description@;
            let description = if text.len() == 0 {
                seq![]
            } else {
                method_call("description"@, seq![Tree::Str(text)])
            };
            let value = if component.required {
                trees(*context.required)
            } else {
                trees(*context.not_required)
            };
            let required = method_call("required"@, value);
            let others = features_code(seq![], component.features);
            let last = method_call("schema"@, trees(rendered.schema));
            if text.len() == 0 {
                lemma_nothing_behind(before);
            } else {
                assert(nothing().string(text) =~= seq![Tree::Str(text)]);
                lemma_call(before, "description"@, seq![Tree::Str(text)]);
            }
            let described = before + description;
            lemma_call(described, "required"@, value);
            lemma_features_code(described + required, component.features);
            lemma_call(described + required + others, "schema"@, trees(rendered.schema));
            assert(before + description + required + others + last =~= before + (description
                + required + others + last));
        },
    }
}

/// What sets a property comes behind the code that stands before.
proof fn lemma_setting_code(before: Seq<Tree>, name: Seq<char>, setting: Setting)
    ensures
        setting_code(before, name, setting) == before + set_by(name, setting),
{
    match setting {
        Setting::Own(expression) => {
            lemma_call(before, name, trees(*expression));
        },
        Setting::Inherited(_) => {},
        Setting::Unset => {
            assert(before + Seq::<Tree>::empty() =~= before);
        },
    }
}

/// The code of features comes behind the code that stands before.
proof fn lemma_features_code(before: Seq<Tree>, features: Seq<&Feature>)
    ensures
        features_code(before, features) == before + features_code(seq![], features),
    decreases features.len(),
{
    if features.len() == 0 {
        assert(before + Seq::<Tree>::empty() =~= before);
    } else {
        lemma_features_code(before, features.drop_last());
        let start = features_code(seq![], features.drop_last());
        let last = trees(features.last().rendered);
        assert(before + start + last =~= before + (start + last));
    }
}

/// The view of a plan holds all that the plan holds.
pub proof fn law_plan_shows_everything<'a>(
    plan: Plan<'a>,
    component: Component<'a>,
    expression: &'a TokenStream,
)
    ensures
        plan@.name == plan.name@,
        plan@.rename == plan.rename,
        plan@.rename_all == plan.rename_all,
        plan@.parameter_in == plan.parameter_in,
        plan@.style == plan.style,
        plan@.deprecated == plan.deprecated,
        plan@.schema == plan.schema@,
        Schema::With(expression)@ == SchemaView::With(expression),
        Schema::Component(component)@ == SchemaView::Component(component@),
        component@.description == component.description,
        component@.required == component.required,
        component@.features == component.features@,
        component@.type_tree == component.type_tree,
        component@.schema_features == component.schema_features@,
{
}

/// A place of parameters is read from the source of its name, which for a path is `Param`.
pub proof fn law_source_of_a_place(salvo: Seq<char>, place: ParameterIn, parser: SourceParser)
    ensures
        source_from(place) == match place {
            ParameterIn::Query => "Query"@,
            ParameterIn::Header => "Header"@,
            ParameterIn::Path => "Param"@,
            ParameterIn::Cookie => "Cookie"@,
        },
        ({
            let path = nothing().word(salvo).seg("extract"@).seg("metadata"@);
            let parser_name = if parser is Smart {
                "Smart"@
            } else {
                "MultiMap"@
            };
            source_code(salvo, place, parser) == path.seg("Source"@).seg("new"@).paren(
                path.seg("SourceFrom"@).seg(source_from(place)).punct(',').word(salvo).seg(
                    "extract"@,
                ).seg("metadata"@).seg("SourceParser"@).seg(parser_name),
            )
        }),
{
}

/// A field is described by `Field::new` of its name, and a rule is handed over by its path.
pub proof fn law_field_and_rule_are_named(salvo: Seq<char>, name: Seq<char>, rule: RenameRule)
    ensures
        field_code(salvo, name) == nothing().word(salvo).seg("extract"@).seg("metadata"@).seg(
            "Field"@,
        ).seg("new"@).paren(seq![Tree::Str(name)]),
        rule_code(salvo, rule) == nothing().word(salvo).seg("extract"@).seg("RenameRule"@).seg(
            rule_name(rule),
        ),
{
    assert(nothing().string(name) =~= seq![Tree::Str(name)]);
}

} // verus!
