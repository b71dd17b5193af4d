//! What holds of a struct: its settings, its parameters, and what it is rejected for.

use crate::attribute::{declared, salvo_list};
use crate::container::{
    first_rejection, parameter_codes, settings_of, Resolved, ResolvedView, Settings, ToParameters,
};
use crate::data::{Data, Field, Fields};
use crate::error::{Diagnostic, Rejection};
use crate::feature::{rest_of, Feature, FeatureKind, FeatureValue, Scope};
use crate::laws::features::{chosen, law_others_do_not_matter, left};
use crate::laws::{declared_once, fields_of};
use crate::parameter::{Context, Parameter, PlanView, Rendered};
use crate::text::decimal;
use vstd::prelude::*;

verus! {

/// The kinds of features that are settled for a struct, in order.
pub open spec fn settled_for_structs() -> Seq<FeatureKind> {
    seq![
        FeatureKind::ToParametersNames,
        FeatureKind::DefaultStyle,
        FeatureKind::DefaultParameterIn,
    ]
}

/// What is set for a struct is what its features declare, each setting by the feature of its own
/// kind: nothing is set that is not declared, what is declared is set, and a rule that is
/// declared once is the rule.
pub proof fn law_settings_are_what_is_declared<'a>(features: Seq<&'a Feature>)
    ensures
        match chosen(features, seq![], FeatureKind::ToParametersNames) {
            Some(feature) => feature.value matches FeatureValue::ToParametersNames(names)
                && settings_of(features).names == Some(&names),
            None => settings_of(features).names is None,
        },
        settings_of(features).default_style == chosen(
            features,
            settled_for_structs().take(1),
            FeatureKind::DefaultStyle,
        ),
        settings_of(features).default_parameter_in == chosen(
            features,
            settled_for_structs().take(2),
            FeatureKind::DefaultParameterIn,
        ),
        match chosen(features, settled_for_structs(), FeatureKind::RenameAll) {
            Some(feature) => feature.value matches FeatureValue::RenameAll(rule) && settings_of(
                features,
            ).rename_all == Some(rule),
            None => settings_of(features).rename_all is None,
        },
        settings_of(features).rename_all is Some <==> exists|i: int|
            0 <= i < features.len() && (#[trigger] features[i]).kind() == FeatureKind::RenameAll,
        settings_of(features).names is Some <==> exists|i: int|
            0 <= i < features.len() && (#[trigger] features[i]).kind()
                == FeatureKind::ToParametersNames,
        settings_of(features).default_style is Some <==> exists|i: int|
            0 <= i < features.len() && (#[trigger] features[i]).kind() == FeatureKind::DefaultStyle,
        settings_of(features).default_parameter_in is Some <==> exists|i: int|
            0 <= i < features.len() && (#[trigger] features[i]).kind()
                == FeatureKind::DefaultParameterIn,
        declared_once(features, FeatureKind::RenameAll) ==> forall|i: int|
            0 <= i < features.len() ==> ((
            #[trigger] features[i]).value matches FeatureValue::RenameAll(rule) ==> settings_of(
                features,
            ).rename_all == Some(rule)),
{
    let none = Seq::<FeatureKind>::empty();
    let kinds = settled_for_structs();
    assert(kinds.take(1).drop_last() =~= none);
    assert(kinds.take(2).drop_last() =~= kinds.take(1));
    assert(kinds.drop_last() =~= kinds.take(2));
    assert(left(features, none) == features);
    assert(left(features, kinds.take(1)) == rest_of(features, FeatureKind::ToParametersNames));
    assert(left(features, kinds.take(2)) == rest_of(
        left(features, kinds.take(1)),
        FeatureKind::DefaultStyle,
    ));
    assert(left(features, kinds) == rest_of(
        left(features, kinds.take(2)),
        FeatureKind::DefaultParameterIn,
    ));
    assert(!kinds.take(1).contains(FeatureKind::DefaultStyle));
    assert(!kinds.take(2).contains(FeatureKind::DefaultParameterIn));
    assert(!kinds.contains(FeatureKind::RenameAll));
    law_others_do_not_matter(features, none, FeatureKind::ToParametersNames);
    law_others_do_not_matter(features, kinds.take(1), FeatureKind::DefaultStyle);
    law_others_do_not_matter(features, kinds.take(2), FeatureKind::DefaultParameterIn);
    law_others_do_not_matter(features, kinds, FeatureKind::RenameAll);
    if let Some(feature) = chosen(features, kinds, FeatureKind::RenameAll) {
        let j = choose|j: int| 0 <= j < features.len() && features[j] == feature;
        assert(features[j].kind() == FeatureKind::RenameAll);
    }
    assert forall|i: int|
        declared_once(features, FeatureKind::RenameAll) && 0 <= i < features.len() implies ((
    #[trigger] features[i]).value matches FeatureValue::RenameAll(rule) ==> settings_of(
        features,
    ).rename_all == Some(rule)) by {
        if features[i].value is RenameAll {
            assert(features[i].kind() == FeatureKind::RenameAll);
        }
    }
}

/// A struct is read by default from the place that it declares, and from the query if it
/// declares none.
pub proof fn law_read_from_the_query_by_default(settings: Settings)
    ensures
        settings.default_parameter_in is None ==> settings.default_place() is Query,
        settings.default_parameter_in matches Some(feature) ==> (
        feature.value matches FeatureValue::DefaultParameterIn(place) ==> settings.default_place()
            == place),
{
}

/// A struct is first rejected for a list that cannot be read, then for the attribute of a field,
/// then for fields that the declared names do not suit. If none of this is the case its settings
/// are those that its attributes declare.
pub proof fn law_what_a_struct_is_rejected_for_first<'a>(container: ToParameters)
    ensures
        match declared::<'a>(container.attrs@, Scope::Container) {
            Err(error) => container.resolved::<'a>() == Err::<ResolvedView, _>(error),
            Ok(features) => if exists|i: int|
                0 <= i < container.attrs@.len() && salvo_list::<'a>(
                    #[trigger] container.attrs@[i],
                    "parameter"@,
                ) is Some {
                container.resolved::<'a>() == Err::<ResolvedView, _>(Rejection::MisplacedParameter)
            } else {
                match container.fields(settings_of(features).names) {
                    Err(error) => container.resolved::<'a>() == Err::<ResolvedView, _>(error),
                    Ok(_) => container.resolved::<'a>() matches Ok(resolved) && resolved.settings
                        == settings_of(features),
                }
            },
        },
{
}

/// Fields that have names go without declared names, and fields that have none go with one
/// declared name each. Everything else is rejected, each case in its own way.
pub proof fn law_fields_and_names<'a>(container: ToParameters, names: Option<&'a Vec<String>>)
    ensures
        container.fields(names) is Ok <==> {
            ||| container.data is Struct && container.data->Struct_0 is Named && names is None
            ||| container.data is Struct && container.data->Struct_0 is Unnamed && (
            names matches Some(names) && names@.len() == fields_of(container.data).len())
        },
        container.fields(names) matches Ok(fields) ==> fields@ == fields_of(container.data),
        container.fields(names) matches Err(error) ==> {
            &&& error is NotStruct <==> !(container.data is Struct)
            &&& error is UnitStruct <==> container.data is Struct && container.data->Struct_0
                is Unit
            &&& error is NamesOnNamedFields <==> container.data is Struct
                && container.data->Struct_0 is Named
            &&& error is NamesMissing <==> container.data is Struct && container.data->Struct_0
                is Unnamed && names is None
            &&& error matches Rejection::NamesMismatch { names: declared, fields } ==> {
                &&& container.data is Struct && container.data->Struct_0 is Unnamed
                &&& names matches Some(names) && declared == names@.len() as usize
                &&& fields == fields_of(container.data).len() as usize
            }
            &&& error is NotStruct || error is UnitStruct || error is NamesOnNamedFields || error
                is NamesMissing || error is NamesMismatch
        },
        container.named() <==> container.data is Struct && container.data->Struct_0 is Named,
{
}

/// Whether a parameter is made of a field and of what its struct says of the field at that place.
pub open spec fn made_of<'a>(
    parameter: Parameter<'a>,
    container: ToParameters,
    settings: Settings<'a>,
    place: int,
) -> bool {
    let field = fields_of(container.data)[place];
    &&& *parameter.field == field
    &&& match field.serde {
        Some(serde) => parameter.field_serde_params == Some(&serde),
        None => parameter.field_serde_params is None,
    }
    &&& match settings.names {
        Some(names) => parameter.container_attributes.name == Some(&names@[place]),
        None => parameter.container_attributes.name is None,
    }
    &&& parameter.container_attributes.default_style == settings.default_style
    &&& parameter.container_attributes.default_parameter_in == settings.default_parameter_in
    &&& parameter.container_attributes.rename_all == settings.rename_all
    &&& match container.serde {
        Some(serde) => parameter.serde_container == Some(&serde),
        None => parameter.serde_container is None,
    }
}

/// Whether places of fields are all those that serde knows and does not skip, in order.
pub open spec fn kept_places(places: Seq<int>, fields: Seq<Field>) -> bool {
    &&& forall|i: int, j: int|
        0 <= i < j < places.len() ==> #[trigger] places[i] < #[trigger] places[j]
    &&& forall|i: int| 0 <= i < places.len() ==> 0 <= #[trigger] places[i] < fields.len()
    &&& forall|place: int|
        0 <= place < fields.len() ==> (places.contains(place) <==> (
        #[trigger] fields[place]).serde is Some && !fields[place].serde->Some_0.skip)
}

/// The parameters of a struct are made one by one of the fields that serde knows and does not
/// skip, in order, each with its own name and with the settings of the struct.
pub proof fn law_each_kept_field_makes_its_parameter<'a>(container: ToParameters)
    ensures
        container.resolved::<'a>() matches Ok(resolved) ==> exists|places: Seq<int>|
            {
                &&& #[trigger] kept_places(places, fields_of(container.data))
                &&& places.len() == resolved.parameters.len()
                &&& forall|i: int|
                    0 <= i < places.len() ==> made_of(
                        #[trigger] resolved.parameters[i],
                        container,
                        resolved.settings,
                        places[i],
                    )
            },
{
    if let Ok(resolved) = container.resolved::<'a>() {
        let fields = fields_of(container.data);
        let n = fields.len() as int;
        let places = lemma_places(container, resolved.settings, n);
        assert(fields.take(n) =~= fields);
        assert(kept_places(places, fields));
    }
}

/// The places of the fields that the first parameters are made of.
proof fn lemma_places<'a>(
    container: ToParameters,
    settings: Settings<'a>,
    count: int,
) -> (places: Seq<int>)
    requires
        0 <= count <= fields_of(container.data).len(),
    ensures
        kept_places(places, fields_of(container.data).take(count)),
        places.len() == container.parameters(settings, fields_of(container.data), count).len(),
        forall|i: int|
            0 <= i < places.len() ==> made_of(
                #[trigger] container.parameters(settings, fields_of(container.data), count)[i],
                container,
                settings,
                places[i],
            ),
    decreases count,
{
    let fields = fields_of(container.data);
    if count == 0 {
        Seq::empty()
    } else {
        let before = lemma_places(container, settings, count - 1);
        let last = count - 1;
        let keep = fields[last].serde is Some && !fields[last].serde->Some_0.skip;
        let places = if keep {
            before.push(last)
        } else {
            before
        };
        let front = fields.take(last);
        let all = fields.take(count);
        assert(forall|place: int| 0 <= place < last ==> #[trigger] all[place] == front[place]);
        assert forall|place: int| 0 <= place < all.len() implies (places.contains(place) <==> (
        #[trigger] all[place]).serde is Some && !all[place].serde->Some_0.skip) by {
            if place < last {
                assert(front[place] == all[place]);
                if before.contains(place) {
                    let i = choose|i: int| 0 <= i < before.len() && before[i] == place;
                    assert(places[i] == place);
                }
                if places.contains(place) {
                    let i = choose|i: int| 0 <= i < places.len() && places[i] == place;
                    assert(before[i] == place);
                }
            } else {
                if keep {
                    assert(places[places.len() - 1] == last);
                }
                if before.contains(last) {
                    let i = choose|i: int| 0 <= i < before.len() && before[i] == last;
                    assert(before[i] < front.len());
                }
            }
        }
        let made = container.parameters(settings, fields, count);
        let made_before = container.parameters(settings, fields, last);
        assert forall|i: int| 0 <= i < places.len() implies made_of(
            #[trigger] made[i],
            container,
            settings,
            places[i],
        ) by {
            if i < before.len() {
                assert(made[i] == made_before[i]);
                assert(made_of(made_before[i], container, settings, before[i]));
            }
        }
        places
    }
}

/// Parameters are rejected for the foremost one that cannot be planned, and for the reason that
/// it cannot.
pub proof fn law_foremost_parameter_that_cannot_be_planned<'a>(parameters: Seq<Parameter<'a>>)
    ensures
        match first_rejection(parameters) {
            Some(error) => exists|i: int|
                {
                    &&& 0 <= i < parameters.len()
                    &&& (#[trigger] parameters[i]).planned() == Err::<PlanView, _>(error)
                    &&& forall|j: int|
                        0 <= j < i ==> (#[trigger] parameters[j]).planned() is Ok
                },
            None => forall|i: int|
                0 <= i < parameters.len() ==> (#[trigger] parameters[i]).planned() is Ok,
        },
    decreases parameters.len(),
{
    if parameters.len() > 0 {
        let front = parameters.drop_last();
        law_foremost_parameter_that_cannot_be_planned(front);
        assert(forall|i: int| 0 <= i < front.len() ==> #[trigger] parameters[i] == front[i]);
        assert(parameters[parameters.len() - 1] == parameters.last());
        if let Some(error) = first_rejection(front) {
            let i = choose|i: int|
                {
                    &&& 0 <= i < front.len()
                    &&& (#[trigger] front[i]).planned() == Err::<PlanView, _>(error)
                    &&& forall|j: int| 0 <= j < i ==> (#[trigger] front[j]).planned() is Ok
                };
            assert(parameters[i] == front[i]);
        }
    }
}

/// A struct is accepted if and only if it is resolved and each of its parameters can be planned,
/// and then with the settings and the parameters that it was resolved with. Otherwise it is
/// rejected for what it could not be resolved for, and else for its foremost parameter that
/// cannot be planned. The code of its parameters is the code of each plan, in order.
pub proof fn law_accepted_as_resolved<'a>(
    container: ToParameters,
    context: Context<'a>,
    rendered: Seq<Rendered>,
)
    ensures
        match container.resolved::<'a>() {
            Err(error) => container.accepted::<'a>() == Err::<ResolvedView, _>(error),
            Ok(resolved) => match first_rejection(resolved.parameters) {
                Some(error) => container.accepted::<'a>() == Err::<ResolvedView, _>(error),
                None => container.accepted::<'a>() == Ok::<_, Rejection>(resolved),
            },
        },
        container.accepted::<'a>() matches Ok(resolved) ==> {
            let codes = parameter_codes(resolved.parameters, context, rendered);
            &&& codes.len() == resolved.parameters.len()
            &&& forall|i: int|
                0 <= i < codes.len() ==> (resolved.parameters[i].planned() matches Ok(plan)
                    && #[trigger] codes[i] == plan.code(context, rendered[i]))
        },
{
    if let Ok(resolved) = container.resolved::<'a>() {
        law_foremost_parameter_that_cannot_be_planned(resolved.parameters);
    }
}

/// The views of what is resolved and of what is reported hold all that there is.
pub proof fn law_resolved_and_reported_show_everything<'a>(
    resolved: Resolved<'a>,
    diagnostic: Diagnostic,
)
    ensures
        resolved@.settings == resolved.settings,
        resolved@.parameters == resolved.parameters@,
        diagnostic@.message == diagnostic.message@,
        diagnostic@.helps.len() == diagnostic.helps@.len(),
        forall|i: int|
            0 <= i < diagnostic.helps@.len() ==> #[trigger] diagnostic@.helps[i]
                == diagnostic.helps@[i]@,
        diagnostic.note is None <==> diagnostic@.note is None,
        diagnostic.note matches Some(note) ==> diagnostic@.note == Some(note@),
{
}

/// Every rejection is reported, but for a list at fault. What is reported names the type and the
/// numbers at fault, and depends on nothing else.
pub proof fn law_what_is_reported<'a>(error: Rejection<'a>, ident: Seq<char>)
    ensures
        error.reported(ident) is None <==> error is Parse || error is Unexpected,
        error.reported(ident) matches Some(report) ==> {
            &&& report.note == (if error is UnitStruct {
                Some("Unit type struct is not supported"@)
            } else if error is NotStruct {
                Some("Only struct type is supported"@)
            } else {
                None
            })
            &&& error is UnitStruct || error is NotStruct ==> {
                &&& report.message
                    == "unsupported data type, expected struct with named fields `struct "@ + ident
                    + " {...}` or unnamed fields `struct "@ + ident + "(...)`"@
                &&& report.helps.len() == 0
            }
            &&& error is MisplacedParameter ==> {
                &&& report.message == "found `parameter` attribute in unsupported context"@
                &&& report.helps == seq!["Did you mean `parameters`?"@]
            }
            &&& error is NamesOnNamedFields ==> {
                &&& report.message
                    == "`#[salvo(parameters(names(...)))]` is not supported attribute on a struct with named fields"@
                &&& report.helps.len() == 0
            }
            &&& error matches Rejection::NamesMismatch { names, fields } ==> {
                &&& report.message == "declared names amount '"@ + decimal(names as nat)
                    + "' does not match to the unnamed fields amount '"@ + decimal(fields as nat)
                    + "' in type: "@ + ident
                &&& report.helps == seq![
                    "Did you forget to add a field name to `#[salvo(parameters(names(... , \"field_name\")))]`"@,
                    "Or have you added extra name but haven't defined a type?"@,
                ]
            }
            &&& error is NamesMissing ==> {
                &&& report.message
                    == "struct with unnamed fields must have explicit name declarations."@
                &&& report.helps == seq![
                    "Try defining `#[salvo(parameters(names(...)))]` over your type: "@ + ident,
                ]
            }
            &&& error is UnnamedField ==> {
                &&& report.message == "No name specified for unnamed field."@
                &&& report.helps == seq![
                    "Try adding #[salvo(parameters(names(...)))] container attribute to specify the name for this field"@,
                ]
            }
        },
{
}

/// The number that decimal digits stand for.
pub open spec fn number(digits: Seq<char>) -> int
    decreases digits.len(),
{
    if digits.len() == 0 {
        0
    } else {
        10 * number(digits.drop_last()) + (digits.last() as int - '0' as int)
    }
}

/// A number in decimal is made of digits, stands for the number, and does not start with a zero
/// unless it is a zero.
pub proof fn law_decimal_reads_back(n: nat)
    ensures
        number(decimal(n)) == n,
        decimal(n).len() > 0,
        forall|i: int| 0 <= i < decimal(n).len() ==> '0' <= #[trigger] decimal(n)[i] <= '9',
        decimal(n)[0] == '0' ==> n == 0,
        decimal(n).len() > 1 ==> n >= 10,
    decreases n,
{
    let text = decimal(n);
    if n < 10 {
        assert(text.drop_last() =~= Seq::<char>::empty());
        assert(number(text.drop_last()) == 0);
    } else {
        law_decimal_reads_back(n / 10);
        assert(text.drop_last() =~= decimal(n / 10));
        assert forall|i: int| 0 <= i < text.len() implies '0' <= #[trigger] text[i] <= '9' by {
            if i < text.len() - 1 {
                assert(text[i] == decimal(n / 10)[i]);
            }
        }
        assert(text[0] == decimal(n / 10)[0]);
    }
}

} // verus!
