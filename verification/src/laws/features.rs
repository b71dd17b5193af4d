//! What holds of features, lists and attributes.

use crate::attribute::{
    declared, first_named, nested_list, path_parts, salvo_list, Attribute, NestedList, PathPart,
};
use crate::error::Rejection;
use crate::feature::{
    first_index, first_of, lemma_first_index, listed, outcome, rest_of, Feature, FeatureEntry,
    FeatureKind, Scope,
};
use crate::laws::{declared_once, law_pop_leaves_other_kinds, law_split_keeps_all_features};
use crate::parameter::{parameter_part, schema_part};
use vstd::prelude::*;

verus! {

/// The kind of a feature is decided by its value alone: it is the variant of that name.
pub proof fn law_kind_names_the_value(feature: Feature)
    ensures
        feature.kind() is DefaultStyle <==> feature.value is DefaultStyle,
        feature.kind() is DefaultParameterIn <==> feature.value is DefaultParameterIn,
        feature.kind() is ToParametersNames <==> feature.value is ToParametersNames,
        feature.kind() is RenameAll <==> feature.value is RenameAll,
        feature.kind() is ValueType <==> feature.value is ValueType,
        feature.kind() is Rename <==> feature.value is Rename,
        feature.kind() is Style <==> feature.value is Style,
        feature.kind() is ParameterIn <==> feature.value is ParameterIn,
        feature.kind() is AllowReserved <==> feature.value is AllowReserved,
        feature.kind() is Example <==> feature.value is Example,
        feature.kind() is Explode <==> feature.value is Explode,
        feature.kind() is SchemaWith <==> feature.value is SchemaWith,
        feature.kind() is Required <==> feature.value is Required,
        feature.kind() is Inline <==> feature.value is Inline,
        feature.kind() is Format <==> feature.value is Format,
        feature.kind() is Default <==> feature.value is Default,
        feature.kind() is WriteOnly <==> feature.value is WriteOnly,
        feature.kind() is ReadOnly <==> feature.value is ReadOnly,
        feature.kind() is Nullable <==> feature.value is Nullable,
        feature.kind() is XmlAttr <==> feature.value is XmlAttr,
        feature.kind() is MultipleOf <==> feature.value is MultipleOf,
        feature.kind() is Maximum <==> feature.value is Maximum,
        feature.kind() is Minimum <==> feature.value is Minimum,
        feature.kind() is ExclusiveMaximum <==> feature.value is ExclusiveMaximum,
        feature.kind() is ExclusiveMinimum <==> feature.value is ExclusiveMinimum,
        feature.kind() is MaxLength <==> feature.value is MaxLength,
        feature.kind() is MinLength <==> feature.value is MinLength,
        feature.kind() is Pattern <==> feature.value is Pattern,
        feature.kind() is MaxItems <==> feature.value is MaxItems,
        feature.kind() is MinItems <==> feature.value is MinItems,
        feature.kind() is AdditionalProperties <==> feature.value is AdditionalProperties,
{
}

/// Whether an item of a list declares a feature that may stand in a place.
pub open spec fn fits(entry: FeatureEntry, scope: Scope) -> bool {
    entry matches FeatureEntry::Parsed(feature) && feature.kind().allowed_in(scope)
}

/// A list is read if and only if all its items fit, and then declares the feature of each of
/// them, in order. Otherwise the first item that does not fit is the error: by the error that it
/// holds, if its name may stand in the place, and else by the item itself.
pub proof fn law_list_is_read_item_by_item<'a>(entries: Seq<FeatureEntry>, scope: Scope)
    ensures
        match listed::<'a>(entries, scope) {
            Ok(features) => {
                &&& features.len() == entries.len()
                &&& forall|i: int|
                    0 <= i < entries.len() ==> fits(#[trigger] entries[i], scope) && entries[i]
                        == FeatureEntry::Parsed(*features[i])
            },
            Err(error) => exists|i: int|
                {
                    &&& 0 <= i < entries.len()
                    &&& !fits(#[trigger] entries[i], scope)
                    &&& forall|j: int| 0 <= j < i ==> fits(#[trigger] entries[j], scope)
                    &&& match entries[i] {
                        FeatureEntry::Malformed(kind, reason) => if kind.allowed_in(scope) {
                            error == Rejection::Parse(&reason)
                        } else {
                            error == Rejection::Unexpected(&entries[i])
                        },
                        _ => error == Rejection::Unexpected(&entries[i]),
                    }
                },
        },
    decreases entries.len(),
{
    if entries.len() > 0 {
        let front = entries.drop_last();
        law_list_is_read_item_by_item(front, scope);
        assert(forall|i: int| 0 <= i < front.len() ==> #[trigger] entries[i] == front[i]);
        assert(entries[entries.len() - 1] == entries.last());
        match listed::<'a>(front, scope) {
            Ok(features) => {
                assert forall|j: int| 0 <= j < front.len() implies fits(
                    #[trigger] entries[j],
                    scope,
                ) by {
                    assert(fits(front[j], scope));
                }
                if let Ok(all) = listed::<'a>(entries, scope) {
                    assert forall|i: int| 0 <= i < entries.len() implies fits(
                        #[trigger] entries[i],
                        scope,
                    ) && entries[i] == FeatureEntry::Parsed(*all[i]) by {
                        if i < front.len() {
                            assert(front[i] == FeatureEntry::Parsed(*features[i]));
                        }
                    }
                }
            },
            Err(_) => {
                let i = choose|i: int|
                    {
                        &&& 0 <= i < front.len()
                        &&& !fits(#[trigger] front[i], scope)
                        &&& forall|j: int| 0 <= j < i ==> fits(#[trigger] front[j], scope)
                        &&& match front[i] {
                            FeatureEntry::Malformed(kind, reason) => if kind.allowed_in(scope) {
                                listed::<'a>(front, scope) == Err::<Seq<&'a Feature>, _>(
                                    Rejection::Parse(&reason),
                                )
                            } else {
                                listed::<'a>(front, scope) == Err::<Seq<&'a Feature>, _>(
                                    Rejection::Unexpected(&front[i]),
                                )
                            },
                            _ => listed::<'a>(front, scope) == Err::<Seq<&'a Feature>, _>(
                                Rejection::Unexpected(&front[i]),
                            ),
                        }
                    };
                assert(entries[i] == front[i]);
                assert forall|j: int| 0 <= j < i implies fits(#[trigger] entries[j], scope) by {
                    assert(fits(front[j], scope));
                }
            },
        }
    }
}

/// What reading hands back as vectors is what it is said to hand back as sequences.
pub proof fn law_outcome_hides_nothing<'a>(result: Result<Vec<&'a Feature>, Rejection<'a>>)
    ensures
        match result {
            Ok(features) => outcome(result) == Ok::<_, Rejection>(features@),
            Err(error) => outcome(result) == Err::<Seq<&Feature>, _>(error),
        },
{
}

/// Of several features of a kind the foremost is taken. All others keep their places, but for
/// the last one, which fills the gap.
pub proof fn law_pop_takes_the_foremost(features: Seq<&Feature>, kind: FeatureKind)
    ensures
        match first_of(features, kind) {
            Some(feature) => exists|gap: int|
                {
                    &&& 0 <= gap < features.len()
                    &&& #[trigger] features[gap] == feature
                    &&& feature.kind() == kind
                    &&& forall|i: int| 0 <= i < gap ==> (#[trigger] features[i]).kind() != kind
                    &&& rest_of(features, kind).len() == features.len() - 1
                    &&& forall|i: int|
                        0 <= i < features.len() - 1 ==> #[trigger] rest_of(features, kind)[i]
                            == features[if i == gap {
                            features.len() - 1
                        } else {
                            i
                        }]
                },
            None => {
                &&& rest_of(features, kind) == features
                &&& forall|i: int|
                    0 <= i < features.len() ==> (#[trigger] features[i]).kind() != kind
            },
        },
{
    lemma_first_index(features, kind);
    if let Some(gap) = first_index(features, kind) {
        assert(features[gap] == first_of(features, kind)->Some_0);
    }
}

/// What is left of some features when one of each of some kinds has been taken, in this order.
pub open spec fn left<'a>(features: Seq<&'a Feature>, taken: Seq<FeatureKind>) -> Seq<&'a Feature>
    decreases taken.len(),
{
    if taken.len() == 0 {
        features
    } else {
        rest_of(left(features, taken.drop_last()), taken.last())
    }
}

/// The feature of a kind that is found when one of each of some other kinds has been taken.
pub open spec fn chosen<'a>(
    features: Seq<&'a Feature>,
    taken: Seq<FeatureKind>,
    kind: FeatureKind,
) -> Option<&'a Feature> {
    first_of(left(features, taken), kind)
}

/// Taking features of other kinds neither hides nor invents a feature: one of a kind is found if
/// and only if one was there, and it is one of those that were there.
pub proof fn law_others_do_not_matter(
    features: Seq<&Feature>,
    taken: Seq<FeatureKind>,
    kind: FeatureKind,
)
    requires
        !taken.contains(kind),
    ensures
        chosen(features, taken, kind) is Some <==> exists|i: int|
            0 <= i < features.len() && (#[trigger] features[i]).kind() == kind,
        chosen(features, taken, kind) matches Some(feature) ==> feature.kind() == kind
            && features.contains(feature),
        forall|i: int|
            0 <= i < left(features, taken).len() ==> features.contains(
                #[trigger] left(features, taken)[i],
            ),
    decreases taken.len(),
{
    let now = left(features, taken);
    if taken.len() > 0 {
        let before = taken.drop_last();
        assert(!before.contains(kind)) by {
            if before.contains(kind) {
                let i = choose|i: int| 0 <= i < before.len() && before[i] == kind;
                assert(taken[i] == kind);
            }
        }
        assert(taken[taken.len() - 1] == taken.last());
        law_others_do_not_matter(features, before, kind);
        let earlier = left(features, before);
        law_pop_leaves_other_kinds(earlier, taken.last(), kind);
        lemma_rest_within(earlier, taken.last());
        assert forall|i: int| 0 <= i < now.len() implies features.contains(#[trigger] now[i]) by {
            let j = choose|j: int| 0 <= j < earlier.len() && earlier[j] == now[i];
            assert(features.contains(earlier[j]));
        }
    } else {
        assert forall|i: int| 0 <= i < now.len() implies features.contains(#[trigger] now[i]) by {
            assert(features[i] == now[i]);
        }
        lemma_first_index(features, kind);
    }
    lemma_chosen_within(features, now, kind);
}

/// What is left was there.
proof fn lemma_rest_within(features: Seq<&Feature>, kind: FeatureKind)
    ensures
        forall|i: int|
            0 <= i < rest_of(features, kind).len() ==> features.contains(
                #[trigger] rest_of(features, kind)[i],
            ),
{
    lemma_first_index(features, kind);
    let rest = rest_of(features, kind);
    assert forall|i: int| 0 <= i < rest.len() implies features.contains(#[trigger] rest[i]) by {
        match first_index(features, kind) {
            Some(gap) => {
                let from = if i == gap {
                    features.len() - 1
                } else {
                    i
                };
                assert(features[from] == rest[i]);
            },
            None => {
                assert(features[i] == rest[i]);
            },
        }
    }
}

/// A feature that is found is one of those it is looked for among.
proof fn lemma_chosen_within(features: Seq<&Feature>, now: Seq<&Feature>, kind: FeatureKind)
    requires
        forall|i: int| 0 <= i < now.len() ==> features.contains(#[trigger] now[i]),
    ensures
        first_of(now, kind) matches Some(feature) ==> feature.kind() == kind && features.contains(
            feature,
        ),
{
    lemma_first_index(now, kind);
    if let Some(index) = first_index(now, kind) {
        assert(features.contains(now[index]));
    }
}

/// Splitting goes feature by feature: the parts of two lists of features, one after the other,
/// are the parts of the first and then those of the second, and a single feature goes to exactly
/// one part. So neither part loses a feature or changes the order.
pub proof fn law_split_goes_feature_by_feature<'a>(
    front: Seq<&'a Feature>,
    back: Seq<&'a Feature>,
    feature: &'a Feature,
)
    ensures
        schema_part(front + back) == schema_part(front) + schema_part(back),
        parameter_part(front + back) == parameter_part(front) + parameter_part(back),
        schema_part(seq![feature]) == if feature.kind().of_schema() {
            seq![feature]
        } else {
            seq![]
        },
        parameter_part(seq![feature]) == if feature.kind().of_schema() {
            seq![]
        } else {
            seq![feature]
        },
        schema_part(Seq::<&'a Feature>::empty()).len() == 0,
        parameter_part(Seq::<&'a Feature>::empty()).len() == 0,
    decreases back.len(),
{
    reveal(Seq::filter);
    let single: Seq<&'a Feature> = seq![feature];
    let none = Seq::<&'a Feature>::empty();
    assert(single.drop_last() =~= none);
    assert(schema_part(none) =~= none && parameter_part(none) =~= none);
    assert(none.push(feature) =~= single);
    if back.len() == 0 {
        assert(front + back =~= front);
    } else {
        law_split_goes_feature_by_feature(front, back.drop_last(), feature);
        assert((front + back).drop_last() =~= front + back.drop_last());
        assert((front + back).last() == back.last());
    }
}

/// The features of a parameter are among those of its field, and all of them are that say
/// nothing of the schema.
proof fn lemma_parameter_part_holds<'a>(features: Seq<&'a Feature>)
    ensures
        forall|f: &'a Feature| #[trigger]
            parameter_part(features).contains(f) <==> features.contains(f) && !f.kind().of_schema(),
{
    law_split_keeps_all_features(features);
    assert forall|f: &'a Feature| #[trigger]
        parameter_part(features).contains(f) implies features.contains(f) && !f.kind().of_schema()
    by {
        let part = parameter_part(features);
        let i = choose|i: int| 0 <= i < part.len() && part[i] == f;
        assert(!part[i].kind().of_schema());
        features.lemma_filter_contains_rev(|feature: &'a Feature| !feature.kind().of_schema(), f);
    }
    assert forall|f: &'a Feature|
        features.contains(f) && !f.kind().of_schema() implies #[trigger] parameter_part(
        features,
    ).contains(f) by {
        let i = choose|i: int| 0 <= i < features.len() && features[i] == f;
        let keep = |feature: &'a Feature| !feature.kind().of_schema();
        features.lemma_filter_contains(keep, i);
    }
}

/// Which feature decides for a parameter: none if the field declares none of the kind, and one
/// that the field declares otherwise; if it declares only one, that one, wherever it stands and
/// whatever else is declared.
pub proof fn law_the_declared_feature_decides<'a>(
    features: Seq<&'a Feature>,
    taken: Seq<FeatureKind>,
    kind: FeatureKind,
)
    requires
        !taken.contains(kind),
        !kind.of_schema(),
    ensures
        chosen(parameter_part(features), taken, kind) is None <==> forall|i: int|
            0 <= i < features.len() ==> (#[trigger] features[i]).kind() != kind,
        chosen(parameter_part(features), taken, kind) matches Some(feature) ==> feature.kind()
            == kind && features.contains(feature),
        declared_once(features, kind) ==> forall|i: int|
            0 <= i < features.len() && (#[trigger] features[i]).kind() == kind ==> chosen(
                parameter_part(features),
                taken,
                kind,
            ) == Some(features[i]),
{
    let all = parameter_part(features);
    law_others_do_not_matter(all, taken, kind);
    lemma_parameter_part_holds(features);
    let found = chosen(all, taken, kind);
    if found is None {
        assert forall|i: int| 0 <= i < features.len() implies (#[trigger] features[i]).kind()
            != kind by {
            if features[i].kind() == kind {
                assert(features.contains(features[i]));
                assert(all.contains(features[i]));
                let j = choose|j: int| 0 <= j < all.len() && all[j] == features[i];
                assert(all[j].kind() == kind);
            }
        }
    } else {
        let feature = found->Some_0;
        assert(all.contains(feature));
        assert(features.contains(feature));
        let j = choose|j: int| 0 <= j < features.len() && features[j] == feature;
        assert(features[j].kind() == kind);
    }
}

/// Looking for a list finds the foremost one whose path is the name and nothing else. There is
/// an error if and only if the arguments of the attribute are no list of items.
pub proof fn law_foremost_list_with_the_name<'a>(attr: Attribute, name: Seq<char>)
    ensures
        match nested_list::<'a>(attr, name) {
            Ok(Some(list)) => attr.nested matches Ok(lists) && exists|i: int|
                {
                    &&& 0 <= i < lists@.len()
                    &&& #[trigger] lists@[i] == *list
                    &&& path_parts(list.path) == seq![PathPart::Bare(name)]
                    &&& forall|j: int|
                        0 <= j < i ==> path_parts((#[trigger] lists@[j]).path) != seq![
                            PathPart::Bare(name),
                        ]
                },
            Ok(None) => attr.nested matches Ok(lists) && forall|i: int|
                0 <= i < lists@.len() ==> path_parts((#[trigger] lists@[i]).path) != seq![
                    PathPart::Bare(name),
                ],
            Err(error) => attr.nested == Err::<Vec<NestedList>, _>(*error),
        },
{
    if let Ok(lists) = attr.nested {
        lemma_first_named(lists@, name);
    }
}

/// The first list with a name is the foremost one.
proof fn lemma_first_named<'a>(lists: Seq<NestedList>, name: Seq<char>)
    ensures
        match first_named::<'a>(lists, name) {
            Some(list) => exists|i: int|
                {
                    &&& 0 <= i < lists.len()
                    &&& #[trigger] lists[i] == *list
                    &&& path_parts(list.path) == seq![PathPart::Bare(name)]
                    &&& forall|j: int|
                        0 <= j < i ==> path_parts((#[trigger] lists[j]).path) != seq![
                            PathPart::Bare(name),
                        ]
                },
            None => forall|i: int|
                0 <= i < lists.len() ==> path_parts((#[trigger] lists[i]).path) != seq![
                    PathPart::Bare(name),
                ],
        },
    decreases lists.len(),
{
    if lists.len() > 0 {
        let front = lists.drop_last();
        lemma_first_named(front, name);
        assert(forall|i: int| 0 <= i < front.len() ==> #[trigger] lists[i] == front[i]);
        assert(lists[lists.len() - 1] == lists.last());
        if let Some(list) = first_named::<'a>(front, name) {
            let i = choose|i: int|
                {
                    &&& 0 <= i < front.len()
                    &&& #[trigger] front[i] == *list
                    &&& path_parts(list.path) == seq![PathPart::Bare(name)]
                    &&& forall|j: int|
                        0 <= j < i ==> path_parts((#[trigger] front[j]).path) != seq![
                            PathPart::Bare(name),
                        ]
                };
            assert(lists[i] == front[i]);
        }
    }
}

/// Only an attribute whose path is `salvo` and nothing else is looked into, and one whose
/// arguments cannot be read is passed over.
pub proof fn law_only_salvo_attributes_count<'a>(attr: Attribute, name: Seq<char>)
    ensures
        path_parts(attr.path) != seq![PathPart::Bare("salvo"@)] ==> salvo_list::<'a>(attr, name)
            is None,
        path_parts(attr.path) == seq![PathPart::Bare("salvo"@)] ==> match nested_list::<'a>(
            attr,
            name,
        ) {
            Ok(list) => salvo_list::<'a>(attr, name) == list,
            Err(_) => salvo_list::<'a>(attr, name) is None,
        },
{
}

/// An attribute declares what its list declares: on a struct the list `parameters`, on a field
/// the list `parameter`. Without that list it declares nothing.
pub proof fn law_an_attribute_declares_its_list<'a>(attr: Attribute)
    ensures
        declared::<'a>(seq![attr], Scope::Container) == match salvo_list::<'a>(
            attr,
            "parameters"@,
        ) {
            Some(list) => listed::<'a>(list.entries@, Scope::Container),
            None => Ok(Seq::empty()),
        },
        declared::<'a>(seq![attr], Scope::Field) == match salvo_list::<'a>(attr, "parameter"@) {
            Some(list) => listed::<'a>(list.entries@, Scope::Field),
            None => Ok(Seq::empty()),
        },
        forall|scope: Scope| #[trigger]
            declared::<'a>(Seq::empty(), scope) == Ok::<_, Rejection>(Seq::<&'a Feature>::empty()),
{
    let single = seq![attr];
    assert(single.drop_last() =~= Seq::<Attribute>::empty());
    assert(declared::<'a>(Seq::empty(), Scope::Container) == Ok::<_, Rejection>(
        Seq::<&'a Feature>::empty(),
    ));
    assert(declared::<'a>(Seq::empty(), Scope::Field) == Ok::<_, Rejection>(
        Seq::<&'a Feature>::empty(),
    ));
    if let Some(list) = salvo_list::<'a>(attr, "parameters"@) {
        if let Ok(more) = listed::<'a>(list.entries@, Scope::Container) {
            assert(Seq::<&'a Feature>::empty() + more =~= more);
        }
    }
    if let Some(list) = salvo_list::<'a>(attr, "parameter"@) {
        if let Ok(more) = listed::<'a>(list.entries@, Scope::Field) {
            assert(Seq::<&'a Feature>::empty() + more =~= more);
        }
    }
}

} // verus!
