//! The features that attributes declare, and which of them belong where.

use crate::error::Rejection;
use proc_macro2::TokenStream;
use vstd::prelude::*;

verus! {

/// What `syn` reports of an attribute that it cannot parse.
#[verifier::external_type_specification]
#[verifier::external_body]
pub struct ExParseError(syn::Error);

/// Where a parameter is taken from.
#[derive(Clone, Copy, Debug, PartialEq, Eq, Structural)]
pub enum ParameterIn {
    Query,
    Header,
    Path,
    Cookie,
}

/// How names are rewritten.
#[derive(Clone, Copy, Debug, PartialEq, Eq, Structural)]
pub enum RenameRule {
    LowerCase,
    UpperCase,
    PascalCase,
    CamelCase,
    SnakeCase,
    ScreamingSnakeCase,
    KebabCase,
    ScreamingKebabCase,
}

/// A type, and whether it is an `Option`.
pub struct TypeTree {
    pub is_option: bool,
    pub ty: TokenStream,
}

/// The features by name.
#[derive(Clone, Copy, Debug, PartialEq, Eq, Structural)]
pub enum FeatureKind {
    DefaultStyle,
    DefaultParameterIn,
    ToParametersNames,
    RenameAll,
    ValueType,
    Rename,
    Style,
    ParameterIn,
    AllowReserved,
    Example,
    Explode,
    SchemaWith,
    Required,
    Inline,
    Format,
    Default,
    WriteOnly,
    ReadOnly,
    Nullable,
    XmlAttr,
    MultipleOf,
    Maximum,
    Minimum,
    ExclusiveMaximum,
    ExclusiveMinimum,
    MaxLength,
    MinLength,
    Pattern,
    MaxItems,
    MinItems,
    AdditionalProperties,
}

/// What a feature says, as far as anything depends on it.
pub enum FeatureValue {
    /// The style of the parameters that name none.
    DefaultStyle,
    /// The place of the parameters that name none.
    DefaultParameterIn(ParameterIn),
    /// The names of the fields of a tuple struct.
    ToParametersNames(Vec<String>),
    /// The rule by which the names of all fields are rewritten.
    RenameAll(RenameRule),
    /// The type that a parameter is documented with, instead of the type of its field.
    ValueType(TypeTree),
    /// The name of a parameter.
    Rename(String),
    /// The style of a parameter, and the expression for it.
    Style(TokenStream),
    /// The place of a parameter, and the expression for it.
    ParameterIn(ParameterIn, TokenStream),
    AllowReserved,
    Example,
    Explode,
    /// A function that makes the schema.
    SchemaWith,
    /// Whether a parameter of an optional type has to be given nevertheless.
    Required(bool),
    Inline,
    Format,
    Default,
    WriteOnly,
    ReadOnly,
    Nullable,
    XmlAttr,
    MultipleOf,
    Maximum,
    Minimum,
    ExclusiveMaximum,
    ExclusiveMinimum,
    MaxLength,
    MinLength,
    Pattern,
    MaxItems,
    MinItems,
    AdditionalProperties,
}

/// A feature, and the code that it stands for.
pub struct Feature {
    pub value: FeatureValue,
    pub rendered: TokenStream,
}

/// One item of a list of features.
pub enum FeatureEntry {
    /// A feature.
    Parsed(Feature),
    /// The name of a feature, followed by what is not its value.
    Malformed(FeatureKind, syn::Error),
    /// A name that is the name of no feature.
    Unknown(String),
}

/// The two places in which features are declared.
#[derive(Clone, Copy, Debug, PartialEq, Eq, Structural)]
pub enum Scope {
    /// On the struct: `#[salvo(parameters(...))]`.
    Container,
    /// On one of its fields: `#[salvo(parameter(...))]`.
    Field,
}

impl FeatureKind {
    /// The features of `#[salvo(parameters(...))]`.
    pub open spec fn of_container(self) -> bool {
        ||| self is DefaultStyle
        ||| self is DefaultParameterIn
        ||| self is ToParametersNames
        ||| self is RenameAll
    }

    /// The features of `#[salvo(parameter(...))]` that say something of the schema.
    pub open spec fn of_schema(self) -> bool {
        ||| self is Inline
        ||| self is Format
        ||| self is Default
        ||| self is WriteOnly
        ||| self is ReadOnly
        ||| self is Nullable
        ||| self is XmlAttr
        ||| self is MultipleOf
        ||| self is Maximum
        ||| self is Minimum
        ||| self is ExclusiveMaximum
        ||| self is ExclusiveMinimum
        ||| self is MaxLength
        ||| self is MinLength
        ||| self is Pattern
        ||| self is MaxItems
        ||| self is MinItems
        ||| self is AdditionalProperties
    }

    /// The features of `#[salvo(parameter(...))]` that say something of the parameter.
    pub open spec fn of_parameter(self) -> bool {
        ||| self is ValueType
        ||| self is Rename
        ||| self is Style
        ||| self is ParameterIn
        ||| self is AllowReserved
        ||| self is Example
        ||| self is Explode
        ||| self is SchemaWith
        ||| self is Required
    }

    /// The features that may stand in a place.
    pub open spec fn allowed_in(self, scope: Scope) -> bool {
        match scope {
            Scope::Container => self.of_container(),
            Scope::Field => self.of_parameter() || self.of_schema(),
        }
    }

    /// Whether a feature says something of the schema rather than of the parameter.
    pub fn is_schema(self) -> (result: bool)
        ensures
            result == self.of_schema(),
    {
        match self {
            FeatureKind::Inline
            | FeatureKind::Format
            | FeatureKind::Default
            | FeatureKind::WriteOnly
            | FeatureKind::ReadOnly
            | FeatureKind::Nullable
            | FeatureKind::XmlAttr
            | FeatureKind::MultipleOf
            | FeatureKind::Maximum
            | FeatureKind::Minimum
            | FeatureKind::ExclusiveMaximum
            | FeatureKind::ExclusiveMinimum
            | FeatureKind::MaxLength
            | FeatureKind::MinLength
            | FeatureKind::Pattern
            | FeatureKind::MaxItems
            | FeatureKind::MinItems
            | FeatureKind::AdditionalProperties => true,
            _ => false,
        }
    }

    /// Whether a feature may stand in a place.
    pub fn is_allowed_in(self, scope: Scope) -> (result: bool)
        ensures
            result == self.allowed_in(scope),
    {
        let container: bool = match self {
            FeatureKind::DefaultStyle
            | FeatureKind::DefaultParameterIn
            | FeatureKind::ToParametersNames
            | FeatureKind::RenameAll => true,
            _ => false,
        };
        match scope {
            Scope::Container => container,
            Scope::Field => !container,
        }
    }
}

impl Feature {
    /// Which feature it is.
    pub open spec fn spec_kind(&self) -> FeatureKind {
        match self.value {
            FeatureValue::DefaultStyle => FeatureKind::DefaultStyle,
            FeatureValue::DefaultParameterIn(_) => FeatureKind::DefaultParameterIn,
            FeatureValue::ToParametersNames(_) => FeatureKind::ToParametersNames,
            FeatureValue::RenameAll(_) => FeatureKind::RenameAll,
            FeatureValue::ValueType(_) => FeatureKind::ValueType,
            FeatureValue::Rename(_) => FeatureKind::Rename,
            FeatureValue::Style(_) => FeatureKind::Style,
            FeatureValue::ParameterIn(_, _) => FeatureKind::ParameterIn,
            FeatureValue::AllowReserved => FeatureKind::AllowReserved,
            FeatureValue::Example => FeatureKind::Example,
            FeatureValue::Explode => FeatureKind::Explode,
            FeatureValue::SchemaWith => FeatureKind::SchemaWith,
            FeatureValue::Required(_) => FeatureKind::Required,
            FeatureValue::Inline => FeatureKind::Inline,
            FeatureValue::Format => FeatureKind::Format,
            FeatureValue::Default => FeatureKind::Default,
            FeatureValue::WriteOnly => FeatureKind::WriteOnly,
            FeatureValue::ReadOnly => FeatureKind::ReadOnly,
            FeatureValue::Nullable => FeatureKind::Nullable,
            FeatureValue::XmlAttr => FeatureKind::XmlAttr,
            FeatureValue::MultipleOf => FeatureKind::MultipleOf,
            FeatureValue::Maximum => FeatureKind::Maximum,
            FeatureValue::Minimum => FeatureKind::Minimum,
            FeatureValue::ExclusiveMaximum => FeatureKind::ExclusiveMaximum,
            FeatureValue::ExclusiveMinimum => FeatureKind::ExclusiveMinimum,
            FeatureValue::MaxLength => FeatureKind::MaxLength,
            FeatureValue::MinLength => FeatureKind::MinLength,
            FeatureValue::Pattern => FeatureKind::Pattern,
            FeatureValue::MaxItems => FeatureKind::MaxItems,
            FeatureValue::MinItems => FeatureKind::MinItems,
            FeatureValue::AdditionalProperties => FeatureKind::AdditionalProperties,
        }
    }

    /// Which feature it is.
    #[verifier::when_used_as_spec(spec_kind)]
    pub fn kind(&self) -> (kind: FeatureKind)
        ensures
            kind == self.spec_kind(),
    {
        match &self.value {
            FeatureValue::DefaultStyle => FeatureKind::DefaultStyle,
            FeatureValue::DefaultParameterIn(_) => FeatureKind::DefaultParameterIn,
            FeatureValue::ToParametersNames(_) => FeatureKind::ToParametersNames,
            FeatureValue::RenameAll(_) => FeatureKind::RenameAll,
            FeatureValue::ValueType(_) => FeatureKind::ValueType,
            FeatureValue::Rename(_) => FeatureKind::Rename,
            FeatureValue::Style(_) => FeatureKind::Style,
            FeatureValue::ParameterIn(_, _) => FeatureKind::ParameterIn,
            FeatureValue::AllowReserved => FeatureKind::AllowReserved,
            FeatureValue::Example => FeatureKind::Example,
            FeatureValue::Explode => FeatureKind::Explode,
            FeatureValue::SchemaWith => FeatureKind::SchemaWith,
            FeatureValue::Required(_) => FeatureKind::Required,
            FeatureValue::Inline => FeatureKind::Inline,
            FeatureValue::Format => FeatureKind::Format,
            FeatureValue::Default => FeatureKind::Default,
            FeatureValue::WriteOnly => FeatureKind::WriteOnly,
            FeatureValue::ReadOnly => FeatureKind::ReadOnly,
            FeatureValue::Nullable => FeatureKind::Nullable,
            FeatureValue::XmlAttr => FeatureKind::XmlAttr,
            FeatureValue::MultipleOf => FeatureKind::MultipleOf,
            FeatureValue::Maximum => FeatureKind::Maximum,
            FeatureValue::Minimum => FeatureKind::Minimum,
            FeatureValue::ExclusiveMaximum => FeatureKind::ExclusiveMaximum,
            FeatureValue::ExclusiveMinimum => FeatureKind::ExclusiveMinimum,
            FeatureValue::MaxLength => FeatureKind::MaxLength,
            FeatureValue::MinLength => FeatureKind::MinLength,
            FeatureValue::Pattern => FeatureKind::Pattern,
            FeatureValue::MaxItems => FeatureKind::MaxItems,
            FeatureValue::MinItems => FeatureKind::MinItems,
            FeatureValue::AdditionalProperties => FeatureKind::AdditionalProperties,
        }
    }
}

/// What an item of a list declares in a place: a feature, or why it declares none there. A
/// name that has no business in the place is rejected before its value is looked at.
pub open spec fn entry_outcome<'a>(entry: &'a FeatureEntry, scope: Scope) -> Result<
    &'a Feature,
    Rejection<'a>,
> {
    match entry {
        FeatureEntry::Parsed(feature) => if feature.kind().allowed_in(scope) {
            Ok(feature)
        } else {
            Err(Rejection::Unexpected(entry))
        },
        FeatureEntry::Malformed(kind, error) => if kind.allowed_in(scope) {
            Err(Rejection::Parse(error))
        } else {
            Err(Rejection::Unexpected(entry))
        },
        FeatureEntry::Unknown(_) => Err(Rejection::Unexpected(entry)),
    }
}

/// The features of a list in a place, in order, or the first error in it.
pub open spec fn listed<'a>(entries: Seq<FeatureEntry>, scope: Scope) -> Result<
    Seq<&'a Feature>,
    Rejection<'a>,
>
    decreases entries.len(),
{
    if entries.len() == 0 {
        Ok(Seq::empty())
    } else {
        match listed(entries.drop_last(), scope) {
            Ok(features) => match entry_outcome(&entries.last(), scope) {
                Ok(feature) => Ok(features.push(feature)),
                Err(error) => Err(error),
            },
            Err(error) => Err(error),
        }
    }
}

/// The outcome of reading features, over sequences.
pub open spec fn outcome<'a>(result: Result<Vec<&'a Feature>, Rejection<'a>>) -> Result<
    Seq<&'a Feature>,
    Rejection<'a>,
> {
    match result {
        Ok(features) => Ok(features@),
        Err(error) => Err(error),
    }
}

/// An error in the front of a list is the error of the list.
proof fn lemma_listed_error(entries: Seq<FeatureEntry>, front: int, scope: Scope)
    requires
        0 <= front <= entries.len(),
        listed(entries.take(front), scope) is Err,
    ensures
        listed(entries, scope) == listed(entries.take(front), scope),
    decreases entries.len(),
{
    if front == entries.len() {
        assert(entries.take(front) =~= entries);
    } else {
        assert(entries.drop_last().take(front) =~= entries.take(front));
        lemma_listed_error(entries.drop_last(), front, scope);
    }
}

/// Reads a list of features in a place.
fn parse_features<'a>(input: &'a Vec<FeatureEntry>, scope: Scope) -> (result: Result<
    Vec<&'a Feature>,
    Rejection<'a>,
>)
    ensures
        outcome(result) == listed(input@, scope),
{
    let mut features: Vec<&'a Feature> = Vec::new();
    for i in 0..input.len()
        invariant
            listed(input@.take(i as int), scope) == Ok::<_, Rejection>(features@),
    {
        proof {
            assert(input@.take(i + 1).drop_last() =~= input@.take(i as int));
            if listed(input@.take(i + 1), scope) is Err {
                lemma_listed_error(input@, i + 1, scope);
            }
        }
        match &input[i] {
            FeatureEntry::Parsed(feature) if feature.kind().is_allowed_in(scope) => {
                features.push(feature);
            },
            FeatureEntry::Malformed(kind, error) if kind.is_allowed_in(scope) => {
                return Err(Rejection::Parse(error));
            },
            entry => {
                return Err(Rejection::Unexpected(entry));
            },
        }
    }
    assert(input@.take(input@.len() as int) =~= input@);
    Ok(features)
}

/// The features of `#[salvo(parameters(...))]`.
pub struct ToParametersFeatures<'a>(pub Vec<&'a Feature>);

impl<'a> ToParametersFeatures<'a> {
    /// Reads the list of an attribute on a struct.
    pub fn parse(input: &'a Vec<FeatureEntry>) -> (result: Result<Self, Rejection<'a>>)
        ensures
            match result {
                Ok(features) => listed(input@, Scope::Container) == Ok::<_, Rejection>(features.0@),
                Err(error) => listed(input@, Scope::Container) == Err::<Seq<&Feature>, _>(error),
            },
    {
        match parse_features(input, Scope::Container) {
            Ok(features) => Ok(ToParametersFeatures(features)),
            Err(error) => Err(error),
        }
    }

    /// The features, in the order of the list.
    pub fn into_inner(self) -> (features: Vec<&'a Feature>)
        ensures
            features == self.0,
    {
        self.0
    }
}

/// The features of `#[salvo(parameter(...))]`.
pub struct FieldFeatures<'a>(pub Vec<&'a Feature>);

impl<'a> FieldFeatures<'a> {
    /// Reads the list of an attribute on a field.
    pub fn parse(input: &'a Vec<FeatureEntry>) -> (result: Result<Self, Rejection<'a>>)
        ensures
            match result {
                Ok(features) => listed(input@, Scope::Field) == Ok::<_, Rejection>(features.0@),
                Err(error) => listed(input@, Scope::Field) == Err::<Seq<&Feature>, _>(error),
            },
    {
        match parse_features(input, Scope::Field) {
            Ok(features) => Ok(FieldFeatures(features)),
            Err(error) => Err(error),
        }
    }

    /// The features, in the order of the list.
    pub fn into_inner(self) -> (features: Vec<&'a Feature>)
        ensures
            features == self.0,
    {
        self.0
    }
}

/// The index of the first feature of a kind.
pub open spec fn first_index(features: Seq<&Feature>, kind: FeatureKind) -> Option<int>
    decreases features.len(),
{
    if features.len() == 0 {
        None
    } else {
        match first_index(features.drop_last(), kind) {
            Some(index) => Some(index),
            None => if features.last().kind() == kind {
                Some(features.len() - 1)
            } else {
                None
            },
        }
    }
}

/// The first feature of a kind.
pub open spec fn first_of<'a>(features: Seq<&'a Feature>, kind: FeatureKind) -> Option<
    &'a Feature,
> {
    match first_index(features, kind) {
        Some(index) => Some(features[index]),
        None => None,
    }
}

/// The features without the first one of a kind, whose place the last one takes.
pub open spec fn rest_of<'a>(features: Seq<&'a Feature>, kind: FeatureKind) -> Seq<&'a Feature> {
    match first_index(features, kind) {
        Some(index) => features.update(index, features.last()).drop_last(),
        None => features,
    }
}

/// The index of the first feature of a kind is the index of a feature of that kind, and there
/// is one wherever a feature of that kind is.
pub proof fn lemma_first_index(features: Seq<&Feature>, kind: FeatureKind)
    ensures
        match first_index(features, kind) {
            Some(index) => {
                &&& 0 <= index < features.len()
                &&& features[index].kind() == kind
                &&& forall|i: int| 0 <= i < index ==> (#[trigger] features[i]).kind() != kind
            },
            None => forall|i: int|
                0 <= i < features.len() ==> (#[trigger] features[i]).kind() != kind,
        },
    decreases features.len(),
{
    if features.len() > 0 {
        lemma_first_index(features.drop_last(), kind);
        assert(forall|i: int| 0 <= i < features.len() - 1 ==> #[trigger] features[i]
            == features.drop_last()[i]);
    }
}

/// What is found in the front of a list of features is what is found in the list.
proof fn lemma_first_in_front(features: Seq<&Feature>, front: int, kind: FeatureKind)
    requires
        0 <= front <= features.len(),
        first_index(features.take(front), kind) is Some,
    ensures
        first_index(features, kind) == first_index(features.take(front), kind),
    decreases features.len(),
{
    if front == features.len() {
        assert(features.take(front) =~= features);
    } else {
        assert(features.drop_last().take(front) =~= features.take(front));
        lemma_first_in_front(features.drop_last(), front, kind);
    }
}

/// Takes the first feature of a kind out of a list; the last one takes its place.
pub fn pop_by<'a>(features: &mut Vec<&'a Feature>, kind: FeatureKind) -> (popped: Option<
    &'a Feature,
>)
    ensures
        popped == first_of(old(features)@, kind),
        final(features)@ == rest_of(old(features)@, kind),
        popped matches Some(feature) ==> feature.kind() == kind,
{
    let n: usize = features.len();
    for i in 0..n
        invariant
            n == features@.len(),
            features@ == old(features)@,
            first_index(features@.take(i as int), kind) is None,
    {
        assert(features@.take(i + 1).drop_last() =~= features@.take(i as int));
        if features[i].kind() == kind {
            proof {
                lemma_first_in_front(features@, i + 1, kind);
            }
            return Some(features.swap_remove(i));
        }
    }
    assert(features@.take(n as int) =~= features@);
    None
}

} // verus!
