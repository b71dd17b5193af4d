//! Attributes, and the features that they declare.

use crate::error::Rejection;
use crate::feature::{
    listed, outcome, Feature, FeatureEntry, FieldFeatures, Scope, ToParametersFeatures,
};
use syn::Path;
use vstd::prelude::*;

verus! {

/// A path, as `syn` holds it.
#[verifier::external_type_specification]
#[verifier::external_body]
pub struct ExPath(syn::Path);

/// A part of a path.
pub enum PathPart {
    /// The `::` that a path may start with.
    Root,
    /// A segment that is an identifier and nothing else.
    Bare(Seq<char>),
    /// A segment with generic or parenthesized arguments.
    WithArguments(Seq<char>),
}

/// The parts that a path is made of, in order.
pub uninterp spec fn path_parts(path: Path) -> Seq<PathPart>;

/// Whether a path is the one identifier `name` and nothing else.
pub open spec fn names(path: Path, name: Seq<char>) -> bool {
    path_parts(path) =~= seq![PathPart::Bare(name)]
}

/// `syn::Path::is_ident`: whether the path has no leading `::`, and one segment, which has no
/// arguments and whose identifier is written `name`.
#[verifier::external_body]
fn is_ident(path: &Path, name: &str) -> (result: bool)
    ensures
        result == (path_parts(*path) =~= seq![PathPart::Bare(name@)]),
{
    path.is_ident(name)
}

/// A list inside of an attribute: `parameters(...)` in `#[salvo(parameters(...))]`.
pub struct NestedList {
    pub path: Path,
    pub entries: Vec<FeatureEntry>,
}

/// An attribute.
pub struct Attribute {
    pub path: Path,
    /// The lists among its arguments, unless the arguments are no list of items.
    pub nested: Result<Vec<NestedList>, syn::Error>,
}

/// The first of some lists that has a name.
pub open spec fn first_named<'a>(lists: Seq<NestedList>, name: Seq<char>) -> Option<&'a NestedList>
    decreases lists.len(),
{
    if lists.len() == 0 {
        None
    } else {
        match first_named(lists.drop_last(), name) {
            Some(list) => Some(list),
            None => if names(lists.last().path, name) {
                Some(&lists.last())
            } else {
                None
            },
        }
    }
}

/// The list with a name in the arguments of an attribute.
pub open spec fn nested_list<'a>(attr: Attribute, name: Seq<char>) -> Result<
    Option<&'a NestedList>,
    &'a syn::Error,
> {
    match attr.nested {
        Ok(lists) => Ok(first_named(lists@, name)),
        Err(error) => Err(&error),
    }
}

/// The list with a name in an attribute `#[salvo(...)]`.
pub open spec fn salvo_list<'a>(attr: Attribute, name: Seq<char>) -> Option<&'a NestedList> {
    if names(attr.path, "salvo"@) {
        match nested_list(attr, name) {
            Ok(list) => list,
            Err(_) => None,
        }
    } else {
        None
    }
}

/// The name of the list that declares features in a place.
pub open spec fn list_name(scope: Scope) -> Seq<char> {
    match scope {
        Scope::Container => "parameters"@,
        Scope::Field => "parameter"@,
    }
}

/// The features that some attributes declare in a place: those of every attribute, one list
/// after the other, or the first error in them.
pub open spec fn declared<'a>(attrs: Seq<Attribute>, scope: Scope) -> Result<
    Seq<&'a Feature>,
    Rejection<'a>,
>
    decreases attrs.len(),
{
    if attrs.len() == 0 {
        Ok(Seq::empty())
    } else {
        match declared(attrs.drop_last(), scope) {
            Ok(features) => match salvo_list(attrs.last(), list_name(scope)) {
                Some(list) => match listed(list.entries@, scope) {
                    Ok(more) => Ok(features + more),
                    Err(error) => Err(error),
                },
                None => Ok(features),
            },
            Err(error) => Err(error),
        }
    }
}

/// What is found in the front of some lists is what is found in all of them.
proof fn lemma_first_named_in_front(lists: Seq<NestedList>, front: int, name: Seq<char>)
    requires
        0 <= front <= lists.len(),
        first_named(lists.take(front), name) is Some,
    ensures
        first_named(lists, name) == first_named(lists.take(front), name),
    decreases lists.len(),
{
    if front == lists.len() {
        assert(lists.take(front) =~= lists);
    } else {
        assert(lists.drop_last().take(front) =~= lists.take(front));
        lemma_first_named_in_front(lists.drop_last(), front, name);
    }
}

/// An error in the front of some attributes is the error of all of them.
proof fn lemma_declared_error(attrs: Seq<Attribute>, front: int, scope: Scope)
    requires
        0 <= front <= attrs.len(),
        declared(attrs.take(front), scope) is Err,
    ensures
        declared(attrs, scope) == declared(attrs.take(front), scope),
    decreases attrs.len(),
{
    if front == attrs.len() {
        assert(attrs.take(front) =~= attrs);
    } else {
        assert(attrs.drop_last().take(front) =~= attrs.take(front));
        lemma_declared_error(attrs.drop_last(), front, scope);
    }
}

/// Looks for the list with a name in the arguments of an attribute.
pub fn find_nested_list<'a>(attr: &'a Attribute, name: &str) -> (result: Result<
    Option<&'a NestedList>,
    &'a syn::Error,
>)
    ensures
        result == nested_list(*attr, name@),
{
    match &attr.nested {
        Ok(lists) => {
            for i in 0..lists.len()
                invariant
                    attr.nested == Ok::<_, syn::Error>(*lists),
                    first_named(lists@.take(i as int), name@) is None,
            {
                assert(lists@.take(i + 1).drop_last() =~= lists@.take(i as int));
                if is_ident(&lists[i].path, name) {
                    proof {
                        lemma_first_named_in_front(lists@, i + 1, name@);
                    }
                    return Ok(Some(&lists[i]));
                }
            }
            assert(lists@.take(lists@.len() as int) =~= lists@);
            Ok(None)
        },
        Err(error) => Err(error),
    }
}

/// Looks for the list with a name in an attribute `#[salvo(...)]`.
pub fn find_salvo_list<'a>(attr: &'a Attribute, name: &str) -> (list: Option<&'a NestedList>)
    ensures
        list == salvo_list(*attr, name@),
{
    if is_ident(&attr.path, "salvo") {
        match find_nested_list(attr, name) {
            Ok(list) => list,
            Err(_) => None,
        }
    } else {
        None
    }
}

/// Collects the features that some attributes declare in a place.
pub fn declared_features<'a>(attrs: &'a Vec<Attribute>, scope: Scope) -> (result: Result<
    Vec<&'a Feature>,
    Rejection<'a>,
>)
    ensures
        outcome(result) == declared(attrs@, scope),
{
    let mut features: Vec<&'a Feature> = Vec::new();
    for i in 0..attrs.len()
        invariant
            declared(attrs@.take(i as int), scope) == Ok::<_, Rejection>(features@),
    {
        proof {
            assert(attrs@.take(i + 1).drop_last() =~= attrs@.take(i as int));
            if declared(attrs@.take(i + 1), scope) is Err {
                lemma_declared_error(attrs@, i + 1, scope);
            }
        }
        let name: &str = match scope {
            Scope::Container => "parameters",
            Scope::Field => "parameter",
        };
        if let Some(list) = find_salvo_list(&attrs[i], name) {
            let mut more: Vec<&'a Feature> = match scope {
                Scope::Container => match ToParametersFeatures::parse(&list.entries) {
                    Ok(features) => features.into_inner(),
                    Err(error) => return Err(error),
                },
                Scope::Field => match FieldFeatures::parse(&list.entries) {
                    Ok(features) => features.into_inner(),
                    Err(error) => return Err(error),
                },
            };
            features.append(&mut more);
        }
    }
    assert(attrs@.take(attrs@.len() as int) =~= attrs@);
    Ok(features)
}

} // verus!
