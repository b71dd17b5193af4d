//! The struct that parameters are derived from.

use crate::attribute::Attribute;
use crate::feature::{RenameRule, TypeTree};
use proc_macro2::{Ident, TokenStream};
use vstd::prelude::*;

verus! {

/// What the serde attributes of a field say.
pub struct SerdeValue {
    /// Whether the field is left out.
    pub skip: bool,
    /// The name of the field.
    pub rename: Option<String>,
}

/// What the serde attributes of a struct say.
pub struct SerdeContainer {
    /// The rule by which the names of all fields are rewritten.
    pub rename_all: Option<RenameRule>,
}

/// A field.
pub struct Field {
    /// The name, unless the field is one of a tuple struct.
    pub ident: Option<Ident>,
    pub attrs: Vec<Attribute>,
    /// The serde attributes, if they could be read.
    pub serde: Option<SerdeValue>,
    /// Whether serde takes the field for missing when no value is given.
    pub serde_required: bool,
    /// The expression for the deprecation of the field, if it is deprecated.
    pub deprecated: Option<TokenStream>,
    /// The text of the doc comments.
    pub description: String,
    pub type_tree: TypeTree,
}

/// The fields of a struct.
pub enum Fields {
    Named(Vec<Field>),
    Unnamed(Vec<Field>),
    Unit,
}

/// A type definition.
pub enum Data {
    Struct(Fields),
    Enum,
    Union,
}

impl Data {
    /// The fields that are said to be named have names.
    pub open spec fn well_formed(self) -> bool {
        self matches Data::Struct(Fields::Named(fields)) ==> forall|i: int|
            0 <= i < fields@.len() ==> (#[trigger] fields@[i]).ident is Some
    }
}

} // verus!
