//! Why no code can be generated, and how that is reported.

use crate::data::Field;
use crate::feature::FeatureEntry;
use crate::text::{decimal, to_decimal};
use crate::tokens::{ident_text, ident_to_string};
use proc_macro2::Ident;
use vstd::prelude::*;
use vstd::string::StringExecFns;

verus! {

/// Why no code can be generated.
pub enum Rejection<'a> {
    /// A feature is not followed by its value.
    Parse(&'a syn::Error),
    /// A list holds what may not stand in it.
    Unexpected(&'a FeatureEntry),
    /// The attribute of a field stands on the struct.
    MisplacedParameter,
    /// Names are declared for fields that have names.
    NamesOnNamedFields,
    /// The number of declared names is not the number of fields.
    NamesMismatch { names: usize, fields: usize },
    /// A tuple struct declares no names for its fields.
    NamesMissing,
    /// A struct without fields.
    UnitStruct,
    /// An enum or a union.
    NotStruct,
    /// There is no name for a field.
    UnnamedField(&'a Field),
}

/// A message to the author of the struct.
pub struct Diagnostic {
    pub message: String,
    pub helps: Vec<String>,
    pub note: Option<String>,
}

/// A [`Diagnostic`], over sequences.
#[verifier::ext_equal]
pub struct DiagnosticView {
    pub message: Seq<char>,
    pub helps: Seq<Seq<char>>,
    pub note: Option<Seq<char>>,
}

impl View for Diagnostic {
    type V = DiagnosticView;

    open spec fn view(&self) -> DiagnosticView {
        DiagnosticView {
            message: self.message@,
            helps: self.helps@.map_values(|help: String| help@),
            note: match self.note {
                Some(note) => Some(note@),
                None => None,
            },
        }
    }
}

/// The message that a type of this name is no struct that parameters can be derived from.
pub open spec fn unsupported(ident: Seq<char>) -> Seq<char> {
    "unsupported data type, expected struct with named fields `struct "@ + ident
        + " {...}` or unnamed fields `struct "@ + ident + "(...)`"@
}

impl<'a> Rejection<'a> {
    /// What is reported of a type of this name, except where a list of features is at fault.
    pub open spec fn reported(self, ident: Seq<char>) -> Option<DiagnosticView> {
        match self {
            Rejection::Parse(_) => None,
            Rejection::Unexpected(_) => None,
            Rejection::MisplacedParameter => Some(
                DiagnosticView {
                    message: "found `parameter` attribute in unsupported context"@,
                    helps: seq!["Did you mean `parameters`?"@],
                    note: None,
                },
            ),
            Rejection::NamesOnNamedFields => Some(
                DiagnosticView {
                    message:
                        "`#[salvo(parameters(names(...)))]` is not supported attribute on a struct with named fields"@,
                    helps: Seq::empty(),
                    note: None,
                },
            ),
            Rejection::NamesMismatch { names, fields } => Some(
                DiagnosticView {
                    message: "declared names amount '"@ + decimal(names as nat)
                        + "' does not match to the unnamed fields amount '"@ + decimal(
                        fields as nat,
                    ) + "' in type: "@ + ident,
                    helps: seq![
                        "Did you forget to add a field name to `#[salvo(parameters(names(... , \"field_name\")))]`"@,
                        "Or have you added extra name but haven't defined a type?"@,
                    ],
                    note: None,
                },
            ),
            Rejection::NamesMissing => Some(
                DiagnosticView {
                    message: "struct with unnamed fields must have explicit name declarations."@,
                    helps: seq![
                        "Try defining `#[salvo(parameters(names(...)))]` over your type: "@ + ident,
                    ],
                    note: None,
                },
            ),
            Rejection::UnitStruct => Some(
                DiagnosticView {
                    message: unsupported(ident),
                    helps: Seq::empty(),
                    note: Some("Unit type struct is not supported"@),
                },
            ),
            Rejection::NotStruct => Some(
                DiagnosticView {
                    message: unsupported(ident),
                    helps: Seq::empty(),
                    note: Some("Only struct type is supported"@),
                },
            ),
            Rejection::UnnamedField(_) => Some(
                DiagnosticView {
                    message: "No name specified for unnamed field."@,
                    helps: seq![
                        "Try adding #[salvo(parameters(names(...)))] container attribute to specify the name for this field"@,
                    ],
                    note: None,
                },
            ),
        }
    }

    /// Writes what is reported of a type of this name. A list of features that is at fault is
    /// reported by the error or the entry itself.
    pub fn diagnostic(&self, ident: &Ident) -> (result: Option<Diagnostic>)
        ensures
            match result {
                Some(diagnostic) => self.reported(ident_text(*ident)) == Some(diagnostic@),
                None => self.reported(ident_text(*ident)) is None,
            },
    {
        let name = ident_to_string(ident);
        let mut helps: Vec<String> = Vec::new();
        let mut note: Option<String> = None;
        let message: String = match self {
            Rejection::Parse(_) => return None,
            Rejection::Unexpected(_) => return None,
            Rejection::MisplacedParameter => {
                helps.push("Did you mean `parameters`?".to_owned());
                "found `parameter` attribute in unsupported context".to_owned()
            },
            Rejection::NamesOnNamedFields => {
                "`#[salvo(parameters(names(...)))]` is not supported attribute on a struct with named fields".to_owned()
            },
            Rejection::NamesMismatch { names, fields } => {
                helps.push(
                    "Did you forget to add a field name to `#[salvo(parameters(names(... , \"field_name\")))]`".to_owned(),
                );
                helps.push("Or have you added extra name but haven't defined a type?".to_owned());
                let mut message = "declared names amount '".to_owned();
                message.append(to_decimal(*names).as_str());
                message.append("' does not match to the unnamed fields amount '");
                message.append(to_decimal(*fields).as_str());
                message.append("' in type: ");
                message.append(name.as_str());
                message
            },
            Rejection::NamesMissing => {
                let mut help =
                    "Try defining `#[salvo(parameters(names(...)))]` over your type: ".to_owned();
                help.append(name.as_str());
                helps.push(help);
                "struct with unnamed fields must have explicit name declarations.".to_owned()
            },
            Rejection::UnitStruct => {
                note = Some("Unit type struct is not supported".to_owned());
                unsupported_message(name.as_str())
            },
            Rejection::NotStruct => {
                note = Some("Only struct type is supported".to_owned());
                unsupported_message(name.as_str())
            },
            Rejection::UnnamedField(_) => {
                helps.push(
                    "Try adding #[salvo(parameters(names(...)))] container attribute to specify the name for this field".to_owned(),
                );
                "No name specified for unnamed field.".to_owned()
            },
        };
        let diagnostic = Diagnostic { message, helps, note };
        assert(self.reported(ident_text(*ident)) matches Some(reported) && diagnostic@ =~= reported);
        Some(diagnostic)
    }
}

fn unsupported_message(name: &str) -> (message: String)
    ensures
        message@ == unsupported(name@),
{
    let mut message =
        "unsupported data type, expected struct with named fields `struct ".to_owned();
    message.append(name);
    message.append(" {...}` or unnamed fields `struct ");
    message.append(name);
    message.append("(...)`");
    message
}

} // verus!
