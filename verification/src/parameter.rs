//! One parameter: what is decided about it, and the code for it.

use crate::attribute::{declared, declared_features};
use crate::data::{Field, SerdeContainer, SerdeValue};
use crate::error::Rejection;
use crate::extract::{field_code, quote_field, quote_source, source_code, SourceParser};
use crate::feature::{
    first_of, pop_by, rest_of, Feature, FeatureKind, FeatureValue, ParameterIn,
    RenameRule, Scope, TypeTree,
};
use crate::text::{bare_name, strip_raw};
use crate::tokens::{
    call, ident_text, ident_to_string, new_stream, nothing, paren, plain_word, push_ident, seg,
    splice, string, trees, Tree, TreeSeq,
};
use proc_macro2::{Ident, TokenStream};
use vstd::pervasive::unreached;
use vstd::prelude::*;

verus! {

/// What the attributes of a struct say of one of its fields.
pub struct FieldParameterContainerAttributes<'a> {
    /// The style of the parameters that name none.
    pub default_style: Option<&'a Feature>,
    /// The name that is declared for this field.
    pub name: Option<&'a String>,
    /// The place of the parameters that name none.
    pub default_parameter_in: Option<&'a Feature>,
    /// The rule by which the names of all fields are rewritten, if serde has none.
    pub rename_all: Option<RenameRule>,
}

/// A field that becomes a parameter.
pub struct Parameter<'a> {
    pub field: &'a Field,
    /// The serde attributes of the field.
    pub field_serde_params: Option<&'a SerdeValue>,
    pub container_attributes: FieldParameterContainerAttributes<'a>,
    /// The serde attributes of the struct.
    pub serde_container: Option<&'a SerdeContainer>,
}

/// The names of the crates that the code refers to, and its two expressions for whether a
/// parameter has to be given.
pub struct Context<'a> {
    pub salvo: &'a Ident,
    pub oapi: &'a Ident,
    pub required: &'a TokenStream,
    pub not_required: &'a TokenStream,
}

/// A property of a parameter that the struct may set for all its fields.
pub enum Setting<'a> {
    /// The field sets it, to this expression.
    Own(&'a TokenStream),
    /// The struct sets it, by this code.
    Inherited(&'a TokenStream),
    Unset,
}

/// How the schema of a parameter is made, where no function makes it.
pub struct Component<'a> {
    /// The description, empty if there is none.
    pub description: &'a String,
    /// Whether the parameter has to be given.
    pub required: bool,
    /// The features that say something else of the parameter.
    pub features: Vec<&'a Feature>,
    /// The type of the parameter.
    pub type_tree: &'a TypeTree,
    /// The features that say something of the schema.
    pub schema_features: Vec<&'a Feature>,
}

/// How the schema of a parameter is made.
pub enum Schema<'a> {
    /// By this expression.
    With(&'a TokenStream),
    /// From the type.
    Component(Component<'a>),
}

/// All that is decided about a parameter.
pub struct Plan<'a> {
    /// The name of the field.
    pub name: String,
    /// The name that takes its place.
    pub rename: Option<&'a String>,
    /// The rule by which it is rewritten, where no other name takes its place.
    pub rename_all: Option<RenameRule>,
    pub parameter_in: Setting<'a>,
    pub style: Setting<'a>,
    /// The expression for the deprecation of the parameter.
    pub deprecated: Option<&'a TokenStream>,
    pub schema: Schema<'a>,
}

/// What has been made of a plan: the name after renaming, where renaming gives one, and the
/// expression for the schema of its component.
pub struct Rendered {
    pub name: Option<String>,
    pub schema: TokenStream,
}

/// A [`Component`], over sequences.
#[verifier::ext_equal]
pub struct ComponentView<'a> {
    pub description: &'a String,
    pub required: bool,
    pub features: Seq<&'a Feature>,
    pub type_tree: &'a TypeTree,
    pub schema_features: Seq<&'a Feature>,
}

/// A [`Schema`], over sequences.
#[verifier::ext_equal]
pub enum SchemaView<'a> {
    With(&'a TokenStream),
    Component(ComponentView<'a>),
}

/// A [`Plan`], over sequences.
#[verifier::ext_equal]
pub struct PlanView<'a> {
    pub name: Seq<char>,
    pub rename: Option<&'a String>,
    pub rename_all: Option<RenameRule>,
    pub parameter_in: Setting<'a>,
    pub style: Setting<'a>,
    pub deprecated: Option<&'a TokenStream>,
    pub schema: SchemaView<'a>,
}

impl<'a> View for Component<'a> {
    type V = ComponentView<'a>;

    open spec fn view(&self) -> ComponentView<'a> {
        ComponentView {
            description: self.description,
            required: self.required,
            features: self.features@,
            type_tree: self.type_tree,
            schema_features: self.schema_features@,
        }
    }
}

impl<'a> View for Schema<'a> {
    type V = SchemaView<'a>;

    open spec fn view(&self) -> SchemaView<'a> {
        match self {
            Schema::With(expression) => SchemaView::With(*expression),
            Schema::Component(component) => SchemaView::Component(component@),
        }
    }
}

impl<'a> View for Plan<'a> {
    type V = PlanView<'a>;

    open spec fn view(&self) -> PlanView<'a> {
        PlanView {
            name: self.name@,
            rename: self.rename,
            rename_all: self.rename_all,
            parameter_in: self.parameter_in,
            style: self.style,
            deprecated: self.deprecated,
            schema: self.schema@,
        }
    }
}

/// The features that say something of the schema, in order.
pub open spec fn schema_part<'a>(features: Seq<&'a Feature>) -> Seq<&'a Feature> {
    features.filter(|feature: &'a Feature| feature.kind().of_schema())
}

/// The features that say something else, in order.
pub open spec fn parameter_part<'a>(features: Seq<&'a Feature>) -> Seq<&'a Feature> {
    features.filter(|feature: &'a Feature| !feature.kind().of_schema())
}

/// The name that a feature gives.
pub open spec fn rename_of<'a>(feature: Option<&'a Feature>) -> Option<&'a String> {
    match feature {
        Some(feature) => match &feature.value {
            FeatureValue::Rename(name) => Some(name),
            _ => None,
        },
        None => None,
    }
}

/// The place that a feature gives.
pub open spec fn place_of(feature: Option<&Feature>) -> Option<ParameterIn> {
    match feature {
        Some(feature) => match &feature.value {
            FeatureValue::ParameterIn(place, _) => Some(*place),
            _ => None,
        },
        None => None,
    }
}

/// The expression for the place that a feature gives.
pub open spec fn place_expression<'a>(feature: Option<&'a Feature>) -> Option<&'a TokenStream> {
    match feature {
        Some(feature) => match &feature.value {
            FeatureValue::ParameterIn(_, expression) => Some(expression),
            _ => None,
        },
        None => None,
    }
}

/// The expression for the style that a feature gives.
pub open spec fn style_expression<'a>(feature: Option<&'a Feature>) -> Option<&'a TokenStream> {
    match feature {
        Some(feature) => match &feature.value {
            FeatureValue::Style(expression) => Some(expression),
            _ => None,
        },
        None => None,
    }
}

/// The type that a feature gives, or else another one.
pub open spec fn type_or<'a>(
    feature: Option<&'a Feature>,
    otherwise: &'a TypeTree,
) -> &'a TypeTree {
    match feature {
        Some(feature) => match &feature.value {
            FeatureValue::ValueType(type_tree) => type_tree,
            _ => otherwise,
        },
        None => otherwise,
    }
}

/// Whether a feature says that the parameter has to be given.
pub open spec fn demanded(feature: Option<&Feature>) -> bool {
    match feature {
        Some(feature) => match feature.value {
            FeatureValue::Required(required) => required,
            _ => false,
        },
        None => false,
    }
}

/// What the field sets, or else what the struct sets.
pub open spec fn setting<'a>(
    own: Option<&'a TokenStream>,
    inherited: Option<&'a Feature>,
) -> Setting<
    'a,
> {
    match own {
        Some(expression) => Setting::Own(expression),
        None => match inherited {
            Some(feature) => Setting::Inherited(&feature.rendered),
            None => Setting::Unset,
        },
    }
}

/// A parameter may be left out if its type is an `Option`, unless it is declared to be
/// required, and if serde does not miss it.
pub open spec fn has_to_be_given(
    type_tree: &TypeTree,
    demanded: bool,
    serde_required: bool,
) -> bool {
    (demanded || !type_tree.is_option) && serde_required
}

impl<'a> Parameter<'a> {
    /// The name of the field as it stands: its own, or the one that is declared for it.
    pub open spec fn given_name(self) -> Option<Seq<char>> {
        match self.field.ident {
            Some(ident) => Some(ident_text(ident)),
            None => match self.container_attributes.name {
                Some(name) => Some(name@),
                None => None,
            },
        }
    }

    /// The features that the attributes of the field declare.
    pub open spec fn features(self) -> Result<Seq<&'a Feature>, Rejection<'a>> {
        declared(self.field.attrs@, Scope::Field)
    }

    /// The name that serde gives the field.
    pub open spec fn serde_rename(self) -> Option<&'a String> {
        match self.field_serde_params {
            Some(serde) => match &serde.rename {
                Some(name) => Some(name),
                None => None,
            },
            None => None,
        }
    }

    /// The name that takes the place of the name of the field.
    pub open spec fn renamed(self, features: Seq<&'a Feature>) -> Option<&'a String> {
        match rename_of(first_of(parameter_part(features), FeatureKind::Rename)) {
            Some(name) => Some(name),
            None => self.serde_rename(),
        }
    }

    /// The rule by which serde rewrites the names of all fields.
    pub open spec fn serde_rule(self) -> Option<RenameRule> {
        match self.serde_container {
            Some(serde) => serde.rename_all,
            None => None,
        }
    }

    /// The rule by which the name is rewritten: that of serde, or else that of the struct.
    pub open spec fn rename_rule(self) -> Option<RenameRule> {
        match self.serde_rule() {
            Some(rule) => Some(rule),
            None => self.container_attributes.rename_all,
        }
    }

    /// How the schema is made, from the features of the parameter that are left when its
    /// name, its place and its style are settled.
    pub open spec fn schema_plan(
        self,
        left: Seq<&'a Feature>,
        schema_features: Seq<&'a Feature>,
    ) -> SchemaView<'a> {
        let after_with = rest_of(left, FeatureKind::SchemaWith);
        let after_type = rest_of(after_with, FeatureKind::ValueType);
        let type_tree = type_or(
            first_of(after_with, FeatureKind::ValueType),
            &self.field.type_tree,
        );
        match first_of(left, FeatureKind::SchemaWith) {
            Some(feature) => SchemaView::With(&feature.rendered),
            None => SchemaView::Component(
                ComponentView {
                    description: &self.field.description,
                    required: has_to_be_given(
                        type_tree,
                        demanded(first_of(after_type, FeatureKind::Required)),
                        self.field.serde_required,
                    ),
                    features: rest_of(after_type, FeatureKind::Required),
                    type_tree,
                    schema_features,
                },
            ),
        }
    }

    /// What is decided about a parameter that has a name, by the features of its field.
    pub open spec fn decided(self, name: Seq<char>, features: Seq<&'a Feature>) -> PlanView<'a> {
        let all = parameter_part(features);
        let unnamed = rest_of(all, FeatureKind::Rename);
        let unplaced = rest_of(unnamed, FeatureKind::ParameterIn);
        let unstyled = rest_of(unplaced, FeatureKind::Style);
        PlanView {
            name: bare_name(name),
            rename: self.renamed(features),
            rename_all: self.rename_rule(),
            parameter_in: setting(
                place_expression(first_of(unnamed, FeatureKind::ParameterIn)),
                self.container_attributes.default_parameter_in,
            ),
            style: setting(
                style_expression(first_of(unplaced, FeatureKind::Style)),
                self.container_attributes.default_style,
            ),
            deprecated: match &self.field.deprecated {
                Some(expression) => Some(expression),
                None => None,
            },
            schema: self.schema_plan(unstyled, schema_part(features)),
        }
    }

    /// What is decided about the parameter, or why it cannot be one.
    pub open spec fn planned(self) -> Result<PlanView<'a>, Rejection<'a>> {
        match self.given_name() {
            Some(name) => match self.features() {
                Ok(features) => Ok(self.decided(name, features)),
                Err(error) => Err(error),
            },
            None => Err(Rejection::UnnamedField(self.field)),
        }
    }

    /// The code by which a field with this name and these features is read from a request:
    /// `salvo::extract::metadata::Field::new("name").add_source(..).rename(..).serde_rename(..)`
    pub open spec fn extract_code(
        self,
        salvo: Seq<char>,
        name: Seq<char>,
        features: Seq<&'a Feature>,
    ) -> Seq<Tree> {
        let all = parameter_part(features);
        let place = place_of(
            first_of(rest_of(all, FeatureKind::Rename), FeatureKind::ParameterIn),
        );
        let start = field_code(salvo, name);
        let sourced = match place {
            Some(place) => start.call(
                "add_source"@,
                source_code(salvo, place, SourceParser::Smart),
            ),
            None => start,
        };
        let renamed = match rename_of(first_of(all, FeatureKind::Rename)) {
            Some(rename) => sourced.call("rename"@, nothing().string(rename@)),
            None => sourced,
        };
        match self.serde_rename() {
            Some(rename) => renamed.call("serde_rename"@, nothing().string(rename@)),
            None => renamed,
        }
    }
}

/// The code that sets a property: `before.name(expression)`, or what the struct says.
pub open spec fn setting_code(before: Seq<Tree>, name: Seq<char>, setting: Setting) -> Seq<Tree> {
    match setting {
        Setting::Own(expression) => before.call(name, trees(*expression)),
        Setting::Inherited(code) => before.splice(trees(*code)),
        Setting::Unset => before,
    }
}

/// The code of some features, one after the other.
pub open spec fn features_code(before: Seq<Tree>, features: Seq<&Feature>) -> Seq<Tree>
    decreases features.len(),
{
    if features.len() == 0 {
        before
    } else {
        features_code(before, features.drop_last()).splice(trees(features.last().rendered))
    }
}

impl<'a> SchemaView<'a> {
    /// The code that describes the parameter and sets its schema.
    pub open spec fn code(
        self,
        before: Seq<Tree>,
        context: Context,
        rendered: Rendered,
    ) -> Seq<Tree> {
        match self {
            SchemaView::With(expression) => before.call("schema"@, trees(*expression)),
            SchemaView::Component(component) => {
                let described = if component.description@.len() == 0 {
                    before
                } else {
                    before.call("description"@, nothing().string(component.description@))
                };
                let required = described.call(
                    "required"@,
                    if component.required {
                        trees(*context.required)
                    } else {
                        trees(*context.not_required)
                    },
                );
                features_code(required, component.features).call("schema"@, trees(rendered.schema))
            },
        }
    }
}

impl<'a> PlanView<'a> {
    /// The name of the parameter.
    pub open spec fn parameter_name(self, rendered: Rendered) -> Seq<char> {
        match rendered.name {
            Some(name) => name@,
            None => self.name,
        }
    }

    /// The code of the parameter:
    /// `oapi::oapi::parameter::Parameter::new("name").parameter_in(..).style(..).deprecated(..)`
    /// and what its schema adds.
    pub open spec fn code(self, context: Context, rendered: Rendered) -> Seq<Tree> {
        let start = nothing()
            .word(ident_text(*context.oapi))
            .seg("oapi"@)
            .seg("parameter"@)
            .seg("Parameter"@)
            .seg("new"@)
            .paren(nothing().string(self.parameter_name(rendered)));
        let placed = setting_code(start, "parameter_in"@, self.parameter_in);
        let styled = setting_code(placed, "style"@, self.style);
        let marked = match self.deprecated {
            Some(expression) => styled.call("deprecated"@, trees(*expression)),
            None => styled,
        };
        self.schema.code(marked, context, rendered)
    }
}

/// The fixed words of the code are identifiers.
proof fn lemma_words()
    ensures
        plain_word("oapi"@),
        plain_word("parameter"@),
        plain_word("Parameter"@),
        plain_word("new"@),
        plain_word("parameter_in"@),
        plain_word("style"@),
        plain_word("deprecated"@),
        plain_word("schema"@),
        plain_word("description"@),
        plain_word("required"@),
        plain_word("add_source"@),
        plain_word("rename"@),
        plain_word("serde_rename"@),
{
    reveal_strlit("oapi");
    reveal_strlit("parameter");
    reveal_strlit("Parameter");
    reveal_strlit("new");
    reveal_strlit("parameter_in");
    reveal_strlit("style");
    reveal_strlit("deprecated");
    reveal_strlit("schema");
    reveal_strlit("description");
    reveal_strlit("required");
    reveal_strlit("add_source");
    reveal_strlit("rename");
    reveal_strlit("serde_rename");
}

/// Writes the code that sets a property.
fn push_setting(tokens: &mut TokenStream, name: &str, setting: &Setting)
    requires
        plain_word(name@),
    ensures
        trees(*final(tokens)) == setting_code(trees(*old(tokens)), name@, *setting),
{
    match setting {
        Setting::Own(expression) => {
            call(tokens, name, copy_of(expression));
        },
        Setting::Inherited(code) => splice(tokens, code),
        Setting::Unset => {},
    }
}

/// A stream of the same tokens.
fn copy_of(tokens: &TokenStream) -> (copy: TokenStream)
    ensures
        trees(copy) == trees(*tokens),
{
    let mut copy = new_stream();
    splice(&mut copy, tokens);
    assert(nothing() + trees(*tokens) =~= trees(*tokens));
    copy
}

/// A stream of one string literal.
fn literal(value: &str) -> (tokens: TokenStream)
    ensures
        trees(tokens) == nothing().string(value@),
{
    let mut tokens = new_stream();
    string(&mut tokens, value);
    tokens
}

/// What the field sets, or else what the struct sets.
fn own_or<'a>(own: Option<&'a TokenStream>, inherited: Option<&'a Feature>) -> (result: Setting<'a>)
    ensures
        result == setting(own, inherited),
{
    match own {
        Some(expression) => Setting::Own(expression),
        None => match inherited {
            Some(feature) => Setting::Inherited(&feature.rendered),
            None => Setting::Unset,
        },
    }
}

impl<'a> Schema<'a> {
    /// Writes the code that describes the parameter and sets its schema.
    fn to_tokens(&self, context: &Context, rendered: &Rendered, tokens: &mut TokenStream)
        ensures
            trees(*final(tokens)) == self@.code(trees(*old(tokens)), *context, *rendered),
    {
        proof {
            lemma_words();
        }
        match self {
            Schema::With(expression) => call(tokens, "schema", copy_of(expression)),
            Schema::Component(component) => {
                if !component.description.as_str().is_empty() {
                    call(tokens, "description", literal(component.description.as_str()));
                }
                let required: &TokenStream = if component.required {
                    context.required
                } else {
                    context.not_required
                };
                call(tokens, "required", copy_of(required));
                let ghost before = trees(*tokens);
                for i in 0..component.features.len()
                    invariant
                        trees(*tokens) == features_code(before, component.features@.take(i as int)),
                {
                    splice(tokens, &component.features[i].rendered);
                    assert(component.features@.take(i + 1).drop_last()
                        =~= component.features@.take(i as int));
                }
                assert(component.features@.take(component.features@.len() as int)
                    =~= component.features@);
                call(tokens, "schema", copy_of(&rendered.schema));
            },
        }
    }
}

impl<'a> Plan<'a> {
    /// Writes the code of the parameter.
    pub fn to_tokens(&self, context: &Context, rendered: &Rendered) -> (tokens: TokenStream)
        ensures
            trees(tokens) == self@.code(*context, *rendered),
    {
        proof {
            lemma_words();
        }
        let name: &str = match &rendered.name {
            Some(name) => name.as_str(),
            None => self.name.as_str(),
        };
        let mut tokens = new_stream();
        push_ident(&mut tokens, context.oapi);
        seg(&mut tokens, "oapi");
        seg(&mut tokens, "parameter");
        seg(&mut tokens, "Parameter");
        seg(&mut tokens, "new");
        paren(&mut tokens, literal(name));
        push_setting(&mut tokens, "parameter_in", &self.parameter_in);
        push_setting(&mut tokens, "style", &self.style);
        if let Some(expression) = self.deprecated {
            call(&mut tokens, "deprecated", copy_of(expression));
        }
        self.schema.to_tokens(context, rendered, &mut tokens);
        tokens
    }
}

impl<'a> Parameter<'a> {
    /// Collects the features that the attributes of the field declare, and splits them into
    /// those that say something of the schema and those that say something else.
    pub fn resolve_field_features(&self) -> (result: Result<
        (Vec<&'a Feature>, Vec<&'a Feature>),
        Rejection<'a>,
    >)
        ensures
            match result {
                Ok((schema_features, param_features)) => {
                    &&& self.features() is Ok
                    &&& schema_features@ == schema_part(self.features()->Ok_0)
                    &&& param_features@ == parameter_part(self.features()->Ok_0)
                },
                Err(error) => self.features() == Err::<Seq<&Feature>, _>(error),
            },
    {
        let features = match declared_features(&self.field.attrs, Scope::Field) {
            Ok(features) => features,
            Err(error) => return Err(error),
        };
        let mut schema_features: Vec<&'a Feature> = Vec::new();
        let mut param_features: Vec<&'a Feature> = Vec::new();
        proof {
            reveal(Seq::filter);
        }
        for i in 0..features.len()
            invariant
                schema_features@ == schema_part(features@.take(i as int)),
                param_features@ == parameter_part(features@.take(i as int)),
        {
            proof {
                reveal(Seq::filter);
                assert(features@.take(i + 1).drop_last() =~= features@.take(i as int));
            }
            let feature = features[i];
            if feature.kind().is_schema() {
                schema_features.push(feature);
            } else {
                param_features.push(feature);
            }
        }
        assert(features@.take(features@.len() as int) =~= features@);
        Ok((schema_features, param_features))
    }

    /// The name of the field as it stands.
    fn find_name(&self) -> (name: Option<String>)
        ensures
            match name {
                Some(name) => self.given_name() == Some(name@),
                None => self.given_name() is None,
            },
    {
        match &self.field.ident {
            Some(ident) => Some(ident_to_string(ident)),
            None => match self.container_attributes.name {
                Some(name) => Some(name.as_str().to_owned()),
                None => None,
            },
        }
    }

    /// The name that serde gives the field.
    fn find_serde_rename(&self) -> (name: Option<&'a String>)
        ensures
            name == self.serde_rename(),
    {
        match self.field_serde_params {
            Some(serde) => match &serde.rename {
                Some(name) => Some(name),
                None => None,
            },
            None => None,
        }
    }

    /// Decides how the schema is made.
    fn plan_schema(
        &self,
        param_features: Vec<&'a Feature>,
        schema_features: Vec<&'a Feature>,
    ) -> (schema: Schema<'a>)
        ensures
            schema@ == self.schema_plan(param_features@, schema_features@),
    {
        let mut param_features = param_features;
        if let Some(feature) = pop_by(&mut param_features, FeatureKind::SchemaWith) {
            return Schema::With(&feature.rendered);
        }
        let type_tree: &'a TypeTree = match pop_by(&mut param_features, FeatureKind::ValueType) {
            Some(feature) => match &feature.value {
                FeatureValue::ValueType(type_tree) => type_tree,
                _ => &self.field.type_tree,
            },
            None => &self.field.type_tree,
        };
        let demanded: bool = match pop_by(&mut param_features, FeatureKind::Required) {
            Some(feature) => match feature.value {
                FeatureValue::Required(required) => required,
                _ => false,
            },
            None => false,
        };
        let non_required: bool = (type_tree.is_option && !demanded) || !self.field.serde_required;
        Schema::Component(
            Component {
                description: &self.field.description,
                required: !non_required,
                features: param_features,
                type_tree,
                schema_features,
            },
        )
    }

    /// Decides what the parameter is.
    pub fn plan(&self) -> (result: Result<Plan<'a>, Rejection<'a>>)
        ensures
            match result {
                Ok(plan) => self.planned() == Ok::<_, Rejection>(plan@),
                Err(error) => self.planned() == Err::<PlanView, _>(error),
            },
    {
        let given = match self.find_name() {
            Some(name) => name,
            None => return Err(Rejection::UnnamedField(self.field)),
        };
        let name = strip_raw(given.as_str());
        let (schema_features, mut param_features) = match self.resolve_field_features() {
            Ok(parts) => parts,
            Err(error) => return Err(error),
        };
        let own_name: Option<&'a String> = match pop_by(&mut param_features, FeatureKind::Rename) {
            Some(feature) => match &feature.value {
                FeatureValue::Rename(name) => Some(name),
                _ => None,
            },
            None => None,
        };
        let rename = match own_name {
            Some(name) => Some(name),
            None => self.find_serde_rename(),
        };
        let serde_rule: Option<RenameRule> = match self.serde_container {
            Some(serde) => serde.rename_all,
            None => None,
        };
        let rename_all: Option<RenameRule> = match serde_rule {
            Some(rule) => Some(rule),
            None => self.container_attributes.rename_all,
        };
        let place: Option<&'a TokenStream> = match pop_by(
            &mut param_features,
            FeatureKind::ParameterIn,
        ) {
            Some(feature) => match &feature.value {
                FeatureValue::ParameterIn(_, expression) => Some(expression),
                _ => None,
            },
            None => None,
        };
        let style: Option<&'a TokenStream> = match pop_by(&mut param_features, FeatureKind::Style) {
            Some(feature) => match &feature.value {
                FeatureValue::Style(expression) => Some(expression),
                _ => None,
            },
            None => None,
        };
        let deprecated: Option<&'a TokenStream> = match &self.field.deprecated {
            Some(expression) => Some(expression),
            None => None,
        };
        Ok(
            Plan {
                name,
                rename,
                rename_all,
                parameter_in: own_or(place, self.container_attributes.default_parameter_in),
                style: own_or(style, self.container_attributes.default_style),
                deprecated,
                schema: self.plan_schema(param_features, schema_features),
            },
        )
    }

    /// Writes the code of the parameter.
    pub fn to_tokens(
        &self,
        context: &Context,
        rendered: &Rendered,
        tokens: &mut TokenStream,
    ) -> (result: Result<(), Rejection<'a>>)
        ensures
            match self.planned() {
                Ok(plan) => {
                    &&& result is Ok
                    &&& trees(*final(tokens)) == trees(*old(tokens)).splice(
                        plan.code(*context, *rendered),
                    )
                },
                Err(error) => {
                    &&& result == Err::<(), _>(error)
                    &&& trees(*final(tokens)) == trees(*old(tokens))
                },
            },
    {
        match self.plan() {
            Ok(plan) => {
                splice(tokens, &plan.to_tokens(context, rendered));
                Ok(())
            },
            Err(error) => Err(error),
        }
    }

    /// Writes the code by which the field is read from a request.
    pub fn to_extract_field_token_stream(&self, salvo: &Ident) -> (result: Result<
        TokenStream,
        Rejection<'a>,
    >)
        requires
            self.features() is Ok ==> self.field.ident is Some,
        ensures
            match result {
                Ok(tokens) => {
                    &&& self.features() is Ok
                    &&& trees(tokens) == self.extract_code(
                        ident_text(*salvo),
                        ident_text(self.field.ident->Some_0),
                        self.features()->Ok_0,
                    )
                },
                Err(error) => self.features() == Err::<Seq<&Feature>, _>(error),
            },
    {
        proof {
            lemma_words();
        }
        let (_, mut param_features) = match self.resolve_field_features() {
            Ok(parts) => parts,
            Err(error) => return Err(error),
        };
        let name = match &self.field.ident {
            Some(ident) => ident_to_string(ident),
            None => unreached(),
        };
        let rename: Option<&'a String> = match pop_by(&mut param_features, FeatureKind::Rename) {
            Some(feature) => match &feature.value {
                FeatureValue::Rename(name) => Some(name),
                _ => None,
            },
            None => None,
        };
        let mut tokens = quote_field(salvo, name.as_str());
        if let Some(feature) = pop_by(&mut param_features, FeatureKind::ParameterIn) {
            if let FeatureValue::ParameterIn(place, _) = &feature.value {
                let source = quote_source(salvo, *place, SourceParser::Smart);
                call(&mut tokens, "add_source", source);
            }
        }
        if let Some(rename) = rename {
            call(&mut tokens, "rename", literal(rename.as_str()));
        }
        if let Some(rename) = self.find_serde_rename() {
            call(&mut tokens, "serde_rename", literal(rename.as_str()));
        }
        Ok(tokens)
    }
}

} // verus!
