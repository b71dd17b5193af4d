use proc_macro2::TokenStream;
use to_parameters::feature::{
    pop_by, Feature, FeatureEntry, FeatureKind, FeatureValue, FieldFeatures, ParameterIn,
    RenameRule, Scope, ToParametersFeatures, TypeTree,
};
use to_parameters::text::{strip_raw, to_decimal};

fn feature(value: FeatureValue) -> Feature {
    Feature { value, rendered: TokenStream::new() }
}

fn entries(values: Vec<FeatureValue>) -> Vec<FeatureEntry> {
    values.into_iter().map(|value| FeatureEntry::Parsed(feature(value))).collect()
}

fn of_containers() -> Vec<FeatureValue> {
    vec![
        FeatureValue::DefaultStyle,
        FeatureValue::DefaultParameterIn(ParameterIn::Query),
        FeatureValue::ToParametersNames(vec![]),
        FeatureValue::RenameAll(RenameRule::SnakeCase),
    ]
}

fn of_parameters() -> Vec<FeatureValue> {
    vec![
        FeatureValue::ValueType(TypeTree { is_option: false, ty: TokenStream::new() }),
        FeatureValue::Rename("x".to_string()),
        FeatureValue::Style(TokenStream::new()),
        FeatureValue::ParameterIn(ParameterIn::Path, TokenStream::new()),
        FeatureValue::AllowReserved,
        FeatureValue::Example,
        FeatureValue::Explode,
        FeatureValue::SchemaWith,
        FeatureValue::Required(true),
    ]
}

fn of_schemas() -> Vec<FeatureValue> {
    vec![
        FeatureValue::Inline,
        FeatureValue::Format,
        FeatureValue::Default,
        FeatureValue::WriteOnly,
        FeatureValue::ReadOnly,
        FeatureValue::Nullable,
        FeatureValue::XmlAttr,
        FeatureValue::MultipleOf,
        FeatureValue::Maximum,
        FeatureValue::Minimum,
        FeatureValue::ExclusiveMaximum,
        FeatureValue::ExclusiveMinimum,
        FeatureValue::MaxLength,
        FeatureValue::MinLength,
        FeatureValue::Pattern,
        FeatureValue::MaxItems,
        FeatureValue::MinItems,
        FeatureValue::AdditionalProperties,
    ]
}

#[test]
fn every_feature_has_one_place() {
    for value in of_containers() {
        let kind = feature(value).kind();
        assert!(kind.is_allowed_in(Scope::Container));
        assert!(!kind.is_allowed_in(Scope::Field));
        assert!(!kind.is_schema());
    }
    for value in of_parameters() {
        let kind = feature(value).kind();
        assert!(!kind.is_allowed_in(Scope::Container));
        assert!(kind.is_allowed_in(Scope::Field));
        assert!(!kind.is_schema());
    }
    for value in of_schemas() {
        let kind = feature(value).kind();
        assert!(!kind.is_allowed_in(Scope::Container));
        assert!(kind.is_allowed_in(Scope::Field));
        assert!(kind.is_schema());
    }
}

#[test]
fn lists_keep_their_order() {
    let list = entries(of_containers());
    match ToParametersFeatures::parse(&list) {
        Ok(features) => {
            let kinds: Vec<FeatureKind> = features.into_inner().iter().map(|f| f.kind()).collect();
            assert_eq!(
                kinds,
                vec![
                    FeatureKind::DefaultStyle,
                    FeatureKind::DefaultParameterIn,
                    FeatureKind::ToParametersNames,
                    FeatureKind::RenameAll,
                ]
            );
        }
        Err(_) => panic!("rejected"),
    }
    let mut all = of_schemas();
    all.extend(of_parameters());
    let list = entries(all);
    match FieldFeatures::parse(&list) {
        Ok(features) => {
            let features = features.into_inner();
            assert_eq!(features.len(), 27);
            assert_eq!(features[0].kind(), FeatureKind::Inline);
            assert_eq!(features[26].kind(), FeatureKind::Required);
        }
        Err(_) => panic!("rejected"),
    }
    assert!(FieldFeatures::parse(&entries(of_containers())).is_err());
    assert!(ToParametersFeatures::parse(&list).is_err());
}

#[test]
fn popping_takes_the_first_of_a_kind() {
    let all = vec![
        feature(FeatureValue::Example),
        feature(FeatureValue::Rename("first".to_string())),
        feature(FeatureValue::Explode),
        feature(FeatureValue::Rename("second".to_string())),
        feature(FeatureValue::AllowReserved),
    ];
    let mut features: Vec<&Feature> = all.iter().collect();
    match pop_by(&mut features, FeatureKind::Rename) {
        Some(Feature { value: FeatureValue::Rename(name), .. }) => assert_eq!(name, "first"),
        _ => panic!("not found"),
    }
    let kinds: Vec<FeatureKind> = features.iter().map(|f| f.kind()).collect();
    assert_eq!(
        kinds,
        vec![
            FeatureKind::Example,
            FeatureKind::AllowReserved,
            FeatureKind::Explode,
            FeatureKind::Rename,
        ]
    );
    assert!(pop_by(&mut features, FeatureKind::Style).is_none());
    assert_eq!(features.len(), 4);
    assert!(pop_by(&mut features, FeatureKind::Rename).is_some());
    assert!(pop_by(&mut features, FeatureKind::Rename).is_none());
    assert_eq!(features.len(), 3);
}

#[test]
fn raw_mark() {
    assert_eq!(strip_raw("r#type"), "type");
    assert_eq!(strip_raw("r#r#x"), "r#x");
    assert_eq!(strip_raw("r"), "r");
    assert_eq!(strip_raw("r_x"), "r_x");
    assert_eq!(strip_raw("r#"), "");
    assert_eq!(strip_raw(""), "");
    assert_eq!(strip_raw("r#\u{fc}ber"), "\u{fc}ber");
}

#[test]
fn decimals() {
    assert_eq!(to_decimal(0), "0");
    assert_eq!(to_decimal(9), "9");
    assert_eq!(to_decimal(10), "10");
    assert_eq!(to_decimal(1234567890), "1234567890");
    assert_eq!(to_decimal(usize::MAX), usize::MAX.to_string());
}
