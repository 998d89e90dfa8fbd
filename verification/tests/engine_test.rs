use rustiles::engine::filter_matches;
use rustiles::engine::matches_pattern;
use rustiles::engine::road_class_filter;
use rustiles::engine::eval;
use rustiles::engine::EvalError;
use rustiles::engine::Value;
use rustiles::style::StringOrNumberOrSequenceOrBool as Expr;
use rustiles::tile::expression_get;
use rustiles::tile::Coord;
use rustiles::tile::Feature;
use rustiles::tile::Geometry;
use rustiles::tile::PropertyValue;

fn s(text: &str) -> Expr {
    Expr::String(String::from(text))
}

fn feature_with(props: Option<Vec<(String, PropertyValue)>>) -> Feature {
    Feature { geometry: Geometry::Point(Coord { x: 0, y: 0 }), properties: props }
}

fn feature_with_class(class: &str) -> Feature {
    feature_with(Some(vec![(
        String::from("class"),
        PropertyValue::Str(String::from(class)),
    )]))
}

fn get_expr(name: &str) -> Expr {
    Expr::Sequence(vec![s("get"), s(name)])
}

#[test]
fn expression_get_retrieves_class() {
    let mut properties = Vec::<(String, PropertyValue)>::new();
    properties.push(("class".to_string(), PropertyValue::Str("minor".to_string())));

    let feature = Feature {
        geometry: Geometry::Point(Coord { x: 0, y: 0 }),
        properties: Some(properties),
    };

    let result = expression_get(&"class".to_string(), &feature);
    assert_eq!(result, Some("minor".to_string()));
}

#[test]
fn get_of_absent_attribute_is_missing() {
    let f = feature_with_class("minor");
    let props = f.properties.clone().unwrap();
    assert_eq!(eval(&get_expr("name"), &props), Ok(Value::Missing));
    assert_eq!(
        eval(&get_expr("class"), &props),
        Ok(Value::Str(String::from("minor")))
    );
}

#[test]
fn equality_of_missing_is_never_true() {
    let props = Vec::new();
    let eq_missing = Expr::Sequence(vec![s("=="), get_expr("a"), get_expr("b")]);
    assert_eq!(eval(&eq_missing, &props), Ok(Value::Bool(false)));
    let ne_missing = Expr::Sequence(vec![s("!="), get_expr("a"), s("x")]);
    assert_eq!(eval(&ne_missing, &props), Ok(Value::Bool(true)));
}

#[test]
fn equality_compares_typed_values() {
    let props = vec![(String::from("lanes"), PropertyValue::Num(2))];
    let eq = Expr::Sequence(vec![s("=="), get_expr("lanes"), Expr::Number(2)]);
    assert_eq!(eval(&eq, &props), Ok(Value::Bool(true)));
    let cross_type = Expr::Sequence(vec![s("=="), get_expr("lanes"), s("2")]);
    assert_eq!(eval(&cross_type, &props), Ok(Value::Bool(false)));
}

#[test]
fn in_tests_membership_of_first_operand() {
    let props = vec![(String::from("class"), PropertyValue::Str(String::from("track")))];
    let hit = Expr::Sequence(vec![s("in"), get_expr("class"), s("minor"), s("track")]);
    assert_eq!(eval(&hit, &props), Ok(Value::Bool(true)));
    let miss = Expr::Sequence(vec![s("in"), get_expr("class"), s("minor"), s("trunk")]);
    assert_eq!(eval(&miss, &props), Ok(Value::Bool(false)));
}

#[test]
fn boolean_combinators_combine_and_short_circuit() {
    let props = Vec::new();
    let all_true = Expr::Sequence(vec![s("all"), Expr::Bool(true), Expr::Bool(true)]);
    assert_eq!(eval(&all_true, &props), Ok(Value::Bool(true)));
    let any_true = Expr::Sequence(vec![s("any"), Expr::Bool(false), Expr::Bool(true)]);
    assert_eq!(eval(&any_true, &props), Ok(Value::Bool(true)));
    let none_true = Expr::Sequence(vec![s("none"), Expr::Bool(false), Expr::Bool(false)]);
    assert_eq!(eval(&none_true, &props), Ok(Value::Bool(true)));
    let short_circuit = Expr::Sequence(vec![s("all"), Expr::Bool(false), Expr::Number(5)]);
    assert_eq!(eval(&short_circuit, &props), Ok(Value::Bool(false)));
    let reaches_mismatch = Expr::Sequence(vec![s("all"), Expr::Bool(true), Expr::Number(5)]);
    assert_eq!(eval(&reaches_mismatch, &props), Err(EvalError::TypeMismatch));
}

#[test]
fn malformed_expressions_have_typed_errors() {
    let props = Vec::new();
    assert_eq!(
        eval(&Expr::Sequence(Vec::new()), &props),
        Err(EvalError::EmptyExpression)
    );
    assert_eq!(
        eval(&Expr::Sequence(vec![Expr::Number(1)]), &props),
        Err(EvalError::NotAnOperator)
    );
    assert_eq!(
        eval(&Expr::Sequence(vec![s("within")]), &props),
        Err(EvalError::UnknownOperator)
    );
    assert_eq!(
        eval(&Expr::Sequence(vec![s("get")]), &props),
        Err(EvalError::WrongArity)
    );
    assert_eq!(
        eval(&Expr::Sequence(vec![s("get"), Expr::Number(3)]), &props),
        Err(EvalError::TypeMismatch)
    );
}

#[test]
fn bare_literals_match_by_truthiness() {
    let f = feature_with(None);
    assert_eq!(filter_matches(&Expr::Bool(true), &f), Ok(true));
    assert_eq!(filter_matches(&Expr::Bool(false), &f), Ok(false));
    assert_eq!(filter_matches(&Expr::Number(0), &f), Ok(false));
    assert_eq!(filter_matches(&Expr::Number(7), &f), Ok(true));
    assert_eq!(filter_matches(&s(""), &f), Ok(false));
    assert_eq!(filter_matches(&s("x"), &f), Ok(true));
}

#[test]
fn road_classification_agrees_with_in_filter() {
    let filter = road_class_filter();
    let cases = [
        "motorway", "trunk", "primary", "secondary", "tertiary", "minor", "track",
        "residential", "footway", "",
    ];
    for class in cases {
        let f = feature_with_class(class);
        assert_eq!(
            filter_matches(&filter, &f),
            Ok(matches_pattern(&f)),
            "class {:?} classified differently",
            class
        );
    }
    let missing = feature_with(None);
    assert_eq!(filter_matches(&filter, &missing), Ok(false));
    assert_eq!(matches_pattern(&missing), false);
    let numeric = feature_with(Some(vec![(String::from("class"), PropertyValue::Num(3))]));
    assert_eq!(filter_matches(&filter, &numeric), Ok(false));
    assert_eq!(matches_pattern(&numeric), false);
}

#[test]
fn road_classification_accepts_exactly_the_fixed_set() {
    for class in ["motorway", "trunk", "primary", "secondary", "tertiary", "minor", "track"] {
        assert!(matches_pattern(&feature_with_class(class)), "{}", class);
    }
    for class in ["residential", "Motorway", "pedestrian", "tracks"] {
        assert!(!matches_pattern(&feature_with_class(class)), "{}", class);
    }
}
