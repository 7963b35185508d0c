use lambda_appsync::filters::{FieldPath, Filter, FilterGroup, FixedVec};

fn parse_json(s: &str) -> serde_json::Value {
    serde_json::from_str(s).unwrap()
}

#[test]
fn test_create_paths() {
    let path = FieldPath::new("user.name").unwrap();
    assert_eq!(path.text(), "user.name");

    let path = FieldPath::new("nested.one.two.three.four.five");
    assert!(path.is_ok());

    let long_path = "a".repeat(257);
    assert!(FieldPath::new(&long_path).is_err());
}

#[test]
fn test_path_length_boundary() {
    let exact = "a".repeat(256);
    assert!(FieldPath::new(&exact).is_ok());
    let over = "a".repeat(257);
    let err = FieldPath::new(&over).unwrap_err();
    assert_eq!(err.error_type, "ValidationError");
    assert_eq!(err.error_message, "Field path exceeds 256 characters");
}

#[test]
fn test_eq_operator() {
    let filter = FieldPath::new("service").unwrap().eq("AWS AppSync");
    assert_eq!(
        parse_json(&filter.to_json()),
        parse_json(r#"{"fieldName":"service","operator":"eq","value":"AWS AppSync"}"#)
    );

    let filter = FieldPath::new("severity").unwrap().eq(5);
    assert_eq!(
        parse_json(&filter.to_json()),
        parse_json(r#"{"fieldName":"severity","operator":"eq","value":5}"#)
    );

    let filter = FieldPath::new("enabled").unwrap().eq(true);
    assert_eq!(
        parse_json(&filter.to_json()),
        parse_json(r#"{"fieldName":"enabled","operator":"eq","value":true}"#)
    );
}

#[test]
fn test_ne_operator() {
    let filter = FieldPath::new("service").unwrap().ne("AWS AppSync");
    assert_eq!(
        parse_json(&filter.to_json()),
        parse_json(r#"{"fieldName":"service","operator":"ne","value":"AWS AppSync"}"#)
    );

    let filter = FieldPath::new("severity").unwrap().ne(5);
    assert_eq!(
        parse_json(&filter.to_json()),
        parse_json(r#"{"fieldName":"severity","operator":"ne","value":5}"#)
    );

    let filter = FieldPath::new("enabled").unwrap().ne(true);
    assert_eq!(
        parse_json(&filter.to_json()),
        parse_json(r#"{"fieldName":"enabled","operator":"ne","value":true}"#)
    );
}

#[test]
fn test_comparison_operators() {
    let path = FieldPath::new("size").unwrap();

    let filter = path.clone().le(5);
    assert_eq!(
        parse_json(&filter.to_json()),
        parse_json(r#"{"fieldName":"size","operator":"le","value":5}"#)
    );

    let filter = path.clone().lt(5);
    assert_eq!(
        parse_json(&filter.to_json()),
        parse_json(r#"{"fieldName":"size","operator":"lt","value":5}"#)
    );

    let filter = path.clone().ge(5);
    assert_eq!(
        parse_json(&filter.to_json()),
        parse_json(r#"{"fieldName":"size","operator":"ge","value":5}"#)
    );

    let filter = path.gt(5);
    assert_eq!(
        parse_json(&filter.to_json()),
        parse_json(r#"{"fieldName":"size","operator":"gt","value":5}"#)
    );
}

#[test]
fn test_contains_operators() {
    let path = FieldPath::new("seats").unwrap();

    let filter = path.clone().contains(10);
    assert_eq!(
        parse_json(&filter.to_json()),
        parse_json(r#"{"fieldName":"seats","operator":"contains","value":10}"#)
    );

    let event_path = FieldPath::new("event").unwrap();
    let filter = event_path.contains("launch");
    assert_eq!(
        parse_json(&filter.to_json()),
        parse_json(r#"{"fieldName":"event","operator":"contains","value":"launch"}"#)
    );

    let filter = path.not_contains(10);
    assert_eq!(
        parse_json(&filter.to_json()),
        parse_json(r#"{"fieldName":"seats","operator":"notContains","value":10}"#)
    );
}

#[test]
fn test_begins_with() {
    let filter = FieldPath::new("service").unwrap().begins_with("AWS");
    assert_eq!(
        parse_json(&filter.to_json()),
        parse_json(r#"{"fieldName":"service","operator":"beginsWith","value":"AWS"}"#)
    );
}

#[test]
fn test_in_operators() {
    let path = FieldPath::new("severity").unwrap();

    let filter = path.clone().in_values(FixedVec::from_vec(vec![1, 2, 3]).unwrap());
    assert_eq!(
        parse_json(&filter.to_json()),
        parse_json(r#"{"fieldName":"severity","operator":"in","value":[1,2,3]}"#)
    );

    let filter = path.not_in(FixedVec::from_vec(vec![1, 2, 3]).unwrap());
    assert_eq!(
        parse_json(&filter.to_json()),
        parse_json(r#"{"fieldName":"severity","operator":"notIn","value":[1,2,3]}"#)
    );
}

#[test]
fn test_between() {
    let filter = FieldPath::new("severity").unwrap().between(1, 5);
    assert_eq!(
        parse_json(&filter.to_json()),
        parse_json(r#"{"fieldName":"severity","operator":"between","value":[1,5]}"#)
    );
}

#[test]
fn test_contains_any() {
    let filter = FieldPath::new("seats")
        .unwrap()
        .contains_any(FixedVec::from_vec(vec![10, 15, 20]).unwrap());
    assert_eq!(
        parse_json(&filter.to_json()),
        parse_json(r#"{"fieldName":"seats","operator":"containsAny","value":[10,15,20]}"#)
    );
}

#[test]
fn test_filter_group() {
    let group = FilterGroup::from_vec(vec![Filter::from_vec(vec![
        FieldPath::new("userId").unwrap().eq(1),
        FieldPath::new("group")
            .unwrap()
            .in_values(FixedVec::from_vec(vec!["Admin", "Developer"]).unwrap()),
    ])
    .unwrap()])
    .unwrap();

    assert_eq!(
        parse_json(&group.to_json()),
        parse_json(
            r#"{
            "filterGroup": [
                {
                    "filters": [
                        {"fieldName": "userId", "operator": "eq", "value": 1},
                        {"fieldName": "group", "operator": "in", "value": ["Admin", "Developer"]}
                    ]
                }
            ]
        }"#
        )
    );
}

#[test]
fn test_complex_filter() {
    let group = FilterGroup::from_vec(vec![
        Filter::from_vec(vec![
            FieldPath::new("severity").unwrap().le(3),
            FieldPath::new("type").unwrap().eq("error"),
        ])
        .unwrap(),
        Filter::from_vec(vec![
            FieldPath::new("service").unwrap().begins_with("AWS"),
            FieldPath::new("region")
                .unwrap()
                .in_values(FixedVec::from_vec(vec!["us-east-1", "eu-west-1"]).unwrap()),
        ])
        .unwrap(),
    ])
    .unwrap();

    assert_eq!(
        parse_json(&group.to_json()),
        parse_json(
            r#"{
            "filterGroup": [
                {
                    "filters": [
                        {"fieldName": "severity", "operator": "le", "value": 3},
                        {"fieldName": "type", "operator": "eq", "value": "error"}
                    ]
                },
                {
                    "filters": [
                        {"fieldName": "service", "operator": "beginsWith", "value": "AWS"},
                        {"fieldName": "region", "operator": "in", "value": ["us-east-1", "eu-west-1"]}
                    ]
                }
            ]
        }"#
        )
    );
}

#[test]
fn test_string_escaping_in_filter_values() {
    let filter = FieldPath::new("note").unwrap().eq("a \"quoted\"\\\nvalue\ttab");
    assert_eq!(
        parse_json(&filter.to_json()),
        parse_json(r#"{"fieldName":"note","operator":"eq","value":"a \"quoted\"\\\nvalue\ttab"}"#)
    );
}

#[test]
fn test_negative_and_large_numbers() {
    let filter = FieldPath::new("delta").unwrap().eq(-42i64);
    assert_eq!(filter.to_json(), r#"{"fieldName":"delta","operator":"eq","value":-42}"#);

    let filter = FieldPath::new("min").unwrap().eq(i64::MIN);
    assert_eq!(
        filter.to_json(),
        r#"{"fieldName":"min","operator":"eq","value":-9223372036854775808}"#
    );

    let filter = FieldPath::new("max").unwrap().eq(u64::MAX);
    assert_eq!(
        filter.to_json(),
        r#"{"fieldName":"max","operator":"eq","value":18446744073709551615}"#
    );
}

#[test]
fn test_fixed_vec_bounds() {
    let ok: Option<FixedVec<i32, 5>> = FixedVec::from_vec(vec![1, 2, 3, 4, 5]);
    assert!(ok.is_some());
    let over: Option<FixedVec<i32, 5>> = FixedVec::from_vec(vec![1, 2, 3, 4, 5, 6]);
    assert!(over.is_none());
    let twenty: Option<FixedVec<i32, 20>> = FixedVec::from_vec((0..20).collect());
    assert!(twenty.is_some());
    let over20: Option<FixedVec<i32, 20>> = FixedVec::from_vec((0..21).collect());
    assert!(over20.is_none());
}

#[test]
fn test_from_fixed_vec() {
    let filter: Filter =
        FixedVec::from_vec(vec![FieldPath::new("a").unwrap().eq(1)]).unwrap().into();
    let group: FilterGroup = FixedVec::from_vec(vec![filter]).unwrap().into();
    assert_eq!(
        parse_json(&group.to_json()),
        parse_json(r#"{"filterGroup":[{"filters":[{"fieldName":"a","operator":"eq","value":1}]}]}"#)
    );
}

#[test]
fn test_single_wrappers() {
    let group = FilterGroup::single(Filter::single(FieldPath::new("name").unwrap().eq("x")));
    assert_eq!(
        parse_json(&group.to_json()),
        parse_json(
            r#"{"filterGroup":[{"filters":[{"fieldName":"name","operator":"eq","value":"x"}]}]}"#
        )
    );
}
