use springql_core::error::{SpringError, SqlError};
use springql_core::field::{
    AliasedCorrelationName, AliasedFieldName, Expression, FieldName, FieldPointer,
    FromItemSyntax, SelectFieldSyntax, SelectStreamSyntax, SelectSyntaxAnalyzer,
};

fn factory_sn(name: &str) -> AliasedCorrelationName {
    AliasedCorrelationName { correlation_name: name.to_string(), correlation_alias: None }
}

fn with_alias(corr: AliasedCorrelationName, alias: &str) -> AliasedCorrelationName {
    AliasedCorrelationName { correlation_alias: Some(alias.to_string()), ..corr }
}

fn field_factory(corr: &str, attr: &str) -> FieldName {
    FieldName::new(factory_sn(corr), attr.to_string())
}

fn with_corr_alias(field: FieldName, alias: &str) -> FieldName {
    FieldName::new(with_alias(field.aliased_correlation_name, alias), field.attribute_name)
}

fn sql_err() -> SpringError {
    SpringError::Sql(SqlError::UnknownCorrelation { prefix: String::new(), attr: String::new() })
}

struct TestDatum {
    index: FieldPointer,
    from_item_correlations: Vec<AliasedCorrelationName>,
    expected_result: Result<FieldName, SpringError>,
}

impl TestDatum {
    fn new(
        index: FieldPointer,
        from_item_correlations: Vec<AliasedCorrelationName>,
        expected_result: Result<FieldName, SpringError>,
    ) -> Self {
        TestDatum { index, from_item_correlations, expected_result }
    }
}

#[test]
fn test_column_reference() {
    let test_data: Vec<TestDatum> = vec![
        TestDatum::new(
            FieldPointer::from("c"),
            vec![factory_sn("t")],
            Ok(field_factory("t", "c")),
        ),
        TestDatum::new(
            FieldPointer::from("t.c"),
            vec![factory_sn("t")],
            Ok(field_factory("t", "c")),
        ),
        TestDatum::new(FieldPointer::from("t1.c"), vec![factory_sn("t2")], Err(sql_err())),
        TestDatum::new(
            FieldPointer::from("c"),
            vec![with_alias(factory_sn("t"), "a")],
            Ok(with_corr_alias(field_factory("t", "c"), "a")),
        ),
        TestDatum::new(
            FieldPointer::from("t.c"),
            vec![with_alias(factory_sn("t"), "a")],
            Ok(with_corr_alias(field_factory("t", "c"), "a")),
        ),
        TestDatum::new(
            FieldPointer::from("a.c"),
            vec![with_alias(factory_sn("t"), "a")],
            Ok(with_corr_alias(field_factory("t", "c"), "a")),
        ),
        TestDatum::new(
            FieldPointer::from("x.c"),
            vec![with_alias(factory_sn("t"), "a")],
            Err(sql_err()),
        ),
    ];

    for test_datum in test_data {
        match SelectSyntaxAnalyzer::field_name(
            &test_datum.index,
            &test_datum.from_item_correlations,
        ) {
            Ok(field_name) => {
                assert_eq!(field_name, test_datum.expected_result.unwrap())
            }
            Err(e) => {
                assert!(matches!(e, SpringError::Sql(_)))
            }
        }
    }
}

#[test]
fn field_pointer_splits_at_the_dot() {
    assert_eq!(
        FieldPointer::from("t.c"),
        FieldPointer { prefix: Some("t".to_string()), attr: "c".to_string() }
    );
    assert_eq!(FieldPointer::from("col"), FieldPointer { prefix: None, attr: "col".to_string() });
    assert_eq!(FieldPointer::from(".c"), FieldPointer { prefix: Some(String::new()), attr: "c".to_string() });
}

#[test]
fn unknown_prefix_names_prefix_and_attribute() {
    let r = SelectSyntaxAnalyzer::field_name(&FieldPointer::from("x.c"), &[factory_sn("t")]);
    assert_eq!(
        r,
        Err(SpringError::Sql(SqlError::UnknownCorrelation {
            prefix: "x".to_string(),
            attr: "c".to_string()
        }))
    );
}

#[test]
fn unprefixed_column_with_two_streams_is_ambiguous() {
    let r = SelectSyntaxAnalyzer::field_name(
        &FieldPointer::from("c"),
        &[factory_sn("t"), factory_sn("u")],
    );
    assert_eq!(r, Err(SpringError::Sql(SqlError::AmbiguousColumn { attr: "c".to_string() })));
}

#[test]
fn prefix_takes_the_first_matching_correlation() {
    // `u` is the alias of the first stream and the name of the second
    let corrs = vec![with_alias(factory_sn("t"), "u"), factory_sn("u")];
    let r = SelectSyntaxAnalyzer::field_name(&FieldPointer::from("u.c"), &corrs).unwrap();
    assert_eq!(r, with_corr_alias(field_factory("t", "c"), "u"));
}

fn select_field(pointer: &str, alias: Option<&str>) -> SelectFieldSyntax {
    SelectFieldSyntax {
        expression: Expression::FieldPointer(FieldPointer::from(pointer)),
        alias: alias.map(|a| a.to_string()),
    }
}

#[test]
fn projection_resolves_each_field_in_order() {
    let analyzer = SelectSyntaxAnalyzer::new(SelectStreamSyntax {
        fields: vec![select_field("t.c", Some("x")), select_field("d", None)],
        from_item: FromItemSyntax::StreamVariant { stream_name: "t".to_string(), alias: None },
    });
    let r = analyzer.aliased_field_names_in_projection().unwrap();
    assert_eq!(
        r,
        vec![
            AliasedFieldName::new(field_factory("t", "c"), Some("x".to_string())),
            AliasedFieldName::new(field_factory("t", "d"), None),
        ]
    );
}

#[test]
fn projection_fails_with_the_first_unresolved_field() {
    let analyzer = SelectSyntaxAnalyzer::new(SelectStreamSyntax {
        fields: vec![select_field("t.c", None), select_field("c", None), select_field("z.c", None)],
        from_item: FromItemSyntax::JoinVariant {
            left: Box::new(FromItemSyntax::StreamVariant { stream_name: "t".to_string(), alias: None }),
            right: Box::new(FromItemSyntax::StreamVariant {
                stream_name: "u".to_string(),
                alias: Some("v".to_string()),
            }),
        },
    });
    assert_eq!(
        analyzer.from_item_correlations(),
        vec![factory_sn("t"), with_alias(factory_sn("u"), "v")]
    );
    let r = analyzer.aliased_field_names_in_projection();
    assert_eq!(r, Err(SpringError::Sql(SqlError::AmbiguousColumn { attr: "c".to_string() })));
}

#[test]
fn aliased_field_matches_by_prefix_and_alias() {
    let afn = AliasedFieldName::new(
        with_corr_alias(field_factory("t", "c"), "a"),
        Some("x".to_string()),
    );
    assert!(afn.matches(&FieldPointer::from("t.c")));
    assert!(afn.matches(&FieldPointer::from("a.x")));
    assert!(afn.matches(&FieldPointer::from("c")));
    assert!(!afn.matches(&FieldPointer::from("b.c")));
    assert!(!afn.matches(&FieldPointer::from("t.d")));
}
