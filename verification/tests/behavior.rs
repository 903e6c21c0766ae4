use smart_service::collections::{Array, Dict};
use smart_service::document::parse_document;
use smart_service::enums::{RoleHierarchy, Scope, VisType};
use smart_service::errors::ParseError;
use smart_service::records::{Roles, Service, Version};
use smart_service::scalars::{Boolean, DateTime, Integer, Text, Uri};

fn complete(extra_sections: &str) -> String {
    format!(
        "service:\n    name is S\n    version is 1.0.0\ndata_sources:\napplication:\ndeployment:\n{}",
        extra_sections
    )
}

#[test]
fn version_round_trip_concrete() {
    let raw = "service:\n    name is N\n    version is 123.456.789\n";
    let (_, service) = Service::parse(raw).expect("service should parse");
    assert_eq!(service.version, Version::new(123, 456, 789));
}

#[test]
fn scope_exact_keyword_yields_variant() {
    let raw = "service:\n    name is N\n    version is 0.0.1\n    scope is Energy\n";
    let (_, service) = Service::parse(raw).expect("service should parse");
    assert_eq!(service.scope, Scope::Energy);
}

#[test]
fn scope_unknown_keyword_falls_back_to_default() {
    let raw = "service:\n    name is N\n    version is 0.0.1\n    scope is Sorcery\n";
    let (_, service) = Service::parse(raw).expect("service should parse");
    assert_eq!(service.scope, Scope::Service);
}

#[test]
fn scope_absent_falls_back_to_default() {
    let raw = "service:\n    name is N\n    version is 0.0.1\n";
    let (_, service) = Service::parse(raw).expect("service should parse");
    assert_eq!(service.scope, Scope::Service);
}

#[test]
fn unknown_role_word_is_unknown_variant() {
    let raw = "service:\n    name is S\n    version is 1.0.0\ndata_sources:\napplication:\n    roles:\n        Wizard\ndeployment:\n";
    let errs = parse_document(raw).expect_err("unknown role must fail");
    assert!(matches!(
        &errs[0],
        ParseError::UnknownVariant { kind, text } if kind == "Roles" && text == "Wizard"
    ));
}

#[test]
fn custom_role_block() {
    let raw = "service:\n    name is S\n    version is 1.0.0\ndata_sources:\napplication:\n    roles:\n        User\n        operator:\n            hierarchy is Admin\ndeployment:\n";
    let doc = parse_document(raw).expect("document should parse");
    assert_eq!(doc.application.roles.0.len(), 2);
    assert_eq!(doc.application.roles.0[0], Roles::User);
    match &doc.application.roles.0[1] {
        Roles::Custom(role) => {
            assert_eq!(role.name, Text("operator".into()));
            assert_eq!(role.hierarchy, RoleHierarchy::Admin);
        },
        other => panic!("expected a custom role, got {:?}", other),
    }
}

#[test]
fn dedent_mismatch_between_depths() {
    let raw = "top:\n        deep\n    neither\n";
    let errs = parse_document(raw).expect_err("mismatched dedent must fail");
    assert_eq!(errs.len(), 1);
    assert!(matches!(errs[0], ParseError::DedentMismatch { line: 3 }));
}

#[test]
fn tab_indentation_is_malformed() {
    let raw = "service:\n\tname is S\n";
    let errs = parse_document(raw).expect_err("tab indentation must fail");
    assert_eq!(errs.len(), 1);
    assert!(matches!(errs[0], ParseError::MalformedIndentation { line: 2 }));
}

#[test]
fn blank_and_comment_only_source_is_empty() {
    let raw = "\n   \n# only a comment\n";
    let errs = parse_document(raw).expect_err("empty document must fail");
    assert_eq!(errs.len(), 1);
    assert!(matches!(errs[0], ParseError::EmptyDocument));
}

#[test]
fn missing_sections_are_all_reported() {
    let raw = "service:\n    name is Test Service\n    version is 2.3.4\n    scope is Energy\n";
    let errs = parse_document(raw).expect_err("incomplete document must fail");
    assert_eq!(errs.len(), 1);
    match &errs[0] {
        ParseError::IncompleteDocument { missing_sections } => {
            let names: Vec<&str> = missing_sections.iter().map(|s| s.as_str()).collect();
            assert_eq!(names, vec!["data_sources", "application", "deployment"]);
        },
        other => panic!("expected IncompleteDocument, got {:?}", other),
    }
}

#[test]
fn missing_service_and_deployment_both_reported() {
    let raw = "data_sources:\napplication:\n";
    let errs = parse_document(raw).expect_err("incomplete document must fail");
    assert_eq!(errs.len(), 1);
    match &errs[0] {
        ParseError::IncompleteDocument { missing_sections } => {
            let names: Vec<&str> = missing_sections.iter().map(|s| s.as_str()).collect();
            assert_eq!(names, vec!["service", "deployment"]);
        },
        other => panic!("expected IncompleteDocument, got {:?}", other),
    }
}

#[test]
fn extra_map_last_write_wins() {
    let raw = "service:\n    name is S\n    version is 1.0.0\ndata_sources:\napplication:\n    visualizations:\n        v:\n            source is m\n            extra:\n                area is Graz\n                area is Madrid\ndeployment:\n";
    let doc = parse_document(raw).expect("document should parse");
    let vis = doc.application.visualizations.get("v").expect("vis should be present");
    let extra = vis.extra.as_ref().expect("extra should be present");
    assert_eq!(extra.get("area"), Some(&Text("Madrid".into())));
    assert_eq!(extra.len(), 1);
}

#[test]
fn duplicate_measurement_name_keeps_latest() {
    let raw = "service:\n    name is S\n    version is 1.0.0\ndata_sources:\n    m:\n        provider is Fiware\n    m:\n        provider is Fotec\napplication:\ndeployment:\n";
    let doc = parse_document(raw).expect("document should parse");
    assert_eq!(doc.data_sources.measurements.len(), 1);
    let m = doc.data_sources.measurements.get("m").expect("measurement should be present");
    assert_eq!(m.provider, smart_service::enums::Provider::Fotec);
}

#[test]
fn dict_insert_is_idempotent_on_key() {
    let mut d: Dict<Integer> = Dict::new();
    d.insert(Text("k".into()), Integer(1));
    d.insert(Text("k".into()), Integer(2));
    assert_eq!(d.len(), 1);
    assert_eq!(d.get("k"), Some(&Integer(2)));
}

#[test]
fn array_push_keeps_duplicates_and_order() {
    let mut a: Array<Integer> = Array::new(Vec::new());
    a.push(Integer(7));
    a.push(Integer(7));
    a.push(Integer(3));
    assert_eq!(a.len(), 3);
    assert_eq!(a.get(0), Some(&Integer(7)));
    assert_eq!(a.get(1), Some(&Integer(7)));
    assert_eq!(a.get(2), Some(&Integer(3)));
    assert_eq!(a.get(3), None);
}

#[test]
fn duplicate_scalar_field_is_an_error() {
    let raw = "service:\n    name is A\n    name is B\n    version is 1.0.0\n";
    let err = Service::parse(raw).expect_err("duplicate field must fail");
    assert!(matches!(
        &err,
        ParseError::DuplicateField { record, field, line: 3 }
            if record == "service" && field == "name"
    ));
}

#[test]
fn missing_required_field_is_reported() {
    let raw = "service:\n    name is A\n";
    let err = Service::parse(raw).expect_err("missing version must fail");
    assert!(matches!(
        &err,
        ParseError::MissingField { record, field, line: 1 }
            if record == "service" && field == "version"
    ));
}

#[test]
fn missing_vis_source_is_reported() {
    let raw = "service:\n    name is S\n    version is 1.0.0\ndata_sources:\napplication:\n    visualizations:\n        v:\n            type is Bar\ndeployment:\n";
    let errs = parse_document(raw).expect_err("missing source must fail");
    assert!(matches!(
        &errs[0],
        ParseError::MissingField { record, field, .. } if record == "vis" && field == "source"
    ));
}

#[test]
fn missing_port_is_reported() {
    let raw = "service:\n    name is S\n    version is 1.0.0\ndata_sources:\napplication:\ndeployment:\n    local:\n        type is Swarm\n";
    let errs = parse_document(raw).expect_err("missing port must fail");
    assert!(matches!(
        &errs[0],
        ParseError::MissingField { record, field, .. }
            if record == "deployment_env" && field == "port"
    ));
}

#[test]
fn unexpected_field_is_reported() {
    let raw = "service:\n    name is A\n    version is 1.0.0\n    color is red\n";
    let err = Service::parse(raw).expect_err("unexpected field must fail");
    assert!(matches!(
        &err,
        ParseError::UnexpectedField { record, field, line: 4 }
            if record == "service" && field == "color"
    ));
}

#[test]
fn bad_version_is_a_coercion_error() {
    let raw = "service:\n    name is A\n    version is 1.2\n";
    let err = Service::parse(raw).expect_err("two-part version must fail");
    assert!(matches!(
        &err,
        ParseError::CoercionError { kind, text } if kind == "Version" && text == "1.2"
    ));
}

#[test]
fn bad_port_is_a_coercion_error() {
    let raw = "service:\n    name is S\n    version is 1.0.0\ndata_sources:\napplication:\ndeployment:\n    local:\n        port is fifty\n";
    let errs = parse_document(raw).expect_err("non-numeric port must fail");
    assert!(matches!(
        &errs[0],
        ParseError::CoercionError { kind, text } if kind == "Integer" && text == "fifty"
    ));
}

#[test]
fn bad_uri_is_a_coercion_error() {
    let raw = "service:\n    name is S\n    version is 1.0.0\ndata_sources:\n    m:\n        uri is notaurl\napplication:\ndeployment:\n";
    let errs = parse_document(raw).expect_err("relative uri must fail");
    assert!(matches!(
        &errs[0],
        ParseError::CoercionError { kind, text } if kind == "Uri" && text == "notaurl"
    ));
}

#[test]
fn section_errors_do_not_short_circuit() {
    // the service section fails, yet the deployment section's error is
    // still collected, and the failed sections are also reported missing
    let raw = "service:\n    name is A\ndata_sources:\napplication:\ndeployment:\n    local:\n        port is oops\n";
    let errs = parse_document(raw).expect_err("two sections fail");
    assert_eq!(errs.len(), 3);
    assert!(matches!(&errs[0], ParseError::MissingField { .. }));
    assert!(matches!(&errs[1], ParseError::CoercionError { .. }));
    match &errs[2] {
        ParseError::IncompleteDocument { missing_sections } => {
            let names: Vec<&str> = missing_sections.iter().map(|s| s.as_str()).collect();
            assert_eq!(names, vec!["service", "deployment"]);
        },
        other => panic!("expected IncompleteDocument, got {:?}", other),
    }
}

#[test]
fn vis_ignores_extension_fields() {
    let raw = "service:\n    name is S\n    version is 1.0.0\ndata_sources:\napplication:\n    visualizations:\n        v:\n            source is m\n            theme is dark\n            type is Map\ndeployment:\n";
    let doc = parse_document(raw).expect("extension fields are ignored");
    let vis = doc.application.visualizations.get("v").expect("vis should be present");
    assert_eq!(vis.typ, VisType::MapView);
}

#[test]
fn integer_from_stream_parses_decimals() {
    assert_eq!(Integer::from_stream("42"), Ok(Integer(42)));
    assert_eq!(Integer::from_stream("4294967295"), Ok(Integer(u32::MAX)));
    assert!(Integer::from_stream("4294967296").is_err());
    assert!(Integer::from_stream("").is_err());
    assert!(Integer::from_stream("1x").is_err());
    assert!(Integer::from_stream("-1").is_err());
}

#[test]
fn boolean_from_stream_is_case_sensitive() {
    assert_eq!(Boolean::from_stream("true"), Ok(Boolean(true)));
    assert_eq!(Boolean::from_stream("false"), Ok(Boolean(false)));
    assert!(Boolean::from_stream("True").is_err());
}

#[test]
fn datetime_from_stream_reads_naive_datetimes() {
    let dt = DateTime::from_stream("1970-01-01T00:00:05").expect("timestamp should parse");
    assert_eq!(dt, DateTime::new(5, 0));
    let dt = DateTime::from_stream("1970-01-01T00:00:00.5").expect("timestamp should parse");
    assert_eq!(dt, DateTime::new(0, 500_000_000));
    assert!(DateTime::from_stream("not a date").is_err());
}

#[test]
fn uri_from_stream_normalizes() {
    let uri = Uri::from_stream("HTTP://Example.COM").expect("absolute url should parse");
    assert_eq!(uri.0, Text("http://example.com/".into()));
    assert_eq!(Uri::default().0, Text("http://localhost/".into()));
    assert_eq!(Uri::from_stream("http://localhost").unwrap(), Uri::default());
}

#[test]
fn empty_sections_give_empty_collections() {
    let doc = parse_document(&complete("")).expect("document should parse");
    assert_eq!(doc.data_sources.measurements.len(), 0);
    assert_eq!(doc.application.roles.0.len(), 0);
    assert_eq!(doc.application.visualizations.len(), 0);
    assert_eq!(doc.deployment.env.len(), 0);
}

#[test]
fn measurement_defaults_apply() {
    let raw = "service:\n    name is S\n    version is 1.0.0\ndata_sources:\n    m:\napplication:\ndeployment:\n";
    let doc = parse_document(raw).expect("document should parse");
    let m = doc.data_sources.measurements.get("m").expect("measurement should be present");
    assert_eq!(m.provider, smart_service::enums::Provider::Unknown);
    assert_eq!(m.typ, smart_service::enums::SourceType::Other);
    assert_eq!(m.uri.0, Text("http://localhost/".into()));
    assert_eq!(m.query.typ, Text("".into()));
    assert!(m.query.select.0.is_empty());
}
