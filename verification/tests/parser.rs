use smart_service::document::{parse_document, Parser};
use smart_service::enums::{AppType, DeploymentType, LayoutType, Provider, Scope, SourceType};
use smart_service::records::{Service, Version};
use smart_service::scalars::Text;

#[test]
fn parse_service() {
    let raw = r#"
        service:
            name is Air Quality Madrid
            version is 1.0.0
            scope is Environment
        "#;

    let Ok((_rest, service)) = Service::parse(raw) else { panic!("Could not parse") };

    let expected = Service {
        name: Text("Air Quality Madrid".into()),
        version: Version::new(1, 0, 0),
        scope: Scope::Environment,
    };

    assert_eq!(expected, service);
}

#[test]
fn parse_data_sources() {
    println!("Data Sources");
    let raw = "service:\n    name is S\n    version is 1.0.0\ndata_sources:\n    Measurements:\n        provider is Fiware\n        type is Sensor\n        uri is https://data.iiss.at/dataskop/fiwarenosec\n        query:\n            type is AirQualityObserved\n            select:\n                location\n                Nox\n                O3\n                dateObserved\napplication:\n    type is Web\ndeployment:\n    local:\n        port is 50055\n";
    let doc = parse_document(raw).expect("document should parse");
    let m = doc
        .data_sources
        .measurements
        .get("Measurements")
        .expect("measurement should be present");
    assert_eq!(m.name, Text("Measurements".into()));
    assert_eq!(m.provider, Provider::Fiware);
    assert_eq!(m.typ, SourceType::Sensor);
    assert_eq!(m.uri.0, Text("https://data.iiss.at/dataskop/fiwarenosec".into()));
    assert_eq!(m.query.typ, Text("AirQualityObserved".into()));
    assert_eq!(
        m.query.select.0,
        vec![
            Text("location".into()),
            Text("Nox".into()),
            Text("O3".into()),
            Text("dateObserved".into()),
        ]
    );
}

#[test]
fn parse_application() {
    println!("Application");
    let raw = "service:\n    name is S\n    version is 1.0.0\ndata_sources:\napplication:\n    type is Mobile\n    layout is Pwa\n    roles:\n        User\n        Superuser\n        Admin\n    visualizations:\n        Air Quality Visualization:\n            type is Map\n            source is Measurements\n            data:\n                location\n                NOx\ndeployment:\n    local:\n        port is 1\n";
    let doc = parse_document(raw).expect("document should parse");
    assert_eq!(doc.application.typ, AppType::Mobile);
    assert_eq!(doc.application.layout, LayoutType::Pwa);
    assert_eq!(doc.application.roles.0.len(), 3);
    let vis = doc
        .application
        .visualizations
        .get("Air Quality Visualization")
        .expect("visualization should be present");
    assert_eq!(vis.source, Text("Measurements".into()));
    assert_eq!(vis.data.0, vec![Text("location".into()), Text("NOx".into())]);
    assert!(vis.extra.is_none());
}

#[test]
fn parse_deployment() {
    println!("Deployment");
    let raw = "service:\n    name is S\n    version is 1.0.0\ndata_sources:\napplication:\ndeployment:\n    local:\n        uri is http://localhost/test\n        port is 50055\n        type is Docker\n";
    let doc = parse_document(raw).expect("document should parse");
    let env = doc.deployment.env.get("local").expect("environment should be present");
    assert_eq!(env.name, Text("local".into()));
    assert_eq!(env.uri.0, Text("http://localhost/test".into()));
    assert_eq!(env.port.0, 50055);
    assert_eq!(env.typ, DeploymentType::Docker);
}

#[test]
fn parser_instance_runs_and_combines() {
    let raw = "service:\n    name is S\n    version is 1.0.0\ndata_sources:\napplication:\ndeployment:\n";
    let mut p = Parser::new(raw);
    let errs = p.run();
    assert!(errs.is_empty());
    let doc = p.smart_service().expect("all four sections are present");
    assert_eq!(doc.service.name, Text("S".into()));
}
