use concourse_resource::error::ResourceError;
use concourse_resource::url::{
    build_concourse_url, set_parameters, BuildEnv, InstanceVar, InstanceVars,
};

fn scalar(text: &str) -> InstanceVar {
    InstanceVar::Scalar(text.to_owned())
}

fn object(entries: Vec<(&str, InstanceVar)>) -> InstanceVar {
    InstanceVar::Object(entries.into_iter().map(|(k, v)| (k.to_owned(), v)).collect())
}

fn entries(entries: Vec<(&str, InstanceVar)>) -> Vec<(String, InstanceVar)> {
    entries.into_iter().map(|(k, v)| (k.to_owned(), v)).collect()
}

fn nested() -> Vec<(String, InstanceVar)> {
    entries(vec![("a", object(vec![("a", scalar("0")), ("b", scalar("true"))]))])
}

fn nested_nested() -> Vec<(String, InstanceVar)> {
    entries(vec![(
        "a",
        object(vec![
            ("a", scalar("0")),
            (
                "b",
                object(vec![("c", scalar("0")), ("d", object(vec![("e", scalar("0"))]))]),
            ),
        ]),
    )])
}

fn complex() -> Vec<(String, InstanceVar)> {
    entries(vec![
        ("a", scalar("0")),
        ("b", object(vec![("a", scalar("0")), ("b", scalar("true"))])),
        ("c", scalar("\"0-0\"")),
    ])
}

#[test]
fn set_parameters_empty() {
    assert_eq!(set_parameters(&Vec::new()), "");
}

#[test]
fn set_parameters_boolean() {
    assert_eq!(set_parameters(&entries(vec![("a", scalar("true"))])), "?vars.a=true");
}

#[test]
fn set_parameters_integer() {
    assert_eq!(set_parameters(&entries(vec![("a", scalar("0"))])), "?vars.a=0");
}

#[test]
fn set_parameters_string() {
    assert_eq!(set_parameters(&entries(vec![("a", scalar("\"s\""))])), "?vars.a=%22s%22");
}

#[test]
fn set_parameters_nested_single() {
    let vars = entries(vec![("a", object(vec![("b", scalar("0"))]))]);
    assert_eq!(set_parameters(&vars), "?vars.a.b=0");
}

#[test]
fn set_parameters_nested() {
    assert_eq!(set_parameters(&nested()), "?vars.a.a=0&vars.a.b=true");
}

#[test]
fn set_parameters_nested_nested() {
    assert_eq!(set_parameters(&nested_nested()), "?vars.a.a=0&vars.a.b.c=0&vars.a.b.d.e=0");
}

#[test]
fn set_parameters_complex() {
    assert_eq!(
        set_parameters(&complex()),
        "?vars.a=0&vars.b.a=0&vars.b.b=true&vars.c=%220-0%22"
    );
}

#[test]
fn set_parameters_keeps_document_order() {
    let vars = entries(vec![("z", scalar("1")), ("a", scalar("2"))]);
    assert_eq!(set_parameters(&vars), "?vars.z=1&vars.a=2");
}

#[test]
fn set_parameters_escapes_every_quote_and_nothing_else() {
    let vars = entries(vec![("k", scalar("\"a \\\"b\\\" & c=d\""))]);
    assert_eq!(set_parameters(&vars), "?vars.k=%22a \\%22b\\%22 & c=d%22");
}

#[test]
fn set_parameters_array_value_is_its_text() {
    let vars = entries(vec![("a", scalar("[1,\"x\"]"))]);
    assert_eq!(set_parameters(&vars), "?vars.a=[1,%22x%22]");
}

#[test]
fn set_parameters_empty_object_emits_nothing() {
    assert_eq!(set_parameters(&entries(vec![("a", object(vec![]))])), "");
    let vars = entries(vec![("a", object(vec![])), ("b", scalar("1"))]);
    assert_eq!(set_parameters(&vars), "?vars.b=1");
}

fn env(instance_vars: InstanceVars) -> BuildEnv {
    BuildEnv {
        atc_external_url: Some("http://localhost".to_owned()),
        build_team_name: Some("test".to_owned()),
        build_pipeline_name: Some("test".to_owned()),
        build_job_name: Some("test".to_owned()),
        build_name: Some("1".to_owned()),
        build_pipeline_instance_vars: instance_vars,
    }
}

const BASE: &str = "http://localhost/teams/test/pipelines/test/jobs/test/builds/1";

fn url_of(instance_vars: InstanceVars) -> String {
    match build_concourse_url(&env(instance_vars)) {
        Ok(url) => url,
        Err(e) => panic!("unexpected failure: {}", e.message()),
    }
}

#[test]
fn url_builder_without_instance_vars() {
    assert_eq!(url_of(InstanceVars::Unset), BASE);
}

#[test]
fn url_builder_with_empty_object() {
    assert_eq!(url_of(InstanceVars::Parsed(Vec::new())), BASE);
}

#[test]
fn url_builder_with_malformed_instance_vars() {
    assert_eq!(url_of(InstanceVars::Malformed), BASE);
}

#[test]
fn url_builder_boolean() {
    let vars = entries(vec![("a", scalar("true"))]);
    assert_eq!(url_of(InstanceVars::Parsed(vars)), format!("{}?vars.a=true", BASE));
}

#[test]
fn url_builder_integer() {
    let vars = entries(vec![("a", scalar("0"))]);
    assert_eq!(url_of(InstanceVars::Parsed(vars)), format!("{}?vars.a=0", BASE));
}

#[test]
fn url_builder_string() {
    let vars = entries(vec![("a", scalar("\"s\""))]);
    assert_eq!(url_of(InstanceVars::Parsed(vars)), format!("{}?vars.a=%22s%22", BASE));
}

#[test]
fn url_builder_nested() {
    assert_eq!(
        url_of(InstanceVars::Parsed(nested())),
        format!("{}?vars.a.a=0&vars.a.b=true", BASE)
    );
}

#[test]
fn url_builder_nested_nested() {
    assert_eq!(
        url_of(InstanceVars::Parsed(nested_nested())),
        format!("{}?vars.a.a=0&vars.a.b.c=0&vars.a.b.d.e=0", BASE)
    );
}

#[test]
fn url_builder_complex() {
    assert_eq!(
        url_of(InstanceVars::Parsed(complex())),
        format!("{}?vars.a=0&vars.b.a=0&vars.b.b=true&vars.c=%220-0%22", BASE)
    );
}

fn missing_name(e: BuildEnv) -> String {
    match build_concourse_url(&e) {
        Ok(url) => panic!("unexpected link {}", url),
        Err(ResourceError::VarError { name }) => name,
        Err(other) => panic!("unexpected failure: {}", other.message()),
    }
}

#[test]
fn url_builder_missing_external_url() {
    let mut e = env(InstanceVars::Unset);
    e.atc_external_url = None;
    assert_eq!(missing_name(e), "ATC_EXTERNAL_URL");
}

#[test]
fn url_builder_missing_team() {
    let mut e = env(InstanceVars::Unset);
    e.build_team_name = None;
    assert_eq!(missing_name(e), "BUILD_TEAM_NAME");
}

#[test]
fn url_builder_missing_pipeline() {
    let mut e = env(InstanceVars::Unset);
    e.build_pipeline_name = None;
    assert_eq!(missing_name(e), "BUILD_PIPELINE_NAME");
}

#[test]
fn url_builder_missing_job() {
    let mut e = env(InstanceVars::Unset);
    e.build_job_name = None;
    assert_eq!(missing_name(e), "BUILD_JOB_NAME");
}

#[test]
fn url_builder_missing_build() {
    let mut e = env(InstanceVars::Parsed(complex()));
    e.build_name = None;
    assert_eq!(missing_name(e), "BUILD_NAME");
}

#[test]
fn url_builder_reports_first_missing_only() {
    let mut e = env(InstanceVars::Unset);
    e.build_pipeline_name = None;
    e.build_name = None;
    e.build_team_name = None;
    assert_eq!(missing_name(e), "BUILD_TEAM_NAME");
}

#[test]
fn set_parameters_escapes_quotes_in_keys() {
    let vars = entries(vec![("a\"b", scalar("1"))]);
    assert_eq!(set_parameters(&vars), "?vars.a%22b=1");
}

#[test]
fn set_parameters_escapes_quotes_in_nested_paths() {
    let vars = entries(vec![("\"", object(vec![("x\"", scalar("\"v\""))]))]);
    assert_eq!(set_parameters(&vars), "?vars.%22.x%22=%22v%22");
}
