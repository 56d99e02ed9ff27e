use azkaban_client::client::Azkaban;
use azkaban_client::error::AzkabanError;
use azkaban_client::response::{Flow, Flows};

const BASE: &str = "http://127.0.0.1:8081";

fn authenticated_client() -> Azkaban {
    let mut c = Azkaban::new(BASE).unwrap();
    c.authenticate_response("{\"session.id\":\"abc\"}").unwrap();
    c
}

#[test]
fn new_accepts_a_well_formed_endpoint() {
    assert!(Azkaban::new(BASE).is_ok());
}

#[test]
fn new_rejects_a_malformed_endpoint() {
    let r = Azkaban::new("not a url");
    assert!(matches!(r, Err(AzkabanError::UrlParseError(_))));
}

#[test]
fn flows_before_authentication_is_refused() {
    let c = Azkaban::new(BASE).unwrap();
    assert!(matches!(c.flows_request("P"), Err(AzkabanError::UnauthenticatedError)));
}

#[test]
fn jobs_before_authentication_is_refused() {
    let c = Azkaban::new(BASE).unwrap();
    assert!(matches!(c.jobs_request("P", "F"), Err(AzkabanError::UnauthenticatedError)));
}

#[test]
fn executions_before_authentication_is_refused() {
    let c = Azkaban::new(BASE).unwrap();
    assert!(matches!(
        c.executions_request("P", "F", 0, 10),
        Err(AzkabanError::UnauthenticatedError)
    ));
}

#[test]
fn authenticate_response_stores_the_token() {
    let c = authenticated_client();
    let u = c.flows_request("P").unwrap();
    assert_eq!(u.query(), Some("ajax=fetchprojectflows&session.id=abc&project=P"));
}

#[test]
fn authenticate_response_without_session_id() {
    let mut c = Azkaban::new(BASE).unwrap();
    let r = c.authenticate_response("{\"status\":\"error\"}");
    assert!(matches!(r, Err(AzkabanError::MissingElementError(f)) if f == "session.id"));
    // The token is still unset: data calls keep failing fast.
    assert!(matches!(c.flows_request("P"), Err(AzkabanError::UnauthenticatedError)));
}

#[test]
fn authenticate_response_with_non_string_session_id() {
    let mut c = Azkaban::new(BASE).unwrap();
    let r = c.authenticate_response("{\"session.id\":5}");
    assert!(matches!(r, Err(AzkabanError::MissingElementError(f)) if f == "session.id"));
}

#[test]
fn authenticate_response_on_unparsable_body() {
    let mut c = Azkaban::new(BASE).unwrap();
    let r = c.authenticate_response("###");
    assert!(matches!(r, Err(AzkabanError::JsonParserError(_))));
    assert!(matches!(c.flows_request("P"), Err(AzkabanError::UnauthenticatedError)));
}

#[test]
fn reauthentication_overwrites_the_token() {
    let mut c = authenticated_client();
    c.authenticate_response("{\"session.id\":\"def\"}").unwrap();
    let u = c.flows_request("P").unwrap();
    assert_eq!(u.query(), Some("ajax=fetchprojectflows&session.id=def&project=P"));
}

#[test]
fn authenticate_request_url() {
    let c = Azkaban::new(BASE).unwrap();
    let u = c.authenticate_request("azkaban", "secret");
    assert_eq!(u.query(), Some("action=login&username=azkaban&password=secret"));
    // The login call goes to the base endpoint itself, not /manager.
    assert_eq!(u.path(), "/");
}

#[test]
fn flows_request_url() {
    let c = authenticated_client();
    let u = c.flows_request("P").unwrap();
    assert_eq!(u.path(), "/manager");
    assert_eq!(u.query(), Some("ajax=fetchprojectflows&session.id=abc&project=P"));
}

#[test]
fn jobs_request_url() {
    let c = authenticated_client();
    let u = c.jobs_request("P", "F").unwrap();
    assert_eq!(u.path(), "/manager");
    assert_eq!(u.query(), Some("ajax=fetchflowgraph&session.id=abc&project=P&flow=F"));
}

#[test]
fn executions_request_url() {
    let c = authenticated_client();
    let u = c.executions_request("P", "F", 0, 4294967295).unwrap();
    assert_eq!(u.path(), "/manager");
    assert_eq!(
        u.query(),
        Some("ajax=fetchFlowExecutions&session.id=abc&project=P&flow=F&start=0&length=4294967295")
    );
}

#[test]
fn query_values_are_form_encoded() {
    let c = authenticated_client();
    let u = c.flows_request("my proj&x=y").unwrap();
    let pairs: Vec<(String, String)> =
        u.query_pairs().map(|(k, v)| (k.into_owned(), v.into_owned())).collect();
    assert_eq!(
        pairs,
        vec![
            ("ajax".to_string(), "fetchprojectflows".to_string()),
            ("session.id".to_string(), "abc".to_string()),
            ("project".to_string(), "my proj&x=y".to_string()),
        ]
    );
}

#[test]
fn login_then_flows_scenario() {
    // The end-to-end exchange, with the server's two bodies given as
    // fixtures: login stores the token, the flow-list request carries
    // exactly the documented query, and its body decodes to the
    // expected record.
    let mut c = Azkaban::new(BASE).unwrap();
    c.authenticate_response("{\"session.id\":\"abc\"}").unwrap();
    let u = c.flows_request("P").unwrap();
    let query: Vec<(String, String)> =
        u.query_pairs().map(|(k, v)| (k.into_owned(), v.into_owned())).collect();
    assert!(query.contains(&("ajax".to_string(), "fetchprojectflows".to_string())));
    assert!(query.contains(&("session.id".to_string(), "abc".to_string())));
    assert!(query.contains(&("project".to_string(), "P".to_string())));
    let flows = Flows::from_json_str("{\"project\":\"P\",\"projectId\":1,\"flows\":[{\"flowId\":\"f1\"}]}")
        .unwrap();
    assert_eq!(
        flows,
        Flows {
            project: "P".to_string(),
            project_id: 1,
            flows: vec![Flow { flow_id: "f1".to_string() }],
        }
    );
}
