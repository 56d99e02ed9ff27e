use azkaban_client::error::{AzkabanError, DecodeError};
use azkaban_client::json::JsonValue;
use azkaban_client::response::{Execution, Executions, Flow, Flows, Jobs, Node};

fn obj(fields: Vec<(&str, JsonValue)>) -> JsonValue {
    JsonValue::Object(fields.into_iter().map(|(k, v)| (k.to_string(), v)).collect())
}

fn s(text: &str) -> JsonValue {
    JsonValue::Str(text.to_string())
}

#[test]
fn flow_decode_ok() {
    let v = obj(vec![("flowId", s("f1"))]);
    assert_eq!(Flow::decode(&v), Ok(Flow { flow_id: "f1".to_string() }));
}

#[test]
fn flow_decode_missing_field() {
    let v = obj(vec![("other", s("f1"))]);
    assert_eq!(Flow::decode(&v), Err(DecodeError::MissingField("flowId".to_string())));
}

#[test]
fn flow_decode_not_an_object() {
    assert_eq!(Flow::decode(&s("f1")), Err(DecodeError::NotAnObject));
}

#[test]
fn flow_decode_wrong_type() {
    let v = obj(vec![("flowId", JsonValue::I64(3))]);
    assert_eq!(Flow::decode(&v), Err(DecodeError::ExpectedString("flowId".to_string())));
}

#[test]
fn flows_from_json_str_fixture() {
    let body = "{\"project\":\"P\",\"projectId\":1,\"flows\":[{\"flowId\":\"f1\"}]}";
    let expected = Flows {
        project: "P".to_string(),
        project_id: 1,
        flows: vec![Flow { flow_id: "f1".to_string() }],
    };
    assert_eq!(Flows::from_json_str(body), Ok(expected));
}

#[test]
fn flows_round_trip_fixture() {
    // Decoding then re-deriving the fields gives back exactly what the
    // source JSON carried.
    let body = "{\"flows\":[{\"flowId\":\"a\"},{\"flowId\":\"b\"}],\"project\":\"Prj\",\"projectId\":42}";
    let f = Flows::from_json_str(body).unwrap();
    assert_eq!(f.project, "Prj");
    assert_eq!(f.project_id, 42);
    let ids: Vec<&str> = f.flows.iter().map(|x| x.flow_id.as_str()).collect();
    assert_eq!(ids, vec!["a", "b"]);
}

#[test]
fn flows_project_wrong_type() {
    let body = "{\"project\":5,\"projectId\":1,\"flows\":[]}";
    assert_eq!(
        Flows::from_json_str(body),
        Err(AzkabanError::JsonDecoderError(DecodeError::ExpectedString("project".to_string())))
    );
}

#[test]
fn flows_parser_error() {
    let r = Flows::from_json_str("this is not json");
    assert!(matches!(r, Err(AzkabanError::JsonParserError(_))));
}

#[test]
fn flows_flows_not_an_array() {
    let body = "{\"project\":\"P\",\"projectId\":1,\"flows\":7}";
    assert_eq!(
        Flows::from_json_str(body),
        Err(AzkabanError::JsonDecoderError(DecodeError::ExpectedArray("flows".to_string())))
    );
}

#[test]
fn node_decode_without_in_field() {
    let v = obj(vec![("id", s("a")), ("type", s("t"))]);
    let expected = Node {
        id: "a".to_string(),
        job_type: "t".to_string(),
        job_dependencies: vec![],
    };
    assert_eq!(Node::decode(&v), Ok(expected));
}

#[test]
fn node_decode_with_in_field() {
    let v = obj(vec![
        ("id", s("a")),
        ("type", s("t")),
        ("in", JsonValue::Array(vec![s("x"), s("y")])),
    ]);
    let expected = Node {
        id: "a".to_string(),
        job_type: "t".to_string(),
        job_dependencies: vec!["x".to_string(), "y".to_string()],
    };
    assert_eq!(Node::decode(&v), Ok(expected));
}

#[test]
fn node_decode_null_in_field() {
    let v = obj(vec![("id", s("a")), ("type", s("t")), ("in", JsonValue::Null)]);
    let expected = Node {
        id: "a".to_string(),
        job_type: "t".to_string(),
        job_dependencies: vec![],
    };
    assert_eq!(Node::decode(&v), Ok(expected));
}

#[test]
fn node_decode_in_not_an_array() {
    let v = obj(vec![("id", s("a")), ("type", s("t")), ("in", JsonValue::I64(3))]);
    assert_eq!(Node::decode(&v), Err(DecodeError::ExpectedArray("in".to_string())));
}

#[test]
fn node_decode_in_element_not_a_string() {
    let v = obj(vec![
        ("id", s("a")),
        ("type", s("t")),
        ("in", JsonValue::Array(vec![s("x"), JsonValue::I64(5)])),
    ]);
    assert_eq!(Node::decode(&v), Err(DecodeError::ExpectedString("in".to_string())));
}

#[test]
fn jobs_from_json_str_fixture() {
    let body = "{\"project\":\"P\",\"projectId\":2,\"flow\":\"F\",\"nodes\":\
                [{\"id\":\"a\",\"type\":\"command\",\"in\":[\"b\"]},\
                 {\"id\":\"b\",\"type\":\"command\"}]}";
    let expected = Jobs {
        project: "P".to_string(),
        project_id: 2,
        flow: "F".to_string(),
        nodes: vec![
            Node {
                id: "a".to_string(),
                job_type: "command".to_string(),
                job_dependencies: vec!["b".to_string()],
            },
            Node {
                id: "b".to_string(),
                job_type: "command".to_string(),
                job_dependencies: vec![],
            },
        ],
    };
    assert_eq!(Jobs::from_json_str(body), Ok(expected));
}

#[test]
fn executions_from_json_str_fixture() {
    let body = "{\"executions\":[{\"endTime\":100,\"execId\":7,\"flowId\":\"F\",\
                \"projectId\":2,\"startTime\":90,\"status\":\"SUCCEEDED\",\
                \"submitTime\":80,\"submitUser\":\"azkaban\"}],\
                \"flow\":\"F\",\"from\":0,\"length\":10,\"project\":\"P\",\
                \"projectId\":2,\"total\":1}";
    let expected = Executions {
        executions: vec![Execution {
            end_time: 100,
            exec_id: 7,
            flow_id: "F".to_string(),
            project_id: 2,
            start_time: 90,
            status: "SUCCEEDED".to_string(),
            submit_time: 80,
            submit_user: "azkaban".to_string(),
        }],
        flow: "F".to_string(),
        from: 0,
        length: 10,
        project: "P".to_string(),
        project_id: 2,
        total: 1,
    };
    assert_eq!(Executions::from_json_str(body), Ok(expected));
}

#[test]
fn execution_missing_field_aborts() {
    let body = "{\"executions\":[{\"endTime\":100,\"execId\":7,\"flowId\":\"F\",\
                \"projectId\":2,\"startTime\":90,\"status\":\"SUCCEEDED\",\
                \"submitTime\":80}],\
                \"flow\":\"F\",\"from\":0,\"length\":10,\"project\":\"P\",\
                \"projectId\":2,\"total\":1}";
    assert_eq!(
        Executions::from_json_str(body),
        Err(AzkabanError::JsonDecoderError(DecodeError::MissingField("submitUser".to_string())))
    );
}

#[test]
fn negative_integer_field() {
    let body = "{\"project\":\"P\",\"projectId\":-5,\"flows\":[]}";
    let f = Flows::from_json_str(body).unwrap();
    assert_eq!(f.project_id, -5);
}

#[test]
fn integer_field_too_wide() {
    // 2^63 parses as an unsigned JSON number and does not fit an i64.
    let body = "{\"project\":\"P\",\"projectId\":9223372036854775808,\"flows\":[]}";
    assert_eq!(
        Flows::from_json_str(body),
        Err(AzkabanError::JsonDecoderError(DecodeError::ExpectedInteger("projectId".to_string())))
    );
}

#[test]
fn integer_field_fractional() {
    let body = "{\"project\":\"P\",\"projectId\":1.5,\"flows\":[]}";
    assert_eq!(
        Flows::from_json_str(body),
        Err(AzkabanError::JsonDecoderError(DecodeError::ExpectedInteger("projectId".to_string())))
    );
}

#[test]
fn error_messages() {
    assert_eq!(
        AzkabanError::MissingElementError("session.id".to_string()).message(),
        "JSON attribute session.id not present"
    );
    assert_eq!(AzkabanError::UnauthenticatedError.message(), "Not yet authenticated");
    assert_eq!(
        AzkabanError::JsonDecoderError(DecodeError::MissingField("flows".to_string())).message(),
        "missing JSON field flows"
    );
}

#[test]
fn wrapped_kinds_delegate_their_message() {
    // The carried failure's own description comes back unchanged.
    assert_eq!(AzkabanError::UrlParseError("empty host".to_string()).message(), "empty host");
    assert_eq!(AzkabanError::HttpError("connection refused".to_string()).message(), "connection refused");
    assert_eq!(AzkabanError::JsonParserError("SyntaxError".to_string()).message(), "SyntaxError");
}
