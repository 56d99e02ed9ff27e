//! The typed records an Azkaban response body decodes into, with the
//! decoding discipline: every named field is required and must have
//! the declared shape, except a `Node`'s dependency list, which
//! defaults to empty when absent or null.  A field that is missing or
//! has the wrong shape aborts the whole decode with an error naming
//! that field; nothing is decoded partially.

use vstd::prelude::*;
use crate::error::{AzkabanError, DecodeError, DecodeErrorView};
use crate::json::{field_of, get_field, json_from_str, json_of, JsonValue};

verus! {

broadcast use vstd::string::group_string_axioms;

/// The named field read as a string, or the exact error the decode
/// reports for it.
pub open spec fn spec_str_field(v: JsonValue, key: Seq<char>) -> Result<Seq<char>, DecodeErrorView> {
    match field_of(v, key) {
        Option::None => Err(DecodeErrorView::MissingField(key)),
        Option::Some(JsonValue::Str(s)) => Ok(s@),
        Option::Some(_) => Err(DecodeErrorView::ExpectedString(key)),
    }
}

/// The named field read as a 64-bit signed integer, or the exact error
/// the decode reports for it.  A JSON integer above `i64::MAX` does
/// not fit and is a shape error.
pub open spec fn spec_int_field(v: JsonValue, key: Seq<char>) -> Result<int, DecodeErrorView> {
    match field_of(v, key) {
        Option::None => Err(DecodeErrorView::MissingField(key)),
        Option::Some(JsonValue::I64(i)) => Ok(i as int),
        Option::Some(JsonValue::U64(u)) => if u <= i64::MAX as u64 {
            Ok(u as int)
        } else {
            Err(DecodeErrorView::ExpectedInteger(key))
        },
        Option::Some(_) => Err(DecodeErrorView::ExpectedInteger(key)),
    }
}

fn str_field(v: &JsonValue, key: &str) -> (r: Result<String, DecodeError>)
    ensures
        match r {
            Ok(s) => spec_str_field(*v, key@) == Ok::<Seq<char>, DecodeErrorView>(s@),
            Err(e) => spec_str_field(*v, key@) == Err::<Seq<char>, DecodeErrorView>(e@),
        },
{
    match get_field(v, key) {
        Option::None => Err(DecodeError::MissingField(key.to_string())),
        Option::Some(JsonValue::Str(s)) => Ok(s.clone()),
        Option::Some(_) => Err(DecodeError::ExpectedString(key.to_string())),
    }
}

fn int_field(v: &JsonValue, key: &str) -> (r: Result<i64, DecodeError>)
    ensures
        match r {
            Ok(n) => spec_int_field(*v, key@) == Ok::<int, DecodeErrorView>(n as int),
            Err(e) => spec_int_field(*v, key@) == Err::<int, DecodeErrorView>(e@),
        },
{
    match get_field(v, key) {
        Option::None => Err(DecodeError::MissingField(key.to_string())),
        Option::Some(JsonValue::I64(i)) => Ok(*i),
        Option::Some(JsonValue::U64(u)) => {
            if *u <= i64::MAX as u64 {
                Ok(*u as i64)
            } else {
                Err(DecodeError::ExpectedInteger(key.to_string()))
            }
        },
        Option::Some(_) => Err(DecodeError::ExpectedInteger(key.to_string())),
    }
}

fn is_object(v: &JsonValue) -> (r: bool)
    ensures
        r == (*v is Object),
{
    match v {
        JsonValue::Object(_) => true,
        _ => false,
    }
}

/// One flow of a project: its identifier.
#[derive(Debug, PartialEq)]
pub struct Flow {
    pub flow_id: String,
}

/// `Flow` as contracts speak of it.
pub ghost struct FlowView {
    pub flow_id: Seq<char>,
}

impl View for Flow {
    type V = FlowView;

    open spec fn view(&self) -> FlowView {
        FlowView { flow_id: self.flow_id@ }
    }
}

/// What decoding a JSON value as a `Flow` yields.
pub open spec fn spec_flow(v: JsonValue) -> Result<FlowView, DecodeErrorView> {
    if !(v is Object) {
        Err(DecodeErrorView::NotAnObject)
    } else {
        match spec_str_field(v, "flowId"@) {
            Ok(fid) => Ok(FlowView { flow_id: fid }),
            Err(e) => Err(e),
        }
    }
}

impl Flow {
    /// Decodes one element of `Flows.flows`.
    pub fn decode(v: &JsonValue) -> (r: Result<Flow, DecodeError>)
        ensures
            match r {
                Ok(f) => spec_flow(*v) == Ok::<FlowView, DecodeErrorView>(f@),
                Err(e) => spec_flow(*v) == Err::<FlowView, DecodeErrorView>(e@),
            },
    {
        if !is_object(v) {
            return Err(DecodeError::NotAnObject);
        }
        match str_field(v, "flowId") {
            Ok(flow_id) => Ok(Flow { flow_id }),
            Err(e) => Err(e),
        }
    }
}

/// The views of a decoded flow list, element for element.
pub open spec fn flow_views(s: Seq<Flow>) -> Seq<FlowView> {
    s.map_values(|f: Flow| f@)
}

/// What decoding a JSON array as a flow list yields: the first
/// element that fails to decode aborts the whole list with its error.
pub open spec fn spec_flow_list(items: Seq<JsonValue>) -> Result<Seq<FlowView>, DecodeErrorView>
    decreases items.len(),
{
    if items.len() == 0 {
        Ok(Seq::<FlowView>::empty())
    } else {
        match spec_flow(items[0]) {
            Err(e) => Err(e),
            Ok(f) => match spec_flow_list(items.drop_first()) {
                Err(e) => Err(e),
                Ok(rest) => Ok(seq![f] + rest),
            },
        }
    }
}

fn decode_flow_list(items: &Vec<JsonValue>) -> (r: Result<Vec<Flow>, DecodeError>)
    ensures
        match r {
            Ok(fs) => spec_flow_list(items@) == Ok::<Seq<FlowView>, DecodeErrorView>(
                flow_views(fs@),
            ),
            Err(e) => spec_flow_list(items@) == Err::<Seq<FlowView>, DecodeErrorView>(e@),
        },
{
    let mut out: Vec<Flow> = Vec::new();
    let n = items.len();
    let mut i: usize = 0;
    assert(items@.subrange(0, n as int) =~= items@);
    assert(flow_views(out@) + Seq::<FlowView>::empty() =~= flow_views(out@));
    while i < n
        invariant
            n == items@.len(),
            i <= n,
            out@.len() == i,
            (match spec_flow_list(items@.subrange(i as int, n as int)) {
                Ok(rest) => spec_flow_list(items@) == Ok::<Seq<FlowView>, DecodeErrorView>(
                    flow_views(out@) + rest,
                ),
                Err(e) => spec_flow_list(items@) == Err::<Seq<FlowView>, DecodeErrorView>(e),
            }),
        decreases n - i,
    {
        proof {
            let sub = items@.subrange(i as int, n as int);
            assert(sub[0] == items@[i as int]);
            assert(sub.drop_first() =~= items@.subrange(i as int + 1, n as int));
        }
        match Flow::decode(&items[i]) {
            Ok(f) => {
                proof {
                    let sub = items@.subrange(i as int, n as int);
                    assert(flow_views(out@.push(f)) =~= flow_views(out@) + seq![f@]);
                    if let Ok(rest) = spec_flow_list(items@.subrange(i as int + 1, n as int)) {
                        assert(spec_flow_list(sub) == Ok::<Seq<FlowView>, DecodeErrorView>(
                            seq![f@] + rest,
                        ));
                        assert(flow_views(out@) + (seq![f@] + rest) =~= (flow_views(out@)
                            + seq![f@]) + rest);
                    }
                }
                out.push(f);
                i = i + 1;
            },
            Err(e) => {
                proof {
                    let sub = items@.subrange(i as int, n as int);
                    assert(spec_flow_list(sub) == Err::<Seq<FlowView>, DecodeErrorView>(e@));
                }
                return Err(e);
            },
        }
    }
    assert(items@.subrange(n as int, n as int).len() == 0);
    assert(flow_views(out@) + Seq::<FlowView>::empty() =~= flow_views(out@));
    Ok(out)
}

/// What decoding a JSON array as a list of strings yields; `key`
/// names the field the array sits under, for the error.
pub open spec fn spec_str_list(items: Seq<JsonValue>, key: Seq<char>) -> Result<
    Seq<Seq<char>>,
    DecodeErrorView,
>
    decreases items.len(),
{
    if items.len() == 0 {
        Ok(Seq::<Seq<char>>::empty())
    } else {
        match items[0] {
            JsonValue::Str(s) => match spec_str_list(items.drop_first(), key) {
                Err(e) => Err(e),
                Ok(rest) => Ok(seq![s@] + rest),
            },
            _ => Err(DecodeErrorView::ExpectedString(key)),
        }
    }
}

/// The views of a decoded string list, element for element.
pub open spec fn str_views(s: Seq<String>) -> Seq<Seq<char>> {
    s.map_values(|x: String| x@)
}

fn decode_str_list(items: &Vec<JsonValue>, key: &str) -> (r: Result<Vec<String>, DecodeError>)
    ensures
        match r {
            Ok(ss) => spec_str_list(items@, key@) == Ok::<Seq<Seq<char>>, DecodeErrorView>(
                str_views(ss@),
            ),
            Err(e) => spec_str_list(items@, key@) == Err::<Seq<Seq<char>>, DecodeErrorView>(e@),
        },
{
    let mut out: Vec<String> = Vec::new();
    let n = items.len();
    let mut i: usize = 0;
    assert(items@.subrange(0, n as int) =~= items@);
    assert(str_views(out@) + Seq::<Seq<char>>::empty() =~= str_views(out@));
    while i < n
        invariant
            n == items@.len(),
            i <= n,
            out@.len() == i,
            (match spec_str_list(items@.subrange(i as int, n as int), key@) {
                Ok(rest) => spec_str_list(items@, key@) == Ok::<Seq<Seq<char>>, DecodeErrorView>(
                    str_views(out@) + rest,
                ),
                Err(e) => spec_str_list(items@, key@) == Err::<Seq<Seq<char>>, DecodeErrorView>(e),
            }),
        decreases n - i,
    {
        proof {
            let sub = items@.subrange(i as int, n as int);
            assert(sub[0] == items@[i as int]);
            assert(sub.drop_first() =~= items@.subrange(i as int + 1, n as int));
        }
        match &items[i] {
            JsonValue::Str(s) => {
                proof {
                    let sub = items@.subrange(i as int, n as int);
                    assert(str_views(out@.push(*s)) =~= str_views(out@) + seq![s@]);
                    if let Ok(rest) = spec_str_list(
                        items@.subrange(i as int + 1, n as int),
                        key@,
                    ) {
                        assert(spec_str_list(sub, key@) == Ok::<Seq<Seq<char>>, DecodeErrorView>(
                            seq![s@] + rest,
                        ));
                        assert(str_views(out@) + (seq![s@] + rest) =~= (str_views(out@) + seq![s@])
                            + rest);
                    }
                }
                out.push(s.clone());
                i = i + 1;
            },
            _ => {
                return Err(DecodeError::ExpectedString(key.to_string()));
            },
        }
    }
    assert(items@.subrange(n as int, n as int).len() == 0);
    assert(str_views(out@) + Seq::<Seq<char>>::empty() =~= str_views(out@));
    Ok(out)
}

/// One job of a flow graph: its id, its type, and the ids of the jobs
/// it depends on.
#[derive(Debug, PartialEq)]
pub struct Node {
    pub id: String,
    pub job_type: String,
    pub job_dependencies: Vec<String>,
}

/// `Node` as contracts speak of it.
pub ghost struct NodeView {
    pub id: Seq<char>,
    pub job_type: Seq<char>,
    pub job_dependencies: Seq<Seq<char>>,
}

impl View for Node {
    type V = NodeView;

    open spec fn view(&self) -> NodeView {
        NodeView {
            id: self.id@,
            job_type: self.job_type@,
            job_dependencies: str_views(self.job_dependencies@),
        }
    }
}

/// What decoding a JSON value as a `Node` yields: `id` and `type` are
/// required strings; the `in` field, when absent or null, defaults to
/// an empty dependency list, and otherwise must be an array of
/// strings.
pub open spec fn spec_node(v: JsonValue) -> Result<NodeView, DecodeErrorView> {
    if !(v is Object) {
        Err(DecodeErrorView::NotAnObject)
    } else {
        match spec_str_field(v, "id"@) {
            Err(e) => Err(e),
            Ok(id) => match spec_str_field(v, "type"@) {
                Err(e) => Err(e),
                Ok(job_type) => match field_of(v, "in"@) {
                    Option::None => Ok(
                        NodeView { id, job_type, job_dependencies: Seq::<Seq<char>>::empty() },
                    ),
                    Option::Some(JsonValue::Null) => Ok(
                        NodeView { id, job_type, job_dependencies: Seq::<Seq<char>>::empty() },
                    ),
                    Option::Some(JsonValue::Array(items)) => match spec_str_list(items@, "in"@) {
                        Err(e) => Err(e),
                        Ok(deps) => Ok(NodeView { id, job_type, job_dependencies: deps }),
                    },
                    Option::Some(_) => Err(DecodeErrorView::ExpectedArray("in"@)),
                },
            },
        }
    }
}

impl Node {
    /// Decodes one element of `Jobs.nodes`.
    pub fn decode(v: &JsonValue) -> (r: Result<Node, DecodeError>)
        ensures
            match r {
                Ok(nd) => spec_node(*v) == Ok::<NodeView, DecodeErrorView>(nd@),
                Err(e) => spec_node(*v) == Err::<NodeView, DecodeErrorView>(e@),
            },
    {
        if !is_object(v) {
            return Err(DecodeError::NotAnObject);
        }
        let id = match str_field(v, "id") {
            Ok(s) => s,
            Err(e) => return Err(e),
        };
        let job_type = match str_field(v, "type") {
            Ok(s) => s,
            Err(e) => return Err(e),
        };
        proof {
            assert(str_views(Seq::<String>::empty()) =~= Seq::<Seq<char>>::empty());
        }
        match get_field(v, "in") {
            Option::None => Ok(Node { id, job_type, job_dependencies: Vec::new() }),
            Option::Some(JsonValue::Null) => Ok(Node { id, job_type, job_dependencies: Vec::new() }),
            Option::Some(JsonValue::Array(items)) => match decode_str_list(items, "in") {
                Ok(job_dependencies) => Ok(Node { id, job_type, job_dependencies }),
                Err(e) => Err(e),
            },
            Option::Some(_) => Err(DecodeError::ExpectedArray("in".to_string())),
        }
    }
}

/// The views of a decoded node list, element for element.
pub open spec fn node_views(s: Seq<Node>) -> Seq<NodeView> {
    s.map_values(|nd: Node| nd@)
}

/// What decoding a JSON array as a node list yields.
pub open spec fn spec_node_list(items: Seq<JsonValue>) -> Result<Seq<NodeView>, DecodeErrorView>
    decreases items.len(),
{
    if items.len() == 0 {
        Ok(Seq::<NodeView>::empty())
    } else {
        match spec_node(items[0]) {
            Err(e) => Err(e),
            Ok(nd) => match spec_node_list(items.drop_first()) {
                Err(e) => Err(e),
                Ok(rest) => Ok(seq![nd] + rest),
            },
        }
    }
}

fn decode_node_list(items: &Vec<JsonValue>) -> (r: Result<Vec<Node>, DecodeError>)
    ensures
        match r {
            Ok(ns) => spec_node_list(items@) == Ok::<Seq<NodeView>, DecodeErrorView>(
                node_views(ns@),
            ),
            Err(e) => spec_node_list(items@) == Err::<Seq<NodeView>, DecodeErrorView>(e@),
        },
{
    let mut out: Vec<Node> = Vec::new();
    let n = items.len();
    let mut i: usize = 0;
    assert(items@.subrange(0, n as int) =~= items@);
    assert(node_views(out@) + Seq::<NodeView>::empty() =~= node_views(out@));
    while i < n
        invariant
            n == items@.len(),
            i <= n,
            out@.len() == i,
            (match spec_node_list(items@.subrange(i as int, n as int)) {
                Ok(rest) => spec_node_list(items@) == Ok::<Seq<NodeView>, DecodeErrorView>(
                    node_views(out@) + rest,
                ),
                Err(e) => spec_node_list(items@) == Err::<Seq<NodeView>, DecodeErrorView>(e),
            }),
        decreases n - i,
    {
        proof {
            let sub = items@.subrange(i as int, n as int);
            assert(sub[0] == items@[i as int]);
            assert(sub.drop_first() =~= items@.subrange(i as int + 1, n as int));
        }
        match Node::decode(&items[i]) {
            Ok(nd) => {
                proof {
                    let sub = items@.subrange(i as int, n as int);
                    assert(node_views(out@.push(nd)) =~= node_views(out@) + seq![nd@]);
                    if let Ok(rest) = spec_node_list(items@.subrange(i as int + 1, n as int)) {
                        assert(spec_node_list(sub) == Ok::<Seq<NodeView>, DecodeErrorView>(
                            seq![nd@] + rest,
                        ));
                        assert(node_views(out@) + (seq![nd@] + rest) =~= (node_views(out@)
                            + seq![nd@]) + rest);
                    }
                }
                out.push(nd);
                i = i + 1;
            },
            Err(e) => {
                proof {
                    let sub = items@.subrange(i as int, n as int);
                    assert(spec_node_list(sub) == Err::<Seq<NodeView>, DecodeErrorView>(e@));
                }
                return Err(e);
            },
        }
    }
    assert(items@.subrange(n as int, n as int).len() == 0);
    assert(node_views(out@) + Seq::<NodeView>::empty() =~= node_views(out@));
    Ok(out)
}

/// The job graph of one flow, as the job-graph call returns it.
#[derive(Debug, PartialEq)]
pub struct Jobs {
    pub project: String,
    pub project_id: i64,
    pub flow: String,
    pub nodes: Vec<Node>,
}

/// `Jobs` as contracts speak of it.
pub ghost struct JobsView {
    pub project: Seq<char>,
    pub project_id: int,
    pub flow: Seq<char>,
    pub nodes: Seq<NodeView>,
}

impl View for Jobs {
    type V = JobsView;

    open spec fn view(&self) -> JobsView {
        JobsView {
            project: self.project@,
            project_id: self.project_id as int,
            flow: self.flow@,
            nodes: node_views(self.nodes@),
        }
    }
}

/// What decoding a JSON value as `Jobs` yields: the fields `project`,
/// `projectId`, `flow` and `nodes`, read in that order.
pub open spec fn spec_jobs(v: JsonValue) -> Result<JobsView, DecodeErrorView> {
    if !(v is Object) {
        Err(DecodeErrorView::NotAnObject)
    } else {
        match spec_str_field(v, "project"@) {
            Err(e) => Err(e),
            Ok(project) => match spec_int_field(v, "projectId"@) {
                Err(e) => Err(e),
                Ok(project_id) => match spec_str_field(v, "flow"@) {
                    Err(e) => Err(e),
                    Ok(flow) => match field_of(v, "nodes"@) {
                        Option::None => Err(DecodeErrorView::MissingField("nodes"@)),
                        Option::Some(JsonValue::Array(items)) => match spec_node_list(items@) {
                            Err(e) => Err(e),
                            Ok(nodes) => Ok(JobsView { project, project_id, flow, nodes }),
                        },
                        Option::Some(_) => Err(DecodeErrorView::ExpectedArray("nodes"@)),
                    },
                },
            },
        }
    }
}

impl Jobs {
    /// Decodes the body of the job-graph call.
    pub fn decode(v: &JsonValue) -> (r: Result<Jobs, DecodeError>)
        ensures
            match r {
                Ok(j) => spec_jobs(*v) == Ok::<JobsView, DecodeErrorView>(j@),
                Err(e) => spec_jobs(*v) == Err::<JobsView, DecodeErrorView>(e@),
            },
    {
        if !is_object(v) {
            return Err(DecodeError::NotAnObject);
        }
        let project = match str_field(v, "project") {
            Ok(s) => s,
            Err(e) => return Err(e),
        };
        let project_id = match int_field(v, "projectId") {
            Ok(n) => n,
            Err(e) => return Err(e),
        };
        let flow = match str_field(v, "flow") {
            Ok(s) => s,
            Err(e) => return Err(e),
        };
        match get_field(v, "nodes") {
            Option::None => Err(DecodeError::MissingField("nodes".to_string())),
            Option::Some(JsonValue::Array(items)) => match decode_node_list(items) {
                Ok(nodes) => Ok(Jobs { project, project_id, flow, nodes }),
                Err(e) => Err(e),
            },
            Option::Some(_) => Err(DecodeError::ExpectedArray("nodes".to_string())),
        }
    }

    /// Parses a response body and decodes it as `Jobs`.
    pub fn from_json_str(body: &str) -> (r: Result<Jobs, AzkabanError>)
        ensures
            match json_of(body@) {
                Option::None => r matches Err(AzkabanError::JsonParserError(_)),
                Option::Some(v) => match spec_jobs(v) {
                    Ok(jv) => r matches Ok(j) && j@ == jv,
                    Err(ev) => r matches Err(AzkabanError::JsonDecoderError(e)) && e@ == ev,
                },
            },
    {
        match json_from_str(body) {
            Err(m) => Err(AzkabanError::JsonParserError(m)),
            Ok(v) => match Jobs::decode(&v) {
                Ok(j) => Ok(j),
                Err(e) => Err(AzkabanError::from(e)),
            },
        }
    }
}

/// The flow list of one project, as the flow-list call returns it.
#[derive(Debug, PartialEq)]
pub struct Flows {
    pub project: String,
    pub project_id: i64,
    pub flows: Vec<Flow>,
}

/// `Flows` as contracts speak of it.
pub ghost struct FlowsView {
    pub project: Seq<char>,
    pub project_id: int,
    pub flows: Seq<FlowView>,
}

impl View for Flows {
    type V = FlowsView;

    open spec fn view(&self) -> FlowsView {
        FlowsView {
            project: self.project@,
            project_id: self.project_id as int,
            flows: flow_views(self.flows@),
        }
    }
}

/// What decoding a JSON value as `Flows` yields: the fields
/// `project`, `projectId` and `flows`, read in that order, the first
/// failure aborting the decode with its error.
pub open spec fn spec_flows(v: JsonValue) -> Result<FlowsView, DecodeErrorView> {
    if !(v is Object) {
        Err(DecodeErrorView::NotAnObject)
    } else {
        match spec_str_field(v, "project"@) {
            Err(e) => Err(e),
            Ok(project) => match spec_int_field(v, "projectId"@) {
                Err(e) => Err(e),
                Ok(project_id) => match field_of(v, "flows"@) {
                    Option::None => Err(DecodeErrorView::MissingField("flows"@)),
                    Option::Some(JsonValue::Array(items)) => match spec_flow_list(items@) {
                        Err(e) => Err(e),
                        Ok(flows) => Ok(FlowsView { project, project_id, flows }),
                    },
                    Option::Some(_) => Err(DecodeErrorView::ExpectedArray("flows"@)),
                },
            },
        }
    }
}

impl Flows {
    /// Decodes the body of the flow-list call.
    pub fn decode(v: &JsonValue) -> (r: Result<Flows, DecodeError>)
        ensures
            match r {
                Ok(f) => spec_flows(*v) == Ok::<FlowsView, DecodeErrorView>(f@),
                Err(e) => spec_flows(*v) == Err::<FlowsView, DecodeErrorView>(e@),
            },
    {
        if !is_object(v) {
            return Err(DecodeError::NotAnObject);
        }
        let project = match str_field(v, "project") {
            Ok(s) => s,
            Err(e) => return Err(e),
        };
        let project_id = match int_field(v, "projectId") {
            Ok(n) => n,
            Err(e) => return Err(e),
        };
        match get_field(v, "flows") {
            Option::None => Err(DecodeError::MissingField("flows".to_string())),
            Option::Some(JsonValue::Array(items)) => match decode_flow_list(items) {
                Ok(flows) => Ok(Flows { project, project_id, flows }),
                Err(e) => Err(e),
            },
            Option::Some(_) => Err(DecodeError::ExpectedArray("flows".to_string())),
        }
    }

    /// Parses a response body and decodes it as `Flows`.
    pub fn from_json_str(body: &str) -> (r: Result<Flows, AzkabanError>)
        ensures
            match json_of(body@) {
                Option::None => r matches Err(AzkabanError::JsonParserError(_)),
                Option::Some(v) => match spec_flows(v) {
                    Ok(fv) => r matches Ok(f) && f@ == fv,
                    Err(ev) => r matches Err(AzkabanError::JsonDecoderError(e)) && e@ == ev,
                },
            },
    {
        match json_from_str(body) {
            Err(m) => Err(AzkabanError::JsonParserError(m)),
            Ok(v) => match Flows::decode(&v) {
                Ok(f) => Ok(f),
                Err(e) => Err(AzkabanError::from(e)),
            },
        }
    }
}

/// Every element of a successfully decoded flow list is the decode of
/// the element at the same position of the source array.
pub proof fn lemma_flow_list_elements(items: Seq<JsonValue>, r: Seq<FlowView>)
    requires
        spec_flow_list(items) == Ok::<Seq<FlowView>, DecodeErrorView>(r),
    ensures
        r.len() == items.len(),
        forall|i: int|
            0 <= i < items.len() ==> spec_flow(items[i]) == Ok::<FlowView, DecodeErrorView>(
                #[trigger] r[i],
            ),
    decreases items.len(),
{
    if items.len() == 0 {
    } else {
        let f = spec_flow(items[0])->Ok_0;
        let rest = spec_flow_list(items.drop_first())->Ok_0;
        assert(r == seq![f] + rest);
        lemma_flow_list_elements(items.drop_first(), rest);
        assert forall|i: int|
            0 <= i < items.len() implies spec_flow(items[i]) == Ok::<FlowView, DecodeErrorView>(
            r[i],
        ) by {
            if i == 0 {
                assert(r[0] == f);
            } else {
                assert(items.drop_first()[i - 1] == items[i]);
                assert(rest[i - 1] == r[i]);
            }
        }
    }
}

/// Decoding `Flows` is faithful to its source: a JSON value that
/// decodes successfully carried exactly the decoded fields — the
/// same project string under `project`, the same id under
/// `projectId`, and under `flows` an array of the same length whose
/// elements carry exactly the decoded flow ids, in order.
pub proof fn lemma_flows_round_trip(v: JsonValue, f: FlowsView)
    requires
        spec_flows(v) == Ok::<FlowsView, DecodeErrorView>(f),
    ensures
        spec_str_field(v, "project"@) == Ok::<Seq<char>, DecodeErrorView>(f.project),
        spec_int_field(v, "projectId"@) == Ok::<int, DecodeErrorView>(f.project_id),
        field_of(v, "flows"@) matches Option::Some(a) && a matches JsonValue::Array(items)
            && items@.len() == f.flows.len() && forall|i: int|
            0 <= i < f.flows.len() ==> spec_str_field(#[trigger] items@[i], "flowId"@) == Ok::<
                Seq<char>,
                DecodeErrorView,
            >(f.flows[i].flow_id),
{
    let a = field_of(v, "flows"@)->0;
    let items = a->Array_0;
    lemma_flow_list_elements(items@, f.flows);
    assert forall|i: int|
        0 <= i < f.flows.len() implies spec_str_field(#[trigger] items@[i], "flowId"@) == Ok::<
        Seq<char>,
        DecodeErrorView,
    >(f.flows[i].flow_id) by {
        assert(spec_flow(items@[i]) == Ok::<FlowView, DecodeErrorView>(f.flows[i]));
    }
}

/// One run of a flow, as the execution-history call lists them.
#[derive(Debug, PartialEq)]
pub struct Execution {
    pub end_time: i64,
    pub exec_id: i64,
    pub flow_id: String,
    pub project_id: i64,
    pub start_time: i64,
    pub status: String,
    pub submit_time: i64,
    pub submit_user: String,
}

/// `Execution` as contracts speak of it.
pub ghost struct ExecutionView {
    pub end_time: int,
    pub exec_id: int,
    pub flow_id: Seq<char>,
    pub project_id: int,
    pub start_time: int,
    pub status: Seq<char>,
    pub submit_time: int,
    pub submit_user: Seq<char>,
}

impl View for Execution {
    type V = ExecutionView;

    open spec fn view(&self) -> ExecutionView {
        ExecutionView {
            end_time: self.end_time as int,
            exec_id: self.exec_id as int,
            flow_id: self.flow_id@,
            project_id: self.project_id as int,
            start_time: self.start_time as int,
            status: self.status@,
            submit_time: self.submit_time as int,
            submit_user: self.submit_user@,
        }
    }
}

/// What decoding a JSON value as an `Execution` yields: the fields
/// `endTime`, `execId`, `flowId`, `projectId`, `startTime`, `status`,
/// `submitTime` and `submitUser`, read in that order.
pub open spec fn spec_execution(v: JsonValue) -> Result<ExecutionView, DecodeErrorView> {
    if !(v is Object) {
        Err(DecodeErrorView::NotAnObject)
    } else {
        match spec_int_field(v, "endTime"@) {
            Err(e) => Err(e),
            Ok(end_time) => match spec_int_field(v, "execId"@) {
                Err(e) => Err(e),
                Ok(exec_id) => match spec_str_field(v, "flowId"@) {
                    Err(e) => Err(e),
                    Ok(flow_id) => match spec_int_field(v, "projectId"@) {
                        Err(e) => Err(e),
                        Ok(project_id) => match spec_int_field(v, "startTime"@) {
                            Err(e) => Err(e),
                            Ok(start_time) => match spec_str_field(v, "status"@) {
                                Err(e) => Err(e),
                                Ok(status) => match spec_int_field(v, "submitTime"@) {
                                    Err(e) => Err(e),
                                    Ok(submit_time) => match spec_str_field(v, "submitUser"@) {
                                        Err(e) => Err(e),
                                        Ok(submit_user) => Ok(
                                            ExecutionView {
                                                end_time,
                                                exec_id,
                                                flow_id,
                                                project_id,
                                                start_time,
                                                status,
                                                submit_time,
                                                submit_user,
                                            },
                                        ),
                                    },
                                },
                            },
                        },
                    },
                },
            },
        }
    }
}

impl Execution {
    /// Decodes one element of `Executions.executions`.
    pub fn decode(v: &JsonValue) -> (r: Result<Execution, DecodeError>)
        ensures
            match r {
                Ok(x) => spec_execution(*v) == Ok::<ExecutionView, DecodeErrorView>(x@),
                Err(e) => spec_execution(*v) == Err::<ExecutionView, DecodeErrorView>(e@),
            },
    {
        if !is_object(v) {
            return Err(DecodeError::NotAnObject);
        }
        let end_time = match int_field(v, "endTime") {
            Ok(n) => n,
            Err(e) => return Err(e),
        };
        let exec_id = match int_field(v, "execId") {
            Ok(n) => n,
            Err(e) => return Err(e),
        };
        let flow_id = match str_field(v, "flowId") {
            Ok(s) => s,
            Err(e) => return Err(e),
        };
        let project_id = match int_field(v, "projectId") {
            Ok(n) => n,
            Err(e) => return Err(e),
        };
        let start_time = match int_field(v, "startTime") {
            Ok(n) => n,
            Err(e) => return Err(e),
        };
        let status = match str_field(v, "status") {
            Ok(s) => s,
            Err(e) => return Err(e),
        };
        let submit_time = match int_field(v, "submitTime") {
            Ok(n) => n,
            Err(e) => return Err(e),
        };
        let submit_user = match str_field(v, "submitUser") {
            Ok(s) => s,
            Err(e) => return Err(e),
        };
        Ok(
            Execution {
                end_time,
                exec_id,
                flow_id,
                project_id,
                start_time,
                status,
                submit_time,
                submit_user,
            },
        )
    }
}

/// The views of a decoded execution list, element for element.
pub open spec fn execution_views(s: Seq<Execution>) -> Seq<ExecutionView> {
    s.map_values(|x: Execution| x@)
}

/// What decoding a JSON array as an execution list yields.
pub open spec fn spec_execution_list(items: Seq<JsonValue>) -> Result<
    Seq<ExecutionView>,
    DecodeErrorView,
>
    decreases items.len(),
{
    if items.len() == 0 {
        Ok(Seq::<ExecutionView>::empty())
    } else {
        match spec_execution(items[0]) {
            Err(e) => Err(e),
            Ok(x) => match spec_execution_list(items.drop_first()) {
                Err(e) => Err(e),
                Ok(rest) => Ok(seq![x] + rest),
            },
        }
    }
}

fn decode_execution_list(items: &Vec<JsonValue>) -> (r: Result<Vec<Execution>, DecodeError>)
    ensures
        match r {
            Ok(xs) => spec_execution_list(items@) == Ok::<Seq<ExecutionView>, DecodeErrorView>(
                execution_views(xs@),
            ),
            Err(e) => spec_execution_list(items@) == Err::<Seq<ExecutionView>, DecodeErrorView>(e@),
        },
{
    let mut out: Vec<Execution> = Vec::new();
    let n = items.len();
    let mut i: usize = 0;
    assert(items@.subrange(0, n as int) =~= items@);
    assert(execution_views(out@) + Seq::<ExecutionView>::empty() =~= execution_views(out@));
    while i < n
        invariant
            n == items@.len(),
            i <= n,
            out@.len() == i,
            (match spec_execution_list(items@.subrange(i as int, n as int)) {
                Ok(rest) => spec_execution_list(items@) == Ok::<Seq<ExecutionView>, DecodeErrorView>(
                    execution_views(out@) + rest,
                ),
                Err(e) => spec_execution_list(items@) == Err::<
                    Seq<ExecutionView>,
                    DecodeErrorView,
                >(e),
            }),
        decreases n - i,
    {
        proof {
            let sub = items@.subrange(i as int, n as int);
            assert(sub[0] == items@[i as int]);
            assert(sub.drop_first() =~= items@.subrange(i as int + 1, n as int));
        }
        match Execution::decode(&items[i]) {
            Ok(x) => {
                proof {
                    let sub = items@.subrange(i as int, n as int);
                    assert(execution_views(out@.push(x)) =~= execution_views(out@) + seq![x@]);
                    if let Ok(rest) = spec_execution_list(items@.subrange(i as int + 1, n as int)) {
                        assert(spec_execution_list(sub) == Ok::<Seq<ExecutionView>, DecodeErrorView>(
                            seq![x@] + rest,
                        ));
                        assert(execution_views(out@) + (seq![x@] + rest) =~= (execution_views(out@)
                            + seq![x@]) + rest);
                    }
                }
                out.push(x);
                i = i + 1;
            },
            Err(e) => {
                proof {
                    let sub = items@.subrange(i as int, n as int);
                    assert(spec_execution_list(sub) == Err::<Seq<ExecutionView>, DecodeErrorView>(
                        e@,
                    ));
                }
                return Err(e);
            },
        }
    }
    assert(items@.subrange(n as int, n as int).len() == 0);
    assert(execution_views(out@) + Seq::<ExecutionView>::empty() =~= execution_views(out@));
    Ok(out)
}

/// One page of a flow's execution history, as the execution-history
/// call returns it.
#[derive(Debug, PartialEq)]
pub struct Executions {
    pub executions: Vec<Execution>,
    pub flow: String,
    pub from: i64,
    pub length: i64,
    pub project: String,
    pub project_id: i64,
    pub total: i64,
}

/// `Executions` as contracts speak of it.
pub ghost struct ExecutionsView {
    pub executions: Seq<ExecutionView>,
    pub flow: Seq<char>,
    pub from: int,
    pub length: int,
    pub project: Seq<char>,
    pub project_id: int,
    pub total: int,
}

impl View for Executions {
    type V = ExecutionsView;

    open spec fn view(&self) -> ExecutionsView {
        ExecutionsView {
            executions: execution_views(self.executions@),
            flow: self.flow@,
            from: self.from as int,
            length: self.length as int,
            project: self.project@,
            project_id: self.project_id as int,
            total: self.total as int,
        }
    }
}

/// What decoding a JSON value as `Executions` yields: the fields
/// `executions`, `flow`, `from`, `length`, `project`, `projectId` and
/// `total`, read in that order.
pub open spec fn spec_executions(v: JsonValue) -> Result<ExecutionsView, DecodeErrorView> {
    if !(v is Object) {
        Err(DecodeErrorView::NotAnObject)
    } else {
        match field_of(v, "executions"@) {
            Option::None => Err(DecodeErrorView::MissingField("executions"@)),
            Option::Some(JsonValue::Array(items)) => match spec_execution_list(items@) {
                Err(e) => Err(e),
                Ok(executions) => match spec_str_field(v, "flow"@) {
                    Err(e) => Err(e),
                    Ok(flow) => match spec_int_field(v, "from"@) {
                        Err(e) => Err(e),
                        Ok(from) => match spec_int_field(v, "length"@) {
                            Err(e) => Err(e),
                            Ok(length) => match spec_str_field(v, "project"@) {
                                Err(e) => Err(e),
                                Ok(project) => match spec_int_field(v, "projectId"@) {
                                    Err(e) => Err(e),
                                    Ok(project_id) => match spec_int_field(v, "total"@) {
                                        Err(e) => Err(e),
                                        Ok(total) => Ok(
                                            ExecutionsView {
                                                executions,
                                                flow,
                                                from,
                                                length,
                                                project,
                                                project_id,
                                                total,
                                            },
                                        ),
                                    },
                                },
                            },
                        },
                    },
                },
            },
            Option::Some(_) => Err(DecodeErrorView::ExpectedArray("executions"@)),
        }
    }
}

impl Executions {
    /// Decodes the body of the execution-history call.
    pub fn decode(v: &JsonValue) -> (r: Result<Executions, DecodeError>)
        ensures
            match r {
                Ok(x) => spec_executions(*v) == Ok::<ExecutionsView, DecodeErrorView>(x@),
                Err(e) => spec_executions(*v) == Err::<ExecutionsView, DecodeErrorView>(e@),
            },
    {
        if !is_object(v) {
            return Err(DecodeError::NotAnObject);
        }
        let executions = match get_field(v, "executions") {
            Option::None => return Err(DecodeError::MissingField("executions".to_string())),
            Option::Some(JsonValue::Array(items)) => match decode_execution_list(items) {
                Ok(xs) => xs,
                Err(e) => return Err(e),
            },
            Option::Some(_) => return Err(DecodeError::ExpectedArray("executions".to_string())),
        };
        let flow = match str_field(v, "flow") {
            Ok(s) => s,
            Err(e) => return Err(e),
        };
        let from = match int_field(v, "from") {
            Ok(n) => n,
            Err(e) => return Err(e),
        };
        let length = match int_field(v, "length") {
            Ok(n) => n,
            Err(e) => return Err(e),
        };
        let project = match str_field(v, "project") {
            Ok(s) => s,
            Err(e) => return Err(e),
        };
        let project_id = match int_field(v, "projectId") {
            Ok(n) => n,
            Err(e) => return Err(e),
        };
        let total = match int_field(v, "total") {
            Ok(n) => n,
            Err(e) => return Err(e),
        };
        Ok(Executions { executions, flow, from, length, project, project_id, total })
    }

    /// Parses a response body and decodes it as `Executions`.
    pub fn from_json_str(body: &str) -> (r: Result<Executions, AzkabanError>)
        ensures
            match json_of(body@) {
                Option::None => r matches Err(AzkabanError::JsonParserError(_)),
                Option::Some(v) => match spec_executions(v) {
                    Ok(xv) => r matches Ok(x) && x@ == xv,
                    Err(ev) => r matches Err(AzkabanError::JsonDecoderError(e)) && e@ == ev,
                },
            },
    {
        match json_from_str(body) {
            Err(m) => Err(AzkabanError::JsonParserError(m)),
            Ok(v) => match Executions::decode(&v) {
                Ok(x) => Ok(x),
                Err(e) => Err(AzkabanError::from(e)),
            },
        }
    }
}

} // verus!
