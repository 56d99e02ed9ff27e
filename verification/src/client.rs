//! The session client: holds the parsed base endpoint and the session
//! token, decides whether a data call may go out, and builds the exact
//! request URL for each operation.  Sending the request is the
//! embedding application's job; the response body comes back to
//! `authenticate_response` or to the record types' `from_json_str`.

use vstd::prelude::*;
use vstd::string::StringExecFns;
use crate::error::AzkabanError;
use crate::json::{field_of, get_field, json_from_str, json_of, JsonValue};

verus! {

broadcast use vstd::string::group_string_axioms;

#[verifier::external_type_specification]
#[verifier::external_body]
pub struct ExUrl(url::Url);

/// The URL a given text parses to, or `None` where WHATWG parsing
/// rejects the text.  Left uninterpreted: the URL grammar belongs to
/// the url crate.
pub uninterp spec fn url_of(s: Seq<char>) -> Option<url::Url>;

/// The query pairs a URL carries, in order, percent-decoded.
pub uninterp spec fn url_query_pairs(u: url::Url) -> Seq<(Seq<char>, Seq<char>)>;

/// The path component of a URL, as `url::Url::path` returns it.
pub uninterp spec fn url_path(u: url::Url) -> Seq<char>;

/// Whether a URL is one that cannot be a base, as
/// `url::Url::cannot_be_a_base` reports it (a `mailto:`-like URL
/// without a hierarchical path).
pub uninterp spec fn url_cannot_be_base(u: url::Url) -> bool;

/// Relies on `url::Url::parse`: what a text parses to is a function
/// of the text alone; on failure the parser's own message is handed
/// back.
#[verifier::external_body]
fn url_parse(s: &str) -> (r: Result<url::Url, String>)
    ensures
        match r {
            Ok(u) => url_of(s@) == Some(u),
            Err(_) => url_of(s@) is None,
        },
{
    url::Url::parse(s).map_err(|e| format!("{}", e))
}

/// Relies on the derived `Clone` of `url::Url`: the copy equals the
/// original.
#[verifier::external_body]
fn url_clone(u: &url::Url) -> (r: url::Url)
    ensures
        r == *u,
{
    u.clone()
}

/// Relies on `url::Url::set_path`: it rewrites the path and leaves
/// the query as it is.  The one path this library sets is the plain
/// ASCII `/manager`, which path encoding maps to itself; on a URL
/// that cannot be a base the url crate stores an escaped form
/// instead, so the path clause is stated off that case only.
#[verifier::external_body]
fn url_set_path(u: &mut url::Url, path: &str)
    requires
        path@ == "/manager"@,
    ensures
        url_query_pairs(*final(u)) == url_query_pairs(*old(u)),
        !url_cannot_be_base(*old(u)) ==> url_path(*final(u)) == path@,
{
    u.set_path(path);
}

/// Relies on `url::Url::query_pairs_mut` and `Serializer::append_pair`:
/// the pair is form-urlencoded onto the end of the query, and the
/// pairs already there, and the path, are kept.
#[verifier::external_body]
fn url_append_pair(u: &mut url::Url, k: &str, v: &str)
    ensures
        url_query_pairs(*final(u)) == url_query_pairs(*old(u)).push((k@, v@)),
        url_path(*final(u)) == url_path(*old(u)),
{
    u.query_pairs_mut().append_pair(k, v);
}

/// The character for one decimal digit.
pub open spec fn dec_digit(d: nat) -> char {
    if d == 0 {
        '0'
    } else if d == 1 {
        '1'
    } else if d == 2 {
        '2'
    } else if d == 3 {
        '3'
    } else if d == 4 {
        '4'
    } else if d == 5 {
        '5'
    } else if d == 6 {
        '6'
    } else if d == 7 {
        '7'
    } else if d == 8 {
        '8'
    } else {
        '9'
    }
}

/// The decimal rendering of a number, most significant digit first,
/// with no leading zero except for zero itself.
pub open spec fn dec_digits(n: nat) -> Seq<char>
    decreases n,
{
    if n < 10 {
        seq![dec_digit(n)]
    } else {
        dec_digits(n / 10).push(dec_digit(n % 10))
    }
}

fn digit_str(k: u32) -> (r: &'static str)
    requires
        k < 10,
    ensures
        r@ == seq![dec_digit(k as nat)],
{
    proof {
        reveal_strlit("0");
        reveal_strlit("1");
        reveal_strlit("2");
        reveal_strlit("3");
        reveal_strlit("4");
        reveal_strlit("5");
        reveal_strlit("6");
        reveal_strlit("7");
        reveal_strlit("8");
        reveal_strlit("9");
    }
    if k == 0 {
        proof {
            assert("0"@ =~= seq![dec_digit(0)]);
        }
        "0"
    } else if k == 1 {
        proof {
            assert("1"@ =~= seq![dec_digit(1)]);
        }
        "1"
    } else if k == 2 {
        proof {
            assert("2"@ =~= seq![dec_digit(2)]);
        }
        "2"
    } else if k == 3 {
        proof {
            assert("3"@ =~= seq![dec_digit(3)]);
        }
        "3"
    } else if k == 4 {
        proof {
            assert("4"@ =~= seq![dec_digit(4)]);
        }
        "4"
    } else if k == 5 {
        proof {
            assert("5"@ =~= seq![dec_digit(5)]);
        }
        "5"
    } else if k == 6 {
        proof {
            assert("6"@ =~= seq![dec_digit(6)]);
        }
        "6"
    } else if k == 7 {
        proof {
            assert("7"@ =~= seq![dec_digit(7)]);
        }
        "7"
    } else if k == 8 {
        proof {
            assert("8"@ =~= seq![dec_digit(8)]);
        }
        "8"
    } else {
        proof {
            assert("9"@ =~= seq![dec_digit(9)]);
        }
        "9"
    }
}

fn push_decimal(s: &mut String, n: u32)
    ensures
        final(s)@ == old(s)@ + dec_digits(n as nat),
    decreases n,
{
    if n >= 10 {
        push_decimal(s, n / 10);
    }
    let d = digit_str(n % 10);
    s.append(d);
    proof {
        if n < 10 {
            assert(dec_digits(n as nat) == seq![dec_digit(n as nat)]);
            assert(old(s)@ + seq![dec_digit(n as nat)] =~= old(s)@ + dec_digits(n as nat));
        } else {
            assert(dec_digits(n as nat) == dec_digits(n as nat / 10).push(
                dec_digit(n as nat % 10),
            ));
            assert((old(s)@ + dec_digits(n as nat / 10)) + seq![dec_digit(n as nat % 10)] =~= old(
                s,
            )@ + dec_digits(n as nat));
        }
    }
}

/// The decimal rendering of a number as a fresh string.
fn u32_string(n: u32) -> (s: String)
    ensures
        s@ == dec_digits(n as nat),
{
    let mut s = String::new();
    push_decimal(&mut s, n);
    proof {
        assert(Seq::<char>::empty() + dec_digits(n as nat) =~= dec_digits(n as nat));
    }
    s
}

/// The string value of the `session.id` element of a JSON object, if
/// the object has one.
pub open spec fn spec_session_of(v: JsonValue) -> Option<Seq<char>> {
    match field_of(v, "session.id"@) {
        Option::Some(JsonValue::Str(s)) => Option::Some(s@),
        _ => Option::None,
    }
}

/// A client for one Azkaban server: the parsed base endpoint and,
/// once `authenticate_response` has accepted a login response, the
/// active session token.
pub struct Azkaban {
    base_url: url::Url,
    session_id: Option<String>,
}

impl Azkaban {
    /// The parsed base endpoint.
    pub closed spec fn base(&self) -> url::Url {
        self.base_url
    }

    /// The active session token, unset until authentication succeeds.
    pub closed spec fn session(&self) -> Option<Seq<char>> {
        match self.session_id {
            Option::Some(s) => Option::Some(s@),
            Option::None => Option::None,
        }
    }

    /// Parses and stores the base endpoint and sets up an
    /// unauthenticated client; a malformed endpoint is rejected
    /// before any request could go out.
    pub fn new(base_url: &str) -> (r: Result<Azkaban, AzkabanError>)
        ensures
            match r {
                Ok(c) => url_of(base_url@) == Some(c.base()) && c.session() is None,
                Err(e) => url_of(base_url@) is None && e matches AzkabanError::UrlParseError(_),
            },
    {
        match url_parse(base_url) {
            Ok(u) => Ok(Azkaban { base_url: u, session_id: Option::None }),
            Err(m) => Err(AzkabanError::UrlParseError(m)),
        }
    }

    /// The login request: the base endpoint, its path untouched, with
    /// `action=login` and the credentials appended as query
    /// parameters, in that order.
    pub fn authenticate_request(&self, username: &str, password: &str) -> (u: url::Url)
        ensures
            url_query_pairs(u) == url_query_pairs(self.base()) + seq![
                ("action"@, "login"@),
                ("username"@, username@),
                ("password"@, password@),
            ],
            url_path(u) == url_path(self.base()),
    {
        let mut u = url_clone(&self.base_url);
        url_append_pair(&mut u, "action", "login");
        url_append_pair(&mut u, "username", username);
        url_append_pair(&mut u, "password", password);
        proof {
            assert(url_query_pairs(self.base()).push(("action"@, "login"@)).push(
                ("username"@, username@),
            ).push(("password"@, password@)) =~= url_query_pairs(self.base()) + seq![
                ("action"@, "login"@),
                ("username"@, username@),
                ("password"@, password@),
            ]);
        }
        u
    }

    /// Reads a login response body: stores the token under the
    /// `session.id` element and reports a missing-element failure,
    /// leaving the token as it was, when the body has no such string
    /// element; an unparsable body is a parser failure.
    pub fn authenticate_response(&mut self, body: &str) -> (r: Result<(), AzkabanError>)
        ensures
            final(self).base() == old(self).base(),
            match json_of(body@) {
                Option::None => r matches Err(AzkabanError::JsonParserError(_))
                    && final(self).session() == old(self).session(),
                Option::Some(v) => match spec_session_of(v) {
                    Option::Some(sid) => r is Ok && final(self).session() == Option::Some(sid),
                    Option::None => (r matches Err(AzkabanError::MissingElementError(f)) && f@
                        == "session.id"@) && final(self).session() == old(self).session(),
                },
            },
    {
        let v = match json_from_str(body) {
            Ok(v) => v,
            Err(m) => return Err(AzkabanError::JsonParserError(m)),
        };
        match get_field(&v, "session.id") {
            Option::Some(x) => match x {
                JsonValue::Str(s) => {
                    self.session_id = Option::Some(s.clone());
                    Ok(())
                },
                _ => Err(AzkabanError::MissingElementError("session.id".to_string())),
            },
            Option::None => Err(AzkabanError::MissingElementError("session.id".to_string())),
        }
    }

    /// The flow-list request for a project: `/manager` with
    /// `ajax=fetchprojectflows`, the session token and the project,
    /// in that order; before authentication no request exists and the
    /// unauthenticated failure is reported.
    pub fn flows_request(&self, project: &str) -> (r: Result<url::Url, AzkabanError>)
        ensures
            match r {
                Ok(u) => self.session() matches Option::Some(sid) && url_query_pairs(u)
                    == url_query_pairs(self.base()) + seq![
                    ("ajax"@, "fetchprojectflows"@),
                    ("session.id"@, sid),
                    ("project"@, project@),
                ] && (!url_cannot_be_base(self.base()) ==> url_path(u) == "/manager"@),
                Err(e) => self.session() is None && e matches AzkabanError::UnauthenticatedError,
            },
    {
        let sid = match &self.session_id {
            Option::Some(s) => s,
            Option::None => return Err(AzkabanError::UnauthenticatedError),
        };
        let mut u = url_clone(&self.base_url);
        url_set_path(&mut u, "/manager");
        url_append_pair(&mut u, "ajax", "fetchprojectflows");
        url_append_pair(&mut u, "session.id", sid.as_str());
        url_append_pair(&mut u, "project", project);
        proof {
            assert(url_query_pairs(self.base()).push(("ajax"@, "fetchprojectflows"@)).push(
                ("session.id"@, sid@),
            ).push(("project"@, project@)) =~= url_query_pairs(self.base()) + seq![
                ("ajax"@, "fetchprojectflows"@),
                ("session.id"@, sid@),
                ("project"@, project@),
            ]);
        }
        Ok(u)
    }

    /// The job-graph request for a flow: `/manager` with
    /// `ajax=fetchflowgraph`, the session token, the project and the
    /// flow, in that order; unauthenticated clients are refused.
    pub fn jobs_request(&self, project: &str, flow: &str) -> (r: Result<url::Url, AzkabanError>)
        ensures
            match r {
                Ok(u) => self.session() matches Option::Some(sid) && url_query_pairs(u)
                    == url_query_pairs(self.base()) + seq![
                    ("ajax"@, "fetchflowgraph"@),
                    ("session.id"@, sid),
                    ("project"@, project@),
                    ("flow"@, flow@),
                ] && (!url_cannot_be_base(self.base()) ==> url_path(u) == "/manager"@),
                Err(e) => self.session() is None && e matches AzkabanError::UnauthenticatedError,
            },
    {
        let sid = match &self.session_id {
            Option::Some(s) => s,
            Option::None => return Err(AzkabanError::UnauthenticatedError),
        };
        let mut u = url_clone(&self.base_url);
        url_set_path(&mut u, "/manager");
        url_append_pair(&mut u, "ajax", "fetchflowgraph");
        url_append_pair(&mut u, "session.id", sid.as_str());
        url_append_pair(&mut u, "project", project);
        url_append_pair(&mut u, "flow", flow);
        proof {
            assert(url_query_pairs(self.base()).push(("ajax"@, "fetchflowgraph"@)).push(
                ("session.id"@, sid@),
            ).push(("project"@, project@)).push(("flow"@, flow@)) =~= url_query_pairs(self.base())
                + seq![
                ("ajax"@, "fetchflowgraph"@),
                ("session.id"@, sid@),
                ("project"@, project@),
                ("flow"@, flow@),
            ]);
        }
        Ok(u)
    }

    /// The execution-history request for a flow: `/manager` with
    /// `ajax=fetchFlowExecutions`, the session token, the project,
    /// the flow, and the pagination window rendered as decimal
    /// strings, in that order; unauthenticated clients are refused.
    pub fn executions_request(&self, project: &str, flow: &str, start: u32, length: u32) -> (r:
        Result<url::Url, AzkabanError>)
        ensures
            match r {
                Ok(u) => self.session() matches Option::Some(sid) && url_query_pairs(u)
                    == url_query_pairs(self.base()) + seq![
                    ("ajax"@, "fetchFlowExecutions"@),
                    ("session.id"@, sid),
                    ("project"@, project@),
                    ("flow"@, flow@),
                    ("start"@, dec_digits(start as nat)),
                    ("length"@, dec_digits(length as nat)),
                ] && (!url_cannot_be_base(self.base()) ==> url_path(u) == "/manager"@),
                Err(e) => self.session() is None && e matches AzkabanError::UnauthenticatedError,
            },
    {
        let sid = match &self.session_id {
            Option::Some(s) => s,
            Option::None => return Err(AzkabanError::UnauthenticatedError),
        };
        let mut u = url_clone(&self.base_url);
        url_set_path(&mut u, "/manager");
        url_append_pair(&mut u, "ajax", "fetchFlowExecutions");
        url_append_pair(&mut u, "session.id", sid.as_str());
        url_append_pair(&mut u, "project", project);
        url_append_pair(&mut u, "flow", flow);
        let start_s = u32_string(start);
        url_append_pair(&mut u, "start", start_s.as_str());
        let length_s = u32_string(length);
        url_append_pair(&mut u, "length", length_s.as_str());
        proof {
            assert(url_query_pairs(self.base()).push(("ajax"@, "fetchFlowExecutions"@)).push(
                ("session.id"@, sid@),
            ).push(("project"@, project@)).push(("flow"@, flow@)).push(
                ("start"@, dec_digits(start as nat)),
            ).push(("length"@, dec_digits(length as nat))) =~= url_query_pairs(self.base()) + seq![
                ("ajax"@, "fetchFlowExecutions"@),
                ("session.id"@, sid@),
                ("project"@, project@),
                ("flow"@, flow@),
                ("start"@, dec_digits(start as nat)),
                ("length"@, dec_digits(length as nat)),
            ]);
        }
        Ok(u)
    }
}

} // verus!
