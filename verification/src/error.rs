//! The closed error taxonomy every fallible operation of the crate
//! reports through.

use vstd::prelude::*;
use vstd::string::StringExecFns;

verus! {

broadcast use vstd::string::group_string_axioms;

/// Why a structural decode of a JSON response body was aborted.  The
/// payload names the JSON field at fault.
#[derive(Debug, PartialEq)]
pub enum DecodeError {
    NotAnObject,
    MissingField(String),
    ExpectedString(String),
    ExpectedInteger(String),
    ExpectedArray(String),
}

/// `DecodeError` as contracts speak of it: the field name as a
/// character sequence.
pub ghost enum DecodeErrorView {
    NotAnObject,
    MissingField(Seq<char>),
    ExpectedString(Seq<char>),
    ExpectedInteger(Seq<char>),
    ExpectedArray(Seq<char>),
}

impl View for DecodeError {
    type V = DecodeErrorView;

    open spec fn view(&self) -> DecodeErrorView {
        match self {
            DecodeError::NotAnObject => DecodeErrorView::NotAnObject,
            DecodeError::MissingField(f) => DecodeErrorView::MissingField(f@),
            DecodeError::ExpectedString(f) => DecodeErrorView::ExpectedString(f@),
            DecodeError::ExpectedInteger(f) => DecodeErrorView::ExpectedInteger(f@),
            DecodeError::ExpectedArray(f) => DecodeErrorView::ExpectedArray(f@),
        }
    }
}

impl DecodeError {
    /// What `message` returns, character for character.
    pub open spec fn spec_message(&self) -> Seq<char> {
        match self {
            DecodeError::NotAnObject => "expected a JSON object"@,
            DecodeError::MissingField(f) => "missing JSON field "@ + f@,
            DecodeError::ExpectedString(f) => "expected a string for JSON field "@ + f@,
            DecodeError::ExpectedInteger(f) => "expected an integer for JSON field "@ + f@,
            DecodeError::ExpectedArray(f) => "expected an array for JSON field "@ + f@,
        }
    }

    /// A human-readable description of the failure.
    pub fn message(&self) -> (r: String)
        ensures
            r@ == self.spec_message(),
    {
        match self {
            DecodeError::NotAnObject => "expected a JSON object".to_string(),
            DecodeError::MissingField(f) => {
                let mut m = "missing JSON field ".to_string();
                m.append(f.as_str());
                m
            },
            DecodeError::ExpectedString(f) => {
                let mut m = "expected a string for JSON field ".to_string();
                m.append(f.as_str());
                m
            },
            DecodeError::ExpectedInteger(f) => {
                let mut m = "expected an integer for JSON field ".to_string();
                m.append(f.as_str());
                m
            },
            DecodeError::ExpectedArray(f) => {
                let mut m = "expected an array for JSON field ".to_string();
                m.append(f.as_str());
                m
            },
        }
    }
}

/// Everything that can go wrong while talking to an Azkaban server:
/// a malformed base endpoint, a transport failure, an unparsable or
/// structurally wrong JSON body, a JSON object lacking an expected
/// element, or a data call made before `authenticate`.
///
/// The string payloads of `UrlParseError`, `HttpError` and
/// `JsonParserError` carry the underlying failure's description.
#[derive(Debug, PartialEq)]
pub enum AzkabanError {
    UrlParseError(String),
    HttpError(String),
    JsonDecoderError(DecodeError),
    JsonParserError(String),
    MissingElementError(String),
    UnauthenticatedError,
}

impl AzkabanError {
    /// What `message` returns, character for character: the wrapped
    /// failure's own description for the carried kinds, unchanged.
    pub open spec fn spec_message(&self) -> Seq<char> {
        match self {
            AzkabanError::UrlParseError(m) => m@,
            AzkabanError::HttpError(m) => m@,
            AzkabanError::JsonDecoderError(e) => e.spec_message(),
            AzkabanError::JsonParserError(m) => m@,
            AzkabanError::MissingElementError(f) => "JSON attribute "@ + f@ + " not present"@,
            AzkabanError::UnauthenticatedError => "Not yet authenticated"@,
        }
    }

    /// A human-readable description of the failure.
    pub fn message(&self) -> (r: String)
        ensures
            r@ == self.spec_message(),
    {
        match self {
            AzkabanError::UrlParseError(m) => m.clone(),
            AzkabanError::HttpError(m) => m.clone(),
            AzkabanError::JsonDecoderError(e) => e.message(),
            AzkabanError::JsonParserError(m) => m.clone(),
            AzkabanError::MissingElementError(f) => {
                let mut r = "JSON attribute ".to_string();
                r.append(f.as_str());
                r.append(" not present");
                r
            },
            AzkabanError::UnauthenticatedError => "Not yet authenticated".to_string(),
        }
    }
}

impl From<DecodeError> for AzkabanError {
    fn from(e: DecodeError) -> (r: AzkabanError) {
        AzkabanError::JsonDecoderError(e)
    }
}

impl vstd::std_specs::convert::FromSpecImpl<DecodeError> for AzkabanError {
    open spec fn obeys_from_spec() -> bool {
        true
    }

    open spec fn from_spec(e: DecodeError) -> AzkabanError {
        AzkabanError::JsonDecoderError(e)
    }
}

} // verus!
