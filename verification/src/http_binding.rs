//! Validation of raw HTTP binding records against the method and status
//! vocabularies.
//!
//! A raw record carries a method token, a request-URI template, and an
//! optional numeric response code. Validation either produces a typed
//! [`HttpBindings`] value or fails with a [`BindingError`]; invalid input is
//! never coerced, truncated, or defaulted.

use vstd::prelude::*;

use crate::errors::BindingError;
use crate::raw::str_eq;

verus! {

/// The HTTP method vocabulary, in canonical uppercase form.
#[derive(Debug, PartialEq, Eq, Structural, Clone, Copy)]
pub enum Method {
    Get,
    Head,
    Post,
    Put,
    Delete,
    Connect,
    Options,
    Trace,
    Patch,
}

/// The method a token names, if the token belongs to the vocabulary.
pub open spec fn method_of(s: Seq<char>) -> Option<Method> {
    if s == "GET"@ {
        Some(Method::Get)
    } else if s == "HEAD"@ {
        Some(Method::Head)
    } else if s == "POST"@ {
        Some(Method::Post)
    } else if s == "PUT"@ {
        Some(Method::Put)
    } else if s == "DELETE"@ {
        Some(Method::Delete)
    } else if s == "CONNECT"@ {
        Some(Method::Connect)
    } else if s == "OPTIONS"@ {
        Some(Method::Options)
    } else if s == "TRACE"@ {
        Some(Method::Trace)
    } else if s == "PATCH"@ {
        Some(Method::Patch)
    } else {
        None
    }
}

/// The canonical token of a method.
pub open spec fn method_token(m: Method) -> Seq<char> {
    match m {
        Method::Get => "GET"@,
        Method::Head => "HEAD"@,
        Method::Post => "POST"@,
        Method::Put => "PUT"@,
        Method::Delete => "DELETE"@,
        Method::Connect => "CONNECT"@,
        Method::Options => "OPTIONS"@,
        Method::Trace => "TRACE"@,
        Method::Patch => "PATCH"@,
    }
}

impl Method {
    /// Parses a method token; tokens outside the vocabulary are refused.
    pub fn parse(s: &str) -> (r: Option<Method>)
        ensures
            r == method_of(s@),
    {
        if str_eq(s, "GET") {
            Some(Method::Get)
        } else if str_eq(s, "HEAD") {
            Some(Method::Head)
        } else if str_eq(s, "POST") {
            Some(Method::Post)
        } else if str_eq(s, "PUT") {
            Some(Method::Put)
        } else if str_eq(s, "DELETE") {
            Some(Method::Delete)
        } else if str_eq(s, "CONNECT") {
            Some(Method::Connect)
        } else if str_eq(s, "OPTIONS") {
            Some(Method::Options)
        } else if str_eq(s, "TRACE") {
            Some(Method::Trace)
        } else if str_eq(s, "PATCH") {
            Some(Method::Patch)
        } else {
            None
        }
    }

    /// The canonical uppercase token of this method.
    pub fn as_str(&self) -> (r: &'static str)
        ensures
            r@ == method_token(*self),
    {
        match self {
            Method::Get => "GET",
            Method::Head => "HEAD",
            Method::Post => "POST",
            Method::Put => "PUT",
            Method::Delete => "DELETE",
            Method::Connect => "CONNECT",
            Method::Options => "OPTIONS",
            Method::Trace => "TRACE",
            Method::Patch => "PATCH",
        }
    }
}

/// Whether a number is a valid three-digit HTTP status value.
pub open spec fn status_valid(code: u16) -> bool {
    100 <= code <= 599
}

/// A validated three-digit HTTP response status.
#[derive(Debug, PartialEq, Eq, Structural, Clone, Copy)]
pub struct StatusCode(pub u16);

impl StatusCode {
    /// Validates a raw response code; out-of-range values are refused.
    pub fn from_u16(code: u16) -> (r: Result<StatusCode, BindingError>)
        ensures
            match r {
                Ok(c) => status_valid(code) && c == StatusCode(code),
                Err(e) => !status_valid(code) && e == BindingError::InvalidStatus(code),
            },
    {
        if 100 <= code && code <= 599 {
            Ok(StatusCode(code))
        } else {
            Err(BindingError::InvalidStatus(code))
        }
    }
}

/// A raw, not yet validated HTTP binding record.
#[derive(Debug, PartialEq)]
pub struct HttpBindingsTemp {
    pub method: String,
    pub request_uri: String,
    pub response_code: Option<u16>,
}

/// A validated HTTP binding: method, request-URI template, and optional
/// response status.
#[derive(Debug, PartialEq)]
pub struct HttpBindings {
    pub method: Method,
    pub request_uri: String,
    pub response_code: Option<StatusCode>,
}

impl HttpBindings {
    /// Validates a raw binding record. The response code, when present, is
    /// checked first; then the method token. The URI template is carried
    /// through unchanged.
    pub fn try_from(value: HttpBindingsTemp) -> (r: Result<HttpBindings, BindingError>)
        ensures
            match r {
                Ok(h) => {
                    &&& method_of(value.method@) == Some(h.method)
                    &&& h.request_uri == value.request_uri
                    &&& match value.response_code {
                        Some(c) => status_valid(c) && h.response_code == Some(StatusCode(c)),
                        None => h.response_code is None,
                    }
                },
                Err(e) => match e {
                    BindingError::InvalidStatus(c) => value.response_code == Some(c)
                        && !status_valid(c),
                    BindingError::InvalidMethod(s) => {
                        &&& (value.response_code matches Some(c) ==> status_valid(c))
                        &&& method_of(value.method@) is None
                        &&& s == value.method
                    },
                },
            },
    {
        let code: Option<StatusCode> = match value.response_code {
            Some(v) => match StatusCode::from_u16(v) {
                Ok(c) => Some(c),
                Err(e) => {
                    return Err(e);
                },
            },
            None => None,
        };
        let method = match Method::parse(value.method.as_str()) {
            Some(m) => m,
            None => {
                return Err(BindingError::InvalidMethod(value.method));
            },
        };
        Ok(HttpBindings { method: method, request_uri: value.request_uri, response_code: code })
    }
}

} // verus!
