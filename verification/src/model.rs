//! The typed, in-memory representation of a model document.

use vstd::prelude::*;

use crate::http_binding::HttpBindings;
use crate::markdown::Markdown;
use crate::raw::str_eq;
use crate::raw::RawValue;
use crate::string_map::StringMap;

verus! {

/// The service protocol vocabulary.
#[derive(Debug, PartialEq, Eq, Structural, Clone, Copy)]
pub enum Protocol {
    RestJson,
    Json,
    RestXml,
    Query,
}

/// The protocol a raw value names, if recognized.
pub open spec fn protocol_of(s: Seq<char>) -> Option<Protocol> {
    if s == "rest-json"@ {
        Some(Protocol::RestJson)
    } else if s == "json"@ {
        Some(Protocol::Json)
    } else if s == "rest-xml"@ {
        Some(Protocol::RestXml)
    } else if s == "query"@ {
        Some(Protocol::Query)
    } else {
        None
    }
}

impl Protocol {
    /// Parses a protocol value; an unrecognized value is refused, never
    /// silently defaulted.
    pub fn parse(s: &str) -> (r: Option<Protocol>)
        ensures
            r == protocol_of(s@),
    {
        if str_eq(s, "rest-json") {
            Some(Protocol::RestJson)
        } else if str_eq(s, "json") {
            Some(Protocol::Json)
        } else if str_eq(s, "rest-xml") {
            Some(Protocol::RestXml)
        } else if str_eq(s, "query") {
            Some(Protocol::Query)
        } else {
            None
        }
    }
}

/// The signature-version vocabulary.
#[derive(Debug, PartialEq, Eq, Structural, Clone, Copy)]
pub enum Signature {
    V4,
}

/// The signature version a raw value names, if recognized.
pub open spec fn signature_of(s: Seq<char>) -> Option<Signature> {
    if s == "v4"@ {
        Some(Signature::V4)
    } else {
        None
    }
}

impl Signature {
    /// Parses a signature-version value; an unrecognized value is refused.
    pub fn parse(s: &str) -> (r: Option<Signature>)
        ensures
            r == signature_of(s@),
    {
        if str_eq(s, "v4") {
            Some(Signature::V4)
        } else {
            None
        }
    }
}

/// Service-wide descriptive fields of a model document.
#[derive(Debug, PartialEq)]
pub struct Metadata {
    pub api_version: String,
    pub endpoint_prefix: String,
    pub protocol: Protocol,
    pub service_full_name: String,
    pub service_id: String,
    pub signature_version: Signature,
}

/// A by-name, non-owning pointer into the shapes table; meaningful only
/// alongside the model it came from.
#[derive(Debug, PartialEq, Eq, Clone)]
pub struct ShapeReference {
    pub shape: String,
}

/// Where a structure member is bound on the wire, and under what name.
#[derive(Debug, PartialEq, Eq, Clone)]
pub struct Location {
    pub location: String,
    pub location_name: String,
}

/// A structure member: a shape reference plus optional documentation,
/// wire-binding details, and a streaming flag.
#[derive(Debug, PartialEq)]
pub struct ShapeMember {
    pub shape: ShapeReference,
    pub documentation: Option<Markdown>,
    pub location: Option<Location>,
    pub streaming: Option<bool>,
}

/// A named target, as auxiliary member lists carry it.
#[derive(Debug, PartialEq)]
pub struct Member {
    pub target: String,
    pub name: Option<String>,
}

/// One named type definition of the model: a closed set of kinds. Scalar
/// kinds keep their raw node, so unrecognized auxiliary keys (bounds,
/// patterns) survive opaquely instead of being rejected.
#[derive(Debug, PartialEq)]
pub enum Shape {
    Structure {
        members: StringMap<ShapeMember>,
        documentation: Option<String>,
        required: Option<Vec<String>>,
    },
    StringShape { contents: RawValue },
    MapShape { key: ShapeReference, value: ShapeReference },
    List { member: ShapeReference },
    Integer(RawValue),
    Long(RawValue),
    Double(RawValue),
    Blob(RawValue),
    Boolean,
    Timestamp,
}

/// One API action: HTTP binding, input reference, optional output
/// reference, ordered error references, and documentation.
#[derive(Debug, PartialEq)]
pub struct Operation {
    pub name: String,
    pub http: HttpBindings,
    pub input: ShapeReference,
    pub output: Option<ShapeReference>,
    pub errors: Vec<ShapeReference>,
    pub documentation: Markdown,
}

/// A decoded model document: built once, then only read.
#[derive(Debug, PartialEq)]
pub struct BotocoreModel {
    pub version: String,
    pub metadata: Metadata,
    pub operations: StringMap<Operation>,
    pub shapes: StringMap<Shape>,
    pub documentation: Markdown,
}

} // verus!
