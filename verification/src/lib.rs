//! A verified core for reading machine-readable service-API model documents:
//! decoding a structured document into a typed model, validating HTTP
//! bindings against the method and status vocabularies, normalizing embedded
//! HTML documentation, and resolving by-name shape references one hop deep.

pub mod decode;
pub mod errors;
pub mod http_binding;
pub mod markdown;
pub mod model;
pub mod raw;
pub mod resolve;
pub mod string_map;

pub use errors::BindingError;
pub use errors::DecodeError;
pub use errors::UnresolvedShapeError;
pub use http_binding::HttpBindings;
pub use http_binding::HttpBindingsTemp;
pub use http_binding::Method;
pub use http_binding::StatusCode;
pub use markdown::Markdown;
pub use model::BotocoreModel;
pub use model::Member;
pub use model::Location;
pub use model::Metadata;
pub use model::Operation;
pub use model::Protocol;
pub use model::Shape;
pub use model::ShapeMember;
pub use model::ShapeReference;
pub use model::Signature;
pub use raw::RawValue;
pub use resolve::ResolvedOperation;
pub use string_map::StringMap;
