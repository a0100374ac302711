//! Extraction of page records from single-revision MediaWiki XML exports.
//!
//! The crate walks the lexical events of an export document and rebuilds one
//! record per `page` element, pulling events lazily so that arbitrarily large
//! dumps can be processed in a single pass.

pub mod error;
pub mod events;
pub mod laws;
pub mod machine;
pub mod namespace;
pub mod numtext;
pub mod page;
pub mod parser;
mod xml;
pub mod xml_types;

pub use error::Error;
pub use events::match_namespace;
pub use events::XmlEvent;
pub use namespace::FromNamespaceId;
pub use page::Page;
pub use parser::parse;
pub use parser::parse_with_namespace;
pub use parser::Parser;
pub use namespace::Namespace;
pub use namespace::NamespaceId;
