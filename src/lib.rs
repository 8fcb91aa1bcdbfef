//! Locating Wwise objects by identifier in a project's work units and in a
//! compiled bank manifest (XML or JSON).
//!
//! The library works on documents held as plain data: XML elements and JSON
//! values. XML text is parsed by roxmltree behind one trusted wrapper
//! (`xml_doc::parse_nodes`), and the element tree is rebuilt from its node list
//! by verified code; lower-casing relies on `str::to_lowercase`, also behind a
//! trusted wrapper (`text::lowercase`). Every other function is verified
//! against its contract.
pub mod text;
pub mod guid;
pub mod record;
pub mod json;
pub mod xml;
pub mod xml_doc;
pub mod xml_manifest;
pub mod json_manifest;
pub mod work_unit;
pub mod search;
pub mod laws;
pub mod equivalence;
pub mod retyping;

pub use guid::is_valid_guid;
pub use json::{JsonMember, JsonValue};
pub use record::{IdKind, Query, SearchResult};
pub use search::{
    choose_manifest, search_corpus, search_manifest, Manifest, ManifestFormat, SearchError,
};
pub use xml::{Attribute, XmlElement};
pub use xml_doc::{parse_xml, XmlError};
