//! A typed, queryable catalog for a fixed-schema page-annotation dataset:
//! per-title XML files describing page layout (panel frames, text boxes,
//! face and body regions, character identities) for scanned book images.
//!
//! The crate parses raw XML into a typed model, resolves image paths from
//! (title, page index) pairs, exposes a deep-copying query API, and flattens
//! entities into an ordered key/value export form. Filesystem access stays
//! with the caller: the library works on plain values.

pub mod catalog;
pub mod error;
pub mod flatten;
pub mod laws;
pub mod model;
pub mod num;
pub mod parse;
pub mod paths;
pub mod strutil;
pub mod xml;

pub use catalog::manifest_titles;
pub use catalog::Manga109;
pub use error::Error;
pub use model::Annotation;
pub use model::AnnotationType;
pub use model::Body;
pub use model::Book;
pub use model::Character;
pub use model::Face;
pub use model::Frame;
pub use model::Page;
pub use model::Text;
pub use num::parse_u32_digits;
pub use num::parse_usize_digits;
pub use num::u32_to_dec_string;
pub use num::usize_to_dec_string;
pub use parse::book_from_nodes;
pub use parse::parse_raw_xml_annotations_and_make_book;
pub use paths::normalize_paths;
pub use paths::page_image_name;
pub use xml::XmlNode;
