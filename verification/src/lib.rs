//! Software-metadata collections, normalised from their markup and key-mapping
//! encodings into one canonical model.

pub mod builders;
pub mod collection;
pub mod decode;
pub mod enums;
pub mod error;
pub mod fold;
pub mod laws;
pub mod loader;
pub mod locale;
pub mod metadata;
pub mod model;
pub mod number;
pub mod outside;
pub mod resolve;
pub mod sets;
pub mod text;
pub mod translatable;
pub mod xml;
pub mod xml_tree;
pub mod yaml;
pub mod yaml_tree;
