//! Versioned datapack ingestion: the format catalog, the path and
//! resource-location grammar, the pack manifest and the per-location storage
//! of root and overlay content, with the editor's state transitions.

pub mod biome;
pub mod carver;
pub mod color;
pub mod datapack;
pub mod element;
pub mod error;
pub mod format;
pub mod holder;
pub mod json;
pub mod location;
pub mod manifest;
pub mod name;
pub mod overlay;
pub mod pack;
pub mod pack_info;
pub mod path;
pub mod range;
pub mod strings;
pub mod table;
pub mod text;
pub mod widgets;
pub mod window;
