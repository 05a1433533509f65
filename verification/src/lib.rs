//! Reading of FIFF files, the tagged binary container that MEG and EEG
//! recordings are stored in.
//!
//! A file is a sequence of tags, each a 16-byte header followed by a payload.
//! This library decodes the tag stream, keeps large payloads as references into
//! the file instead of loading them, rebuilds the tree of blocks that the
//! structural tags spell out, and collects the tags that a query asks for.
pub mod config;
pub mod enums;
pub mod graph;
pub mod parser;
pub mod primitive;
pub mod query;
pub mod reader;
pub mod tag;
pub mod tree;
pub mod wire;
