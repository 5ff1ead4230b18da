//! Core data model of a desktop editor for a game's moddable data tables.
//!
//! The crate owns the five table schemas (relics, playable units, enemies,
//! localization text, race attributes), the ordering and identity rules over
//! them, a round-trip text codec for the per-table files, a decoder for the
//! compiled binary table bundle, the whole-collection operations, and the
//! mod-package scaffold.  All file and user-interface work stays outside;
//! callers hand in file contents and receive file contents back.

pub mod bean;
pub mod codec;
pub mod data;
pub mod json;
pub mod luban;
pub mod modpack;
pub mod page;
pub mod sorting;
pub mod text;
