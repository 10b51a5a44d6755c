//! Core of a bridge between a game editor and a script repository on disk:
//! a single-slot command mailbox, a builder that maps a directory listing onto
//! the editor's object hierarchy, and the rules by which incoming file batches
//! are written.

pub mod ingest;
pub mod json;
pub mod listing;
pub mod manifest;
pub mod protocol;
pub mod sourcemap;
pub mod state;
pub mod text;
