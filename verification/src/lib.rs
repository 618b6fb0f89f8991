//! Incremental build-and-serve core of a language-tooling process.
//!
//! The library keeps a set of configured projects compiled and validated
//! while a developer edits files, and answers editor requests (completion,
//! document sync) against the freshest successfully compiled state. All
//! decisions and all mutable state live here, verified; the asynchronous
//! event loop and the external collaborators (change watcher, parser, build
//! pipeline, completion engine, editor connection) are wired up by the
//! unverified shell around the library, which feeds their results back in
//! as plain values.

pub mod artifacts;
pub mod compiler_state;
pub mod config;
pub mod errors;
pub mod graphql_ir;
pub mod lsp_compiler;
pub mod server_state;
pub mod skip_split_operation;
pub mod text_documents;
