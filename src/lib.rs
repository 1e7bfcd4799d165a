//! Decision logic of a web editor for a statically built blog: lexical path
//! handling and containment checks, resolution of public paths to source
//! files, the revision pipeline with its rollback, and revision listing and
//! reverting. Every effect (HTTP, processes, files) is performed by the caller,
//! which feeds the outcome back in.
pub mod command;
pub mod config;
pub mod handlers;
pub mod outside;
pub mod paths;
pub mod pipeline;
pub mod reply;
pub mod resolve;
pub mod text;
