//! A small library behind a project scaffolding tool: it parses the tool's
//! command-line arguments, renders the manifest and build-configuration
//! texts, and plans the filesystem operations that generation performs.

pub mod cli;
pub mod options;
pub mod plan;
pub mod report;
pub mod templates;
pub mod text;
