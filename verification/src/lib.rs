//! `cmakefmt`: a configurable CMake formatter and parser, with its
//! parsing, layout and reporting logic stated and proved in Verus.

pub mod ast;
pub mod builtins;
pub mod cli;
pub mod comment;
pub mod config;
pub mod config_file;
pub mod diagnostics;
pub mod diff;
pub mod dump;
pub mod node;
pub mod overrides;
pub mod error;
pub mod formatter;
pub mod lsp;
pub mod parser;
pub mod regions;
pub mod registry;
pub mod report;
pub mod run;
pub mod semantic;
pub mod spec;
pub mod text;
