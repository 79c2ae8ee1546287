//! Codebase context graph: scanning a project, turning its source files into a
//! graph of files, modules, functions and classes, and answering queries about it.
//!
//! Every module here is verified; file, database and network access stay with the
//! callers, which hand plain values in and take plain values back.

pub mod text;
pub mod config;
pub mod scanner;
pub mod serialization;
pub mod parser;
pub mod db;
pub mod indexer;
pub mod server;
pub mod tools;
pub mod gui;
pub mod cli;
