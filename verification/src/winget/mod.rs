//! The winget command-line layer: argument lists, input validation, errors,
//! the package model, and the reading of what winget prints.
pub mod commands;
pub mod error;
pub mod json;
pub mod models;
pub mod outcome;
pub mod parser;
pub mod table;
pub mod timeouts;
pub mod validate;
