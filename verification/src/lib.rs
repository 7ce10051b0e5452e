//! A code generator that turns checked smart-contract modules into source
//! text of a dynamically typed target language.
//!
//! The program tree is read as it stands after type checking ([`ast`]). A
//! run carries one [`shared::Context`] from module to module;
//! [`ast_to_ts::translate_module`] enters a module and gives the path and
//! the text of its file. Every function states, over the text that a
//! [`tsgen_writer::TsgenWriter`] holds and over what the context has
//! collected, exactly what it writes and records, and which error stops it.

pub mod ast;
pub mod ast_to_ts;
pub mod declarations;
pub mod function_directives;
pub mod functions;
pub mod parameters;
pub mod payload;
pub mod readiness;
pub mod shared;
pub mod statements;
pub mod string_set;
pub mod struct_directives;
pub mod text;
pub mod tsgen_writer;
pub mod value_types;
