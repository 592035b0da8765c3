//! Symbol-resolution pipeline for split debug-info files: locate the
//! companion debug file of a loaded binary, read its native symbol table,
//! classify and demangle the symbols, and build normalized function and data
//! descriptors for a host debug-info registry.

pub mod demangler;
pub mod descriptors;
pub mod parser;
pub mod path_resolver;
pub mod symbols;
