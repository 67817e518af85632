//! A compiler for Frame, a language for state machines, and what the
//! machines that it generates expose while they run.
//!
//! The scanner turns a source into tokens; resolution tags the syntax tree
//! with the scopes of its names; a generator walks the resolved tree and
//! writes the target code.

pub mod ast;
pub mod cli;
pub mod compiler;
pub mod javascript_laws;
pub mod javascript_text;
pub mod javascript_visitor;
pub mod lexicon;
pub mod resolution_laws;
pub mod resolver;
pub mod runtime;
pub mod scanner;
pub mod scanner_laws;
pub mod scopes;
pub mod state_context;
pub mod state_vars;
pub mod symbol_table;
pub mod text;
pub mod token;
pub mod transition;
pub mod visitors;
