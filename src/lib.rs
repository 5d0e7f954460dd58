//! Verb invocation and command dispatch for a terminal file browser:
//! the catalog of built-in actions, the argument matcher, the execution
//! string builder, the lexical path resolver and the focus dispatcher.

pub mod text;
pub mod internal;
pub mod invocation;
pub mod path;
pub mod builder;
pub mod focus;
