//! Structural quality metrics for a body of source files: size (lines and
//! comment density), shape (function count, longest function) and an
//! approximation of cyclomatic complexity, with project-wide aggregation.

pub mod syntax;
pub mod complexity;
pub mod text;
pub mod metrics;
pub mod parse;
pub mod syn_types;
pub mod analyzer;
