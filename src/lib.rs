//! The core of a parser-combinator engine: a checkpointing cursor, two evaluation modes,
//! located errors with priority, and the primitive, alternation and sequencing parsers.
pub mod container;
pub mod cursor;
pub mod error;
pub mod laws;
pub mod mode;
pub mod parser;
pub mod run;
pub mod tokens;
