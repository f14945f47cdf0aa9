//! A recursive-descent parser core for PHP declarations.
//!
//! The crate provides a comment-transparent token stream with bounded
//! lookahead, token-expectation primitives, a modifier collector with
//! per-context conflict validation, and the declaration grammars for
//! functions, methods, properties and constants.  PHP's context-sensitive
//! declaration rules (modifier exclusivity, readonly-property typing rules,
//! abstract/final conflicts) are enforced during parsing, and every grammar
//! rule carries a contract that states exactly which tokens it consumes,
//! which node it builds, and on which inputs it fails with which diagnostic.

pub mod ast;
pub mod data_type;
pub mod error;
pub mod expressions;
pub mod flags;
pub mod functions;
pub mod properties;
pub mod state;
pub mod stream;
pub mod token;
pub mod utils;
pub mod variables;
