//! Runtime instrumentation core: a wildcard byte-pattern scanner, a memoizing
//! address resolver, a named-hook callback registry, and a model of the inline
//! call-interception engine together with the dispatch bridge that replacement
//! functions run on every intercepted call.

pub mod bridge;
pub mod engine;
pub mod game;
pub mod lifecycle;
pub mod pattern;
pub mod registry;
pub mod resolver;
