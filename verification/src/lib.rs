//! Resilient request-execution core for a typed client of a web mapping
//! service: a query assembler over optional typed parameters, a category
//! rate limiter, a response classifier separating transient from permanent
//! failures, and a bounded exponential-backoff retry engine.

pub mod classify;
pub mod engine;
pub mod query;
pub mod rate;
