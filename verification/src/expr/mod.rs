//! Constructor nodes and building helpers for each syntactic form.

/// application
pub mod app;

/// condition
pub mod cond;

/// pairing of two expressions
pub mod cons;

/// decrement
pub mod decr;

/// increment
pub mod incr;

/// addition
pub mod add;

/// is_zero
pub mod is_zero;

/// lambda abstraction
pub mod lambda;

/// natural number
pub mod number;

/// variable
pub mod var;
