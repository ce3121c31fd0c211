//! Passing context between procedural macros: a macro that imports data
//! exported by other macros is re-invoked through a chain of those macros,
//! each of which appends its data to the invocation.
pub mod tokens;
pub mod passer;
pub mod session;
pub mod lazy;
pub mod export;
pub mod naming;
pub mod relay;
