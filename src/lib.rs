//! Runtime state machines behind function-level test doubles: mocks that
//! record their calls, fakes that hand out a pluggable implementation, and
//! stubs that return a fixed value.

pub mod call_sites;
pub mod context;
pub mod error;
pub mod fake;
pub mod laws;
pub mod mock;
pub mod naming;
pub mod stub;
pub mod text;
