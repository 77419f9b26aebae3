//! Small verified building blocks that show how core language features
//! behave: bindings and arithmetic, functions and closures as values,
//! data types, pattern matching, generics and traits.
pub mod basics;
pub mod control;
pub mod data;
pub mod decimal;
pub mod generics;
pub mod traits;
pub mod types;
