//! The runtime value engine of a small duck-typed scripting language: the
//! tagged value representation, the arena-based shared-ownership memory
//! model, the flat arithmetic operator dispatch, the equality and ordering
//! engine, the iterator protocol and the callable protocol.
//!
//! The surrounding interpreter builds values through [`context::PyContext`]
//! factories, aliases them freely through [`object::PyObjectRef`] handles
//! into one [`arena::Arena`], and asks this crate to evaluate operators,
//! comparisons, iteration steps and calls; every user-triggered failure
//! comes back as a typed [`object::PyError`], never as a process abort.
pub mod arena;
pub mod attr;
pub mod call;
pub mod compare;
pub mod context;
pub mod iter;
pub mod object;
pub mod ops;
pub mod render;
pub mod text;

