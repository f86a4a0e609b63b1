//! A read-only traversal (visitor) framework over an immutable term tree
//! for a logic/rule language.
//!
//! The tree is a closed set of node kinds ([`terms`]); the traversal is a
//! capability trait with one hook per node kind plus free recursion
//! procedures, one per compound kind ([`walker`]); a few ready-made
//! visitors demonstrate and prove the framework's guarantees
//! ([`visitors`]).

pub mod terms;
pub mod visitors;
pub mod walker;
