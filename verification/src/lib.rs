//! A bridge between a compiler's private analysis results and tools that
//! inspect a program's mid-level control-flow representation.
//!
//! The compiler's state is handed over as plain values (a [`catalog::Snapshot`]).
//! A [`session::Session`] answers queries about it, gives out stable handles
//! through an [`ident::IdentityMap`], and turns function bodies into the stable
//! model of [`mir`] only when asked. [`hook::HookAdapter`] is the one place
//! where the compilation pipeline hands control to the bridge.

pub mod catalog;
pub mod error;
pub mod hook;
pub mod ident;
pub mod input;
pub mod inspect;
pub mod internal;
pub mod materialize;
pub mod mir;
pub mod search;
pub mod session;
