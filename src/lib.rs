//! Configuration grammar and expansion planning for an attribute that wraps a
//! plain structure in a shared, lock-protected handle type.
//!
//! The attribute's arguments arrive as a list of [`meta::MetaArg`] values; the
//! [`config`] module reads them into a [`config::Config`], whose meaning the
//! [`model`] module states argument by argument, and the [`expand`]
//! module resolves the defaults into an [`expand::Expansion`] that names the
//! generated type, its inner pointer type and its guard methods.

pub mod tokens;
pub mod meta;
pub mod model;
pub mod config;
pub mod expand;
