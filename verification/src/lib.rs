//! Composable behavioral and creational abstractions: a notification
//! registry, a responsibility chain, a command registry, a workflow state
//! machine, a swappable strategy slot, and a lazily initialized shared cell,
//! together with a few small factory, builder and wrapper structures that
//! exercise the same idea: an object holds some behavior-providing value
//! chosen at runtime, and ownership and substitution of that behavior are
//! managed safely.
//!
//! Every operation is specified over a mathematical view of its data; the
//! operations never panic on the inputs their contracts admit.

use vstd::prelude::*;

pub mod abstract_factory;
pub mod adapter;
pub mod builder;
pub mod chain_of_responsibility;
pub mod command;
pub mod decorator;
pub mod factory;
pub mod iterator;
pub mod observer;
pub mod proxy;
pub mod singleton;
pub mod state;
pub mod strategy;

verus! {

/// The views of a sequence of owned strings.
pub open spec fn string_views(entries: Seq<String>) -> Seq<Seq<char>> {
    entries.map_values(|s: String| s@)
}

} // verus!
