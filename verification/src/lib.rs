//! A polymorphic reactive reference: one container type that lets a consumer
//! accept "a resource, or maybe no resource, possibly changing over time",
//! however the caller produced it — a bare value, an optional value, a
//! selector string looked up once, a reactive string looked up lazily, a
//! reactive cell, or a forward-declared node handle bound later.

pub mod element_maybe_signal;
pub mod reactive;

pub use element_maybe_signal::ElementMaybeSignal;
