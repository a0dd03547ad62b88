//! Core of a custom pod scheduler: watches for pending pods that request this
//! scheduler by name, picks a target node among the label-matched candidates,
//! and classifies the outcome of the binding transaction.
//!
//! Everything here is pure decision logic over plain values; the network calls
//! (listing nodes, watching pods, posting bindings) live in the surrounding
//! application, which feeds their results back into these functions.

pub mod binding;
pub mod config;
pub mod model;
pub mod orchestrator;
pub mod pod;
pub mod selection;
pub mod watch;
