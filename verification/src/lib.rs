//! A small finite-state mode controller for a cooperative, tick-based
//! scheduler: a store holding the current mode and a pending request, a
//! gate that decides which behavior groups may run in each mode, a
//! registry of enter/exit transition bindings, and a per-tick driver that
//! runs eligible behaviors first and commits a requested transition at
//! the tick boundary.

pub mod bindings;
pub mod gate;
pub mod laws;
pub mod store;
pub mod tick;
pub mod wiring;
pub mod world;
