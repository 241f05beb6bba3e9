//! Core library of the vehicle diagnostic toolbox: the typed command bus,
//! the compile-time module registry, the domain model, the UDS diagnostic
//! protocol, the in-memory transport and simulated ECU, and the SQLite
//! migration runner.

pub mod command_bus;
mod erased;
pub mod db;
pub mod domain;
pub mod module;
pub mod protocol;
pub mod text;
pub mod transport;

use vstd::prelude::*;

verus! {

/// Builds the greeting shown by the desktop shell.
pub fn greet(name: &str) -> (r: String)
    ensures
        r@ == "Hello, "@ + name@ + "! You've been greeted from Rust!"@,
{
    let mut s = String::from_str("Hello, ");
    s.append(name);
    s.append("! You've been greeted from Rust!");
    s
}

} // verus!
