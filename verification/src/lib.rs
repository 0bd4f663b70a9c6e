//! Core logic of a keyboard-event relay: a virtual input device is built
//! either by cloning a discovered physical keyboard's identity or from a
//! fixed synthetic identity, and decoded key events are forwarded to it as
//! a key write followed by a synchronization write.
//!
//! The library holds the decisions and the event framing; opening device
//! nodes, registering the virtual device with the kernel and reading from
//! sockets are left to the surrounding program.

pub mod capability;
pub mod events;
pub mod identity;
pub mod manager;
pub mod relay;
pub mod scanner;
