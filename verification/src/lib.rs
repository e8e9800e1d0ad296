//! A small virtual machine: a stack machine of bytes and shorts with two
//! stacks, 64 KiB of memory and a page of device ports, and a screen of two
//! layers that the machine draws on through its ports.
//!
//! `uxn` holds the machine and its model, `operations` what an instruction
//! is made of, `instructions` the instructions themselves, `devices` the
//! devices behind the ports. `lemmas` and `keep` state what follows from
//! the model: how the stacks behave, what the instructions leave on them,
//! and what the keep mode keeps.

pub mod devices;
pub mod instructions;
pub mod keep;
pub mod lemmas;
pub mod operations;
pub mod system;
pub mod uxn;

pub use uxn::{Machine, UXN};
