pub mod device;
pub mod fault;
pub mod opcodes;
pub mod stack;

pub use device::Device;
pub use fault::{Diagnostic, Exit, Fault, Trap};
pub use opcodes::Opcode;
pub use stack::Stack;
