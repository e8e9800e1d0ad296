use vstd::prelude::*;

verus! {

/// A condition that ends the instruction that meets it, and with it the
/// evaluation it belongs to.
#[derive(Clone, Copy, Debug, PartialEq, Eq, Structural)]
pub enum Fault {
    /// A push found the stack at depth 255.
    StackOverflow,
    /// A pop found the stack at depth 0.
    StackUnderflow,
    /// A division found a zero divisor.
    DivisionByZero,
}

/// A condition that is noted and changes nothing else.
#[derive(Clone, Copy, Debug, PartialEq, Eq, Structural)]
pub enum Diagnostic {
    /// A byte was written to a device port that no device gives a meaning.
    UnmappedDevicePort(usize),
    /// A sprite run that would have read past the end of memory, starting
    /// at the address given, was dropped.
    SpriteReadOutOfBounds(usize),
}

/// A fault, with the place at which it was raised.
#[derive(Clone, Copy, Debug, PartialEq, Eq, Structural)]
pub struct Trap {
    pub fault: Fault,
    /// Address of the instruction that raised the fault.
    pub addr: usize,
    /// The instruction byte found there.
    pub opcode: u8,
    /// Depth of the stack that the instruction worked on, when it stopped.
    pub depth: u8,
}

/// How an evaluation ended, when no fault ended it.
#[derive(Clone, Copy, Debug, PartialEq, Eq, Structural)]
pub enum Exit {
    /// Nothing was run: the vector was zero, or the machine had been told to
    /// halt.
    Idle,
    /// The program reached a halt.
    Halted,
    /// The instruction budget ran out before the program halted; evaluation
    /// can be taken up again at the address given.
    Interrupted(usize),
}

} // verus!
