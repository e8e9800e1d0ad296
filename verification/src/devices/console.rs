use crate::system::Diagnostic;
use crate::uxn::{Machine, UXN};
use vstd::prelude::*;

verus! {

/// The console keeps the bytes that were written to its output port, oldest
/// first, for the host to take and print.
pub struct ConsoleDevice {
    pub output: Vec<u8>,
}

impl ConsoleDevice {
    /// A console to which nothing was written.
    pub fn new() -> (c: Self)
        ensures
            c.output@ == Seq::<u8>::empty(),
    {
        ConsoleDevice { output: Vec::new() }
    }
}

impl Machine {
    /// What a write to a port of the console does, once the byte is in the
    /// device page: port 8 adds the byte to the output; ports 0 and 1 only
    /// hold their byte; a write to any other port is noted.
    #[verifier::opaque]
    pub open spec fn deo_console(self, port: int, val: u8) -> Machine {
        let rel = port % 16;
        if rel == 0x8 {
            Machine { console: self.console.push(val), ..self }
        } else if rel == 0x0 || rel == 0x1 {
            self
        } else {
            self.note(Diagnostic::UnmappedDevicePort(port as usize))
        }
    }
}

/// The console's write handler; `val` is the byte that was written.
pub fn console(uxn: &mut UXN, port: usize, val: u8)
    requires
        old(uxn).wf(),
        0x10 <= port < 0x20,
    ensures
        final(uxn).wf(),
        final(uxn)@ == old(uxn)@.deo_console(port as int, val),
{
    reveal(Machine::deo_console);
    let rel = port % 16;

    match rel {
        // the console vector: the device page holds it
        0x0 | 0x1 => {},
        0x8 => {
            uxn.console.output.push(val);
        },
        _ => {
            uxn.note(Diagnostic::UnmappedDevicePort(port));
        },
    }
}

} // verus!
