use crate::system::{Diagnostic, Exit, Trap};
use crate::uxn::{Machine, UXN};
use vstd::prelude::*;

verus! {

pub struct MouseDevice {
    // address of the vector
    pub vector: usize,
}

impl MouseDevice {
    /// A mouse with no vector.
    pub fn new() -> (m: Self)
        ensures
            m.vector == 0,
    {
        MouseDevice { vector: 0 }
    }

    // return the mouse vector
    pub fn vector(&self) -> (v: usize)
        ensures
            v == self.vector,
    {
        self.vector
    }
}

impl Machine {
    /// The short that a port of the device page and the next one hold, high
    /// byte first.
    pub open spec fn dev_word(self, port: int) -> u16 {
        (self.dev[port] * 256 + self.dev[port + 1]) as u16
    }

    /// What a write to a port of the mouse does, once the byte is in the
    /// device page: port 1 completes the vector, which is taken from the
    /// page; port 0 only holds its byte; a write to any other port is noted.
    pub open spec fn deo_mouse(self, port: int) -> Machine {
        let rel = port % 16;
        if rel == 0x1 {
            Machine { mouse: self.dev_word(port - 1) as usize, ..self }
        } else if rel == 0x0 {
            self
        } else {
            self.note(Diagnostic::UnmappedDevicePort(port as usize))
        }
    }

    /// The pointer's place stored in the mouse's ports 2 to 5.
    pub open spec fn mouse_at(self, x: u16, y: u16) -> Machine {
        self.dev_poke(0x92, x).dev_poke(0x94, y)
    }
}

/// The mouse's write handler; `val` is the byte that was written. The host
/// calls it for a write to one of the mouse's ports, 0x90 to 0x9f: the bus
/// itself knows the system, the console and the screen only.
pub fn mouse(uxn: &mut UXN, port: usize, val: u8)
    requires
        old(uxn).wf(),
        0x90 <= port < 0xa0,
    ensures
        final(uxn).wf(),
        final(uxn)@ == old(uxn)@.deo_mouse(port as int),
{
    let rel = port % 16;

    match rel {
        0x0 => {},
        0x1 => {
            let a: usize = (uxn.dev_get(port - 1) as usize) * 256;
            let b: usize = uxn.dev_get(port) as usize;

            uxn.mouse.vector = a + b;
        },
        _ => {
            uxn.note(Diagnostic::UnmappedDevicePort(port));
        },
    }
}

/// The pointer has moved: its place goes to the mouse's ports, and the
/// mouse vector is evaluated.
pub fn mouse_pos(uxn: &mut UXN, screen_x: u16, screen_y: u16) -> (r: Result<Exit, Trap>)
    requires
        old(uxn).wf(),
    ensures
        final(uxn).wf(),
        final(uxn)@ == old(uxn)@.mouse_at(screen_x, screen_y).eval(old(uxn)@.mouse as int),
        r == old(uxn)@.mouse_at(screen_x, screen_y).eval_result(old(uxn)@.mouse as int),
{
    uxn.dev_poke(0x92, screen_x);
    uxn.dev_poke(0x94, screen_y);

    let mouse_vector_addr = uxn.mouse.vector();
    uxn.eval(mouse_vector_addr)
}

/// A button went down: the mouse vector is evaluated.
pub fn mouse_down(uxn: &mut UXN) -> (r: Result<Exit, Trap>)
    requires
        old(uxn).wf(),
    ensures
        final(uxn).wf(),
        final(uxn)@ == old(uxn)@.eval(old(uxn)@.mouse as int),
        r == old(uxn)@.eval_result(old(uxn)@.mouse as int),
{
    let mouse_vector_addr = uxn.mouse.vector();
    uxn.eval(mouse_vector_addr)
}

/// A button went up: the mouse vector is evaluated.
pub fn mouse_up(uxn: &mut UXN) -> (r: Result<Exit, Trap>)
    requires
        old(uxn).wf(),
    ensures
        final(uxn).wf(),
        final(uxn)@ == old(uxn)@.eval(old(uxn)@.mouse as int),
        r == old(uxn)@.eval_result(old(uxn)@.mouse as int),
{
    let mouse_vector_addr = uxn.mouse.vector();
    uxn.eval(mouse_vector_addr)
}

} // verus!
