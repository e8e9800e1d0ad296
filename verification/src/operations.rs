use crate::system::{Diagnostic, Fault};
use crate::uxn::{Machine, UXN};
use vstd::prelude::*;

verus! {

/// A byte read as a signed displacement: from 0x80 on it counts back from
/// 256.
pub open spec fn signed(val: int) -> int {
    if val >= 0x80 {
        val - 256
    } else {
        val
    }
}

/// An address, counted in a memory of 0x10000 bytes that closes on itself.
pub open spec fn wrap(addr: int) -> int {
    addr % 0x10000
}

/// Sum of two shorts, modulo 0x10000.
pub open spec fn add16(b: u16, a: u16) -> u16 {
    ((b + a) % 0x10000) as u16
}

/// Difference of two shorts, modulo 0x10000.
pub open spec fn sub16(b: u16, a: u16) -> u16 {
    ((b - a) % 0x10000) as u16
}

/// Product of two shorts, modulo 0x10000.
#[verifier::opaque]
pub open spec fn mul16(b: u16, a: u16) -> u16 {
    ((b * a) % 0x10000) as u16
}

/// A short shifted right by the low nibble of `a`, then left by its high
/// nibble.
pub open spec fn shift16(b: u16, a: u16) -> u16 {
    (b >> (a & 0x0f)) << ((a & 0xf0) >> 4)
}

impl Machine {
    /// One byte pushed on the stack at work.
    #[verifier::opaque]
    pub open spec fn push8(self, s: u8) -> Machine {
        if !self.ok() {
            self
        } else if self.ptr() == 0xff {
            self.fail(Fault::StackOverflow)
        } else {
            self.with_src(
                self.src().update(0xff, (self.ptr() + 1) as u8).update(self.ptr() as int, s),
            )
        }
    }

    /// One byte pushed on the other stack.
    #[verifier::opaque]
    pub open spec fn dst_push8(self, s: u8) -> Machine {
        if !self.ok() {
            self
        } else if self.dst_ptr() == 0xff {
            self.fail(Fault::StackOverflow)
        } else {
            self.with_dst(
                self.dst().update(0xff, (self.dst_ptr() + 1) as u8).update(
                    self.dst_ptr() as int,
                    s,
                ),
            )
        }
    }

    /// A short pushed, high byte first.
    #[verifier::opaque]
    pub open spec fn push16(self, s: u16) -> Machine {
        self.push8((s / 256) as u8).push8((s % 256) as u8)
    }

    /// A short pushed on the other stack, high byte first.
    #[verifier::opaque]
    pub open spec fn dst_push16(self, s: u16) -> Machine {
        self.dst_push8((s / 256) as u8).dst_push8((s % 256) as u8)
    }

    /// A value pushed in the width at hand; in byte mode its low byte.
    #[verifier::opaque]
    pub open spec fn push(self, s: u16) -> Machine {
        if self.r2 {
            self.push16(s)
        } else {
            self.push8((s % 256) as u8)
        }
    }

    /// One byte popped: the byte below `top`. What is popped from a machine
    /// with a fault, or from an empty stack, counts as 0.
    #[verifier::opaque]
    pub open spec fn pop8(self) -> (Machine, u8) {
        if !self.ok() {
            (self, 0)
        } else if self.top() == 0 {
            (self.fail(Fault::StackUnderflow), 0)
        } else {
            (self.dec(), self.src()[self.top() - 1])
        }
    }

    /// A short popped: its low byte lies on top.
    #[verifier::opaque]
    pub open spec fn pop16(self) -> (Machine, u16) {
        let (m1, lo) = self.pop8();
        let (m2, hi) = m1.pop8();
        (m2, (hi * 256 + lo) as u16)
    }

    /// A value popped in the width at hand.
    #[verifier::opaque]
    pub open spec fn pop(self) -> (Machine, u16) {
        if self.r2 {
            self.pop16()
        } else {
            let (m, v) = self.pop8();
            (m, v as u16)
        }
    }

    /// The short at an address of memory, high byte first.
    pub open spec fn peek16(self, x: int) -> u16 {
        (self.ram[x] * 256 + self.ram[wrap(x + 1)]) as u16
    }

    /// The value at an address of memory, in the width at hand.
    pub open spec fn peek(self, x: int) -> u16 {
        if self.r2 {
            self.peek16(x)
        } else {
            self.ram[x] as u16
        }
    }

    /// One byte stored in memory.
    #[verifier::opaque]
    pub open spec fn poke8(self, addr: int, val: u8) -> Machine {
        if !self.ok() {
            self
        } else {
            Machine { ram: self.ram.update(addr, val), ..self }
        }
    }

    /// A value stored in memory in the width at hand: a short high byte
    /// first, and in byte mode its low byte.
    #[verifier::opaque]
    pub open spec fn poke(self, addr: int, val: u16) -> Machine {
        if self.r2 {
            self.poke8(addr, (val / 256) as u8).poke8(wrap(addr + 1), (val % 256) as u8)
        } else {
            self.poke8(addr, (val % 256) as u8)
        }
    }

    /// Where a jump to `addr` leads from `pc`: in short mode to `addr`, in
    /// byte mode as far from `pc` as `addr` says, read as a signed byte.
    pub open spec fn jump(self, addr: int, pc: int) -> int {
        if self.r2 {
            addr
        } else {
            wrap(pc + signed(addr))
        }
    }

    /// The byte at a device port.
    pub open spec fn dei(self, port: int) -> u8 {
        self.dev[port]
    }

    /// The value at a device port in the width at hand; a short continues
    /// at the next port of the page, which closes on itself.
    pub open spec fn devr(self, port: int) -> u16 {
        if self.r2 {
            (self.dei(port) * 256 + self.dei((port + 1) % 0x100)) as u16
        } else {
            self.dei(port) as u16
        }
    }

    /// A short stored in the device page, high byte first, with no device
    /// told of it.
    pub open spec fn dev_poke(self, port: int, val: u16) -> Machine {
        Machine {
            dev: self.dev.update(port, (val / 256) as u8).update(
                (port + 1) % 0x100,
                (val % 256) as u8,
            ),
            ..self
        }
    }

    /// One byte written to a device port: the byte goes to the device page,
    /// and then the device that owns the port is told. The first three
    /// devices are the system, the console and the screen; a write to a
    /// port of any other is noted.
    #[verifier::opaque]
    pub open spec fn deo(self, port: int, val: u8) -> Machine {
        if !self.ok() {
            self
        } else {
            let m = Machine { dev: self.dev.update(port, val), ..self };
            if port / 16 == 0 {
                m.deo_system(port)
            } else if port / 16 == 1 {
                m.deo_console(port, val)
            } else if port / 16 == 2 {
                m.deo_screen(port)
            } else {
                m.note(Diagnostic::UnmappedDevicePort(port as usize))
            }
        }
    }

    /// A value written to a device port in the width at hand: a short as
    /// two writes, the high byte first and the low byte to the next port
    /// of the page, which closes on itself; in byte mode the low byte.
    #[verifier::opaque]
    pub open spec fn devw(self, port: int, val: u16) -> Machine {
        if self.r2 {
            self.deo(port, (val / 256) as u8).deo((port + 1) % 0x100, (val % 256) as u8)
        } else {
            self.deo(port, (val % 256) as u8)
        }
    }

    /// One more diagnostic noted.
    pub open spec fn note(self, d: Diagnostic) -> Machine {
        Machine { log: self.log.push(d), ..self }
    }
}

/// A machine with a fault is left as it is.
pub broadcast proof fn lemma_push8_stays(m: Machine, s: u8)
    requires
        !m.ok(),
    ensures
        #[trigger] m.push8(s) == m,
{
    reveal(Machine::push8);
}

/// A machine with a fault is left as it is.
pub broadcast proof fn lemma_dst_push8_stays(m: Machine, s: u8)
    requires
        !m.ok(),
    ensures
        #[trigger] m.dst_push8(s) == m,
{
    reveal(Machine::dst_push8);
}

/// A machine with a fault is left as it is.
pub broadcast proof fn lemma_push16_stays(m: Machine, s: u16)
    requires
        !m.ok(),
    ensures
        #[trigger] m.push16(s) == m,
{
    reveal(Machine::push16);
    reveal(Machine::push8);
}

/// A machine with a fault is left as it is.
pub broadcast proof fn lemma_dst_push16_stays(m: Machine, s: u16)
    requires
        !m.ok(),
    ensures
        #[trigger] m.dst_push16(s) == m,
{
    reveal(Machine::dst_push16);
    reveal(Machine::dst_push8);
}

/// A machine with a fault is left as it is.
pub broadcast proof fn lemma_push_stays(m: Machine, s: u16)
    requires
        !m.ok(),
    ensures
        #[trigger] m.push(s) == m,
{
    reveal(Machine::push);
    reveal(Machine::push16);
    reveal(Machine::push8);
}

/// A machine with a fault is left as it is.
pub broadcast proof fn lemma_pop8_stays(m: Machine)
    requires
        !m.ok(),
    ensures
        #[trigger] m.pop8() == (m, 0u8),
{
    reveal(Machine::pop8);
}

/// A machine with a fault is left as it is.
pub broadcast proof fn lemma_pop16_stays(m: Machine)
    requires
        !m.ok(),
    ensures
        #[trigger] m.pop16() == (m, 0u16),
{
    reveal(Machine::pop16);
    reveal(Machine::pop8);
}

/// A machine with a fault is left as it is.
pub broadcast proof fn lemma_pop_stays(m: Machine)
    requires
        !m.ok(),
    ensures
        #[trigger] m.pop() == (m, 0u16),
{
    reveal(Machine::pop);
    reveal(Machine::pop16);
    reveal(Machine::pop8);
}

/// A machine with a fault is left as it is.
pub broadcast proof fn lemma_poke8_stays(m: Machine, addr: int, val: u8)
    requires
        !m.ok(),
    ensures
        #[trigger] m.poke8(addr, val) == m,
{
    reveal(Machine::poke8);
}

/// A machine with a fault is left as it is.
pub broadcast proof fn lemma_poke_stays(m: Machine, addr: int, val: u16)
    requires
        !m.ok(),
    ensures
        #[trigger] m.poke(addr, val) == m,
{
    reveal(Machine::poke);
    reveal(Machine::poke8);
}

/// A machine with a fault is left as it is.
pub broadcast proof fn lemma_deo_stays(m: Machine, port: int, val: u8)
    requires
        !m.ok(),
    ensures
        #[trigger] m.deo(port, val) == m,
{
    reveal(Machine::deo);
}

/// A machine with a fault is left as it is.
pub broadcast proof fn lemma_devw_stays(m: Machine, port: int, val: u16)
    requires
        !m.ok(),
    ensures
        #[trigger] m.devw(port, val) == m,
{
    reveal(Machine::devw);
    reveal(Machine::deo);
}

/// Every operation leaves a machine with a fault as it is.
pub broadcast group group_fault_stays {
    lemma_push8_stays,
    lemma_dst_push8_stays,
    lemma_push16_stays,
    lemma_dst_push16_stays,
    lemma_push_stays,
    lemma_pop8_stays,
    lemma_pop16_stays,
    lemma_pop_stays,
    lemma_poke8_stays,
    lemma_poke_stays,
    lemma_deo_stays,
    lemma_devw_stays,
}

/// Shifts a short right by the low nibble of `a`, then left by its high
/// nibble.
pub fn shift(b: u16, a: u16) -> (r: u16)
    ensures
        r == shift16(b, a),
{
    let right: u16 = a & 0x0f;
    let left: u16 = (a & 0xf0) >> 4;
    assert(right < 16) by (bit_vector)
        requires
            right == a & 0x0f,
    ;
    assert(left < 16) by (bit_vector)
        requires
            left == (a & 0xf0) >> 4,
    ;
    (b >> right) << left
}

#[allow(non_snake_case)]
impl UXN {
    /// The displacement that a byte stands for, as what is to be added to
    /// an address of 16 bits.
    pub fn rel(&self, val: usize) -> (r: usize)
        requires
            val < 0x100,
        ensures
            r == wrap(signed(val as int)),
    {
        if val >= 0x80 {
            val + 0xff00
        } else {
            val
        }
    }

    /// The short at an address of memory.
    pub fn PEEK16(&self, x: usize) -> (v: u16)
        requires
            self.wf(),
            x < 0x10000,
        ensures
            v == self@.peek16(x as int),
    {
        let a: u16 = (self.ram[x] as u16) * 256;
        let b: u16 = self.ram[(x + 1) % 0x10000] as u16;
        a + b
    }

    /// The value at an address of memory, in the width at hand.
    pub fn PEEK(&self, x: usize) -> (v: u16)
        requires
            self.wf(),
            x < 0x10000,
        ensures
            v == self@.peek(x as int),
    {
        if self.r2 {
            self.PEEK16(x)
        } else {
            self.ram[x] as u16
        }
    }

    /// Stores a byte in memory.
    pub fn POKE8(&mut self, addr: usize, val: u8)
        requires
            old(self).wf(),
            addr < 0x10000,
        ensures
            final(self).wf(),
            final(self)@ == old(self)@.poke8(addr as int, val),
    {
        reveal(Machine::poke8);
        self.ram[addr] = val;
    }

    /// Stores a value in memory, in the width at hand.
    pub fn POKE(&mut self, addr: usize, val: u16)
        requires
            old(self).wf(),
            addr < 0x10000,
        ensures
            final(self).wf(),
            final(self)@ == old(self)@.poke(addr as int, val),
    {
        reveal(Machine::poke);
        if self.r2 {
            self.POKE8(addr, (val / 256) as u8);
            self.POKE8((addr + 1) % 0x10000, (val % 256) as u8);
        } else {
            self.POKE8(addr, (val % 256) as u8);
        }
    }

    /// Where a jump to `addr` leads from `pc`.
    pub fn JUMP(&self, addr: usize, pc: usize) -> (to: usize)
        requires
            pc < 0x10000,
            addr < (if self.r2 { 0x10000int } else { 0x100int }),
        ensures
            to == self@.jump(addr as int, pc as int),
            to < 0x10000,
    {
        if self.r2 {
            addr
        } else {
            (pc + self.rel(addr)) % 0x10000
        }
    }

    /// Pushes a byte on the other stack.
    pub fn DST_PUSH8(&mut self, s: u8) -> (r: Result<(), Fault>)
        requires
            old(self).wf(),
        ensures
            final(self).wf(),
            old(self)@.dst_push8(s) == final(self)@.after(r),
            final(self).r2 == old(self).r2 && final(self).rr == old(self).rr && final(self).rk == old(
                self,
            ).rk,
    {
        reveal(Machine::dst_push8);
        if self.dst_ptr() == 0xff {
            return Err(Fault::StackOverflow);
        }
        let index = self.dst_inc();
        self.dst_put(index, s);
        Ok(())
    }

    /// Pushes a short on the other stack.
    pub fn DST_PUSH16(&mut self, s: u16) -> (r: Result<(), Fault>)
        requires
            old(self).wf(),
        ensures
            final(self).wf(),
            old(self)@.dst_push16(s) == final(self)@.after(r),
            final(self).r2 == old(self).r2 && final(self).rr == old(self).rr && final(self).rk == old(
                self,
            ).rk,
    {
        reveal(Machine::dst_push16);
        reveal(Machine::dst_push8);
        self.DST_PUSH8((s / 256) as u8)?;
        self.DST_PUSH8((s % 256) as u8)
    }

    /// Pushes a byte.
    pub fn PUSH8(&mut self, s: u8) -> (r: Result<(), Fault>)
        requires
            old(self).wf(),
        ensures
            final(self).wf(),
            old(self)@.push8(s) == final(self)@.after(r),
            final(self).r2 == old(self).r2 && final(self).rr == old(self).rr && final(self).rk == old(
                self,
            ).rk,
    {
        reveal(Machine::push8);
        if self.ptr() == 0xff {
            return Err(Fault::StackOverflow);
        }
        let index = self.inc();
        self.put(index, s);
        Ok(())
    }

    /// Pushes a short.
    pub fn PUSH16(&mut self, s: u16) -> (r: Result<(), Fault>)
        requires
            old(self).wf(),
        ensures
            final(self).wf(),
            old(self)@.push16(s) == final(self)@.after(r),
            final(self).r2 == old(self).r2 && final(self).rr == old(self).rr && final(self).rk == old(
                self,
            ).rk,
    {
        reveal(Machine::push16);
        reveal(Machine::push8);
        self.PUSH8((s / 256) as u8)?;
        self.PUSH8((s % 256) as u8)
    }

    /// Pushes a value in the width at hand.
    pub fn PUSH(&mut self, s: u16) -> (r: Result<(), Fault>)
        requires
            old(self).wf(),
        ensures
            final(self).wf(),
            old(self)@.push(s) == final(self)@.after(r),
            final(self).r2 == old(self).r2 && final(self).rr == old(self).rr && final(self).rk == old(
                self,
            ).rk,
    {
        reveal(Machine::push);
        if self.r2 {
            self.PUSH16(s)
        } else {
            self.PUSH8((s % 256) as u8)
        }
    }

    /// Pops a byte.
    pub fn POP8(&mut self) -> (r: Result<u8, Fault>)
        requires
            old(self).wf(),
        ensures
            final(self).wf(),
            old(self)@.pop8().0 == final(self)@.after(r),
            final(self).r2 == old(self).r2 && final(self).rr == old(self).rr && final(self).rk == old(
                self,
            ).rk,
            r matches Ok(v) ==> v == old(self)@.pop8().1,
    {
        reveal(Machine::pop8);
        let top = if self.rk {
            self.pk
        } else {
            self.ptr() as usize
        };
        if top == 0x00 {
            return Err(Fault::StackUnderflow);
        }
        let index = self.dec();
        Ok(self.get(index))
    }

    /// Pops a short.
    pub fn POP16(&mut self) -> (r: Result<u16, Fault>)
        requires
            old(self).wf(),
        ensures
            final(self).wf(),
            old(self)@.pop16().0 == final(self)@.after(r),
            final(self).r2 == old(self).r2 && final(self).rr == old(self).rr && final(self).rk == old(
                self,
            ).rk,
            r matches Ok(v) ==> v == old(self)@.pop16().1,
    {
        reveal(Machine::pop16);
        reveal(Machine::pop8);
        let a = self.POP8()?;
        let b = self.POP8()?;
        Ok((b as u16) * 256 + (a as u16))
    }

    /// Pops a value in the width at hand.
    pub fn POP(&mut self) -> (r: Result<u16, Fault>)
        requires
            old(self).wf(),
        ensures
            final(self).wf(),
            old(self)@.pop().0 == final(self)@.after(r),
            final(self).r2 == old(self).r2 && final(self).rr == old(self).rr && final(self).rk == old(
                self,
            ).rk,
            r matches Ok(v) ==> v == old(self)@.pop().1 && (old(self).r2 || v < 0x100),
    {
        reveal(Machine::pop);
        reveal(Machine::pop8);
        if self.r2 {
            self.POP16()
        } else {
            Ok(self.POP8()? as u16)
        }
    }

    /// The byte at a device port.
    pub fn DEI(&self, port: usize) -> (v: u8)
        requires
            self.wf(),
            port < 0x100,
        ensures
            v == self@.dei(port as int),
    {
        self.dev[port]
    }

    /// The value at a device port, in the width at hand.
    pub fn DEVR(&self, port: usize) -> (v: u16)
        requires
            self.wf(),
            port < 0x100,
        ensures
            v == self@.devr(port as int),
    {
        if self.r2 {
            (self.DEI(port) as u16) * 256 + (self.DEI((port + 1) % 0x100) as u16)
        } else {
            self.DEI(port) as u16
        }
    }

    /// Writes a byte to a device port and tells the device that owns it.
    pub fn DEO(&mut self, port: usize, val: u8)
        requires
            old(self).wf(),
            port < 0x100,
        ensures
            final(self).wf(),
            final(self)@ == old(self)@.deo(port as int, val),
    {
        reveal(Machine::deo);
        self.dev[port] = val;

        match port / 16 {
            0x0 => crate::devices::system::system(self, port, val),
            0x1 => crate::devices::console::console(self, port, val),
            0x2 => crate::devices::screen::screen(self, port, val),
            _ => self.note(Diagnostic::UnmappedDevicePort(port)),
        }
    }

    /// Writes a value to a device port, in the width at hand.
    pub fn DEVW(&mut self, port: usize, val: u16)
        requires
            old(self).wf(),
            port < 0x100,
        ensures
            final(self).wf(),
            final(self)@ == old(self)@.devw(port as int, val),
    {
        reveal(Machine::devw);
        reveal(Machine::deo);
        if self.r2 {
            self.DEO(port, (val / 256) as u8);
            self.DEO((port + 1) % 0x100, (val % 256) as u8);
        } else {
            self.DEO(port, (val % 256) as u8);
        }
    }

    /// Stores a short in the device page, high byte first, and tells no
    /// device of it.
    pub fn dev_poke(&mut self, port: usize, val: u16)
        requires
            old(self).wf(),
            port < 0x100,
        ensures
            final(self).wf(),
            final(self)@ == old(self)@.dev_poke(port as int, val),
    {
        self.dev[port] = (val / 256) as u8;
        self.dev[(port + 1) % 0x100] = (val % 256) as u8;
    }

    /// Notes a diagnostic.
    pub fn note(&mut self, d: Diagnostic)
        requires
            old(self).wf(),
        ensures
            final(self).wf(),
            final(self)@ == old(self)@.note(d),
    {
        self.log.push(d);
    }
}

} // verus!
