use crate::operations::{add16, mul16, shift, shift16, signed, sub16, wrap};
use crate::system::{Fault, Opcode};
use crate::uxn::{Machine, UXN};
use vstd::prelude::*;

verus! {

impl Machine {
    /// Two values popped: the one on top first.
    #[verifier::opaque]
    pub open spec fn pop2(self) -> (Machine, u16, u16) {
        let (m1, a) = self.pop();
        let (m2, b) = m1.pop();
        (m2, a, b)
    }

    /// An address byte popped, and then a value.
    #[verifier::opaque]
    pub open spec fn pop_at(self) -> (Machine, u16, u16) {
        let (m1, a) = self.pop8();
        let (m2, b) = m1.pop();
        (m2, a as u16, b)
    }

    /// 1 pushed as a byte where `flag` holds, else 0.
    #[verifier::opaque]
    pub open spec fn push_flag(self, flag: bool) -> Machine {
        self.push8(if flag { 1 } else { 0 })
    }

    /// The operations on the stack; `pc` is the address behind the
    /// instruction byte. Gives the machine, and the address of the next
    /// instruction.
    #[verifier::opaque]
    pub open spec fn stack_op(self, op: Opcode, pc: int) -> (Machine, int) {
        match op {
            Opcode::LIT => (self.push(self.peek(pc)), wrap(pc + (if self.r2 { 2int } else { 1int }))),
            Opcode::INC => {
                let (m, a) = self.pop();
                (m.push(add16(a, 1)), pc)
            },
            Opcode::POP => (self.pop().0, pc),
            Opcode::NIP => {
                let (m, a, b) = self.pop2();
                (m.push(a), pc)
            },
            Opcode::SWP => {
                let (m, a, b) = self.pop2();
                (m.push(a).push(b), pc)
            },
            Opcode::ROT => {
                let (m, a, b) = self.pop2();
                let (m3, c) = m.pop();
                (m3.push(b).push(a).push(c), pc)
            },
            Opcode::DUP => {
                let (m, a) = self.pop();
                (m.push(a).push(a), pc)
            },
            Opcode::OVR => {
                let (m, a, b) = self.pop2();
                (m.push(b).push(a).push(b), pc)
            },
            _ => (self, pc),
        }
    }

    /// The comparisons, the jumps, and the move to the other stack.
    #[verifier::opaque]
    pub open spec fn logic_op(self, op: Opcode, pc: int) -> (Machine, int) {
        match op {
            Opcode::EQU => {
                let (m, a, b) = self.pop2();
                (m.push_flag(b == a), pc)
            },
            Opcode::NEQ => {
                let (m, a, b) = self.pop2();
                (m.push_flag(b != a), pc)
            },
            Opcode::GTH => {
                let (m, a, b) = self.pop2();
                (m.push_flag(b > a), pc)
            },
            Opcode::LTH => {
                let (m, a, b) = self.pop2();
                (m.push_flag(b < a), pc)
            },
            Opcode::JMP => {
                let (m, a) = self.pop();
                (m, m.jump(a as int, pc))
            },
            Opcode::JCN => {
                let (m1, a) = self.pop();
                let (m2, c) = m1.pop8();
                (m2, if c != 0 { m2.jump(a as int, pc) } else { pc })
            },
            Opcode::JSR => {
                let (m, a) = self.dst_push16(pc as u16).pop();
                (m, m.jump(a as int, pc))
            },
            Opcode::STH => {
                if self.r2 {
                    let (m, a) = self.pop16();
                    (m.dst_push16(a), pc)
                } else {
                    let (m, a) = self.pop8();
                    (m.dst_push8(a), pc)
                }
            },
            _ => (self, pc),
        }
    }

    /// The loads and stores, of memory and of the device page.
    #[verifier::opaque]
    pub open spec fn memory_op(self, op: Opcode, pc: int) -> (Machine, int) {
        match op {
            Opcode::LDZ => {
                let (m, a) = self.pop8();
                (m.push(m.peek(a as int)), pc)
            },
            Opcode::STZ => {
                let (m, a, b) = self.pop_at();
                (m.poke(a as int, b), pc)
            },
            Opcode::LDR => {
                let (m, a) = self.pop8();
                (m.push(m.peek(wrap(pc + signed(a as int)))), pc)
            },
            Opcode::STR => {
                let (m, a, b) = self.pop_at();
                (m.poke(wrap(pc + signed(a as int)), b), pc)
            },
            Opcode::LDA => {
                let (m, a) = self.pop16();
                (m.push(m.peek(a as int)), pc)
            },
            Opcode::STA => {
                let (m1, a) = self.pop16();
                let (m2, b) = m1.pop();
                (m2.poke(a as int, b), pc)
            },
            Opcode::DEI => {
                let (m, a) = self.pop8();
                (m.push(m.devr(a as int)), pc)
            },
            Opcode::DEO => {
                let (m, a, b) = self.pop_at();
                (m.devw(a as int, b), pc)
            },
            _ => (self, pc),
        }
    }

    /// Arithmetic, and the operations on bits.
    #[verifier::opaque]
    pub open spec fn arith_op(self, op: Opcode, pc: int) -> (Machine, int) {
        match op {
            Opcode::ADD => {
                let (m, a, b) = self.pop2();
                (m.push(add16(b, a)), pc)
            },
            Opcode::SUB => {
                let (m, a, b) = self.pop2();
                (m.push(sub16(b, a)), pc)
            },
            Opcode::MUL => {
                let (m, a, b) = self.pop2();
                (m.push(mul16(b, a)), pc)
            },
            Opcode::DIV => {
                let (m, a, b) = self.pop2();
                if !m.ok() {
                    (m, pc)
                } else if a == 0 {
                    (m.fail(Fault::DivisionByZero), pc)
                } else {
                    (m.push((b / a) as u16), pc)
                }
            },
            Opcode::AND => {
                let (m, a, b) = self.pop2();
                (m.push(b & a), pc)
            },
            Opcode::ORA => {
                let (m, a, b) = self.pop2();
                (m.push(b | a), pc)
            },
            Opcode::EOR => {
                let (m, a, b) = self.pop2();
                (m.push(b ^ a), pc)
            },
            Opcode::SFT => {
                let (m, a, b) = self.pop_at();
                (m.push(shift16(b, a)), pc)
            },
            _ => (self, pc),
        }
    }

    /// One operation carried out; `pc` is the address behind the
    /// instruction byte. Gives the machine, and the address of the next
    /// instruction.
    pub open spec fn execute(self, op: Opcode, pc: int) -> (Machine, int) {
        match op {
            Opcode::LIT
            | Opcode::INC
            | Opcode::POP
            | Opcode::NIP
            | Opcode::SWP
            | Opcode::ROT
            | Opcode::DUP
            | Opcode::OVR => self.stack_op(op, pc),
            Opcode::EQU
            | Opcode::NEQ
            | Opcode::GTH
            | Opcode::LTH
            | Opcode::JMP
            | Opcode::JCN
            | Opcode::JSR
            | Opcode::STH => self.logic_op(op, pc),
            Opcode::LDZ
            | Opcode::STZ
            | Opcode::LDR
            | Opcode::STR
            | Opcode::LDA
            | Opcode::STA
            | Opcode::DEI
            | Opcode::DEO => self.memory_op(op, pc),
            Opcode::ADD
            | Opcode::SUB
            | Opcode::MUL
            | Opcode::DIV
            | Opcode::AND
            | Opcode::ORA
            | Opcode::EOR
            | Opcode::SFT => self.arith_op(op, pc),
        }
    }
}

/// A machine with a fault is left as it is.
pub broadcast proof fn lemma_pop2_stays(m: Machine)
    requires
        !m.ok(),
    ensures
        #[trigger] m.pop2() == (m, 0u16, 0u16),
{
    reveal(Machine::pop2);
    broadcast use crate::operations::group_fault_stays;
}

/// A machine with a fault is left as it is.
pub broadcast proof fn lemma_pop_at_stays(m: Machine)
    requires
        !m.ok(),
    ensures
        #[trigger] m.pop_at() == (m, 0u16, 0u16),
{
    reveal(Machine::pop_at);
    broadcast use crate::operations::group_fault_stays;
}

/// A machine with a fault is left as it is.
pub broadcast proof fn lemma_push_flag_stays(m: Machine, flag: bool)
    requires
        !m.ok(),
    ensures
        #[trigger] m.push_flag(flag) == m,
{
    reveal(Machine::push_flag);
    broadcast use crate::operations::group_fault_stays;
}

/// Every operation leaves a machine with a fault as it is.
pub broadcast group group_stays {
    crate::operations::group_fault_stays,
    lemma_pop2_stays,
    lemma_pop_at_stays,
    lemma_push_flag_stays,
}

/// Sum of two shorts, modulo 0x10000.
fn sum(b: u16, a: u16) -> (r: u16)
    ensures
        r == add16(b, a),
{
    b.wrapping_add(a)
}

/// Difference of two shorts, modulo 0x10000.
fn difference(b: u16, a: u16) -> (r: u16)
    ensures
        r == sub16(b, a),
{
    b.wrapping_sub(a)
}

/// Product of two shorts, modulo 0x10000.
fn product(b: u16, a: u16) -> (r: u16)
    ensures
        r == mul16(b, a),
{
    reveal(mul16);
    b.wrapping_mul(a)
}

#[allow(non_snake_case)]
impl UXN {
    /// Pops two values: the one on top first.
    pub(crate) fn pop2(&mut self) -> (r: Result<(u16, u16), Fault>)
        requires
            old(self).wf(),
        ensures
            final(self).wf(),
            old(self)@.pop2().0 == final(self)@.after(r),
            final(self).r2 == old(self).r2 && final(self).rr == old(self).rr && final(self).rk == old(
                self,
            ).rk,
            r matches Ok(v) ==> v.0 == old(self)@.pop2().1 && v.1 == old(self)@.pop2().2 && (old(
                self,
            ).r2 || (v.0 < 0x100 && v.1 < 0x100)),
    {
        reveal(Machine::pop2);
        broadcast use crate::operations::group_fault_stays;
        let a = self.POP()?;
        let b = self.POP()?;
        Ok((a, b))
    }

    /// Pops an address byte, and then a value.
    pub(crate) fn pop_at(&mut self) -> (r: Result<(u16, u16), Fault>)
        requires
            old(self).wf(),
        ensures
            final(self).wf(),
            old(self)@.pop_at().0 == final(self)@.after(r),
            final(self).r2 == old(self).r2 && final(self).rr == old(self).rr && final(self).rk == old(
                self,
            ).rk,
            r matches Ok(v) ==> v.0 == old(self)@.pop_at().1 && v.1 == old(self)@.pop_at().2 && v.0
                < 0x100,
    {
        reveal(Machine::pop_at);
        broadcast use crate::operations::group_fault_stays;
        let a = self.POP8()?;
        let b = self.POP()?;
        Ok((a as u16, b))
    }

    /// Pushes 1 as a byte where `flag` holds, else 0.
    pub(crate) fn push_flag(&mut self, flag: bool) -> (r: Result<(), Fault>)
        requires
            old(self).wf(),
        ensures
            final(self).wf(),
            old(self)@.push_flag(flag) == final(self)@.after(r),
            final(self).r2 == old(self).r2 && final(self).rr == old(self).rr && final(self).rk == old(
                self,
            ).rk,
    {
        reveal(Machine::push_flag);
        if flag {
            self.PUSH8(1)
        } else {
            self.PUSH8(0)
        }
    }

    /// The address that lies as far from `pc` as a byte says, read as a
    /// signed displacement.
    pub(crate) fn near(&self, pc: usize, a: usize) -> (addr: usize)
        requires
            pc < 0x10000,
            a < 0x100,
        ensures
            addr == wrap(pc + signed(a as int)),
            addr < 0x10000,
    {
        (pc + self.rel(a)) % 0x10000
    }

    /// Carries out an operation on the stack.
    #[verifier::rlimit(40)]
    pub(crate) fn stack_op(&mut self, op: Opcode, pc: usize) -> (r: Result<usize, Fault>)
        requires
            old(self).wf(),
            pc < 0x10000,
        ensures
            final(self).wf(),
            old(self)@.stack_op(op, pc as int).0 == final(self)@.after(r),
            r matches Ok(next) ==> next == old(self)@.stack_op(op, pc as int).1 && next < 0x10000,
    {
        reveal(Machine::stack_op);
        broadcast use group_stays;
        let mut pc = pc;
        match op {
            Opcode::LIT => {
                let next = (pc + (if self.r2 { 2 } else { 1 })) % 0x10000;
                self.PUSH(self.PEEK(pc))?;
                pc = next;
            },
            Opcode::INC => {
                let a = self.POP()?;
                self.PUSH(sum(a, 1))?;
            },
            Opcode::POP => {
                self.POP()?;
            },
            Opcode::NIP => {
                let (a, b) = self.pop2()?;
                self.PUSH(a)?;
            },
            Opcode::SWP => {
                let (a, b) = self.pop2()?;
                self.PUSH(a)?;
                self.PUSH(b)?;
            },
            Opcode::ROT => {
                let (a, b) = self.pop2()?;
                let c = self.POP()?;
                self.PUSH(b)?;
                self.PUSH(a)?;
                self.PUSH(c)?;
            },
            Opcode::DUP => {
                let a = self.POP()?;
                self.PUSH(a)?;
                self.PUSH(a)?;
            },
            Opcode::OVR => {
                let (a, b) = self.pop2()?;
                self.PUSH(b)?;
                self.PUSH(a)?;
                self.PUSH(b)?;
            },
            _ => {},
        }
        Ok(pc)
    }

    /// Carries out a comparison, a jump, or the move to the other stack.
    #[verifier::rlimit(40)]
    pub(crate) fn logic_op(&mut self, op: Opcode, pc: usize) -> (r: Result<usize, Fault>)
        requires
            old(self).wf(),
            pc < 0x10000,
        ensures
            final(self).wf(),
            old(self)@.logic_op(op, pc as int).0 == final(self)@.after(r),
            r matches Ok(next) ==> next == old(self)@.logic_op(op, pc as int).1 && next < 0x10000,
    {
        reveal(Machine::logic_op);
        broadcast use group_stays;
        let mut pc = pc;
        match op {
            Opcode::EQU => {
                let (a, b) = self.pop2()?;
                self.push_flag(b == a)?;
            },
            Opcode::NEQ => {
                let (a, b) = self.pop2()?;
                self.push_flag(b != a)?;
            },
            Opcode::GTH => {
                let (a, b) = self.pop2()?;
                self.push_flag(b > a)?;
            },
            Opcode::LTH => {
                let (a, b) = self.pop2()?;
                self.push_flag(b < a)?;
            },
            Opcode::JMP => {
                let a = self.POP()?;
                pc = self.JUMP(a as usize, pc);
            },
            Opcode::JCN => {
                let a = self.POP()?;
                if self.POP8()? != 0 {
                    pc = self.JUMP(a as usize, pc);
                }
            },
            Opcode::JSR => {
                self.DST_PUSH16(pc as u16)?;
                let a = self.POP()?;
                pc = self.JUMP(a as usize, pc);
            },
            Opcode::STH => {
                if self.r2 {
                    let a = self.POP16()?;
                    self.DST_PUSH16(a)?;
                } else {
                    let a = self.POP8()?;
                    self.DST_PUSH8(a)?;
                }
            },
            _ => {},
        }
        Ok(pc)
    }

    /// Carries out a load or a store.
    #[verifier::rlimit(40)]
    pub(crate) fn memory_op(&mut self, op: Opcode, pc: usize) -> (r: Result<usize, Fault>)
        requires
            old(self).wf(),
            pc < 0x10000,
        ensures
            final(self).wf(),
            old(self)@.memory_op(op, pc as int).0 == final(self)@.after(r),
            r matches Ok(next) ==> next == old(self)@.memory_op(op, pc as int).1 && next < 0x10000,
    {
        reveal(Machine::memory_op);
        broadcast use group_stays;
        match op {
            Opcode::LDZ => {
                let a = self.POP8()?;
                self.PUSH(self.PEEK(a as usize))?;
            },
            Opcode::STZ => {
                let (a, b) = self.pop_at()?;

                self.POKE(a as usize, b);
            },
            Opcode::LDR => {
                let a = self.POP8()?;

                self.PUSH(self.PEEK(self.near(pc, a as usize)))?;
            },
            Opcode::STR => {
                let (a, b) = self.pop_at()?;

                self.POKE(self.near(pc, a as usize), b);
            },
            Opcode::LDA => {
                let a = self.POP16()?;

                self.PUSH(self.PEEK(a as usize))?;
            },
            Opcode::STA => {
                let a = self.POP16()?;
                let b = self.POP()?;

                self.POKE(a as usize, b);
            },
            Opcode::DEI => {
                let a = self.POP8()?;

                self.PUSH(self.DEVR(a as usize))?;
            },
            Opcode::DEO => {
                let (a, b) = self.pop_at()?;

                self.DEVW(a as usize, b);
            },
            _ => {},
        }
        Ok(pc)
    }

    /// Carries out an operation of arithmetic, or one on bits.
    #[verifier::rlimit(40)]
    pub(crate) fn arith_op(&mut self, op: Opcode, pc: usize) -> (r: Result<usize, Fault>)
        requires
            old(self).wf(),
            pc < 0x10000,
        ensures
            final(self).wf(),
            old(self)@.arith_op(op, pc as int).0 == final(self)@.after(r),
            r matches Ok(next) ==> next == old(self)@.arith_op(op, pc as int).1 && next < 0x10000,
    {
        reveal(Machine::arith_op);
        broadcast use group_stays;
        match op {
            Opcode::ADD => {
                let (a, b) = self.pop2()?;
                self.PUSH(sum(b, a))?;
            },
            Opcode::SUB => {
                let (a, b) = self.pop2()?;
                self.PUSH(difference(b, a))?;
            },
            Opcode::MUL => {
                let (a, b) = self.pop2()?;
                self.PUSH(product(b, a))?;
            },
            Opcode::DIV => {
                let (a, b) = self.pop2()?;

                if a == 0 {
                    return Err(Fault::DivisionByZero);
                }
                self.PUSH(b / a)?;
            },
            Opcode::AND => {
                let (a, b) = self.pop2()?;
                self.PUSH(b & a)?;
            },
            Opcode::ORA => {
                let (a, b) = self.pop2()?;
                self.PUSH(b | a)?;
            },
            Opcode::EOR => {
                let (a, b) = self.pop2()?;
                self.PUSH(b ^ a)?;
            },
            Opcode::SFT => {
                let (a, b) = self.pop_at()?;

                self.PUSH(shift(b, a))?;
            },
            _ => {},
        }
        Ok(pc)
    }
}

} // verus!
