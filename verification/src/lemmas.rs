use crate::operations::{add16, mul16, sub16};
use crate::system::{Fault, Opcode};
use crate::uxn::Machine;
use vstd::prelude::*;

verus! {

impl Machine {
    /// Bytes pushed one after the other, the first of them first.
    pub open spec fn push_all(self, bytes: Seq<u8>) -> Machine
        decreases bytes.len(),
    {
        if bytes.len() == 0 {
            self
        } else {
            self.push_all(bytes.drop_last()).push8(bytes.last())
        }
    }
}

/// A byte that is pushed lies on top of what the stack held.
pub proof fn lemma_push8(m: Machine, v: u8)
    requires
        m.wf(),
        m.ok(),
        m.ptr() < 0xff,
    ensures
        m.push8(v).wf(),
        m.push8(v).ok(),
        m.push8(v).ptr() == m.ptr() + 1,
        m.push8(v).stack() == m.stack().push(v),
{
    reveal(Machine::push8);
    assert(m.push8(v).stack() =~= m.stack().push(v));
}

/// A push and then a pop are each other's inverse: outside keep mode, the
/// stack is as deep as it was and holds what it held, and where the push
/// found room the pop gives the byte back.
pub proof fn lemma_push8_pop8(m: Machine, v: u8)
    requires
        m.wf(),
        m.ok(),
        !m.rk,
    ensures
        m.push8(v).pop8().0.ptr() == m.ptr(),
        m.push8(v).pop8().0.stack() == m.stack(),
        m.ptr() < 0xff ==> m.push8(v).pop8().0.ok() && m.push8(v).pop8().1 == v,
        m.ptr() < 0xff ==> m.push8(v).pop8().0 == m.with_src(m.src().update(m.ptr() as int, v)),
{
    reveal(Machine::push8);
    reveal(Machine::pop8);
    let after = m.push8(v).pop8().0;
    assert(after.stack() =~= m.stack());
    if m.ptr() < 0xff {
        assert(after.src() =~= m.src().update(m.ptr() as int, v));
    }
}

/// In keep mode a pop reads below the kept depth and leaves both stacks as
/// they are.
pub proof fn lemma_pop8_keeps(m: Machine)
    requires
        m.ok(),
        m.rk,
        m.pk > 0,
    ensures
        m.pop8().0 == (Machine { pk: (m.pk - 1) as usize, ..m }),
        m.pop8().1 == m.src()[m.pk - 1],
{
    reveal(Machine::pop8);
}

/// Pushes succeed as long as the stack is less than 255 deep, and lay their
/// bytes on top of what the stack held.
pub proof fn lemma_push_all(m: Machine, bytes: Seq<u8>)
    requires
        m.wf(),
        m.ok(),
        m.ptr() + bytes.len() <= 0xff,
    ensures
        m.push_all(bytes).wf(),
        m.push_all(bytes).ok(),
        m.push_all(bytes).ptr() == m.ptr() + bytes.len(),
        m.push_all(bytes).stack() == m.stack() + bytes,
    decreases bytes.len(),
{
    if bytes.len() == 0 {
        assert(m.stack() + bytes =~= m.stack());
    } else {
        lemma_push_all(m, bytes.drop_last());
        lemma_push8(m.push_all(bytes.drop_last()), bytes.last());
        assert(m.stack() + bytes =~= (m.stack() + bytes.drop_last()).push(bytes.last()));
    }
}

/// A push on a stack that is 255 deep fails with `StackOverflow` and changes
/// nothing.
pub proof fn lemma_overflow(m: Machine, v: u8)
    requires
        m.ok(),
        m.ptr() == 0xff,
    ensures
        m.push8(v) == m.fail(Fault::StackOverflow),
        m.push8(v).ptr() == 0xff,
        m.push8(v).settled() == m,
{
    reveal(Machine::push8);
}

/// On an empty stack 255 pushes succeed, whatever the bytes, and the next
/// one fails with `StackOverflow` and leaves the stack 255 deep.
pub proof fn lemma_255_pushes(m: Machine, bytes: Seq<u8>, v: u8)
    requires
        m.wf(),
        m.ok(),
        m.ptr() == 0,
        bytes.len() == 255,
    ensures
        m.push_all(bytes).ok(),
        m.push_all(bytes).stack() == bytes,
        m.push_all(bytes).push8(v) == m.push_all(bytes).fail(Fault::StackOverflow),
        m.push_all(bytes).push8(v).ptr() == 255,
{
    lemma_push_all(m, bytes);
    lemma_overflow(m.push_all(bytes), v);
    assert(m.stack() + bytes =~= bytes);
}

/// A pop where nothing is left to read fails with `StackUnderflow` and
/// changes nothing: outside keep mode on an empty stack, in keep mode at a
/// kept depth of 0.
pub proof fn lemma_underflow(m: Machine)
    requires
        m.ok(),
        m.top() == 0,
    ensures
        m.pop8() == (m.fail(Fault::StackUnderflow), 0u8),
        m.pop16().0 == m.fail(Fault::StackUnderflow),
        m.pop().0 == m.fail(Fault::StackUnderflow),
{
    reveal(Machine::pop8);
    reveal(Machine::pop16);
    reveal(Machine::pop);
}

/// The bytes that stand for a value on a stack: in short mode its high byte
/// and then its low byte, in byte mode its low byte.
pub open spec fn cells(short: bool, s: u16) -> Seq<u8> {
    if short {
        seq![(s / 256) as u8, (s % 256) as u8]
    } else {
        seq![(s % 256) as u8]
    }
}

/// The value that the topmost bytes of a stack stand for.
pub open spec fn topmost(short: bool, stack: Seq<u8>) -> u16 {
    if short {
        (stack[stack.len() - 2] * 256 + stack[stack.len() - 1]) as u16
    } else {
        stack[stack.len() - 1] as u16
    }
}

/// What the values of a width are counted modulo.
pub open spec fn modulus(short: bool) -> int {
    if short {
        0x10000
    } else {
        0x100
    }
}

impl Machine {
    /// Bytes of a value in the width at hand.
    pub open spec fn width(self) -> int {
        if self.r2 {
            2
        } else {
            1
        }
    }

    /// The same mode, and memory and devices as they were.
    pub open spec fn same_but_stacks(self, m: Machine) -> bool {
        self == (Machine { wst: self.wst, rst: self.rst, pk: self.pk, ..m })
    }
}

/// A value that is pushed lies on top of what the stack held, in the bytes
/// that stand for it.
pub proof fn lemma_push(m: Machine, s: u16)
    requires
        m.wf(),
        m.ok(),
        m.ptr() + m.width() <= 0xff,
    ensures
        m.push(s).wf(),
        m.push(s).ok(),
        m.push(s).same_but_stacks(m),
        m.push(s).dst() == m.dst(),
        m.push(s).pk == m.pk,
        m.push(s).ptr() == m.ptr() + m.width(),
        m.push(s).stack() == m.stack() + cells(m.r2, s),
{
    reveal(Machine::push);
    reveal(Machine::push16);
    reveal(Machine::push8);
    assert(m.push(s).stack() =~= m.stack() + cells(m.r2, s));
}

/// Outside keep mode, a pop takes the topmost value off the stack.
pub proof fn lemma_pop(m: Machine)
    requires
        m.wf(),
        m.ok(),
        !m.rk,
        m.ptr() >= m.width(),
    ensures
        m.pop().0.wf(),
        m.pop().0.ok(),
        m.pop().0.same_but_stacks(m),
        m.pop().0.dst() == m.dst(),
        m.pop().0.pk == m.pk,
        m.pop().0.ptr() == m.ptr() - m.width(),
        m.pop().0.stack() == m.stack().take(m.ptr() - m.width()),
        m.pop().1 == topmost(m.r2, m.stack()),
{
    reveal(Machine::pop);
    reveal(Machine::pop16);
    reveal(Machine::pop8);
    assert(m.pop().0.stack() =~= m.stack().take(m.ptr() - m.width()));
}

/// What is pushed is what is popped next.
pub proof fn lemma_push_pop(m: Machine, s: u16)
    requires
        m.wf(),
        m.ok(),
        !m.rk,
        m.ptr() + m.width() <= 0xff,
    ensures
        m.push(s).pop().0.ok(),
        m.push(s).pop().0.stack() == m.stack(),
        m.push(s).pop().1 == (s as int) % modulus(m.r2),
{
    lemma_push(m, s);
    lemma_pop(m.push(s));
    assert(m.push(s).pop().0.stack() =~= m.stack());
}

/// What an operation of arithmetic makes of `b` and `a`, where it makes
/// anything: sums, differences and products are counted modulo 0x100 in
/// byte mode and modulo 0x10000 in short mode, and a quotient is rounded
/// toward zero.
#[verifier::opaque]
pub open spec fn arithmetic(op: Opcode, short: bool, b: int, a: int) -> Option<int> {
    match op {
        Opcode::ADD => Some((b + a) % modulus(short)),
        Opcode::SUB => Some((b - a) % modulus(short)),
        Opcode::MUL => Some((b * a) % modulus(short)),
        Opcode::DIV => if a == 0 {
            None
        } else {
            Some(b / a)
        },
        _ => None,
    }
}

/// What the machine computes for an operation of arithmetic.
pub open spec fn computed(op: Opcode, b: u16, a: u16) -> u16 {
    match op {
        Opcode::ADD => add16(b, a),
        Opcode::SUB => sub16(b, a),
        Opcode::MUL => mul16(b, a),
        _ => (b / a) as u16,
    }
}

/// The machine computes in 16 bits what `arithmetic` says of the width at
/// hand: counting modulo 0x10000 and then keeping the low byte is counting
/// modulo 0x100.
pub proof fn lemma_computed(op: Opcode, short: bool, b: u16, a: u16)
    requires
        b < modulus(short),
        a < modulus(short),
        op == Opcode::ADD || op == Opcode::SUB || op == Opcode::MUL || op == Opcode::DIV,
    ensures
        arithmetic(op, short, b as int, a as int) is None <==> op == Opcode::DIV && a == 0,
        arithmetic(op, short, b as int, a as int) matches Some(v) ==> 0 <= v < modulus(short)
            && cells(short, computed(op, b, a)) == cells(short, v as u16),
{
    reveal(arithmetic);
    reveal(mul16);
    if op == Opcode::ADD {
        lemma_low_bits_of(b + a, short);
    } else if op == Opcode::SUB {
        lemma_low_bits_of(b - a, short);
    } else if op == Opcode::MUL {
        lemma_low_bits_of(b * a, short);
    } else if a != 0 {
        assert(0 <= (b as int) / (a as int) <= b) by (nonlinear_arith)
            requires
                0 <= b,
                0 < a,
        ;
    }
    if arithmetic(op, short, b as int, a as int) is Some {
        let v = arithmetic(op, short, b as int, a as int)->Some_0;
        assert((computed(op, b, a) as int) % modulus(short) == v);
        assert(cells(short, computed(op, b, a)) =~= cells(short, v as u16));
    }
}

/// The same, of a number.
pub proof fn lemma_low_bits_of(v: int, short: bool)
    ensures
        0 <= v % modulus(short) < modulus(short),
        0 <= v % 0x10000 < 0x10000,
        (v % 0x10000) % modulus(short) == v % modulus(short),
{
    if short {
        vstd::arithmetic::div_mod::lemma_mod_twice(v, 0x10000);
    } else {
        vstd::arithmetic::div_mod::lemma_mod_mod(v, 0x100, 0x100);
    }
}

/// With `b` and above it `a` on the stack, outside keep mode, an operation
/// of arithmetic leaves in their place what `arithmetic` says, and a
/// division by zero fails with `DivisionByZero`.
pub proof fn lemma_arithmetic(m: Machine, op: Opcode, b: u16, a: u16, pc: int)
    requires
        m.wf(),
        m.ok(),
        !m.rk,
        m.ptr() + 2 * m.width() <= 0xff,
        b < modulus(m.r2),
        a < modulus(m.r2),
        op == Opcode::ADD || op == Opcode::SUB || op == Opcode::MUL || op == Opcode::DIV,
    ensures
        ({
            let after = m.push(b).push(a).arith_op(op, pc);
            match arithmetic(op, m.r2, b as int, a as int) {
                Some(v) => after.0.ok() && after.0.stack() == m.stack() + cells(m.r2, v as u16)
                    && after.1 == pc,
                None => op == Opcode::DIV && a == 0 && after.0.fault == Some(Fault::DivisionByZero),
            }
        }),
{
    lemma_computed(op, m.r2, b, a);
    let m1 = m.push(b);
    lemma_push(m, b);
    let m2 = m1.push(a);
    lemma_push(m1, a);
    lemma_pop(m2);
    let m3 = m2.pop().0;
    assert(m3.stack() =~= m1.stack());
    lemma_pop(m3);
    let m4 = m3.pop().0;
    assert(m4.stack() =~= m.stack());
    assert(m2.pop().1 == a);
    assert(m3.pop().1 == b);
    assert(m2.pop2() == (m4, a, b)) by {
        reveal(Machine::pop2);
    }
    assert(m2.arith_op(op, pc) == (if op == Opcode::DIV && a == 0 {
        (m4.fail(Fault::DivisionByZero), pc)
    } else {
        (m4.push(computed(op, b, a)), pc)
    })) by {
        reveal(Machine::arith_op);
    }
    lemma_push(m4, computed(op, b, a));
}

/// The byte that a comparison pushes.
pub open spec fn flag(holds: bool) -> Seq<u8> {
    seq![if holds { 1u8 } else { 0u8 }]
}

/// What an operation on one value leaves in its place, in bytes.
pub open spec fn unary(op: Opcode, short: bool, a: u16) -> Option<Seq<u8>> {
    match op {
        Opcode::INC => Some(cells(short, ((a + 1) % modulus(short)) as u16)),
        Opcode::POP => Some(Seq::empty()),
        Opcode::DUP => Some(cells(short, a) + cells(short, a)),
        _ => None,
    }
}

/// What an operation on two values leaves in their place, in bytes; `a` is
/// the value on top. A comparison leaves one byte in either mode.
pub open spec fn binary(op: Opcode, short: bool, b: u16, a: u16) -> Option<Seq<u8>> {
    match op {
        Opcode::NIP => Some(cells(short, a)),
        Opcode::SWP => Some(cells(short, a) + cells(short, b)),
        Opcode::OVR => Some(cells(short, b) + cells(short, a) + cells(short, b)),
        Opcode::EQU => Some(flag(b == a)),
        Opcode::NEQ => Some(flag(b != a)),
        Opcode::GTH => Some(flag(b > a)),
        Opcode::LTH => Some(flag(b < a)),
        Opcode::ADD | Opcode::SUB | Opcode::MUL | Opcode::DIV => match arithmetic(
            op,
            short,
            b as int,
            a as int,
        ) {
            Some(v) => Some(cells(short, v as u16)),
            None => None,
        },
        Opcode::AND => Some(cells(short, b & a)),
        Opcode::ORA => Some(cells(short, b | a)),
        Opcode::EOR => Some(cells(short, b ^ a)),
        _ => None,
    }
}

/// With `a` on the stack, outside keep mode, an operation on one value
/// leaves in its place what `unary` says.
pub proof fn lemma_unary(m: Machine, op: Opcode, a: u16, pc: int)
    requires
        m.wf(),
        m.ok(),
        !m.rk,
        m.ptr() + 2 * m.width() <= 0xff,
        a < modulus(m.r2),
        unary(op, m.r2, a) is Some,
    ensures
        ({
            let after = m.push(a).execute(op, pc);
            &&& after.0.ok()
            &&& after.0.stack() == m.stack() + unary(op, m.r2, a)->Some_0
            &&& after.1 == pc
        }),
{
    reveal(Machine::stack_op);
    let m1 = m.push(a);
    lemma_push(m, a);
    lemma_pop(m1);
    let m2 = m1.pop().0;
    assert(m2.stack() =~= m.stack());
    assert(m1.pop().1 == a);
    match op {
        Opcode::INC => {
            lemma_push(m2, crate::operations::add16(a, 1));
            assert(cells(m.r2, crate::operations::add16(a, 1)) =~= cells(
                m.r2,
                ((a + 1) % modulus(m.r2)) as u16,
            ));
        },
        Opcode::POP => {
            assert(m.stack() + Seq::<u8>::empty() =~= m.stack());
        },
        _ => {
            lemma_push(m2, a);
            lemma_push(m2.push(a), a);
            assert(m.stack() + cells(m.r2, a) + cells(m.r2, a) =~= m.stack() + (cells(m.r2, a)
                + cells(m.r2, a)));
        },
    }
}

/// With `b` and above it `a` on the stack, outside keep mode, an operation
/// on two values leaves in their place what `binary` says, and a division
/// by zero fails with `DivisionByZero`.
pub proof fn lemma_binary(m: Machine, op: Opcode, b: u16, a: u16, pc: int)
    requires
        m.wf(),
        m.ok(),
        !m.rk,
        m.ptr() + 3 * m.width() <= 0xff,
        b < modulus(m.r2),
        a < modulus(m.r2),
        binary(op, m.r2, b, a) is Some || op == Opcode::DIV,
    ensures
        ({
            let after = m.push(b).push(a).execute(op, pc);
            match binary(op, m.r2, b, a) {
                Some(bytes) => after.0.ok() && after.0.stack() == m.stack() + bytes && after.1
                    == pc,
                None => a == 0 && after.0.fault == Some(Fault::DivisionByZero),
            }
        }),
{
    reveal(Machine::stack_op);
    reveal(Machine::logic_op);
    reveal(Machine::arith_op);
    reveal(Machine::pop2);
    reveal(Machine::push_flag);
    let s = m.stack();
    let m1 = m.push(b);
    lemma_push(m, b);
    let m2 = m1.push(a);
    lemma_push(m1, a);
    lemma_pop(m2);
    let m3 = m2.pop().0;
    assert(m3.stack() =~= m1.stack());
    lemma_pop(m3);
    let m4 = m3.pop().0;
    assert(m4.stack() =~= s);
    assert(m2.pop().1 == a);
    assert(m3.pop().1 == b);
    assert(m2.pop2() == (m4, a, b));
    let x = cells(m.r2, a);
    let y = cells(m.r2, b);
    match op {
        Opcode::NIP => {
            lemma_push(m4, a);
        },
        Opcode::SWP => {
            lemma_push(m4, a);
            lemma_push(m4.push(a), b);
            assert(s + x + y =~= s + (x + y));
        },
        Opcode::OVR => {
            lemma_push(m4, b);
            lemma_push(m4.push(b), a);
            lemma_push(m4.push(b).push(a), b);
            assert(s + y + x + y =~= s + (y + x + y));
        },
        Opcode::EQU | Opcode::NEQ | Opcode::GTH | Opcode::LTH => {
            let holds = match op {
                Opcode::EQU => b == a,
                Opcode::NEQ => b != a,
                Opcode::GTH => b > a,
                _ => b < a,
            };
            lemma_push8(m4, if holds { 1u8 } else { 0u8 });
            assert(s.push(if holds { 1u8 } else { 0u8 }) =~= s + flag(holds));
        },
        Opcode::ADD | Opcode::SUB | Opcode::MUL | Opcode::DIV => {
            lemma_arithmetic(m, op, b, a, pc);
        },
        Opcode::AND => {
            lemma_push(m4, b & a);
        },
        Opcode::ORA => {
            lemma_push(m4, b | a);
        },
        _ => {
            lemma_push(m4, b ^ a);
        },
    }
}

/// With `c`, `b` and `a` on the stack, `a` on top, outside keep mode, ROT
/// leaves `b`, `a` and `c` in their place, `c` on top.
pub proof fn lemma_rot(m: Machine, c: u16, b: u16, a: u16, pc: int)
    requires
        m.wf(),
        m.ok(),
        !m.rk,
        m.ptr() + 3 * m.width() <= 0xff,
        c < modulus(m.r2),
        b < modulus(m.r2),
        a < modulus(m.r2),
    ensures
        ({
            let after = m.push(c).push(b).push(a).execute(Opcode::ROT, pc);
            &&& after.0.ok()
            &&& after.0.stack() == m.stack() + cells(m.r2, b) + cells(m.r2, a) + cells(m.r2, c)
            &&& after.1 == pc
        }),
{
    reveal(Machine::stack_op);
    reveal(Machine::pop2);
    let s = m.stack();
    let m1 = m.push(c);
    lemma_push(m, c);
    let m2 = m1.push(b);
    lemma_push(m1, b);
    let m3 = m2.push(a);
    lemma_push(m2, a);
    lemma_pop(m3);
    let m4 = m3.pop().0;
    assert(m4.stack() =~= m2.stack());
    lemma_pop(m4);
    let m5 = m4.pop().0;
    assert(m5.stack() =~= m1.stack());
    lemma_pop(m5);
    let m6 = m5.pop().0;
    assert(m6.stack() =~= s);
    assert(m3.pop().1 == a);
    assert(m4.pop().1 == b);
    assert(m5.pop().1 == c);
    assert(m3.pop2() == (m5, a, b));
    lemma_push(m6, b);
    lemma_push(m6.push(b), a);
    lemma_push(m6.push(b).push(a), c);
}

/// LIT pushes the value that lies behind the instruction, and the next
/// instruction is the one behind that value.
pub proof fn lemma_lit(m: Machine, pc: int)
    requires
        m.wf(),
        m.ok(),
        0 <= pc < 0x10000,
        m.ptr() + m.width() <= 0xff,
    ensures
        ({
            let after = m.execute(Opcode::LIT, pc);
            &&& after.0.ok()
            &&& after.0.stack() == m.stack() + (if m.r2 {
                seq![m.ram[pc], m.ram[(pc + 1) % 0x10000]]
            } else {
                seq![m.ram[pc]]
            })
            &&& after.1 == (pc + m.width()) % 0x10000
        }),
{
    reveal(Machine::stack_op);
    lemma_push(m, m.peek(pc));
    assert(cells(m.r2, m.peek(pc)) =~= (if m.r2 {
        seq![m.ram[pc], m.ram[(pc + 1) % 0x10000]]
    } else {
        seq![m.ram[pc]]
    }));
}

/// A short that is pushed on the other stack lies on top of what that stack
/// held, and the stack at work is left alone.
pub proof fn lemma_dst_push16(m: Machine, s: u16)
    requires
        m.wf(),
        m.ok(),
        m.dst_ptr() + 2 <= 0xff,
    ensures
        m.dst_push16(s).wf(),
        m.dst_push16(s).ok(),
        m.dst_push16(s).same_but_stacks(m),
        m.dst_push16(s).src() == m.src(),
        m.dst_push16(s).pk == m.pk,
        m.dst_push16(s).dst_ptr() == m.dst_ptr() + 2,
        m.dst_push16(s).dst_stack() == m.dst_stack() + cells(true, s),
{
    reveal(Machine::dst_push16);
    reveal(Machine::dst_push8);
    assert(m.dst_push16(s).dst_stack() =~= m.dst_stack() + cells(true, s));
}

/// A call and the return from it: JSR jumps to its target and stashes the
/// address behind itself on the other stack; a JMP in short mode that then
/// works on that other stack leads back to the address behind the JSR, and
/// leaves both stacks as they were before the call.
pub proof fn lemma_call_return(m: Machine, target: u16, pc: int, at: int)
    requires
        m.wf(),
        m.ok(),
        !m.rk,
        0 <= pc < 0x10000,
        target < modulus(m.r2),
        m.ptr() + m.width() <= 0xff,
        m.dst_ptr() + 2 <= 0xff,
    ensures
        ({
            let called = m.push(target).execute(Opcode::JSR, pc);
            let back = Machine { r2: true, rr: !m.rr, rk: false, ..called.0 };
            let returned = back.execute(Opcode::JMP, at);
            &&& called.0.ok()
            &&& called.1 == m.jump(target as int, pc)
            &&& called.0.stack() == m.stack()
            &&& called.0.dst_stack() == m.dst_stack() + cells(true, pc as u16)
            &&& returned.0.ok()
            &&& returned.1 == pc
            &&& returned.0.stack() == m.dst_stack()
            &&& returned.0.dst_stack() == m.stack()
        }),
{
    reveal(Machine::logic_op);
    let m1 = m.push(target);
    lemma_push(m, target);
    let m2 = m1.dst_push16(pc as u16);
    lemma_dst_push16(m1, pc as u16);
    assert(m2.stack() == m1.stack());
    lemma_pop(m2);
    let m3 = m2.pop().0;
    assert(m3.stack() =~= m.stack());
    assert(m2.pop().1 == target);
    assert(m3.dst_stack() == m2.dst_stack());
    let back = Machine { r2: true, rr: !m.rr, rk: false, ..m3 };
    assert(back.stack() == m3.dst_stack());
    assert(back.dst_stack() == m3.stack());
    lemma_pop(back);
    assert(back.pop().0.stack() =~= m.dst_stack());
    assert(back.pop().1 == pc);
}

} // verus!
