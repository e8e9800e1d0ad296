use crate::system::Opcode;
use crate::uxn::Machine;
use vstd::prelude::*;

verus! {

impl Machine {
    /// In keep mode, what holds of a machine while it carries out an
    /// instruction that found it as `was`: it works on the same stack, the
    /// stack is at least as deep as it was and holds below that depth what
    /// it held.
    pub closed spec fn kept(self, was: Machine) -> bool {
        &&& self.rk
        &&& self.rr == was.rr
        &&& self.wst.len() == 0x100
        &&& self.rst.len() == 0x100
        &&& was.wst.len() == 0x100
        &&& was.rst.len() == 0x100
        &&& self.ptr() >= was.ptr()
        &&& forall|i: int| 0 <= i < was.ptr() ==> self.src()[i] == was.src()[i]
    }

    /// In keep mode, what holds of a machine while it carries out an
    /// instruction that pushes nothing on the stack it works on, and that
    /// found the machine as `was`: the window of that stack is as it was,
    /// depth and all.
    pub closed spec fn untouched(self, was: Machine) -> bool {
        &&& self.rk
        &&& self.rr == was.rr
        &&& self.src() == was.src()
    }
}

/// A machine in keep mode has kept what it holds.
pub proof fn lemma_kept_start(m: Machine)
    requires
        m.rk,
        m.wst.len() == 0x100,
        m.rst.len() == 0x100,
    ensures
        m.kept(m),
        m.untouched(m),
{
}

/// What `kept` says.
pub proof fn lemma_kept(m: Machine, was: Machine)
    requires
        m.kept(was),
    ensures
        m.rk,
        m.rr == was.rr,
        m.ptr() >= was.ptr(),
        m.src().take(was.ptr() as int) == was.stack(),
{
    assert(m.src().take(was.ptr() as int) =~= was.stack());
}

/// What `untouched` says.
pub proof fn lemma_untouched(m: Machine, was: Machine)
    requires
        m.untouched(was),
    ensures
        m.rk,
        m.rr == was.rr,
        m.src() == was.src(),
        m.ptr() == was.ptr(),
        m.stack() == was.stack(),
{
}

/// A failure keeps what the stack at work held.
pub broadcast proof fn lemma_kept_fail(m: Machine, was: Machine, fault: crate::system::Fault)
    requires
        m.kept(was),
    ensures
        #[trigger] m.fail(fault).kept(was),
{
    assert(m.fail(fault).src() == m.src());
}

/// A pop of a byte keeps what the stack at work held.
pub broadcast proof fn lemma_kept_pop8(m: Machine, was: Machine)
    requires
        m.kept(was),
    ensures
        #[trigger] m.pop8().0.kept(was),
{
    reveal(Machine::pop8);
}

/// A pop of a short keeps what the stack at work held.
pub broadcast proof fn lemma_kept_pop16(m: Machine, was: Machine)
    requires
        m.kept(was),
    ensures
        #[trigger] m.pop16().0.kept(was),
{
    reveal(Machine::pop16);
    lemma_kept_pop8(m, was);
    lemma_kept_pop8(m.pop8().0, was);
}

/// A pop keeps what the stack at work held.
pub broadcast proof fn lemma_kept_pop(m: Machine, was: Machine)
    requires
        m.kept(was),
    ensures
        #[trigger] m.pop().0.kept(was),
{
    reveal(Machine::pop);
    lemma_kept_pop8(m, was);
    lemma_kept_pop16(m, was);
}

/// A pop of two values keeps what the stack at work held.
pub broadcast proof fn lemma_kept_pop2(m: Machine, was: Machine)
    requires
        m.kept(was),
    ensures
        #[trigger] m.pop2().0.kept(was),
{
    reveal(Machine::pop2);
    lemma_kept_pop(m, was);
    lemma_kept_pop(m.pop().0, was);
}

/// A pop of an address byte and a value keeps what the stack at work held.
pub broadcast proof fn lemma_kept_pop_at(m: Machine, was: Machine)
    requires
        m.kept(was),
    ensures
        #[trigger] m.pop_at().0.kept(was),
{
    reveal(Machine::pop_at);
    lemma_kept_pop8(m, was);
    lemma_kept_pop(m.pop8().0, was);
}

/// A push of a byte keeps what the stack at work held.
pub broadcast proof fn lemma_kept_push8(m: Machine, was: Machine, s: u8)
    requires
        m.kept(was),
    ensures
        #[trigger] m.push8(s).kept(was),
{
    reveal(Machine::push8);
}

/// A push of a short keeps what the stack at work held.
pub broadcast proof fn lemma_kept_push16(m: Machine, was: Machine, s: u16)
    requires
        m.kept(was),
    ensures
        #[trigger] m.push16(s).kept(was),
{
    reveal(Machine::push16);
    lemma_kept_push8(m, was, (s / 256) as u8);
    lemma_kept_push8(m.push8((s / 256) as u8), was, (s % 256) as u8);
}

/// A push keeps what the stack at work held.
pub broadcast proof fn lemma_kept_push(m: Machine, was: Machine, s: u16)
    requires
        m.kept(was),
    ensures
        #[trigger] m.push(s).kept(was),
{
    reveal(Machine::push);
    lemma_kept_push16(m, was, s);
    lemma_kept_push8(m, was, (s % 256) as u8);
}

/// The push of a flag keeps what the stack at work held.
pub broadcast proof fn lemma_kept_push_flag(m: Machine, was: Machine, flag: bool)
    requires
        m.kept(was),
    ensures
        #[trigger] m.push_flag(flag).kept(was),
{
    reveal(Machine::push_flag);
    lemma_kept_push8(m, was, 0);
    lemma_kept_push8(m, was, 1);
}

/// A push of a byte on the other stack keeps what the stack at work held.
pub broadcast proof fn lemma_kept_dst_push8(m: Machine, was: Machine, s: u8)
    requires
        m.kept(was),
    ensures
        #[trigger] m.dst_push8(s).kept(was),
{
    reveal(Machine::dst_push8);
}

/// A push of a short on the other stack keeps what the stack at work held.
pub broadcast proof fn lemma_kept_dst_push16(m: Machine, was: Machine, s: u16)
    requires
        m.kept(was),
    ensures
        #[trigger] m.dst_push16(s).kept(was),
{
    reveal(Machine::dst_push16);
    lemma_kept_dst_push8(m, was, (s / 256) as u8);
    lemma_kept_dst_push8(m.dst_push8((s / 256) as u8), was, (s % 256) as u8);
}

/// A store to memory keeps what the stack at work held.
pub broadcast proof fn lemma_kept_poke(m: Machine, was: Machine, addr: int, val: u16)
    requires
        m.kept(was),
    ensures
        #[trigger] m.poke(addr, val).kept(was),
{
    reveal(Machine::poke);
    reveal(Machine::poke8);
}

/// A write to a device port keeps what the stack at work held.
pub broadcast proof fn lemma_kept_deo(m: Machine, was: Machine, port: int, val: u8)
    requires
        m.kept(was),
    ensures
        #[trigger] m.deo(port, val).kept(was),
{
    lemma_deo_apart(m, m, port, val);
    assert(m == m.with_stacks_of(m));
}

/// A write of a value to a device port keeps what the stack at work held.
pub broadcast proof fn lemma_kept_devw(m: Machine, was: Machine, port: int, val: u16)
    requires
        m.kept(was),
    ensures
        #[trigger] m.devw(port, val).kept(was),
{
    reveal(Machine::devw);
    lemma_kept_deo(m, was, port, (val / 256) as u8);
    lemma_kept_deo(m.deo(port, (val / 256) as u8), was, (port + 1) % 0x100, (val % 256) as u8);
    lemma_kept_deo(m, was, port, (val % 256) as u8);
}

/// Each operation on the machine keeps, in keep mode, what the stack at
/// work held.
pub broadcast group group_kept {
    lemma_kept_fail,
    lemma_kept_pop8,
    lemma_kept_pop16,
    lemma_kept_pop,
    lemma_kept_pop2,
    lemma_kept_pop_at,
    lemma_kept_push8,
    lemma_kept_push16,
    lemma_kept_push,
    lemma_kept_push_flag,
    lemma_kept_dst_push8,
    lemma_kept_dst_push16,
    lemma_kept_poke,
    lemma_kept_deo,
    lemma_kept_devw,
}

/// A pop of a byte leaves the stack at work untouched.
pub broadcast proof fn lemma_untouched_pop8(m: Machine, was: Machine)
    requires
        m.untouched(was),
    ensures
        #[trigger] m.pop8().0.untouched(was),
{
    reveal(Machine::pop8);
}

/// A pop of a short leaves the stack at work untouched.
pub broadcast proof fn lemma_untouched_pop16(m: Machine, was: Machine)
    requires
        m.untouched(was),
    ensures
        #[trigger] m.pop16().0.untouched(was),
{
    reveal(Machine::pop16);
    lemma_untouched_pop8(m, was);
    lemma_untouched_pop8(m.pop8().0, was);
}

/// A pop leaves the stack at work untouched.
pub broadcast proof fn lemma_untouched_pop(m: Machine, was: Machine)
    requires
        m.untouched(was),
    ensures
        #[trigger] m.pop().0.untouched(was),
{
    reveal(Machine::pop);
    lemma_untouched_pop8(m, was);
    lemma_untouched_pop16(m, was);
}

/// A pop of an address byte and a value leaves the stack at work untouched.
pub broadcast proof fn lemma_untouched_pop_at(m: Machine, was: Machine)
    requires
        m.untouched(was),
    ensures
        #[trigger] m.pop_at().0.untouched(was),
{
    reveal(Machine::pop_at);
    lemma_untouched_pop8(m, was);
    lemma_untouched_pop(m.pop8().0, was);
}

/// A push of a byte on the other stack leaves the stack at work untouched.
pub broadcast proof fn lemma_untouched_dst_push8(m: Machine, was: Machine, s: u8)
    requires
        m.untouched(was),
    ensures
        #[trigger] m.dst_push8(s).untouched(was),
{
    reveal(Machine::dst_push8);
}

/// A push of a short on the other stack leaves the stack at work untouched.
pub broadcast proof fn lemma_untouched_dst_push16(m: Machine, was: Machine, s: u16)
    requires
        m.untouched(was),
    ensures
        #[trigger] m.dst_push16(s).untouched(was),
{
    reveal(Machine::dst_push16);
    lemma_untouched_dst_push8(m, was, (s / 256) as u8);
    lemma_untouched_dst_push8(m.dst_push8((s / 256) as u8), was, (s % 256) as u8);
}

/// A store to memory leaves the stack at work untouched.
pub broadcast proof fn lemma_untouched_poke(m: Machine, was: Machine, addr: int, val: u16)
    requires
        m.untouched(was),
    ensures
        #[trigger] m.poke(addr, val).untouched(was),
{
    reveal(Machine::poke);
    reveal(Machine::poke8);
}

/// A write to a device port leaves the stack at work untouched.
pub broadcast proof fn lemma_untouched_deo(m: Machine, was: Machine, port: int, val: u8)
    requires
        m.untouched(was),
    ensures
        #[trigger] m.deo(port, val).untouched(was),
{
    lemma_deo_apart(m, m, port, val);
    assert(m == m.with_stacks_of(m));
}

/// A write of a value to a device port leaves the stack at work untouched.
pub broadcast proof fn lemma_untouched_devw(m: Machine, was: Machine, port: int, val: u16)
    requires
        m.untouched(was),
    ensures
        #[trigger] m.devw(port, val).untouched(was),
{
    reveal(Machine::devw);
    lemma_untouched_deo(m, was, port, (val / 256) as u8);
    lemma_untouched_deo(m.deo(port, (val / 256) as u8), was, (port + 1) % 0x100, (val % 256) as u8);
    lemma_untouched_deo(m, was, port, (val % 256) as u8);
}

/// Each operation on the machine but a push leaves, in keep mode, the stack
/// at work as it was.
pub broadcast group group_untouched {
    lemma_untouched_pop8,
    lemma_untouched_pop16,
    lemma_untouched_pop,
    lemma_untouched_pop_at,
    lemma_untouched_dst_push8,
    lemma_untouched_dst_push16,
    lemma_untouched_poke,
    lemma_untouched_deo,
    lemma_untouched_devw,
}

/// The operations that push nothing on the stack they work on.
pub open spec fn pushes_nothing(op: Opcode) -> bool {
    op == Opcode::POP || op == Opcode::JMP || op == Opcode::JCN || op == Opcode::JSR || op
        == Opcode::STH || op == Opcode::STZ || op == Opcode::STR || op == Opcode::STA || op
        == Opcode::DEO
}

/// In keep mode every operation leaves on the stack it works on what the
/// stack held: the stack is no less deep than it was, and holds below that
/// depth what it held. This holds of an operation that fails, too.
pub proof fn lemma_execute_keeps(m: Machine, op: Opcode, pc: int)
    requires
        m.rk,
        m.wst.len() == 0x100,
        m.rst.len() == 0x100,
    ensures
        m.execute(op, pc).0.rr == m.rr,
        m.execute(op, pc).0.ptr() >= m.ptr(),
        m.execute(op, pc).0.src().take(m.ptr() as int) == m.stack(),
{
    lemma_kept_start(m);
    assert(m.stack_op(op, pc).0.kept(m)) by {
        broadcast use group_kept;
        reveal(Machine::stack_op);
    }
    assert(m.logic_op(op, pc).0.kept(m)) by {
        broadcast use group_kept;
        reveal(Machine::logic_op);
    }
    assert(m.memory_op(op, pc).0.kept(m)) by {
        broadcast use group_kept;
        reveal(Machine::memory_op);
    }
    assert(m.arith_op(op, pc).0.kept(m)) by {
        broadcast use group_kept;
        reveal(Machine::arith_op);
    }
    lemma_kept(m.execute(op, pc).0, m);
}

/// In keep mode an operation that pushes nothing on the stack it works on
/// leaves that stack as it was: as deep as it was, with what it held.
pub proof fn lemma_execute_keeps_depth(m: Machine, op: Opcode, pc: int)
    requires
        m.rk,
        m.wst.len() == 0x100,
        m.rst.len() == 0x100,
        pushes_nothing(op),
    ensures
        m.execute(op, pc).0.rr == m.rr,
        m.execute(op, pc).0.src() == m.src(),
        m.execute(op, pc).0.ptr() == m.ptr(),
        m.execute(op, pc).0.stack() == m.stack(),
{
    broadcast use group_untouched;
    reveal(Machine::stack_op);
    reveal(Machine::logic_op);
    reveal(Machine::memory_op);
    lemma_kept_start(m);
    assert(m.execute(op, pc).0.untouched(m));
    lemma_untouched(m.execute(op, pc).0, m);
}

/// An instruction with the keep bit set leaves on the stack it works on
/// what the stack held, whether it fails or not; and where its operation
/// pushes nothing on that stack, the stack is left as deep as it was.
pub proof fn lemma_step_keeps(m: Machine, pc: int)
    requires
        m.wf(),
        m.ok(),
        m.limit > 0,
        0 <= pc < 0x10000,
        m.ram[pc] & 0x80 != 0,
    ensures
        ({
            let ready = m.decode(m.ram[pc]);
            let after = m.step(pc).0;
            &&& ready.rk
            &&& ready.stack() == (if m.ram[pc] & 0x40 != 0 {
                m.rst.subrange(0, m.rst[0xff] as int)
            } else {
                m.wst.subrange(0, m.wst[0xff] as int)
            })
            &&& after.rr == ready.rr
            &&& after.ptr() >= ready.ptr()
            &&& after.src().take(ready.ptr() as int) == ready.stack()
            &&& pushes_nothing(Machine::opcode(m.ram[pc])) ==> after.ptr() == ready.ptr()
                && after.stack() == ready.stack()
        }),
{
    let instr = m.ram[pc];
    let ready = m.decode(instr);
    let op = Machine::opcode(instr);
    assert(instr != 0) by (bit_vector)
        requires
            instr & 0x80 != 0,
    ;
    lemma_execute_keeps(ready, op, crate::operations::wrap(pc + 1));
    if pushes_nothing(op) {
        lemma_execute_keeps_depth(ready, op, crate::operations::wrap(pc + 1));
    }
}

impl Machine {
    /// The machine as it is for the same instruction without the keep bit.
    pub open spec fn plain(self) -> Machine {
        Machine { rk: false, ..self }
    }

    /// What holds of a machine, while it carries out in keep mode an
    /// instruction that found it as `was`, and of the machine `plain` that
    /// carries out the same instruction without the keep bit, as long as
    /// the first has not failed: the second has not failed either; memory,
    /// devices and the other stack are alike in both; under what the
    /// second has pushed lies the stack that `was` held, less what the
    /// second has popped; and what the second has pushed is what the first
    /// has pushed on top of the whole stack. Until something is pushed,
    /// the kept depth of the first is the depth of the second.
    pub closed spec fn twin(self, plain: Machine, was: Machine) -> bool {
        self.ok() ==> {
            let pushed = self.ptr() - was.ptr();
            let base = plain.ptr() - pushed;
            &&& plain.ok()
            &&& self.rk
            &&& !plain.rk
            &&& self.rr == was.rr
            &&& plain == (Machine {
                rk: false,
                pk: plain.pk,
                wst: plain.wst,
                rst: plain.rst,
                ..self
            })
            &&& plain.dst() == self.dst()
            &&& self.wst.len() == 0x100
            &&& self.rst.len() == 0x100
            &&& plain.wst.len() == 0x100
            &&& plain.rst.len() == 0x100
            &&& was.wst.len() == 0x100
            &&& was.rst.len() == 0x100
            &&& 0 <= pushed
            &&& 0 <= base <= was.ptr()
            &&& forall|i: int| 0 <= i < was.ptr() ==> self.src()[i] == was.src()[i]
            &&& forall|i: int| 0 <= i < base ==> plain.src()[i] == was.src()[i]
            &&& forall|i: int|
                base <= i < plain.ptr() ==> #[trigger] plain.src()[i] == self.src()[i - base
                    + was.ptr()]
            &&& pushed == 0 ==> self.pk == base
        }
    }
}

/// A machine that is ready for an instruction in keep mode, and the same
/// machine without the keep bit, are twins.
pub proof fn lemma_twin_start(m: Machine)
    requires
        m.ok(),
        m.rk,
        m.pk == m.ptr(),
        m.wst.len() == 0x100,
        m.rst.len() == 0x100,
    ensures
        m.twin(m.plain(), m),
{
}

/// What `twin` says of two machines of which the first has not failed.
pub proof fn lemma_twin(m: Machine, plain: Machine, was: Machine)
    requires
        m.twin(plain, was),
        m.ok(),
    ensures
        plain.ok(),
        plain == (Machine { rk: false, pk: plain.pk, wst: plain.wst, rst: plain.rst, ..m }),
        plain.dst() == m.dst(),
        m.ptr() >= was.ptr(),
        0 <= plain.ptr() - (m.ptr() - was.ptr()) <= was.ptr(),
        plain.stack() == was.stack().take(plain.ptr() - (m.ptr() - was.ptr())) + m.stack().skip(
            was.ptr() as int,
        ),
{
    assert(plain.stack() =~= was.stack().take(plain.ptr() - (m.ptr() - was.ptr()))
        + m.stack().skip(was.ptr() as int));
}

/// A pop of a byte takes twins to twins and gives the same to both, as long as
/// nothing was pushed.
pub broadcast proof fn lemma_twin_pop8(m: Machine, plain: Machine, was: Machine)
    requires
        m.twin(plain, was),
        m.ptr() == was.ptr(),
    ensures
        #[trigger] m.pop8().0.twin(plain.pop8().0, was),
        m.pop8().0.ptr() == was.ptr(),
        m.pop8().0.ok() ==> m.pop8().1 == plain.pop8().1 && m.pop8().0.r2 == m.r2 && plain.pop8().0.r2
            == m.r2,
{
    reveal(Machine::pop8);
}

/// A pop of a short takes twins to twins and gives the same to both, as long as
/// nothing was pushed.
pub broadcast proof fn lemma_twin_pop16(m: Machine, plain: Machine, was: Machine)
    requires
        m.twin(plain, was),
        m.ptr() == was.ptr(),
    ensures
        #[trigger] m.pop16().0.twin(plain.pop16().0, was),
        m.pop16().0.ptr() == was.ptr(),
        m.pop16().0.ok() ==> m.pop16().1 == plain.pop16().1 && m.pop16().0.r2 == m.r2
            && plain.pop16().0.r2 == m.r2,
{
    reveal(Machine::pop16);
    broadcast use crate::operations::group_fault_stays;
    lemma_twin_pop8(m, plain, was);
    lemma_twin_pop8(m.pop8().0, plain.pop8().0, was);
}

/// A pop takes twins to twins and gives the same to both, as long as
/// nothing was pushed.
pub broadcast proof fn lemma_twin_pop(m: Machine, plain: Machine, was: Machine)
    requires
        m.twin(plain, was),
        m.ptr() == was.ptr(),
    ensures
        #[trigger] m.pop().0.twin(plain.pop().0, was),
        m.pop().0.ptr() == was.ptr(),
        m.pop().0.ok() ==> m.pop().1 == plain.pop().1 && m.pop().0.r2 == m.r2 && plain.pop().0.r2
            == m.r2,
{
    reveal(Machine::pop);
    broadcast use crate::operations::group_fault_stays;
    lemma_twin_pop8(m, plain, was);
    lemma_twin_pop16(m, plain, was);
    if m.ok() {
        assert(m.r2 == plain.r2);
    }
}

/// A pop of two values takes twins to twins and gives the same to both, as long as
/// nothing was pushed.
pub broadcast proof fn lemma_twin_pop2(m: Machine, plain: Machine, was: Machine)
    requires
        m.twin(plain, was),
        m.ptr() == was.ptr(),
    ensures
        #[trigger] m.pop2().0.twin(plain.pop2().0, was),
        m.pop2().0.ptr() == was.ptr(),
        m.pop2().0.ok() ==> m.pop2().1 == plain.pop2().1 && m.pop2().2 == plain.pop2().2
            && m.pop2().0.r2 == m.r2 && plain.pop2().0.r2 == m.r2,
{
    reveal(Machine::pop2);
    broadcast use crate::operations::group_fault_stays;
    lemma_twin_pop(m, plain, was);
    lemma_twin_pop(m.pop().0, plain.pop().0, was);
}

/// A pop of an address byte and a value takes twins to twins and gives the same to both, as long as
/// nothing was pushed.
pub broadcast proof fn lemma_twin_pop_at(m: Machine, plain: Machine, was: Machine)
    requires
        m.twin(plain, was),
        m.ptr() == was.ptr(),
    ensures
        #[trigger] m.pop_at().0.twin(plain.pop_at().0, was),
        m.pop_at().0.ptr() == was.ptr(),
        m.pop_at().0.ok() ==> m.pop_at().1 == plain.pop_at().1 && m.pop_at().2
            == plain.pop_at().2 && m.pop_at().0.r2 == m.r2 && plain.pop_at().0.r2 == m.r2,
{
    reveal(Machine::pop_at);
    broadcast use crate::operations::group_fault_stays;
    lemma_twin_pop8(m, plain, was);
    lemma_twin_pop(m.pop8().0, plain.pop8().0, was);
}

/// A push of a byte takes twins to twins, where both are given the same.
pub broadcast proof fn lemma_twin_push8(m: Machine, plain: Machine, was: Machine, s: u8, t: u8)
    requires
        m.twin(plain, was),
        m.ok() ==> s == t,
    ensures
        #[trigger] m.push8(s).twin(plain.push8(t), was),
{
    reveal(Machine::push8);
}

/// A push of a short takes twins to twins, where both are given the same.
pub broadcast proof fn lemma_twin_push16(m: Machine, plain: Machine, was: Machine, s: u16, t: u16)
    requires
        m.twin(plain, was),
        m.ok() ==> s == t,
    ensures
        #[trigger] m.push16(s).twin(plain.push16(t), was),
{
    reveal(Machine::push16);
    broadcast use crate::operations::group_fault_stays;
    lemma_twin_push8(m, plain, was, (s / 256) as u8, (t / 256) as u8);
    lemma_twin_push8(
        m.push8((s / 256) as u8),
        plain.push8((t / 256) as u8),
        was,
        (s % 256) as u8,
        (t % 256) as u8,
    );
}

/// A push takes twins to twins, where both are given the same.
pub broadcast proof fn lemma_twin_push(m: Machine, plain: Machine, was: Machine, s: u16, t: u16)
    requires
        m.twin(plain, was),
        m.ok() ==> s == t,
    ensures
        #[trigger] m.push(s).twin(plain.push(t), was),
{
    reveal(Machine::push);
    broadcast use crate::operations::group_fault_stays;
    lemma_twin_push16(m, plain, was, s, t);
    lemma_twin_push8(m, plain, was, (s % 256) as u8, (t % 256) as u8);
}

/// The push of a flag takes twins to twins, where both are given the same.
pub broadcast proof fn lemma_twin_push_flag(
    m: Machine,
    plain: Machine,
    was: Machine,
    s: bool,
    t: bool,
)
    requires
        m.twin(plain, was),
        m.ok() ==> s == t,
    ensures
        #[trigger] m.push_flag(s).twin(plain.push_flag(t), was),
{
    reveal(Machine::push_flag);
    lemma_twin_push8(m, plain, was, if s { 1u8 } else { 0u8 }, if t { 1u8 } else { 0u8 });
}

/// A push of a byte on the other stack takes twins to twins, where both are given the same.
pub broadcast proof fn lemma_twin_dst_push8(
    m: Machine,
    plain: Machine,
    was: Machine,
    s: u8,
    t: u8,
)
    requires
        m.twin(plain, was),
        m.ok() ==> s == t,
    ensures
        #[trigger] m.dst_push8(s).twin(plain.dst_push8(t), was),
        m.dst_push8(s).ptr() == m.ptr(),
{
    reveal(Machine::dst_push8);
}

/// A push of a short on the other stack takes twins to twins, where both are given the same.
pub broadcast proof fn lemma_twin_dst_push16(
    m: Machine,
    plain: Machine,
    was: Machine,
    s: u16,
    t: u16,
)
    requires
        m.twin(plain, was),
        m.ok() ==> s == t,
    ensures
        #[trigger] m.dst_push16(s).twin(plain.dst_push16(t), was),
        m.dst_push16(s).ptr() == m.ptr(),
{
    reveal(Machine::dst_push16);
    broadcast use crate::operations::group_fault_stays;
    lemma_twin_dst_push8(m, plain, was, (s / 256) as u8, (t / 256) as u8);
    lemma_twin_dst_push8(
        m.dst_push8((s / 256) as u8),
        plain.dst_push8((t / 256) as u8),
        was,
        (s % 256) as u8,
        (t % 256) as u8,
    );
}

/// A store to memory takes twins to twins, where both are given the same.
pub broadcast proof fn lemma_twin_poke(
    m: Machine,
    plain: Machine,
    was: Machine,
    addr: int,
    val: u16,
    addr2: int,
    val2: u16,
)
    requires
        m.twin(plain, was),
        m.ok() ==> addr == addr2 && val == val2,
    ensures
        #[trigger] m.poke(addr, val).twin(plain.poke(addr2, val2), was),
{
    reveal(Machine::poke);
    reveal(Machine::poke8);
}

impl Machine {
    /// The machine with the stacks, the keep bit and the kept depth of
    /// another.
    pub open spec fn with_stacks_of(self, other: Machine) -> Machine {
        Machine { rk: other.rk, pk: other.pk, wst: other.wst, rst: other.rst, ..self }
    }
}

/// A write to a device port neither reads nor changes the stacks, the keep
/// bit or the kept depth.
pub proof fn lemma_deo_apart(m: Machine, other: Machine, port: int, val: u8)
    ensures
        m.with_stacks_of(other).deo(port, val) == m.deo(port, val).with_stacks_of(other),
        m.deo(port, val).rr == m.rr,
        m.deo(port, val).r2 == m.r2,
        m.deo(port, val).fault == m.fault,
{
    reveal(Machine::deo);
    let stored = Machine { dev: m.dev.update(port, val), ..m };
    assert(stored.with_stacks_of(other).deo_system(port) == stored.deo_system(
        port,
    ).with_stacks_of(other) && stored.deo_system(port).rr == m.rr && stored.deo_system(port).r2
        == m.r2 && stored.deo_system(port).fault == m.fault) by {
        reveal(Machine::deo_system);
    }
    assert(stored.with_stacks_of(other).deo_console(port, val) == stored.deo_console(
        port,
        val,
    ).with_stacks_of(other) && stored.deo_console(port, val).rr == m.rr && stored.deo_console(
        port,
        val,
    ).r2 == m.r2 && stored.deo_console(port, val).fault == m.fault) by {
        reveal(Machine::deo_console);
    }
    assert(stored.with_stacks_of(other).draw_pixel() == stored.draw_pixel().with_stacks_of(other)
        && stored.draw_pixel().rr == m.rr && stored.draw_pixel().r2 == m.r2
        && stored.draw_pixel().fault == m.fault) by {
        reveal(Machine::draw_pixel);
    }
    assert(stored.with_stacks_of(other).draw_sprites() == stored.draw_sprites().with_stacks_of(
        other,
    ) && stored.draw_sprites().rr == m.rr && stored.draw_sprites().r2 == m.r2
        && stored.draw_sprites().fault == m.fault) by {
        reveal(Machine::draw_sprites);
    }
    assert(stored.with_stacks_of(other).deo_screen(port) == stored.deo_screen(
        port,
    ).with_stacks_of(other) && stored.deo_screen(port).rr == m.rr && stored.deo_screen(port).r2
        == m.r2 && stored.deo_screen(port).fault == m.fault) by {
        reveal(Machine::deo_screen);
    }
}

/// A write to a device port takes twins to twins, where both are given the same.
pub broadcast proof fn lemma_twin_deo(
    m: Machine,
    plain: Machine,
    was: Machine,
    port: int,
    val: u8,
    port2: int,
    val2: u8,
)
    requires
        m.twin(plain, was),
        m.ok() ==> port == port2 && val == val2,
    ensures
        #[trigger] m.deo(port, val).twin(plain.deo(port2, val2), was),
        m.deo(port, val).r2 == m.r2,
        m.ok() ==> plain.deo(port2, val2).r2 == plain.r2,
{
    broadcast use crate::operations::group_fault_stays;
    lemma_deo_apart(m, m, port, val);
    lemma_deo_apart(m, plain, port, val);
    lemma_deo_apart(plain, plain, port2, val2);
    if m.ok() {
        assert(plain == m.with_stacks_of(plain));
        assert(m.deo(port, val) == m.deo(port, val).with_stacks_of(m)) by {
            assert(m == m.with_stacks_of(m));
        }
    }
}

/// A write of a value to a device port takes twins to twins, where both are given the same.
pub broadcast proof fn lemma_twin_devw(
    m: Machine,
    plain: Machine,
    was: Machine,
    port: int,
    val: u16,
    port2: int,
    val2: u16,
)
    requires
        m.twin(plain, was),
        m.ok() ==> port == port2 && val == val2,
    ensures
        #[trigger] m.devw(port, val).twin(plain.devw(port2, val2), was),
{
    reveal(Machine::devw);
    broadcast use crate::operations::group_fault_stays;
    lemma_twin_deo(m, plain, was, port, (val / 256) as u8, port2, (val2 / 256) as u8);
    lemma_twin_deo(
        m.deo(port, (val / 256) as u8),
        plain.deo(port2, (val2 / 256) as u8),
        was,
        (port + 1) % 0x100,
        (val % 256) as u8,
        (port2 + 1) % 0x100,
        (val2 % 256) as u8,
    );
    lemma_twin_deo(m, plain, was, port, (val % 256) as u8, port2, (val2 % 256) as u8);
    if m.ok() {
        assert(m.r2 == plain.r2);
    }
}

/// A machine that has failed is the twin of any.
pub broadcast proof fn lemma_twin_fail(
    m: Machine,
    plain: Machine,
    was: Machine,
    fault: crate::system::Fault,
)
    ensures
        #[trigger] m.fail(fault).twin(plain, was),
{
}

/// Each operation on the machine takes twins to twins.
pub broadcast group group_twin {
    lemma_twin_fail,
    lemma_twin_pop8,
    lemma_twin_pop16,
    lemma_twin_pop,
    lemma_twin_pop2,
    lemma_twin_pop_at,
    lemma_twin_push8,
    lemma_twin_push16,
    lemma_twin_push,
    lemma_twin_push_flag,
    lemma_twin_dst_push8,
    lemma_twin_dst_push16,
    lemma_twin_poke,
    lemma_twin_deo,
    lemma_twin_devw,
}

/// The operations of one group take twins to twins, and go on at the same
/// address.
#[verifier::rlimit(40)]
pub proof fn lemma_twin_stack_op(m: Machine, plain: Machine, op: Opcode, pc: int)
    requires
        m.ok(),
        m.twin(plain, m),
    ensures
        m.stack_op(op, pc).0.twin(plain.stack_op(op, pc).0, m),
        m.stack_op(op, pc).0.ok() ==> m.stack_op(op, pc).1 == plain.stack_op(op, pc).1,
{
    broadcast use group_twin;
    broadcast use crate::instructions::group_stays;
    reveal(Machine::stack_op);
    let n = plain;
    match op {
        Opcode::INC => {
            let (k1, a) = m.pop();
            let (n1, c) = n.pop();
            assert(k1.twin(n1, m));
            assert(k1.push(crate::operations::add16(a, 1)).twin(n1.push(crate::operations::add16(c, 1)), m));
        },
        Opcode::NIP => {
            let (k1, a, b) = m.pop2();
            let (n1, c, d) = n.pop2();
            assert(k1.twin(n1, m));
            assert(k1.push(a).twin(n1.push(c), m));
        },
        Opcode::SWP => {
            let (k1, a, b) = m.pop2();
            let (n1, c, d) = n.pop2();
            assert(k1.twin(n1, m));
            assert(k1.push(a).twin(n1.push(c), m));
            assert(k1.push(a).push(b).twin(n1.push(c).push(d), m));
        },
        Opcode::ROT => {
            let (k1, a, b) = m.pop2();
            let (n1, c, d) = n.pop2();
            assert(k1.twin(n1, m));
            let (k2, e) = k1.pop();
            let (n2, f) = n1.pop();
            assert(k2.twin(n2, m));
            assert(k2.push(b).twin(n2.push(d), m));
            assert(k2.push(b).push(a).twin(n2.push(d).push(c), m));
            assert(k2.push(b).push(a).push(e).twin(n2.push(d).push(c).push(f), m));
        },
        Opcode::DUP => {
            let (k1, a) = m.pop();
            let (n1, c) = n.pop();
            assert(k1.twin(n1, m));
            assert(k1.push(a).twin(n1.push(c), m));
            assert(k1.push(a).push(a).twin(n1.push(c).push(c), m));
        },
        Opcode::OVR => {
            let (k1, a, b) = m.pop2();
            let (n1, c, d) = n.pop2();
            assert(k1.twin(n1, m));
            assert(k1.push(b).twin(n1.push(d), m));
            assert(k1.push(b).push(a).twin(n1.push(d).push(c), m));
            assert(k1.push(b).push(a).push(b).twin(n1.push(d).push(c).push(d), m));
        },
        _ => {},
    }
}

/// The operations of one group take twins to twins, and go on at the same
/// address.
#[verifier::rlimit(40)]
pub proof fn lemma_twin_logic_op(m: Machine, plain: Machine, op: Opcode, pc: int)
    requires
        m.ok(),
        m.twin(plain, m),
    ensures
        m.logic_op(op, pc).0.twin(plain.logic_op(op, pc).0, m),
        m.logic_op(op, pc).0.ok() ==> m.logic_op(op, pc).1 == plain.logic_op(op, pc).1,
{
    broadcast use group_twin;
    broadcast use crate::instructions::group_stays;
    reveal(Machine::logic_op);
    let n = plain;
    match op {
        Opcode::EQU => {
            let (k1, a, b) = m.pop2();
            let (n1, c, d) = n.pop2();
            assert(k1.twin(n1, m));
            assert(k1.push_flag(b == a).twin(n1.push_flag(d == c), m));
        },
        Opcode::NEQ => {
            let (k1, a, b) = m.pop2();
            let (n1, c, d) = n.pop2();
            assert(k1.twin(n1, m));
            assert(k1.push_flag(b != a).twin(n1.push_flag(d != c), m));
        },
        Opcode::GTH => {
            let (k1, a, b) = m.pop2();
            let (n1, c, d) = n.pop2();
            assert(k1.twin(n1, m));
            assert(k1.push_flag(b > a).twin(n1.push_flag(d > c), m));
        },
        Opcode::LTH => {
            let (k1, a, b) = m.pop2();
            let (n1, c, d) = n.pop2();
            assert(k1.twin(n1, m));
            assert(k1.push_flag(b < a).twin(n1.push_flag(d < c), m));
        },
        Opcode::JMP => {
            let (k1, a) = m.pop();
            let (n1, c) = n.pop();
            assert(k1.twin(n1, m));
        },
        Opcode::JCN => {
            let (k1, a) = m.pop();
            let (n1, c) = n.pop();
            assert(k1.twin(n1, m));
            let (k2, e) = k1.pop8();
            let (n2, f) = n1.pop8();
            assert(k2.twin(n2, m));
        },
        Opcode::JSR => {
            let k0 = m.dst_push16(pc as u16);
            let n0 = n.dst_push16(pc as u16);
            assert(k0.twin(n0, m));
            let (k1, a) = k0.pop();
            let (n1, c) = n0.pop();
            assert(k1.twin(n1, m));
        },
        Opcode::STH => {
            if m.r2 {
                let (k1, a) = m.pop16();
                let (n1, c) = n.pop16();
                assert(k1.twin(n1, m));
                assert(k1.dst_push16(a).twin(n1.dst_push16(c), m));
            } else {
                let (k1, a) = m.pop8();
                let (n1, c) = n.pop8();
                assert(k1.twin(n1, m));
                assert(k1.dst_push8(a).twin(n1.dst_push8(c), m));
            }
        },
        _ => {},
    }
}

/// The operations of one group take twins to twins, and go on at the same
/// address.
#[verifier::rlimit(60)]
pub proof fn lemma_twin_memory_op(m: Machine, plain: Machine, op: Opcode, pc: int)
    requires
        m.ok(),
        m.twin(plain, m),
    ensures
        m.memory_op(op, pc).0.twin(plain.memory_op(op, pc).0, m),
        m.memory_op(op, pc).0.ok() ==> m.memory_op(op, pc).1 == plain.memory_op(op, pc).1,
{
    broadcast use group_twin;
    broadcast use crate::instructions::group_stays;
    reveal(Machine::memory_op);
    let n = plain;
    match op {
        Opcode::LDZ => {
            let (k1, a) = m.pop8();
            let (n1, c) = n.pop8();
            assert(k1.twin(n1, m));
            assert(k1.push(k1.peek(a as int)).twin(n1.push(n1.peek(c as int)), m));
        },
        Opcode::STZ => {
            let (k1, a, b) = m.pop_at();
            let (n1, c, d) = n.pop_at();
            assert(k1.twin(n1, m));
            assert(k1.poke(a as int, b).twin(n1.poke(c as int, d), m));
        },
        Opcode::LDR => {
            let (k1, a) = m.pop8();
            let (n1, c) = n.pop8();
            assert(k1.twin(n1, m));
            assert(k1.push(k1.peek(crate::operations::wrap(pc + crate::operations::signed(a as int)))).twin(
                n1.push(n1.peek(crate::operations::wrap(pc + crate::operations::signed(c as int)))),
                m,
            ));
        },
        Opcode::STR => {
            let (k1, a, b) = m.pop_at();
            let (n1, c, d) = n.pop_at();
            assert(k1.twin(n1, m));
            assert(k1.poke(crate::operations::wrap(pc + crate::operations::signed(a as int)), b).twin(
                n1.poke(crate::operations::wrap(pc + crate::operations::signed(c as int)), d),
                m,
            ));
        },
        Opcode::LDA => {
            let (k1, a) = m.pop16();
            let (n1, c) = n.pop16();
            assert(k1.twin(n1, m));
            assert(k1.push(k1.peek(a as int)).twin(n1.push(n1.peek(c as int)), m));
        },
        Opcode::STA => {
            let (k1, a) = m.pop16();
            let (n1, c) = n.pop16();
            assert(k1.twin(n1, m));
            let (k2, b) = k1.pop();
            let (n2, d) = n1.pop();
            assert(k2.twin(n2, m));
            assert(k2.poke(a as int, b).twin(n2.poke(c as int, d), m));
        },
        Opcode::DEI => {
            let (k1, a) = m.pop8();
            let (n1, c) = n.pop8();
            assert(k1.twin(n1, m));
            assert(k1.push(k1.devr(a as int)).twin(n1.push(n1.devr(c as int)), m));
        },
        Opcode::DEO => {
            let (k1, a, b) = m.pop_at();
            let (n1, c, d) = n.pop_at();
            assert(k1.twin(n1, m));
            assert(k1.devw(a as int, b).twin(n1.devw(c as int, d), m));
        },
        _ => {},
    }
}

/// The operations of one group take twins to twins, and go on at the same
/// address.
#[verifier::rlimit(60)]
pub proof fn lemma_twin_arith_op(m: Machine, plain: Machine, op: Opcode, pc: int)
    requires
        m.ok(),
        m.twin(plain, m),
    ensures
        m.arith_op(op, pc).0.twin(plain.arith_op(op, pc).0, m),
        m.arith_op(op, pc).0.ok() ==> m.arith_op(op, pc).1 == plain.arith_op(op, pc).1,
{
    broadcast use group_twin;
    broadcast use crate::instructions::group_stays;
    reveal(Machine::arith_op);
    let n = plain;
    match op {
        Opcode::ADD => {
            let (k1, a, b) = m.pop2();
            let (n1, c, d) = n.pop2();
            assert(k1.twin(n1, m));
            assert(k1.push(crate::operations::add16(b, a)).twin(n1.push(crate::operations::add16(d, c)), m));
        },
        Opcode::SUB => {
            let (k1, a, b) = m.pop2();
            let (n1, c, d) = n.pop2();
            assert(k1.twin(n1, m));
            assert(k1.push(crate::operations::sub16(b, a)).twin(n1.push(crate::operations::sub16(d, c)), m));
        },
        Opcode::MUL => {
            let (k1, a, b) = m.pop2();
            let (n1, c, d) = n.pop2();
            assert(k1.twin(n1, m));
            assert(k1.push(crate::operations::mul16(b, a)).twin(n1.push(crate::operations::mul16(d, c)), m));
        },
        Opcode::AND => {
            let (k1, a, b) = m.pop2();
            let (n1, c, d) = n.pop2();
            assert(k1.twin(n1, m));
            assert(k1.push(b & a).twin(n1.push(d & c), m));
        },
        Opcode::ORA => {
            let (k1, a, b) = m.pop2();
            let (n1, c, d) = n.pop2();
            assert(k1.twin(n1, m));
            assert(k1.push(b | a).twin(n1.push(d | c), m));
        },
        Opcode::EOR => {
            let (k1, a, b) = m.pop2();
            let (n1, c, d) = n.pop2();
            assert(k1.twin(n1, m));
            assert(k1.push(b ^ a).twin(n1.push(d ^ c), m));
        },
        Opcode::DIV => {
            let (k1, a, b) = m.pop2();
            let (n1, c, d) = n.pop2();
            assert(k1.twin(n1, m));
            if k1.ok() && a != 0 {
                assert(k1.push((b / a) as u16).twin(n1.push((d / c) as u16), m));
            }
        },
        Opcode::SFT => {
            let (k1, a, b) = m.pop_at();
            let (n1, c, d) = n.pop_at();
            assert(k1.twin(n1, m));
            assert(k1.push(crate::operations::shift16(b, a)).twin(n1.push(crate::operations::shift16(d, c)), m));
        },
        _ => {},
    }
}

/// What an instruction pushes in keep mode is what it pushes without the
/// keep bit. Where the instruction does not fail in keep mode, it does not
/// fail without the keep bit either, and then both leave memory, the
/// devices and the other stack alike and go on at the same address; and
/// the stack that the second leaves is the stack as it was found, less
/// the operands, with on top of it what the first has put on top of the
/// whole stack.
pub proof fn lemma_keep_result(m: Machine, op: Opcode, pc: int)
    requires
        m.ok(),
        m.rk,
        m.pk == m.ptr(),
        m.wst.len() == 0x100,
        m.rst.len() == 0x100,
        m.execute(op, pc).0.ok(),
    ensures
        ({
            let kept = m.execute(op, pc);
            let plain = m.plain().execute(op, pc);
            let base = plain.0.ptr() - (kept.0.ptr() - m.ptr());
            &&& plain.0.ok()
            &&& plain.1 == kept.1
            &&& plain.0 == kept.0.with_stacks_of(plain.0)
            &&& plain.0.dst() == kept.0.dst()
            &&& 0 <= base <= m.ptr() <= kept.0.ptr()
            &&& plain.0.stack() == m.stack().take(base) + kept.0.stack().skip(m.ptr() as int)
        }),
{
    lemma_twin_start(m);
    let n = m.plain();
    lemma_twin_stack_op(m, n, op, pc);
    lemma_twin_logic_op(m, n, op, pc);
    lemma_twin_memory_op(m, n, op, pc);
    lemma_twin_arith_op(m, n, op, pc);
    lemma_twin(m.execute(op, pc).0, n.execute(op, pc).0, m);
}

} // verus!
