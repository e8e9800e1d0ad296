use crate::devices::{ConsoleDevice, MouseDevice, Screen, ScreenDevice, SystemDevice};
use crate::devices::screen::TRANSPARENT;
use crate::operations::wrap;
use crate::system::{Diagnostic, Exit, Fault, Opcode, Trap};
use vstd::prelude::*;

verus! {

/// The instruction budget of one evaluation.
pub const BUDGET: u64 = 0x40000;

/// The bits of an instruction byte that hold the operation.
pub const MAX_INSTR: u8 = 0x1f;

/// Where a program is loaded.
pub const ORIGIN: usize = 0x100;

#[allow(clippy::upper_case_acronyms)]
pub struct UXN {
    /// Program and data memory, 0x10000 bytes.
    pub ram: Vec<u8>,
    /// The working stack's window, 0x100 bytes; the last is its depth.
    pub wst: Vec<u8>,
    /// The return stack's window, laid out alike.
    pub rst: Vec<u8>,
    /// The device page, 0x100 bytes: 16 devices of 16 ports.
    pub dev: Vec<u8>,
    /// In keep mode, the depth that the next pop reads below.
    pub pk: usize,
    // the mode of the instruction at hand: short, return, keep
    pub r2: bool,
    pub rr: bool,
    pub rk: bool,
    pub halted: bool,
    /// Instructions left to the evaluation at hand.
    pub limit: u64,
    pub system: SystemDevice,
    pub console: ConsoleDevice,
    pub screen: ScreenDevice,
    pub mouse: MouseDevice,
    /// What was noted and changed nothing, oldest first.
    pub log: Vec<Diagnostic>,
}

/// The machine as a value. `fault` is set once an operation has failed;
/// every operation leaves a machine with a fault as it is.
pub ghost struct Machine {
    pub ram: Seq<u8>,
    pub wst: Seq<u8>,
    pub rst: Seq<u8>,
    pub dev: Seq<u8>,
    pub pk: usize,
    pub r2: bool,
    pub rr: bool,
    pub rk: bool,
    pub halted: bool,
    pub limit: u64,
    pub screen: Screen,
    /// Bytes written to the console's output port.
    pub console: Seq<u8>,
    /// The mouse vector.
    pub mouse: usize,
    pub log: Seq<Diagnostic>,
    pub fault: Option<Fault>,
}

impl View for UXN {
    type V = Machine;

    open spec fn view(&self) -> Machine {
        Machine {
            ram: self.ram@,
            wst: self.wst@,
            rst: self.rst@,
            dev: self.dev@,
            pk: self.pk,
            r2: self.r2,
            rr: self.rr,
            rk: self.rk,
            halted: self.halted,
            limit: self.limit,
            screen: self.screen@,
            console: self.console.output@,
            mouse: self.mouse.vector,
            log: self.log@,
            fault: None,
        }
    }
}

impl Machine {
    /// The regions have their sizes, and the screen is well formed.
    pub open spec fn wf(self) -> bool {
        &&& self.ram.len() == 0x10000
        &&& self.wst.len() == 0x100
        &&& self.rst.len() == 0x100
        &&& self.dev.len() == 0x100
        &&& self.pk <= 0xff
        &&& self.mouse <= 0xffff
        &&& self.screen.wf()
    }

    /// No operation has failed.
    pub open spec fn ok(self) -> bool {
        self.fault is None
    }

    /// The machine after an operation has failed.
    pub open spec fn fail(self, fault: Fault) -> Machine {
        Machine { fault: Some(fault), ..self }
    }

    /// The machine as it is left when its fault has been handed to the
    /// caller.
    pub open spec fn settled(self) -> Machine {
        Machine { fault: None, ..self }
    }

    /// The machine that an operation has left, by what the operation
    /// returned: with an error, the machine has that fault.
    pub open spec fn after<T>(self, r: Result<T, Fault>) -> Machine {
        match r {
            Ok(_) => self,
            Err(fault) => self.fail(fault),
        }
    }

    /// The machine as it is made: all memory zero, an empty program, a
    /// screen of the given size.
    pub open spec fn initial(w: u32, h: u32) -> Machine {
        Machine {
            ram: Seq::new(0x10000, |i: int| 0u8),
            wst: Seq::new(0x100, |i: int| 0u8),
            rst: Seq::new(0x100, |i: int| 0u8),
            dev: Seq::new(0x100, |i: int| 0u8),
            pk: 0,
            r2: false,
            rr: false,
            rk: false,
            halted: false,
            limit: BUDGET,
            screen: Screen::initial(w, h),
            console: Seq::empty(),
            mouse: 0,
            log: Seq::empty(),
            fault: None,
        }
    }

    /// Memory with a program copied in from `ORIGIN` on.
    pub open spec fn load(self, program: Seq<u8>) -> Machine {
        Machine {
            ram: Seq::new(
                self.ram.len(),
                |i: int|
                    if ORIGIN <= i < ORIGIN + program.len() {
                        program[i - ORIGIN]
                    } else {
                        self.ram[i]
                    },
            ),
            ..self
        }
    }

    /// The window of the stack that the instruction at hand works on.
    pub open spec fn src(self) -> Seq<u8> {
        if self.rr {
            self.rst
        } else {
            self.wst
        }
    }

    /// The window of the other stack.
    pub open spec fn dst(self) -> Seq<u8> {
        if self.rr {
            self.wst
        } else {
            self.rst
        }
    }

    /// The machine with the window of the stack at work replaced.
    pub open spec fn with_src(self, window: Seq<u8>) -> Machine {
        if self.rr {
            Machine { rst: window, ..self }
        } else {
            Machine { wst: window, ..self }
        }
    }

    /// The machine with the window of the other stack replaced.
    pub open spec fn with_dst(self, window: Seq<u8>) -> Machine {
        if self.rr {
            Machine { wst: window, ..self }
        } else {
            Machine { rst: window, ..self }
        }
    }

    /// Depth of the stack at work.
    pub open spec fn ptr(self) -> u8 {
        self.src()[0xff]
    }

    /// Depth of the other stack.
    pub open spec fn dst_ptr(self) -> u8 {
        self.dst()[0xff]
    }

    /// What the stack at work holds, from the bottom up.
    pub open spec fn stack(self) -> Seq<u8> {
        self.src().subrange(0, self.ptr() as int)
    }

    /// What the other stack holds, from the bottom up.
    pub open spec fn dst_stack(self) -> Seq<u8> {
        self.dst().subrange(0, self.dst_ptr() as int)
    }

    /// The depth that the next pop reads below: in keep mode the kept
    /// depth, else the stack's own.
    pub open spec fn top(self) -> int {
        if self.rk {
            self.pk as int
        } else {
            self.ptr() as int
        }
    }

    /// The stack at work one deeper.
    pub open spec fn inc(self) -> Machine {
        self.with_src(self.src().update(0xff, (self.ptr() + 1) as u8))
    }

    /// The other stack one deeper.
    pub open spec fn dst_inc(self) -> Machine {
        self.with_dst(self.dst().update(0xff, (self.dst_ptr() + 1) as u8))
    }

    /// One byte given up: in keep mode by the kept depth, else by the
    /// stack itself.
    pub open spec fn dec(self) -> Machine {
        if self.rk {
            Machine { pk: (self.pk - 1) as usize, ..self }
        } else {
            self.with_src(self.src().update(0xff, (self.ptr() - 1) as u8))
        }
    }

    /// Background pixels that nothing was drawn to take colour 0.
    pub open spec fn bg_color(self) -> Machine {
        Machine {
            screen: Screen {
                bg: Seq::new(
                    self.screen.bg.len(),
                    |i: int|
                        if self.screen.bg[i] == TRANSPARENT {
                            0u8
                        } else {
                            self.screen.bg[i]
                        },
                ),
                ..self.screen
            },
            ..self
        }
    }

    /// The state that lasts for one evaluation only, as it is between
    /// evaluations. Memory, stacks and devices are left alone.
    pub open spec fn reset(self) -> Machine {
        Machine {
            halted: false,
            limit: BUDGET,
            pk: 0,
            r2: false,
            rr: false,
            rk: false,
            ..self
        }
    }

    /// The machine made ready for an instruction: bit 5 of the byte asks for
    /// shorts, bit 6 for the return stack, bit 7 to keep what is popped, and
    /// then the depth of the stack at work is kept.
    pub open spec fn decode(self, instr: u8) -> Machine {
        let m = Machine {
            r2: instr & 0x20 != 0,
            rr: instr & 0x40 != 0,
            rk: instr & 0x80 != 0,
            ..self
        };
        if m.rk {
            Machine { pk: m.ptr() as usize, ..m }
        } else {
            m
        }
    }

    /// The operation of an instruction byte: its five low bits.
    pub open spec fn opcode(instr: u8) -> Opcode {
        Opcode::decode(instr & MAX_INSTR).unwrap()
    }

    /// One instruction, fetched at `pc` and carried out. Gives the machine,
    /// and the address of the next instruction.
    ///
    /// With no budget left nothing is fetched and the machine halts. A zero
    /// byte halts the machine. Any other byte is carried out, which takes
    /// one from the budget, and the machine halts if that left the halt port
    /// of the system device, 0x0f, other than zero.
    pub open spec fn step(self, pc: int) -> (Machine, int) {
        let instr = self.ram[pc];
        if self.limit == 0 {
            (Machine { halted: true, ..self }, pc)
        } else if instr == 0 {
            (Machine { halted: true, limit: (self.limit - 1) as u64, ..self.decode(instr) }, wrap(pc + 1))
        } else {
            let (m, next) = self.decode(instr).execute(Machine::opcode(instr), wrap(pc + 1));
            if m.ok() {
                (Machine { halted: m.dev[0x0f] != 0, limit: (self.limit - 1) as u64, ..m }, next)
            } else {
                (m, next)
            }
        }
    }

    /// Instructions carried out from `pc` on, until the machine halts, an
    /// instruction fails, or `fuel` instructions were carried out. Gives
    /// the machine, and the address at which it stopped: that of the
    /// instruction that failed, or else of the one that would be next.
    pub open spec fn run(self, pc: int, fuel: nat) -> (Machine, int)
        decreases fuel,
    {
        if !self.ok() || self.halted || fuel == 0 {
            (self, pc)
        } else {
            let (m, next) = self.step(pc);
            if m.ok() {
                m.run(next, (fuel - 1) as nat)
            } else {
                (m, pc)
            }
        }
    }

    /// Whether an evaluation at `pc` runs anything: not at vector 0, and not
    /// once the halt port is set.
    pub open spec fn runs(self, pc: int) -> bool {
        pc != 0 && self.dev[0x0f] == 0
    }

    /// The machine after an evaluation at `pc`: as it was, where nothing is
    /// run; else as running on the budget it has left it, with the state
    /// that lasts for one evaluation reset.
    pub open spec fn eval(self, pc: int) -> Machine {
        if self.runs(pc) {
            self.run(pc, self.limit as nat).0.reset().settled()
        } else {
            self
        }
    }

    /// What an evaluation at `pc` reports.
    pub open spec fn eval_result(self, pc: int) -> Result<Exit, Trap> {
        if self.runs(pc) {
            let (m, at) = self.run(pc, self.limit as nat);
            match m.fault {
                Some(fault) => Err(
                    Trap { fault, addr: at as usize, opcode: m.ram[at], depth: m.ptr() },
                ),
                None => if m.halted {
                    Ok(Exit::Halted)
                } else {
                    Ok(Exit::Interrupted(at as usize))
                },
            }
        } else {
            Ok(Exit::Idle)
        }
    }
}

impl UXN {
    /// The machine is well formed: its model is.
    pub open spec fn wf(&self) -> bool {
        self@.wf()
    }

    /// A machine with zeroed memory and a screen of the given size.
    pub fn new(w: u32, h: u32) -> (uxn: Self)
        requires
            w <= 0xffff,
            h <= 0xffff,
        ensures
            uxn.wf(),
            uxn@ == Machine::initial(w, h),
    {
        let uxn = UXN {
            ram: vec![0u8; 0x10000],
            wst: vec![0u8; 0x100],
            rst: vec![0u8; 0x100],
            dev: vec![0u8; 0x100],
            pk: 0,
            r2: false,
            rr: false,
            rk: false,
            halted: false,
            limit: BUDGET,
            system: SystemDevice::new(),
            console: ConsoleDevice::new(),
            screen: ScreenDevice::new(w, h),
            mouse: MouseDevice::new(),
            log: Vec::new(),
        };
        assert(uxn.ram@ =~= Machine::initial(w, h).ram);
        assert(uxn.wst@ =~= Machine::initial(w, h).wst);
        assert(uxn.rst@ =~= Machine::initial(w, h).rst);
        assert(uxn.dev@ =~= Machine::initial(w, h).dev);
        assert(uxn.log@ =~= Machine::initial(w, h).log);
        uxn
    }

    /// Copies a program into memory, from `ORIGIN` on.
    pub fn load(&mut self, program: Vec<u8>)
        requires
            old(self).wf(),
            ORIGIN + program@.len() <= 0x10000,
        ensures
            final(self).wf(),
            final(self)@ == old(self)@.load(program@),
    {
        let n = program.len();
        let mut i: usize = 0;
        while i < n
            invariant
                n == program@.len(),
                ORIGIN + n <= 0x10000,
                i <= n,
                self.wf(),
                self@ == (Machine { ram: self.ram@, ..old(self)@ }),
                forall|k: int|
                    0 <= k < 0x10000 ==> self.ram@[k] == (if ORIGIN <= k < ORIGIN + i {
                        program@[k - ORIGIN]
                    } else {
                        old(self).ram@[k]
                    }),
            decreases n - i,
        {
            self.ram[ORIGIN + i] = program[i];
            i += 1;
        }
        assert(self.ram@ =~= old(self)@.load(program@).ram);
    }

    /// A byte of the working stack's window.
    pub fn wst_get(&self, index: usize) -> (v: u8)
        requires
            self.wf(),
            index < 0x100,
        ensures
            v == self@.wst[index as int],
    {
        self.wst[index]
    }

    /// A byte of the return stack's window.
    pub fn rst_get(&self, index: usize) -> (v: u8)
        requires
            self.wf(),
            index < 0x100,
        ensures
            v == self@.rst[index as int],
    {
        self.rst[index]
    }

    /// A byte of the device page.
    pub fn dev_get(&self, index: usize) -> (v: u8)
        requires
            self.wf(),
            index < 0x100,
        ensures
            v == self@.dev[index as int],
    {
        self.dev[index]
    }

    /// A byte of the window of the stack at work.
    pub fn get(&self, index: usize) -> (v: u8)
        requires
            self.wf(),
            index < 0x100,
        ensures
            v == self@.src()[index as int],
    {
        if self.rr {
            self.rst[index]
        } else {
            self.wst[index]
        }
    }

    /// A byte of the window of the other stack.
    pub fn dst_get(&self, index: usize) -> (v: u8)
        requires
            self.wf(),
            index < 0x100,
        ensures
            v == self@.dst()[index as int],
    {
        if self.rr {
            self.wst[index]
        } else {
            self.rst[index]
        }
    }

    /// Stores a byte in the window of the stack at work.
    pub fn put(&mut self, index: usize, val: u8)
        requires
            old(self).wf(),
            index < 0x100,
        ensures
            final(self).wf(),
            final(self)@ == old(self)@.with_src(old(self)@.src().update(index as int, val)),
    {
        if self.rr {
            self.rst[index] = val;
        } else {
            self.wst[index] = val;
        }
    }

    /// Stores a byte in the window of the other stack.
    pub fn dst_put(&mut self, index: usize, val: u8)
        requires
            old(self).wf(),
            index < 0x100,
        ensures
            final(self).wf(),
            final(self)@ == old(self)@.with_dst(old(self)@.dst().update(index as int, val)),
    {
        if self.rr {
            self.wst[index] = val;
        } else {
            self.rst[index] = val;
        }
    }

    /// Depth of the stack at work.
    pub fn ptr(&self) -> (p: u8)
        requires
            self.wf(),
        ensures
            p == self@.ptr(),
    {
        self.get(0xff)
    }

    /// Makes the stack at work one deeper; returns the depth it had.
    pub fn inc(&mut self) -> (index: usize)
        requires
            old(self).wf(),
            old(self)@.ptr() < 0xff,
        ensures
            final(self).wf(),
            index == old(self)@.ptr(),
            final(self)@ == old(self)@.inc(),
    {
        let val = self.get(0xff);
        self.put(0xff, val + 1);
        val as usize
    }

    /// Makes the other stack one deeper; returns the depth it had.
    pub fn dst_inc(&mut self) -> (index: usize)
        requires
            old(self).wf(),
            old(self)@.dst_ptr() < 0xff,
        ensures
            final(self).wf(),
            index == old(self)@.dst_ptr(),
            final(self)@ == old(self)@.dst_inc(),
    {
        let val = self.dst_get(0xff);
        self.dst_put(0xff, val + 1);
        val as usize
    }

    /// Depth of the other stack.
    pub fn dst_ptr(&self) -> (p: u8)
        requires
            self.wf(),
        ensures
            p == self@.dst_ptr(),
    {
        self.dst_get(0xff)
    }

    /// Gives up one byte and returns the place it is read from. In keep
    /// mode only the kept depth goes down, and the stack stays as it is.
    pub fn dec(&mut self) -> (index: usize)
        requires
            old(self).wf(),
            old(self)@.top() > 0,
        ensures
            final(self).wf(),
            index == old(self)@.top() - 1,
            final(self)@ == old(self)@.dec(),
    {
        if self.rk {
            self.pk = self.pk - 1;
            self.pk
        } else {
            let val = self.get(0xff);
            self.put(0xff, val - 1);
            (val - 1) as usize
        }
    }

    /// Gives every background pixel that nothing was drawn to colour 0.
    pub fn bg_color(&mut self)
        requires
            old(self).wf(),
        ensures
            final(self).wf(),
            final(self)@ == old(self)@.bg_color(),
    {
        let n = self.screen.bg.len();
        let mut i: usize = 0;
        while i < n
            invariant
                n == old(self).screen.bg@.len(),
                i <= n,
                self.wf(),
                self.screen.bg@.len() == n,
                self@ == (Machine {
                    screen: Screen { bg: self.screen.bg@, ..old(self)@.screen },
                    ..old(self)@
                }),
                forall|k: int|
                    0 <= k < n ==> self.screen.bg@[k] == (if k < i && old(self).screen.bg@[k]
                        == TRANSPARENT {
                        0u8
                    } else {
                        old(self).screen.bg@[k]
                    }),
            decreases n - i,
        {
            if self.screen.bg[i] == TRANSPARENT {
                self.screen.bg[i] = 0;
            }
            i += 1;
        }
        assert(self.screen.bg@ =~= old(self)@.bg_color().screen.bg);
    }

    /// What is done when the budget has run out: 0 ends the evaluation.
    fn interrupt(&self) -> (go_on: u8)
        ensures
            go_on == 0,
    {
        0
    }

    /// Brings the state that lasts for one evaluation back to what it is
    /// between evaluations.
    pub(crate) fn reset(&mut self)
        requires
            old(self).wf(),
        ensures
            final(self).wf(),
            final(self)@ == old(self)@.reset(),
    {
        // return to the default values
        self.halted = false;
        self.limit = BUDGET;

        self.pk = 0;

        self.r2 = false;
        self.rr = false;
        self.rk = false;
    }
    /// Runs the program at `pc` until it halts, fails, or has used up the
    /// budget; then resets what lasts for one evaluation only. Does nothing
    /// at vector 0, or once the halt port is set.
    pub fn eval(&mut self, pc: usize) -> (r: Result<Exit, Trap>)
        requires
            old(self).wf(),
            pc < 0x10000,
        ensures
            final(self).wf(),
            final(self)@ == old(self)@.eval(pc as int),
            r == old(self)@.eval_result(pc as int),
    {
        if pc == 0 || self.dev_get(0xf) != 0 {
            return Ok(Exit::Idle);
        }
        let mut at = pc;
        while !self.halted
            invariant
                self.wf(),
                at < 0x10000,
                old(self)@.runs(pc as int),
                old(self)@.run(pc as int, old(self).limit as nat) == self@.run(
                    at as int,
                    self.limit as nat,
                ),
            decreases self.limit,
        {
            if self.limit == 0 {
                self.reset();
                return Ok(Exit::Interrupted(at));
            }
            match self.step(at) {
                Ok(next) => {
                    at = next;
                },
                Err(fault) => {
                    let trap = Trap { fault, addr: at, opcode: self.ram[at], depth: self.ptr() };
                    self.reset();
                    return Err(trap);
                },
            }
        }
        self.reset();
        Ok(Exit::Halted)
    }

    /// Makes the machine ready for an instruction: takes the mode from the
    /// three high bits of its byte, and in keep mode keeps the depth of
    /// the stack at work.
    fn decode(&mut self, instr: u8)
        requires
            old(self).wf(),
        ensures
            final(self).wf(),
            final(self)@ == old(self)@.decode(instr),
    {
        self.r2 = instr & 0x20 != 0;
        self.rr = instr & 0x40 != 0;
        self.rk = instr & 0x80 != 0;

        // keep-mode
        if self.rk {
            self.pk = self.ptr() as usize;
        }
    }

    /// Carries out one operation.
    fn execute(&mut self, op: Opcode, pc: usize) -> (r: Result<usize, Fault>)
        requires
            old(self).wf(),
            pc < 0x10000,
        ensures
            final(self).wf(),
            old(self)@.execute(op, pc as int).0 == final(self)@.after(r),
            r matches Ok(next) ==> next == old(self)@.execute(op, pc as int).1 && next < 0x10000,
    {
        match op {
            Opcode::LIT
            | Opcode::INC
            | Opcode::POP
            | Opcode::NIP
            | Opcode::SWP
            | Opcode::ROT
            | Opcode::DUP
            | Opcode::OVR => self.stack_op(op, pc),
            Opcode::EQU
            | Opcode::NEQ
            | Opcode::GTH
            | Opcode::LTH
            | Opcode::JMP
            | Opcode::JCN
            | Opcode::JSR
            | Opcode::STH => self.logic_op(op, pc),
            Opcode::LDZ
            | Opcode::STZ
            | Opcode::LDR
            | Opcode::STR
            | Opcode::LDA
            | Opcode::STA
            | Opcode::DEI
            | Opcode::DEO => self.memory_op(op, pc),
            Opcode::ADD
            | Opcode::SUB
            | Opcode::MUL
            | Opcode::DIV
            | Opcode::AND
            | Opcode::ORA
            | Opcode::EOR
            | Opcode::SFT => self.arith_op(op, pc),
        }
    }

    /// Fetches the instruction at `pc` and carries it out; returns the
    /// address of the next instruction.
    pub fn step(&mut self, pc: usize) -> (r: Result<usize, Fault>)
        requires
            old(self).wf(),
            pc < 0x10000,
        ensures
            final(self).wf(),
            old(self)@.step(pc as int).0 == final(self)@.after(r),
            r matches Ok(next) ==> next == old(self)@.step(pc as int).1 && next < 0x10000,
    {
        let budget = self.limit;
        if budget == 0 {
            if self.interrupt() == 0 {
                self.halted = true;
                return Ok(pc);
            }
        }
        let instr = self.ram[pc];
        let pc = (pc + 1) % 0x10000;

        self.decode(instr);
        if instr == 0 {
            self.halted = true;
            self.limit = budget - 1;
            return Ok(pc);
        }
        assert(instr & MAX_INSTR < 32) by (bit_vector);

        let next = match Opcode::try_from(instr & MAX_INSTR) {
            Ok(op) => self.execute(op, pc)?,
            Err(_) => pc,
        };
        self.halted = self.dev_get(0xf) != 0;
        self.limit = budget - 1;
        Ok(next)
    }
}

} // verus!
