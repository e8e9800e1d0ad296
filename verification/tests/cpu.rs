use auxn::system::{Exit, Fault, Opcode, Trap};
use auxn::UXN;

// instruction bytes: the operation, and the mode bits above it
const LIT: u8 = 0x80;
const LIT2: u8 = 0xa0;
const KEEP: u8 = 0x80;
const RET: u8 = 0x40;
const SHORT: u8 = 0x20;

fn machine(program: &[u8]) -> UXN {
    let mut uxn = UXN::new(8, 8);
    uxn.load(program.to_vec());
    uxn
}

fn depth(uxn: &UXN) -> u8 {
    uxn.wst_get(0xff)
}

fn working(uxn: &UXN) -> Vec<u8> {
    (0..depth(uxn) as usize).map(|i| uxn.wst_get(i)).collect()
}

fn retstack(uxn: &UXN) -> Vec<u8> {
    (0..uxn.rst_get(0xff) as usize).map(|i| uxn.rst_get(i)).collect()
}

#[test]
fn opcode_codes_decode() {
    assert_eq!(Opcode::try_from(0x00), Ok(Opcode::LIT));
    assert_eq!(Opcode::try_from(0x07), Ok(Opcode::OVR));
    assert_eq!(Opcode::try_from(0x0e), Ok(Opcode::JSR));
    assert_eq!(Opcode::try_from(0x17), Ok(Opcode::DEO));
    assert_eq!(Opcode::try_from(0x18), Ok(Opcode::ADD));
    assert_eq!(Opcode::try_from(0x1f), Ok(Opcode::SFT));
    assert_eq!(Opcode::try_from(0x20), Err(()));
    assert_eq!(Opcode::try_from(0xff), Err(()));
}

#[test]
fn new_machine_is_zeroed() {
    let uxn = UXN::new(8, 8);
    assert_eq!(uxn.ram.len(), 0x10000);
    assert!(uxn.ram.iter().all(|b| *b == 0));
    assert!(uxn.wst.iter().all(|b| *b == 0));
    assert!(uxn.rst.iter().all(|b| *b == 0));
    assert!(uxn.dev.iter().all(|b| *b == 0));
    assert_eq!(uxn.limit, 0x40000);
    assert!(!uxn.halted);
    assert!(uxn.log.is_empty());
    assert!(uxn.console.output.is_empty());
}

#[test]
fn load_copies_from_0x100() {
    let mut uxn = UXN::new(8, 8);
    uxn.ram[0xff] = 7;
    uxn.ram[0x103] = 9;
    uxn.load(vec![1, 2, 3]);
    assert_eq!(&uxn.ram[0xff..0x104], &[7, 1, 2, 3, 9]);
}

#[test]
fn load_fills_memory_to_its_end() {
    let mut uxn = UXN::new(8, 8);
    uxn.load(vec![0xaa; 0xff00]);
    assert_eq!(uxn.ram[0xff], 0);
    assert_eq!(uxn.ram[0x100], 0xaa);
    assert_eq!(uxn.ram[0xffff], 0xaa);
}

#[test]
fn push8_then_pop8_gives_the_byte_back() {
    for v in 0..=255u8 {
        let mut uxn = UXN::new(8, 8);
        uxn.PUSH8(0x11).unwrap();
        uxn.PUSH8(0x22).unwrap();
        let before = working(&uxn);
        uxn.PUSH8(v).unwrap();
        assert_eq!(depth(&uxn), 3);
        assert_eq!(uxn.POP8(), Ok(v));
        assert_eq!(working(&uxn), before);
        assert_eq!(uxn.wst_get(2), v);
    }
}

#[test]
fn push16_stores_high_byte_first() {
    let mut uxn = UXN::new(8, 8);
    uxn.PUSH16(0x1234).unwrap();
    assert_eq!(working(&uxn), vec![0x12, 0x34]);
    assert_eq!(uxn.POP16(), Ok(0x1234));
    assert_eq!(depth(&uxn), 0);
}

#[test]
fn push_and_pop_follow_the_width() {
    let mut uxn = UXN::new(8, 8);
    uxn.PUSH(0x1234).unwrap();
    assert_eq!(working(&uxn), vec![0x34]);
    assert_eq!(uxn.POP(), Ok(0x34));
    uxn.r2 = true;
    uxn.PUSH(0x1234).unwrap();
    assert_eq!(working(&uxn), vec![0x12, 0x34]);
    assert_eq!(uxn.POP(), Ok(0x1234));
}

#[test]
fn return_mode_selects_the_return_stack() {
    let mut uxn = UXN::new(8, 8);
    uxn.rr = true;
    uxn.PUSH8(5).unwrap();
    assert_eq!(retstack(&uxn), vec![5]);
    assert_eq!(depth(&uxn), 0);
    assert_eq!(uxn.ptr(), 1);
    assert_eq!(uxn.dst_ptr(), 0);
    uxn.DST_PUSH16(0xabcd).unwrap();
    assert_eq!(working(&uxn), vec![0xab, 0xcd]);
    assert_eq!(uxn.get(0), 5);
    assert_eq!(uxn.dst_get(1), 0xcd);
}

#[test]
fn dst_push_targets_the_other_stack() {
    let mut uxn = UXN::new(8, 8);
    uxn.DST_PUSH8(9).unwrap();
    assert_eq!(retstack(&uxn), vec![9]);
    assert_eq!(depth(&uxn), 0);
}

#[test]
fn the_256th_push_overflows() {
    let mut uxn = UXN::new(8, 8);
    for i in 0..255u32 {
        assert_eq!(uxn.PUSH8(i as u8), Ok(()));
    }
    assert_eq!(depth(&uxn), 255);
    let before = uxn.wst.clone();
    assert_eq!(uxn.PUSH8(1), Err(Fault::StackOverflow));
    assert_eq!(depth(&uxn), 255);
    assert_eq!(uxn.wst, before);
}

#[test]
fn push16_overflows_after_its_first_byte() {
    let mut uxn = UXN::new(8, 8);
    for _ in 0..254 {
        uxn.PUSH8(0).unwrap();
    }
    assert_eq!(uxn.PUSH16(0x1234), Err(Fault::StackOverflow));
    assert_eq!(depth(&uxn), 255);
    assert_eq!(uxn.wst_get(254), 0x12);
}

#[test]
fn dst_push_overflows_at_255() {
    let mut uxn = UXN::new(8, 8);
    for _ in 0..255 {
        uxn.DST_PUSH8(0).unwrap();
    }
    assert_eq!(uxn.DST_PUSH8(0), Err(Fault::StackOverflow));
    assert_eq!(uxn.rst_get(0xff), 255);
}

#[test]
fn pop_of_an_empty_stack_underflows() {
    let mut uxn = UXN::new(8, 8);
    assert_eq!(uxn.POP8(), Err(Fault::StackUnderflow));
    assert_eq!(uxn.POP16(), Err(Fault::StackUnderflow));
    assert_eq!(uxn.POP(), Err(Fault::StackUnderflow));
    assert_eq!(depth(&uxn), 0);
}

#[test]
fn pop16_underflows_after_its_first_byte() {
    let mut uxn = UXN::new(8, 8);
    uxn.PUSH8(7).unwrap();
    assert_eq!(uxn.POP16(), Err(Fault::StackUnderflow));
    assert_eq!(depth(&uxn), 0);
}

#[test]
fn keep_mode_pop_leaves_the_stack() {
    let mut uxn = UXN::new(8, 8);
    uxn.PUSH8(3).unwrap();
    uxn.PUSH8(4).unwrap();
    uxn.rk = true;
    uxn.pk = uxn.ptr() as usize;
    assert_eq!(uxn.POP8(), Ok(4));
    assert_eq!(uxn.POP8(), Ok(3));
    assert_eq!(uxn.POP8(), Err(Fault::StackUnderflow));
    assert_eq!(working(&uxn), vec![3, 4]);
}

#[test]
fn inc_and_dec_move_the_depth() {
    let mut uxn = UXN::new(8, 8);
    assert_eq!(uxn.inc(), 0);
    assert_eq!(uxn.inc(), 1);
    assert_eq!(uxn.ptr(), 2);
    assert_eq!(uxn.dec(), 1);
    assert_eq!(uxn.ptr(), 1);
    assert_eq!(uxn.dst_inc(), 0);
    assert_eq!(uxn.dst_ptr(), 1);
    uxn.rk = true;
    uxn.pk = 1;
    assert_eq!(uxn.dec(), 0);
    assert_eq!(uxn.pk, 0);
    assert_eq!(uxn.ptr(), 1);
}

#[test]
fn peek_and_poke_follow_the_width() {
    let mut uxn = UXN::new(8, 8);
    uxn.POKE8(0x200, 0xab);
    uxn.POKE8(0x201, 0xcd);
    assert_eq!(uxn.PEEK(0x200), 0xab);
    assert_eq!(uxn.PEEK16(0x200), 0xabcd);
    uxn.POKE(0x300, 0x1234);
    assert_eq!(uxn.ram[0x300], 0x34);
    assert_eq!(uxn.ram[0x301], 0);
    uxn.r2 = true;
    assert_eq!(uxn.PEEK(0x200), 0xabcd);
    uxn.POKE(0x300, 0x1234);
    assert_eq!(&uxn.ram[0x300..0x302], &[0x12, 0x34]);
}

#[test]
fn shorts_at_the_last_address_continue_at_the_first() {
    let mut uxn = UXN::new(8, 8);
    uxn.r2 = true;
    uxn.POKE(0xffff, 0x1234);
    assert_eq!(uxn.ram[0xffff], 0x12);
    assert_eq!(uxn.ram[0], 0x34);
    assert_eq!(uxn.PEEK16(0xffff), 0x1234);
}

#[test]
fn rel_reads_a_signed_byte() {
    let uxn = UXN::new(8, 8);
    assert_eq!(uxn.rel(0), 0);
    assert_eq!(uxn.rel(0x7f), 0x7f);
    assert_eq!(uxn.rel(0x80), 0xff80);
    assert_eq!(uxn.rel(0xff), 0xffff);
}

#[test]
fn jump_is_relative_in_byte_mode_and_absolute_in_short_mode() {
    let mut uxn = UXN::new(8, 8);
    assert_eq!(uxn.JUMP(0x05, 0x200), 0x205);
    assert_eq!(uxn.JUMP(0xfd, 0x200), 0x1fd);
    assert_eq!(uxn.JUMP(0x80, 0x200), 0x180);
    assert_eq!(uxn.JUMP(0x7f, 0x200), 0x27f);
    assert_eq!(uxn.JUMP(0xff, 0x0000), 0xffff);
    assert_eq!(uxn.JUMP(0x01, 0xffff), 0x0000);
    uxn.r2 = true;
    assert_eq!(uxn.JUMP(0x1234, 0x200), 0x1234);
}

#[test]
fn program_lit_lit_add_leaves_one_value() {
    let mut uxn = machine(&[LIT, 0x02, LIT, 0x03, 0x18]);
    assert_eq!(uxn.eval(0x100), Ok(Exit::Halted));
    assert_eq!(working(&uxn), vec![0x05]);
    assert_eq!(retstack(&uxn), Vec::<u8>::new());
}

#[test]
fn step_reports_the_next_address() {
    let mut uxn = machine(&[LIT, 0x02, LIT2, 0x03, 0x04, 0x18]);
    assert_eq!(uxn.step(0x100), Ok(0x102));
    assert_eq!(uxn.step(0x102), Ok(0x105));
    assert!(!uxn.halted);
    assert_eq!(working(&uxn), vec![0x02, 0x03, 0x04]);
    assert_eq!(uxn.limit, 0x40000 - 2);
    assert_eq!(uxn.step(0x105), Ok(0x106));
    assert_eq!(working(&uxn), vec![0x02, 0x07]);
    assert_eq!(uxn.step(0x106), Ok(0x107));
    assert!(uxn.halted);
    assert_eq!(working(&uxn), vec![0x02, 0x07]);
}

#[test]
fn step_without_budget_halts_and_runs_nothing() {
    let mut uxn = machine(&[LIT, 0x02]);
    uxn.limit = 0;
    assert_eq!(uxn.step(0x100), Ok(0x100));
    assert!(uxn.halted);
    assert_eq!(depth(&uxn), 0);
}

#[test]
fn eval_of_vector_zero_does_nothing() {
    let mut uxn = machine(&[LIT, 0x02]);
    uxn.ram[0] = LIT;
    uxn.ram[1] = 0x09;
    assert_eq!(uxn.eval(0), Ok(Exit::Idle));
    assert_eq!(depth(&uxn), 0);
}

#[test]
fn eval_after_halt_port_does_nothing() {
    // LIT 01 LIT 0f DEO, then LIT 09
    let mut uxn = machine(&[LIT, 0x01, LIT, 0x0f, 0x17, LIT, 0x09]);
    assert_eq!(uxn.eval(0x100), Ok(Exit::Halted));
    assert_eq!(uxn.dev_get(0x0f), 1);
    assert_eq!(depth(&uxn), 0);
    assert_eq!(uxn.eval(0x105), Ok(Exit::Idle));
    assert_eq!(depth(&uxn), 0);
}

#[test]
fn eval_resets_the_transient_state() {
    let mut uxn = machine(&[LIT2 | RET, 0x12, 0x34]);
    assert_eq!(uxn.eval(0x100), Ok(Exit::Halted));
    assert_eq!(retstack(&uxn), vec![0x12, 0x34]);
    assert!(!uxn.halted);
    assert!(!uxn.r2);
    assert!(!uxn.rr);
    assert!(!uxn.rk);
    assert_eq!(uxn.pk, 0);
    assert_eq!(uxn.limit, 0x40000);
}

#[test]
fn eval_of_an_endless_loop_is_interrupted() {
    // LIT fd JMP: back to the LIT
    let mut uxn = machine(&[LIT, 0xfd, 0x0c]);
    assert_eq!(uxn.eval(0x100), Ok(Exit::Interrupted(0x100)));
    assert_eq!(uxn.limit, 0x40000);
    assert_eq!(depth(&uxn), 0);
}

#[test]
fn arithmetic_wraps_in_byte_mode() {
    let mut uxn = machine(&[LIT, 0xff, LIT, 0x02, 0x18]);
    uxn.eval(0x100).unwrap();
    assert_eq!(working(&uxn), vec![0x01]);
    let mut uxn = machine(&[LIT, 0x01, LIT, 0x02, 0x19]);
    uxn.eval(0x100).unwrap();
    assert_eq!(working(&uxn), vec![0xff]);
    let mut uxn = machine(&[LIT, 0x10, LIT, 0x11, 0x1a]);
    uxn.eval(0x100).unwrap();
    assert_eq!(working(&uxn), vec![0x10]);
}

#[test]
fn arithmetic_wraps_in_short_mode() {
    let mut uxn = machine(&[LIT2, 0xff, 0xff, LIT2, 0x00, 0x02, 0x18 | SHORT]);
    uxn.eval(0x100).unwrap();
    assert_eq!(working(&uxn), vec![0x00, 0x01]);
    let mut uxn = machine(&[LIT2, 0x00, 0x01, LIT2, 0x00, 0x02, 0x19 | SHORT]);
    uxn.eval(0x100).unwrap();
    assert_eq!(working(&uxn), vec![0xff, 0xff]);
    let mut uxn = machine(&[LIT2, 0x01, 0x00, LIT2, 0x01, 0x01, 0x1a | SHORT]);
    uxn.eval(0x100).unwrap();
    assert_eq!(working(&uxn), vec![0x01, 0x00]);
}

#[test]
fn division_truncates() {
    let mut uxn = machine(&[LIT, 0x07, LIT, 0x02, 0x1b]);
    uxn.eval(0x100).unwrap();
    assert_eq!(working(&uxn), vec![0x03]);
    let mut uxn = machine(&[LIT2, 0x12, 0x34, LIT2, 0x00, 0x10, 0x1b | SHORT]);
    uxn.eval(0x100).unwrap();
    assert_eq!(working(&uxn), vec![0x01, 0x23]);
}

#[test]
fn division_by_zero_is_a_fault() {
    let mut uxn = machine(&[LIT, 0x07, LIT, 0x00, 0x1b]);
    assert_eq!(
        uxn.eval(0x100),
        Err(Trap { fault: Fault::DivisionByZero, addr: 0x104, opcode: 0x1b, depth: 0 })
    );
    let mut uxn = machine(&[LIT, 0x07, LIT, 0x00, 0x1b]);
    assert_eq!(uxn.step(0x100), Ok(0x102));
    assert_eq!(uxn.step(0x102), Ok(0x104));
    assert_eq!(uxn.step(0x104), Err(Fault::DivisionByZero));
}

#[test]
fn underflow_in_a_program_is_a_trap() {
    let mut uxn = machine(&[LIT, 0x07, 0x18]);
    assert_eq!(
        uxn.eval(0x100),
        Err(Trap { fault: Fault::StackUnderflow, addr: 0x102, opcode: 0x18, depth: 0 })
    );
    assert!(!uxn.halted);
    assert_eq!(uxn.limit, 0x40000);
}

#[test]
fn overflow_in_a_program_is_a_trap() {
    // LIT 00, then DUP and jump back for ever
    let mut uxn = machine(&[LIT, 0x00, 0x06, LIT, 0xfc, 0x0c]);
    assert_eq!(
        uxn.eval(0x100),
        Err(Trap { fault: Fault::StackOverflow, addr: 0x103, opcode: LIT, depth: 255 })
    );
    assert_eq!(depth(&uxn), 255);
}

#[test]
fn stack_operations() {
    // INC
    let mut uxn = machine(&[LIT, 0xff, 0x01]);
    uxn.eval(0x100).unwrap();
    assert_eq!(working(&uxn), vec![0x00]);
    // POP
    let mut uxn = machine(&[LIT, 0x01, LIT, 0x02, 0x02]);
    uxn.eval(0x100).unwrap();
    assert_eq!(working(&uxn), vec![0x01]);
    // NIP
    let mut uxn = machine(&[LIT, 0x01, LIT, 0x02, 0x03]);
    uxn.eval(0x100).unwrap();
    assert_eq!(working(&uxn), vec![0x02]);
    // SWP: pop a, pop b, push a, push b
    let mut uxn = machine(&[LIT, 0x01, LIT, 0x02, 0x04]);
    uxn.eval(0x100).unwrap();
    assert_eq!(working(&uxn), vec![0x02, 0x01]);
    // ROT: pop a, b, c, push b, a, c
    let mut uxn = machine(&[LIT, 0x01, LIT, 0x02, LIT, 0x03, 0x05]);
    uxn.eval(0x100).unwrap();
    assert_eq!(working(&uxn), vec![0x02, 0x03, 0x01]);
    // DUP
    let mut uxn = machine(&[LIT, 0x01, 0x06]);
    uxn.eval(0x100).unwrap();
    assert_eq!(working(&uxn), vec![0x01, 0x01]);
    // OVR: pop a, b, push b, a, b
    let mut uxn = machine(&[LIT, 0x01, LIT, 0x02, 0x07]);
    uxn.eval(0x100).unwrap();
    assert_eq!(working(&uxn), vec![0x01, 0x02, 0x01]);
}

#[test]
fn stack_operations_on_shorts() {
    let mut uxn = machine(&[LIT2, 0x00, 0xff, 0x01 | SHORT]);
    uxn.eval(0x100).unwrap();
    assert_eq!(working(&uxn), vec![0x01, 0x00]);
    let mut uxn = machine(&[LIT2, 0x01, 0x02, LIT2, 0x03, 0x04, 0x04 | SHORT]);
    uxn.eval(0x100).unwrap();
    assert_eq!(working(&uxn), vec![0x03, 0x04, 0x01, 0x02]);
}

#[test]
fn comparisons_push_one_byte() {
    let cases: [(u8, u8, u8, u8); 8] = [
        (0x08, 3, 3, 1),
        (0x08, 3, 4, 0),
        (0x09, 3, 4, 1),
        (0x09, 3, 3, 0),
        (0x0a, 4, 3, 1),
        (0x0a, 3, 4, 0),
        (0x0b, 3, 4, 1),
        (0x0b, 4, 3, 0),
    ];
    for (op, b, a, want) in cases {
        let mut uxn = machine(&[LIT, b, LIT, a, op]);
        uxn.eval(0x100).unwrap();
        assert_eq!(working(&uxn), vec![want]);
    }
    // in short mode the result is still one byte
    let mut uxn = machine(&[LIT2, 0x01, 0x00, LIT2, 0x00, 0xff, 0x0a | SHORT]);
    uxn.eval(0x100).unwrap();
    assert_eq!(working(&uxn), vec![0x01]);
}

#[test]
fn bit_operations() {
    let mut uxn = machine(&[LIT, 0x0c, LIT, 0x0a, 0x1c]);
    uxn.eval(0x100).unwrap();
    assert_eq!(working(&uxn), vec![0x08]);
    let mut uxn = machine(&[LIT, 0x0c, LIT, 0x0a, 0x1d]);
    uxn.eval(0x100).unwrap();
    assert_eq!(working(&uxn), vec![0x0e]);
    let mut uxn = machine(&[LIT, 0x0c, LIT, 0x0a, 0x1e]);
    uxn.eval(0x100).unwrap();
    assert_eq!(working(&uxn), vec![0x06]);
}

#[test]
fn shift_goes_right_then_left() {
    // 0x34 >> 1 = 0x1a
    let mut uxn = machine(&[LIT, 0x34, LIT, 0x01, 0x1f]);
    uxn.eval(0x100).unwrap();
    assert_eq!(working(&uxn), vec![0x1a]);
    // 0x34 << 1 = 0x68
    let mut uxn = machine(&[LIT, 0x34, LIT, 0x10, 0x1f]);
    uxn.eval(0x100).unwrap();
    assert_eq!(working(&uxn), vec![0x68]);
    // (0x35 >> 1) << 1 = 0x34
    let mut uxn = machine(&[LIT, 0x35, LIT, 0x11, 0x1f]);
    uxn.eval(0x100).unwrap();
    assert_eq!(working(&uxn), vec![0x34]);
    // a short: 0x1234 << 4 = 0x2340
    let mut uxn = machine(&[LIT2, 0x12, 0x34, LIT, 0x40, 0x1f | SHORT]);
    uxn.eval(0x100).unwrap();
    assert_eq!(working(&uxn), vec![0x23, 0x40]);
}

#[test]
fn keep_mode_leaves_the_operands() {
    let mut uxn = machine(&[LIT, 0x02, LIT, 0x03, 0x18 | KEEP]);
    uxn.eval(0x100).unwrap();
    assert_eq!(working(&uxn), vec![0x02, 0x03, 0x05]);
    // POPk changes nothing
    let mut uxn = machine(&[LIT, 0x02, LIT, 0x03, 0x02 | KEEP]);
    uxn.eval(0x100).unwrap();
    assert_eq!(working(&uxn), vec![0x02, 0x03]);
    // SWPk
    let mut uxn = machine(&[LIT, 0x02, LIT, 0x03, 0x04 | KEEP]);
    uxn.eval(0x100).unwrap();
    assert_eq!(working(&uxn), vec![0x02, 0x03, 0x03, 0x02]);
}

#[test]
fn keep_mode_underflows_on_the_kept_depth() {
    let mut uxn = machine(&[LIT, 0x02, 0x18 | KEEP]);
    assert_eq!(
        uxn.eval(0x100),
        Err(Trap { fault: Fault::StackUnderflow, addr: 0x102, opcode: 0x98, depth: 1 })
    );
    assert_eq!(working(&uxn), vec![0x02]);
}

#[test]
fn jmp_and_jcn() {
    // LIT 02 JMP (skips LIT 09) LIT 07
    let mut uxn = machine(&[LIT, 0x02, 0x0c, LIT, 0x09, LIT, 0x07]);
    uxn.eval(0x100).unwrap();
    assert_eq!(working(&uxn), vec![0x07]);
    // JCN with a condition of 1 jumps
    let mut uxn = machine(&[LIT, 0x01, LIT, 0x02, 0x0d, LIT, 0x09, LIT, 0x07]);
    uxn.eval(0x100).unwrap();
    assert_eq!(working(&uxn), vec![0x07]);
    // and with 0 it does not
    let mut uxn = machine(&[LIT, 0x00, LIT, 0x02, 0x0d, LIT, 0x09, LIT, 0x07]);
    uxn.eval(0x100).unwrap();
    assert_eq!(working(&uxn), vec![0x09, 0x07]);
    // JMP2 is absolute
    let mut uxn = machine(&[LIT2, 0x01, 0x06, 0x0c | SHORT, LIT, 0x09, LIT, 0x07]);
    uxn.eval(0x100).unwrap();
    assert_eq!(working(&uxn), vec![0x07]);
    // JCN2 pops a short target and a byte condition
    let mut uxn = machine(&[LIT, 0x01, LIT2, 0x01, 0x08, 0x0d | SHORT, LIT, 0x09, LIT, 0x07]);
    uxn.eval(0x100).unwrap();
    assert_eq!(working(&uxn), vec![0x07]);
}

#[test]
fn jsr_then_jmp_back_in_byte_mode() {
    // 0x100: LIT 03 JSR | 0x103: LIT 07 BRK | 0x106: JMP2r
    let mut uxn = machine(&[LIT, 0x03, 0x0e, LIT, 0x07, 0x00, 0x0c | SHORT | RET]);
    assert_eq!(uxn.step(0x100), Ok(0x102));
    assert_eq!(uxn.step(0x102), Ok(0x106));
    assert_eq!(retstack(&uxn), vec![0x01, 0x03]);
    assert_eq!(depth(&uxn), 0);
    assert_eq!(uxn.step(0x106), Ok(0x103));
    assert_eq!(retstack(&uxn), Vec::<u8>::new());
    let mut uxn = machine(&[LIT, 0x03, 0x0e, LIT, 0x07, 0x00, 0x0c | SHORT | RET]);
    assert_eq!(uxn.eval(0x100), Ok(Exit::Halted));
    assert_eq!(working(&uxn), vec![0x07]);
}

#[test]
fn jsr_then_jmp_back_in_short_mode() {
    // 0x100: LIT2 0107 JSR2 | 0x104: LIT 07 BRK | 0x107: JMP2r
    let mut uxn = machine(&[LIT2, 0x01, 0x07, 0x0e | SHORT, LIT, 0x07, 0x00, 0x0c | SHORT | RET]);
    assert_eq!(uxn.step(0x100), Ok(0x103));
    assert_eq!(uxn.step(0x103), Ok(0x107));
    assert_eq!(retstack(&uxn), vec![0x01, 0x04]);
    assert_eq!(uxn.step(0x107), Ok(0x104));
    assert_eq!(retstack(&uxn), Vec::<u8>::new());
    assert_eq!(depth(&uxn), 0);
}

#[test]
fn jsr_in_return_mode_stashes_on_the_working_stack() {
    // LITr 02 JSRr
    let mut uxn = machine(&[LIT | RET, 0x02, 0x0e | RET]);
    assert_eq!(uxn.step(0x100), Ok(0x102));
    assert_eq!(uxn.step(0x102), Ok(0x105));
    assert_eq!(working(&uxn), vec![0x01, 0x03]);
    assert_eq!(retstack(&uxn), Vec::<u8>::new());
}

#[test]
fn sth_moves_a_value_across() {
    let mut uxn = machine(&[LIT, 0x07, 0x0f]);
    uxn.eval(0x100).unwrap();
    assert_eq!(working(&uxn), Vec::<u8>::new());
    assert_eq!(retstack(&uxn), vec![0x07]);
    let mut uxn = machine(&[LIT2, 0x12, 0x34, 0x0f | SHORT]);
    uxn.eval(0x100).unwrap();
    assert_eq!(retstack(&uxn), vec![0x12, 0x34]);
    let mut uxn = machine(&[LIT | RET, 0x07, 0x0f | RET]);
    uxn.eval(0x100).unwrap();
    assert_eq!(working(&uxn), vec![0x07]);
    assert_eq!(retstack(&uxn), Vec::<u8>::new());
}

#[test]
fn zero_page_loads_and_stores() {
    // LIT 2a LIT 10 STZ, LIT 10 LDZ
    let mut uxn = machine(&[LIT, 0x2a, LIT, 0x10, 0x11, LIT, 0x10, 0x10]);
    uxn.eval(0x100).unwrap();
    assert_eq!(uxn.ram[0x10], 0x2a);
    assert_eq!(working(&uxn), vec![0x2a]);
    // shorts
    let mut uxn =
        machine(&[LIT2, 0x12, 0x34, LIT, 0x10, 0x11 | SHORT, LIT, 0x10, 0x10 | SHORT]);
    uxn.eval(0x100).unwrap();
    assert_eq!(&uxn.ram[0x10..0x12], &[0x12, 0x34]);
    assert_eq!(working(&uxn), vec![0x12, 0x34]);
}

#[test]
fn relative_loads_and_stores() {
    // 0x100: LIT 02 LDR -> reads 0x103 + 2 = 0x105
    let mut uxn = machine(&[LIT, 0x02, 0x12, 0x00, 0x00, 0x5a]);
    uxn.eval(0x100).unwrap();
    assert_eq!(working(&uxn), vec![0x5a]);
    // 0x100: LIT 77 LIT fb STR -> writes 0x105 - 5 = 0x100
    let mut uxn = machine(&[LIT, 0x77, LIT, 0xfb, 0x13]);
    uxn.eval(0x100).unwrap();
    assert_eq!(uxn.ram[0x100], 0x77);
    assert_eq!(depth(&uxn), 0);
}

#[test]
fn absolute_loads_and_stores() {
    let mut uxn = machine(&[LIT, 0x2a, LIT2, 0x20, 0x00, 0x15, LIT2, 0x20, 0x00, 0x14]);
    uxn.eval(0x100).unwrap();
    assert_eq!(uxn.ram[0x2000], 0x2a);
    assert_eq!(working(&uxn), vec![0x2a]);
    let mut uxn = machine(&[
        LIT2,
        0x12,
        0x34,
        LIT2,
        0x20,
        0x00,
        0x15 | SHORT,
        LIT2,
        0x20,
        0x00,
        0x14 | SHORT,
    ]);
    uxn.eval(0x100).unwrap();
    assert_eq!(&uxn.ram[0x2000..0x2002], &[0x12, 0x34]);
    assert_eq!(working(&uxn), vec![0x12, 0x34]);
}

#[test]
fn program_counter_wraps_at_the_end_of_memory() {
    let mut uxn = UXN::new(8, 8);
    uxn.ram[0xffff] = LIT;
    uxn.ram[0x0000] = 0x42;
    assert_eq!(uxn.step(0xffff), Ok(0x0001));
    assert_eq!(working(&uxn), vec![0x42]);
}

#[test]
fn byte_stack_starts_full_of_zeros() {
    let mut s = auxn::system::Stack::new();
    assert_eq!(s.peek(), Some(&0));
    for _ in 0..256 {
        assert_eq!(s.pop(), Some(0));
    }
    assert_eq!(s.pop(), None);
    assert_eq!(s.peek(), None);
}

#[test]
fn byte_stack_pushes_and_pops() {
    let mut s = auxn::system::Stack::new();
    assert_eq!(s.pop(), Some(0));
    s.push(7);
    assert_eq!(s.peek(), Some(&7));
    assert_eq!(s.pop(), Some(7));
    assert_eq!(s.pop(), Some(0));
    s.push(1);
    s.push(2);
    assert_eq!(s.pop(), Some(2));
    assert_eq!(s.pop(), Some(1));
}

#[test]
fn byte_stack_keep_leaves_the_stack() {
    let mut s = auxn::system::Stack::new();
    s.pop();
    s.push(9);
    s.keep(true);
    assert_eq!(s.peek(), Some(&9));
    s.keep(false);
    assert_eq!(s.pop(), Some(9));
}

#[test]
fn device_is_made() {
    let _d = auxn::system::Device::new();
}

#[test]
fn shift_helper_counts_in_16_bits() {
    assert_eq!(auxn::operations::shift(0x1234, 0x00), 0x1234);
    assert_eq!(auxn::operations::shift(0x1234, 0x04), 0x0123);
    assert_eq!(auxn::operations::shift(0x1234, 0x40), 0x2340);
    assert_eq!(auxn::operations::shift(0x1234, 0x44), 0x1230);
    assert_eq!(auxn::operations::shift(0xffff, 0xf0), 0x8000);
    assert_eq!(auxn::operations::shift(0xffff, 0x0f), 0x0001);
    // only the low byte of the count is a count
    assert_eq!(auxn::operations::shift(0x1234, 0x0104), 0x0123);
}

#[test]
fn put_stores_in_the_window_at_work() {
    let mut uxn = UXN::new(8, 8);
    uxn.put(3, 0xaa);
    uxn.dst_put(4, 0xbb);
    assert_eq!(uxn.wst_get(3), 0xaa);
    assert_eq!(uxn.rst_get(4), 0xbb);
    uxn.rr = true;
    uxn.put(5, 0xcc);
    uxn.dst_put(6, 0xdd);
    assert_eq!(uxn.rst_get(5), 0xcc);
    assert_eq!(uxn.wst_get(6), 0xdd);
}

#[test]
fn note_adds_to_the_log() {
    let mut uxn = UXN::new(8, 8);
    uxn.note(auxn::system::Diagnostic::SpriteReadOutOfBounds(7));
    uxn.note(auxn::system::Diagnostic::UnmappedDevicePort(0x44));
    assert_eq!(
        uxn.log,
        vec![
            auxn::system::Diagnostic::SpriteReadOutOfBounds(7),
            auxn::system::Diagnostic::UnmappedDevicePort(0x44)
        ]
    );
}

#[test]
fn halt_port_ends_the_evaluation_after_its_instruction() {
    // LIT 01 LIT 0f DEO LIT 09: the last LIT is not reached
    let mut uxn = machine(&[LIT, 0x01, LIT, 0x0f, 0x17, LIT, 0x09]);
    assert_eq!(uxn.step(0x100), Ok(0x102));
    assert_eq!(uxn.step(0x102), Ok(0x104));
    assert!(!uxn.halted);
    assert_eq!(uxn.step(0x104), Ok(0x105));
    assert!(uxn.halted);
}
