use vstd::prelude::*;
use vstd::std_specs::convert::TryFromSpecImpl;

verus! {

/// The 32 base operations, in the order of their 5-bit codes.
#[allow(clippy::upper_case_acronyms)]
#[derive(Clone, Copy, Debug, PartialEq, Eq, Structural)]
pub enum Opcode {
    // Stack
    LIT,
    INC,
    POP,
    NIP,
    SWP,
    ROT,
    DUP,
    OVR,
    // Logic
    EQU,
    NEQ,
    GTH,
    LTH,
    JMP,
    JCN,
    JSR,
    STH,
    // Memory
    LDZ,
    STZ,
    LDR,
    STR,
    LDA,
    STA,
    DEI,
    DEO,
    // Arithmetic
    ADD,
    SUB,
    MUL,
    DIV,
    AND,
    ORA,
    EOR,
    SFT,
}

impl Opcode {
    /// The 5-bit code of an operation.
    pub open spec fn code(self) -> u8 {
        match self {
            Opcode::LIT => 0x00,
            Opcode::INC => 0x01,
            Opcode::POP => 0x02,
            Opcode::NIP => 0x03,
            Opcode::SWP => 0x04,
            Opcode::ROT => 0x05,
            Opcode::DUP => 0x06,
            Opcode::OVR => 0x07,
            Opcode::EQU => 0x08,
            Opcode::NEQ => 0x09,
            Opcode::GTH => 0x0a,
            Opcode::LTH => 0x0b,
            Opcode::JMP => 0x0c,
            Opcode::JCN => 0x0d,
            Opcode::JSR => 0x0e,
            Opcode::STH => 0x0f,
            Opcode::LDZ => 0x10,
            Opcode::STZ => 0x11,
            Opcode::LDR => 0x12,
            Opcode::STR => 0x13,
            Opcode::LDA => 0x14,
            Opcode::STA => 0x15,
            Opcode::DEI => 0x16,
            Opcode::DEO => 0x17,
            Opcode::ADD => 0x18,
            Opcode::SUB => 0x19,
            Opcode::MUL => 0x1a,
            Opcode::DIV => 0x1b,
            Opcode::AND => 0x1c,
            Opcode::ORA => 0x1d,
            Opcode::EOR => 0x1e,
            Opcode::SFT => 0x1f,
        }
    }

    /// The operation with a given code, if the code is below 32.
    pub open spec fn decode(val: u8) -> Result<Opcode, ()> {
        match val {
            0x00 => Ok(Opcode::LIT),
            0x01 => Ok(Opcode::INC),
            0x02 => Ok(Opcode::POP),
            0x03 => Ok(Opcode::NIP),
            0x04 => Ok(Opcode::SWP),
            0x05 => Ok(Opcode::ROT),
            0x06 => Ok(Opcode::DUP),
            0x07 => Ok(Opcode::OVR),
            0x08 => Ok(Opcode::EQU),
            0x09 => Ok(Opcode::NEQ),
            0x0a => Ok(Opcode::GTH),
            0x0b => Ok(Opcode::LTH),
            0x0c => Ok(Opcode::JMP),
            0x0d => Ok(Opcode::JCN),
            0x0e => Ok(Opcode::JSR),
            0x0f => Ok(Opcode::STH),
            0x10 => Ok(Opcode::LDZ),
            0x11 => Ok(Opcode::STZ),
            0x12 => Ok(Opcode::LDR),
            0x13 => Ok(Opcode::STR),
            0x14 => Ok(Opcode::LDA),
            0x15 => Ok(Opcode::STA),
            0x16 => Ok(Opcode::DEI),
            0x17 => Ok(Opcode::DEO),
            0x18 => Ok(Opcode::ADD),
            0x19 => Ok(Opcode::SUB),
            0x1a => Ok(Opcode::MUL),
            0x1b => Ok(Opcode::DIV),
            0x1c => Ok(Opcode::AND),
            0x1d => Ok(Opcode::ORA),
            0x1e => Ok(Opcode::EOR),
            0x1f => Ok(Opcode::SFT),
            _ => Err(()),
        }
    }

    /// Decoding succeeds exactly on the codes below 32, and gives the
    /// operation that carries the code.
    pub proof fn lemma_decode(val: u8)
        ensures
            val < 32 <==> Opcode::decode(val) is Ok,
            Opcode::decode(val) matches Ok(op) ==> op.code() == val,
    {
    }

    /// Every operation is found again from its code.
    pub proof fn lemma_code_decode(op: Opcode)
        ensures
            op.code() < 32,
            Opcode::decode(op.code()) == Ok::<Opcode, ()>(op),
    {
    }
}

impl TryFrom<u8> for Opcode {
    type Error = ();

    fn try_from(val: u8) -> (r: Result<Opcode, ()>) {
        match val {
            // Stack
            0x00 => Ok(Opcode::LIT),
            0x01 => Ok(Opcode::INC),
            0x02 => Ok(Opcode::POP),
            0x03 => Ok(Opcode::NIP),
            0x04 => Ok(Opcode::SWP),
            0x05 => Ok(Opcode::ROT),
            0x06 => Ok(Opcode::DUP),
            0x07 => Ok(Opcode::OVR),
            // Logic
            0x08 => Ok(Opcode::EQU),
            0x09 => Ok(Opcode::NEQ),
            0x0a => Ok(Opcode::GTH),
            0x0b => Ok(Opcode::LTH),
            0x0c => Ok(Opcode::JMP),
            0x0d => Ok(Opcode::JCN),
            0x0e => Ok(Opcode::JSR),
            0x0f => Ok(Opcode::STH),
            // Memory
            0x10 => Ok(Opcode::LDZ),
            0x11 => Ok(Opcode::STZ),
            0x12 => Ok(Opcode::LDR),
            0x13 => Ok(Opcode::STR),
            0x14 => Ok(Opcode::LDA),
            0x15 => Ok(Opcode::STA),
            0x16 => Ok(Opcode::DEI),
            0x17 => Ok(Opcode::DEO),
            // Arithmetic
            0x18 => Ok(Opcode::ADD),
            0x19 => Ok(Opcode::SUB),
            0x1a => Ok(Opcode::MUL),
            0x1b => Ok(Opcode::DIV),
            0x1c => Ok(Opcode::AND),
            0x1d => Ok(Opcode::ORA),
            0x1e => Ok(Opcode::EOR),
            0x1f => Ok(Opcode::SFT),
            _ => Err(()),
        }
    }
}

impl TryFromSpecImpl<u8> for Opcode {
    open spec fn obeys_try_from_spec() -> bool {
        true
    }

    open spec fn try_from_spec(val: u8) -> Result<Opcode, ()> {
        Opcode::decode(val)
    }
}

} // verus!
