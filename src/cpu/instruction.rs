use vstd::prelude::*;

use crate::cpu::registers::{Condition, Register16, Register8, Registers};
use crate::{word_at, Bus8080};

verus! {

/// What an instruction does.
#[allow(inconsistent_fields)]
#[derive(Clone, Copy, Debug, PartialEq, Eq, Structural)]
pub enum InstructionAction {
    /// No operation was recognised.
    Unknown,
    Nothing,
    Jump { condition: Condition },
    Call { condition: Condition },
    Return { condition: Condition },
    Increment16 { register: Register16 },
    Decrement16 { register: Register16 },
    Add16 { register: Register16 },
    Load16 { register: Register16 },
    Push16 { register: Register16 },
    Pop16 { register: Register16 },
    AndReg { register: Register8 },
    OrReg { register: Register8 },
    MovReg { register: Register8 },
    XorReg { register: Register8 },
    IncrementReg { register: Register8 },
    DecrementReg { register: Register8 },
    AddReg { register: Register8, carry: bool },
    SubReg { register: Register8, borrow: bool },
    DAAReg { register: Register8 },
    RotateReg { register: Register8, right: bool, arithmetic: bool },
    CompareReg { register: Register8 },
    ComplementReg { register: Register8 },
    StoreRegToMemory { register: Register8 },
    LoadRegFromMemory { register: Register8 },
    StoreReg16ToMemory { register: Register16 },
    LoadReg16FromMemory { register: Register16 },
    SetInterrupts { enabled: bool },
    SetCarry { value: bool },
    ComplementCarry,
    ExchangeToStack,
    Exchange,
    Halt,
    In8,
    Out8,
}

/// Where an instruction's operand lives.
#[allow(inconsistent_fields)]
#[derive(Clone, Copy, Debug, PartialEq, Eq, Structural)]
pub enum InstructionTarget {
    /// The instruction names no operand beyond its action.
    Implied,
    Register8 { register: Register8 },
    Register16 { register: Register16 },
    Immediate8 { value: u8 },
    Immediate16 { value: u16 },
}

impl InstructionTarget {
    /// The sixteen-bit operand: the immediate word or the register pair.
    pub open spec fn value16(self, registers: Registers) -> u16 {
        match self {
            InstructionTarget::Immediate16 { value } => value,
            InstructionTarget::Register16 { register } => registers.pair(register),
            _ => 0,
        }
    }

    /// The eight-bit operand: the immediate byte or the register (M through `memory`).
    pub open spec fn value8(self, registers: Registers, memory: Map<u16, u8>) -> u8 {
        match self {
            InstructionTarget::Immediate8 { value } => value,
            InstructionTarget::Register8 { register } => registers.reg(memory, register),
            _ => 0,
        }
    }

    pub open spec fn is_word(self) -> bool {
        self is Immediate16 || self is Register16
    }

    pub open spec fn is_byte(self) -> bool {
        self is Immediate8 || self is Register8
    }

    pub fn get_value_as_u16(&self, registers: &Registers) -> (r: u16)
        requires
            self.is_word(),
        ensures
            r == self.value16(*registers),
    {
        match self {
            InstructionTarget::Immediate16 { value } => *value,
            InstructionTarget::Register16 { register } => registers.get_16(register),
            _ => 0,
        }
    }

    pub fn get_value_as_u8<B: Bus8080>(&self, bus: &B, registers: &Registers) -> (r: u8)
        requires
            self.is_byte(),
        ensures
            r == self.value8(*registers, bus.memory()),
    {
        match self {
            InstructionTarget::Immediate8 { value } => *value,
            InstructionTarget::Register8 { register } => registers.get_8(bus, register),
            _ => 0,
        }
    }
}

/// A decoded instruction: the opcode byte, its length in bytes, what it
/// does and where its operand lives.
#[derive(Clone, Copy, Debug, PartialEq, Eq, Structural)]
pub struct Instruction8080 {
    pub length: u8,
    pub opcode: u8,
    pub action: InstructionAction,
    pub target: InstructionTarget,
}

/// The eight-bit register encoded by a three-bit field.
pub open spec fn reg8_code(i: u8) -> Register8 {
    match i {
        0 => Register8::B,
        1 => Register8::C,
        2 => Register8::D,
        3 => Register8::E,
        4 => Register8::H,
        5 => Register8::L,
        6 => Register8::M,
        _ => Register8::A,
    }
}

/// The register pair encoded by a two-bit field, with SP as the fourth.
pub open spec fn pair_code(p: u8) -> Register16 {
    match p {
        0 => Register16::BC,
        1 => Register16::DE,
        2 => Register16::HL,
        _ => Register16::SP,
    }
}

/// The register pair of PUSH and POP, with the status word as the fourth.
pub open spec fn stack_pair_code(p: u8) -> Register16 {
    match p {
        0 => Register16::BC,
        1 => Register16::DE,
        2 => Register16::HL,
        _ => Register16::DSW,
    }
}

/// The branch condition encoded by a three-bit field.
pub open spec fn cond_code(y: u8) -> Condition {
    match y {
        0 => Condition::NotZero,
        1 => Condition::Zero,
        2 => Condition::NotCarry,
        3 => Condition::Carry,
        4 => Condition::PairtyOdd,
        5 => Condition::ParityEven,
        6 => Condition::Plus,
        _ => Condition::Minus,
    }
}

/// The accumulator operation encoded by a three-bit field.
pub open spec fn alu_code(y: u8) -> InstructionAction {
    match y {
        0 => InstructionAction::AddReg { register: Register8::A, carry: false },
        1 => InstructionAction::AddReg { register: Register8::A, carry: true },
        2 => InstructionAction::SubReg { register: Register8::A, borrow: false },
        3 => InstructionAction::SubReg { register: Register8::A, borrow: true },
        4 => InstructionAction::AndReg { register: Register8::A },
        5 => InstructionAction::XorReg { register: Register8::A },
        6 => InstructionAction::OrReg { register: Register8::A },
        _ => InstructionAction::CompareReg { register: Register8::A },
    }
}

/// The length in bytes of each opcode, as the 8080 tables give it.
pub open spec fn opcode_length(op: u8) -> u8 {
    if op == 0x01 || op == 0x11 || op == 0x21 || op == 0x31 || op == 0x22 || op == 0x2A || op
        == 0x32 || op == 0x3A || op == 0xC2 || op == 0xCA || op == 0xD2 || op == 0xDA || op
        == 0xE2 || op == 0xEA || op == 0xF2 || op == 0xFA || op == 0xC3 || op == 0xCB || op
        == 0xC4 || op == 0xCC || op == 0xD4 || op == 0xDC || op == 0xE4 || op == 0xEC || op
        == 0xF4 || op == 0xFC || op == 0xCD || op == 0xDD || op == 0xED || op == 0xFD {
        3
    } else if op == 0x06 || op == 0x0E || op == 0x16 || op == 0x1E || op == 0x26 || op == 0x2E
        || op == 0x36 || op == 0x3E || op == 0xC6 || op == 0xCE || op == 0xD6 || op == 0xDE
        || op == 0xE6 || op == 0xEE || op == 0xF6 || op == 0xFE || op == 0xD3 || op == 0xDB {
        2
    } else {
        1
    }
}

/// The action of each opcode, read from its fields `xx yyy zzz`.
/// Undocumented opcodes act as their documented twins: 0x08..0x38 as NOP,
/// 0xCB as JMP, 0xD9 as RET, 0xDD, 0xED and 0xFD as CALL.
pub open spec fn action_of(op: u8) -> InstructionAction {
    let x = op / 64;
    let y = (op / 8) % 8;
    let z = op % 8;
    let p = y / 2;
    let q = y % 2;
    if x == 0 {
        if z == 0 {
            InstructionAction::Nothing
        } else if z == 1 {
            if q == 0 {
                InstructionAction::Load16 { register: pair_code(p) }
            } else {
                InstructionAction::Add16 { register: Register16::HL }
            }
        } else if z == 2 {
            if p == 2 {
                if q == 0 {
                    InstructionAction::StoreReg16ToMemory { register: Register16::HL }
                } else {
                    InstructionAction::LoadReg16FromMemory { register: Register16::HL }
                }
            } else if q == 0 {
                InstructionAction::StoreRegToMemory { register: Register8::A }
            } else {
                InstructionAction::LoadRegFromMemory { register: Register8::A }
            }
        } else if z == 3 {
            if q == 0 {
                InstructionAction::Increment16 { register: pair_code(p) }
            } else {
                InstructionAction::Decrement16 { register: pair_code(p) }
            }
        } else if z == 4 {
            InstructionAction::IncrementReg { register: reg8_code(y) }
        } else if z == 5 {
            InstructionAction::DecrementReg { register: reg8_code(y) }
        } else if z == 6 {
            InstructionAction::MovReg { register: reg8_code(y) }
        } else {
            match y {
                0 => InstructionAction::RotateReg {
                    register: Register8::A,
                    right: false,
                    arithmetic: false,
                },
                1 => InstructionAction::RotateReg {
                    register: Register8::A,
                    right: true,
                    arithmetic: false,
                },
                2 => InstructionAction::RotateReg {
                    register: Register8::A,
                    right: false,
                    arithmetic: true,
                },
                3 => InstructionAction::RotateReg {
                    register: Register8::A,
                    right: true,
                    arithmetic: true,
                },
                4 => InstructionAction::DAAReg { register: Register8::A },
                5 => InstructionAction::ComplementReg { register: Register8::A },
                6 => InstructionAction::SetCarry { value: true },
                _ => InstructionAction::ComplementCarry,
            }
        }
    } else if x == 1 {
        if op == 0x76 {
            InstructionAction::Halt
        } else {
            InstructionAction::MovReg { register: reg8_code(y) }
        }
    } else if x == 2 {
        alu_code(y)
    } else {
        if z == 0 {
            InstructionAction::Return { condition: cond_code(y) }
        } else if z == 1 {
            if q == 0 {
                InstructionAction::Pop16 { register: stack_pair_code(p) }
            } else if p <= 1 {
                InstructionAction::Return { condition: Condition::Always }
            } else if p == 2 {
                InstructionAction::Jump { condition: Condition::Always }
            } else {
                InstructionAction::Load16 { register: Register16::SP }
            }
        } else if z == 2 {
            InstructionAction::Jump { condition: cond_code(y) }
        } else if z == 3 {
            match y {
                0 => InstructionAction::Jump { condition: Condition::Always },
                1 => InstructionAction::Jump { condition: Condition::Always },
                2 => InstructionAction::Out8,
                3 => InstructionAction::In8,
                4 => InstructionAction::ExchangeToStack,
                5 => InstructionAction::Exchange,
                6 => InstructionAction::SetInterrupts { enabled: false },
                _ => InstructionAction::SetInterrupts { enabled: true },
            }
        } else if z == 4 {
            InstructionAction::Call { condition: cond_code(y) }
        } else if z == 5 {
            if q == 0 {
                InstructionAction::Push16 { register: stack_pair_code(p) }
            } else {
                InstructionAction::Call { condition: Condition::Always }
            }
        } else if z == 6 {
            alu_code(y)
        } else {
            InstructionAction::Call { condition: Condition::Always }
        }
    }
}

/// The operand of each opcode; `operand` is the little-endian word of the
/// two bytes after the opcode, of which a two-byte instruction uses the first.
pub open spec fn target_of(op: u8, operand: u16) -> InstructionTarget {
    let x = op / 64;
    let y = (op / 8) % 8;
    let z = op % 8;
    let p = y / 2;
    let q = y % 2;
    let imm8 = InstructionTarget::Immediate8 { value: (operand % 256) as u8 };
    let imm16 = InstructionTarget::Immediate16 { value: operand };
    if x == 0 {
        if z == 1 {
            if q == 0 {
                imm16
            } else {
                InstructionTarget::Register16 { register: pair_code(p) }
            }
        } else if z == 2 {
            if p <= 1 {
                InstructionTarget::Register16 { register: pair_code(p) }
            } else {
                imm16
            }
        } else if z == 6 {
            imm8
        } else {
            InstructionTarget::Implied
        }
    } else if x == 1 {
        if op == 0x76 {
            InstructionTarget::Implied
        } else {
            InstructionTarget::Register8 { register: reg8_code(z) }
        }
    } else if x == 2 {
        InstructionTarget::Register8 { register: reg8_code(z) }
    } else {
        if z == 1 {
            if q == 1 && p >= 2 {
                InstructionTarget::Register16 { register: Register16::HL }
            } else {
                InstructionTarget::Implied
            }
        } else if z == 2 || z == 4 {
            imm16
        } else if z == 3 {
            if y <= 1 {
                imm16
            } else if y <= 3 {
                imm8
            } else {
                InstructionTarget::Implied
            }
        } else if z == 5 {
            if q == 1 {
                imm16
            } else {
                InstructionTarget::Implied
            }
        } else if z == 6 {
            imm8
        } else if z == 7 {
            InstructionTarget::Immediate16 { value: (8 * y) as u16 }
        } else {
            InstructionTarget::Implied
        }
    }
}

/// The instruction that opcode `op` followed by the word `operand` encodes.
pub open spec fn decode_spec(op: u8, operand: u16) -> Instruction8080 {
    Instruction8080 {
        length: opcode_length(op),
        opcode: op,
        action: action_of(op),
        target: target_of(op, operand),
    }
}

/// The instruction at `pc` in `memory`.
pub open spec fn fetch_spec(memory: Map<u16, u8>, pc: u16) -> Instruction8080 {
    decode_spec(memory[pc], word_at(memory, pc.wrapping_add(1)))
}

fn register8_at(i: u8) -> (r: Register8)
    requires
        i < 8,
    ensures
        r == reg8_code(i),
{
    match i {
        0 => Register8::B,
        1 => Register8::C,
        2 => Register8::D,
        3 => Register8::E,
        4 => Register8::H,
        5 => Register8::L,
        6 => Register8::M,
        _ => Register8::A,
    }
}

fn register16_at(i: u8) -> (r: Register16)
    requires
        i < 4,
    ensures
        r == pair_code(i),
{
    match i {
        0 => Register16::BC,
        1 => Register16::DE,
        2 => Register16::HL,
        _ => Register16::SP,
    }
}

fn stack_register16_at(i: u8) -> (r: Register16)
    requires
        i < 4,
    ensures
        r == stack_pair_code(i),
{
    match i {
        0 => Register16::BC,
        1 => Register16::DE,
        2 => Register16::HL,
        _ => Register16::DSW,
    }
}

fn condition_at(i: u8) -> (r: Condition)
    requires
        i < 8,
    ensures
        r == cond_code(i),
{
    match i {
        0 => Condition::NotZero,
        1 => Condition::Zero,
        2 => Condition::NotCarry,
        3 => Condition::Carry,
        4 => Condition::PairtyOdd,
        5 => Condition::ParityEven,
        6 => Condition::Plus,
        _ => Condition::Minus,
    }
}

proof fn lemma_nibbles(op: u8)
    ensures
        op >> 4u8 == op / 16,
        op & 0xF == op % 16,
{
    assert(op >> 4u8 == op / 16) by (bit_vector);
    assert(op & 0xF == op % 16) by (bit_vector);
}

proof fn lemma_word_low_byte(m: Map<u16, u8>, a: u16)
    ensures
        word_at(m, a) % 256 == m[a],
{
    let lo = m[a] as int;
    let hi = m[a.wrapping_add(1)] as int;
    assert(0 <= lo + 256 * hi < 65536);
    assert((lo + 256 * hi) % 256 == lo) by (nonlinear_arith)
        requires
            0 <= lo < 256,
            0 <= hi < 256,
    ;
}

impl Instruction8080 {
    pub fn new(opcode: u8) -> (r: Self)
        ensures
            r == (Instruction8080 {
                length: 1,
                opcode,
                action: InstructionAction::Unknown,
                target: InstructionTarget::Implied,
            }),
    {
        Self { length: 1, opcode, action: InstructionAction::Unknown, target: InstructionTarget::Implied }
    }

    /// Decodes the instruction at `pc`.
    pub fn from_opcode<B: Bus8080>(pc: u16, bus: &B) -> (r: Self)
        ensures
            r == fetch_spec(bus.memory(), pc),
            r.opcode == bus.memory()[pc],
            r.length == opcode_length(r.opcode),
            1 <= r.length <= 3,
            !(r.action is Unknown),
    {
        let opcode = bus.read_b(pc);
        Self::decode(opcode, pc, bus)
    }
    /// Decodes `opcode` as if it stood at `pc`: its immediate bytes, if any,
    /// are read from `pc + 1` on. The opcode space is walked by nibbles,
    /// row by row of the 16 x 16 chart.
    pub fn decode<B: Bus8080>(opcode: u8, pc: u16, bus: &B) -> (r: Self)
        ensures
            r == decode_spec(opcode, word_at(bus.memory(), pc.wrapping_add(1))),
            r.length == opcode_length(opcode),
            1 <= r.length <= 3,
            !(r.action is Unknown),
    {
        proof {
            lemma_nibbles(opcode);
            lemma_word_low_byte(bus.memory(), pc.wrapping_add(1));
        }
        let high = opcode >> 4u8;
        let low = opcode & 0xF;
        let next = pc.wrapping_add(1);
        let mut result = Instruction8080::new(opcode);
        match (high, low) {
            // NOP, and its undocumented twins 0x08..0x38
            (0x0..=0x3, 0x0) | (0x0..=0x3, 0x8) => {
                result.action = InstructionAction::Nothing;
            },
            // LXI
            (0x0..=0x3, 0x1) => {
                result.length = 3;
                result.action = InstructionAction::Load16 { register: register16_at(high) };
                result.target = InstructionTarget::Immediate16 { value: bus.read_w(next) };
            },
            // STAX
            (0x0..=0x1, 0x2) => {
                result.action = InstructionAction::StoreRegToMemory { register: Register8::A };
                result.target = InstructionTarget::Register16 { register: register16_at(high) };
            },
            // SHLD
            (0x2, 0x2) => {
                result.length = 3;
                result.action = InstructionAction::StoreReg16ToMemory { register: Register16::HL };
                result.target = InstructionTarget::Immediate16 { value: bus.read_w(next) };
            },
            // STA
            (0x3, 0x2) => {
                result.length = 3;
                result.action = InstructionAction::StoreRegToMemory { register: Register8::A };
                result.target = InstructionTarget::Immediate16 { value: bus.read_w(next) };
            },
            // INX
            (0x0..=0x3, 0x3) => {
                result.action = InstructionAction::Increment16 { register: register16_at(high) };
            },
            // INR B, D, H, M
            (0x0..=0x3, 0x4) => {
                result.action = InstructionAction::IncrementReg { register: register8_at(2 * high) };
            },
            // DCR B, D, H, M
            (0x0..=0x3, 0x5) => {
                result.action = InstructionAction::DecrementReg { register: register8_at(2 * high) };
            },
            // MVI B, D, H, M
            (0x0..=0x3, 0x6) => {
                result.length = 2;
                result.action = InstructionAction::MovReg { register: register8_at(2 * high) };
                result.target = InstructionTarget::Immediate8 { value: bus.read_b(next) };
            },
            // RLC / RAL
            (0x0..=0x1, 0x7) => {
                result.action = InstructionAction::RotateReg {
                    register: Register8::A,
                    right: false,
                    arithmetic: high != 0,
                };
            },
            // DAA
            (0x2, 0x7) => {
                result.action = InstructionAction::DAAReg { register: Register8::A };
            },
            // STC
            (0x3, 0x7) => {
                result.action = InstructionAction::SetCarry { value: true };
            },
            // DAD
            (0x0..=0x3, 0x9) => {
                result.action = InstructionAction::Add16 { register: Register16::HL };
                result.target = InstructionTarget::Register16 { register: register16_at(high) };
            },
            // LDAX
            (0x0..=0x1, 0xA) => {
                result.action = InstructionAction::LoadRegFromMemory { register: Register8::A };
                result.target = InstructionTarget::Register16 { register: register16_at(high) };
            },
            // LHLD
            (0x2, 0xA) => {
                result.length = 3;
                result.action = InstructionAction::LoadReg16FromMemory { register: Register16::HL };
                result.target = InstructionTarget::Immediate16 { value: bus.read_w(next) };
            },
            // LDA
            (0x3, 0xA) => {
                result.length = 3;
                result.action = InstructionAction::LoadRegFromMemory { register: Register8::A };
                result.target = InstructionTarget::Immediate16 { value: bus.read_w(next) };
            },
            // DCX
            (0x0..=0x3, 0xB) => {
                result.action = InstructionAction::Decrement16 { register: register16_at(high) };
            },
            // INR C, E, L, A
            (0x0..=0x3, 0xC) => {
                result.action = InstructionAction::IncrementReg { register: register8_at(2 * high + 1) };
            },
            // DCR C, E, L, A
            (0x0..=0x3, 0xD) => {
                result.action = InstructionAction::DecrementReg { register: register8_at(2 * high + 1) };
            },
            // MVI C, E, L, A
            (0x0..=0x3, 0xE) => {
                result.length = 2;
                result.action = InstructionAction::MovReg { register: register8_at(2 * high + 1) };
                result.target = InstructionTarget::Immediate8 { value: bus.read_b(next) };
            },
            // RRC / RAR
            (0x0..=0x1, 0xF) => {
                result.action = InstructionAction::RotateReg {
                    register: Register8::A,
                    right: true,
                    arithmetic: high != 0,
                };
            },
            // CMA
            (0x2, 0xF) => {
                result.action = InstructionAction::ComplementReg { register: Register8::A };
            },
            // CMC
            (0x3, 0xF) => {
                result.action = InstructionAction::ComplementCarry;
            },
            // HLT sits where MOV M,M would
            (0x7, 0x6) => {
                result.action = InstructionAction::Halt;
            },
            // MOV B, D, H, M from a register
            (0x4..=0x7, 0x0..=0x7) => {
                result.action = InstructionAction::MovReg { register: register8_at(2 * (high - 4)) };
                result.target = InstructionTarget::Register8 { register: register8_at(low) };
            },
            // MOV C, E, L, A from a register
            (0x4..=0x7, 0x8..=0xF) => {
                result.action = InstructionAction::MovReg { register: register8_at(2 * (high - 4) + 1) };
                result.target = InstructionTarget::Register8 { register: register8_at(low - 8) };
            },
            // ADD / ADC
            (0x8, _) => {
                result.action = InstructionAction::AddReg { register: Register8::A, carry: low >= 8 };
                result.target = InstructionTarget::Register8 { register: register8_at(low % 8) };
            },
            // SUB / SBB
            (0x9, _) => {
                result.action = InstructionAction::SubReg { register: Register8::A, borrow: low >= 8 };
                result.target = InstructionTarget::Register8 { register: register8_at(low % 8) };
            },
            // ANA
            (0xA, 0x0..=0x7) => {
                result.action = InstructionAction::AndReg { register: Register8::A };
                result.target = InstructionTarget::Register8 { register: register8_at(low) };
            },
            // XRA
            (0xA, _) => {
                result.action = InstructionAction::XorReg { register: Register8::A };
                result.target = InstructionTarget::Register8 { register: register8_at(low - 8) };
            },
            // ORA
            (0xB, 0x0..=0x7) => {
                result.action = InstructionAction::OrReg { register: Register8::A };
                result.target = InstructionTarget::Register8 { register: register8_at(low) };
            },
            // CMP
            (0xB, _) => {
                result.action = InstructionAction::CompareReg { register: Register8::A };
                result.target = InstructionTarget::Register8 { register: register8_at(low - 8) };
            },
            // RNZ, RNC, RPO, RP
            (0xC..=0xF, 0x0) => {
                result.action = InstructionAction::Return { condition: condition_at(2 * (high - 0xC)) };
            },
            // POP
            (0xC..=0xF, 0x1) => {
                result.action = InstructionAction::Pop16 { register: stack_register16_at(high - 0xC) };
            },
            // JNZ, JNC, JPO, JP
            (0xC..=0xF, 0x2) => {
                result.length = 3;
                result.action = InstructionAction::Jump { condition: condition_at(2 * (high - 0xC)) };
                result.target = InstructionTarget::Immediate16 { value: bus.read_w(next) };
            },
            // JMP, and its undocumented twin 0xCB
            (0xC, 0x3) | (0xC, 0xB) => {
                result.length = 3;
                result.action = InstructionAction::Jump { condition: Condition::Always };
                result.target = InstructionTarget::Immediate16 { value: bus.read_w(next) };
            },
            // OUT
            (0xD, 0x3) => {
                result.length = 2;
                result.action = InstructionAction::Out8;
                result.target = InstructionTarget::Immediate8 { value: bus.read_b(next) };
            },
            // XTHL
            (0xE, 0x3) => {
                result.action = InstructionAction::ExchangeToStack;
            },
            // DI
            (0xF, 0x3) => {
                result.action = InstructionAction::SetInterrupts { enabled: false };
            },
            // CNZ, CNC, CPO, CP
            (0xC..=0xF, 0x4) => {
                result.length = 3;
                result.action = InstructionAction::Call { condition: condition_at(2 * (high - 0xC)) };
                result.target = InstructionTarget::Immediate16 { value: bus.read_w(next) };
            },
            // PUSH
            (0xC..=0xF, 0x5) => {
                result.action = InstructionAction::Push16 { register: stack_register16_at(high - 0xC) };
            },
            // ADI
            (0xC, 0x6) => {
                result.length = 2;
                result.action = InstructionAction::AddReg { register: Register8::A, carry: false };
                result.target = InstructionTarget::Immediate8 { value: bus.read_b(next) };
            },
            // SUI
            (0xD, 0x6) => {
                result.length = 2;
                result.action = InstructionAction::SubReg { register: Register8::A, borrow: false };
                result.target = InstructionTarget::Immediate8 { value: bus.read_b(next) };
            },
            // ANI
            (0xE, 0x6) => {
                result.length = 2;
                result.action = InstructionAction::AndReg { register: Register8::A };
                result.target = InstructionTarget::Immediate8 { value: bus.read_b(next) };
            },
            // ORI
            (0xF, 0x6) => {
                result.length = 2;
                result.action = InstructionAction::OrReg { register: Register8::A };
                result.target = InstructionTarget::Immediate8 { value: bus.read_b(next) };
            },
            // RST 0, 2, 4, 6
            (0xC..=0xF, 0x7) => {
                result.action = InstructionAction::Call { condition: Condition::Always };
                result.target = InstructionTarget::Immediate16 { value: 16 * ((high - 0xC) as u16) };
            },
            // RZ, RC, RPE, RM
            (0xC..=0xF, 0x8) => {
                result.action = InstructionAction::Return { condition: condition_at(2 * (high - 0xC) + 1) };
            },
            // RET, and its undocumented twin 0xD9
            (0xC..=0xD, 0x9) => {
                result.action = InstructionAction::Return { condition: Condition::Always };
            },
            // PCHL
            (0xE, 0x9) => {
                result.action = InstructionAction::Jump { condition: Condition::Always };
                result.target = InstructionTarget::Register16 { register: Register16::HL };
            },
            // SPHL
            (0xF, 0x9) => {
                result.action = InstructionAction::Load16 { register: Register16::SP };
                result.target = InstructionTarget::Register16 { register: Register16::HL };
            },
            // JZ, JC, JPE, JM
            (0xC..=0xF, 0xA) => {
                result.length = 3;
                result.action = InstructionAction::Jump { condition: condition_at(2 * (high - 0xC) + 1) };
                result.target = InstructionTarget::Immediate16 { value: bus.read_w(next) };
            },
            // IN
            (0xD, 0xB) => {
                result.length = 2;
                result.action = InstructionAction::In8;
                result.target = InstructionTarget::Immediate8 { value: bus.read_b(next) };
            },
            // XCHG
            (0xE, 0xB) => {
                result.action = InstructionAction::Exchange;
            },
            // EI
            (0xF, 0xB) => {
                result.action = InstructionAction::SetInterrupts { enabled: true };
            },
            // CZ, CC, CPE, CM
            (0xC..=0xF, 0xC) => {
                result.length = 3;
                result.action = InstructionAction::Call { condition: condition_at(2 * (high - 0xC) + 1) };
                result.target = InstructionTarget::Immediate16 { value: bus.read_w(next) };
            },
            // CALL, and its undocumented twins 0xDD, 0xED, 0xFD
            (0xC..=0xF, 0xD) => {
                result.length = 3;
                result.action = InstructionAction::Call { condition: Condition::Always };
                result.target = InstructionTarget::Immediate16 { value: bus.read_w(next) };
            },
            // ACI
            (0xC, 0xE) => {
                result.length = 2;
                result.action = InstructionAction::AddReg { register: Register8::A, carry: true };
                result.target = InstructionTarget::Immediate8 { value: bus.read_b(next) };
            },
            // SBI
            (0xD, 0xE) => {
                result.length = 2;
                result.action = InstructionAction::SubReg { register: Register8::A, borrow: true };
                result.target = InstructionTarget::Immediate8 { value: bus.read_b(next) };
            },
            // XRI
            (0xE, 0xE) => {
                result.length = 2;
                result.action = InstructionAction::XorReg { register: Register8::A };
                result.target = InstructionTarget::Immediate8 { value: bus.read_b(next) };
            },
            // CPI
            (0xF, 0xE) => {
                result.length = 2;
                result.action = InstructionAction::CompareReg { register: Register8::A };
                result.target = InstructionTarget::Immediate8 { value: bus.read_b(next) };
            },
            // RST 1, 3, 5, 7
            _ => {
                result.action = InstructionAction::Call { condition: Condition::Always };
                result.target = InstructionTarget::Immediate16 { value: 16 * ((high - 0xC) as u16) + 8 };
            },
        }
        result
    }
}

} // verus!
