use vstd::prelude::*;

use crate::cpu::alu::{
    add16_spec, add8_spec, and8_spec, daa_spec, dec8_spec, inc8_spec, rotate_spec, sub8_spec,
};
use crate::cpu::instruction::{
    decode_spec, fetch_spec, Instruction8080, InstructionAction, InstructionTarget,
};
use crate::cpu::registers::{
    flag_of, join, stacked_flags, with_flag, zsp_flags, Condition, Register16, Register8,
    RegisterFlags, Registers,
};
use crate::{store_word, word_at, PortAccess};

verus! {

/// The state an instruction acts on: the register file, what the bus's
/// memory holds, the interrupts waiting on the bus, the port transfers made
/// so far, and the running count of machine cycles.
pub struct Machine {
    pub registers: Registers,
    pub memory: Map<u16, u8>,
    pub interrupts: Seq<u8>,
    pub ports: Seq<PortAccess>,
    pub cycles: u64,
}

/// F after an arithmetic result `v` with carry `c` and auxiliary carry `h`.
pub open spec fn arith_flags(f: u8, v: u8, c: bool, h: bool) -> u8 {
    zsp_flags(with_flag(with_flag(f, RegisterFlags::Carry, c), RegisterFlags::HalfCarry, h), v)
}

/// The word PUSH stores for `register`.
pub open spec fn push_value(r: Registers, register: Register16) -> u16 {
    if register == Register16::DSW {
        join(r.a, stacked_flags(r.f))
    } else {
        r.pair(register)
    }
}

/// The word POP loads into `register`, from the word `w` on the stack.
pub open spec fn pop_value(w: u16, register: Register16) -> u16 {
    if register == Register16::DSW {
        join((w / 256) as u8, stacked_flags((w % 256) as u8))
    } else {
        w
    }
}

/// `m` with an eight-bit register set to `v`; M writes memory at HL.
pub open spec fn put8(m: Machine, register: Register8, v: u8) -> Machine {
    Machine {
        registers: m.registers.with_reg(register, v),
        memory: m.registers.memory_with_reg(m.memory, register, v),
        ..m
    }
}

/// `m` with F replaced by `f`.
pub open spec fn with_f(m: Machine, f: u8) -> Machine {
    Machine { registers: Registers { f, ..m.registers }, ..m }
}

/// `m` with the register file replaced by `r`.
pub open spec fn with_registers(m: Machine, r: Registers) -> Machine {
    Machine { registers: r, ..m }
}

impl Instruction8080 {
    /// Whether the operand has the shape the action reads: a byte for the
    /// eight-bit operations and ports, a word for jumps, calls, addresses
    /// and sixteen-bit loads.
    pub open spec fn wf(self) -> bool {
        match self.action {
            InstructionAction::Unknown => false,
            InstructionAction::MovReg { .. } | InstructionAction::AddReg { .. }
            | InstructionAction::SubReg { .. } | InstructionAction::AndReg { .. }
            | InstructionAction::OrReg { .. } | InstructionAction::XorReg { .. }
            | InstructionAction::CompareReg { .. } | InstructionAction::In8
            | InstructionAction::Out8 => self.target.is_byte(),
            InstructionAction::Jump { .. } | InstructionAction::Call { .. }
            | InstructionAction::StoreRegToMemory { .. } | InstructionAction::LoadRegFromMemory {
                ..
            } | InstructionAction::StoreReg16ToMemory { .. }
            | InstructionAction::LoadReg16FromMemory { .. } | InstructionAction::Load16 { .. }
            | InstructionAction::Add16 { .. } => self.target.is_word(),
            _ => true,
        }
    }

    /// Whether the instruction talks to an I/O port, whose device may do
    /// anything to the registers and the bus.
    pub open spec fn is_io(self) -> bool {
        self.action is In8 || self.action is Out8
    }
}

/// The machine cycles an instruction takes, given the flags it is executed with.
pub open spec fn cycles_spec(r: Registers, ins: Instruction8080) -> u64 {
    let t = ins.target;
    let m_operand = t == InstructionTarget::Register8 { register: Register8::M };
    match ins.action {
        InstructionAction::Unknown => 0,
        InstructionAction::Nothing => 4,
        InstructionAction::MovReg { register } => {
            if t is Immediate8 {
                if register == Register8::M {
                    10
                } else {
                    7
                }
            } else if register == Register8::M || m_operand {
                7
            } else {
                5
            }
        },
        InstructionAction::IncrementReg { register } | InstructionAction::DecrementReg {
            register,
        } => {
            if register == Register8::M {
                10
            } else {
                5
            }
        },
        InstructionAction::AddReg { .. } | InstructionAction::SubReg { .. }
        | InstructionAction::CompareReg { .. } | InstructionAction::AndReg { .. }
        | InstructionAction::OrReg { .. } | InstructionAction::XorReg { .. } => {
            if t is Immediate8 || m_operand {
                7
            } else {
                4
            }
        },
        InstructionAction::ComplementReg { .. } | InstructionAction::RotateReg { .. }
        | InstructionAction::DAAReg { .. } => 4,
        InstructionAction::StoreRegToMemory { .. } | InstructionAction::LoadRegFromMemory {
            ..
        } => {
            if t is Immediate16 {
                13
            } else {
                7
            }
        },
        InstructionAction::StoreReg16ToMemory { .. }
        | InstructionAction::LoadReg16FromMemory { .. } => 16,
        InstructionAction::Load16 { .. } => 10,
        InstructionAction::Increment16 { .. } | InstructionAction::Decrement16 { .. } => 5,
        InstructionAction::Add16 { .. } => 10,
        InstructionAction::Push16 { .. } => 11,
        InstructionAction::Pop16 { .. } => 10,
        InstructionAction::Jump { .. } => {
            if t is Register16 {
                5
            } else {
                10
            }
        },
        InstructionAction::Call { condition } => {
            if condition == Condition::Always || r.condition_holds(condition) {
                17
            } else {
                11
            }
        },
        InstructionAction::Return { condition } => {
            if condition == Condition::Always {
                10
            } else if r.condition_holds(condition) {
                11
            } else {
                5
            }
        },
        InstructionAction::Exchange => 5,
        InstructionAction::ExchangeToStack => 18,
        InstructionAction::SetCarry { .. } | InstructionAction::ComplementCarry
        | InstructionAction::SetInterrupts { .. } => 4,
        InstructionAction::Halt => 7,
        InstructionAction::In8 | InstructionAction::Out8 => 10,
    }
}

/// What an instruction does to registers and memory, the program counter
/// having already been moved past it. Port instructions are left to the
/// device and leave the machine as it is here.
pub open spec fn effect_spec(m: Machine, ins: Instruction8080) -> Machine {
    let r = m.registers;
    let mem = m.memory;
    let t = ins.target;
    match ins.action {
        InstructionAction::MovReg { register } => put8(m, register, t.value8(r, mem)),
        InstructionAction::IncrementReg { register } => {
            let (v, h) = inc8_spec(r.reg(mem, register));
            put8(with_f(m, zsp_flags(with_flag(r.f, RegisterFlags::HalfCarry, h), v)), register, v)
        },
        InstructionAction::DecrementReg { register } => {
            let (v, h) = dec8_spec(r.reg(mem, register));
            put8(with_f(m, zsp_flags(with_flag(r.f, RegisterFlags::HalfCarry, h), v)), register, v)
        },
        InstructionAction::AddReg { register, carry } => {
            let cin = carry && r.flag(RegisterFlags::Carry);
            let (v, c, h) = add8_spec(r.reg(mem, register), t.value8(r, mem), cin);
            put8(with_f(m, arith_flags(r.f, v, c, h)), register, v)
        },
        InstructionAction::SubReg { register, borrow } => {
            let bin = borrow && r.flag(RegisterFlags::Carry);
            let (v, c, h) = sub8_spec(r.reg(mem, register), t.value8(r, mem), bin);
            put8(with_f(m, arith_flags(r.f, v, c, h)), register, v)
        },
        InstructionAction::CompareReg { register } => {
            let (v, c, h) = sub8_spec(r.reg(mem, register), t.value8(r, mem), false);
            with_f(m, arith_flags(r.f, v, c, h))
        },
        InstructionAction::AndReg { register } => {
            let (v, h) = and8_spec(r.reg(mem, register), t.value8(r, mem));
            put8(with_f(m, arith_flags(r.f, v, false, h)), register, v)
        },
        InstructionAction::OrReg { register } => {
            let v = r.reg(mem, register) | t.value8(r, mem);
            put8(with_f(m, arith_flags(r.f, v, false, false)), register, v)
        },
        InstructionAction::XorReg { register } => {
            let v = r.reg(mem, register) ^ t.value8(r, mem);
            put8(with_f(m, arith_flags(r.f, v, false, false)), register, v)
        },
        InstructionAction::ComplementReg { register } => put8(m, register, !r.reg(mem, register)),
        InstructionAction::RotateReg { register, right, arithmetic } => {
            let (v, c) = rotate_spec(
                r.reg(mem, register),
                right,
                arithmetic,
                r.flag(RegisterFlags::Carry),
            );
            put8(with_f(m, with_flag(r.f, RegisterFlags::Carry, c)), register, v)
        },
        InstructionAction::DAAReg { register } => {
            let (v, c, h) = daa_spec(
                r.reg(mem, register),
                r.flag(RegisterFlags::Carry),
                r.flag(RegisterFlags::HalfCarry),
            );
            put8(with_f(m, arith_flags(r.f, v, c, h)), register, v)
        },
        InstructionAction::StoreRegToMemory { register } => Machine {
            memory: mem.insert(t.value16(r), r.reg(mem, register)),
            ..m
        },
        InstructionAction::LoadRegFromMemory { register } => put8(m, register, mem[t.value16(r)]),
        InstructionAction::StoreReg16ToMemory { register } => Machine {
            memory: store_word(mem, t.value16(r), r.pair(register)),
            ..m
        },
        InstructionAction::LoadReg16FromMemory { register } => with_registers(
            m,
            r.with_pair(register, word_at(mem, t.value16(r))),
        ),
        InstructionAction::Load16 { register } => with_registers(
            m,
            r.with_pair(register, t.value16(r)),
        ),
        InstructionAction::Increment16 { register } => with_registers(
            m,
            r.with_pair(register, r.pair(register).wrapping_add(1)),
        ),
        InstructionAction::Decrement16 { register } => with_registers(
            m,
            r.with_pair(register, r.pair(register).wrapping_sub(1)),
        ),
        InstructionAction::Add16 { register } => {
            let (v, c) = add16_spec(r.pair(register), t.value16(r));
            with_registers(
                m,
                Registers { f: with_flag(r.f, RegisterFlags::Carry, c), ..r }.with_pair(register, v),
            )
        },
        InstructionAction::Push16 { register } => {
            let sp = r.sp.wrapping_sub(2);
            Machine {
                registers: Registers { sp, ..r },
                memory: store_word(mem, sp, push_value(r, register)),
                ..m
            }
        },
        InstructionAction::Pop16 { register } => with_registers(
            m,
            Registers { sp: r.sp.wrapping_add(2), ..r }.with_pair(
                register,
                pop_value(word_at(mem, r.sp), register),
            ),
        ),
        InstructionAction::Jump { condition } => {
            if r.condition_holds(condition) {
                with_registers(m, Registers { pc: t.value16(r), ..r })
            } else {
                m
            }
        },
        InstructionAction::Call { condition } => {
            if r.condition_holds(condition) {
                let sp = r.sp.wrapping_sub(2);
                Machine {
                    registers: Registers { pc: t.value16(r), sp, ..r },
                    memory: store_word(mem, sp, r.pc),
                    ..m
                }
            } else {
                m
            }
        },
        InstructionAction::Return { condition } => {
            if r.condition_holds(condition) {
                with_registers(
                    m,
                    Registers { pc: word_at(mem, r.sp), sp: r.sp.wrapping_add(2), ..r },
                )
            } else {
                m
            }
        },
        InstructionAction::Exchange => with_registers(
            m,
            r.with_pair(Register16::DE, r.pair(Register16::HL)).with_pair(
                Register16::HL,
                r.pair(Register16::DE),
            ),
        ),
        InstructionAction::ExchangeToStack => Machine {
            registers: r.with_pair(Register16::HL, word_at(mem, r.sp)),
            memory: store_word(mem, r.sp, r.pair(Register16::HL)),
            ..m
        },
        InstructionAction::SetCarry { value } => with_f(
            m,
            with_flag(r.f, RegisterFlags::Carry, value),
        ),
        InstructionAction::ComplementCarry => with_f(
            m,
            with_flag(r.f, RegisterFlags::Carry, !flag_of(r.f, RegisterFlags::Carry)),
        ),
        InstructionAction::SetInterrupts { enabled } => with_registers(
            m,
            Registers { interrupts: enabled, ..r },
        ),
        InstructionAction::Halt => with_registers(m, Registers { halting: true, ..r }),
        _ => m,
    }
}

/// An instruction executed on `m`: its effect, and its cycles added to the count.
pub open spec fn execute_spec(m: Machine, ins: Instruction8080) -> Machine {
    Machine {
        cycles: m.cycles.wrapping_add(cycles_spec(m.registers, ins)),
        ..effect_spec(m, ins)
    }
}

/// Whether a step takes an interrupt: interrupts are enabled and one is waiting.
pub open spec fn takes_interrupt(m: Machine) -> bool {
    m.registers.interrupts && m.interrupts.len() > 0
}

/// The instruction one step executes, with the machine it starts from.
/// When the step takes an interrupt, the oldest waiting opcode is taken off
/// the bus and decoded where PC stands, PC is not moved, and the halt latch
/// is cleared. Otherwise a halted processor executes nothing, and a running
/// one executes the instruction at PC with PC moved past it.
pub open spec fn step_instruction(m: Machine) -> Option<(Machine, Instruction8080)> {
    let r = m.registers;
    if takes_interrupt(m) {
        Some(
            (
                Machine {
                    registers: Registers { halting: false, ..r },
                    interrupts: m.interrupts.drop_first(),
                    ..m
                },
                decode_spec(m.interrupts[0], word_at(m.memory, r.pc.wrapping_add(1))),
            ),
        )
    } else if r.halting {
        None
    } else {
        let ins = fetch_spec(m.memory, r.pc);
        Some((with_registers(m, Registers { pc: r.pc.wrapping_add(ins.length as u16), ..r }), ins))
    }
}

/// Whether `next` is a possible outcome of a port instruction executed on
/// `m`. One transfer is logged: OUT hands the port its operand's byte and A;
/// IN reads a byte from the port into A. The device on the port may change
/// the other registers and the memory; the waiting interrupts stay.
pub open spec fn port_outcome(m: Machine, ins: Instruction8080, next: Machine) -> bool {
    let port = ins.target.value8(m.registers, m.memory);
    &&& next.cycles == m.cycles.wrapping_add(10)
    &&& next.interrupts == m.interrupts
    &&& next.ports.len() == m.ports.len() + 1
    &&& next.ports == m.ports.push(next.ports.last())
    &&& ins.action is Out8 ==> next.ports.last() == PortAccess::Out {
        port,
        value: m.registers.a,
    }
    &&& ins.action is In8 ==> next.ports.last() == PortAccess::In {
        port,
        value: next.registers.a,
    }
}

/// Whether `next` is a possible outcome of one step from `m`: exactly one
/// for every instruction but the port instructions.
pub open spec fn step_outcome(m: Machine, next: Machine) -> bool {
    match step_instruction(m) {
        None => next == m,
        Some((start, ins)) => {
            if ins.is_io() {
                port_outcome(start, ins, next)
            } else {
                next == execute_spec(start, ins)
            }
        },
    }
}

/// Whether `ms` is a run of steps: each machine but the last is running,
/// and each next one is an outcome of a step from it.
pub open spec fn is_run(ms: Seq<Machine>) -> bool {
    &&& ms.len() >= 1
    &&& forall|i: int|
        0 <= i < ms.len() - 1 ==> #[trigger] ms[i].registers.running && step_outcome(
            ms[i],
            ms[i + 1],
        )
}

} // verus!
