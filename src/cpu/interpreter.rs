use vstd::prelude::*;

use crate::cpu::alu::{add16, add8, and8, daa, dec8, inc8, rotate, sub8};
use crate::cpu::instruction::{Instruction8080, InstructionAction, InstructionTarget};
use crate::cpu::laws::lemma_decoded_wf;
use crate::cpu::registers::{stack_word, Condition, Register16, Register8, RegisterFlags, Registers};
use crate::cpu::semantics::{
    arith_flags, cycles_spec, effect_spec, execute_spec, is_run, port_outcome, step_outcome, Machine,
};
use crate::cpu::CPU8080;
use crate::{word_at, Bus8080};

verus! {

/// An 8080 that executes one instruction at a time on the bus it owns.
pub struct Interpreter8080<B: Bus8080> {
    cycles: u64,
    registers: Registers,
    bus: B,
}

impl<B: Bus8080> Interpreter8080<B> {
    /// A processor at reset, attached to `bus`.
    pub fn new(bus: B) -> (r: Self)
        ensures
            r.machine() == (Machine {
                registers: Registers::new_spec(),
                memory: bus.memory(),
                interrupts: bus.interrupts(),
                ports: bus.port_log(),
                cycles: 0,
            }),
            r.bus() == bus,
    {
        Self { cycles: 0, registers: Registers::new(), bus }
    }

    /// The eight-bit operations: moves, arithmetic, logic, rotates and the
    /// single-byte loads and stores. Returns the cycles taken.
    fn execute_8bit(&mut self, instruction: &Instruction8080) -> (r: u64)
        requires
            instruction.wf(),
            instruction.action is MovReg || instruction.action is IncrementReg
                || instruction.action is DecrementReg || instruction.action is AddReg
                || instruction.action is SubReg || instruction.action is CompareReg
                || instruction.action is AndReg || instruction.action is OrReg
                || instruction.action is XorReg || instruction.action is ComplementReg
                || instruction.action is RotateReg || instruction.action is DAAReg
                || instruction.action is StoreRegToMemory
                || instruction.action is LoadRegFromMemory,
        ensures
            final(self).machine() == effect_spec(old(self).machine(), *instruction),
            r == cycles_spec(old(self).registers, *instruction),
    {
        let target = &instruction.target;
        let on_m = *target == (InstructionTarget::Register8 { register: Register8::M });
        let arith_cycles: u64 = if on_m || matches!(target, InstructionTarget::Immediate8 { .. }) {
            7
        } else {
            4
        };
        match instruction.action {
            InstructionAction::MovReg { register } => {
                let value = target.get_value_as_u8(&self.bus, &self.registers);
                self.registers.set_8(&register, &mut self.bus, value);
                if matches!(target, InstructionTarget::Immediate8 { .. }) {
                    if register == Register8::M {
                        10
                    } else {
                        7
                    }
                } else if register == Register8::M || on_m {
                    7
                } else {
                    5
                }
            },
            InstructionAction::IncrementReg { register } => {
                let (result, half) = inc8(self.registers.get_8(&self.bus, &register));
                self.registers.set_flag(RegisterFlags::HalfCarry, half);
                self.registers.set_zsp(result);
                self.registers.set_8(&register, &mut self.bus, result);
                if register == Register8::M {
                    10
                } else {
                    5
                }
            },
            InstructionAction::DecrementReg { register } => {
                let (result, half) = dec8(self.registers.get_8(&self.bus, &register));
                self.registers.set_flag(RegisterFlags::HalfCarry, half);
                self.registers.set_zsp(result);
                self.registers.set_8(&register, &mut self.bus, result);
                if register == Register8::M {
                    10
                } else {
                    5
                }
            },
            InstructionAction::AddReg { register, carry } => {
                let value = target.get_value_as_u8(&self.bus, &self.registers);
                let register_value = self.registers.get_8(&self.bus, &register);
                let cin = carry && self.registers.get_flag(RegisterFlags::Carry);
                let (result, c, h) = add8(register_value, value, cin);
                self.set_arith_flags(result, c, h);
                self.registers.set_8(&register, &mut self.bus, result);
                arith_cycles
            },
            InstructionAction::SubReg { register, borrow } => {
                let value = target.get_value_as_u8(&self.bus, &self.registers);
                let register_value = self.registers.get_8(&self.bus, &register);
                let bin = borrow && self.registers.get_flag(RegisterFlags::Carry);
                let (result, c, h) = sub8(register_value, value, bin);
                self.set_arith_flags(result, c, h);
                self.registers.set_8(&register, &mut self.bus, result);
                arith_cycles
            },
            InstructionAction::CompareReg { register } => {
                let value = target.get_value_as_u8(&self.bus, &self.registers);
                let register_value = self.registers.get_8(&self.bus, &register);
                let (result, c, h) = sub8(register_value, value, false);
                self.set_arith_flags(result, c, h);
                arith_cycles
            },
            InstructionAction::AndReg { register } => {
                let value = target.get_value_as_u8(&self.bus, &self.registers);
                let register_value = self.registers.get_8(&self.bus, &register);
                let (result, h) = and8(register_value, value);
                self.set_arith_flags(result, false, h);
                self.registers.set_8(&register, &mut self.bus, result);
                arith_cycles
            },
            InstructionAction::OrReg { register } => {
                let value = target.get_value_as_u8(&self.bus, &self.registers);
                let result = self.registers.get_8(&self.bus, &register) | value;
                self.set_arith_flags(result, false, false);
                self.registers.set_8(&register, &mut self.bus, result);
                arith_cycles
            },
            InstructionAction::XorReg { register } => {
                let value = target.get_value_as_u8(&self.bus, &self.registers);
                let result = self.registers.get_8(&self.bus, &register) ^ value;
                self.set_arith_flags(result, false, false);
                self.registers.set_8(&register, &mut self.bus, result);
                arith_cycles
            },
            InstructionAction::ComplementReg { register } => {
                let value = !self.registers.get_8(&self.bus, &register);
                self.registers.set_8(&register, &mut self.bus, value);
                4
            },
            InstructionAction::RotateReg { register, right, arithmetic } => {
                let value = self.registers.get_8(&self.bus, &register);
                let cin = self.registers.get_flag(RegisterFlags::Carry);
                let (result, c) = rotate(value, right, arithmetic, cin);
                self.registers.set_flag(RegisterFlags::Carry, c);
                self.registers.set_8(&register, &mut self.bus, result);
                4
            },
            InstructionAction::DAAReg { register } => {
                let value = self.registers.get_8(&self.bus, &register);
                let (result, c, h) = daa(
                    value,
                    self.registers.get_flag(RegisterFlags::Carry),
                    self.registers.get_flag(RegisterFlags::HalfCarry),
                );
                self.set_arith_flags(result, c, h);
                self.registers.set_8(&register, &mut self.bus, result);
                4
            },
            InstructionAction::StoreRegToMemory { register } => {
                let value = self.registers.get_8(&self.bus, &register);
                let location = target.get_value_as_u16(&self.registers);
                self.bus.write_b(location, value);
                if matches!(target, InstructionTarget::Immediate16 { .. }) {
                    13
                } else {
                    7
                }
            },
            InstructionAction::LoadRegFromMemory { register } => {
                let location = target.get_value_as_u16(&self.registers);
                let value = self.bus.read_b(location);
                self.registers.set_8(&register, &mut self.bus, value);
                if matches!(target, InstructionTarget::Immediate16 { .. }) {
                    13
                } else {
                    7
                }
            },
            // ruled out by the precondition
            _ => 0,
        }
    }

    /// Sets Carry, HalfCarry, and Zero, Sign and Parity from `result`.
    fn set_arith_flags(&mut self, result: u8, carry: bool, half: bool)
        ensures
            final(self).bus == old(self).bus,
            final(self).cycles == old(self).cycles,
            final(self).registers == (Registers {
                f: arith_flags(old(self).registers.f, result, carry, half),
                ..old(self).registers
            }),
    {
        self.registers.set_flag(RegisterFlags::Carry, carry);
        self.registers.set_flag(RegisterFlags::HalfCarry, half);
        self.registers.set_zsp(result);
    }
    /// The register-pair operations, the stack, and the exchanges. Returns
    /// the cycles taken.
    fn execute_16bit(&mut self, instruction: &Instruction8080) -> (r: u64)
        requires
            instruction.wf(),
            instruction.action is Load16 || instruction.action is Increment16
                || instruction.action is Decrement16 || instruction.action is Add16
                || instruction.action is Push16 || instruction.action is Pop16
                || instruction.action is StoreReg16ToMemory
                || instruction.action is LoadReg16FromMemory || instruction.action is Exchange
                || instruction.action is ExchangeToStack,
        ensures
            final(self).machine() == effect_spec(old(self).machine(), *instruction),
            r == cycles_spec(old(self).registers, *instruction),
    {
        let target = &instruction.target;
        match instruction.action {
            InstructionAction::Load16 { register } => {
                let value = target.get_value_as_u16(&self.registers);
                self.registers.set_16(&register, value);
                10
            },
            InstructionAction::Increment16 { register } => {
                let value = self.registers.get_16(&register).wrapping_add(1);
                self.registers.set_16(&register, value);
                5
            },
            InstructionAction::Decrement16 { register } => {
                let value = self.registers.get_16(&register).wrapping_sub(1);
                self.registers.set_16(&register, value);
                5
            },
            InstructionAction::Add16 { register } => {
                let register_value = self.registers.get_16(&register);
                let value = target.get_value_as_u16(&self.registers);
                let (result, carry) = add16(register_value, value);
                self.registers.set_flag(RegisterFlags::Carry, carry);
                self.registers.set_16(&register, result);
                10
            },
            InstructionAction::Push16 { register } => {
                let mut value = self.registers.get_16(&register);
                if register == Register16::DSW {
                    value = stack_word(value);
                }
                self.registers.sp = self.registers.sp.wrapping_sub(2);
                self.bus.write_w(self.registers.sp, value);
                11
            },
            InstructionAction::Pop16 { register } => {
                let mut value = self.bus.read_w(self.registers.sp);
                if register == Register16::DSW {
                    value = stack_word(value);
                }
                self.registers.sp = self.registers.sp.wrapping_add(2);
                self.registers.set_16(&register, value);
                10
            },
            InstructionAction::LoadReg16FromMemory { register } => {
                let location = target.get_value_as_u16(&self.registers);
                let value = self.bus.read_w(location);
                self.registers.set_16(&register, value);
                16
            },
            InstructionAction::StoreReg16ToMemory { register } => {
                let value = self.registers.get_16(&register);
                let location = target.get_value_as_u16(&self.registers);
                self.bus.write_w(location, value);
                16
            },
            InstructionAction::Exchange => {
                let hl = self.registers.get_16(&Register16::HL);
                let de = self.registers.get_16(&Register16::DE);
                self.registers.set_16(&Register16::DE, hl);
                self.registers.set_16(&Register16::HL, de);
                5
            },
            InstructionAction::ExchangeToStack => {
                let value = self.bus.read_w(self.registers.sp);
                let hl = self.registers.get_16(&Register16::HL);
                self.bus.write_w(self.registers.sp, hl);
                self.registers.set_16(&Register16::HL, value);
                18
            },
            // ruled out by the precondition
            _ => 0,
        }
    }

    /// Jumps, calls, returns, the latches and the carry. Returns the cycles taken.
    fn execute_control(&mut self, instruction: &Instruction8080) -> (r: u64)
        requires
            instruction.wf(),
            instruction.action is Nothing || instruction.action is Jump
                || instruction.action is Call || instruction.action is Return
                || instruction.action is Halt || instruction.action is SetInterrupts
                || instruction.action is SetCarry || instruction.action is ComplementCarry,
        ensures
            final(self).machine() == effect_spec(old(self).machine(), *instruction),
            r == cycles_spec(old(self).registers, *instruction),
    {
        let target = &instruction.target;
        match instruction.action {
            InstructionAction::Nothing => 4,
            InstructionAction::Jump { condition } => {
                if self.registers.check_condition(&condition) {
                    self.registers.pc = target.get_value_as_u16(&self.registers);
                }
                if matches!(target, InstructionTarget::Register16 { .. }) {
                    5
                } else {
                    10
                }
            },
            InstructionAction::Call { condition } => {
                let mut cycles: u64 = 11;
                if self.registers.check_condition(&condition) {
                    let destination = target.get_value_as_u16(&self.registers);
                    self.registers.sp = self.registers.sp.wrapping_sub(2);
                    self.bus.write_w(self.registers.sp, self.registers.pc);
                    self.registers.pc = destination;
                    cycles = 17;
                }
                if condition == Condition::Always {
                    cycles = 17;
                }
                cycles
            },
            InstructionAction::Return { condition } => {
                let mut cycles: u64 = 5;
                if self.registers.check_condition(&condition) {
                    self.registers.pc = self.bus.read_w(self.registers.sp);
                    self.registers.sp = self.registers.sp.wrapping_add(2);
                    cycles = 11;
                }
                if condition == Condition::Always {
                    cycles = 10;
                }
                cycles
            },
            // HLT is charged once; the idle steps that follow charge nothing.
            InstructionAction::Halt => {
                self.registers.halting = true;
                7
            },
            // EI takes effect at once, not after the next instruction.
            InstructionAction::SetInterrupts { enabled } => {
                self.registers.interrupts = enabled;
                4
            },
            InstructionAction::SetCarry { value } => {
                self.registers.set_flag(RegisterFlags::Carry, value);
                4
            },
            InstructionAction::ComplementCarry => {
                let carry = self.registers.get_flag(RegisterFlags::Carry);
                self.registers.set_flag(RegisterFlags::Carry, !carry);
                4
            },
            // ruled out by the precondition
            _ => 0,
        }
    }

    /// Executes one decoded instruction, the program counter already moved
    /// past it, and adds its cycles to the count. Port instructions hand the
    /// registers to the bus's device.
    pub fn execute(&mut self, instruction: &Instruction8080)
        requires
            instruction.wf(),
        ensures
            !instruction.is_io() ==> final(self).machine() == execute_spec(
                old(self).machine(),
                *instruction,
            ),
            instruction.is_io() ==> port_outcome(
                old(self).machine(),
                *instruction,
                final(self).machine(),
            ),
    {
        let cycles: u64 = match instruction.action {
            InstructionAction::In8 => {
                let port = instruction.target.get_value_as_u8(&self.bus, &self.registers);
                self.registers.a = self.bus.in_b(&mut self.registers, port);
                10
            },
            InstructionAction::Out8 => {
                let port = instruction.target.get_value_as_u8(&self.bus, &self.registers);
                let a = self.registers.a;
                self.bus.out_b(&mut self.registers, port, a);
                10
            },
            InstructionAction::Nothing | InstructionAction::Jump { .. } | InstructionAction::Call {
                ..
            } | InstructionAction::Return { .. } | InstructionAction::Halt
            | InstructionAction::SetInterrupts { .. } | InstructionAction::SetCarry { .. }
            | InstructionAction::ComplementCarry => self.execute_control(instruction),
            InstructionAction::Load16 { .. } | InstructionAction::Increment16 { .. }
            | InstructionAction::Decrement16 { .. } | InstructionAction::Add16 { .. }
            | InstructionAction::Push16 { .. } | InstructionAction::Pop16 { .. }
            | InstructionAction::StoreReg16ToMemory { .. }
            | InstructionAction::LoadReg16FromMemory { .. } | InstructionAction::Exchange
            | InstructionAction::ExchangeToStack => self.execute_16bit(instruction),
            _ => self.execute_8bit(instruction),
        };
        self.cycles = self.cycles.wrapping_add(cycles);
    }
    /// Steps until the processor is stopped, or until `limit` steps have
    /// run; returns the number of steps. The machines passed through form
    /// a run of that many steps.
    pub fn run_for(&mut self, limit: u64) -> (steps: u64)
        ensures
            steps <= limit,
            steps < limit ==> !final(self).machine().registers.running,
            exists|ms: Seq<Machine>|
                {
                    &&& #[trigger] is_run(ms)
                    &&& ms.len() == steps + 1
                    &&& ms[0] == old(self).machine()
                    &&& ms.last() == final(self).machine()
                },
            !old(self).machine().registers.running ==> steps == 0 && *final(self) == *old(self),
    {
        let ghost mut ms: Seq<Machine> = seq![self.machine()];
        let mut steps: u64 = 0;
        while steps < limit && self.registers.running
            invariant
                steps <= limit,
                is_run(ms),
                ms.len() == steps + 1,
                ms[0] == old(self).machine(),
                ms.last() == self.machine(),
                !old(self).registers.running ==> steps == 0 && *self == *old(self),
            decreases limit - steps,
        {
            let ghost before = self.machine();
            self.step();
            proof {
                let prev = ms;
                ms = ms.push(self.machine());
                assert forall|i: int| 0 <= i < ms.len() - 1 implies #[trigger] ms[i].registers.running
                    && step_outcome(ms[i], ms[i + 1]) by {
                    if i < prev.len() - 1 {
                        assert(prev[i] == ms[i] && prev[i + 1] == ms[i + 1]);
                    }
                }
            }
            steps = steps + 1;
        }
        steps
    }

    /// Raises an interrupt on the bus that will inject `opcode`.
    pub fn push_interrupt(&mut self, opcode: u8)
        ensures
            final(self).machine() == (Machine {
                interrupts: old(self).machine().interrupts.push(opcode),
                ..old(self).machine()
            }),
    {
        self.bus.push_interrupt(opcode);
    }

    /// The register file.
    pub fn registers(&self) -> (r: &Registers)
        ensures
            *r == self.machine().registers,
    {
        &self.registers
    }
}

impl<B: Bus8080> CPU8080 for Interpreter8080<B> {
    type Bus = B;

    closed spec fn machine(&self) -> Machine {
        Machine {
            registers: self.registers,
            memory: self.bus.memory(),
            interrupts: self.bus.interrupts(),
            ports: self.bus.port_log(),
            cycles: self.cycles,
        }
    }

    closed spec fn bus(&self) -> B {
        self.bus
    }

    fn get_executed_cycles(&self) -> u64 {
        self.cycles
    }

    fn force_jump(&mut self, a: u16) {
        self.registers.pc = a;
    }

    fn set_bus(&mut self, b: B) {
        self.bus = b;
    }

    fn get_bus(&self) -> &B {
        &self.bus
    }

    fn stop(&mut self) {
        self.registers.running = false;
    }

    fn is_running(&self) -> bool {
        self.registers.running
    }

    /// Executes one instruction. With interrupts enabled and an interrupt
    /// waiting on the bus, the oldest waiting opcode is executed where PC
    /// stands, without moving PC, and the halt latch is cleared.
    /// Otherwise a halted processor does nothing, and a running one executes
    /// the instruction at PC, having first moved PC past it.
    fn step(&mut self)
    {
        let ghost start = self.machine();
        let instruction = if self.registers.interrupts && self.bus.has_interrupt() {
            let opcode = self.bus.get_interrupt();
            self.registers.halting = false;
            Instruction8080::decode(opcode, self.registers.pc, &self.bus)
        } else {
            if self.registers.halting {
                return ;
            }
            let instruction = Instruction8080::from_opcode(self.registers.pc, &self.bus);
            self.registers.pc = self.registers.pc.wrapping_add(instruction.length as u16);
            instruction
        };
        proof {
            let operand = word_at(start.memory, start.registers.pc.wrapping_add(1));
            lemma_decoded_wf(instruction.opcode, operand);
        }
        self.execute(&instruction);
    }

    fn run(&mut self) {
        self.run_for(u64::MAX);
    }
}

} // verus!
