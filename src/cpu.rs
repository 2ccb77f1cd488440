mod alu;
mod instruction;
mod interpreter;
pub mod laws;
mod registers;
pub mod semantics;

use vstd::prelude::*;

use crate::Bus8080;

pub use self::alu::{add16, add8, and8, daa, dec8, inc8, rotate, sub8};
pub use self::instruction::InstructionTarget as InstructionType;
pub use self::instruction::{Instruction8080, InstructionAction, InstructionTarget};
pub use self::interpreter::Interpreter8080;
pub use self::registers::{stack_word, Condition, Register16, Register8, RegisterFlags, Registers};
pub use self::semantics::Machine;

pub(crate) use self::registers::{lemma_join, lemma_split};
use self::semantics::{is_run, step_outcome};

verus! {

/// An 8080 as a host drives it.
pub trait CPU8080: Sized {
    type Bus: Bus8080;

    /// The processor's state: its registers, the bus's memory, waiting
    /// interrupts and port log, and the cycle count.
    spec fn machine(&self) -> Machine;

    /// The attached bus.
    spec fn bus(&self) -> Self::Bus;

    /// The machine cycles executed so far, wrapping at 2^64.
    fn get_executed_cycles(&self) -> (r: u64)
        ensures
            r == self.machine().cycles,
    ;

    /// Sets PC, to enter a program somewhere else than at 0.
    fn force_jump(&mut self, a: u16)
        ensures
            final(self).machine() == (Machine {
                registers: Registers { pc: a, ..old(self).machine().registers },
                ..old(self).machine()
            }),
            final(self).bus() == old(self).bus(),
    ;

    /// Attaches another bus.
    fn set_bus(&mut self, b: Self::Bus)
        ensures
            final(self).bus() == b,
            final(self).machine() == (Machine {
                memory: b.memory(),
                interrupts: b.interrupts(),
                ports: b.port_log(),
                ..old(self).machine()
            }),
    ;

    fn get_bus(&self) -> (r: &Self::Bus)
        ensures
            *r == self.bus(),
            r.memory() == self.machine().memory,
            r.interrupts() == self.machine().interrupts,
            r.port_log() == self.machine().ports,
    ;

    fn stop(&mut self)
        ensures
            final(self).machine() == (Machine {
                registers: Registers { running: false, ..old(self).machine().registers },
                ..old(self).machine()
            }),
            final(self).bus() == old(self).bus(),
    ;

    fn is_running(&self) -> (r: bool)
        ensures
            r == self.machine().registers.running,
    ;

    /// Executes one instruction: the oldest waiting interrupt's opcode if
    /// interrupts are enabled and one is waiting, else the instruction at PC
    /// unless the processor is halted.
    fn step(&mut self)
        ensures
            step_outcome(old(self).machine(), final(self).machine()),
    ;

    /// Steps until the processor is stopped; gives up only after 2^64 - 1
    /// steps, which no program reaches. A stopped processor is left as it is.
    fn run(&mut self)
        ensures
            exists|ms: Seq<Machine>|
                {
                    &&& #[trigger] is_run(ms)
                    &&& ms[0] == old(self).machine()
                    &&& ms.last() == final(self).machine()
                    &&& ms.len() - 1 < u64::MAX ==> !final(self).machine().registers.running
                },
            !old(self).machine().registers.running ==> *final(self) == *old(self),
    ;
}

} // verus!
