use vstd::prelude::*;

mod bus;
pub mod cpu;
mod memory;

pub use crate::bus::{Device8080, SystemBus};
pub use crate::memory::Memory;

use crate::cpu::Registers;

verus! {

/// The byte `m` holds at address `a`, joined with the byte after it into a
/// little-endian word; the address after 0xFFFF is 0x0000.
pub open spec fn word_at(m: Map<u16, u8>, a: u16) -> u16 {
    (m[a] as int + 256 * m[a.wrapping_add(1)] as int) as u16
}

/// `m` after the word `w` is stored little-endian at `a`.
pub open spec fn store_word(m: Map<u16, u8>, a: u16, w: u16) -> Map<u16, u8> {
    m.insert(a, (w % 256) as u8).insert(a.wrapping_add(1), (w / 256) as u8)
}

/// One transfer on an I/O port: the byte read from an input port, or the
/// byte written to an output port.
#[derive(Clone, Copy, Debug, PartialEq, Eq, Structural)]
pub enum PortAccess {
    In { port: u8, value: u8 },
    Out { port: u8, value: u8 },
}

/// The memory-and-I/O side of an 8080 system: the only boundary the
/// processor knows. Reads and writes behave as a 64 KiB memory whose
/// contents are `memory()`; raised interrupts wait in `interrupts()` in the
/// order they were raised; the ports belong to the host. `SystemBus` is the
/// implementation this crate provides; a host plugs its ports into it as a
/// `Device8080`.
pub trait Bus8080 {
    /// What a read of each address yields in the current state.
    spec fn memory(&self) -> Map<u16, u8>;

    /// The opcodes of the interrupts raised and not yet handed out, oldest first.
    spec fn interrupts(&self) -> Seq<u8>;

    /// The port transfers made so far, oldest first.
    spec fn port_log(&self) -> Seq<PortAccess>;

    fn read_b(&self, a: u16) -> (r: u8)
        ensures
            r == self.memory()[a],
    ;

    fn read_w(&self, a: u16) -> (r: u16)
        ensures
            r == word_at(self.memory(), a),
    ;

    fn has_interrupt(&self) -> (r: bool)
        ensures
            r == (self.interrupts().len() > 0),
    ;

    /// Hands out the oldest pending interrupt opcode and takes it off the line.
    fn get_interrupt(&mut self) -> (r: u8)
        requires
            old(self).interrupts().len() > 0,
        ensures
            r == old(self).interrupts()[0],
            final(self).interrupts() == old(self).interrupts().drop_first(),
            final(self).memory() == old(self).memory(),
            final(self).port_log() == old(self).port_log(),
    ;

    /// Raises an interrupt that will inject `b`.
    fn push_interrupt(&mut self, b: u8)
        ensures
            final(self).interrupts() == old(self).interrupts().push(b),
            final(self).memory() == old(self).memory(),
            final(self).port_log() == old(self).port_log(),
    ;

    fn write_b(&mut self, a: u16, b: u8)
        ensures
            final(self).memory() == old(self).memory().insert(a, b),
            final(self).interrupts() == old(self).interrupts(),
            final(self).port_log() == old(self).port_log(),
    ;

    fn write_w(&mut self, a: u16, w: u16)
        ensures
            final(self).memory() == store_word(old(self).memory(), a, w),
            final(self).interrupts() == old(self).interrupts(),
            final(self).port_log() == old(self).port_log(),
    ;

    /// An input port; the device may inspect and change the registers and
    /// the memory, but not the pending interrupts.
    fn in_b(&mut self, regs: &mut Registers, b: u8) -> (r: u8)
        ensures
            final(self).interrupts() == old(self).interrupts(),
            final(self).port_log() == old(self).port_log().push(PortAccess::In { port: b, value: r }),
    ;

    /// An output port; the device may inspect and change the registers and
    /// the memory, but not the pending interrupts.
    fn out_b(&mut self, regs: &mut Registers, b: u8, a: u8)
        ensures
            final(self).interrupts() == old(self).interrupts(),
            final(self).port_log() == old(self).port_log().push(PortAccess::Out { port: b, value: a }),
    ;

    /// Installs `data` at `a` onwards (a ROM image, for instance).
    fn write_buffer(&mut self, a: u16, data: Vec<u8>)
        requires
            a + data.len() <= 0x10000,
        ensures
            forall|i: int|
                0 <= i < data.len() ==> #[trigger] final(self).memory()[(a + i) as u16] == data@[i],
            forall|x: u16|
                (x < a || x >= a + data.len()) ==> #[trigger] final(self).memory()[x] == old(
                    self,
                ).memory()[x],
            final(self).interrupts() == old(self).interrupts(),
            final(self).port_log() == old(self).port_log(),
    ;
}

} // verus!
