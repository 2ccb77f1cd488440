use vstd::prelude::*;

use crate::cpu::Registers;
use crate::{Bus8080, Memory, PortAccess};

verus! {

/// What a host attaches beside the memory: the I/O ports. Nothing is
/// assumed of how a device behaves.
pub trait Device8080 {
    /// An input port; the device sees the registers and the memory.
    fn in_b(&mut self, regs: &mut Registers, memory: &mut Memory, port: u8) -> u8;

    /// An output port; the device sees the registers and the memory.
    fn out_b(&mut self, regs: &mut Registers, memory: &mut Memory, port: u8, a: u8);
}

/// A bus made of 64 KiB of RAM, a queue of raised interrupts, and a host
/// device on the ports.
pub struct SystemBus<D: Device8080> {
    pub ram: Memory,
    pub device: D,
    /// Raised interrupts not yet handed out, oldest first.
    pub pending: Vec<u8>,
    /// The port transfers made so far, oldest first.
    pub log: Ghost<Seq<PortAccess>>,
}

impl<D: Device8080> SystemBus<D> {
    /// Zeroed RAM beside `device`, with no interrupt raised.
    pub fn new(device: D) -> (r: Self)
        ensures
            forall|a: u16| #[trigger] r.ram@[a] == 0,
            r.device == device,
            r.interrupts() == Seq::<u8>::empty(),
            r.port_log() == Seq::<PortAccess>::empty(),
    {
        let r = SystemBus {
            ram: Memory::new(),
            device,
            pending: Vec::new(),
            log: Ghost(Seq::empty()),
        };
        assert(r.pending@ =~= Seq::<u8>::empty());
        r
    }
}

impl<D: Device8080> Bus8080 for SystemBus<D> {
    open spec fn memory(&self) -> Map<u16, u8> {
        self.ram@
    }

    open spec fn interrupts(&self) -> Seq<u8> {
        self.pending@
    }

    open spec fn port_log(&self) -> Seq<PortAccess> {
        self.log@
    }

    fn read_b(&self, a: u16) -> u8 {
        self.ram.read_b(a)
    }

    fn read_w(&self, a: u16) -> u16 {
        self.ram.read_w(a)
    }

    fn has_interrupt(&self) -> bool {
        self.pending.len() > 0
    }

    fn get_interrupt(&mut self) -> u8 {
        let op = self.pending.remove(0);
        assert(self.pending@ =~= old(self).pending@.drop_first());
        op
    }

    fn push_interrupt(&mut self, b: u8) {
        self.pending.push(b)
    }

    fn write_b(&mut self, a: u16, b: u8) {
        self.ram.write_b(a, b)
    }

    fn write_w(&mut self, a: u16, w: u16) {
        self.ram.write_w(a, w)
    }

    fn in_b(&mut self, regs: &mut Registers, b: u8) -> u8 {
        let value = self.device.in_b(regs, &mut self.ram, b);
        proof {
            self.log@ = self.log@.push(PortAccess::In { port: b, value });
        }
        value
    }

    fn out_b(&mut self, regs: &mut Registers, b: u8, a: u8) {
        self.device.out_b(regs, &mut self.ram, b, a);
        proof {
            self.log@ = self.log@.push(PortAccess::Out { port: b, value: a });
        }
    }

    fn write_buffer(&mut self, a: u16, data: Vec<u8>) {
        self.ram.write_buffer(a, data)
    }
}

} // verus!
