use vstd::prelude::*;

use crate::Bus8080;

verus! {

/// Branch conditions, each a test of one flag; `Always` holds unconditionally.
#[derive(Clone, Copy, Debug, PartialEq, Eq, Structural)]
pub enum Condition {
    Always,
    NotZero,
    Zero,
    NotCarry,
    Carry,
    Auxiliary,
    NotAuxiliary,
    PairtyOdd,
    ParityEven,
    Plus,
    Minus,
}

/// Register pairs; `DSW` is the processor status word, A above F.
#[derive(Clone, Copy, Debug, PartialEq, Eq, Structural)]
pub enum Register16 {
    BC,
    DE,
    HL,
    SP,
    DSW,
}

/// Eight-bit registers; `M` is the byte at address HL, reached through the bus.
#[derive(Clone, Copy, Debug, PartialEq, Eq, Structural)]
pub enum Register8 {
    A,
    B,
    C,
    D,
    E,
    F,
    H,
    L,
    M,
}

/// The flags held in F.
#[derive(Clone, Copy, Debug, PartialEq, Eq, Structural)]
pub enum RegisterFlags {
    Carry,
    HalfCarry,
    Sign,
    Zero,
    Parity,
}

/// The bit of F that holds `flag`.
pub open spec fn flag_mask(flag: RegisterFlags) -> u8 {
    match flag {
        RegisterFlags::Carry => 0x01,
        RegisterFlags::Parity => 0x04,
        RegisterFlags::HalfCarry => 0x10,
        RegisterFlags::Zero => 0x40,
        RegisterFlags::Sign => 0x80,
    }
}

/// Whether `flag` is set in the flag byte `f`.
pub open spec fn flag_of(f: u8, flag: RegisterFlags) -> bool {
    f & flag_mask(flag) != 0
}

/// The flag byte `f` with `flag` set to `value` and every other bit kept.
pub open spec fn with_flag(f: u8, flag: RegisterFlags, value: bool) -> u8 {
    if value {
        f | flag_mask(flag)
    } else {
        f & !flag_mask(flag)
    }
}

/// The number of one bits of `v`.
pub open spec fn popcount(v: u8) -> int {
    (v & 1) + (v >> 1 & 1) + (v >> 2 & 1) + (v >> 3 & 1) + (v >> 4 & 1) + (v >> 5 & 1) + (v
        >> 6 & 1) + (v >> 7 & 1)
}

/// Even parity: an even number of one bits.
pub open spec fn even_parity(v: u8) -> bool {
    popcount(v) % 2 == 0
}

/// `f` after Zero, Sign and Parity are recomputed from the result `v`.
pub open spec fn zsp_flags(f: u8, v: u8) -> u8 {
    with_flag(
        with_flag(with_flag(f, RegisterFlags::Zero, v == 0), RegisterFlags::Sign, v >= 128),
        RegisterFlags::Parity,
        even_parity(v),
    )
}

/// The high and low byte of `hi`, `lo` joined into a word.
pub open spec fn join(hi: u8, lo: u8) -> u16 {
    (hi as int * 256 + lo as int) as u16
}

/// A status word as the stack holds it: A above F, with F's bit 1 set and
/// bits 3 and 5 clear.
pub fn stack_word(w: u16) -> (r: u16)
    ensures
        r == join((w / 256) as u8, stacked_flags((w % 256) as u8)),
{
    let r = (w & 0xFFD7) | 0x0002;
    assert(r == join((w / 256) as u8, (((w % 256) as u8) & 0xD7) | 0x02)) by (bit_vector)
        requires
            r == (w & 0xFFD7) | 0x0002,
    ;
    r
}

/// The flag byte as the stack holds it: bit 1 set, bits 3 and 5 clear.
pub open spec fn stacked_flags(f: u8) -> u8 {
    (f & 0xD7) | 0x02
}

/// The processor's register file and latches.
#[derive(Clone, Copy, Debug, PartialEq, Eq, Structural)]
pub struct Registers {
    pub pc: u16,
    pub sp: u16,
    pub h: u8,
    pub l: u8,
    pub a: u8,
    pub b: u8,
    pub c: u8,
    pub d: u8,
    pub e: u8,
    pub f: u8,
    pub interrupts: bool,
    pub running: bool,
    pub halting: bool,
}

pub(crate) proof fn lemma_join(hi: u8, lo: u8)
    ensures
        ((hi as u16) << 8u16) | (lo as u16) == join(hi, lo),
{
    assert(((hi as u16) << 8u16) | (lo as u16) == (hi as int * 256 + lo as int)) by (bit_vector);
}

pub(crate) proof fn lemma_split(v: u16)
    ensures
        (v >> 8u16) as u8 == v / 256,
        (v & 0xFF) as u8 == v % 256,
        join((v / 256) as u8, (v % 256) as u8) == v,
{
    assert((v >> 8u16) as u8 == v / 256) by (bit_vector);
    assert((v & 0xFF) as u8 == v % 256) by (bit_vector);
}

proof fn lemma_parity_fold(v: u8)
    ensures
        ({
            let half = v ^ (v >> 4u8);
            let quarter = half ^ (half >> 2u8);
            let folded = quarter ^ (quarter >> 1u8);
            (folded & 1 == 0) == even_parity(v)
        }),
{
    assert({
        let half = v ^ (v >> 4u8);
        let quarter = half ^ (half >> 2u8);
        let folded = quarter ^ (quarter >> 1u8);
        (folded & 1 == 0) == (((v & 1) + (v >> 1 & 1) + (v >> 2 & 1) + (v >> 3 & 1) + (v >> 4 & 1) + (v
            >> 5 & 1) + (v >> 6 & 1) + (v >> 7 & 1)) % 2 == 0)
    }) by (bit_vector);
}

proof fn lemma_flags_distinct(f: u8, v: u8)
    ensures
        flag_of(zsp_flags(f, v), RegisterFlags::Zero) == (v == 0),
        flag_of(zsp_flags(f, v), RegisterFlags::Sign) == (v >= 128),
        flag_of(zsp_flags(f, v), RegisterFlags::Parity) == even_parity(v),
        flag_of(zsp_flags(f, v), RegisterFlags::Carry) == flag_of(f, RegisterFlags::Carry),
        flag_of(zsp_flags(f, v), RegisterFlags::HalfCarry) == flag_of(f, RegisterFlags::HalfCarry),
        (v & 0x80 != 0) == (v >= 128),
{
    let z = v == 0;
    let s = v >= 128;
    let p = even_parity(v);
    assert(v & 0x80 != 0 <==> v >= 128) by (bit_vector);
    assert({
        let f1 = if z { f | 0x40 } else { f & !0x40u8 };
        let f2 = if s { f1 | 0x80 } else { f1 & !0x80u8 };
        let f3 = if p { f2 | 0x04 } else { f2 & !0x04u8 };
        &&& (f3 & 0x40 != 0) == z
        &&& (f3 & 0x80 != 0) == s
        &&& (f3 & 0x04 != 0) == p
        &&& (f3 & 0x01 != 0) == (f & 0x01 != 0)
        &&& (f3 & 0x10 != 0) == (f & 0x10 != 0)
    }) by (bit_vector);
}

impl Registers {
    /// The flag `flag` as F holds it.
    pub open spec fn flag(self, flag: RegisterFlags) -> bool {
        flag_of(self.f, flag)
    }

    /// Whether `condition` holds of the flags.
    pub open spec fn condition_holds(self, condition: Condition) -> bool {
        match condition {
            Condition::Always => true,
            Condition::NotZero => !self.flag(RegisterFlags::Zero),
            Condition::Zero => self.flag(RegisterFlags::Zero),
            Condition::NotCarry => !self.flag(RegisterFlags::Carry),
            Condition::Carry => self.flag(RegisterFlags::Carry),
            Condition::Auxiliary => self.flag(RegisterFlags::HalfCarry),
            Condition::NotAuxiliary => !self.flag(RegisterFlags::HalfCarry),
            Condition::PairtyOdd => !self.flag(RegisterFlags::Parity),
            Condition::ParityEven => self.flag(RegisterFlags::Parity),
            Condition::Plus => !self.flag(RegisterFlags::Sign),
            Condition::Minus => self.flag(RegisterFlags::Sign),
        }
    }

    /// The value of a register pair.
    pub open spec fn pair(self, register: Register16) -> u16 {
        match register {
            Register16::BC => join(self.b, self.c),
            Register16::DE => join(self.d, self.e),
            Register16::HL => join(self.h, self.l),
            Register16::DSW => join(self.a, self.f),
            Register16::SP => self.sp,
        }
    }

    /// The registers after a register pair is set to `v`.
    pub open spec fn with_pair(self, register: Register16, v: u16) -> Registers {
        let hi = (v / 256) as u8;
        let lo = (v % 256) as u8;
        match register {
            Register16::BC => Registers { b: hi, c: lo, ..self },
            Register16::DE => Registers { d: hi, e: lo, ..self },
            Register16::HL => Registers { h: hi, l: lo, ..self },
            Register16::DSW => Registers { a: hi, f: lo, ..self },
            Register16::SP => Registers { sp: v, ..self },
        }
    }

    /// The value of an eight-bit register; M reads `memory` at HL.
    pub open spec fn reg(self, memory: Map<u16, u8>, register: Register8) -> u8 {
        match register {
            Register8::A => self.a,
            Register8::B => self.b,
            Register8::C => self.c,
            Register8::D => self.d,
            Register8::E => self.e,
            Register8::F => self.f,
            Register8::H => self.h,
            Register8::L => self.l,
            Register8::M => memory[self.pair(Register16::HL)],
        }
    }

    /// The registers after an eight-bit register is set to `v`; unchanged for M.
    pub open spec fn with_reg(self, register: Register8, v: u8) -> Registers {
        match register {
            Register8::A => Registers { a: v, ..self },
            Register8::B => Registers { b: v, ..self },
            Register8::C => Registers { c: v, ..self },
            Register8::D => Registers { d: v, ..self },
            Register8::E => Registers { e: v, ..self },
            Register8::F => Registers { f: v, ..self },
            Register8::H => Registers { h: v, ..self },
            Register8::L => Registers { l: v, ..self },
            Register8::M => self,
        }
    }

    /// `memory` after an eight-bit register is set to `v`: changed for M only.
    pub open spec fn memory_with_reg(self, memory: Map<u16, u8>, register: Register8, v: u8) -> Map<
        u16,
        u8,
    > {
        if register == Register8::M {
            memory.insert(self.pair(Register16::HL), v)
        } else {
            memory
        }
    }

    /// The register file at reset: all zero but F, whose reserved bit is
    /// set, with interrupts enabled and the processor running.
    pub open spec fn new_spec() -> Registers {
        Registers {
            pc: 0,
            sp: 0,
            h: 0,
            l: 0,
            a: 0,
            b: 0,
            c: 0,
            d: 0,
            e: 0,
            f: 0x02,
            interrupts: true,
            running: true,
            halting: false,
        }
    }

    pub fn new() -> (r: Self)
        ensures
            r == Registers::new_spec(),
    {
        Registers {
            pc: 0x0000,
            sp: 0x0000,
            h: 0x00,
            l: 0x00,
            a: 0x00,
            b: 0x00,
            c: 0x00,
            d: 0x00,
            e: 0x00,
            f: 0x02,
            interrupts: true,
            running: true,
            halting: false,
        }
    }

    pub fn set_flag(&mut self, flag: RegisterFlags, value: bool)
        ensures
            *final(self) == (Registers { f: with_flag(old(self).f, flag, value), ..*old(self) }),
    {
        let mask: u8 = match flag {
            RegisterFlags::Carry => 0x01,
            RegisterFlags::Parity => 0x04,
            RegisterFlags::HalfCarry => 0x10,
            RegisterFlags::Zero => 0x40,
            RegisterFlags::Sign => 0x80,
        };
        self.f = if value {
            self.f | mask
        } else {
            self.f & !mask
        };
    }

    pub fn get_flag(&self, flag: RegisterFlags) -> (r: bool)
        ensures
            r == self.flag(flag),
    {
        match flag {
            RegisterFlags::Carry => self.f & 0x01 != 0,
            RegisterFlags::Parity => self.f & 0x04 != 0,
            RegisterFlags::HalfCarry => self.f & 0x10 != 0,
            RegisterFlags::Zero => self.f & 0x40 != 0,
            RegisterFlags::Sign => self.f & 0x80 != 0,
        }
    }

    pub fn check_condition(&self, condition: &Condition) -> (r: bool)
        ensures
            r == self.condition_holds(*condition),
    {
        match condition {
            Condition::Carry => self.get_flag(RegisterFlags::Carry),
            Condition::NotCarry => !self.get_flag(RegisterFlags::Carry),
            Condition::PairtyOdd => !self.get_flag(RegisterFlags::Parity),
            Condition::ParityEven => self.get_flag(RegisterFlags::Parity),
            Condition::Auxiliary => self.get_flag(RegisterFlags::HalfCarry),
            Condition::NotAuxiliary => !self.get_flag(RegisterFlags::HalfCarry),
            Condition::Zero => self.get_flag(RegisterFlags::Zero),
            Condition::NotZero => !self.get_flag(RegisterFlags::Zero),
            Condition::Plus => !self.get_flag(RegisterFlags::Sign),
            Condition::Minus => self.get_flag(RegisterFlags::Sign),
            Condition::Always => true,
        }
    }

    /// Recomputes Zero, Sign and Parity from the result `v`.
    pub fn set_zsp(&mut self, v: u8)
        ensures
            *final(self) == (Registers { f: zsp_flags(old(self).f, v), ..*old(self) }),
            final(self).flag(RegisterFlags::Zero) == (v == 0),
            final(self).flag(RegisterFlags::Sign) == (v >= 128),
            final(self).flag(RegisterFlags::Parity) == (popcount(v) % 2 == 0),
            final(self).flag(RegisterFlags::Carry) == old(self).flag(RegisterFlags::Carry),
            final(self).flag(RegisterFlags::HalfCarry) == old(self).flag(RegisterFlags::HalfCarry),
    {
        let mut p: u8 = v ^ (v >> 4u8);
        p = p ^ (p >> 2u8);
        p = p ^ (p >> 1u8);
        proof {
            lemma_parity_fold(v);
        }
        self.set_flag(RegisterFlags::Zero, v == 0);
        self.set_flag(RegisterFlags::Sign, v & 0x80 != 0);
        self.set_flag(RegisterFlags::Parity, p & 1 == 0);
        proof {
            lemma_flags_distinct(old(self).f, v);
        }
    }

    pub fn get_16(&self, register: &Register16) -> (r: u16)
        ensures
            r == self.pair(*register),
    {
        proof {
            lemma_join(self.b, self.c);
            lemma_join(self.d, self.e);
            lemma_join(self.h, self.l);
            lemma_join(self.a, self.f);
        }
        match register {
            Register16::BC => ((self.b as u16) << 8u16) | self.c as u16,
            Register16::DE => ((self.d as u16) << 8u16) | self.e as u16,
            Register16::HL => ((self.h as u16) << 8u16) | self.l as u16,
            Register16::DSW => ((self.a as u16) << 8u16) | self.f as u16,
            Register16::SP => self.sp,
        }
    }

    pub fn set_16(&mut self, register: &Register16, value: u16)
        ensures
            *final(self) == old(self).with_pair(*register, value),
    {
        proof {
            lemma_split(value);
        }
        let hi = (value >> 8u16) as u8;
        let lo = (value & 0xFF) as u8;
        match register {
            Register16::BC => {
                self.b = hi;
                self.c = lo;
            },
            Register16::DE => {
                self.d = hi;
                self.e = lo;
            },
            Register16::HL => {
                self.h = hi;
                self.l = lo;
            },
            Register16::DSW => {
                self.a = hi;
                self.f = lo;
            },
            Register16::SP => {
                self.sp = value;
            },
        }
    }

    /// Reads an eight-bit register; M is the byte at HL, read through the bus.
    pub fn get_8<B: Bus8080>(&self, bus: &B, register: &Register8) -> (r: u8)
        ensures
            r == self.reg(bus.memory(), *register),
    {
        match register {
            Register8::A => self.a,
            Register8::B => self.b,
            Register8::C => self.c,
            Register8::D => self.d,
            Register8::E => self.e,
            Register8::F => self.f,
            Register8::H => self.h,
            Register8::L => self.l,
            Register8::M => bus.read_b(self.get_16(&Register16::HL)),
        }
    }

    /// Writes an eight-bit register; M is the byte at HL, written through the bus.
    pub fn set_8<B: Bus8080>(&mut self, register: &Register8, bus: &mut B, value: u8)
        ensures
            *final(self) == old(self).with_reg(*register, value),
            final(bus).memory() == old(self).memory_with_reg(old(bus).memory(), *register, value),
            final(bus).interrupts() == old(bus).interrupts(),
            final(bus).port_log() == old(bus).port_log(),
    {
        match register {
            Register8::A => self.a = value,
            Register8::B => self.b = value,
            Register8::C => self.c = value,
            Register8::D => self.d = value,
            Register8::E => self.e = value,
            Register8::F => self.f = value,
            Register8::H => self.h = value,
            Register8::L => self.l = value,
            Register8::M => bus.write_b(self.get_16(&Register16::HL), value),
        }
    }
}

} // verus!
