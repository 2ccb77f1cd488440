use vstd::prelude::*;

use crate::cpu::instruction::{decode_spec, Instruction8080, InstructionAction};
use crate::cpu::registers::{join, lemma_split, stacked_flags, Register16, Registers};
use crate::cpu::semantics::{
    cycles_spec, execute_spec, is_run, step_instruction, step_outcome, takes_interrupt, Machine,
};
use crate::{store_word, word_at};

verus! {

/// Every opcode decodes to a known action whose operand has the shape the
/// action reads.
pub proof fn lemma_decoded_wf(op: u8, operand: u16)
    ensures
        decode_spec(op, operand).wf(),
        1 <= decode_spec(op, operand).length <= 3,
        !(decode_spec(op, operand).action is Unknown),
{
}

proof fn lemma_join_parts(hi: u8, lo: u8)
    ensures
        join(hi, lo) / 256 == hi,
        join(hi, lo) % 256 == lo,
{
    assert(0 <= hi as int * 256 + lo as int <= 0xFFFF);
    assert((hi as int * 256 + lo as int) / 256 == hi as int) by (nonlinear_arith)
        requires
            0 <= lo < 256,
            0 <= hi < 256,
    ;
    assert((hi as int * 256 + lo as int) % 256 == lo as int) by (nonlinear_arith)
        requires
            0 <= lo < 256,
            0 <= hi < 256,
    ;
}

/// Setting a pair to the value it already holds changes nothing.
proof fn lemma_with_own_pair(r: Registers, register: Register16)
    ensures
        r.with_pair(register, r.pair(register)) == r,
{
    lemma_join_parts(r.b, r.c);
    lemma_join_parts(r.d, r.e);
    lemma_join_parts(r.h, r.l);
    lemma_join_parts(r.a, r.f);
}

/// A word stored is the word loaded back from the same address.
proof fn lemma_load_stored(m: Map<u16, u8>, a: u16, w: u16)
    ensures
        word_at(store_word(m, a, w), a) == w,
{
    assert(a.wrapping_add(1) != a);
    lemma_split(w);
}

proof fn lemma_stacked_flags(f: u8)
    ensures
        stacked_flags(stacked_flags(f)) == stacked_flags(f),
        stacked_flags(f) & 0x02 != 0,
        stacked_flags(f) & 0x28 == 0,
{
    assert(((((f & 0xD7) | 0x02) & 0xD7) | 0x02) == ((f & 0xD7) | 0x02)) by (bit_vector);
    assert(((f & 0xD7) | 0x02) & 0x02 != 0) by (bit_vector);
    assert(((f & 0xD7) | 0x02) & 0x28 == 0) by (bit_vector);
}

/// PUSH of a register pair followed by POP into the same pair gives the
/// pair back and leaves SP where it was. The status word comes back with
/// F's bit 1 set and bits 3 and 5 clear, and every other register as it was.
pub proof fn lemma_push_pop_round_trip(
    m: Machine,
    push: Instruction8080,
    pop: Instruction8080,
    register: Register16,
)
    requires
        register != Register16::SP,
        push.action == (InstructionAction::Push16 { register }),
        pop.action == (InstructionAction::Pop16 { register }),
    ensures
        ({
            let after = execute_spec(execute_spec(m, push), pop);
            let r = m.registers;
            &&& after.registers.sp == r.sp
            &&& register != Register16::DSW ==> after.registers == r
            &&& register == Register16::DSW ==> after.registers == (Registers {
                f: stacked_flags(r.f),
                ..r
            })
            &&& register == Register16::DSW ==> after.registers.f & 0x02 != 0
                && after.registers.f & 0x28 == 0
        }),
{
    let r = m.registers;
    let sp = r.sp.wrapping_sub(2);
    let mid = execute_spec(m, push);
    let v = if register == Register16::DSW {
        join(r.a, stacked_flags(r.f))
    } else {
        r.pair(register)
    };
    lemma_load_stored(m.memory, sp, v);
    assert(word_at(mid.memory, sp) == v);
    assert(sp.wrapping_add(2) == r.sp);
    let back = Registers { sp: r.sp, ..r };
    assert(mid.registers == Registers { sp, ..r });
    if register == Register16::DSW {
        lemma_join_parts(r.a, stacked_flags(r.f));
        lemma_stacked_flags(r.f);
        lemma_split(join(r.a, stacked_flags(r.f)));
    } else {
        lemma_with_own_pair(r, register);
    }
}

/// Two XCHGs in a row restore DE and HL, and with them every register;
/// memory is not touched.
pub proof fn lemma_exchange_twice(m: Machine, first: Instruction8080, second: Instruction8080)
    requires
        first.action == InstructionAction::Exchange,
        second.action == InstructionAction::Exchange,
    ensures
        execute_spec(execute_spec(m, first), second).registers == m.registers,
        execute_spec(execute_spec(m, first), second).memory == m.memory,
{
    let r = m.registers;
    lemma_join_parts(r.d, r.e);
    lemma_join_parts(r.h, r.l);
    lemma_split(r.pair(Register16::DE));
    lemma_split(r.pair(Register16::HL));
}

/// A CALL followed, in the next step, by the RET it reaches returns to the
/// instruction after the CALL with SP where it was before the CALL, with no
/// interrupt taken in between. The RET must not stand where the CALL pushes
/// its return address.
pub proof fn lemma_call_return(m: Machine, at_target: Machine, back: Machine)
    requires
        !m.registers.halting,
        !takes_interrupt(m),
        m.memory[m.registers.pc] == 0xCD,
        m.memory[word_at(m.memory, m.registers.pc.wrapping_add(1))] == 0xC9,
        word_at(m.memory, m.registers.pc.wrapping_add(1)) != m.registers.sp.wrapping_sub(2),
        word_at(m.memory, m.registers.pc.wrapping_add(1)) != m.registers.sp.wrapping_sub(1),
        step_outcome(m, at_target),
        step_outcome(at_target, back),
    ensures
        back.registers.pc == m.registers.pc.wrapping_add(3),
        back.registers.sp == m.registers.sp,
{
    let r = m.registers;
    let target = word_at(m.memory, r.pc.wrapping_add(1));
    let sp = r.sp.wrapping_sub(2);
    assert(sp.wrapping_add(1) == r.sp.wrapping_sub(1));
    assert(at_target.memory == store_word(m.memory, sp, r.pc.wrapping_add(3)));
    assert(at_target.registers.pc == target);
    assert(at_target.memory[target] == 0xC9);
    lemma_load_stored(m.memory, sp, r.pc.wrapping_add(3));
}

/// The cycles one step adds to the count.
pub open spec fn step_cycles(m: Machine) -> u64 {
    match step_instruction(m) {
        None => 0,
        Some((start, ins)) => cycles_spec(start.registers, ins),
    }
}

/// The cycles of the first `n` steps of the run `ms`.
pub open spec fn run_cycles(ms: Seq<Machine>, n: nat) -> int
    decreases n,
{
    if n == 0 {
        0
    } else {
        run_cycles(ms, (n - 1) as nat) + step_cycles(ms[n - 1])
    }
}

proof fn lemma_step_cycles(m: Machine, next: Machine)
    requires
        step_outcome(m, next),
    ensures
        next.cycles == (m.cycles + step_cycles(m)) % 0x1_0000_0000_0000_0000,
{
    match step_instruction(m) {
        None => {},
        Some((start, ins)) => {
            assert(start.cycles == m.cycles);
            if !ins.is_io() {
                assert(next.cycles == execute_spec(start, ins).cycles);
            }
        },
    }
}

/// Over any run of steps, the cycle count grows by the sum of the cycles of
/// the instructions executed, modulo 2^64.
pub proof fn lemma_cycle_accounting(ms: Seq<Machine>)
    requires
        is_run(ms),
    ensures
        ms.last().cycles == (ms[0].cycles + run_cycles(ms, (ms.len() - 1) as nat))
            % 0x1_0000_0000_0000_0000,
{
    assert forall|i: int| 0 <= i < ms.len() - 1 implies ms[i + 1].cycles == (ms[i].cycles
        + #[trigger] step_cycles(ms[i])) % 0x1_0000_0000_0000_0000 by {
        assert(ms[i].registers.running && step_outcome(ms[i], ms[i + 1]));
        lemma_step_cycles(ms[i], ms[i + 1]);
    }
    lemma_cycles_sum(ms, (ms.len() - 1) as nat);
}

proof fn lemma_cycles_sum(ms: Seq<Machine>, n: nat)
    requires
        n < ms.len(),
        forall|i: int|
            0 <= i < ms.len() - 1 ==> ms[i + 1].cycles == (ms[i].cycles
                + #[trigger] step_cycles(ms[i])) % 0x1_0000_0000_0000_0000,
    ensures
        ms[n as int].cycles == (ms[0].cycles + run_cycles(ms, n)) % 0x1_0000_0000_0000_0000,
    decreases n,
{
    if n > 0 {
        let k = (n - 1) as int;
        lemma_cycles_sum(ms, (n - 1) as nat);
        let s = run_cycles(ms, (n - 1) as nat);
        let c = step_cycles(ms[k]) as int;
        let x = ms[0].cycles as int;
        assert(ms[k + 1].cycles == (ms[k].cycles + c) % 0x1_0000_0000_0000_0000);
        assert(((x + s) % 0x1_0000_0000_0000_0000 + c) % 0x1_0000_0000_0000_0000 == (x + s + c)
            % 0x1_0000_0000_0000_0000) by {
            vstd::arithmetic::div_mod::lemma_add_mod_noop(x + s, c, 0x1_0000_0000_0000_0000);
            vstd::arithmetic::div_mod::lemma_small_mod(c as nat, 0x1_0000_0000_0000_0000);
        }
    } else {
        vstd::arithmetic::div_mod::lemma_small_mod(
            ms[0].cycles as nat,
            0x1_0000_0000_0000_0000,
        );
    }
}

} // verus!
