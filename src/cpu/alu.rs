use vstd::prelude::*;

verus! {

/// 1 for a set carry or borrow, 0 otherwise.
pub open spec fn bit(b: bool) -> int {
    if b {
        1
    } else {
        0
    }
}

/// `a + v + cin`: the eight-bit sum, the carry out of bit 7 and the carry out of bit 3.
pub open spec fn add8_spec(a: u8, v: u8, cin: bool) -> (u8, bool, bool) {
    (
        ((a + v + bit(cin)) % 256) as u8,
        a + v + bit(cin) >= 256,
        a % 16 + v % 16 + bit(cin) >= 16,
    )
}

/// `a - v - bin`: the eight-bit difference, whether it borrowed, and the
/// auxiliary flag, which on the 8080 is set when the low nibble did not borrow.
pub open spec fn sub8_spec(a: u8, v: u8, bin: bool) -> (u8, bool, bool) {
    (
        ((a - v - bit(bin)) % 256) as u8,
        a < v + bit(bin),
        a % 16 >= v % 16 + bit(bin),
    )
}

/// INR: the incremented value and the auxiliary flag.
pub open spec fn inc8_spec(v: u8) -> (u8, bool) {
    let r = ((v + 1) % 256) as u8;
    (r, r % 16 == 0)
}

/// DCR: the decremented value and the auxiliary flag.
pub open spec fn dec8_spec(v: u8) -> (u8, bool) {
    let r = ((v + 255) % 256) as u8;
    (r, r % 16 != 15)
}

/// ANA/ANI: the conjunction, and the auxiliary flag from bit 3 of `a | v`.
pub open spec fn and8_spec(a: u8, v: u8) -> (u8, bool) {
    (a & v, (a | v) & 0x08 != 0)
}

/// Whether DAA adds 0x60, which also leaves the carry set.
pub open spec fn daa_high(a: u8, carry: bool) -> bool {
    carry || a / 16 > 9 || (a / 16 >= 9 && a % 16 > 9)
}

/// The correction DAA adds to `a`.
pub open spec fn daa_correction(a: u8, carry: bool, half: bool) -> int {
    (if half || a % 16 > 9 {
        0x06int
    } else {
        0
    }) + (if daa_high(a, carry) {
        0x60int
    } else {
        0
    })
}

/// DAA: the adjusted accumulator, the new carry and the new auxiliary flag.
pub open spec fn daa_spec(a: u8, carry: bool, half: bool) -> (u8, bool, bool) {
    let corr = daa_correction(a, carry, half);
    (((a + corr) % 256) as u8, daa_high(a, carry), a % 16 + corr % 16 >= 16)
}

/// A rotate of `v` by one bit: the result and the bit rotated out.
/// `arithmetic` rotates through the carry `cin`; otherwise the bit rotated
/// out is also the bit rotated in.
pub open spec fn rotate_spec(v: u8, right: bool, arithmetic: bool, cin: bool) -> (u8, bool) {
    if right {
        let out = v % 2 == 1;
        let inb = if arithmetic {
            cin
        } else {
            out
        };
        ((v / 2 + 128 * bit(inb)) as u8, out)
    } else {
        let out = v >= 128;
        let inb = if arithmetic {
            cin
        } else {
            out
        };
        (((2 * v) % 256 + bit(inb)) as u8, out)
    }
}

/// DAD: the sixteen-bit sum and the carry out of bit 15.
pub open spec fn add16_spec(a: u16, v: u16) -> (u16, bool) {
    (((a + v) % 65536) as u16, a + v >= 65536)
}

/// Adds with carry in; the flags come from `w ^ a ^ v` as on the silicon.
pub fn add8(a: u8, v: u8, cin: bool) -> (r: (u8, bool, bool))
    ensures
        r == add8_spec(a, v, cin),
{
    let c: u16 = if cin {
        1
    } else {
        0
    };
    let a16 = a as u16;
    let v16 = v as u16;
    let w: u16 = a16 + v16 + c;
    let x: u16 = w ^ a16 ^ v16;
    proof {
        lemma_add8_bits(a16, v16, c, w, x);
    }
    ((w & 0xFF) as u8, x & 0x100 != 0, x & 0x10 != 0)
}

proof fn lemma_add8_bits(a: u16, v: u16, c: u16, w: u16, x: u16)
    requires
        a < 256,
        v < 256,
        c <= 1,
        w == a + v + c,
        x == w ^ a ^ v,
    ensures
        (x & 0x100 != 0) == (w >= 256),
        (x & 0x10 != 0) == ((a & 15) + (v & 15) + c >= 16),
        (w & 0xFF) as u8 == w % 256,
        a & 15 == a % 16,
        v & 15 == v % 16,
{
    assert((x & 0x100 != 0) == (w >= 256)) by (bit_vector)
        requires
            a < 256,
            v < 256,
            c <= 1,
            w == a + v + c,
            x == w ^ a ^ v,
    ;
    assert((x & 0x10 != 0) == ((a & 15) + (v & 15) + c >= 16)) by (bit_vector)
        requires
            a < 256,
            v < 256,
            c <= 1,
            w == a + v + c,
            x == w ^ a ^ v,
    ;
    assert((w & 0xFF) as u8 == w % 256) by (bit_vector);
    assert(a & 15 == a % 16) by (bit_vector);
    assert(v & 15 == v % 16) by (bit_vector);
}

/// Subtracts with borrow in, as an addition of the one's complement of `v`
/// with the carry in inverted; the carry out is inverted back into a borrow.
pub fn sub8(a: u8, v: u8, bin: bool) -> (r: (u8, bool, bool))
    ensures
        r == sub8_spec(a, v, bin),
{
    let c: u32 = if bin {
        0
    } else {
        1
    };
    let a32 = a as u32;
    let v32 = v as u32;
    let nv: u32 = (!(v as u16)) as u32;
    proof {
        lemma_complement(v as u16);
    }
    let w: u32 = a32 + nv + c;
    let x: u32 = w ^ a32 ^ nv;
    proof {
        lemma_sub8_bits(a32, v32, c, nv, w, x);
    }
    ((w & 0xFF) as u8, x & 0x100 == 0, x & 0x10 != 0)
}

proof fn lemma_complement(v: u16)
    ensures
        (!v) as u32 == 0xFFFF - v,
{
    assert((!v) as u32 == 0xFFFF - v) by (bit_vector);
}

proof fn lemma_sub8_bits(a: u32, v: u32, c: u32, nv: u32, w: u32, x: u32)
    requires
        a < 256,
        v < 256,
        c <= 1,
        nv == 0xFFFF - v,
        w == a + nv + c,
        x == w ^ a ^ nv,
    ensures
        (x & 0x100 == 0) == (a + c < v + 1),
        (x & 0x10 != 0) == ((a & 15) + c >= (v & 15) + 1),
        (w & 0xFF) as u8 == ((a + 256 + c - v - 1) % 256) as u8,
        a & 15 == a % 16,
        v & 15 == v % 16,
{
    assert((x & 0x100 == 0) == (a + c < v + 1)) by (bit_vector)
        requires
            a < 256,
            v < 256,
            c <= 1,
            nv == 0xFFFF - v,
            w == a + nv + c,
            x == w ^ a ^ nv,
    ;
    assert((x & 0x10 != 0) == ((a & 15) + c >= (v & 15) + 1)) by (bit_vector)
        requires
            a < 256,
            v < 256,
            c <= 1,
            nv == 0xFFFF - v,
            w == a + nv + c,
            x == w ^ a ^ nv,
    ;
    assert((w & 0xFF) as u8 == ((a + 256 + c - v - 1) % 256) as u8) by (bit_vector)
        requires
            a < 256,
            v < 256,
            c <= 1,
            nv == 0xFFFF - v,
            w == a + nv + c,
    ;
    assert(a & 15 == a % 16) by (bit_vector);
    assert(v & 15 == v % 16) by (bit_vector);
}

pub fn inc8(v: u8) -> (r: (u8, bool))
    ensures
        r == inc8_spec(v),
{
    let r = v.wrapping_add(1);
    proof {
        lemma_low_nibble(r);
    }
    (r, r & 0x0F == 0)
}

pub fn dec8(v: u8) -> (r: (u8, bool))
    ensures
        r == dec8_spec(v),
{
    let r = v.wrapping_sub(1);
    proof {
        lemma_low_nibble(r);
    }
    (r, r & 0x0F != 0x0F)
}

proof fn lemma_low_nibble(v: u8)
    ensures
        v & 0x0F == v % 16,
{
    assert(v & 0x0F == v % 16) by (bit_vector);
}

pub fn and8(a: u8, v: u8) -> (r: (u8, bool))
    ensures
        r == and8_spec(a, v),
{
    (a & v, (a | v) & 0x08 != 0)
}

/// Decimal adjust, by the rule of the 8080 data book: the auxiliary flag
/// comes from the carry into bit 4 of `a + correction`.
pub fn daa(a: u8, carry: bool, half: bool) -> (r: (u8, bool, bool))
    ensures
        r == daa_spec(a, carry, half),
{
    let a16 = a as u16;
    let lsb = a16 & 0xF;
    let msb = a16 >> 4u16;
    proof {
        lemma_nibbles(a16);
    }
    let mut correction: u16 = 0;
    let mut carry_out = carry;
    if half || lsb > 9 {
        correction = correction + 0x06;
    }
    if carry || msb > 9 || (msb >= 9 && lsb > 9) {
        correction = correction + 0x60;
        carry_out = true;
    }
    let w: u16 = a16 + correction;
    let x: u16 = w ^ a16 ^ correction;
    proof {
        lemma_daa_bits(a16, correction, w, x);
    }
    ((w & 0xFF) as u8, carry_out, x & 0x10 != 0)
}

proof fn lemma_nibbles(a: u16)
    requires
        a < 256,
    ensures
        a & 0xF == a % 16,
        a >> 4u16 == a / 16,
{
    assert(a & 0xF == a % 16) by (bit_vector);
    assert(a >> 4u16 == a / 16) by (bit_vector);
}

proof fn lemma_daa_bits(a: u16, k: u16, w: u16, x: u16)
    requires
        a < 256,
        k == 0 || k == 6 || k == 0x60 || k == 0x66,
        w == a + k,
        x == w ^ a ^ k,
    ensures
        (x & 0x10 != 0) == (a % 16 + k % 16 >= 16),
        (w & 0xFF) as u8 == w % 256,
{
    assert((x & 0x10 != 0) == ((a & 15) + (k & 15) >= 16)) by (bit_vector)
        requires
            a < 256,
            k == 0 || k == 6 || k == 0x60 || k == 0x66,
            w == a + k,
            x == w ^ a ^ k,
    ;
    assert(a & 15 == a % 16) by (bit_vector);
    assert(k & 15 == k % 16) by (bit_vector);
    assert((w & 0xFF) as u8 == w % 256) by (bit_vector);
}

/// RLC, RRC, RAL, RAR on `v` with carry in `cin`.
pub fn rotate(v: u8, right: bool, arithmetic: bool, cin: bool) -> (r: (u8, bool))
    ensures
        r == rotate_spec(v, right, arithmetic, cin),
{
    let c: u8 = if cin {
        1
    } else {
        0
    };
    proof {
        lemma_rotate_bits(v, c);
    }
    if right {
        let out = v & 1;
        let inb = if arithmetic {
            c
        } else {
            out
        };
        ((v >> 1u8) | (inb << 7u8), out != 0)
    } else {
        let out = (v & 0x80) >> 7u8;
        let inb = if arithmetic {
            c
        } else {
            out
        };
        ((v << 1u8) | inb, out != 0)
    }
}

proof fn lemma_rotate_bits(v: u8, c: u8)
    requires
        c <= 1,
    ensures
        (v & 1 != 0) == (v % 2 == 1),
        (v & 1) <= 1,
        ((v & 0x80) >> 7u8 != 0) == (v >= 128),
        (v & 0x80) >> 7u8 <= 1,
        forall|i: u8| i <= 1 ==> (v >> 1u8) | (i << 7u8) == v / 2 + 128 * i,
        forall|i: u8| i <= 1 ==> (v << 1u8) | i == (2 * v) % 256 + i,
{
    assert((v & 1 != 0) == (v % 2 == 1)) by (bit_vector);
    assert((v & 1) <= 1) by (bit_vector);
    assert(((v & 0x80) >> 7u8 != 0) == (v >= 128)) by (bit_vector);
    assert((v & 0x80) >> 7u8 <= 1) by (bit_vector);
    assert forall|i: u8| i <= 1 implies (v >> 1u8) | (i << 7u8) == v / 2 + 128 * i by {
        assert(i <= 1 ==> (v >> 1u8) | (i << 7u8) == v / 2 + 128 * i) by (bit_vector);
    }
    assert forall|i: u8| i <= 1 implies (v << 1u8) | i == (2 * v) % 256 + i by {
        assert(i <= 1 ==> (v << 1u8) | i == (2 * v) % 256 + i) by (bit_vector);
    }
}

pub fn add16(a: u16, v: u16) -> (r: (u16, bool))
    ensures
        r == add16_spec(a, v),
{
    let w: u32 = a as u32 + v as u32;
    let r: u16 = (w & 0xFFFF) as u16;
    assert(r == w % 65536) by (bit_vector)
        requires
            r == (w & 0xFFFF) as u16,
    ;
    (r, w >= 0x10000)
}

} // verus!
