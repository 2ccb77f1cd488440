use vstd::prelude::*;

use crate::cpu::{lemma_join, lemma_split};
use crate::{store_word, word_at};

verus! {

/// The 64 KiB address space as plain RAM.
pub struct Memory {
    bytes: [u8; 0x10000],
}

impl View for Memory {
    type V = Map<u16, u8>;

    /// The byte at each address.
    closed spec fn view(&self) -> Map<u16, u8> {
        Map::new(|a: u16| true, |a: u16| self.bytes@[a as int])
    }
}

impl Memory {
    /// Every address holds zero.
    pub fn new() -> (r: Self)
        ensures
            forall|a: u16| #[trigger] r@[a] == 0,
    {
        let bytes: [u8; 0x10000] = [0u8; 0x10000];
        let r = Memory { bytes };
        assert forall|a: u16| #[trigger] r@[a] == 0 by {
            assert(r@[a] == r.bytes@[a as int]);
        }
        r
    }

    pub fn read_b(&self, a: u16) -> (r: u8)
        ensures
            r == self@[a],
    {
        self.bytes[a as usize]
    }

    /// The little-endian word at `a`; the byte after 0xFFFF is at 0x0000.
    pub fn read_w(&self, a: u16) -> (r: u16)
        ensures
            r == word_at(self@, a),
    {
        let lo = self.read_b(a);
        let hi = self.read_b(a.wrapping_add(1));
        proof {
            lemma_join(hi, lo);
        }
        ((hi as u16) << 8u16) | lo as u16
    }

    pub fn write_b(&mut self, a: u16, b: u8)
        ensures
            final(self)@ == old(self)@.insert(a, b),
    {
        self.bytes[a as usize] = b;
        assert(self@ =~= old(self)@.insert(a, b));
    }

    /// Stores `w` little-endian at `a`.
    pub fn write_w(&mut self, a: u16, w: u16)
        ensures
            final(self)@ == store_word(old(self)@, a, w),
    {
        proof {
            lemma_split(w);
        }
        self.write_b(a, (w & 0xFF) as u8);
        self.write_b(a.wrapping_add(1), (w >> 8u16) as u8);
    }

    /// Copies `data` to `a` onwards.
    pub fn write_buffer(&mut self, a: u16, data: Vec<u8>)
        requires
            a + data.len() <= 0x10000,
        ensures
            forall|i: int| 0 <= i < data.len() ==> #[trigger] final(self)@[(a + i) as u16] == data@[i],
            forall|x: u16| (x < a || x >= a + data.len()) ==> #[trigger] final(self)@[x] == old(self)@[x],
    {
        let mut i: usize = 0;
        while i < data.len()
            invariant
                a + data.len() <= 0x10000,
                i <= data.len(),
                forall|j: int| 0 <= j < i ==> #[trigger] self@[(a + j) as u16] == data@[j],
                forall|x: u16| (x < a || x >= a + i) ==> #[trigger] self@[x] == old(self)@[x],
            decreases data.len() - i,
        {
            self.write_b(a + i as u16, data[i]);
            i = i + 1;
        }
    }
}

} // verus!
