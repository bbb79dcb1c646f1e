//! The internet checksum of the IPv4 header, as arithmetic.
//!
//! The header is read as big-endian words of sixteen bits. Their sum is
//! folded to sixteen bits by adding every carry back in, and the checksum is
//! the complement of what is left. A header that carries its checksum sums,
//! folds and complements to zero.

use crate::wire::be16;
use vstd::prelude::*;

verus! {

/// Sum of the first `n` big-endian 16-bit words of `s`.
pub open spec fn word_sum_upto(s: Seq<u8>, n: nat) -> nat
    decreases n,
{
    if n == 0 {
        0
    } else {
        word_sum_upto(s, (n - 1) as nat) + be16(s[2 * n - 2], s[2 * n - 1]) as nat
    }
}

/// Sum of the big-endian 16-bit words of `s`. A last byte without a partner
/// is left out.
pub open spec fn word_sum(s: Seq<u8>) -> nat {
    word_sum_upto(s, s.len() / 2)
}

/// The sum with every carry above bit 15 added back into the low sixteen
/// bits, until none is left: zero for zero, and otherwise the one number in
/// `1..=0xffff` that differs from `x` by a multiple of `0xffff`.
pub open spec fn fold(x: nat) -> nat {
    if x == 0 {
        0
    } else {
        ((x - 1) % 0xffff + 1) as nat
    }
}

/// The checksum of a sum of words: the complement of the folded sum.
pub open spec fn csum_fold_spec(csum: u64) -> u16 {
    (0xffff - fold(csum as nat)) as u16
}

/// The header with its checksum field set to zero.
pub open spec fn zero_check(h: Seq<u8>) -> Seq<u8> {
    h.update(10, 0u8).update(11, 0u8)
}

/// The header with `check` in its checksum field.
pub open spec fn store_check(h: Seq<u8>, check: [u8; 2]) -> Seq<u8> {
    h.update(10, check[0]).update(11, check[1])
}

/// The two bytes that spell `x` in network order.
pub open spec fn wire16(x: u16) -> [u8; 2] {
    [(x / 0x100) as u8, (x % 0x100) as u8]
}

/// The checksum of the IPv4 header `h`, computed with the header's own
/// checksum field taken as zero.
pub open spec fn ipv4_checksum(h: Seq<u8>) -> u16 {
    csum_fold_spec(word_sum(zero_check(h)) as u64)
}

/// Most that is left of any 64-bit sum after `rounds` rounds of adding the
/// high bits into the low sixteen.
pub open spec fn carry_bound(rounds: nat) -> nat {
    if rounds == 0 {
        0xffff_ffff_ffff_ffff
    } else if rounds == 1 {
        0x1_0000_0000_fffe
    } else if rounds == 2 {
        0x1_0000_fffe
    } else if rounds == 3 {
        0x1_fffe
    } else {
        0xffff
    }
}

/// One round of folding keeps what the sum folds to, and shrinks the sum from
/// one bound to the next.
pub proof fn lemma_fold_round(v: u64, rounds: nat)
    requires
        v >> 16 > 0,
        v <= carry_bound(rounds),
    ensures
        (v & 0xffff) + (v >> 16) <= carry_bound(rounds + 1),
        fold(((v & 0xffff) + (v >> 16)) as nat) == fold(v as nat),
{
    let hi = v >> 16;
    let lo = v & 0xffff;
    assert(hi == v / 0x1_0000 && lo == v % 0x1_0000) by (bit_vector)
        requires
            hi == v >> 16,
            lo == v & 0xffff,
    ;
    assert(v == 0x1_0000 * hi + lo);
    assert(hi >= 1);
    let w = (lo + hi) as int;
    assert(w - 1 == (v - 1) - 0xffff * hi);
    assert((w - 1) % 0xffff == (v - 1) % 0xffff) by {
        vstd::arithmetic::div_mod::lemma_mod_multiples_vanish(-(hi as int), v - 1, 0xffff);
    }
}

/// The sum of the first `n` words changes by the value of the one word that
/// is overwritten.
pub proof fn lemma_word_sum_update(s: Seq<u8>, n: nat, k: int, hi: u8, lo: u8)
    requires
        2 * n <= s.len(),
        0 <= k,
        2 * k + 1 < s.len(),
    ensures
        word_sum_upto(s.update(2 * k, hi).update(2 * k + 1, lo), n) == if k < n {
            word_sum_upto(s, n) - be16(s[2 * k], s[2 * k + 1]) + be16(hi, lo)
        } else {
            word_sum_upto(s, n) as int
        },
    decreases n,
{
    if n > 0 {
        lemma_word_sum_update(s, (n - 1) as nat, k, hi, lo);
    }
}

/// No sum of `n` words is more than `n` times the largest word.
pub proof fn lemma_word_sum_bound(s: Seq<u8>, n: nat)
    ensures
        word_sum_upto(s, n) <= n * 0xffff,
    decreases n,
{
    if n > 0 {
        lemma_word_sum_bound(s, (n - 1) as nat);
    }
}

/// The two bytes of a stored checksum spell the checksum.
pub proof fn lemma_wire16_spells(x: u16)
    ensures
        be16(wire16(x)[0], wire16(x)[1]) == x,
{
}

/// Round trip: when the checksum of a header is stored in its checksum
/// field, the header verifies: the sum of all its words, the checksum among
/// them, folds and complements to zero.
pub proof fn lemma_checksum_round_trip(h: Seq<u8>)
    requires
        h.len() == 20,
    ensures
        csum_fold_spec(word_sum(store_check(h, wire16(ipv4_checksum(h)))) as u64) == 0,
{
    let z = zero_check(h);
    let sum = word_sum(z);
    let c = ipv4_checksum(h);
    let stored = store_check(h, wire16(c));
    lemma_word_sum_bound(z, 10);
    lemma_wire16_spells(c);
    assert(stored =~= z.update(10, wire16(c)[0]).update(11, wire16(c)[1]));
    lemma_word_sum_update(z, 10, 5, wire16(c)[0], wire16(c)[1]);
    assert(z[10] == 0 && z[11] == 0);
    assert(word_sum(stored) == sum + c);
    assert(c == 0xffff - fold(sum));
    if sum > 0 {
        let m = (sum - 1) % 0xffff;
        let k = (sum - 1) / 0xffff;
        assert(sum + c - 1 == 0xffff * (k + 1) - 1);
        assert((sum + c - 1) % 0xffff == 0xfffe) by {
            vstd::arithmetic::div_mod::lemma_mod_multiples_vanish(k + 1, -1, 0xffff);
        }
    }
    assert(fold((sum + c) as nat) == 0xffff);
}

} // verus!
