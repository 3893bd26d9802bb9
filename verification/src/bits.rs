//! The sixteen bits of a flag word read as a set of bit positions, and the
//! facts that carry the bitwise operators over to set operations.

use vstd::prelude::*;

verus! {

/// Whether bit `i` (counted from the least significant bit) is set in `w`.
pub open spec fn bit_at(w: u16, i: u16) -> bool {
    i < 16 && (w >> i) & 1 == 1
}

/// Whether position `n` is one of the sixteen and its bit is set in `w`.
pub open spec fn bit_in(w: u16, n: nat) -> bool {
    n < 16 && bit_at(w, n as u16)
}

/// The positions of the bits that are set in `w`.
pub open spec fn bit_set(w: u16) -> Set<nat> {
    Set::new(|n: nat| bit_in(w, n))
}

/// A word is determined by its sixteen bits.
pub proof fn lemma_bits_determine_word(a: u16, b: u16)
    requires
        forall|i: u16| i < 16 ==> bit_at(a, i) == bit_at(b, i),
    ensures
        a == b,
{
    assert(bit_at(a, 0) == bit_at(b, 0));
    assert(bit_at(a, 1) == bit_at(b, 1));
    assert(bit_at(a, 2) == bit_at(b, 2));
    assert(bit_at(a, 3) == bit_at(b, 3));
    assert(bit_at(a, 4) == bit_at(b, 4));
    assert(bit_at(a, 5) == bit_at(b, 5));
    assert(bit_at(a, 6) == bit_at(b, 6));
    assert(bit_at(a, 7) == bit_at(b, 7));
    assert(bit_at(a, 8) == bit_at(b, 8));
    assert(bit_at(a, 9) == bit_at(b, 9));
    assert(bit_at(a, 10) == bit_at(b, 10));
    assert(bit_at(a, 11) == bit_at(b, 11));
    assert(bit_at(a, 12) == bit_at(b, 12));
    assert(bit_at(a, 13) == bit_at(b, 13));
    assert(bit_at(a, 14) == bit_at(b, 14));
    assert(bit_at(a, 15) == bit_at(b, 15));
    assert(a == b) by (bit_vector)
        requires
            ((a >> 0u16) & 1 == 1) == ((b >> 0u16) & 1 == 1),
            ((a >> 1u16) & 1 == 1) == ((b >> 1u16) & 1 == 1),
            ((a >> 2u16) & 1 == 1) == ((b >> 2u16) & 1 == 1),
            ((a >> 3u16) & 1 == 1) == ((b >> 3u16) & 1 == 1),
            ((a >> 4u16) & 1 == 1) == ((b >> 4u16) & 1 == 1),
            ((a >> 5u16) & 1 == 1) == ((b >> 5u16) & 1 == 1),
            ((a >> 6u16) & 1 == 1) == ((b >> 6u16) & 1 == 1),
            ((a >> 7u16) & 1 == 1) == ((b >> 7u16) & 1 == 1),
            ((a >> 8u16) & 1 == 1) == ((b >> 8u16) & 1 == 1),
            ((a >> 9u16) & 1 == 1) == ((b >> 9u16) & 1 == 1),
            ((a >> 10u16) & 1 == 1) == ((b >> 10u16) & 1 == 1),
            ((a >> 11u16) & 1 == 1) == ((b >> 11u16) & 1 == 1),
            ((a >> 12u16) & 1 == 1) == ((b >> 12u16) & 1 == 1),
            ((a >> 13u16) & 1 == 1) == ((b >> 13u16) & 1 == 1),
            ((a >> 14u16) & 1 == 1) == ((b >> 14u16) & 1 == 1),
            ((a >> 15u16) & 1 == 1) == ((b >> 15u16) & 1 == 1),
    ;
}

/// Two words with the same set of bit positions are the same word.
pub proof fn lemma_bit_set_injective(a: u16, b: u16)
    ensures
        bit_set(a) == bit_set(b) <==> a == b,
{
    if bit_set(a) == bit_set(b) {
        assert forall|i: u16| i < 16 implies bit_at(a, i) == bit_at(b, i) by {
            assert(bit_set(a).contains(i as nat) == bit_set(b).contains(i as nat));
        }
        lemma_bits_determine_word(a, b);
    }
}

/// Bit by bit, `|` is "or", `&` is "and", `^` is "exclusive or" and `!` is
/// "not".
pub proof fn lemma_bit_at_ops(a: u16, b: u16, i: u16)
    requires
        i < 16,
    ensures
        bit_at(a | b, i) == (bit_at(a, i) || bit_at(b, i)),
        bit_at(a & b, i) == (bit_at(a, i) && bit_at(b, i)),
        bit_at(a ^ b, i) == (bit_at(a, i) != bit_at(b, i)),
        bit_at(!a, i) == !bit_at(a, i),
        !bit_at(0, i),
{
    assert(((a | b) >> i) & 1 == 1 <==> ((a >> i) & 1 == 1 || (b >> i) & 1 == 1))
        by (bit_vector)
        requires
            i < 16,
    ;
    assert(((a & b) >> i) & 1 == 1 <==> ((a >> i) & 1 == 1 && (b >> i) & 1 == 1))
        by (bit_vector)
        requires
            i < 16,
    ;
    assert(((a ^ b) >> i) & 1 == 1 <==> (((a >> i) & 1 == 1) != ((b >> i) & 1 == 1)))
        by (bit_vector)
        requires
            i < 16,
    ;
    assert(((!a) >> i) & 1 == 1 <==> !((a >> i) & 1 == 1)) by (bit_vector)
        requires
            i < 16,
    ;
    assert((0u16 >> i) & 1 != 1) by (bit_vector);
}

/// The set of `a | b` is the union of the sets, that of `a & b` their
/// intersection, that of `a & !b` their difference, and that of `a ^ b` holds
/// the positions that are in exactly one of them.
pub proof fn lemma_bit_set_ops(a: u16, b: u16)
    ensures
        bit_set(a | b) == bit_set(a).union(bit_set(b)),
        bit_set(a & b) == bit_set(a).intersect(bit_set(b)),
        bit_set(a & !b) == bit_set(a).difference(bit_set(b)),
        bit_set(a ^ b) == bit_set(a).difference(bit_set(b)).union(
            bit_set(b).difference(bit_set(a)),
        ),
        bit_set(0) == Set::<nat>::empty(),
{
    assert forall|n: nat| n < 16 implies {
        &&& bit_in(a | b, n) == (bit_in(a, n) || bit_in(b, n))
        &&& bit_in(a & b, n) == (bit_in(a, n) && bit_in(b, n))
        &&& bit_in(a & !b, n) == (bit_in(a, n) && !bit_in(b, n))
        &&& bit_in(a ^ b, n) == (bit_in(a, n) != bit_in(b, n))
        &&& !bit_in(0, n)
    } by {
        lemma_bit_at_ops(a, b, n as u16);
        lemma_bit_at_ops(a, !b, n as u16);
        lemma_bit_at_ops(b, b, n as u16);
    }
    assert(bit_set(a | b) =~= bit_set(a).union(bit_set(b)));
    assert(bit_set(a & b) =~= bit_set(a).intersect(bit_set(b)));
    assert(bit_set(a & !b) =~= bit_set(a).difference(bit_set(b)));
    assert(bit_set(a ^ b) =~= bit_set(a).difference(bit_set(b)).union(
        bit_set(b).difference(bit_set(a)),
    ));
    assert(bit_set(0) =~= Set::<nat>::empty());
}

/// `a` holds every bit of `b` exactly when the set of `b` lies within that of
/// `a`; the two share a bit exactly when their sets meet.
pub proof fn lemma_bit_set_contains(a: u16, b: u16)
    ensures
        (a & b == b) <==> bit_set(b).subset_of(bit_set(a)),
        (a & b != 0) <==> !bit_set(a).disjoint(bit_set(b)),
{
    lemma_bit_set_ops(a, b);
    lemma_bit_set_injective(a & b, b);
    lemma_bit_set_injective(a & b, 0);
    let sa = bit_set(a);
    let sb = bit_set(b);
    if sb.subset_of(sa) {
        assert(sa.intersect(sb) =~= sb);
    }
    if sa.intersect(sb) == sb {
        assert forall|n: nat| sb.contains(n) implies sa.contains(n) by {
            assert(sa.intersect(sb).contains(n));
        }
    }
    if sa.disjoint(sb) {
        assert(sa.intersect(sb) =~= Set::<nat>::empty());
    }
    if sa.intersect(sb) == Set::<nat>::empty() {
        assert forall|n: nat| !(sa.contains(n) && sb.contains(n)) by {
            assert(!sa.intersect(sb).contains(n));
        }
    }
}

/// The word with the single bit `k` set has the one-element set of `k`.
pub proof fn lemma_bit_set_single(k: u16)
    requires
        k < 16,
    ensures
        bit_set(1u16 << k) == set![k as nat],
{
    assert forall|n: nat| n < 16 implies bit_in(1u16 << k, n) == (n == k) by {
        let i = n as u16;
        assert((((1u16 << k) >> i) & 1 == 1) == (i == k)) by (bit_vector)
            requires
                i < 16,
                k < 16,
        ;
    }
    assert(bit_set(1u16 << k) =~= set![k as nat]);
}

} // verus!
