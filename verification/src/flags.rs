//! The flag set of an I2C message.

use vstd::prelude::*;
use crate::bits::{
    bit_set, lemma_bit_set_contains, lemma_bit_set_injective, lemma_bit_set_ops,
    lemma_bit_set_single,
};

verus! {

/// The bits that have a name.
pub const ALL_BITS: u16 = 0xfef5;

/// The modifiers of one transaction segment, kept as a word of sixteen bits.
///
/// Every word is a flag set: bits without a name are kept as they are, and
/// only the operations that say so cut them off. Two flag sets are equal when
/// their words are.
#[derive(Clone, Copy, Debug, PartialEq, Eq, Structural)]
pub struct I2cMsgFlags {
    /// The word: one bit for each flag that is set.
    pub bits: u16,
}

impl View for I2cMsgFlags {
    type V = Set<nat>;

    /// The flag set as the set of the positions of its bits, the least
    /// significant bit at position 0.
    open spec fn view(&self) -> Set<nat> {
        bit_set(self.bits)
    }
}

impl I2cMsgFlags {
    /// Read data, from slave to master.
    #[verifier::allow_in_spec]
    pub fn master_read() -> (r: Self)
        ensures
            r@ == set![0nat],
        returns
            (I2cMsgFlags { bits: 0x0001 }),
    {
        proof {
            Self::lemma_named_flags();
        }
        I2cMsgFlags { bits: 0x0001 }
    }

    /// Use packet error checking.
    #[verifier::allow_in_spec]
    pub fn client_pec() -> (r: Self)
        ensures
            r@ == set![2nat],
        returns
            (I2cMsgFlags { bits: 0x0004 }),
    {
        proof {
            Self::lemma_named_flags();
        }
        I2cMsgFlags { bits: 0x0004 }
    }

    /// The device address has ten bits.
    #[verifier::allow_in_spec]
    pub fn addr_ten() -> (r: Self)
        ensures
            r@ == set![4nat],
        returns
            (I2cMsgFlags { bits: 0x0010 }),
    {
        proof {
            Self::lemma_named_flags();
        }
        I2cMsgFlags { bits: 0x0010 }
    }

    /// This end is the slave.
    #[verifier::allow_in_spec]
    pub fn client_slave() -> (r: Self)
        ensures
            r@ == set![5nat],
        returns
            (I2cMsgFlags { bits: 0x0020 }),
    {
        proof {
            Self::lemma_named_flags();
        }
        I2cMsgFlags { bits: 0x0020 }
    }

    /// Use I2C host notify.
    #[verifier::allow_in_spec]
    pub fn client_host_notify() -> (r: Self)
        ensures
            r@ == set![6nat],
        returns
            (I2cMsgFlags { bits: 0x0040 }),
    {
        proof {
            Self::lemma_named_flags();
        }
        I2cMsgFlags { bits: 0x0040 }
    }

    /// The device can wake the system.
    #[verifier::allow_in_spec]
    pub fn client_wake() -> (r: Self)
        ensures
            r@ == set![7nat],
        returns
            (I2cMsgFlags { bits: 0x0080 }),
    {
        proof {
            Self::lemma_named_flags();
        }
        I2cMsgFlags { bits: 0x0080 }
    }

    /// The buffer may be handed to DMA.
    #[verifier::allow_in_spec]
    pub fn master_dma_safe() -> (r: Self)
        ensures
            r@ == set![9nat],
        returns
            (I2cMsgFlags { bits: 0x0200 }),
    {
        proof {
            Self::lemma_named_flags();
        }
        I2cMsgFlags { bits: 0x0200 }
    }

    /// The first byte received gives the length of the message.
    #[verifier::allow_in_spec]
    pub fn master_recv_len() -> (r: Self)
        ensures
            r@ == set![10nat],
        returns
            (I2cMsgFlags { bits: 0x0400 }),
    {
        proof {
            Self::lemma_named_flags();
        }
        I2cMsgFlags { bits: 0x0400 }
    }

    /// In a read message the master's ACK/NACK bit is skipped.
    #[verifier::allow_in_spec]
    pub fn master_no_read_ack() -> (r: Self)
        ensures
            r@ == set![11nat],
        returns
            (I2cMsgFlags { bits: 0x0800 }),
    {
        proof {
            Self::lemma_named_flags();
        }
        I2cMsgFlags { bits: 0x0800 }
    }

    /// A NACK from the device is taken as an ACK.
    #[verifier::allow_in_spec]
    pub fn master_ign_nak() -> (r: Self)
        ensures
            r@ == set![12nat],
        returns
            (I2cMsgFlags { bits: 0x1000 }),
    {
        proof {
            Self::lemma_named_flags();
        }
        I2cMsgFlags { bits: 0x1000 }
    }

    /// The read/write bit is toggled.
    #[verifier::allow_in_spec]
    pub fn master_rev_dir() -> (r: Self)
        ensures
            r@ == set![13nat],
        returns
            (I2cMsgFlags { bits: 0x2000 }),
    {
        proof {
            Self::lemma_named_flags();
        }
        I2cMsgFlags { bits: 0x2000 }
    }

    /// The repeated START before this message is left out.
    #[verifier::allow_in_spec]
    pub fn master_no_start() -> (r: Self)
        ensures
            r@ == set![14nat],
        returns
            (I2cMsgFlags { bits: 0x4000 }),
    {
        proof {
            Self::lemma_named_flags();
        }
        I2cMsgFlags { bits: 0x4000 }
    }

    /// A STOP condition is forced after this message.
    #[verifier::allow_in_spec]
    pub fn master_stop() -> (r: Self)
        ensures
            r@ == set![15nat],
        returns
            (I2cMsgFlags { bits: 0x8000 }),
    {
        proof {
            Self::lemma_named_flags();
        }
        I2cMsgFlags { bits: 0x8000 }
    }

    /// Use the SCCB protocol: `master_stop` together with `master_ign_nak`.
    #[verifier::allow_in_spec]
    pub fn client_sccb() -> (r: Self)
        ensures
            r@ == set![12nat, 15nat],
        returns
            (I2cMsgFlags { bits: 0x9000 }),
    {
        proof {
            Self::lemma_named_flags();
        }
        I2cMsgFlags { bits: 0x9000 }
    }

    /// Where each named flag sits: a flag with one bit at the position of
    /// that bit, `client_sccb` at the positions of `master_ign_nak` and
    /// `master_stop`.
    pub proof fn lemma_named_flags()
        ensures
            Self::master_read()@ == set![0nat],
            Self::client_pec()@ == set![2nat],
            Self::addr_ten()@ == set![4nat],
            Self::client_slave()@ == set![5nat],
            Self::client_host_notify()@ == set![6nat],
            Self::client_wake()@ == set![7nat],
            Self::master_dma_safe()@ == set![9nat],
            Self::master_recv_len()@ == set![10nat],
            Self::master_no_read_ack()@ == set![11nat],
            Self::master_ign_nak()@ == set![12nat],
            Self::master_rev_dir()@ == set![13nat],
            Self::master_no_start()@ == set![14nat],
            Self::master_stop()@ == set![15nat],
            Self::client_sccb()@ == set![12nat, 15nat],
    {
        assert(0x0001u16 == 1u16 << 0u16) by (bit_vector);
        lemma_bit_set_single(0);
        assert(0x0004u16 == 1u16 << 2u16) by (bit_vector);
        lemma_bit_set_single(2);
        assert(0x0010u16 == 1u16 << 4u16) by (bit_vector);
        lemma_bit_set_single(4);
        assert(0x0020u16 == 1u16 << 5u16) by (bit_vector);
        lemma_bit_set_single(5);
        assert(0x0040u16 == 1u16 << 6u16) by (bit_vector);
        lemma_bit_set_single(6);
        assert(0x0080u16 == 1u16 << 7u16) by (bit_vector);
        lemma_bit_set_single(7);
        assert(0x0200u16 == 1u16 << 9u16) by (bit_vector);
        lemma_bit_set_single(9);
        assert(0x0400u16 == 1u16 << 10u16) by (bit_vector);
        lemma_bit_set_single(10);
        assert(0x0800u16 == 1u16 << 11u16) by (bit_vector);
        lemma_bit_set_single(11);
        assert(0x1000u16 == 1u16 << 12u16) by (bit_vector);
        lemma_bit_set_single(12);
        assert(0x2000u16 == 1u16 << 13u16) by (bit_vector);
        lemma_bit_set_single(13);
        assert(0x4000u16 == 1u16 << 14u16) by (bit_vector);
        lemma_bit_set_single(14);
        assert(0x8000u16 == 1u16 << 15u16) by (bit_vector);
        lemma_bit_set_single(15);
        assert(0x9000u16 == 0x1000u16 | 0x8000u16) by (bit_vector);
        lemma_bit_set_ops(0x1000, 0x8000);
        assert(Self::client_sccb()@ =~= set![12nat, 15nat]);
    }

    /// The set without any flag.
    #[verifier::allow_in_spec]
    pub fn empty() -> (r: Self)
        ensures
            r@ == Set::<nat>::empty(),
        returns
            (I2cMsgFlags { bits: 0 }),
    {
        proof {
            lemma_bit_set_ops(0, 0);
        }
        I2cMsgFlags { bits: 0 }
    }

    /// The set of every flag that has a name.
    #[verifier::allow_in_spec]
    pub fn all() -> Self
        returns
            (I2cMsgFlags { bits: ALL_BITS }),
    {
        I2cMsgFlags { bits: ALL_BITS }
    }

    /// The underlying word.
    #[verifier::allow_in_spec]
    pub fn bits(&self) -> u16
        returns
            self.bits,
    {
        self.bits
    }

    /// The flag set of `bits`, if no bit without a name is set in it.
    pub fn from_bits(bits: u16) -> (r: Option<Self>)
        ensures
            r.is_some() <==> bit_set(bits).subset_of(Self::all()@),
            r.is_some() ==> r.unwrap().bits == bits,
    {
        proof {
            lemma_bit_set_contains(ALL_BITS, bits);
            assert((bits & ALL_BITS == bits) <==> (ALL_BITS & bits == bits)) by (bit_vector);
        }
        if bits & ALL_BITS == bits {
            Some(I2cMsgFlags { bits })
        } else {
            None
        }
    }

    /// The flag set of `bits` with the bits that have no name cut off.
    pub fn from_bits_truncate(bits: u16) -> (r: Self)
        ensures
            r.bits == bits & ALL_BITS,
            r@ == bit_set(bits).intersect(Self::all()@),
    {
        proof {
            lemma_bit_set_ops(bits, ALL_BITS);
        }
        I2cMsgFlags { bits: bits & ALL_BITS }
    }

    /// The flag set of `bits`, whatever bits are set in it.
    #[verifier::allow_in_spec]
    pub fn from_bits_retain(bits: u16) -> Self
        returns
            (I2cMsgFlags { bits }),
    {
        I2cMsgFlags { bits }
    }

    /// Whether no flag is set.
    pub fn is_empty(&self) -> (r: bool)
        ensures
            r == (self.bits == 0),
            r == (self@ == Set::<nat>::empty()),
    {
        proof {
            lemma_bit_set_ops(self.bits, 0);
            lemma_bit_set_injective(self.bits, 0);
        }
        self.bits == 0
    }

    /// Whether every flag that has a name is set.
    pub fn is_all(&self) -> (r: bool)
        ensures
            r == (self.bits & ALL_BITS == ALL_BITS),
            r == Self::all()@.subset_of(self@),
    {
        proof {
            lemma_bit_set_contains(self.bits, ALL_BITS);
            let b = self.bits;
            assert((ALL_BITS | b == b) <==> (b & ALL_BITS == ALL_BITS)) by (bit_vector);
        }
        ALL_BITS | self.bits == self.bits
    }

    /// Whether `self` and `other` have a flag in common.
    pub fn intersects(&self, other: Self) -> (r: bool)
        ensures
            r == (self.bits & other.bits != 0),
            r == !self@.disjoint(other@),
    {
        proof {
            lemma_bit_set_contains(self.bits, other.bits);
        }
        self.bits & other.bits != 0
    }

    /// Whether every flag of `other` is in `self`.
    #[verifier::allow_in_spec]
    pub fn contains(&self, other: Self) -> (r: bool)
        ensures
            r == (self.bits & other.bits == other.bits),
        returns
            other@.subset_of(self@),
    {
        proof {
            lemma_bit_set_contains(self.bits, other.bits);
        }
        self.bits & other.bits == other.bits
    }

    /// Adds the flags of `other` to `self`.
    pub fn insert(&mut self, other: Self)
        ensures
            *final(self) == old(self).union(other),
            final(self)@ == old(self)@.union(other@),
    {
        proof {
            lemma_bit_set_ops(self.bits, other.bits);
        }
        self.bits = self.bits | other.bits;
    }

    /// Takes the flags of `other` out of `self`. The flags that `self` did
    /// not hold stay out, and no other flag changes.
    pub fn remove(&mut self, other: Self)
        ensures
            *final(self) == old(self).difference(other),
            final(self)@ == old(self)@.difference(other@),
    {
        proof {
            lemma_bit_set_ops(self.bits, other.bits);
        }
        self.bits = self.bits & !other.bits;
    }

    /// Flips in `self` each flag of `other`.
    pub fn toggle(&mut self, other: Self)
        ensures
            *final(self) == old(self).symmetric_difference(other),
            final(self)@ == old(self)@.difference(other@).union(other@.difference(old(self)@)),
    {
        proof {
            lemma_bit_set_ops(self.bits, other.bits);
        }
        self.bits = self.bits ^ other.bits;
    }

    /// Adds the flags of `other` where `value` is true, takes them out where
    /// it is false.
    pub fn set(&mut self, other: Self, value: bool)
        ensures
            value ==> *final(self) == old(self).union(other),
            !value ==> *final(self) == old(self).difference(other),
            value ==> final(self)@ == old(self)@.union(other@),
            !value ==> final(self)@ == old(self)@.difference(other@),
    {
        if value {
            self.insert(other);
        } else {
            self.remove(other);
        }
    }

    /// The flags that are in `self` and in `other`.
    #[verifier::allow_in_spec]
    pub fn intersection(self, other: Self) -> (r: Self)
        ensures
            r@ == self@.intersect(other@),
        returns
            (I2cMsgFlags { bits: self.bits & other.bits }),
    {
        proof {
            lemma_bit_set_ops(self.bits, other.bits);
        }
        I2cMsgFlags { bits: self.bits & other.bits }
    }

    /// The flags that are in `self` or in `other`.
    #[verifier::allow_in_spec]
    pub fn union(self, other: Self) -> (r: Self)
        ensures
            r@ == self@.union(other@),
        returns
            (I2cMsgFlags { bits: self.bits | other.bits }),
    {
        proof {
            lemma_bit_set_ops(self.bits, other.bits);
        }
        I2cMsgFlags { bits: self.bits | other.bits }
    }

    /// The flags that are in `self` and not in `other`. Bits of `other`
    /// without a name count too.
    #[verifier::allow_in_spec]
    pub fn difference(self, other: Self) -> (r: Self)
        ensures
            r@ == self@.difference(other@),
        returns
            (I2cMsgFlags { bits: self.bits & !other.bits }),
    {
        proof {
            lemma_bit_set_ops(self.bits, other.bits);
        }
        I2cMsgFlags { bits: self.bits & !other.bits }
    }

    /// The flags that are in exactly one of `self` and `other`.
    #[verifier::allow_in_spec]
    pub fn symmetric_difference(self, other: Self) -> (r: Self)
        ensures
            r@ == self@.difference(other@).union(other@.difference(self@)),
        returns
            (I2cMsgFlags { bits: self.bits ^ other.bits }),
    {
        proof {
            lemma_bit_set_ops(self.bits, other.bits);
        }
        I2cMsgFlags { bits: self.bits ^ other.bits }
    }

    /// The named flags that are not in `self`.
    #[verifier::allow_in_spec]
    pub fn complement(self) -> (r: Self)
        ensures
            r@ == Self::all()@.difference(self@),
        returns
            (I2cMsgFlags { bits: !self.bits & ALL_BITS }),
    {
        proof {
            lemma_bit_set_ops(ALL_BITS, self.bits);
            let b = self.bits;
            assert(!b & ALL_BITS == ALL_BITS & !b) by (bit_vector);
        }
        I2cMsgFlags { bits: !self.bits & ALL_BITS }
    }

    /// `all` is the union of the named flags.
    pub proof fn lemma_all_flags()
        ensures
            Self::all() == Self::master_read().union(Self::client_pec()).union(
                Self::addr_ten(),
            ).union(Self::client_slave()).union(Self::client_host_notify()).union(
                Self::client_wake(),
            ).union(Self::master_dma_safe()).union(Self::master_recv_len()).union(
                Self::master_no_read_ack(),
            ).union(Self::master_ign_nak()).union(Self::master_rev_dir()).union(
                Self::master_no_start(),
            ).union(Self::master_stop()).union(Self::client_sccb()),
            Self::all()@ == set![
                0nat,
                2nat,
                4nat,
                5nat,
                6nat,
                7nat,
                9nat,
                10nat,
                11nat,
                12nat,
                13nat,
                14nat,
                15nat,
            ],
    {
        assert(ALL_BITS == 0x0001u16 | 0x0004u16 | 0x0010u16 | 0x0020u16 | 0x0040u16 | 0x0080u16
            | 0x0200u16 | 0x0400u16 | 0x0800u16 | 0x1000u16 | 0x2000u16 | 0x4000u16 | 0x8000u16
            | 0x9000u16) by (bit_vector);
        Self::lemma_named_flags();
        let f1 = Self::master_read().union(Self::client_pec());
        let f2 = f1.union(Self::addr_ten());
        let f3 = f2.union(Self::client_slave());
        let f4 = f3.union(Self::client_host_notify());
        let f5 = f4.union(Self::client_wake());
        let f6 = f5.union(Self::master_dma_safe());
        let f7 = f6.union(Self::master_recv_len());
        let f8 = f7.union(Self::master_no_read_ack());
        let f9 = f8.union(Self::master_ign_nak());
        let f10 = f9.union(Self::master_rev_dir());
        let f11 = f10.union(Self::master_no_start());
        let f12 = f11.union(Self::master_stop());
        Self::master_read().lemma_set_operations(Self::client_pec());
        f1.lemma_set_operations(Self::addr_ten());
        f2.lemma_set_operations(Self::client_slave());
        f3.lemma_set_operations(Self::client_host_notify());
        f4.lemma_set_operations(Self::client_wake());
        f5.lemma_set_operations(Self::master_dma_safe());
        f6.lemma_set_operations(Self::master_recv_len());
        f7.lemma_set_operations(Self::master_no_read_ack());
        f8.lemma_set_operations(Self::master_ign_nak());
        f9.lemma_set_operations(Self::master_rev_dir());
        f10.lemma_set_operations(Self::master_no_start());
        f11.lemma_set_operations(Self::master_stop());
        f12.lemma_set_operations(Self::client_sccb());
        assert(f12.union(Self::client_sccb())@ =~= set![
            0nat,
            2nat,
            4nat,
            5nat,
            6nat,
            7nat,
            9nat,
            10nat,
            11nat,
            12nat,
            13nat,
            14nat,
            15nat,
        ]);
    }

    /// The operations on flag sets are the operations on their sets of
    /// positions: union, intersection and difference, the symmetric difference
    /// as what is in exactly one of the two, and containment as inclusion.
    pub proof fn lemma_set_operations(self, other: Self)
        ensures
            self.union(other)@ == self@.union(other@),
            self.intersection(other)@ == self@.intersect(other@),
            self.difference(other)@ == self@.difference(other@),
            self.symmetric_difference(other)@ == self@.difference(other@).union(
                other@.difference(self@),
            ),
            self.contains(other) == (self.bits & other.bits == other.bits),
    {
        lemma_bit_set_ops(self.bits, other.bits);
        lemma_bit_set_contains(self.bits, other.bits);
    }

    /// Two flag sets are equal exactly when they hold the same positions.
    pub proof fn lemma_view_injective(self, other: Self)
        ensures
            (self@ == other@) <==> self == other,
    {
        lemma_bit_set_injective(self.bits, other.bits);
    }

    /// What taking `gone` out of a flag set does. The result holds none of
    /// `gone` and all the rest. Where the set held nothing of `gone`, it stays
    /// as it was; where it held all of `gone`, putting `gone` back restores
    /// it. The result contains `probe` exactly when the set contained `probe`
    /// and `probe` has no flag of `gone`.
    pub proof fn lemma_remove(self, gone: Self, probe: Self)
        ensures
            self.difference(gone)@ == self@.difference(gone@),
            self.difference(gone)@.disjoint(gone@),
            self@.disjoint(gone@) ==> self.difference(gone) == self,
            self.contains(gone) ==> self.difference(gone).union(gone) == self,
            self.difference(gone).contains(probe) <==> self.contains(probe) && probe@.disjoint(
                gone@,
            ),
    {
        let rest = self.difference(gone);
        lemma_bit_set_ops(self.bits, gone.bits);
        lemma_bit_set_ops(rest.bits, gone.bits);
        if self@.disjoint(gone@) {
            assert(rest@ =~= self@);
            rest.lemma_view_injective(self);
        }
        if self.contains(gone) {
            assert(rest.union(gone)@ =~= self@);
            rest.union(gone).lemma_view_injective(self);
        }
        if rest.contains(probe) {
            assert forall|k: nat| !(probe@.contains(k) && gone@.contains(k)) by {
                if probe@.contains(k) {
                    assert(rest@.contains(k));
                }
            }
        }
    }
}

/// `a | b` is the union of the two flag sets.
impl core::ops::BitOr for I2cMsgFlags {
    type Output = I2cMsgFlags;

    fn bitor(self, other: I2cMsgFlags) -> (r: I2cMsgFlags) {
        self.union(other)
    }
}

impl vstd::std_specs::ops::BitOrSpecImpl for I2cMsgFlags {
    open spec fn obeys_bitor_spec() -> bool {
        true
    }

    open spec fn bitor_req(self, other: I2cMsgFlags) -> bool {
        true
    }

    open spec fn bitor_spec(self, other: I2cMsgFlags) -> I2cMsgFlags {
        self.union(other)
    }
}

/// `a & b` is the intersection of the two flag sets.
impl core::ops::BitAnd for I2cMsgFlags {
    type Output = I2cMsgFlags;

    fn bitand(self, other: I2cMsgFlags) -> (r: I2cMsgFlags) {
        self.intersection(other)
    }
}

impl vstd::std_specs::ops::BitAndSpecImpl for I2cMsgFlags {
    open spec fn obeys_bitand_spec() -> bool {
        true
    }

    open spec fn bitand_req(self, other: I2cMsgFlags) -> bool {
        true
    }

    open spec fn bitand_spec(self, other: I2cMsgFlags) -> I2cMsgFlags {
        self.intersection(other)
    }
}

/// `a ^ b` holds the flags that are in exactly one of the two.
impl core::ops::BitXor for I2cMsgFlags {
    type Output = I2cMsgFlags;

    fn bitxor(self, other: I2cMsgFlags) -> (r: I2cMsgFlags) {
        self.symmetric_difference(other)
    }
}

impl vstd::std_specs::ops::BitXorSpecImpl for I2cMsgFlags {
    open spec fn obeys_bitxor_spec() -> bool {
        true
    }

    open spec fn bitxor_req(self, other: I2cMsgFlags) -> bool {
        true
    }

    open spec fn bitxor_spec(self, other: I2cMsgFlags) -> I2cMsgFlags {
        self.symmetric_difference(other)
    }
}

/// `a - b` holds the flags of `a` that are not in `b`.
impl core::ops::Sub for I2cMsgFlags {
    type Output = I2cMsgFlags;

    fn sub(self, other: I2cMsgFlags) -> (r: I2cMsgFlags) {
        self.difference(other)
    }
}

impl vstd::std_specs::ops::SubSpecImpl for I2cMsgFlags {
    open spec fn obeys_sub_spec() -> bool {
        true
    }

    open spec fn sub_req(self, other: I2cMsgFlags) -> bool {
        true
    }

    open spec fn sub_spec(self, other: I2cMsgFlags) -> I2cMsgFlags {
        self.difference(other)
    }
}

/// `!a` holds the named flags that are not in `a`.
impl core::ops::Not for I2cMsgFlags {
    type Output = I2cMsgFlags;

    fn not(self) -> (r: I2cMsgFlags) {
        self.complement()
    }
}

impl vstd::std_specs::ops::NotSpecImpl for I2cMsgFlags {
    open spec fn obeys_not_spec() -> bool {
        true
    }

    open spec fn not_req(self) -> bool {
        true
    }

    open spec fn not_spec(self) -> I2cMsgFlags {
        self.complement()
    }
}

} // verus!
