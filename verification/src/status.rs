//! The flags of the gauge's status register.

use vstd::arithmetic::power2::{lemma2_to64, pow2};
use vstd::prelude::*;

verus! {

/// Whether bit `index` of `word` is set, bit 0 being the least significant:
/// whether the digit of `word` at place `2^index` is 1.
pub open spec fn bit(word: u16, index: nat) -> bool {
    (word as nat / pow2(index)) % 2 == 1
}

/// A bit of a word is set exactly when the word has something in common with
/// the mask that holds this bit alone.
pub proof fn lemma_bit_is_mask(word: u16, index: nat)
    requires
        index < 16,
    ensures
        bit(word, index) <==> word & (1u16 << (index as u16)) != 0,
{
    lemma2_to64();
    let i: u16 = index as u16;
    let place: u16 = pow2(index) as u16;
    assert(place == 1u16 << i) by (bit_vector)
        requires
            i < 16,
            i == 0 ==> place == 1,
            i == 1 ==> place == 2,
            i == 2 ==> place == 4,
            i == 3 ==> place == 8,
            i == 4 ==> place == 16,
            i == 5 ==> place == 32,
            i == 6 ==> place == 64,
            i == 7 ==> place == 128,
            i == 8 ==> place == 256,
            i == 9 ==> place == 512,
            i == 10 ==> place == 1024,
            i == 11 ==> place == 2048,
            i == 12 ==> place == 4096,
            i == 13 ==> place == 8192,
            i == 14 ==> place == 16384,
            i == 15 ==> place == 32768,
    ;
    assert(((word / place) % 2 == 1) <==> (word & (1u16 << i) != 0)) by (bit_vector)
        requires
            i < 16,
            place == 1u16 << i,
    ;
}

/// The alerts and events that the status register reports. Each flag is one bit
/// of the register; the flags do not depend on each other.
#[derive(Clone, Copy, Debug, PartialEq, Eq, Structural)]
pub struct Status {
    /// Power-on reset.
    pub por: bool,
    /// Minimum current alert threshold exceeded.
    pub imn: bool,
    /// Battery status.
    pub bst: bool,
    /// Maximum current alert threshold exceeded.
    pub imx: bool,
    /// State of charge changed by 1 %.
    pub dsoci: bool,
    /// Minimum voltage alert threshold exceeded.
    pub vmn: bool,
    /// Minimum temperature alert threshold exceeded.
    pub tmn: bool,
    /// Minimum state-of-charge alert threshold exceeded.
    pub smn: bool,
    /// Battery insertion.
    pub bi: bool,
    /// Maximum voltage alert threshold exceeded.
    pub vmx: bool,
    /// Maximum temperature alert threshold exceeded.
    pub tmx: bool,
    /// Maximum state-of-charge alert threshold exceeded.
    pub smx: bool,
    /// Battery removal.
    pub br: bool,
}

impl Status {
    /// The flags that `word` of the status register stands for. Bits 0, 4 and 5
    /// carry no flag and have no influence.
    pub open spec fn spec_decode(word: u16) -> Status {
        Status {
            por: bit(word, 1),
            imn: bit(word, 2),
            bst: bit(word, 3),
            imx: bit(word, 6),
            dsoci: bit(word, 7),
            vmn: bit(word, 8),
            tmn: bit(word, 9),
            smn: bit(word, 10),
            bi: bit(word, 11),
            vmx: bit(word, 12),
            tmx: bit(word, 13),
            smx: bit(word, 14),
            br: bit(word, 15),
        }
    }

    /// Decode a word of the status register into its flags.
    #[verifier::when_used_as_spec(spec_decode)]
    pub fn decode(word: u16) -> (status: Status)
        ensures
            status == Status::spec_decode(word),
    {
        proof {
            lemma_bit_is_mask(word, 1);
            lemma_bit_is_mask(word, 2);
            lemma_bit_is_mask(word, 3);
            lemma_bit_is_mask(word, 6);
            lemma_bit_is_mask(word, 7);
            lemma_bit_is_mask(word, 8);
            lemma_bit_is_mask(word, 9);
            lemma_bit_is_mask(word, 10);
            lemma_bit_is_mask(word, 11);
            lemma_bit_is_mask(word, 12);
            lemma_bit_is_mask(word, 13);
            lemma_bit_is_mask(word, 14);
            lemma_bit_is_mask(word, 15);
        }
        Status {
            br: word & (1 << 15) != 0,
            smx: word & (1 << 14) != 0,
            tmx: word & (1 << 13) != 0,
            vmx: word & (1 << 12) != 0,
            bi: word & (1 << 11) != 0,
            smn: word & (1 << 10) != 0,
            tmn: word & (1 << 9) != 0,
            vmn: word & (1 << 8) != 0,
            dsoci: word & (1 << 7) != 0,
            imx: word & (1 << 6) != 0,
            bst: word & (1 << 3) != 0,
            imn: word & (1 << 2) != 0,
            por: word & (1 << 1) != 0,
        }
    }
}

/// Bits 0, 4 and 5 of the status word carry no flag: clearing them changes
/// nothing in what the word decodes to.
pub proof fn lemma_unused_bits_ignored(word: u16)
    ensures
        Status::spec_decode(word & 0xFFCE) == Status::spec_decode(word),
{
    let kept: u16 = word & 0xFFCE;
    assert forall|index: nat| index < 16 && index != 0 && index != 4 && index != 5 implies bit(
        kept,
        index,
    ) == bit(word, index) by {
        lemma_bit_is_mask(word, index);
        lemma_bit_is_mask(kept, index);
        let i: u16 = index as u16;
        assert(((word & 0xFFCE) & (1u16 << i) != 0) == (word & (1u16 << i) != 0))
            by (bit_vector)
            requires
                i < 16,
                i != 0,
                i != 4,
                i != 5,
        ;
    }
}

/// The mask that holds bit `index` alone if `flag` is set, and nothing if not.
pub open spec fn mask(flag: bool, index: u16) -> u16 {
    if flag {
        1u16 << index
    } else {
        0
    }
}

impl Status {
    /// The status word in which exactly the bits of the flags that are set in
    /// `self` are set.
    pub open spec fn spec_bits(self) -> u16 {
        mask(self.por, 1)
            | mask(self.imn, 2)
            | mask(self.bst, 3)
            | mask(self.imx, 6)
            | mask(self.dsoci, 7)
            | mask(self.vmn, 8)
            | mask(self.tmn, 9)
            | mask(self.smn, 10)
            | mask(self.bi, 11)
            | mask(self.vmx, 12)
            | mask(self.tmx, 13)
            | mask(self.smx, 14)
            | mask(self.br, 15)
    }
}

/// The flags are independent of each other: whatever combination of flags is
/// chosen, the word that holds just their bits decodes to it.
pub proof fn lemma_flags_are_independent(status: Status)
    ensures
        Status::spec_decode(status.spec_bits()) == status,
{
    let word: u16 = status.spec_bits();
    let por: bool = status.por;
    let imn: bool = status.imn;
    let bst: bool = status.bst;
    let imx: bool = status.imx;
    let dsoci: bool = status.dsoci;
    let vmn: bool = status.vmn;
    let tmn: bool = status.tmn;
    let smn: bool = status.smn;
    let bi: bool = status.bi;
    let vmx: bool = status.vmx;
    let tmx: bool = status.tmx;
    let smx: bool = status.smx;
    let br: bool = status.br;
    assert({
        &&& (word & (1u16 << 1) != 0) == por
        &&& (word & (1u16 << 2) != 0) == imn
        &&& (word & (1u16 << 3) != 0) == bst
        &&& (word & (1u16 << 6) != 0) == imx
        &&& (word & (1u16 << 7) != 0) == dsoci
        &&& (word & (1u16 << 8) != 0) == vmn
        &&& (word & (1u16 << 9) != 0) == tmn
        &&& (word & (1u16 << 10) != 0) == smn
        &&& (word & (1u16 << 11) != 0) == bi
        &&& (word & (1u16 << 12) != 0) == vmx
        &&& (word & (1u16 << 13) != 0) == tmx
        &&& (word & (1u16 << 14) != 0) == smx
        &&& (word & (1u16 << 15) != 0) == br
    }) by (bit_vector)
        requires
            word == mask(por, 1)
                | mask(imn, 2)
                | mask(bst, 3)
                | mask(imx, 6)
                | mask(dsoci, 7)
                | mask(vmn, 8)
                | mask(tmn, 9)
                | mask(smn, 10)
                | mask(bi, 11)
                | mask(vmx, 12)
                | mask(tmx, 13)
                | mask(smx, 14)
                | mask(br, 15),
    ;
    assert(bit(word, 1) == status.por) by {
        lemma_bit_is_mask(word, 1);
    }
    assert(bit(word, 2) == status.imn) by {
        lemma_bit_is_mask(word, 2);
    }
    assert(bit(word, 3) == status.bst) by {
        lemma_bit_is_mask(word, 3);
    }
    assert(bit(word, 6) == status.imx) by {
        lemma_bit_is_mask(word, 6);
    }
    assert(bit(word, 7) == status.dsoci) by {
        lemma_bit_is_mask(word, 7);
    }
    assert(bit(word, 8) == status.vmn) by {
        lemma_bit_is_mask(word, 8);
    }
    assert(bit(word, 9) == status.tmn) by {
        lemma_bit_is_mask(word, 9);
    }
    assert(bit(word, 10) == status.smn) by {
        lemma_bit_is_mask(word, 10);
    }
    assert(bit(word, 11) == status.bi) by {
        lemma_bit_is_mask(word, 11);
    }
    assert(bit(word, 12) == status.vmx) by {
        lemma_bit_is_mask(word, 12);
    }
    assert(bit(word, 13) == status.tmx) by {
        lemma_bit_is_mask(word, 13);
    }
    assert(bit(word, 14) == status.smx) by {
        lemma_bit_is_mask(word, 14);
    }
    assert(bit(word, 15) == status.br) by {
        lemma_bit_is_mask(word, 15);
    }
}

} // verus!
