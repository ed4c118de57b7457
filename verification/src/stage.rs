//! Pipeline stage masks.

use vstd::prelude::*;

verus! {

/// The pipeline stage for which a uniform is bound: a set of flags, one bit
/// for the vertex stage and one for the fragment stage.
#[derive(Debug, Copy, Clone, PartialEq, Eq, Structural, PartialOrd, Ord, Hash)]
pub struct BindingStage {
    bits: u8,
}

impl BindingStage {
    #[verifier::type_invariant]
    spec fn known_flags_only(self) -> bool {
        self.bits <= 3
    }

    /// The raw flags: bit 0 is the vertex stage, bit 1 the fragment stage.
    pub closed spec fn spec_bits(&self) -> u8 {
        self.bits
    }

    /// Whether the vertex stage is in the mask.
    pub open spec fn has_vertex(self) -> bool {
        self.spec_bits() == 1 || self.spec_bits() == 3
    }

    /// Whether the fragment stage is in the mask.
    pub open spec fn has_fragment(self) -> bool {
        self.spec_bits() == 2 || self.spec_bits() == 3
    }

    /// The raw value of the flags currently stored.
    #[verifier::when_used_as_spec(spec_bits)]
    pub fn bits(&self) -> (bits: u8)
        ensures
            bits == self.spec_bits(),
            bits <= 3,
    {
        proof {
            use_type_invariant(self);
        }
        self.bits
    }

    /// The mask with no stage in it.
    pub fn empty() -> (mask: BindingStage)
        ensures
            mask.spec_bits() == 0,
    {
        BindingStage { bits: 0 }
    }

    /// The mask that holds the vertex stage alone.
    pub fn vertex() -> (mask: BindingStage)
        ensures
            mask.spec_bits() == 1,
    {
        BindingStage { bits: 1 }
    }

    /// The mask that holds the fragment stage alone.
    pub fn fragment() -> (mask: BindingStage)
        ensures
            mask.spec_bits() == 2,
    {
        BindingStage { bits: 2 }
    }

    /// The mask with both stages in it.
    pub fn all() -> (mask: BindingStage)
        ensures
            mask.spec_bits() == 3,
    {
        BindingStage { bits: 3 }
    }

    /// The mask with exactly the given raw flags, unless a bit of `bits`
    /// stands for no stage.
    pub fn from_bits(bits: u8) -> (mask: Option<BindingStage>)
        ensures
            bits <= 3 ==> mask is Some && mask->0.spec_bits() == bits,
            bits > 3 ==> mask is None,
    {
        if bits <= 3 {
            Some(BindingStage { bits })
        } else {
            None
        }
    }

    /// Whether no stage is in the mask.
    pub fn is_empty(&self) -> (none: bool)
        ensures
            none == (self.spec_bits() == 0),
    {
        self.bits == 0
    }

    /// Whether every stage of `other` is in this mask.
    pub fn contains(&self, other: BindingStage) -> (all: bool)
        ensures
            all == ((other.has_vertex() ==> self.has_vertex()) && (other.has_fragment()
                ==> self.has_fragment())),
    {
        proof {
            use_type_invariant(self);
            use_type_invariant(other);
        }
        let a: u8 = self.bits;
        let b: u8 = other.bits;
        assert(a <= 3 && b <= 3 ==> ((a & b == b) <==> ((b == 1 || b == 3 ==> a == 1 || a == 3)
            && (b == 2 || b == 3 ==> a == 2 || a == 3)))) by (bit_vector);
        a & b == b
    }

    /// The stages that are in this mask or in `other`.
    pub fn union(self, other: BindingStage) -> (mask: BindingStage)
        ensures
            mask.has_vertex() == (self.has_vertex() || other.has_vertex()),
            mask.has_fragment() == (self.has_fragment() || other.has_fragment()),
            mask.spec_bits() == self.spec_bits() | other.spec_bits(),
    {
        proof {
            use_type_invariant(self);
            use_type_invariant(other);
        }
        let a: u8 = self.bits;
        let b: u8 = other.bits;
        assert(a <= 3 && b <= 3 ==> (a | b) <= 3 && ((a | b == 1 || a | b == 3) <==> (a == 1 || a
            == 3 || b == 1 || b == 3)) && ((a | b == 2 || a | b == 3) <==> (a == 2 || a == 3 || b
            == 2 || b == 3))) by (bit_vector);
        BindingStage { bits: a | b }
    }

    /// Adds the stages of `other` to this mask.
    pub fn insert(&mut self, other: BindingStage)
        ensures
            final(self).has_vertex() == (old(self).has_vertex() || other.has_vertex()),
            final(self).has_fragment() == (old(self).has_fragment() || other.has_fragment()),
            final(self).spec_bits() == old(self).spec_bits() | other.spec_bits(),
    {
        *self = self.union(other);
    }
}

} // verus!
