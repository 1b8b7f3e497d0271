//! Actor identities.

use vstd::prelude::*;

verus! {

/// The 256-bit identity of an actor, held as two 128-bit words. The high word
/// is the big-endian value of the first sixteen bytes, the low word that of
/// the last sixteen, so that `(hi, lo)` orders identities as their bytes do.
#[derive(Clone, Copy, Debug, PartialEq, Eq, PartialOrd, Ord, Hash, Structural)]
pub struct ActorId {
    pub hi: u128,
    pub lo: u128,
}

impl ActorId {
    /// The identity made of the two given words.
    pub fn new(hi: u128, lo: u128) -> (id: ActorId)
        ensures
            id == (ActorId { hi, lo }),
    {
        ActorId { hi, lo }
    }

    /// The all-zero identity, which stands for "not set".
    pub open spec fn spec_zero() -> ActorId {
        ActorId { hi: 0, lo: 0 }
    }

    /// The all-zero identity.
    #[verifier::when_used_as_spec(spec_zero)]
    pub fn zero() -> (id: ActorId)
        ensures
            id == Self::spec_zero(),
    {
        ActorId { hi: 0, lo: 0 }
    }

    /// Whether this is the all-zero identity.
    pub fn is_zero(&self) -> (r: bool)
        ensures
            r == (*self == Self::spec_zero()),
    {
        self.hi == 0 && self.lo == 0
    }

    /// The strict order on identities: by the high word, then by the low one.
    pub open spec fn precedes(self, other: ActorId) -> bool {
        self.hi < other.hi || (self.hi == other.hi && self.lo < other.lo)
    }

    /// Whether `self` comes strictly before `other`.
    pub fn comes_before(&self, other: &ActorId) -> (r: bool)
        ensures
            r == self.precedes(*other),
    {
        self.hi < other.hi || (self.hi == other.hi && self.lo < other.lo)
    }
}

impl From<u64> for ActorId {
    /// The identity whose low word is `value` and whose high word is zero.
    ///
    /// This numbering is the library's own, for naming small identities at
    /// hand. It is not the identity that a host gives to the same number:
    /// the Gear runtime writes the number little-endian into bytes 12 to 19
    /// of the identity.
    fn from(value: u64) -> (id: ActorId) {
        ActorId { hi: 0, lo: value as u128 }
    }
}

impl vstd::std_specs::convert::FromSpecImpl<u64> for ActorId {
    open spec fn obeys_from_spec() -> bool {
        true
    }

    open spec fn from_spec(value: u64) -> ActorId {
        ActorId { hi: 0, lo: value as u128 }
    }
}

} // verus!
