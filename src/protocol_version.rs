//! The supported wire-protocol versions, ordered by their numbers.
use vstd::prelude::*;
use core::cmp::Ordering;
use vstd::std_specs::cmp::{PartialEqSpec, PartialOrdSpec};

verus! {

/// A supported protocol release. Equality and order go by `version_number`
/// alone.
#[derive(Clone, Copy, Debug, Hash)]
pub enum ProtocolVersion {
    V1_21_4,
    V1_21_2,
    V1_21,
    V1_20_5,
    V1_20_3,
    V1_20_2,
    V1_20,
    V1_19_4,
    V1_19_3,
    V1_19_1,
    V1_19,
    V1_18_2,
    V1_18,
}

impl ProtocolVersion {
    /// The numeric protocol identifier of a release.
    pub open spec fn number(self) -> u32 {
        match self {
            ProtocolVersion::V1_21_4 => 769,
            ProtocolVersion::V1_21_2 => 768,
            ProtocolVersion::V1_21 => 767,
            ProtocolVersion::V1_20_5 => 766,
            ProtocolVersion::V1_20_3 => 765,
            ProtocolVersion::V1_20_2 => 764,
            ProtocolVersion::V1_20 => 763,
            ProtocolVersion::V1_19_4 => 762,
            ProtocolVersion::V1_19_3 => 761,
            ProtocolVersion::V1_19_1 => 760,
            ProtocolVersion::V1_19 => 759,
            ProtocolVersion::V1_18_2 => 758,
            ProtocolVersion::V1_18 => 757,
        }
    }

    pub fn version_number(&self) -> (r: u32)
        ensures
            r == self.number(),
    {
        match self {
            ProtocolVersion::V1_21_4 => 769,
            ProtocolVersion::V1_21_2 => 768,
            ProtocolVersion::V1_21 => 767,
            ProtocolVersion::V1_20_5 => 766,
            ProtocolVersion::V1_20_3 => 765,
            ProtocolVersion::V1_20_2 => 764,
            ProtocolVersion::V1_20 => 763,
            ProtocolVersion::V1_19_4 => 762,
            ProtocolVersion::V1_19_3 => 761,
            ProtocolVersion::V1_19_1 => 760,
            ProtocolVersion::V1_19 => 759,
            ProtocolVersion::V1_18_2 => 758,
            ProtocolVersion::V1_18 => 757,
        }
    }

    /// The release with protocol number `n`, if it is supported.
    pub fn from_version_number(n: u32) -> (r: Option<ProtocolVersion>)
        ensures
            r matches Some(v) ==> v.number() == n,
            r is None <==> forall|v: ProtocolVersion| v.number() != n,
    {
        let r = if n == 769 {
            Some(ProtocolVersion::V1_21_4)
        } else if n == 768 {
            Some(ProtocolVersion::V1_21_2)
        } else if n == 767 {
            Some(ProtocolVersion::V1_21)
        } else if n == 766 {
            Some(ProtocolVersion::V1_20_5)
        } else if n == 765 {
            Some(ProtocolVersion::V1_20_3)
        } else if n == 764 {
            Some(ProtocolVersion::V1_20_2)
        } else if n == 763 {
            Some(ProtocolVersion::V1_20)
        } else if n == 762 {
            Some(ProtocolVersion::V1_19_4)
        } else if n == 761 {
            Some(ProtocolVersion::V1_19_3)
        } else if n == 760 {
            Some(ProtocolVersion::V1_19_1)
        } else if n == 759 {
            Some(ProtocolVersion::V1_19)
        } else if n == 758 {
            Some(ProtocolVersion::V1_18_2)
        } else if n == 757 {
            Some(ProtocolVersion::V1_18)
        } else {
            None
        };
        proof {
            if r is None {
                assert forall|v: ProtocolVersion| v.number() != n by {
                    match v {
                        _ => {},
                    }
                }
            } else {
                let v = r.unwrap();
                assert(v.number() == n);
            }
        }
        r
    }
}

/// The default release: the newest one supported.
pub open spec fn default_version() -> ProtocolVersion {
    ProtocolVersion::V1_21_4
}

impl Default for ProtocolVersion {
    fn default() -> (r: Self)
        ensures
            r == default_version(),
    {
        ProtocolVersion::V1_21_4
    }
}

impl PartialEq for ProtocolVersion {
    fn eq(&self, other: &Self) -> (r: bool) {
        self.version_number() == other.version_number()
    }
}

impl vstd::std_specs::cmp::PartialEqSpecImpl for ProtocolVersion {
    open spec fn obeys_eq_spec() -> bool {
        true
    }

    open spec fn eq_spec(&self, other: &ProtocolVersion) -> bool {
        self.number() == other.number()
    }
}

impl Eq for ProtocolVersion {

}

/// The order of two protocol numbers.
pub open spec fn compare_numbers(a: u32, b: u32) -> Ordering {
    if a < b {
        Ordering::Less
    } else if a == b {
        Ordering::Equal
    } else {
        Ordering::Greater
    }
}

impl PartialOrd for ProtocolVersion {
    fn partial_cmp(&self, other: &Self) -> (r: Option<Ordering>) {
        let a = self.version_number();
        let b = other.version_number();
        if a < b {
            Some(Ordering::Less)
        } else if a == b {
            Some(Ordering::Equal)
        } else {
            Some(Ordering::Greater)
        }
    }
}

impl vstd::std_specs::cmp::PartialOrdSpecImpl for ProtocolVersion {
    open spec fn obeys_partial_cmp_spec() -> bool {
        true
    }

    open spec fn partial_cmp_spec(&self, other: &ProtocolVersion) -> Option<Ordering> {
        Some(compare_numbers(self.number(), other.number()))
    }
}

/// No two releases share a protocol number: equal numbers mean the same
/// release.
pub proof fn lemma_version_numbers_unique(a: ProtocolVersion, b: ProtocolVersion)
    ensures
        a.number() == b.number() <==> a == b,
{
}

/// Equality and order of releases are those of their numbers.
pub proof fn lemma_version_order_by_number(a: ProtocolVersion, b: ProtocolVersion)
    ensures
        a.eq_spec(&b) <==> a.number() == b.number(),
        a.partial_cmp_spec(&b) == Some(Ordering::Less) <==> a.number() < b.number(),
        a.partial_cmp_spec(&b) == Some(Ordering::Greater) <==> a.number() > b.number(),
        a.partial_cmp_spec(&b) == Some(Ordering::Equal) <==> a.number() == b.number(),
{
}

/// The three newest releases are ordered by their numbers 767 < 768 < 769.
pub proof fn lemma_newest_releases_ordered()
    ensures
        ProtocolVersion::V1_21.number() == 767,
        ProtocolVersion::V1_21_2.number() == 768,
        ProtocolVersion::V1_21_4.number() == 769,
        ProtocolVersion::V1_21.partial_cmp_spec(&ProtocolVersion::V1_21_2) == Some(Ordering::Less),
        ProtocolVersion::V1_21_2.partial_cmp_spec(&ProtocolVersion::V1_21_4) == Some(
            Ordering::Less,
        ),
{
}

} // verus!
