//! Protocol dialects and their order.

use std::cmp::Ordering;
use vstd::prelude::*;

verus! {

/// Dialect of the wire protocol spoken by a peer, oldest first.
#[derive(Clone, Copy, Debug, PartialEq, Eq, Ord, Structural)]
pub enum ProtocolVersion {
    /// Peers that predate version negotiation and send no version at all.
    BeforeVersioning,
    /// First versioned dialect; it introduced the `Terminate` packet.
    V1,
}

impl ProtocolVersion {
    /// The dialect stamped on every hello this library builds.
    pub const CURRENT: ProtocolVersion = ProtocolVersion::V1;

    /// Position of the dialect in the order of releases.
    pub open spec fn level(self) -> nat {
        match self {
            ProtocolVersion::BeforeVersioning => 0,
            ProtocolVersion::V1 => 1,
        }
    }

    /// Three-way comparison of two dialects by release order.
    pub open spec fn order(self, other: ProtocolVersion) -> Ordering {
        if self.level() < other.level() {
            Ordering::Less
        } else if self.level() == other.level() {
            Ordering::Equal
        } else {
            Ordering::Greater
        }
    }

    /// The dialect a hello announces: the one it names, or the oldest when it
    /// names none.
    pub open spec fn effective(declared: Option<ProtocolVersion>) -> ProtocolVersion {
        match declared {
            Some(v) => v,
            None => ProtocolVersion::BeforeVersioning,
        }
    }

    /// A missing version stands for `BeforeVersioning`, which is never newer
    /// than any dialect a peer can name; a named version stands for itself.
    pub proof fn lemma_missing_version_is_oldest(v: ProtocolVersion)
        ensures
            Self::effective(None) == ProtocolVersion::BeforeVersioning,
            Self::effective(None).level() <= v.level(),
            Self::effective(Some(v)) == v,
    {
    }

    /// The order of dialects is total, antisymmetric and transitive, and
    /// `BeforeVersioning` lies strictly below `V1`.
    pub proof fn lemma_order_is_total(a: ProtocolVersion, b: ProtocolVersion, c: ProtocolVersion)
        ensures
            a.order(b) == Ordering::Equal <==> a == b,
            a.order(b) == Ordering::Less <==> b.order(a) == Ordering::Greater,
            a.order(b) == Ordering::Less && b.order(c) == Ordering::Less ==> a.order(c)
                == Ordering::Less,
            ProtocolVersion::BeforeVersioning.order(ProtocolVersion::V1) == Ordering::Less,
    {
    }
}

impl PartialOrd for ProtocolVersion {
    fn partial_cmp(&self, other: &Self) -> (r: Option<Ordering>) {
        match (*self, *other) {
            (ProtocolVersion::BeforeVersioning, ProtocolVersion::BeforeVersioning) => Some(
                Ordering::Equal,
            ),
            (ProtocolVersion::BeforeVersioning, ProtocolVersion::V1) => Some(Ordering::Less),
            (ProtocolVersion::V1, ProtocolVersion::BeforeVersioning) => Some(Ordering::Greater),
            (ProtocolVersion::V1, ProtocolVersion::V1) => Some(Ordering::Equal),
        }
    }
}

impl vstd::std_specs::cmp::PartialOrdSpecImpl for ProtocolVersion {
    open spec fn obeys_partial_cmp_spec() -> bool {
        true
    }

    open spec fn partial_cmp_spec(&self, other: &Self) -> Option<Ordering> {
        Some(self.order(*other))
    }
}

} // verus!
