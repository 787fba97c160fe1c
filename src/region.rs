//! Causality regions: the isolation domains that produce records.

use vstd::prelude::*;

verus! {

/// Identifier of the isolation domain (data source) that created a record.
/// The region `0` is the globally-visible, on-chain region.
#[derive(Clone, Copy, Debug, PartialEq, Eq, Structural, PartialOrd, Ord, Hash)]
pub struct CausalityRegion(pub i32);

/// Raw value of the globally-visible region.
pub const ONCHAIN_REGION: i32 = 0;

impl CausalityRegion {
    /// The globally-visible region.
    pub fn onchain() -> (r: CausalityRegion)
        ensures
            r.0 == ONCHAIN_REGION,
    {
        CausalityRegion(ONCHAIN_REGION)
    }

    /// Whether this is the globally-visible region.
    pub open spec fn spec_is_onchain(&self) -> bool {
        self.0 == ONCHAIN_REGION
    }

    /// Whether this is the globally-visible region.
    #[verifier::when_used_as_spec(spec_is_onchain)]
    pub fn is_onchain(&self) -> (r: bool)
        ensures
            r == self.spec_is_onchain(),
    {
        self.0 == ONCHAIN_REGION
    }

    /// A lookup running in region `lookup` may observe a record written in
    /// region `self` exactly when the two regions are the same, or when the
    /// record's region is the globally-visible one.
    pub open spec fn spec_visible_from(&self, lookup: CausalityRegion) -> bool {
        self.0 == lookup.0 || self.spec_is_onchain()
    }

    /// Whether a record written in this region may be observed by a lookup
    /// running in region `lookup`.
    #[verifier::when_used_as_spec(spec_visible_from)]
    pub fn visible_from(&self, lookup: CausalityRegion) -> (r: bool)
        ensures
            r == self.spec_visible_from(lookup),
    {
        self.0 == lookup.0 || self.is_onchain()
    }
}

} // verus!
