//! What is asked of the adapter at start-up, as sets of flags held in a word.

use vstd::prelude::*;

verus! {

/// Whether flag `bit` is up in `flags`.
pub open spec fn has_flag(flags: u64, bit: u64) -> bool
    recommends
        bit < 64,
{
    (flags >> bit) & 1 == 1
}

/// The features to ask a device for, and those that are wanted but not there.
#[derive(Clone, Copy, Debug, PartialEq, Eq, Structural)]
pub struct FeatureRequest {
    /// What the device is asked for.
    pub request: u64,
    /// What is required and the adapter does not offer.
    pub missing: u64,
}

impl FeatureRequest {
    /// Every required feature is on offer.
    pub open spec fn is_met(self) -> bool {
        self.missing == 0
    }

    /// Whether every required feature is on offer.
    pub fn met(&self) -> (met: bool)
        ensures
            met == self.is_met(),
    {
        self.missing == 0
    }
}

/// The request for features: every required one, on offer or not, and each
/// optional one that the adapter offers.
pub open spec fn feature_request(required: u64, optional: u64, available: u64) -> FeatureRequest {
    FeatureRequest { request: (optional & available) | required, missing: required & !available }
}

/// Works out which features to ask a device for. A required feature that is
/// not on offer stays in the request and is named as missing: that is
/// reported, and does not stop the start.
pub fn negotiate_features(
    required: u64,
    optional: u64,
    available: u64,
) -> (negotiated: FeatureRequest)
    ensures
        negotiated == feature_request(required, optional, available),
{
    FeatureRequest { request: (optional & available) | required, missing: required & !available }
}

/// The requested flags that are not among the available ones.
pub fn missing_flags(requested: u32, available: u32) -> (missing: u32)
    ensures
        missing == requested & !available,
        (missing == 0) == (requested & available == requested),
{
    let missing = requested & !available;
    assert((requested & !available == 0) == (requested & available == requested))
        by (bit_vector);
    missing
}

/// Flag by flag: a feature is asked for exactly if it is required, or
/// optional and on offer; it is missing exactly if it is required and not
/// on offer; and nothing is missing exactly if the offer holds all that is
/// required.
pub proof fn lemma_feature_request_by_flag(required: u64, optional: u64, available: u64, bit: u64)
    requires
        bit < 64,
    ensures
        has_flag(feature_request(required, optional, available).request, bit) == (has_flag(
            required,
            bit,
        ) || (has_flag(optional, bit) && has_flag(available, bit))),
        has_flag(feature_request(required, optional, available).missing, bit) == (has_flag(
            required,
            bit,
        ) && !has_flag(available, bit)),
        feature_request(required, optional, available).is_met() == (required & available
            == required),
{
    assert(bit < 64 ==> ((((optional & available) | required) >> bit) & 1 == 1) == (((required
        >> bit) & 1 == 1) || (((optional >> bit) & 1 == 1) && ((available >> bit) & 1 == 1))))
        by (bit_vector);
    assert(bit < 64 ==> (((required & !available) >> bit) & 1 == 1) == (((required >> bit) & 1
        == 1) && !((available >> bit) & 1 == 1))) by (bit_vector);
    assert((required & !available == 0) == (required & available == required)) by (bit_vector);
}

} // verus!
