//! Feature flags: switches that the store keeps, by name.

use crate::text::text_eq;
use vstd::prelude::*;

verus! {

/// A switch and who set it last.
#[derive(Debug)]
pub struct FeatureFlag {
    pub feature: String,
    pub enabled: bool,
    /// When the switch was last set, in seconds since the Unix epoch.
    pub updated_at: i64,
    pub updated_by: String,
}

/// The switches as they were read from the store.
#[derive(Debug)]
pub struct FeatureFlagController {
    pub feature_flags: Vec<FeatureFlag>,
}

/// Whether `at` is the position of the first of `flags` that is named
/// `feature`.
pub open spec fn first_named(flags: Seq<FeatureFlag>, feature: Seq<char>, at: int) -> bool {
    &&& 0 <= at < flags.len()
    &&& flags[at].feature@ == feature
    &&& forall|j: int| 0 <= j < at ==> flags[j].feature@ != feature
}

/// Whether the feature is known and switched on.
pub open spec fn switched_on(flags: Seq<FeatureFlag>, feature: Seq<char>) -> bool {
    exists|at: int| first_named(flags, feature, at) && flags[at].enabled
}

impl FeatureFlagController {
    /// The controller of the switches that were read from the store.
    pub fn new(feature_flags: Vec<FeatureFlag>) -> (controller: FeatureFlagController)
        ensures
            controller.feature_flags == feature_flags,
    {
        FeatureFlagController { feature_flags }
    }

    /// The first switch of the given name, if there is one.
    pub fn get_feature_flag(&self, feature: &str) -> (found: Option<&FeatureFlag>)
        ensures
            match found {
                Some(flag) => exists|at: int|
                    first_named(self.feature_flags@, feature@, at) && *flag
                        == self.feature_flags@[at],
                None => forall|j: int|
                    0 <= j < self.feature_flags@.len() ==> (#[trigger] self.feature_flags@[j]).feature@
                        != feature@,
            },
    {
        let mut i: usize = 0;
        while i < self.feature_flags.len()
            invariant
                i <= self.feature_flags@.len(),
                forall|j: int| 0 <= j < i ==> (#[trigger] self.feature_flags@[j]).feature@ != feature@,
            decreases self.feature_flags@.len() - i,
        {
            if text_eq(self.feature_flags[i].feature.as_str(), feature) {
                assert(first_named(self.feature_flags@, feature@, i as int));
                return Some(&self.feature_flags[i]);
            }
            i = i + 1;
        }
        None
    }

    /// Whether the feature is known and switched on. An unknown feature is
    /// off.
    pub fn is_enabled(&self, feature: &str) -> (enabled: bool)
        ensures
            enabled == switched_on(self.feature_flags@, feature@),
    {
        match self.get_feature_flag(feature) {
            Some(flag) => {
                proof {
                    let at = choose|at: int|
                        first_named(self.feature_flags@, feature@, at) && *flag
                            == self.feature_flags@[at];
                    assert(first_named(self.feature_flags@, feature@, at));
                    assert forall|other: int|
                        first_named(self.feature_flags@, feature@, other) implies other == at by {}
                }
                flag.enabled
            },
            None => false,
        }
    }
}

} // verus!
