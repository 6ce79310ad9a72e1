//! The tier catalog: subscription tiers, their ceilings, and the fixed table
//! that maps a billing-plan identifier to a tier.

use vstd::prelude::*;
use vstd::string::*;

verus! {

/// A subscription tier. `Free` is the lowest; the monthly and the yearly
/// variant of a paid tier grant the same entitlement.
#[derive(Debug, Clone, Copy, PartialEq, Eq, Structural)]
pub enum Tiers {
    Free,
    BusinessYearly,
    BusinessMonthly,
    PlusYearly,
    PlusMonthly,
    StandardYearly,
    StandardMonthly,
    BaseYearly,
    BaseMonthly,
}

/// The four ceilings of a tier.
#[derive(Debug, Clone, Copy, PartialEq, Eq, Structural)]
pub struct Ceilings {
    /// Largest single upload, in bytes.
    pub max_upload_size: u64,
    /// Largest aggregate storage, in bytes.
    pub max_storage: u64,
    /// How many private uploads a principal may hold.
    pub private_uploads: i32,
    /// How many password-protected uploads a principal may hold; 0 forbids them.
    pub password_protected_uploads: i32,
}

/// Plan identifier of the free tier.
pub const PLAN_FREE: &'static str = "price_1Ori8qEbfEExjZVcPTUzocfV";

/// Plan identifier of the business tier, billed yearly.
pub const PLAN_BUSINESS_YEARLY: &'static str = "price_1Orhy2EbfEExjZVcAuLQCTeP";

/// Plan identifier of the business tier, billed monthly.
pub const PLAN_BUSINESS_MONTHLY: &'static str = "price_1OrhxMEbfEExjZVcwSbRQhPS";

/// Plan identifier of the plus tier, billed yearly.
pub const PLAN_PLUS_YEARLY: &'static str = "price_1OrhwgEbfEExjZVcQOgZQZ2B";

/// Plan identifier of the plus tier, billed monthly.
pub const PLAN_PLUS_MONTHLY: &'static str = "price_1Orhs5EbfEExjZVcLPTo1voo";

/// Plan identifier of the standard tier, billed yearly.
pub const PLAN_STANDARD_YEARLY: &'static str = "price_1OrhvfEbfEExjZVc128jvppy";

/// Plan identifier of the standard tier, billed monthly.
pub const PLAN_STANDARD_MONTHLY: &'static str = "price_1Orhr6EbfEExjZVcIFD0JrvY";

/// Plan identifier of the base tier, billed yearly.
pub const PLAN_BASE_YEARLY: &'static str = "price_1OrhtzEbfEExjZVcaK8HD69C";

/// Plan identifier of the base tier, billed monthly.
pub const PLAN_BASE_MONTHLY: &'static str = "price_1OrhocEbfEExjZVcHIiMYvwk";

impl Tiers {
    /// The position of the tier in the catalog: `Free` is 0, `BaseMonthly` 1,
    /// and so on up to `BusinessYearly`, 8.
    pub open spec fn spec_level(self) -> int {
        match self {
            Tiers::Free => 0,
            Tiers::BaseMonthly => 1,
            Tiers::BaseYearly => 2,
            Tiers::StandardMonthly => 3,
            Tiers::StandardYearly => 4,
            Tiers::PlusMonthly => 5,
            Tiers::PlusYearly => 6,
            Tiers::BusinessMonthly => 7,
            Tiers::BusinessYearly => 8,
        }
    }

    /// The rank of the tier in the entitlement order. The billing period does
    /// not count: both variants of a paid tier have one rank.
    pub open spec fn rank(self) -> int {
        match self {
            Tiers::Free => 0,
            Tiers::BaseMonthly | Tiers::BaseYearly => 1,
            Tiers::StandardMonthly | Tiers::StandardYearly => 2,
            Tiers::PlusMonthly | Tiers::PlusYearly => 3,
            Tiers::BusinessMonthly | Tiers::BusinessYearly => 4,
        }
    }

    /// The ceilings of the tier.
    pub open spec fn spec_ceilings(self) -> Ceilings {
        match self {
            Tiers::Free => Ceilings {
                max_upload_size: 5_000_000,
                max_storage: 1_000_000_000,
                private_uploads: 25,
                password_protected_uploads: 0,
            },
            Tiers::BaseMonthly | Tiers::BaseYearly => Ceilings {
                max_upload_size: 20_000_000,
                max_storage: 5_000_000_000,
                private_uploads: 50,
                password_protected_uploads: 25,
            },
            Tiers::StandardMonthly | Tiers::StandardYearly => Ceilings {
                max_upload_size: 50_000_000,
                max_storage: 15_000_000_000,
                private_uploads: 100,
                password_protected_uploads: 50,
            },
            Tiers::PlusMonthly | Tiers::PlusYearly => Ceilings {
                max_upload_size: 100_000_000,
                max_storage: 25_000_000_000,
                private_uploads: 250,
                password_protected_uploads: 200,
            },
            Tiers::BusinessMonthly | Tiers::BusinessYearly => Ceilings {
                max_upload_size: 500_000_000,
                max_storage: 50_000_000_000,
                private_uploads: 1000,
                password_protected_uploads: 700,
            },
        }
    }

    /// The position of the tier in the catalog, as a number.
    pub fn level(&self) -> (l: i32)
        ensures
            l == self.spec_level(),
    {
        match self {
            Tiers::Free => 0,
            Tiers::BaseMonthly => 1,
            Tiers::BaseYearly => 2,
            Tiers::StandardMonthly => 3,
            Tiers::StandardYearly => 4,
            Tiers::PlusMonthly => 5,
            Tiers::PlusYearly => 6,
            Tiers::BusinessMonthly => 7,
            Tiers::BusinessYearly => 8,
        }
    }

    /// Looks up the ceilings of the tier.
    pub fn ceilings(&self) -> (c: Ceilings)
        ensures
            c == self.spec_ceilings(),
    {
        match self {
            Tiers::Free => Ceilings {
                max_upload_size: 5_000_000,
                max_storage: 1_000_000_000,
                private_uploads: 25,
                password_protected_uploads: 0,
            },
            Tiers::BaseMonthly | Tiers::BaseYearly => Ceilings {
                max_upload_size: 20_000_000,
                max_storage: 5_000_000_000,
                private_uploads: 50,
                password_protected_uploads: 25,
            },
            Tiers::StandardMonthly | Tiers::StandardYearly => Ceilings {
                max_upload_size: 50_000_000,
                max_storage: 15_000_000_000,
                private_uploads: 100,
                password_protected_uploads: 50,
            },
            Tiers::PlusMonthly | Tiers::PlusYearly => Ceilings {
                max_upload_size: 100_000_000,
                max_storage: 25_000_000_000,
                private_uploads: 250,
                password_protected_uploads: 200,
            },
            Tiers::BusinessMonthly | Tiers::BusinessYearly => Ceilings {
                max_upload_size: 500_000_000,
                max_storage: 50_000_000_000,
                private_uploads: 1000,
                password_protected_uploads: 700,
            },
        }
    }

    /// The plan identifier under which the tier is billed.
    pub open spec fn spec_plan(self) -> Seq<char> {
        match self {
            Tiers::Free => PLAN_FREE@,
            Tiers::BusinessYearly => PLAN_BUSINESS_YEARLY@,
            Tiers::BusinessMonthly => PLAN_BUSINESS_MONTHLY@,
            Tiers::PlusYearly => PLAN_PLUS_YEARLY@,
            Tiers::PlusMonthly => PLAN_PLUS_MONTHLY@,
            Tiers::StandardYearly => PLAN_STANDARD_YEARLY@,
            Tiers::StandardMonthly => PLAN_STANDARD_MONTHLY@,
            Tiers::BaseYearly => PLAN_BASE_YEARLY@,
            Tiers::BaseMonthly => PLAN_BASE_MONTHLY@,
        }
    }
}

/// Whether `id` is one of the plan identifiers of the fixed table.
pub open spec fn known_plan(id: Seq<char>) -> bool {
    exists|t: Tiers| id == #[trigger] t.spec_plan()
}

/// The tier a plan identifier stands for, `None` for one that is not in the
/// table.
pub open spec fn plan_tier(id: Seq<char>) -> Option<Tiers> {
    if id == PLAN_FREE@ {
        Some(Tiers::Free)
    } else if id == PLAN_BUSINESS_YEARLY@ {
        Some(Tiers::BusinessYearly)
    } else if id == PLAN_BUSINESS_MONTHLY@ {
        Some(Tiers::BusinessMonthly)
    } else if id == PLAN_PLUS_YEARLY@ {
        Some(Tiers::PlusYearly)
    } else if id == PLAN_PLUS_MONTHLY@ {
        Some(Tiers::PlusMonthly)
    } else if id == PLAN_STANDARD_YEARLY@ {
        Some(Tiers::StandardYearly)
    } else if id == PLAN_STANDARD_MONTHLY@ {
        Some(Tiers::StandardMonthly)
    } else if id == PLAN_BASE_YEARLY@ {
        Some(Tiers::BaseYearly)
    } else if id == PLAN_BASE_MONTHLY@ {
        Some(Tiers::BaseMonthly)
    } else {
        None
    }
}

/// The tier of a principal whose stored plan identifier is `price_id`: an
/// absent identifier gives no tier, and so does an unknown one.
pub open spec fn resolve_tier(price_id: Option<Seq<char>>) -> Option<Tiers> {
    match price_id {
        Some(id) => plan_tier(id),
        None => None,
    }
}

/// Resolves a billing-plan identifier to its tier. An absent or unknown
/// identifier resolves to no tier, which callers treat as no entitlement.
pub fn priceid_mapping(price_id: Option<String>) -> (tier: Option<Tiers>)
    ensures
        tier == resolve_tier(
            match price_id {
                Some(id) => Some(id@),
                None => None,
            },
        ),
{
    match price_id {
        None => None,
        Some(id) => {
            if id == String::from_str(PLAN_FREE) {
                Some(Tiers::Free)
            } else if id == String::from_str(PLAN_BUSINESS_YEARLY) {
                Some(Tiers::BusinessYearly)
            } else if id == String::from_str(PLAN_BUSINESS_MONTHLY) {
                Some(Tiers::BusinessMonthly)
            } else if id == String::from_str(PLAN_PLUS_YEARLY) {
                Some(Tiers::PlusYearly)
            } else if id == String::from_str(PLAN_PLUS_MONTHLY) {
                Some(Tiers::PlusMonthly)
            } else if id == String::from_str(PLAN_STANDARD_YEARLY) {
                Some(Tiers::StandardYearly)
            } else if id == String::from_str(PLAN_STANDARD_MONTHLY) {
                Some(Tiers::StandardMonthly)
            } else if id == String::from_str(PLAN_BASE_YEARLY) {
                Some(Tiers::BaseYearly)
            } else if id == String::from_str(PLAN_BASE_MONTHLY) {
                Some(Tiers::BaseMonthly)
            } else {
                None
            }
        },
    }
}

/// A higher tier is never stricter: each of the four ceilings is monotonically
/// non-decreasing in the tier's rank.
pub proof fn lemma_ceilings_monotonic(lower: Tiers, higher: Tiers)
    requires
        lower.rank() <= higher.rank(),
    ensures
        lower.spec_ceilings().max_upload_size <= higher.spec_ceilings().max_upload_size,
        lower.spec_ceilings().max_storage <= higher.spec_ceilings().max_storage,
        lower.spec_ceilings().private_uploads <= higher.spec_ceilings().private_uploads,
        lower.spec_ceilings().password_protected_uploads
            <= higher.spec_ceilings().password_protected_uploads,
{
}

/// The billing period does not affect entitlement: tiers of one rank have the
/// same ceilings.
pub proof fn lemma_billing_period_is_irrelevant(a: Tiers, b: Tiers)
    requires
        a.rank() == b.rank(),
    ensures
        a.spec_ceilings() == b.spec_ceilings(),
{
}

/// The plan identifiers of the table are pairwise distinct, so that each
/// resolves to the tier it is billed under.
pub proof fn lemma_plan_resolves_to_its_tier(tier: Tiers)
    ensures
        plan_tier(tier.spec_plan()) == Some(tier),
{
    reveal_strlit("price_1Ori8qEbfEExjZVcPTUzocfV");
    reveal_strlit("price_1Orhy2EbfEExjZVcAuLQCTeP");
    reveal_strlit("price_1OrhxMEbfEExjZVcwSbRQhPS");
    reveal_strlit("price_1OrhwgEbfEExjZVcQOgZQZ2B");
    reveal_strlit("price_1Orhs5EbfEExjZVcLPTo1voo");
    reveal_strlit("price_1OrhvfEbfEExjZVc128jvppy");
    reveal_strlit("price_1Orhr6EbfEExjZVcIFD0JrvY");
    reveal_strlit("price_1OrhtzEbfEExjZVcaK8HD69C");
    reveal_strlit("price_1OrhocEbfEExjZVcHIiMYvwk");
    // The identifiers share their first nine characters and differ pairwise
    // within the next two.
    assert(PLAN_FREE@[9] == 'i');
    assert(PLAN_BUSINESS_YEARLY@[9] == 'h' && PLAN_BUSINESS_YEARLY@[10] == 'y');
    assert(PLAN_BUSINESS_MONTHLY@[9] == 'h' && PLAN_BUSINESS_MONTHLY@[10] == 'x');
    assert(PLAN_PLUS_YEARLY@[9] == 'h' && PLAN_PLUS_YEARLY@[10] == 'w');
    assert(PLAN_PLUS_MONTHLY@[9] == 'h' && PLAN_PLUS_MONTHLY@[10] == 's');
    assert(PLAN_STANDARD_YEARLY@[9] == 'h' && PLAN_STANDARD_YEARLY@[10] == 'v');
    assert(PLAN_STANDARD_MONTHLY@[9] == 'h' && PLAN_STANDARD_MONTHLY@[10] == 'r');
    assert(PLAN_BASE_YEARLY@[9] == 'h' && PLAN_BASE_YEARLY@[10] == 't');
    assert(PLAN_BASE_MONTHLY@[9] == 'h' && PLAN_BASE_MONTHLY@[10] == 'o');
}

/// An identifier outside the fixed table resolves to no tier, and only such
/// an identifier does.
pub proof fn lemma_unknown_plan_has_no_tier(id: Seq<char>)
    ensures
        plan_tier(id) is None <==> !known_plan(id),
{
    if plan_tier(id) is Some {
        let t = plan_tier(id)->0;
        assert(id == t.spec_plan());
    } else {
        assert forall|t: Tiers| id != #[trigger] t.spec_plan() by {}
    }
}

} // verus!
