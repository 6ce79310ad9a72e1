//! The quota engine: whether a proposed upload fits the ceilings of the
//! caller's tier, and what an admitted upload adds to the caller's counters.
//!
//! A count ceiling is the number of uploads of a kind a principal may hold:
//! an upload of that kind is admitted while the current count is below it.

use crate::principal::{User, UserView};
use crate::tier::{known_plan, lemma_unknown_plan_has_no_tier, resolve_tier, Ceilings, Tiers};
use vstd::prelude::*;
use vstd::string::*;

verus! {

/// The billing-relevant kind of an upload.
#[derive(Debug, Clone, Copy, PartialEq, Eq, Structural)]
pub enum UploadType {
    Normal,
    PasswordProtected,
    Private,
}

/// Why the quota engine turns an upload down.
#[derive(Debug, Clone, Copy, PartialEq, Eq, Structural)]
pub enum QuotaDenial {
    /// The principal has no tier, and so no entitlement.
    NoTier,
    /// The upload is larger than the tier allows for one upload.
    UploadTooBig,
    /// The upload would take the principal's storage over the tier's limit.
    NoStorageLeft,
    /// The tier allows no password-protected uploads at all.
    PasswordProtectionForbidden,
    /// The principal holds as many password-protected uploads as the tier allows.
    NoPasswordProtectedUploadsLeft,
    /// The principal holds as many private uploads as the tier allows.
    NoPrivateUploadsLeft,
}

impl QuotaDenial {
    /// The denial in words.
    pub open spec fn spec_message(self) -> Seq<char> {
        match self {
            QuotaDenial::NoTier => "No tier"@,
            QuotaDenial::UploadTooBig => "Upload too big"@,
            QuotaDenial::NoStorageLeft => "No storage left"@,
            QuotaDenial::PasswordProtectionForbidden =>
                "Free tier supports no password protected uploads"@,
            QuotaDenial::NoPasswordProtectedUploadsLeft => "No password protected uploads left"@,
            QuotaDenial::NoPrivateUploadsLeft => "No private uploads left"@,
        }
    }

    /// The denial in words.
    pub fn message(&self) -> (m: &'static str)
        ensures
            m@ == self.spec_message(),
    {
        match self {
            QuotaDenial::NoTier => "No tier",
            QuotaDenial::UploadTooBig => "Upload too big",
            QuotaDenial::NoStorageLeft => "No storage left",
            QuotaDenial::PasswordProtectionForbidden =>
                "Free tier supports no password protected uploads",
            QuotaDenial::NoPasswordProtectedUploadsLeft => "No password protected uploads left",
            QuotaDenial::NoPrivateUploadsLeft => "No private uploads left",
        }
    }
}

/// The kind of an upload for which `private` and `password` were asked. A
/// password that is not empty makes it password-protected, whatever else was
/// asked; without one, the visibility flag decides.
pub open spec fn classification(private: Option<bool>, password: Option<Seq<char>>) -> UploadType {
    if password is Some && password->0.len() > 0 {
        UploadType::PasswordProtected
    } else if private == Some(true) {
        UploadType::Private
    } else {
        UploadType::Normal
    }
}

/// Classifies a proposed upload from the visibility and the password that
/// were asked for it.
pub fn classify_upload(private: Option<bool>, password: Option<&str>) -> (kind: UploadType)
    ensures
        kind == classification(
            private,
            match password {
                Some(p) => Some(p@),
                None => None,
            },
        ),
{
    let protected = match password {
        Some(p) => !p.is_empty(),
        None => false,
    };
    if protected {
        UploadType::PasswordProtected
    } else {
        match private {
            Some(true) => UploadType::Private,
            _ => UploadType::Normal,
        }
    }
}

/// The verdict on an upload of `size` bytes and kind `upload_type` by a
/// principal with the given usage, held against the ceilings `c`: the size
/// first, then the storage, then the count of the kind.
pub open spec fn within_ceilings(
    c: Ceilings,
    user: UserView,
    size: int,
    upload_type: UploadType,
) -> Result<bool, QuotaDenial> {
    if size > c.max_upload_size {
        Err(QuotaDenial::UploadTooBig)
    } else if user.storage_used + size > c.max_storage {
        Err(QuotaDenial::NoStorageLeft)
    } else {
        match upload_type {
            UploadType::Normal => Ok(true),
            UploadType::PasswordProtected => if c.password_protected_uploads == 0 {
                Err(QuotaDenial::PasswordProtectionForbidden)
            } else if user.total_password_protected_uploads >= c.password_protected_uploads {
                Err(QuotaDenial::NoPasswordProtectedUploadsLeft)
            } else {
                Ok(true)
            },
            UploadType::Private => if user.total_private_uploads >= c.private_uploads {
                Err(QuotaDenial::NoPrivateUploadsLeft)
            } else {
                Ok(true)
            },
        }
    }
}

/// The verdict of the quota engine: a principal without a tier is denied,
/// any other is held against the ceilings of its tier.
pub open spec fn admission(user: UserView, size: int, upload_type: UploadType) -> Result<
    bool,
    QuotaDenial,
> {
    match user.current_tier {
        None => Err(QuotaDenial::NoTier),
        Some(tier) => within_ceilings(tier.spec_ceilings(), user, size, upload_type),
    }
}

/// Holds a proposed upload against the ceilings `c`.
pub fn check_ceilings(c: &Ceilings, user: &User, size: &u64, upload_type: &UploadType) -> (verdict:
    Result<bool, QuotaDenial>)
    ensures
        verdict == within_ceilings(*c, user@, *size as int, *upload_type),
{
    if *size > c.max_upload_size {
        return Err(QuotaDenial::UploadTooBig);
    }
    if user.storage_used as i128 + *size as i128 > c.max_storage as i128 {
        return Err(QuotaDenial::NoStorageLeft);
    }
    match upload_type {
        UploadType::Normal => Ok(true),
        UploadType::PasswordProtected => {
            if c.password_protected_uploads == 0 {
                Err(QuotaDenial::PasswordProtectionForbidden)
            } else if user.total_password_protected_uploads >= c.password_protected_uploads {
                Err(QuotaDenial::NoPasswordProtectedUploadsLeft)
            } else {
                Ok(true)
            }
        },
        UploadType::Private => {
            if user.total_private_uploads >= c.private_uploads {
                Err(QuotaDenial::NoPrivateUploadsLeft)
            } else {
                Ok(true)
            }
        },
    }
}

/// Holds a proposed upload against the ceilings of the base tier.
pub fn check_base(user: &User, size: &u64, upload_type: &UploadType) -> (verdict: Result<
    bool,
    QuotaDenial,
>)
    ensures
        verdict == within_ceilings(
            Tiers::BaseMonthly.spec_ceilings(),
            user@,
            *size as int,
            *upload_type,
        ),
{
    check_ceilings(&Tiers::BaseMonthly.ceilings(), user, size, upload_type)
}

/// Holds a proposed upload against the ceilings of the standard tier.
pub fn check_standard(user: &User, size: &u64, upload_type: &UploadType) -> (verdict: Result<
    bool,
    QuotaDenial,
>)
    ensures
        verdict == within_ceilings(
            Tiers::StandardMonthly.spec_ceilings(),
            user@,
            *size as int,
            *upload_type,
        ),
{
    check_ceilings(&Tiers::StandardMonthly.ceilings(), user, size, upload_type)
}

/// Holds a proposed upload against the ceilings of the plus tier.
pub fn check_plus(user: &User, size: &u64, upload_type: &UploadType) -> (verdict: Result<
    bool,
    QuotaDenial,
>)
    ensures
        verdict == within_ceilings(
            Tiers::PlusMonthly.spec_ceilings(),
            user@,
            *size as int,
            *upload_type,
        ),
{
    check_ceilings(&Tiers::PlusMonthly.ceilings(), user, size, upload_type)
}

/// Holds a proposed upload against the ceilings of the business tier.
pub fn check_business(user: &User, size: &u64, upload_type: &UploadType) -> (verdict: Result<
    bool,
    QuotaDenial,
>)
    ensures
        verdict == within_ceilings(
            Tiers::BusinessMonthly.spec_ceilings(),
            user@,
            *size as int,
            *upload_type,
        ),
{
    check_ceilings(&Tiers::BusinessMonthly.ceilings(), user, size, upload_type)
}

/// Decides whether `user` may upload `size` bytes of kind `upload_type`:
/// `Ok(true)` where the upload is admitted, the reason where it is not.
pub fn validate_upload_uses(user: &User, size: &u64, upload_type: &UploadType) -> (verdict:
    Result<bool, QuotaDenial>)
    ensures
        verdict == admission(user@, *size as int, *upload_type),
{
    match user.current_tier {
        None => Err(QuotaDenial::NoTier),
        Some(Tiers::Free) => check_ceilings(&Tiers::Free.ceilings(), user, size, upload_type),
        Some(Tiers::BaseMonthly) => check_base(user, size, upload_type),
        Some(Tiers::BaseYearly) => check_base(user, size, upload_type),
        Some(Tiers::StandardMonthly) => check_standard(user, size, upload_type),
        Some(Tiers::StandardYearly) => check_standard(user, size, upload_type),
        Some(Tiers::PlusMonthly) => check_plus(user, size, upload_type),
        Some(Tiers::PlusYearly) => check_plus(user, size, upload_type),
        Some(Tiers::BusinessMonthly) => check_business(user, size, upload_type),
        Some(Tiers::BusinessYearly) => check_business(user, size, upload_type),
    }
}

/// What an admitted upload adds to the counters of its owner.
#[derive(Debug, Clone, Copy, PartialEq, Eq, Structural)]
pub struct UsageDelta {
    /// Bytes added to the storage in use.
    pub storage: i32,
    /// Added to the count of uploads.
    pub uploads: i32,
    /// Added to the count of private uploads.
    pub private_uploads: i32,
    /// Added to the count of password-protected uploads.
    pub password_protected_uploads: i32,
}

/// What an upload of `size` bytes and kind `upload_type` adds: its size, one
/// upload, and one to the counter of its kind.
pub open spec fn usage_of(size: int, upload_type: UploadType) -> UsageDelta
    recommends
        0 <= size <= i32::MAX,
{
    UsageDelta {
        storage: size as i32,
        uploads: 1,
        private_uploads: if upload_type == UploadType::Private {
            1i32
        } else {
            0i32
        },
        password_protected_uploads: if upload_type == UploadType::PasswordProtected {
            1i32
        } else {
            0i32
        },
    }
}

impl UserView {
    /// The principal after `delta` was added to its counters.
    pub open spec fn charged(self, delta: UsageDelta) -> UserView {
        UserView {
            storage_used: self.storage_used + delta.storage,
            total_uploads: self.total_uploads + delta.uploads,
            total_private_uploads: self.total_private_uploads + delta.private_uploads,
            total_password_protected_uploads: self.total_password_protected_uploads
                + delta.password_protected_uploads,
            ..self
        }
    }

    /// Whether the counters, with `delta` added, are numbers the store can hold.
    pub open spec fn can_hold(self, delta: UsageDelta) -> bool {
        &&& i32::MIN <= self.storage_used + delta.storage <= i32::MAX
        &&& i32::MIN <= self.total_uploads + delta.uploads <= i32::MAX
        &&& i32::MIN <= self.total_private_uploads + delta.private_uploads <= i32::MAX
        &&& i32::MIN <= self.total_password_protected_uploads + delta.password_protected_uploads
            <= i32::MAX
    }
}

/// The counters an upload of `size` bytes and kind `upload_type` adds to. An
/// admitted upload is never larger than the store's counter can hold; a size
/// that is gives `None`.
pub fn usage_delta(size: u64, upload_type: &UploadType) -> (delta: Option<UsageDelta>)
    ensures
        delta == if size <= i32::MAX {
            Some(usage_of(size as int, *upload_type))
        } else {
            None
        },
{
    if size > 2_147_483_647 {
        return None;
    }
    Some(
        UsageDelta {
            storage: size as i32,
            uploads: 1,
            private_uploads: match upload_type {
                UploadType::Private => 1,
                _ => 0,
            },
            password_protected_uploads: match upload_type {
                UploadType::PasswordProtected => 1,
                _ => 0,
            },
        },
    )
}

impl User {
    /// Adds `delta` to the counters, all of them or none: where one of the
    /// sums is no number the store can hold, nothing changes and `false` is
    /// returned.
    pub fn charge(&mut self, delta: &UsageDelta) -> (charged: bool)
        ensures
            charged == old(self)@.can_hold(*delta),
            charged ==> final(self)@ == old(self)@.charged(*delta),
            !charged ==> *final(self) == *old(self),
    {
        let storage = self.storage_used.checked_add(delta.storage);
        let uploads = self.total_uploads.checked_add(delta.uploads);
        let private_uploads = self.total_private_uploads.checked_add(delta.private_uploads);
        let password_protected_uploads = self.total_password_protected_uploads.checked_add(
            delta.password_protected_uploads,
        );
        match (storage, uploads, private_uploads, password_protected_uploads) {
            (Some(s), Some(u), Some(p), Some(w)) => {
                self.storage_used = s;
                self.total_uploads = u;
                self.total_private_uploads = p;
                self.total_password_protected_uploads = w;
                true
            },
            _ => false,
        }
    }
}

/// A principal without a tier is denied every upload, whatever its size and
/// kind.
pub proof fn lemma_no_tier_no_upload(user: UserView, size: int, upload_type: UploadType)
    requires
        user.current_tier is None,
    ensures
        admission(user, size, upload_type) == Err::<bool, QuotaDenial>(QuotaDenial::NoTier),
{
}

/// A plan identifier outside the fixed table gives no tier, and a principal
/// whose stored plan is such an identifier, or none at all, is denied every
/// upload, whatever its size and kind.
pub proof fn lemma_unknown_plan_uploads_nothing(
    plan: Option<Seq<char>>,
    user: UserView,
    size: int,
    upload_type: UploadType,
)
    requires
        plan is Some ==> !known_plan(plan->0),
        user.current_tier == resolve_tier(plan),
    ensures
        resolve_tier(plan) is None,
        admission(user, size, upload_type) == Err::<bool, QuotaDenial>(QuotaDenial::NoTier),
{
    if plan is Some {
        lemma_unknown_plan_has_no_tier(plan->0);
    }
}

/// A principal on the free tier is denied every password-protected upload,
/// whatever its size and however much storage is left.
pub proof fn lemma_free_tier_forbids_passwords(user: UserView, size: int)
    requires
        user.current_tier == Some(Tiers::Free),
    ensures
        admission(user, size, UploadType::PasswordProtected) is Err,
{
}

/// The size ceiling is inclusive: with storage to spare, an upload of kind
/// `Normal` is admitted exactly up to the largest size of the tier.
pub proof fn lemma_size_boundary(user: UserView, tier: Tiers, size: int)
    requires
        user.current_tier == Some(tier),
        user.storage_used + size <= tier.spec_ceilings().max_storage,
    ensures
        admission(user, size, UploadType::Normal) is Ok <==> size
            <= tier.spec_ceilings().max_upload_size,
        size > tier.spec_ceilings().max_upload_size ==> admission(user, size, UploadType::Normal)
            == Err::<bool, QuotaDenial>(QuotaDenial::UploadTooBig),
{
}

/// A higher tier is never stricter: what the ceilings of a tier admit, those
/// of every tier of the same or a higher rank admit too.
pub proof fn lemma_higher_tier_admits_more(
    user: UserView,
    lower: Tiers,
    higher: Tiers,
    size: int,
    upload_type: UploadType,
)
    requires
        lower.rank() <= higher.rank(),
        within_ceilings(lower.spec_ceilings(), user, size, upload_type) is Ok,
    ensures
        within_ceilings(higher.spec_ceilings(), user, size, upload_type) is Ok,
{
}

/// An admitted upload fits the store's counter, and leaves the counters of
/// its kind within the ceilings of the tier.
pub proof fn lemma_admitted_upload_stays_within_ceilings(
    user: UserView,
    tier: Tiers,
    size: int,
    upload_type: UploadType,
)
    requires
        user.current_tier == Some(tier),
        0 <= size,
        admission(user, size, upload_type) is Ok,
    ensures
        size <= i32::MAX,
        usage_of(size, upload_type).storage == size,
        user.charged(usage_of(size, upload_type)).storage_used
            <= tier.spec_ceilings().max_storage,
        upload_type == UploadType::Private ==> user.charged(
            usage_of(size, upload_type),
        ).total_private_uploads <= tier.spec_ceilings().private_uploads,
        upload_type == UploadType::PasswordProtected ==> user.charged(
            usage_of(size, upload_type),
        ).total_password_protected_uploads <= tier.spec_ceilings().password_protected_uploads,
{
}

} // verus!
