use sparkcloud::principal::User;
use sparkcloud::quota::{
    check_base, check_business, check_ceilings, check_plus, check_standard, classify_upload,
    usage_delta, validate_upload_uses, QuotaDenial, UploadType, UsageDelta,
};
use sparkcloud::tier::{priceid_mapping, Tiers};

fn user_on(tier: Option<Tiers>) -> User {
    User {
        id: "user-1".to_string(),
        auth: None,
        username: "ada".to_string(),
        permission_level: 0,
        display_name: "Ada".to_string(),
        email: "ada@example.org".to_string(),
        total_views: 0,
        total_uploads: 0,
        total_private_uploads: 0,
        total_password_protected_uploads: 0,
        storage_used: 0,
        ip: None,
        stripe_id: None,
        current_tier: tier,
    }
}

#[test]
fn free_tier_admits_five_megabytes_and_not_a_byte_more() {
    let user = user_on(Some(Tiers::Free));
    assert_eq!(validate_upload_uses(&user, &5_000_000, &UploadType::Normal), Ok(true));
    assert_eq!(
        validate_upload_uses(&user, &5_000_001, &UploadType::Normal),
        Err(QuotaDenial::UploadTooBig)
    );
}

#[test]
fn size_boundary_of_every_paid_tier() {
    let ceilings = [
        (Tiers::BaseMonthly, 20_000_000u64),
        (Tiers::BaseYearly, 20_000_000),
        (Tiers::StandardMonthly, 50_000_000),
        (Tiers::StandardYearly, 50_000_000),
        (Tiers::PlusMonthly, 100_000_000),
        (Tiers::PlusYearly, 100_000_000),
        (Tiers::BusinessMonthly, 500_000_000),
        (Tiers::BusinessYearly, 500_000_000),
    ];
    for (tier, largest) in ceilings {
        let user = user_on(Some(tier));
        assert_eq!(validate_upload_uses(&user, &largest, &UploadType::Normal), Ok(true));
        assert_eq!(
            validate_upload_uses(&user, &(largest + 1), &UploadType::Normal),
            Err(QuotaDenial::UploadTooBig)
        );
    }
}

#[test]
fn no_tier_is_denied_every_upload() {
    let user = user_on(None);
    for size in [0u64, 1, 5_000_000, u64::MAX] {
        for kind in [UploadType::Normal, UploadType::Private, UploadType::PasswordProtected] {
            assert_eq!(validate_upload_uses(&user, &size, &kind), Err(QuotaDenial::NoTier));
        }
    }
}

#[test]
fn unknown_plan_means_no_entitlement() {
    let user = user_on(priceid_mapping(Some("price_not_in_the_table".to_string())));
    assert_eq!(user.current_tier, None);
    assert_eq!(validate_upload_uses(&user, &1, &UploadType::Normal), Err(QuotaDenial::NoTier));
}

#[test]
fn free_tier_never_admits_a_password_protected_upload() {
    let mut user = user_on(Some(Tiers::Free));
    assert_eq!(
        validate_upload_uses(&user, &1, &UploadType::PasswordProtected),
        Err(QuotaDenial::PasswordProtectionForbidden)
    );
    assert_eq!(
        validate_upload_uses(&user, &0, &UploadType::PasswordProtected),
        Err(QuotaDenial::PasswordProtectionForbidden)
    );
    assert!(validate_upload_uses(&user, &6_000_000, &UploadType::PasswordProtected).is_err());
    user.storage_used = 999_999_999;
    assert!(validate_upload_uses(&user, &2, &UploadType::PasswordProtected).is_err());
    user.storage_used = 0;
    user.total_password_protected_uploads = -5;
    assert!(validate_upload_uses(&user, &1, &UploadType::PasswordProtected).is_err());
}

#[test]
fn storage_ceiling_is_inclusive() {
    let mut user = user_on(Some(Tiers::Free));
    user.storage_used = 999_999_000;
    assert_eq!(validate_upload_uses(&user, &1_000, &UploadType::Normal), Ok(true));
    assert_eq!(
        validate_upload_uses(&user, &1_001, &UploadType::Normal),
        Err(QuotaDenial::NoStorageLeft)
    );
}

#[test]
fn size_is_judged_before_storage() {
    let mut user = user_on(Some(Tiers::Free));
    user.storage_used = 1_000_000_000;
    assert_eq!(
        validate_upload_uses(&user, &5_000_001, &UploadType::Normal),
        Err(QuotaDenial::UploadTooBig)
    );
    assert_eq!(
        validate_upload_uses(&user, &1, &UploadType::Normal),
        Err(QuotaDenial::NoStorageLeft)
    );
    assert_eq!(validate_upload_uses(&user, &0, &UploadType::Normal), Ok(true));
}

#[test]
fn private_ceiling_counts_uploads_held() {
    let ceilings = [
        (Tiers::Free, 25),
        (Tiers::BaseMonthly, 50),
        (Tiers::StandardYearly, 100),
        (Tiers::PlusMonthly, 250),
        (Tiers::BusinessYearly, 1000),
    ];
    for (tier, ceiling) in ceilings {
        let mut user = user_on(Some(tier));
        user.total_private_uploads = ceiling - 1;
        assert_eq!(validate_upload_uses(&user, &1, &UploadType::Private), Ok(true));
        user.total_private_uploads = ceiling;
        assert_eq!(
            validate_upload_uses(&user, &1, &UploadType::Private),
            Err(QuotaDenial::NoPrivateUploadsLeft)
        );
        assert_eq!(validate_upload_uses(&user, &1, &UploadType::Normal), Ok(true));
    }
}

#[test]
fn password_ceiling_counts_uploads_held() {
    let ceilings = [
        (Tiers::BaseYearly, 25),
        (Tiers::StandardMonthly, 50),
        (Tiers::PlusYearly, 200),
        (Tiers::BusinessMonthly, 700),
    ];
    for (tier, ceiling) in ceilings {
        let mut user = user_on(Some(tier));
        user.total_password_protected_uploads = ceiling - 1;
        assert_eq!(validate_upload_uses(&user, &1, &UploadType::PasswordProtected), Ok(true));
        user.total_password_protected_uploads = ceiling;
        assert_eq!(
            validate_upload_uses(&user, &1, &UploadType::PasswordProtected),
            Err(QuotaDenial::NoPasswordProtectedUploadsLeft)
        );
        user.total_private_uploads = 0;
        assert_eq!(validate_upload_uses(&user, &1, &UploadType::Private), Ok(true));
    }
}

#[test]
fn tier_checks_use_their_own_ceilings() {
    let user = user_on(None);
    assert_eq!(check_base(&user, &20_000_000, &UploadType::Normal), Ok(true));
    assert_eq!(check_base(&user, &20_000_001, &UploadType::Normal), Err(QuotaDenial::UploadTooBig));
    assert_eq!(check_standard(&user, &50_000_000, &UploadType::Normal), Ok(true));
    assert_eq!(
        check_standard(&user, &50_000_001, &UploadType::Normal),
        Err(QuotaDenial::UploadTooBig)
    );
    assert_eq!(check_plus(&user, &100_000_000, &UploadType::Normal), Ok(true));
    assert_eq!(check_plus(&user, &100_000_001, &UploadType::Normal), Err(QuotaDenial::UploadTooBig));
    assert_eq!(check_business(&user, &500_000_000, &UploadType::Normal), Ok(true));
    assert_eq!(
        check_business(&user, &500_000_001, &UploadType::Normal),
        Err(QuotaDenial::UploadTooBig)
    );
    assert_eq!(
        check_ceilings(&Tiers::Free.ceilings(), &user, &1, &UploadType::PasswordProtected),
        Err(QuotaDenial::PasswordProtectionForbidden)
    );
}

#[test]
fn a_negative_storage_counter_is_taken_as_it_stands() {
    let mut user = user_on(Some(Tiers::Free));
    user.storage_used = -10;
    assert_eq!(validate_upload_uses(&user, &5_000_000, &UploadType::Normal), Ok(true));
}

#[test]
fn classification_prefers_the_password() {
    assert_eq!(classify_upload(None, None), UploadType::Normal);
    assert_eq!(classify_upload(Some(false), None), UploadType::Normal);
    assert_eq!(classify_upload(Some(true), None), UploadType::Private);
    assert_eq!(classify_upload(Some(true), Some("")), UploadType::Private);
    assert_eq!(classify_upload(None, Some("")), UploadType::Normal);
    assert_eq!(classify_upload(None, Some("secret")), UploadType::PasswordProtected);
    assert_eq!(classify_upload(Some(true), Some("secret")), UploadType::PasswordProtected);
    assert_eq!(classify_upload(Some(false), Some("s")), UploadType::PasswordProtected);
}

#[test]
fn denials_read_as_messages() {
    assert_eq!(QuotaDenial::NoTier.message(), "No tier");
    assert_eq!(QuotaDenial::UploadTooBig.message(), "Upload too big");
    assert_eq!(QuotaDenial::NoStorageLeft.message(), "No storage left");
    assert_eq!(
        QuotaDenial::PasswordProtectionForbidden.message(),
        "Free tier supports no password protected uploads"
    );
    assert_eq!(
        QuotaDenial::NoPasswordProtectedUploadsLeft.message(),
        "No password protected uploads left"
    );
    assert_eq!(QuotaDenial::NoPrivateUploadsLeft.message(), "No private uploads left");
}

#[test]
fn usage_of_an_upload_goes_to_one_bucket() {
    assert_eq!(
        usage_delta(1234, &UploadType::Normal),
        Some(UsageDelta { storage: 1234, uploads: 1, private_uploads: 0, password_protected_uploads: 0 })
    );
    assert_eq!(
        usage_delta(7, &UploadType::Private),
        Some(UsageDelta { storage: 7, uploads: 1, private_uploads: 1, password_protected_uploads: 0 })
    );
    assert_eq!(
        usage_delta(0, &UploadType::PasswordProtected),
        Some(UsageDelta { storage: 0, uploads: 1, private_uploads: 0, password_protected_uploads: 1 })
    );
    assert_eq!(
        usage_delta(2_147_483_647, &UploadType::Normal).map(|d| d.storage),
        Some(i32::MAX)
    );
    assert_eq!(usage_delta(2_147_483_648, &UploadType::Normal), None);
}

#[test]
fn charging_adds_all_or_nothing() {
    let mut user = user_on(Some(Tiers::Free));
    user.storage_used = 100;
    user.total_uploads = 3;
    let delta = usage_delta(50, &UploadType::Private).unwrap();
    assert!(user.charge(&delta));
    assert_eq!(user.storage_used, 150);
    assert_eq!(user.total_uploads, 4);
    assert_eq!(user.total_private_uploads, 1);
    assert_eq!(user.total_password_protected_uploads, 0);

    user.total_uploads = i32::MAX;
    assert!(!user.charge(&delta));
    assert_eq!(user.storage_used, 150);
    assert_eq!(user.total_uploads, i32::MAX);
    assert_eq!(user.total_private_uploads, 1);
}
