use sparkcloud::tier::{priceid_mapping, Tiers};

#[test]
fn free_plan_resolves_to_free_tier() {
    let tier = priceid_mapping(Some("price_1Ori8qEbfEExjZVcPTUzocfV".to_string()));
    assert_eq!(tier, Some(Tiers::Free));
}

#[test]
fn every_plan_of_the_table_resolves_to_its_tier() {
    let table = [
        ("price_1Ori8qEbfEExjZVcPTUzocfV", Tiers::Free),
        ("price_1Orhy2EbfEExjZVcAuLQCTeP", Tiers::BusinessYearly),
        ("price_1OrhxMEbfEExjZVcwSbRQhPS", Tiers::BusinessMonthly),
        ("price_1OrhwgEbfEExjZVcQOgZQZ2B", Tiers::PlusYearly),
        ("price_1Orhs5EbfEExjZVcLPTo1voo", Tiers::PlusMonthly),
        ("price_1OrhvfEbfEExjZVc128jvppy", Tiers::StandardYearly),
        ("price_1Orhr6EbfEExjZVcIFD0JrvY", Tiers::StandardMonthly),
        ("price_1OrhtzEbfEExjZVcaK8HD69C", Tiers::BaseYearly),
        ("price_1OrhocEbfEExjZVcHIiMYvwk", Tiers::BaseMonthly),
    ];
    for (plan, tier) in table {
        assert_eq!(priceid_mapping(Some(plan.to_string())), Some(tier));
    }
}

#[test]
fn unknown_and_absent_plans_resolve_to_no_tier() {
    assert_eq!(priceid_mapping(None), None);
    assert_eq!(priceid_mapping(Some(String::new())), None);
    assert_eq!(priceid_mapping(Some("price_unknown".to_string())), None);
    assert_eq!(priceid_mapping(Some("price_1Ori8qEbfEExjZVcPTUzocfV ".to_string())), None);
    assert_eq!(priceid_mapping(Some("PRICE_1ORI8QEBFEEXJZVCPTUZOCFV".to_string())), None);
}

#[test]
fn levels_follow_the_catalog() {
    assert_eq!(Tiers::Free.level(), 0);
    assert_eq!(Tiers::BaseMonthly.level(), 1);
    assert_eq!(Tiers::BaseYearly.level(), 2);
    assert_eq!(Tiers::StandardMonthly.level(), 3);
    assert_eq!(Tiers::StandardYearly.level(), 4);
    assert_eq!(Tiers::PlusMonthly.level(), 5);
    assert_eq!(Tiers::PlusYearly.level(), 6);
    assert_eq!(Tiers::BusinessMonthly.level(), 7);
    assert_eq!(Tiers::BusinessYearly.level(), 8);
}

#[test]
fn ceilings_match_the_table() {
    let free = Tiers::Free.ceilings();
    assert_eq!(free.max_upload_size, 5_000_000);
    assert_eq!(free.max_storage, 1_000_000_000);
    assert_eq!(free.private_uploads, 25);
    assert_eq!(free.password_protected_uploads, 0);
    let base = Tiers::BaseYearly.ceilings();
    assert_eq!(base.max_upload_size, 20_000_000);
    assert_eq!(base.max_storage, 5_000_000_000);
    assert_eq!(base.private_uploads, 50);
    assert_eq!(base.password_protected_uploads, 25);
    let standard = Tiers::StandardMonthly.ceilings();
    assert_eq!(standard.max_upload_size, 50_000_000);
    assert_eq!(standard.max_storage, 15_000_000_000);
    assert_eq!(standard.private_uploads, 100);
    assert_eq!(standard.password_protected_uploads, 50);
    let plus = Tiers::PlusYearly.ceilings();
    assert_eq!(plus.max_upload_size, 100_000_000);
    assert_eq!(plus.max_storage, 25_000_000_000);
    assert_eq!(plus.private_uploads, 250);
    assert_eq!(plus.password_protected_uploads, 200);
    let business = Tiers::BusinessMonthly.ceilings();
    assert_eq!(business.max_upload_size, 500_000_000);
    assert_eq!(business.max_storage, 50_000_000_000);
    assert_eq!(business.private_uploads, 1000);
    assert_eq!(business.password_protected_uploads, 700);
}

#[test]
fn ceilings_never_shrink_with_rank() {
    let by_rank = [
        Tiers::Free,
        Tiers::BaseMonthly,
        Tiers::BaseYearly,
        Tiers::StandardMonthly,
        Tiers::StandardYearly,
        Tiers::PlusMonthly,
        Tiers::PlusYearly,
        Tiers::BusinessMonthly,
        Tiers::BusinessYearly,
    ];
    for pair in by_rank.windows(2) {
        let (lower, higher) = (pair[0].ceilings(), pair[1].ceilings());
        assert!(lower.max_upload_size <= higher.max_upload_size);
        assert!(lower.max_storage <= higher.max_storage);
        assert!(lower.private_uploads <= higher.private_uploads);
        assert!(lower.password_protected_uploads <= higher.password_protected_uploads);
    }
    assert_eq!(Tiers::BaseMonthly.ceilings(), Tiers::BaseYearly.ceilings());
    assert_eq!(Tiers::BusinessMonthly.ceilings(), Tiers::BusinessYearly.ceilings());
}
