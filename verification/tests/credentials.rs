use sparkcloud::credentials::{bearer_token, get_user_via_id};
use sparkcloud::errors::{Denial, StoreFault};
use sparkcloud::principal::{Uploader, UploaderRow, User, UserRow};
use sparkcloud::tier::Tiers;

fn row(id: &str, plan: Option<&str>) -> UserRow {
    UserRow {
        id: id.to_string(),
        username: "ada".to_string(),
        display_name: "Ada".to_string(),
        email: "ada@example.org".to_string(),
        permission_level: 2,
        total_views: 11,
        total_uploads: 12,
        total_private_uploads: 13,
        total_password_protected_uploads: 14,
        storage_used: 15,
        stripe_id: Some("cus_1".to_string()),
        current_tier: plan.map(|p| p.to_string()),
    }
}

fn token_row(id: &str, max_uses: Option<i32>, uses: i32) -> UploaderRow {
    UploaderRow {
        user: row(id, Some("price_1Orhs5EbfEExjZVcLPTo1voo")),
        token_id: "token-1".to_string(),
        token_name: "ci".to_string(),
        token_description: Some("for the build".to_string()),
        token_max_uses: max_uses,
        token_uses: uses,
    }
}

#[test]
fn header_of_scheme_and_secret_yields_the_secret() {
    assert_eq!(bearer_token(Some("Bearer abc123")), Ok("abc123".to_string()));
    assert_eq!(bearer_token(Some("Token x")), Ok("x".to_string()));
}

#[test]
fn header_parts_may_be_empty() {
    assert_eq!(bearer_token(Some("Bearer ")), Ok(String::new()));
    assert_eq!(bearer_token(Some(" abc")), Ok("abc".to_string()));
    assert_eq!(bearer_token(Some(" ")), Ok(String::new()));
}

#[test]
fn header_is_split_by_characters_not_bytes() {
    assert_eq!(bearer_token(Some("Bärer grüße")), Ok("grüße".to_string()));
}

#[test]
fn absent_header_is_unauthenticated() {
    assert_eq!(bearer_token(None), Err(Denial::Unauthenticated));
}

#[test]
fn malformed_header_is_unauthenticated() {
    assert_eq!(bearer_token(Some("")), Err(Denial::Unauthenticated));
    assert_eq!(bearer_token(Some("abc123")), Err(Denial::Unauthenticated));
    assert_eq!(bearer_token(Some("Bearer abc 123")), Err(Denial::Unauthenticated));
    assert_eq!(bearer_token(Some("Bearer  abc")), Err(Denial::Unauthenticated));
    assert_eq!(bearer_token(Some("Bearer abc ")), Err(Denial::Unauthenticated));
    assert_eq!(bearer_token(Some("  ")), Err(Denial::Unauthenticated));
}

#[test]
fn one_session_row_resolves_to_its_user() {
    let rows = vec![row("user-1", Some("price_1OrhtzEbfEExjZVcaK8HD69C"))];
    let user = User::from_session("s3cret", Ok(rows), Some("10.0.0.1".to_string())).unwrap();
    assert_eq!(user.id, "user-1");
    assert_eq!(user.auth.as_deref(), Some("s3cret"));
    assert_eq!(user.username, "ada");
    assert_eq!(user.display_name, "Ada");
    assert_eq!(user.email, "ada@example.org");
    assert_eq!(user.permission_level, 2);
    assert_eq!(user.total_views, 11);
    assert_eq!(user.total_uploads, 12);
    assert_eq!(user.total_private_uploads, 13);
    assert_eq!(user.total_password_protected_uploads, 14);
    assert_eq!(user.storage_used, 15);
    assert_eq!(user.ip.as_deref(), Some("10.0.0.1"));
    assert_eq!(user.stripe_id.as_deref(), Some("cus_1"));
    assert_eq!(user.current_tier, Some(Tiers::BaseYearly));
}

#[test]
fn session_with_unknown_plan_has_no_tier() {
    let user = User::from_session("s", Ok(vec![row("u", Some("price_x"))]), None).unwrap();
    assert_eq!(user.current_tier, None);
    let user = User::from_session("s", Ok(vec![row("u", None)]), None).unwrap();
    assert_eq!(user.current_tier, None);
    assert_eq!(user.ip, None);
}

#[test]
fn no_session_row_is_unauthenticated() {
    let outcome = User::from_session("s3cret", Ok(vec![]), None);
    assert_eq!(outcome.err(), Some(Denial::Unauthenticated));
}

#[test]
fn two_session_rows_are_unauthenticated() {
    let rows = vec![row("user-1", None), row("user-2", None)];
    let outcome = User::from_session("s3cret", Ok(rows), None);
    assert_eq!(outcome.err(), Some(Denial::Unauthenticated));
}

#[test]
fn failed_session_lookup_is_internal() {
    let outcome = User::from_session("s3cret", Err(StoreFault), None);
    assert_eq!(outcome.err(), Some(Denial::Internal));
}

#[test]
fn one_token_row_resolves_to_owner_and_token() {
    let uploader =
        Uploader::from_upload_token("tok", Ok(vec![token_row("user-9", Some(3), 1)]), None).unwrap();
    assert_eq!(uploader.user.id, "user-9");
    assert_eq!(uploader.user.auth, None);
    assert_eq!(uploader.user.current_tier, Some(Tiers::PlusMonthly));
    assert_eq!(uploader.user.storage_used, 15);
    assert_eq!(uploader.upload_token.id, "token-1");
    assert_eq!(uploader.upload_token.name, "ci");
    assert_eq!(uploader.upload_token.description.as_deref(), Some("for the build"));
    assert_eq!(uploader.upload_token.max_uses, Some(3));
    assert_eq!(uploader.upload_token.uses, 1);
    assert_eq!(uploader.upload_token.token, "tok");
}

#[test]
fn token_lookup_needs_exactly_one_row() {
    let none = Uploader::from_upload_token("tok", Ok(vec![]), None);
    assert_eq!(none.err(), Some(Denial::Unauthenticated));
    let two = Uploader::from_upload_token(
        "tok",
        Ok(vec![token_row("a", None, 0), token_row("b", None, 0)]),
        None,
    );
    assert_eq!(two.err(), Some(Denial::Unauthenticated));
}

#[test]
fn failed_token_lookup_is_internal() {
    let outcome = Uploader::from_upload_token("tok", Err(StoreFault), None);
    assert_eq!(outcome.err(), Some(Denial::Internal));
}

#[test]
fn author_shows_its_public_face_only() {
    let author = get_user_via_id(row("user-3", Some("price_1Orhy2EbfEExjZVcAuLQCTeP")));
    assert_eq!(author.id, "user-3");
    assert_eq!(author.username, "ada");
    assert_eq!(author.total_views, 11);
    assert_eq!(author.total_uploads, 12);
    assert_eq!(author.storage_used, 15);
    assert_eq!(author.total_private_uploads, 0);
    assert_eq!(author.total_password_protected_uploads, 0);
    assert_eq!(author.auth, None);
    assert_eq!(author.ip, None);
    assert_eq!(author.stripe_id, None);
    assert_eq!(author.current_tier, None);
}
