use sparkcloud::errors::Denial;
use sparkcloud::files::FileMetadata;
use sparkcloud::password::{verify_secret, HashFailure};
use sparkcloud::payloads::FileUpload;
use sparkcloud::principal::{UploadToken, Uploader, User};
use sparkcloud::quota::{UploadType, UsageDelta};
use sparkcloud::settings::{Database, Email, GeneralSettings, Settings, StripeSettings};
use sparkcloud::tier::Tiers;
use sparkcloud::uploads::{
    assemble_upload, authorize_upload, get_all_uploads_of_current, upload,
};

fn settings() -> Settings {
    Settings::new(
        Database {
            host: "localhost".to_string(),
            port: None,
            user: "spark".to_string(),
            password: "pw".to_string(),
            dbname: "spark".to_string(),
            clear: false,
        },
        Email {
            host: "mail.example.org".to_string(),
            port: "587".to_string(),
            user: "mailer".to_string(),
            password: "pw".to_string(),
            from: "Spark <spark@example.org>".to_string(),
            reply_to: "Spark <spark@example.org>".to_string(),
        },
        GeneralSettings { base_url: "https://files.example.org".to_string(), is_prod: false },
        StripeSettings {
            publishable_key: "pk".to_string(),
            secret_key: "sk".to_string(),
            webhook_signature_secret: "whsec".to_string(),
        },
    )
}

fn uploader(tier: Option<Tiers>, max_uses: Option<i32>, uses: i32) -> Uploader {
    Uploader {
        user: User {
            id: "user-1".to_string(),
            auth: None,
            username: "ada".to_string(),
            permission_level: 0,
            display_name: "Ada".to_string(),
            email: "ada@example.org".to_string(),
            total_views: 0,
            total_uploads: 0,
            total_private_uploads: 0,
            total_password_protected_uploads: 0,
            storage_used: 0,
            ip: None,
            stripe_id: None,
            current_tier: tier,
        },
        upload_token: UploadToken {
            id: "token-1".to_string(),
            name: "ci".to_string(),
            description: None,
            max_uses,
            uses,
            token: "tok".to_string(),
        },
    }
}

fn plain(size: u64) -> FileUpload {
    FileUpload { size, private: None, password: None }
}

fn is_alphanumeric(s: &str, length: usize) -> bool {
    s.chars().count() == length && s.chars().all(|c| c.is_ascii_alphanumeric())
}

#[test]
fn token_of_three_uses_admits_three_uploads_and_denies_the_fourth() {
    let mut uploader = uploader(Some(Tiers::BusinessYearly), Some(3), 0);
    let settings = settings();
    for expected_uses in 1..=3 {
        let plan = upload(&plain(1_000), &uploader, &settings).unwrap();
        assert!(uploader.record_upload(&plan));
        assert_eq!(uploader.upload_token.uses, expected_uses);
    }
    let fourth = upload(&plain(1_000), &uploader, &settings);
    assert_eq!(fourth.err(), Some(Denial::Unauthorized));
    assert_eq!(uploader.upload_token.uses, 3);
    assert_eq!(uploader.user.total_uploads, 3);
    assert_eq!(uploader.user.storage_used, 3_000);
}

#[test]
fn spent_token_is_unauthorized_even_where_the_quota_would_deny() {
    let spent = uploader(None, Some(3), 3);
    assert_eq!(authorize_upload(&spent, &plain(1)).err(), Some(Denial::Unauthorized));
    let spent = uploader(Some(Tiers::Free), Some(0), 0);
    assert_eq!(
        authorize_upload(&spent, &plain(9_000_000)).err(),
        Some(Denial::Unauthorized)
    );
}

#[test]
fn token_without_ceiling_has_no_limit() {
    let unlimited = uploader(Some(Tiers::Free), None, i32::MAX);
    assert!(unlimited.upload_token.has_uses_left());
    assert_eq!(authorize_upload(&unlimited, &plain(1)), Ok(UploadType::Normal));
}

#[test]
fn uses_left_is_judged_with_the_new_upload_added() {
    assert!(uploader(None, Some(3), 2).upload_token.has_uses_left());
    assert!(!uploader(None, Some(3), 3).upload_token.has_uses_left());
    assert!(!uploader(None, Some(3), 4).upload_token.has_uses_left());
    assert!(!uploader(None, Some(0), 0).upload_token.has_uses_left());
    assert!(!uploader(None, Some(i32::MIN), i32::MAX).upload_token.has_uses_left());
    assert!(!uploader(None, Some(i32::MAX), i32::MAX).upload_token.has_uses_left());
}

#[test]
fn quota_denial_is_forbidden() {
    let no_tier = uploader(None, None, 0);
    assert_eq!(upload(&plain(1), &no_tier, &settings()).err(), Some(Denial::Forbidden));
    let free = uploader(Some(Tiers::Free), None, 0);
    assert_eq!(upload(&plain(5_000_001), &free, &settings()).err(), Some(Denial::Forbidden));
    let protected = FileUpload { size: 1, private: None, password: Some("pw".to_string()) };
    assert_eq!(upload(&protected, &free, &settings()).err(), Some(Denial::Forbidden));
}

#[test]
fn accepted_upload_names_all_that_is_written() {
    let uploader = uploader(Some(Tiers::Free), Some(10), 4);
    let data = FileUpload { size: 5_000_000, private: Some(true), password: Some(String::new()) };
    let plan = upload(&data, &uploader, &settings()).unwrap();
    assert!(is_alphanumeric(&plan.id, 15));
    assert!(is_alphanumeric(&plan.usage_id, 15));
    assert_ne!(plan.id, plan.usage_id);
    assert_eq!(plan.upload_type, UploadType::Private);
    assert!(plan.is_private);
    assert_eq!(plan.password, None);
    assert_eq!(
        plan.usage,
        UsageDelta {
            storage: 5_000_000,
            uploads: 1,
            private_uploads: 1,
            password_protected_uploads: 0
        }
    );
    assert_eq!(plan.token_uses, 1);
    assert_eq!(plan.payload.id, plan.id);
    assert_eq!(
        plan.payload.url,
        format!("https://files.example.org/api/uploads/content/{}", plan.id)
    );
}

#[test]
fn password_protected_upload_stores_a_hash_of_the_password() {
    let uploader = uploader(Some(Tiers::BaseMonthly), None, 0);
    let data = FileUpload { size: 10, private: Some(true), password: Some("hunter2".to_string()) };
    let plan = upload(&data, &uploader, &settings()).unwrap();
    assert_eq!(plan.upload_type, UploadType::PasswordProtected);
    assert!(plan.is_private);
    assert_eq!(plan.usage.private_uploads, 0);
    assert_eq!(plan.usage.password_protected_uploads, 1);
    let hash = plan.password.unwrap();
    assert_ne!(hash, "hunter2");
    assert!(hash.starts_with("$2b$12$"));
    assert!(verify_secret("hunter2", &hash));
}

#[test]
fn assembled_upload_carries_what_it_was_given() {
    let data = FileUpload { size: 77, private: Some(false), password: Some("pw".to_string()) };
    let plan = assemble_upload(
        &data,
        UploadType::PasswordProtected,
        "fileid".to_string(),
        "usageid".to_string(),
        Some(Ok("$2b$hash".to_string())),
        &settings(),
    )
    .unwrap();
    assert_eq!(plan.id, "fileid");
    assert_eq!(plan.usage_id, "usageid");
    assert_eq!(plan.password.as_deref(), Some("$2b$hash"));
    assert!(!plan.is_private);
    assert_eq!(plan.usage.storage, 77);
    assert_eq!(plan.payload.url, "https://files.example.org/api/uploads/content/fileid");
}

#[test]
fn failed_hash_is_internal() {
    let data = FileUpload { size: 77, private: None, password: Some("pw".to_string()) };
    let outcome = assemble_upload(
        &data,
        UploadType::PasswordProtected,
        "fileid".to_string(),
        "usageid".to_string(),
        Some(Err(HashFailure)),
        &settings(),
    );
    assert_eq!(outcome.err(), Some(Denial::Internal));
}

#[test]
fn size_beyond_the_counter_is_internal() {
    let data = FileUpload { size: 2_147_483_648, private: None, password: None };
    let outcome = assemble_upload(
        &data,
        UploadType::Normal,
        "fileid".to_string(),
        "usageid".to_string(),
        None,
        &settings(),
    );
    assert_eq!(outcome.err(), Some(Denial::Internal));
}

#[test]
fn recording_counts_owner_and_token_together() {
    let mut uploader = uploader(Some(Tiers::Free), None, 7);
    uploader.user.total_uploads = i32::MAX;
    let plan = upload(&plain(10), &uploader, &settings()).unwrap();
    assert!(!uploader.record_upload(&plan));
    assert_eq!(uploader.upload_token.uses, 7);
    assert_eq!(uploader.user.storage_used, 0);

    uploader.user.total_uploads = 0;
    uploader.upload_token.uses = i32::MAX;
    assert!(!uploader.record_upload(&plan));
    assert_eq!(uploader.user.total_uploads, 0);
    assert_eq!(uploader.user.storage_used, 0);

    uploader.upload_token.uses = 7;
    assert!(uploader.record_upload(&plan));
    assert_eq!(uploader.upload_token.uses, 8);
    assert_eq!(uploader.user.total_uploads, 1);
    assert_eq!(uploader.user.storage_used, 10);
}

#[test]
fn uses_are_counted_one_by_one() {
    let mut token = uploader(None, Some(2), 0).upload_token;
    assert!(token.record_use());
    assert_eq!(token.uses, 1);
    assert!(token.record_use());
    assert_eq!(token.uses, 2);
    assert!(!token.has_uses_left());
    token.uses = i32::MAX;
    assert!(!token.record_use());
    assert_eq!(token.uses, i32::MAX);
}

#[test]
fn uploads_are_listed_in_order_with_their_addresses() {
    let rows = vec![
        FileMetadata {
            id: "aaa".to_string(),
            userid: "user-1".to_string(),
            filetype: "image/png".to_string(),
            is_private: true,
            password: String::new(),
            views: 3,
            uploaded_at: 1_700_000_000,
        },
        FileMetadata {
            id: "bbb".to_string(),
            userid: "user-1".to_string(),
            filetype: "text/plain".to_string(),
            is_private: false,
            password: "$2b$12$x".to_string(),
            views: 0,
            uploaded_at: 1_700_000_001,
        },
    ];
    let listed = get_all_uploads_of_current(&rows, &settings());
    assert_eq!(listed.uploads.len(), 2);
    assert_eq!(listed.uploads[0].id, "aaa");
    assert_eq!(listed.uploads[0].url, "https://files.example.org/api/uploads/content/aaa");
    assert!(listed.uploads[0].is_private);
    assert_eq!(listed.uploads[0].filetype, "image/png");
    assert_eq!(listed.uploads[0].created_at, 1_700_000_000);
    assert_eq!(listed.uploads[1].id, "bbb");
    assert_eq!(listed.uploads[1].url, "https://files.example.org/api/uploads/content/bbb");
    assert!(!listed.uploads[1].is_private);
    assert_eq!(listed.uploads[1].filetype, "text/plain");
    assert_eq!(listed.uploads[1].created_at, 1_700_000_001);
    assert!(get_all_uploads_of_current(&vec![], &settings()).uploads.is_empty());
}
