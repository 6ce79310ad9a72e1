//! The requests the service takes and the answers it gives, as plain values.
//! Times are seconds since the Unix epoch.

use vstd::prelude::*;

verus! {

/// A request to open an account.
#[derive(Debug)]
pub struct RegisterPayload {
    pub username: String,
    pub password: String,
    pub email: String,
    pub display_name: String,
}

/// The answer to an opened account.
#[derive(Debug)]
pub struct CreateUserReturnPayload {
    pub id: String,
    /// Reference to the billing customer that was made for the account.
    pub stripe_id: String,
}

/// A request to change the names of an account.
#[derive(Debug)]
pub struct EditAccountPayload {
    pub username: Option<String>,
    pub display_name: Option<String>,
}

/// A request to change how the files of an account are embedded.
#[derive(Debug)]
pub struct EditEmbedConfigPayload {
    pub title: Option<String>,
    pub web_title: Option<String>,
    pub color: Option<String>,
    pub background_color: Option<String>,
}

/// A request to change the password of an account.
#[derive(Debug)]
pub struct ChangePasswordPayload {
    pub old_password: String,
    pub new_password: String,
}

/// What an account shows of itself to its owner.
#[derive(Debug)]
pub struct ProfileReturnPayload {
    pub id: String,
    pub username: String,
    pub display_name: String,
    pub email: String,
}

/// The credentials of a login.
#[derive(Debug)]
pub struct LoginCredentials {
    pub username: String,
    pub password: String,
}

/// The answer to a login: the secret of the new session.
#[derive(Debug)]
pub struct LoginReturnPayload {
    pub token: String,
}

/// What an account shows of itself to others.
#[derive(Debug)]
pub struct PublicUser {
    pub id: String,
    pub username: String,
    pub display_name: String,
    pub email: String,
    pub permission_level: i32,
}

/// A request to subscribe to a plan.
#[derive(Debug)]
pub struct CreateSubscriptionPayload {
    pub tier: String,
    /// The plan identifier.
    pub price: String,
}

/// The answer to a subscription request: where to pay.
#[derive(Debug)]
pub struct CreateSubscriptionReturnPayload {
    pub url: String,
}

/// A request to rotate the secret of an upload token.
#[derive(Debug)]
pub struct RegenerateTokenPayload {
    pub token_id: String,
}

/// The answer to a rotated secret.
#[derive(Debug)]
pub struct RegenerateTokenReturnPayload {
    pub token_id: String,
    pub token: String,
}

/// A request to create an upload token.
#[derive(Debug)]
pub struct CreateUploadTokenPayload {
    pub name: String,
    pub description: Option<String>,
    pub max_uses: Option<i32>,
}

/// The answer to a created upload token: its identifier and its secret.
#[derive(Debug)]
pub struct CreateUploadTokenReturnPayload {
    pub token_id: String,
    pub token: String,
}

/// The upload tokens of an account.
#[derive(Debug)]
pub struct GetUploadTokensReturnPayload {
    pub tokens: Vec<UploadTokens>,
}

/// An upload token as its owner sees it in a list: without its secret.
#[derive(Debug)]
pub struct UploadTokens {
    pub token_id: String,
    pub name: String,
    pub description: Option<String>,
    pub max_uses: Option<i32>,
    pub uses: Option<i32>,
    pub created_at: i64,
}

/// An upload token with the uploads that were made through it.
#[derive(Debug)]
pub struct DetailedUploadToken {
    pub token_id: String,
    pub name: String,
    pub description: Option<String>,
    pub max_uses: Option<i32>,
    pub uses: Option<i32>,
    pub created_at: i64,
    pub uses_arr: Vec<UploadTokenUsage>,
}

/// One upload made through an upload token.
#[derive(Debug)]
pub struct UploadTokenUsage {
    pub id: String,
    pub file_id: String,
    pub token_id: String,
    pub created_at: i64,
}

/// A request for a view token: the password of the file.
#[derive(Debug)]
pub struct CreateViewTokenPayload {
    pub password: String,
}

/// The answer to an issued view token: the address that embeds the secret,
/// and the secret.
#[derive(Debug)]
pub struct CreateViewTokenReturnPayload {
    pub url: String,
    pub token: String,
}

/// A proposed upload: what is known of the file before its bytes are
/// accepted, and what was asked for it.
#[derive(Debug)]
pub struct FileUpload {
    /// The size of the file, in bytes.
    pub size: u64,
    /// Whether the file is to be private.
    pub private: Option<bool>,
    /// The password that is to protect the file. An empty one protects
    /// nothing.
    pub password: Option<String>,
}

/// The answer to an accepted upload.
#[derive(Debug)]
pub struct FileUploadReturnPayload {
    pub id: String,
    pub url: String,
}

/// The uploads of an account.
#[derive(Debug)]
pub struct GetAllReturnPayload {
    pub uploads: Vec<Upload>,
}

/// An upload as its owner sees it in a list.
#[derive(Debug)]
pub struct Upload {
    pub id: String,
    pub url: String,
    pub is_private: bool,
    pub filetype: String,
    pub created_at: i64,
}

} // verus!
