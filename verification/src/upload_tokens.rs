//! Upload tokens as their owner manages them: creating one, listing them,
//! rotating the secret of one, deleting one.

use crate::errors::{Denial, Status, StoreFault};
use crate::payloads::{
    CreateUploadTokenPayload, CreateUploadTokenReturnPayload, GetUploadTokensReturnPayload,
    UploadTokens,
};
use crate::principal::User;
use crate::string_generator::{generate_id, generate_string, is_secret_of};
use crate::text::{clone_opt, opt_text};
use vstd::prelude::*;
use vstd::string::*;

verus! {

/// Length of the secret of an upload token.
pub const UPLOAD_TOKEN_LENGTH: usize = 48;

/// The longest name of an upload token, in bytes.
pub const MAX_NAME_LENGTH: usize = 32;

/// The longest description of an upload token, in bytes.
pub const MAX_DESCRIPTION_LENGTH: usize = 256;

/// The highest ceiling of uses that can be asked for.
pub const MAX_USES_LIMIT: i32 = 65536;

/// An upload token that is to be created: the row that the caller adds to
/// the store, and the answer to its owner. The use count of the new token is
/// zero.
#[derive(Debug)]
pub struct NewUploadToken {
    pub id: String,
    /// The owner.
    pub userid: String,
    /// The secret.
    pub token: String,
    pub name: String,
    pub description: String,
    /// The ceiling of uses, where one was asked for.
    pub max_uses: Option<i32>,
    pub payload: CreateUploadTokenReturnPayload,
}

/// A row of the upload-token table, as an owner's list shows it.
#[derive(Debug)]
pub struct UploadTokenRow {
    pub id: String,
    pub name: String,
    pub description: Option<String>,
    pub max_uses: Option<i32>,
    pub uses: Option<i32>,
    /// When the token was created, in seconds since the Unix epoch.
    pub created_at: i64,
}

/// The length of a text in the store: the number of bytes of its UTF-8 form.
pub open spec fn stored_length(text: Seq<char>) -> nat {
    vstd::utf8::encode_utf8(text).len()
}

/// Whether a request for an upload token is well formed: a name of at most
/// 32 bytes, a description of at most 256, a ceiling of at most 65536 uses.
pub open spec fn is_valid_request(
    name: Seq<char>,
    description: Option<Seq<char>>,
    max_uses: Option<i32>,
) -> bool {
    &&& stored_length(name) <= 32
    &&& description is Some ==> stored_length(description->0) <= 256
    &&& max_uses is Some ==> max_uses->0 <= 65536
}

/// Why an upload token is not created, if it is not: `BadRequest` where the
/// request is not well formed, `Internal` where the lookup of its name
/// failed, `Conflict` where its owner has a token of that name.
pub open spec fn creation_denial(
    name: Seq<char>,
    description: Option<Seq<char>>,
    max_uses: Option<i32>,
    taken: Result<usize, StoreFault>,
) -> Option<Denial> {
    if !is_valid_request(name, description, max_uses) {
        Some(Denial::BadRequest)
    } else {
        match taken {
            Err(_) => Some(Denial::Internal),
            Ok(n) => if n > 0 {
                Some(Denial::Conflict)
            } else {
                None
            },
        }
    }
}

/// Whether a request for an upload token is well formed. A request that is
/// not is turned down before anything is looked up.
pub fn validate_upload_token(data: &CreateUploadTokenPayload) -> (valid: Result<(), Denial>)
    ensures
        valid == if is_valid_request(data.name@, opt_text(data.description), data.max_uses) {
            Ok::<(), Denial>(())
        } else {
            Err::<(), Denial>(Denial::BadRequest)
        },
{
    if data.name.as_str().as_bytes().len() > MAX_NAME_LENGTH {
        return Err(Denial::BadRequest);
    }
    match &data.description {
        Some(description) => {
            if description.as_str().as_bytes().len() > MAX_DESCRIPTION_LENGTH {
                return Err(Denial::BadRequest);
            }
        },
        None => {},
    }
    match data.max_uses {
        Some(max_uses) => {
            if max_uses > MAX_USES_LIMIT {
                return Err(Denial::BadRequest);
            }
        },
        None => {},
    }
    Ok(())
}

/// Creates an upload token for `user`. `taken` is the number of tokens of
/// that name that `user` has, as a lookup returned it. A request that is not
/// turned down gets a token with a fresh identifier and a fresh secret, the
/// name and the ceiling that were asked for, and the description that was
/// asked for or an empty one.
pub fn create_upload_token(
    data: &CreateUploadTokenPayload,
    user: &User,
    taken: Result<usize, StoreFault>,
) -> (outcome: Result<NewUploadToken, Denial>)
    ensures
        match creation_denial(data.name@, opt_text(data.description), data.max_uses, taken) {
            Some(denial) => outcome is Err && outcome->Err_0 == denial,
            None => outcome is Ok && {
                let created = outcome->Ok_0;
                &&& is_secret_of(created.id@, 15)
                &&& is_secret_of(created.token@, 48)
                &&& created.userid@ == user.id@
                &&& created.name@ == data.name@
                &&& created.description@ == match data.description {
                    Some(description) => description@,
                    None => Seq::<char>::empty(),
                }
                &&& created.max_uses == data.max_uses
                &&& created.payload.token_id@ == created.id@
                &&& created.payload.token@ == created.token@
            },
        },
{
    match validate_upload_token(data) {
        Err(denial) => {
            return Err(denial);
        },
        Ok(_) => {},
    }
    match taken {
        Err(_) => {
            return Err(Denial::Internal);
        },
        Ok(n) => {
            if n > 0 {
                return Err(Denial::Conflict);
            }
        },
    }
    let id = generate_id();
    let token = generate_string(Some(UPLOAD_TOKEN_LENGTH));
    let description = match &data.description {
        Some(description) => description.clone(),
        None => String::new(),
    };
    Ok(
        NewUploadToken {
            id: id.clone(),
            userid: user.id.clone(),
            token: token.clone(),
            name: data.name.clone(),
            description,
            max_uses: data.max_uses,
            payload: CreateUploadTokenReturnPayload { token_id: id, token },
        },
    )
}

/// The answer to a request to delete an upload token. `deleted` is the
/// number of rows that the store removed: `NotFound` where it removed none,
/// `Internal` where it failed.
pub fn delete_upload_token(deleted: Result<usize, StoreFault>) -> (outcome: Result<Status, Denial>)
    ensures
        outcome == match deleted {
            Err(_) => Err::<Status, Denial>(Denial::Internal),
            Ok(n) => if n == 0 {
                Err::<Status, Denial>(Denial::NotFound)
            } else {
                Ok::<Status, Denial>(Status::Success)
            },
        },
{
    match deleted {
        Err(_) => Err(Denial::Internal),
        Ok(n) => if n == 0 {
            Err(Denial::NotFound)
        } else {
            Ok(Status::Success)
        },
    }
}

/// Rotates the secret of the upload token `token_id`. `found` is the number
/// of tokens of that identifier that the requester owns, as a lookup
/// returned it. The outcome is the new secret, and nothing else of the token
/// changes: its counters stay.
pub fn regenerate_upload_token(token_id: String, found: Result<usize, StoreFault>) -> (outcome:
    Result<CreateUploadTokenReturnPayload, Denial>)
    ensures
        match found {
            Err(_) => outcome is Err && outcome->Err_0 == Denial::Internal,
            Ok(n) => if n == 0 {
                outcome is Err && outcome->Err_0 == Denial::NotFound
            } else {
                outcome is Ok && outcome->Ok_0.token_id == token_id && is_secret_of(
                    outcome->Ok_0.token@,
                    48,
                )
            },
        },
{
    match found {
        Err(_) => Err(Denial::Internal),
        Ok(n) => if n == 0 {
            Err(Denial::NotFound)
        } else {
            let token = generate_string(Some(UPLOAD_TOKEN_LENGTH));
            Ok(CreateUploadTokenReturnPayload { token_id, token })
        },
    }
}

/// How a row of the upload-token table shows in the list of its owner.
pub open spec fn lists_token_as(entry: UploadTokens, row: UploadTokenRow) -> bool {
    &&& entry.token_id@ == row.id@
    &&& entry.name@ == row.name@
    &&& opt_text(entry.description) == opt_text(row.description)
    &&& entry.max_uses == row.max_uses
    &&& entry.uses == row.uses
    &&& entry.created_at == row.created_at
}

/// Lists the upload tokens of a user: one entry for each row, in the order
/// of the rows, none with its secret. A failed lookup is `Internal`.
pub fn get_upload_tokens(lookup: &Result<Vec<UploadTokenRow>, StoreFault>) -> (outcome: Result<
    GetUploadTokensReturnPayload,
    Denial,
>)
    ensures
        match lookup {
            Err(_) => outcome is Err && outcome->Err_0 == Denial::Internal,
            Ok(rows) => outcome is Ok && outcome->Ok_0.tokens@.len() == rows@.len() && forall|
                i: int,
            |
                0 <= i < rows@.len() ==> lists_token_as(
                    #[trigger] outcome->Ok_0.tokens@[i],
                    rows@[i],
                ),
        },
{
    let rows = match lookup {
        Ok(rows) => rows,
        Err(_) => {
            return Err(Denial::Internal);
        },
    };
    let mut tokens: Vec<UploadTokens> = Vec::new();
    let mut i: usize = 0;
    while i < rows.len()
        invariant
            i <= rows@.len(),
            tokens@.len() == i,
            forall|j: int| 0 <= j < i ==> lists_token_as(#[trigger] tokens@[j], rows@[j]),
        decreases rows@.len() - i,
    {
        let row = &rows[i];
        tokens.push(
            UploadTokens {
                token_id: row.id.clone(),
                name: row.name.clone(),
                description: clone_opt(&row.description),
                max_uses: row.max_uses,
                uses: row.uses,
                created_at: row.created_at,
            },
        );
        i = i + 1;
    }
    Ok(GetUploadTokensReturnPayload { tokens })
}

} // verus!
