//! Uploads: the decision on a proposed upload, and all that is written to the
//! store when it is accepted.
//!
//! An upload through an upload token is first held against the token's own
//! ceiling of uses, then against the quota of the token's owner. An accepted
//! upload is counted in one bucket, that of its classification, and uses the
//! token once. The stored visibility of a file is what was asked for it,
//! whatever bucket it is counted in.
//!
//! A decision holds of the counters it was given. What an accepted upload
//! adds is named as increments, never as new totals, so that the store can
//! add them in one step; two uploads that are decided on the same counters
//! are both admitted if each of them is.

use crate::errors::Denial;
use crate::files::FileMetadata;
use crate::format_upload_url::{format_upload_url, upload_url};
use crate::password::{hash_secret, verifies, HashFailure, PASSWORD_COST};
use crate::payloads::{FileUpload, FileUploadReturnPayload, GetAllReturnPayload, Upload};
use crate::principal::{UploadTokenView, Uploader, UserView};
use crate::quota::{
    admission, classification, classify_upload, usage_delta, usage_of, validate_upload_uses,
    UploadType, UsageDelta,
};
use crate::settings::Settings;
use crate::string_generator::{generate_id, is_secret_of};
use crate::text::opt_text;
use vstd::prelude::*;
use vstd::string::*;

verus! {

/// Everything that an accepted upload writes to the store, besides the bytes
/// of the file. The caller writes all of it as one unit with the bytes, or
/// none of it.
#[derive(Debug)]
pub struct UploadPlan {
    /// The identifier of the new file.
    pub id: String,
    /// The identifier of the record of this use of the upload token.
    pub usage_id: String,
    /// The bucket the upload is counted in.
    pub upload_type: UploadType,
    /// The visibility that is stored for the file.
    pub is_private: bool,
    /// The password hash that is stored for the file, where it has a password.
    pub password: Option<String>,
    /// What is added to the counters of the owner.
    pub usage: UsageDelta,
    /// What is added to the use count of the upload token.
    pub token_uses: i32,
    /// The answer to the uploader.
    pub payload: FileUploadReturnPayload,
}

/// Why a proposed upload is turned down, if it is: `Unauthorized` where the
/// upload token has no use left, `Forbidden` where the quota of its owner
/// does not admit the upload. The token is judged first.
pub open spec fn upload_denial(
    user: UserView,
    token: UploadTokenView,
    size: int,
    private: Option<bool>,
    password: Option<Seq<char>>,
) -> Option<Denial> {
    if !token.has_uses_left() {
        Some(Denial::Unauthorized)
    } else if admission(user, size, classification(private, password)) is Err {
        Some(Denial::Forbidden)
    } else {
        None
    }
}

/// Whether `plan` is what the accepted upload `data` writes: fresh
/// identifiers, the bucket of the upload's classification, the visibility
/// that was asked for, a hash that the password verifies against where a
/// password was given and none where not, the upload's size and one upload
/// in its bucket on the owner's counters, one use on the token's.
pub open spec fn is_plan_for(plan: UploadPlan, data: FileUpload, base_url: Seq<char>) -> bool {
    let kind = classification(data.private, opt_text(data.password));
    &&& is_secret_of(plan.id@, 15)
    &&& is_secret_of(plan.usage_id@, 15)
    &&& plan.upload_type == kind
    &&& plan.is_private == (data.private == Some(true))
    &&& if kind == UploadType::PasswordProtected {
        plan.password is Some && verifies(data.password->0@, plan.password->0@)
    } else {
        plan.password is None
    }
    &&& plan.usage == usage_of(data.size as int, kind)
    &&& plan.token_uses == 1
    &&& plan.payload.id@ == plan.id@
    &&& plan.payload.url@ == upload_url(base_url, plan.id@)
}

/// Holds a proposed upload against the ceiling of the upload token and
/// against the quota of its owner, and classifies it.
pub fn authorize_upload(uploader: &Uploader, data: &FileUpload) -> (verdict: Result<
    UploadType,
    Denial,
>)
    ensures
        verdict == match upload_denial(
            uploader.user@,
            uploader.upload_token@,
            data.size as int,
            data.private,
            opt_text(data.password),
        ) {
            Some(denial) => Err(denial),
            None => Ok(classification(data.private, opt_text(data.password))),
        },
{
    if !uploader.upload_token.has_uses_left() {
        return Err(Denial::Unauthorized);
    }
    let kind = classify_upload(
        data.private,
        match &data.password {
            Some(p) => Some(p.as_str()),
            None => None,
        },
    );
    match validate_upload_uses(&uploader.user, &data.size, &kind) {
        Ok(_) => Ok(kind),
        Err(_) => Err(Denial::Forbidden),
    }
}

/// Puts together what an upload of the given classification writes, from the
/// identifiers that were drawn for it and from the outcome of hashing its
/// password, where it has one. A hash that could not be made is `Internal`;
/// so is a size that the store's counter cannot hold, which no admitted
/// upload has.
pub fn assemble_upload(
    data: &FileUpload,
    kind: UploadType,
    id: String,
    usage_id: String,
    hashed: Option<Result<String, HashFailure>>,
    settings: &Settings,
) -> (outcome: Result<UploadPlan, Denial>)
    ensures
        match outcome {
            Ok(plan) => {
                &&& plan.id == id
                &&& plan.usage_id == usage_id
                &&& plan.upload_type == kind
                &&& plan.is_private == (data.private == Some(true))
                &&& plan.password == match hashed {
                    Some(Ok(hash)) => Some(hash),
                    _ => None,
                }
                &&& plan.usage == usage_of(data.size as int, kind)
                &&& plan.token_uses == 1
                &&& plan.payload.id@ == id@
                &&& plan.payload.url@ == upload_url(settings.general.base_url@, id@)
            },
            Err(denial) => denial == Denial::Internal,
        },
        outcome is Err <==> (hashed matches Some(Err(_))) || data.size > i32::MAX,
{
    let password = match hashed {
        Some(Ok(hash)) => Some(hash),
        Some(Err(_)) => {
            return Err(Denial::Internal);
        },
        None => None,
    };
    let usage = match usage_delta(data.size, &kind) {
        Some(usage) => usage,
        None => {
            return Err(Denial::Internal);
        },
    };
    let url = format_upload_url(settings, id.as_str());
    let payload = FileUploadReturnPayload { id: id.clone(), url };
    Ok(
        UploadPlan {
            id,
            usage_id,
            upload_type: kind,
            is_private: match data.private {
                Some(true) => true,
                _ => false,
            },
            password,
            usage,
            token_uses: 1,
            payload,
        },
    )
}

/// Decides on the upload `data` that `uploader` proposes, and says what is
/// to be written if it is accepted.
///
/// An upload that the token or the quota turns down is denied, with nothing
/// drawn or hashed. Any other upload without a password is accepted. One
/// with a password is accepted unless the password cannot be hashed, which
/// is `Internal`.
pub fn upload(data: &FileUpload, uploader: &Uploader, settings: &Settings) -> (outcome: Result<
    UploadPlan,
    Denial,
>)
    ensures
        match upload_denial(
            uploader.user@,
            uploader.upload_token@,
            data.size as int,
            data.private,
            opt_text(data.password),
        ) {
            Some(denial) => outcome is Err && outcome->Err_0 == denial,
            None => match outcome {
                Ok(plan) => is_plan_for(plan, *data, settings.general.base_url@),
                Err(denial) => denial == Denial::Internal && classification(
                    data.private,
                    opt_text(data.password),
                ) == UploadType::PasswordProtected,
            },
        },
{
    let kind = match authorize_upload(uploader, data) {
        Ok(kind) => kind,
        Err(denial) => {
            return Err(denial);
        },
    };
    let id = generate_id();
    let hashed = match kind {
        UploadType::PasswordProtected => match &data.password {
            Some(password) => Some(hash_secret(password.as_str(), PASSWORD_COST)),
            None => None,
        },
        _ => None,
    };
    let usage_id = generate_id();
    assemble_upload(data, kind, id, usage_id, hashed, settings)
}

impl Uploader {
    /// Whether the counters of the owner and of the token can take what
    /// `usage` adds.
    pub open spec fn can_record(user: UserView, token: UploadTokenView, usage: UsageDelta) -> bool {
        user.can_hold(usage) && token.uses < i32::MAX
    }

    /// Counts an accepted upload: adds `plan.usage` to the counters of the
    /// owner and one use to the token, all of it or nothing. Returns whether
    /// it was counted.
    pub fn record_upload(&mut self, plan: &UploadPlan) -> (counted: bool)
        ensures
            counted == Self::can_record(old(self).user@, old(self).upload_token@, plan.usage),
            counted ==> final(self).user@ == old(self).user@.charged(plan.usage) && final(self).upload_token@ == old(self).upload_token@.used_once(),
            !counted ==> *final(self) == *old(self),
    {
        if self.upload_token.uses == i32::MAX {
            return false;
        }
        if self.user.charge(&plan.usage) {
            self.upload_token.record_use();
            true
        } else {
            false
        }
    }
}

/// How a file shows in the list of its owner's uploads.
pub open spec fn lists_as(upload: Upload, file: FileMetadata, base_url: Seq<char>) -> bool {
    &&& upload.id@ == file.id@
    &&& upload.url@ == upload_url(base_url, file.id@)
    &&& upload.is_private == file.is_private
    &&& upload.filetype@ == file.filetype@
    &&& upload.created_at == file.uploaded_at
}

/// Lists the uploads of a user: one entry for each of the user's files, in
/// the order of `rows`, each with the address of its content.
pub fn get_all_uploads_of_current(rows: &Vec<FileMetadata>, settings: &Settings) -> (payload:
    GetAllReturnPayload)
    ensures
        payload.uploads@.len() == rows@.len(),
        forall|i: int|
            0 <= i < rows@.len() ==> lists_as(
                #[trigger] payload.uploads@[i],
                rows@[i],
                settings.general.base_url@,
            ),
{
    let mut uploads: Vec<Upload> = Vec::new();
    let mut i: usize = 0;
    while i < rows.len()
        invariant
            i <= rows@.len(),
            uploads@.len() == i,
            forall|j: int|
                0 <= j < i ==> lists_as(
                    #[trigger] uploads@[j],
                    rows@[j],
                    settings.general.base_url@,
                ),
        decreases rows@.len() - i,
    {
        let row = &rows[i];
        uploads.push(
            Upload {
                id: row.id.clone(),
                url: format_upload_url(settings, row.id.as_str()),
                is_private: row.is_private,
                filetype: row.filetype.clone(),
                created_at: row.uploaded_at,
            },
        );
        i = i + 1;
    }
    GetAllReturnPayload { uploads }
}

/// The ceiling of an upload token stands apart from the quota: a token
/// without a use left is turned down as `Unauthorized`, however much quota
/// its owner has.
pub proof fn lemma_spent_token_is_unauthorized(
    user: UserView,
    token: UploadTokenView,
    size: int,
    private: Option<bool>,
    password: Option<Seq<char>>,
)
    requires
        !token.has_uses_left(),
    ensures
        upload_denial(user, token, size, private, password) == Some(Denial::Unauthorized),
{
}

/// A principal without a tier uploads nothing: whatever the size and the
/// kind, the upload is turned down.
pub proof fn lemma_no_tier_uploads_nothing(
    user: UserView,
    token: UploadTokenView,
    size: int,
    private: Option<bool>,
    password: Option<Seq<char>>,
)
    requires
        user.current_tier is None,
    ensures
        upload_denial(user, token, size, private, password) is Some,
{
}

} // verus!
