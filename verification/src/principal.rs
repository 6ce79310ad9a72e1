//! Principals: the resolved identity of a caller and the state of its
//! entitlement, read from the store for one request.

use crate::text::opt_text;
use crate::tier::{resolve_tier, Tiers};
use vstd::prelude::*;

verus! {

/// A user as resolved from a credential: identity, counters and tier.
#[derive(Debug)]
pub struct User {
    pub id: String,
    /// The session secret the user was resolved from, if it was a session.
    pub auth: Option<String>,
    pub username: String,
    pub permission_level: i32,
    pub display_name: String,
    pub email: String,
    pub total_views: i32,
    pub total_uploads: i32,
    pub total_private_uploads: i32,
    pub total_password_protected_uploads: i32,
    /// Bytes of storage in use.
    pub storage_used: i32,
    /// The address the request came from, in text.
    pub ip: Option<String>,
    /// Reference to the billing customer.
    pub stripe_id: Option<String>,
    /// The tier the user's plan resolves to; `None` is no entitlement.
    pub current_tier: Option<Tiers>,
}

/// The mathematical content of a `User`.
pub struct UserView {
    pub id: Seq<char>,
    pub auth: Option<Seq<char>>,
    pub username: Seq<char>,
    pub permission_level: int,
    pub display_name: Seq<char>,
    pub email: Seq<char>,
    pub total_views: int,
    pub total_uploads: int,
    pub total_private_uploads: int,
    pub total_password_protected_uploads: int,
    pub storage_used: int,
    pub ip: Option<Seq<char>>,
    pub stripe_id: Option<Seq<char>>,
    pub current_tier: Option<Tiers>,
}

impl View for User {
    type V = UserView;

    open spec fn view(&self) -> UserView {
        UserView {
            id: self.id@,
            auth: opt_text(self.auth),
            username: self.username@,
            permission_level: self.permission_level as int,
            display_name: self.display_name@,
            email: self.email@,
            total_views: self.total_views as int,
            total_uploads: self.total_uploads as int,
            total_private_uploads: self.total_private_uploads as int,
            total_password_protected_uploads: self.total_password_protected_uploads as int,
            storage_used: self.storage_used as int,
            ip: opt_text(self.ip),
            stripe_id: opt_text(self.stripe_id),
            current_tier: self.current_tier,
        }
    }
}

/// A row of the user table, as a lookup hands it over.
#[derive(Debug)]
pub struct UserRow {
    pub id: String,
    pub username: String,
    pub display_name: String,
    pub email: String,
    pub permission_level: i32,
    pub total_views: i32,
    pub total_uploads: i32,
    pub total_private_uploads: i32,
    pub total_password_protected_uploads: i32,
    pub storage_used: i32,
    pub stripe_id: Option<String>,
    /// The plan identifier stored for the user.
    pub current_tier: Option<String>,
}

impl UserRow {
    /// The principal a row stands for when it was found through the session
    /// secret `auth` in a request from `ip`: the row's identity and counters,
    /// and the tier its plan identifier resolves to.
    pub open spec fn principal(self, auth: Option<Seq<char>>, ip: Option<Seq<char>>) -> UserView {
        UserView {
            id: self.id@,
            auth,
            username: self.username@,
            permission_level: self.permission_level as int,
            display_name: self.display_name@,
            email: self.email@,
            total_views: self.total_views as int,
            total_uploads: self.total_uploads as int,
            total_private_uploads: self.total_private_uploads as int,
            total_password_protected_uploads: self.total_password_protected_uploads as int,
            storage_used: self.storage_used as int,
            ip,
            stripe_id: opt_text(self.stripe_id),
            current_tier: resolve_tier(opt_text(self.current_tier)),
        }
    }

    /// The author a row stands for where only its public face is wanted: no
    /// session, no address, no billing reference, no tier, and the counters
    /// of protected uploads at zero.
    pub open spec fn author(self) -> UserView {
        UserView {
            id: self.id@,
            auth: None,
            username: self.username@,
            permission_level: self.permission_level as int,
            display_name: self.display_name@,
            email: self.email@,
            total_views: self.total_views as int,
            total_uploads: self.total_uploads as int,
            total_private_uploads: 0,
            total_password_protected_uploads: 0,
            storage_used: self.storage_used as int,
            ip: None,
            stripe_id: None,
            current_tier: None,
        }
    }
}

/// An upload token: a revocable credential for uploads, with its own count
/// of uses.
#[derive(Debug)]
pub struct UploadToken {
    pub id: String,
    /// Human name, unique per owner.
    pub name: String,
    pub description: Option<String>,
    /// How many uploads the token admits in all; `None` sets no limit.
    pub max_uses: Option<i32>,
    /// How many uploads were accepted through the token.
    pub uses: i32,
    /// The secret that is presented as bearer credential.
    pub token: String,
}

/// The mathematical content of an `UploadToken`.
pub struct UploadTokenView {
    pub id: Seq<char>,
    pub name: Seq<char>,
    pub description: Option<Seq<char>>,
    pub max_uses: Option<int>,
    pub uses: int,
    pub token: Seq<char>,
}

impl View for UploadToken {
    type V = UploadTokenView;

    open spec fn view(&self) -> UploadTokenView {
        UploadTokenView {
            id: self.id@,
            name: self.name@,
            description: opt_text(self.description),
            max_uses: match self.max_uses {
                Some(m) => Some(m as int),
                None => None,
            },
            uses: self.uses as int,
            token: self.token@,
        }
    }
}

impl UploadTokenView {
    /// The use count has not passed the ceiling, where there is one.
    pub open spec fn wf(self) -> bool {
        &&& 0 <= self.uses
        &&& self.max_uses matches Some(m) ==> self.uses <= m
    }

    /// Whether one more upload stays within the ceiling.
    pub open spec fn has_uses_left(self) -> bool {
        match self.max_uses {
            Some(m) => self.uses + 1 <= m,
            None => true,
        }
    }

    /// The token after one more accepted upload.
    pub open spec fn used_once(self) -> UploadTokenView {
        UploadTokenView { uses: self.uses + 1, ..self }
    }

    /// The token after `attempts` uploads were tried through it one after the
    /// other, each accepted upload counted before the next is tried.
    pub open spec fn after_attempts(self, attempts: nat) -> UploadTokenView
        decreases attempts,
    {
        if attempts == 0 {
            self
        } else {
            let before = self.after_attempts((attempts - 1) as nat);
            if before.has_uses_left() {
                before.used_once()
            } else {
                before
            }
        }
    }
}

/// A user together with the upload token it presented.
#[derive(Debug)]
pub struct Uploader {
    pub user: User,
    pub upload_token: UploadToken,
}

/// A row of the upload-token table joined to the row of its owner.
#[derive(Debug)]
pub struct UploaderRow {
    pub user: UserRow,
    pub token_id: String,
    pub token_name: String,
    pub token_description: Option<String>,
    pub token_max_uses: Option<i32>,
    pub token_uses: i32,
}

impl UploaderRow {
    /// The token a joined row stands for when it was found through `secret`.
    pub open spec fn upload_token(self, secret: Seq<char>) -> UploadTokenView {
        UploadTokenView {
            id: self.token_id@,
            name: self.token_name@,
            description: opt_text(self.token_description),
            max_uses: match self.token_max_uses {
                Some(m) => Some(m as int),
                None => None,
            },
            uses: self.token_uses as int,
            token: secret,
        }
    }
}

impl UploadToken {
    /// Whether the token admits one more upload: its use count, with the new
    /// upload added, stays within its ceiling.
    pub fn has_uses_left(&self) -> (left: bool)
        ensures
            left == self@.has_uses_left(),
    {
        match self.max_uses {
            Some(m) => self.uses < m,
            None => true,
        }
    }

    /// Counts one accepted upload. A count that has reached the largest
    /// number the store can hold stays as it is, and `false` is returned.
    pub fn record_use(&mut self) -> (counted: bool)
        ensures
            counted == (old(self).uses < i32::MAX),
            counted ==> final(self)@ == old(self)@.used_once(),
            !counted ==> *final(self) == *old(self),
    {
        if self.uses < i32::MAX {
            self.uses = self.uses + 1;
            true
        } else {
            false
        }
    }
}

/// An accepted upload keeps the use count within the ceiling.
pub proof fn lemma_use_keeps_ceiling(token: UploadTokenView)
    requires
        token.wf(),
        token.has_uses_left(),
    ensures
        token.used_once().wf(),
{
}

/// However many uploads are tried through a token, its use count never passes
/// its ceiling, and each accepted upload is counted exactly once: after
/// `attempts` tries on a token with `m` uses left, `min(attempts, m)` uploads
/// were accepted.
pub proof fn lemma_attempts_stay_within_ceiling(token: UploadTokenView, attempts: nat)
    requires
        token.wf(),
    ensures
        token.after_attempts(attempts).wf(),
        token.after_attempts(attempts).max_uses == token.max_uses,
        match token.max_uses {
            Some(m) => token.after_attempts(attempts).uses == if token.uses + attempts <= m {
                token.uses + attempts
            } else {
                m
            },
            None => token.after_attempts(attempts).uses == token.uses + attempts,
        },
    decreases attempts,
{
    if attempts > 0 {
        lemma_attempts_stay_within_ceiling(token, (attempts - 1) as nat);
    }
}

} // verus!
