//! The credential resolver: from the `Authorization` header of a request and
//! the rows a store lookup returned to a principal, or to the reason why
//! there is none.
//!
//! Resolving takes two steps with one lookup between them. The header is read
//! first, so that a malformed one costs no lookup; the rows that the secret
//! was found under are judged second. Neither step changes anything.

use crate::errors::{Denial, StoreFault};
use crate::principal::{UploadToken, Uploader, UploaderRow, User, UserRow, UserView};
use crate::text::{find_only_space, only_space_at, opt_text};
use crate::tier::priceid_mapping;
use vstd::prelude::*;
use vstd::string::*;

verus! {

/// Whether the content of an `Authorization` header is well formed: it
/// splits at spaces into exactly two parts, scheme and secret, which is to
/// say that it holds exactly one space.
pub open spec fn is_well_formed(header: Seq<char>) -> bool {
    exists|i: int| only_space_at(header, i)
}

/// Whether `secret` is the secret in the content of an `Authorization`
/// header: the header is well formed, and the secret is what follows its
/// space.
pub open spec fn is_bearer_of(header: Seq<char>, secret: Seq<char>) -> bool {
    exists|i: int| only_space_at(header, i) && secret == header.skip(i + 1)
}

/// Reads the secret out of the content of an `Authorization` header. An
/// absent header and a malformed one are both `Unauthenticated`.
pub fn bearer_token(authorization: Option<&str>) -> (secret: Result<String, Denial>)
    ensures
        match secret {
            Ok(value) => authorization is Some && is_bearer_of(authorization->0@, value@),
            Err(denial) => denial == Denial::Unauthenticated && (authorization is Some
                ==> !is_well_formed(authorization->0@)),
        },
{
    match authorization {
        None => Err(Denial::Unauthenticated),
        Some(header) => match find_only_space(header) {
            None => Err(Denial::Unauthenticated),
            Some(at) => {
                let length = header.unicode_len();
                let value = header.substring_char(at + 1, length);
                assert(value@ == header@.skip(at + 1));
                assert(only_space_at(header@, at as int) && value@ == header@.skip(at as int + 1));
                Ok(String::from_str(value))
            },
        },
    }
}

/// What a session lookup resolves to. A failed lookup is `Internal`; anything
/// but exactly one row is `Unauthenticated`; the one row is the principal,
/// with the secret it was found under and the requester's address.
pub open spec fn session_principal(
    secret: Seq<char>,
    lookup: Result<Seq<UserRow>, StoreFault>,
    ip: Option<Seq<char>>,
) -> Result<UserView, Denial> {
    match lookup {
        Err(_) => Err(Denial::Internal),
        Ok(rows) => if rows.len() == 1 {
            Ok(rows[0].principal(Some(secret), ip))
        } else {
            Err(Denial::Unauthenticated)
        },
    }
}

/// What an upload-token lookup resolves to: as for a session, but the
/// principal carries no session secret.
pub open spec fn uploader_principal(
    lookup: Result<Seq<UploaderRow>, StoreFault>,
    ip: Option<Seq<char>>,
) -> Result<UserView, Denial> {
    match lookup {
        Err(_) => Err(Denial::Internal),
        Ok(rows) => if rows.len() == 1 {
            Ok(rows[0].user.principal(None, ip))
        } else {
            Err(Denial::Unauthenticated)
        },
    }
}

/// Builds the principal of a row.
fn principal_of(row: UserRow, auth: Option<String>, ip: Option<String>) -> (user: User)
    ensures
        user@ == row.principal(opt_text(auth), opt_text(ip)),
{
    let current_tier = priceid_mapping(row.current_tier);
    User {
        id: row.id,
        auth,
        username: row.username,
        permission_level: row.permission_level,
        display_name: row.display_name,
        email: row.email,
        total_views: row.total_views,
        total_uploads: row.total_uploads,
        total_private_uploads: row.total_private_uploads,
        total_password_protected_uploads: row.total_password_protected_uploads,
        storage_used: row.storage_used,
        ip,
        stripe_id: row.stripe_id,
        current_tier,
    }
}

impl User {
    /// Resolves a session: `lookup` holds the users whose session secret is
    /// `secret`, `ip` the address of the requester.
    pub fn from_session(
        secret: &str,
        lookup: Result<Vec<UserRow>, StoreFault>,
        ip: Option<String>,
    ) -> (resolved: Result<User, Denial>)
        ensures
            match session_principal(
                secret@,
                match lookup {
                    Ok(rows) => Ok(rows@),
                    Err(fault) => Err(fault),
                },
                opt_text(ip),
            ) {
                Ok(principal) => resolved is Ok && resolved->Ok_0@ == principal,
                Err(denial) => resolved is Err && resolved->Err_0 == denial,
            },
    {
        match lookup {
            Err(_) => Err(Denial::Internal),
            Ok(mut rows) => {
                if rows.len() != 1 {
                    return Err(Denial::Unauthenticated);
                }
                match rows.pop() {
                    Some(row) => Ok(principal_of(row, Some(String::from_str(secret)), ip)),
                    None => Err(Denial::Unauthenticated),
                }
            },
        }
    }
}

impl Uploader {
    /// Resolves an upload token: `lookup` holds the tokens whose secret is
    /// `secret`, each joined to its owner; `ip` is the address of the
    /// requester. The result carries the owner's entitlement and the token's
    /// own count of uses.
    pub fn from_upload_token(
        secret: &str,
        lookup: Result<Vec<UploaderRow>, StoreFault>,
        ip: Option<String>,
    ) -> (resolved: Result<Uploader, Denial>)
        ensures
            match uploader_principal(
                match lookup {
                    Ok(rows) => Ok(rows@),
                    Err(fault) => Err(fault),
                },
                opt_text(ip),
            ) {
                Ok(principal) => resolved is Ok && resolved->Ok_0.user@ == principal
                    && resolved->Ok_0.upload_token@ == lookup->Ok_0@[0].upload_token(secret@),
                Err(denial) => resolved is Err && resolved->Err_0 == denial,
            },
    {
        match lookup {
            Err(_) => Err(Denial::Internal),
            Ok(mut rows) => {
                if rows.len() != 1 {
                    return Err(Denial::Unauthenticated);
                }
                match rows.pop() {
                    Some(row) => {
                        let upload_token = UploadToken {
                            id: row.token_id,
                            name: row.token_name,
                            description: row.token_description,
                            max_uses: row.token_max_uses,
                            uses: row.token_uses,
                            token: String::from_str(secret),
                        };
                        let user = principal_of(row.user, None, ip);
                        Ok(Uploader { user, upload_token })
                    },
                    None => Err(Denial::Unauthenticated),
                }
            },
        }
    }
}

/// The author of a file, for display: identity and public counters of the
/// row, nothing of its entitlement.
pub fn get_user_via_id(row: UserRow) -> (user: User)
    ensures
        user@ == row.author(),
{
    User {
        id: row.id,
        auth: None,
        username: row.username,
        permission_level: row.permission_level,
        display_name: row.display_name,
        email: row.email,
        total_views: row.total_views,
        total_uploads: row.total_uploads,
        total_private_uploads: 0,
        total_password_protected_uploads: 0,
        storage_used: row.storage_used,
        ip: None,
        stripe_id: None,
        current_tier: None,
    }
}

/// A header has at most one secret: what `bearer_token` returns is pinned by
/// the header.
pub proof fn lemma_bearer_is_unique(header: Seq<char>, first: Seq<char>, second: Seq<char>)
    requires
        is_bearer_of(header, first),
        is_bearer_of(header, second),
    ensures
        first == second,
{
    let i = choose|i: int| only_space_at(header, i) && first == header.skip(i + 1);
    let j = choose|j: int| only_space_at(header, j) && second == header.skip(j + 1);
    assert(header[i] == ' ' && header[j] == ' ');
    assert(i == j);
}

/// A header without a space resolves to nobody, and so does one with two.
pub proof fn lemma_malformed_header_is_unauthenticated(header: Seq<char>)
    requires
        (forall|i: int| 0 <= i < header.len() ==> header[i] != ' ') || (exists|i: int, j: int|
            0 <= i < j < header.len() && header[i] == ' ' && header[j] == ' '),
    ensures
        !is_well_formed(header),
        forall|secret: Seq<char>| !is_bearer_of(header, secret),
{
    assert forall|k: int| !only_space_at(header, k) by {
        if only_space_at(header, k) {
            if exists|i: int, j: int|
                0 <= i < j < header.len() && header[i] == ' ' && header[j] == ' ' {
                let (i, j) = choose|i: int, j: int|
                    0 <= i < j < header.len() && header[i] == ' ' && header[j] == ' ';
                assert(i == k && j == k);
            }
        }
    }
}

/// A header of scheme, one space and a secret without spaces yields that
/// secret.
pub proof fn lemma_bearer_of_scheme_and_secret(scheme: Seq<char>, secret: Seq<char>)
    requires
        forall|i: int| 0 <= i < scheme.len() ==> scheme[i] != ' ',
        forall|i: int| 0 <= i < secret.len() ==> secret[i] != ' ',
    ensures
        is_bearer_of(scheme + seq![' '] + secret, secret),
{
    let header = scheme + seq![' '] + secret;
    let at = scheme.len() as int;
    assert(header.skip(at + 1) =~= secret);
    assert(only_space_at(header, at));
}

} // verus!
