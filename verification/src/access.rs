//! The access decision: whether a file may be read, and whether the read
//! counts as a view.
//!
//! The owner of a file reads it for free. To anyone else a private file does
//! not exist, a password-protected one is open only with a view token that
//! was redeemed for it, and every read that is allowed counts once, on the
//! file and on its owner.

use crate::errors::{Denial, StoreFault};
use crate::files::{FileMetadata, FileMetadataView};
use crate::format_upload_url::{embedded_upload_url, format_upload_url};
use crate::principal::{User, UserView};
use crate::settings::Settings;
use crate::text::text_eq;
use crate::view_tokens::{check_view_token, redeems, IpBinding, ViewTokenGrant, ViewTokenRecord};
use vstd::prelude::*;
use vstd::string::*;

verus! {

/// The outcome of an access decision.
#[derive(Debug, Clone, Copy, PartialEq, Eq, Structural)]
pub enum ReadDecision {
    /// The file may be read. `counts` says whether the read is a view, to be
    /// added to the counters of the file and of its owner.
    Allow { counts: bool },
    /// The file may not be read.
    Deny(Denial),
}

impl ReadDecision {
    /// What the decision adds to the view counter of the file, and to the
    /// count of views of its owner.
    pub open spec fn views_added(self) -> int {
        if self == (ReadDecision::Allow { counts: true }) {
            1
        } else {
            0
        }
    }
}

/// Whether the requester owns the file. An anonymous requester owns nothing.
pub open spec fn is_owner(requester: Option<UserView>, file: FileMetadataView) -> bool {
    requester is Some && requester->0.id == file.userid
}

/// The access decision for a requester, a file, and the file that a redeemed
/// view token is good for, if one was redeemed.
pub open spec fn read_decision(
    requester: Option<UserView>,
    file: FileMetadataView,
    granted: Option<Seq<char>>,
) -> ReadDecision {
    if is_owner(requester, file) {
        ReadDecision::Allow { counts: false }
    } else if file.is_private {
        ReadDecision::Deny(Denial::NotFound)
    } else if file.is_password_protected() && granted != Some(file.id) {
        ReadDecision::Deny(Denial::Unauthorized)
    } else {
        ReadDecision::Allow { counts: true }
    }
}

/// Whether the decision on a read depends on a view token: the requester is
/// not the owner, and the file is public and password-protected.
pub open spec fn token_decides(requester: Option<UserView>, file: FileMetadataView) -> bool {
    !is_owner(requester, file) && !file.is_private && file.is_password_protected()
}

/// The decision on a request to read a file. `file` is what the lookup of
/// the file returned, `vt` the view token that came with the request,
/// `tokens` what the lookup of that token for that file returned. A file that
/// the store does not return is not found.
pub open spec fn file_read(
    requester: Option<UserView>,
    file: Result<Seq<FileMetadata>, StoreFault>,
    vt: Option<Seq<char>>,
    tokens: Result<Seq<ViewTokenRecord>, StoreFault>,
    ip: Option<Seq<char>>,
    binding: IpBinding,
) -> ReadDecision {
    if file is Err || file->Ok_0.len() == 0 {
        ReadDecision::Deny(Denial::NotFound)
    } else {
        let found = file->Ok_0[0]@;
        read_decision(
            requester,
            found,
            if vt is Some && redeems(tokens, vt->0, found.id, ip, binding) {
                Some(found.id)
            } else {
                None
            },
        )
    }
}

/// Whether `requester` owns `file`.
fn owns(requester: Option<&User>, file: &FileMetadata) -> (owner: bool)
    ensures
        owner == is_owner(
            match requester {
                Some(user) => Some(user@),
                None => None,
            },
            file@,
        ),
{
    match requester {
        Some(user) => text_eq(user.id.as_str(), file.userid.as_str()),
        None => false,
    }
}

/// Decides whether `requester` may read `file`, given the view token that
/// was redeemed with the request, if any.
pub fn decide_read(
    requester: Option<&User>,
    file: &FileMetadata,
    grant: Option<&ViewTokenGrant>,
) -> (decision: ReadDecision)
    ensures
        decision == read_decision(
            match requester {
                Some(user) => Some(user@),
                None => None,
            },
            file@,
            match grant {
                Some(g) => Some(g.fileid@),
                None => None,
            },
        ),
{
    if owns(requester, file) {
        return ReadDecision::Allow { counts: false };
    }
    if file.is_private {
        return ReadDecision::Deny(Denial::NotFound);
    }
    if file.is_password_protected() {
        let granted = match grant {
            Some(g) => text_eq(g.fileid.as_str(), file.id.as_str()),
            None => false,
        };
        if !granted {
            return ReadDecision::Deny(Denial::Unauthorized);
        }
    }
    ReadDecision::Allow { counts: true }
}

/// Whether the view token of a request has to be looked up before the read
/// can be decided. Where it need not, no lookup is owed.
pub fn needs_view_token(requester: Option<&User>, file: &FileMetadata) -> (needed: bool)
    ensures
        needed == token_decides(
            match requester {
                Some(user) => Some(user@),
                None => None,
            },
            file@,
        ),
{
    !owns(requester, file) && !file.is_private && file.is_password_protected()
}

/// Decides a request to read a file. `file` is what the lookup of the file
/// returned; `vt` is the view token of the request, `tokens` what the lookup
/// of that token for that file returned, and `ip` the address of the
/// requester. The token and its lookup are only looked at where the decision
/// depends on them.
pub fn get_file(
    vt: Option<&str>,
    requester: Option<&User>,
    ip: Option<&str>,
    file: &Result<Vec<FileMetadata>, StoreFault>,
    tokens: Result<Vec<ViewTokenRecord>, StoreFault>,
    binding: IpBinding,
) -> (decision: ReadDecision)
    ensures
        decision == file_read(
            match requester {
                Some(user) => Some(user@),
                None => None,
            },
            match file {
                Ok(rows) => Ok(rows@),
                Err(fault) => Err(*fault),
            },
            match vt {
                Some(secret) => Some(secret@),
                None => None,
            },
            match tokens {
                Ok(rows) => Ok(rows@),
                Err(fault) => Err(fault),
            },
            match ip {
                Some(address) => Some(address@),
                None => None,
            },
            binding,
        ),
{
    let rows = match file {
        Ok(rows) => rows,
        Err(_) => {
            return ReadDecision::Deny(Denial::NotFound);
        },
    };
    if rows.len() == 0 {
        return ReadDecision::Deny(Denial::NotFound);
    }
    let found = &rows[0];
    if !needs_view_token(requester, found) {
        return decide_read(requester, found, None);
    }
    match vt {
        None => decide_read(requester, found, None),
        Some(secret) => match check_view_token(secret, found.id.as_str(), tokens, ip, binding) {
            Ok(grant) => decide_read(requester, found, Some(&grant)),
            Err(_) => decide_read(requester, found, None),
        },
    }
}

/// What the page that embeds a file is made from.
#[derive(Debug)]
pub struct EmbedPage {
    /// The user whose embed settings shape the page: the owner of the file.
    pub author_id: String,
    /// The address of the file's content, with the view token of the request
    /// in it where there was one.
    pub file_url: String,
}

/// What a request for the page that embeds the file `id` is answered with:
/// the page, or `NotFound` where the store returns no such file or the file
/// is private and the requester not its owner. The password of a file is not
/// asked for here: it is asked for when the page fetches the content.
pub open spec fn embed_page(
    requester: Option<UserView>,
    file: Result<Seq<FileMetadata>, StoreFault>,
) -> Result<Seq<char>, Denial> {
    if file is Err || file->Ok_0.len() == 0 {
        Err(Denial::NotFound)
    } else if file->Ok_0[0].is_private && !is_owner(requester, file->Ok_0[0]@) {
        Err(Denial::NotFound)
    } else {
        Ok(file->Ok_0[0].userid@)
    }
}

/// Decides a request for the page that embeds the file `id`, and puts the
/// address of the file's content together.
pub fn get_file_in_html(
    id: &str,
    vt: Option<&str>,
    requester: Option<&User>,
    file: &Result<Vec<FileMetadata>, StoreFault>,
    settings: &Settings,
) -> (page: Result<EmbedPage, Denial>)
    ensures
        match embed_page(
            match requester {
                Some(user) => Some(user@),
                None => None,
            },
            match file {
                Ok(rows) => Ok(rows@),
                Err(fault) => Err(*fault),
            },
        ) {
            Ok(author) => page is Ok && page->Ok_0.author_id@ == author && page->Ok_0.file_url@
                == embedded_upload_url(
                settings.general.base_url@,
                id@,
                match vt {
                    Some(secret) => Some(secret@),
                    None => None,
                },
            ),
            Err(denial) => page is Err && page->Err_0 == denial,
        },
{
    let rows = match file {
        Ok(rows) => rows,
        Err(_) => {
            return Err(Denial::NotFound);
        },
    };
    if rows.len() == 0 {
        return Err(Denial::NotFound);
    }
    let found = &rows[0];
    if found.is_private && !owns(requester, found) {
        return Err(Denial::NotFound);
    }
    let mut file_url = format_upload_url(settings, id);
    match vt {
        Some(secret) => {
            file_url.append("?vt=");
            file_url.append(secret);
        },
        None => {},
    }
    Ok(EmbedPage { author_id: found.userid.clone(), file_url })
}

impl UserView {
    /// The user after one more read of one of its files by another.
    pub open spec fn viewed_once(self) -> UserView {
        UserView { total_views: self.total_views + 1, ..self }
    }
}

impl User {
    /// Counts one read of one of the user's files. A counter that has
    /// reached the largest number the store can hold stays as it is, and
    /// `false` is returned.
    pub fn record_view(&mut self) -> (counted: bool)
        ensures
            counted == (old(self).total_views < i32::MAX),
            counted ==> final(self)@ == old(self)@.viewed_once(),
            !counted ==> *final(self) == *old(self),
    {
        if self.total_views < i32::MAX {
            self.total_views = self.total_views + 1;
            true
        } else {
            false
        }
    }
}

/// Carries out what a decision says of the counters: a read that counts adds
/// one view to the file and one to its owner, both or none; any other
/// decision leaves both as they are. Returns whether a view was added.
pub fn record_read(decision: &ReadDecision, file: &mut FileMetadata, owner: &mut User) -> (counted:
    bool)
    ensures
        counted == (decision.views_added() == 1 && old(file).views < i32::MAX && old(owner).total_views < i32::MAX),
        counted ==> final(file)@ == old(file)@.viewed_once() && final(owner)@ == old(owner)@.viewed_once(),
        !counted ==> *final(file) == *old(file) && *final(owner) == *old(owner),
{
    match decision {
        ReadDecision::Allow { counts: true } => {
            if file.views < i32::MAX && owner.total_views < i32::MAX {
                file.record_view();
                owner.record_view();
                true
            } else {
                false
            }
        },
        _ => false,
    }
}

/// The owner of a file may always read it, private or not, with a password
/// or without, and the read adds nothing to the view counters.
pub proof fn lemma_owner_reads_for_free(
    requester: UserView,
    file: FileMetadataView,
    granted: Option<Seq<char>>,
)
    requires
        requester.id == file.userid,
    ensures
        read_decision(Some(requester), file, granted) == (ReadDecision::Allow { counts: false }),
        read_decision(Some(requester), file, granted).views_added() == 0,
{
}

/// Anyone but the owner may read a public file without a password, and each
/// such read adds exactly one view.
pub proof fn lemma_public_read_counts_once(
    requester: Option<UserView>,
    file: FileMetadataView,
    granted: Option<Seq<char>>,
)
    requires
        !is_owner(requester, file),
        !file.is_private,
        !file.is_password_protected(),
    ensures
        read_decision(requester, file, granted) == (ReadDecision::Allow { counts: true }),
        read_decision(requester, file, granted).views_added() == 1,
{
}

/// To anyone but its owner a private file does not exist, whatever token is
/// presented.
pub proof fn lemma_private_file_is_hidden(
    requester: Option<UserView>,
    file: FileMetadataView,
    granted: Option<Seq<char>>,
)
    requires
        !is_owner(requester, file),
        file.is_private,
    ensures
        read_decision(requester, file, granted) == ReadDecision::Deny(Denial::NotFound),
{
}

/// A view token that was redeemed for one file opens no other.
pub proof fn lemma_grant_opens_its_file_only(
    requester: Option<UserView>,
    file: FileMetadataView,
    granted: Seq<char>,
)
    requires
        !is_owner(requester, file),
        file.is_password_protected(),
        granted != file.id,
    ensures
        read_decision(requester, file, Some(granted)) is Deny,
{
}

} // verus!
