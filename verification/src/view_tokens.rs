//! The view-token protocol. A view token is issued to whoever knows the
//! password of a file, and redeemed with each later read of that file in
//! place of the password. It is bound to the file, and, where the service is
//! configured so, to the address it was issued to. It is not used up, and it
//! does not expire.

use crate::errors::{Denial, StoreFault};
use crate::files::FileMetadata;
use crate::password::{hash_secret, verifies, verify_secret, ADDRESS_COST};
use crate::payloads::{CreateViewTokenPayload, CreateViewTokenReturnPayload};
use crate::settings::Settings;
use crate::string_generator::{generate_id, generate_string, is_secret_of};
use crate::text::{join, opt_text, text_eq};
use vstd::prelude::*;
use vstd::string::*;

verus! {

/// Length of the secret of a view token.
pub const VIEW_TOKEN_LENGTH: usize = 64;

/// Whether view tokens are bound to the address of the requester.
#[derive(Debug, Clone, Copy, PartialEq, Eq, Structural)]
pub enum IpBinding {
    /// A token is only good from the address it was issued to.
    Bound,
    /// A token is good from anywhere.
    Unbound,
}

/// A view token as the store keeps it.
#[derive(Debug)]
pub struct ViewTokenRecord {
    pub id: String,
    /// The file the token was issued for.
    pub fileid: String,
    /// The secret.
    pub token: String,
    /// The one-way hash of the address the token was issued to, where it is
    /// bound to one.
    pub ip: Option<String>,
}

/// The mathematical content of a `ViewTokenRecord`.
pub struct ViewTokenRecordView {
    pub id: Seq<char>,
    pub fileid: Seq<char>,
    pub token: Seq<char>,
    pub ip: Option<Seq<char>>,
}

impl View for ViewTokenRecord {
    type V = ViewTokenRecordView;

    open spec fn view(&self) -> ViewTokenRecordView {
        ViewTokenRecordView {
            id: self.id@,
            fileid: self.fileid@,
            token: self.token@,
            ip: opt_text(self.ip),
        }
    }
}

/// A redeemed view token: the right to read one file without its password.
#[derive(Debug)]
pub struct ViewTokenGrant {
    /// The file the grant is good for.
    pub fileid: String,
}

/// An issued view token: the record to store, and the answer to the
/// requester.
#[derive(Debug)]
pub struct IssuedViewToken {
    /// The one record that the caller adds to the store.
    pub record: ViewTokenRecord,
    pub payload: CreateViewTokenReturnPayload,
}

/// The records that the store gains from the outcome of a request for a view
/// token: the record of the issued token, or none.
pub open spec fn records_gained(outcome: Result<IssuedViewToken, Denial>) -> Seq<ViewTokenRecord> {
    match outcome {
        Ok(issued) => seq![issued.record],
        Err(_) => Seq::empty(),
    }
}

/// The address that embeds the view token `secret` for the file `id`.
pub open spec fn view_url(base_url: Seq<char>, id: Seq<char>, secret: Seq<char>) -> Seq<char> {
    base_url + "/"@ + id + "?vt="@ + secret
}

/// Whether a record lets a requester through, given what was found out about
/// it: whether it is the record of the presented secret, whether it is the
/// record of the requested file, and whether the requester's address
/// verifies against the hash in it. The address only counts where tokens
/// are bound.
pub open spec fn record_admits(
    same_secret: bool,
    same_file: bool,
    address_verified: bool,
    binding: IpBinding,
) -> bool {
    same_secret && same_file && (binding == IpBinding::Bound ==> address_verified)
}

/// Judges a record from what was found out about it.
pub fn judge_record(
    same_secret: bool,
    same_file: bool,
    address_verified: bool,
    binding: IpBinding,
) -> (admitted: bool)
    ensures
        admitted == record_admits(same_secret, same_file, address_verified, binding),
{
    same_secret && same_file && match binding {
        IpBinding::Bound => address_verified,
        IpBinding::Unbound => true,
    }
}

impl ViewTokenRecordView {
    /// Whether the address `ip` verifies against the hash in the record. An
    /// absent address verifies against nothing, and nothing verifies against
    /// an absent hash.
    pub open spec fn verifies_address(self, ip: Option<Seq<char>>) -> bool {
        ip is Some && self.ip is Some && verifies(ip->0, self.ip->0)
    }

    /// Whether the record lets a requester at address `ip` read the file
    /// `fileid` with the secret `secret`: it is the record of that secret
    /// and of that file, and, where tokens are bound, the address verifies
    /// against the stored hash.
    pub open spec fn admits(
        self,
        secret: Seq<char>,
        fileid: Seq<char>,
        ip: Option<Seq<char>>,
        binding: IpBinding,
    ) -> bool {
        record_admits(
            self.token == secret,
            self.fileid == fileid,
            self.verifies_address(ip),
            binding,
        )
    }
}

/// Whether the records that a lookup by secret and file returned redeem the
/// token: the lookup did not fail, and returned exactly one record, which
/// admits the requester.
pub open spec fn redeems(
    lookup: Result<Seq<ViewTokenRecord>, StoreFault>,
    secret: Seq<char>,
    fileid: Seq<char>,
    ip: Option<Seq<char>>,
    binding: IpBinding,
) -> bool {
    &&& lookup is Ok
    &&& lookup->Ok_0.len() == 1
    &&& lookup->Ok_0[0]@.admits(secret, fileid, ip, binding)
}

/// What a request for a view token is answered with before anything is drawn
/// or hashed, given what was found out about it: whether the file was found,
/// whether the supplied password verifies against its stored hash, and
/// whether the requester has an address. `NotFound` where there is no file,
/// `Unauthorized` where the password does not verify, `BadRequest` where
/// tokens are bound and there is no address.
pub open spec fn issue_verdict(
    found: bool,
    verified: bool,
    has_address: bool,
    binding: IpBinding,
) -> Option<Denial> {
    if !found {
        Some(Denial::NotFound)
    } else if !verified {
        Some(Denial::Unauthorized)
    } else if binding == IpBinding::Bound && !has_address {
        Some(Denial::BadRequest)
    } else {
        None
    }
}

/// Judges a request for a view token from what was found out about it.
pub fn judge_issue(found: bool, verified: bool, has_address: bool, binding: IpBinding) -> (denial:
    Option<Denial>)
    ensures
        denial == issue_verdict(found, verified, has_address, binding),
{
    if !found {
        Some(Denial::NotFound)
    } else if !verified {
        Some(Denial::Unauthorized)
    } else {
        match binding {
            IpBinding::Bound => if has_address {
                None
            } else {
                Some(Denial::BadRequest)
            },
            IpBinding::Unbound => None,
        }
    }
}

/// What a request for a view token is answered with before anything is drawn
/// or hashed: `NotFound` where the file lookup failed or found nothing,
/// `Unauthorized` where the supplied password does not verify against the
/// stored hash, `BadRequest` where tokens are bound and the requester has no
/// address.
pub open spec fn issue_denial(
    file: Result<Seq<FileMetadata>, StoreFault>,
    password: Seq<char>,
    ip: Option<Seq<char>>,
    binding: IpBinding,
) -> Option<Denial> {
    let found = file is Ok && file->Ok_0.len() > 0;
    issue_verdict(found, found && verifies(password, file->Ok_0[0].password@), ip is Some, binding)
}

/// Whether `issued` is a view token for the file `id`, issued to a requester
/// at `ip`: fresh identifier and secret, the secret in the answer and in its
/// address, and the hash of the requester's address where tokens are bound.
pub open spec fn is_issued_for(
    issued: IssuedViewToken,
    id: Seq<char>,
    ip: Option<Seq<char>>,
    base_url: Seq<char>,
    binding: IpBinding,
) -> bool {
    &&& issued.record.fileid@ == id
    &&& is_secret_of(issued.record.id@, 15)
    &&& is_secret_of(issued.record.token@, 64)
    &&& match binding {
        IpBinding::Bound => ip is Some && issued.record.ip is Some && verifies(
            ip->0,
            issued.record.ip->0@,
        ),
        IpBinding::Unbound => issued.record.ip is None,
    }
    &&& issued.payload.token@ == issued.record.token@
    &&& issued.payload.url@ == view_url(base_url, id, issued.record.token@)
}

/// Puts the record and the answer of a view token together.
pub fn assemble_view_token(
    id: &str,
    token_id: String,
    secret: String,
    ip_hash: Option<String>,
    settings: &Settings,
) -> (issued: IssuedViewToken)
    ensures
        issued.record.id == token_id,
        issued.record.fileid@ == id@,
        issued.record.token@ == secret@,
        issued.record.ip == ip_hash,
        issued.payload.token@ == secret@,
        issued.payload.url@ == view_url(settings.general.base_url@, id@, secret@),
{
    let mut url = join(settings.general.base_url.as_str(), "/");
    url.append(id);
    url.append("?vt=");
    url.append(secret.as_str());
    let record = ViewTokenRecord {
        id: token_id,
        fileid: String::from_str(id),
        token: secret.clone(),
        ip: ip_hash,
    };
    IssuedViewToken { record, payload: CreateViewTokenReturnPayload { url, token: secret } }
}

/// Issues a view token for the file `id` to a requester who supplies the
/// password in `data`. `file` holds what a lookup of the file returned, `ip`
/// the address of the requester.
///
/// The outcome says all that is to be done: on `Err` nothing is stored, on
/// `Ok` the caller stores the one record in it. A token is only issued
/// against the right password; where it is, nothing but a failure to hash the
/// address stands in the way.
pub fn create_view_token(
    id: &str,
    data: &CreateViewTokenPayload,
    file: Result<Vec<FileMetadata>, StoreFault>,
    ip: Option<&str>,
    settings: &Settings,
    binding: IpBinding,
) -> (outcome: Result<IssuedViewToken, Denial>)
    ensures
        match issue_denial(
            match file {
                Ok(rows) => Ok(rows@),
                Err(fault) => Err(fault),
            },
            data.password@,
            match ip {
                Some(address) => Some(address@),
                None => None,
            },
            binding,
        ) {
            Some(denial) => outcome is Err && outcome->Err_0 == denial,
            None => match outcome {
                Ok(issued) => is_issued_for(
                    issued,
                    id@,
                    match ip {
                        Some(address) => Some(address@),
                        None => None,
                    },
                    settings.general.base_url@,
                    binding,
                ),
                Err(denial) => denial == Denial::Internal && binding == IpBinding::Bound,
            },
        },
        outcome is Err ==> records_gained(outcome).len() == 0,
        outcome is Ok ==> records_gained(outcome).len() == 1 && records_gained(
            outcome,
        )[0].fileid@ == id@,
{
    let stored = match &file {
        Ok(rows) => if rows.len() > 0 {
            Some(rows[0].password.as_str())
        } else {
            None
        },
        Err(_) => None,
    };
    let verified = match stored {
        Some(hash) => verify_secret(data.password.as_str(), hash),
        None => false,
    };
    match judge_issue(stored.is_some(), verified, ip.is_some(), binding) {
        Some(denial) => {
            return Err(denial);
        },
        None => {},
    }
    let ip_hash = match (binding, ip) {
        (IpBinding::Bound, Some(address)) => match hash_secret(address, ADDRESS_COST) {
            Ok(hash) => Some(hash),
            Err(_) => {
                return Err(Denial::Internal);
            },
        },
        _ => None,
    };
    let token_id = generate_id();
    let secret = generate_string(Some(VIEW_TOKEN_LENGTH));
    Ok(assemble_view_token(id, token_id, secret, ip_hash, settings))
}

/// Redeems the view token `secret` for the file `fileid`. `lookup` holds the
/// records that the store keeps under that secret and that file, `ip` the
/// address of the requester. Any mismatch is `Unauthorized`: a failed lookup,
/// no record or more than one, a record of another secret or another file,
/// and, where tokens are bound, an address that does not verify.
pub fn check_view_token(
    secret: &str,
    fileid: &str,
    lookup: Result<Vec<ViewTokenRecord>, StoreFault>,
    ip: Option<&str>,
    binding: IpBinding,
) -> (outcome: Result<ViewTokenGrant, Denial>)
    ensures
        match outcome {
            Ok(grant) => grant.fileid@ == fileid@,
            Err(denial) => denial == Denial::Unauthorized,
        },
        outcome is Ok <==> redeems(
            match lookup {
                Ok(rows) => Ok(rows@),
                Err(fault) => Err(fault),
            },
            secret@,
            fileid@,
            match ip {
                Some(address) => Some(address@),
                None => None,
            },
            binding,
        ),
{
    let rows = match lookup {
        Ok(rows) => rows,
        Err(_) => {
            return Err(Denial::Unauthorized);
        },
    };
    if rows.len() != 1 {
        return Err(Denial::Unauthorized);
    }
    let record = &rows[0];
    let same_secret = text_eq(record.token.as_str(), secret);
    let same_file = text_eq(record.fileid.as_str(), fileid);
    let address_verified = match binding {
        IpBinding::Unbound => false,
        IpBinding::Bound => same_secret && same_file && match (ip, &record.ip) {
            (Some(address), Some(hash)) => verify_secret(address, hash.as_str()),
            _ => false,
        },
    };
    if !judge_record(same_secret, same_file, address_verified, binding) {
        return Err(Denial::Unauthorized);
    }
    Ok(ViewTokenGrant { fileid: String::from_str(fileid) })
}

/// A view token is never issued against a wrong password: the request is
/// denied, and the store gains no record. Against the right password,
/// nothing but a missing address stands in the way.
pub proof fn lemma_issue_needs_the_password(
    file: FileMetadata,
    password: Seq<char>,
    ip: Option<Seq<char>>,
    binding: IpBinding,
)
    ensures
        !verifies(password, file.password@) ==> issue_denial(
            Ok(seq![file]),
            password,
            ip,
            binding,
        ) == Some(Denial::Unauthorized),
        verifies(password, file.password@) && (binding == IpBinding::Unbound || ip is Some)
            ==> issue_denial(Ok(seq![file]), password, ip, binding) is None,
        forall|denial: Denial| (#[trigger] records_gained(Err(denial))).len() == 0,
{
}

/// What is issued for a file is one record, of that file.
pub proof fn lemma_issue_gains_one_record(
    issued: IssuedViewToken,
    id: Seq<char>,
    ip: Option<Seq<char>>,
    base_url: Seq<char>,
    binding: IpBinding,
)
    requires
        is_issued_for(issued, id, ip, base_url, binding),
    ensures
        records_gained(Ok(issued)).len() == 1,
        records_gained(Ok(issued))[0].fileid@ == id,
{
}

/// A view token is good for the file it was issued for and for no other:
/// redeemed against another file, it is denied, whatever the secret, the
/// address and the binding.
pub proof fn lemma_token_is_bound_to_its_file(
    record: ViewTokenRecord,
    secret: Seq<char>,
    fileid: Seq<char>,
    ip: Option<Seq<char>>,
    binding: IpBinding,
)
    requires
        record.fileid@ != fileid,
    ensures
        !redeems(Ok(seq![record]), secret, fileid, ip, binding),
{
}

/// A token that was issued to an address redeems from that address, as often
/// as it is presented: the record of an issued token admits its requester.
pub proof fn lemma_issued_token_redeems(
    issued: IssuedViewToken,
    id: Seq<char>,
    ip: Option<Seq<char>>,
    base_url: Seq<char>,
    binding: IpBinding,
)
    requires
        is_issued_for(issued, id, ip, base_url, binding),
    ensures
        redeems(Ok(seq![issued.record]), issued.payload.token@, id, ip, binding),
{
}

} // verus!
