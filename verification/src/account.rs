//! Accounts: opening one, and changing its names, its password, and the way
//! its files are embedded.

use crate::errors::{Answer, Denial, StoreFault};
use crate::password::{hash_secret, verifies, verify_secret, HashFailure, PASSWORD_COST};
use crate::payloads::{
    ChangePasswordPayload, CreateUserReturnPayload, EditAccountPayload, EditEmbedConfigPayload,
    ProfileReturnPayload, RegisterPayload,
};
use crate::principal::User;
use crate::string_generator::{generate_id, is_secret_of};
use crate::text::opt_text;
use crate::tier::Tiers;
use crate::verify_hex_color::{is_hex_color, verify_hex_color};
use vstd::prelude::*;

verus! {

/// What an account shows of itself to its owner.
pub fn get_profile(user: User) -> (profile: Option<ProfileReturnPayload>)
    ensures
        profile is Some,
        profile->0.id == user.id,
        profile->0.username == user.username,
        profile->0.display_name == user.display_name,
        profile->0.email == user.email,
{
    Some(
        ProfileReturnPayload {
            id: user.id,
            username: user.username,
            display_name: user.display_name,
            email: user.email,
        },
    )
}

/// An account that is to be opened: the row that the caller adds to the
/// store.
#[derive(Debug)]
pub struct NewAccount {
    pub id: String,
    pub username: String,
    /// The hash of the password.
    pub password: String,
    pub email: String,
    pub display_name: String,
}

/// Why an account is not opened before its password is hashed, if it is
/// not: `Internal` where the lookup of its name and address failed,
/// `Conflict` where either is taken.
pub open spec fn registration_denial(taken: Result<usize, StoreFault>) -> Option<Denial> {
    match taken {
        Err(_) => Some(Denial::Internal),
        Ok(n) => if n > 0 {
            Some(Denial::Conflict)
        } else {
            None
        },
    }
}

/// Puts the row of a new account together, from the identifier that was
/// drawn for it and the outcome of hashing its password.
pub fn assemble_account(
    payload: &RegisterPayload,
    id: String,
    hashed: Result<String, HashFailure>,
) -> (outcome: Result<NewAccount, Denial>)
    ensures
        match hashed {
            Ok(hash) => outcome is Ok && {
                let account = outcome->Ok_0;
                &&& account.id == id
                &&& account.password == hash
                &&& account.username@ == payload.username@
                &&& account.email@ == payload.email@
                &&& account.display_name@ == payload.display_name@
            },
            Err(_) => outcome is Err && outcome->Err_0 == Denial::Internal,
        },
{
    match hashed {
        Ok(password) => Ok(
            NewAccount {
                id,
                username: payload.username.clone(),
                password,
                email: payload.email.clone(),
                display_name: payload.display_name.clone(),
            },
        ),
        Err(_) => Err(Denial::Internal),
    }
}

/// Opens an account. `taken` is the number of accounts that have the name
/// or the address of `payload`, as a lookup returned it. Where neither is
/// taken the account is opened, with a fresh identifier and the hash of its
/// password, unless the password cannot be hashed, which is `Internal`.
pub fn create_account(payload: &RegisterPayload, taken: Result<usize, StoreFault>) -> (outcome:
    Result<NewAccount, Denial>)
    ensures
        match registration_denial(taken) {
            Some(denial) => outcome is Err && outcome->Err_0 == denial,
            None => match outcome {
                Ok(account) => {
                    &&& is_secret_of(account.id@, 15)
                    &&& verifies(payload.password@, account.password@)
                    &&& account.username@ == payload.username@
                    &&& account.email@ == payload.email@
                    &&& account.display_name@ == payload.display_name@
                },
                Err(denial) => denial == Denial::Internal,
            },
        },
{
    match taken {
        Err(_) => {
            return Err(Denial::Internal);
        },
        Ok(n) => {
            if n > 0 {
                return Err(Denial::Conflict);
            }
        },
    }
    let hashed = hash_secret(payload.password.as_str(), PASSWORD_COST);
    let id = generate_id();
    assemble_account(payload, id, hashed)
}

/// The answer to an opened account, once its billing customer is made.
pub fn account_created(account: &NewAccount, stripe_id: String) -> (answer: CreateUserReturnPayload)
    ensures
        answer.id@ == account.id@,
        answer.stripe_id == stripe_id,
{
    CreateUserReturnPayload { id: account.id.clone(), stripe_id }
}

/// The names an account is to have.
#[derive(Debug)]
pub struct AccountEdit {
    pub username: String,
    pub display_name: String,
}

/// Changes the names of an account: each name that `payload` gives replaces
/// the one of `user`, each that it does not give stays. A request that gives
/// neither is a bad request.
pub fn edit_account(payload: &EditAccountPayload, user: &User) -> (outcome: Result<
    AccountEdit,
    Answer,
>)
    ensures
        match outcome {
            Ok(edit) => {
                &&& edit.username@ == match payload.username {
                    Some(name) => name@,
                    None => user.username@,
                }
                &&& edit.display_name@ == match payload.display_name {
                    Some(name) => name@,
                    None => user.display_name@,
                }
            },
            Err(answer) => answer == Answer::BadRequest,
        },
        outcome is Err <==> payload.username is None && payload.display_name is None,
{
    if payload.username.is_none() && payload.display_name.is_none() {
        return Err(Answer::BadRequest);
    }
    let username = match &payload.username {
        Some(name) => name.clone(),
        None => user.username.clone(),
    };
    let display_name = match &payload.display_name {
        Some(name) => name.clone(),
        None => user.display_name.clone(),
    };
    Ok(AccountEdit { username, display_name })
}

/// Why a password is not changed before the new one is hashed, if it is
/// not, given what was found out: whether the stored hash was found, and
/// whether the old password verifies against it. `InternalServerError`
/// where there is no stored hash, `Unauthorized` where the old password does
/// not verify.
pub open spec fn password_change_verdict(found: bool, verified: bool) -> Option<Answer> {
    if !found {
        Some(Answer::InternalServerError)
    } else if !verified {
        Some(Answer::Unauthorized)
    } else {
        None
    }
}

/// Judges a change of password from what was found out about it.
pub fn judge_password_change(found: bool, verified: bool) -> (denial: Option<Answer>)
    ensures
        denial == password_change_verdict(found, verified),
{
    if !found {
        Some(Answer::InternalServerError)
    } else if !verified {
        Some(Answer::Unauthorized)
    } else {
        None
    }
}

/// Why a password is not changed before the new one is hashed, if it is
/// not: `InternalServerError` where the lookup of the stored hash failed or
/// found nothing, `Unauthorized` where the old password does not verify
/// against it.
pub open spec fn password_change_denial(
    stored: Result<Seq<String>, StoreFault>,
    old_password: Seq<char>,
) -> Option<Answer> {
    let found = stored is Ok && stored->Ok_0.len() > 0;
    password_change_verdict(found, found && verifies(old_password, stored->Ok_0[0]@))
}

/// Changes the password of an account. `stored` is what the lookup of the
/// account's password hash returned. The outcome is the hash to store in
/// its place, which the new password verifies against.
pub fn change_password(
    payload: &ChangePasswordPayload,
    stored: &Result<Vec<String>, StoreFault>,
) -> (outcome: Result<String, Answer>)
    ensures
        match password_change_denial(
            match stored {
                Ok(rows) => Ok(rows@),
                Err(fault) => Err(*fault),
            },
            payload.old_password@,
        ) {
            Some(answer) => outcome is Err && outcome->Err_0 == answer,
            None => match outcome {
                Ok(hash) => verifies(payload.new_password@, hash@),
                Err(answer) => answer == Answer::InternalServerError,
            },
        },
{
    let hash = match stored {
        Ok(rows) => if rows.len() > 0 {
            Some(rows[0].as_str())
        } else {
            None
        },
        Err(_) => None,
    };
    let verified = match hash {
        Some(found) => verify_secret(payload.old_password.as_str(), found),
        None => false,
    };
    match judge_password_change(hash.is_some(), verified) {
        Some(denial) => {
            return Err(denial);
        },
        None => {},
    }
    match hash_secret(payload.new_password.as_str(), PASSWORD_COST) {
        Ok(hash) => Ok(hash),
        Err(_) => Err(Answer::InternalServerError),
    }
}

/// The settings of an embed.
#[derive(Debug, Clone, Copy, PartialEq, Eq, Structural)]
pub enum EmbedColumn {
    Color,
    BackgroundColor,
    Title,
    WebTitle,
}

/// One setting of an embed and the value it is to have.
#[derive(Debug)]
pub struct EmbedUpdate {
    pub column: EmbedColumn,
    pub value: String,
}

/// What a request to change an embed comes to: the settings to write, in
/// this order, and the answer if the store takes them all. Where the store
/// fails on one, the caller stops there and answers with that failure.
#[derive(Debug)]
pub struct EmbedEdit {
    pub updates: Vec<EmbedUpdate>,
    pub answer: Answer,
}

/// The mathematical content of an `EmbedEdit`.
pub struct EmbedEditView {
    pub updates: Seq<(EmbedColumn, Seq<char>)>,
    pub answer: Answer,
}

impl View for EmbedEdit {
    type V = EmbedEditView;

    open spec fn view(&self) -> EmbedEditView {
        EmbedEditView {
            updates: Seq::new(
                self.updates@.len(),
                |i: int| (self.updates@[i].column, self.updates@[i].value@),
            ),
            answer: self.answer,
        }
    }
}

/// The titles of an embed are open to the standard tier and above.
pub open spec fn may_set_titles(tier: Tiers) -> bool {
    tier.spec_level() > 2
}

/// The updates that the colours of a request come to, and whether both
/// colours that were given are valid. The colour comes first: where it is
/// not valid nothing is written; where the background is not, the colour is.
pub open spec fn color_updates(
    color: Option<Seq<char>>,
    background: Option<Seq<char>>,
) -> (Seq<(EmbedColumn, Seq<char>)>, bool) {
    if color is Some && !is_hex_color(color->0) {
        (seq![], false)
    } else {
        let first = if color is Some {
            seq![(EmbedColumn::Color, color->0)]
        } else {
            seq![]
        };
        if background is Some && !is_hex_color(background->0) {
            (first, false)
        } else if background is Some {
            (first.push((EmbedColumn::BackgroundColor, background->0)), true)
        } else {
            (first, true)
        }
    }
}

/// The updates that the titles of a request come to on the given tier.
pub open spec fn title_updates(
    tier: Tiers,
    title: Option<Seq<char>>,
    web_title: Option<Seq<char>>,
) -> Seq<(EmbedColumn, Seq<char>)> {
    let first = if title is Some && may_set_titles(tier) {
        seq![(EmbedColumn::Title, title->0)]
    } else {
        seq![]
    };
    if web_title is Some && may_set_titles(tier) {
        first.push((EmbedColumn::WebTitle, web_title->0))
    } else {
        first
    }
}

/// What a request to change an embed comes to. The free tier and no tier
/// may change nothing, which is `Forbidden`. A request that gives nothing is
/// a bad request, and so is one with a colour that is no hexadecimal colour.
/// Titles are written on the standard tier and above, and passed over in
/// silence below it.
pub open spec fn embed_edit(
    tier: Option<Tiers>,
    title: Option<Seq<char>>,
    web_title: Option<Seq<char>>,
    color: Option<Seq<char>>,
    background: Option<Seq<char>>,
) -> EmbedEditView {
    if tier is None || tier->0.spec_level() < 1 {
        EmbedEditView { updates: seq![], answer: Answer::Forbidden }
    } else if color is None && title is None && background is None && web_title is None {
        EmbedEditView { updates: seq![], answer: Answer::BadRequest }
    } else {
        let (colors, valid) = color_updates(color, background);
        if valid {
            EmbedEditView {
                updates: colors + title_updates(tier->0, title, web_title),
                answer: Answer::Success,
            }
        } else {
            EmbedEditView { updates: colors, answer: Answer::BadRequest }
        }
    }
}

/// Decides a request to change how the files of `user` are embedded.
pub fn edit_embed_config(payload: &EditEmbedConfigPayload, user: &User) -> (edit: EmbedEdit)
    ensures
        edit@ == embed_edit(
            user.current_tier,
            opt_text(payload.title),
            opt_text(payload.web_title),
            opt_text(payload.color),
            opt_text(payload.background_color),
        ),
{
    let mut updates: Vec<EmbedUpdate> = Vec::new();
    let tier = match user.current_tier {
        Some(tier) => tier,
        None => {
            let edit = EmbedEdit { updates, answer: Answer::Forbidden };
            assert(edit@.updates =~= seq![]);
            return edit;
        },
    };
    let level = tier.level();
    if level < 1 {
        let edit = EmbedEdit { updates, answer: Answer::Forbidden };
        assert(edit@.updates =~= seq![]);
        return edit;
    }
    if payload.color.is_none() && payload.title.is_none() && payload.background_color.is_none()
        && payload.web_title.is_none() {
        let edit = EmbedEdit { updates, answer: Answer::BadRequest };
        assert(edit@.updates =~= seq![]);
        return edit;
    }
    let ghost colors = color_updates(opt_text(payload.color), opt_text(payload.background_color));
    match &payload.color {
        Some(color) => {
            if !verify_hex_color(color.as_str()) {
                let edit = EmbedEdit { updates, answer: Answer::BadRequest };
                assert(edit@.updates =~= colors.0);
                return edit;
            }
            updates.push(EmbedUpdate { column: EmbedColumn::Color, value: color.clone() });
        },
        None => {},
    }
    match &payload.background_color {
        Some(background) => {
            if !verify_hex_color(background.as_str()) {
                let edit = EmbedEdit { updates, answer: Answer::BadRequest };
                assert(edit@.updates =~= colors.0);
                return edit;
            }
            updates.push(
                EmbedUpdate { column: EmbedColumn::BackgroundColor, value: background.clone() },
            );
        },
        None => {},
    }
    let ghost after_colors = updates@;
    assert(Seq::new(after_colors.len(), |i: int| (after_colors[i].column, after_colors[i].value@))
        =~= colors.0);
    match &payload.title {
        Some(title) => {
            if level > 2 {
                updates.push(EmbedUpdate { column: EmbedColumn::Title, value: title.clone() });
            }
        },
        None => {},
    }
    match &payload.web_title {
        Some(web_title) => {
            if level > 2 {
                updates.push(
                    EmbedUpdate { column: EmbedColumn::WebTitle, value: web_title.clone() },
                );
            }
        },
        None => {},
    }
    let edit = EmbedEdit { updates, answer: Answer::Success };
    assert(edit@.updates =~= colors.0 + title_updates(
        tier,
        opt_text(payload.title),
        opt_text(payload.web_title),
    ));
    edit
}

} // verus!
