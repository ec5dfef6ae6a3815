use vstd::prelude::*;
use vstd::string::StrSliceExecFns;
use crate::codec::{decode_vault_info, info_fields};
use crate::existence::{vault_check, vault_check_from};
use crate::layout::{PathView, StoragePath, root_view, vault_info_path, vault_info_path_in};
use crate::password::{phc_accepts, verify_password};
use crate::storage::{FileRead, Outcome, Request, Step, StorageReply, StorageRequest};

verus! {

/// The single result of one authentication request.
#[derive(Debug, Clone, Copy, PartialEq, Eq, Structural)]
pub enum AuthOutcome {
    Authenticated,
    /// The password does not match, or the vault's record could not be read.
    WrongPassword,
    VaultNameEmpty,
    PasswordEmpty,
    BothEmpty,
}

/// Authentication against the vault `name` after `rs`: the existence check,
/// then reading the credential record, decoding it and verifying the
/// password against its hash. A missing vault, a failed read and a corrupt
/// record all answer `false`.
pub open spec fn auth_check(
    root: PathView,
    name: Seq<char>,
    password: Seq<char>,
    rs: Seq<StorageReply>,
) -> Outcome<bool> {
    match vault_check(root, name, rs) {
        Outcome::Next(q) => Outcome::Next(q),
        Outcome::Done(false) => Outcome::Done(false),
        Outcome::Done(true) => if rs.len() == 3 {
            Outcome::Next(Request::ReadBytes(vault_info_path(root, name)))
        } else {
            match rs[3] {
                StorageReply::Bytes(FileRead::Contents(b)) => match info_fields(b@) {
                    Some(fields) => Outcome::Done(phc_accepts(password, fields.1)),
                    None => Outcome::Done(false),
                },
                _ => Outcome::Done(false),
            }
        },
    }
}

/// The next step of checking `password` against the vault `name` under `root`.
pub fn authenticate_vault(
    root: &StoragePath,
    name: &str,
    password: &str,
    replies: &Vec<StorageReply>,
) -> (r: Step<bool>)
    ensures
        r.follows(auth_check(root@, name@, password@, replies@)),
{
    assert(replies@.skip(0) =~= replies@);
    match vault_check_from(root, name, replies, 0) {
        Step::Perform(q) => return Step::Perform(q),
        Step::Finished(false) => return Step::Finished(false),
        Step::Finished(true) => {},
    }
    if replies.len() == 3 {
        return Step::Perform(StorageRequest::ReadBytes(vault_info_path_in(root, name)));
    }
    match &replies[3] {
        StorageReply::Bytes(FileRead::Contents(bytes)) => match decode_vault_info(bytes.as_slice()) {
            Ok(info) => Step::Finished(verify_password(password, info.password.as_str())),
            Err(_) => Step::Finished(false),
        },
        _ => Step::Finished(false),
    }
}

/// The outcome of a request with this vault name and password after `rs`:
/// an empty field is reported without touching storage.
pub open spec fn request_outcome(
    root: Option<PathView>,
    name: Seq<char>,
    password: Seq<char>,
    rs: Seq<StorageReply>,
) -> Outcome<AuthOutcome> {
    if name.len() == 0 && password.len() == 0 {
        Outcome::Done(AuthOutcome::BothEmpty)
    } else if name.len() == 0 {
        Outcome::Done(AuthOutcome::VaultNameEmpty)
    } else if password.len() == 0 {
        Outcome::Done(AuthOutcome::PasswordEmpty)
    } else {
        match root {
            None => Outcome::Done(AuthOutcome::WrongPassword),
            Some(r) => match auth_check(r, name, password, rs) {
                Outcome::Next(q) => Outcome::Next(q),
                Outcome::Done(true) => Outcome::Done(AuthOutcome::Authenticated),
                Outcome::Done(false) => Outcome::Done(AuthOutcome::WrongPassword),
            },
        }
    }
}

/// The next step of one authentication request.
pub fn authentication(
    root: &Option<StoragePath>,
    name: &str,
    password: &str,
    replies: &Vec<StorageReply>,
) -> (r: Step<AuthOutcome>)
    ensures
        r.follows(request_outcome(root_view(root), name@, password@, replies@)),
{
    let name_empty = name.unicode_len() == 0;
    let password_empty = password.unicode_len() == 0;
    if name_empty && password_empty {
        return Step::Finished(AuthOutcome::BothEmpty);
    }
    if name_empty {
        return Step::Finished(AuthOutcome::VaultNameEmpty);
    }
    if password_empty {
        return Step::Finished(AuthOutcome::PasswordEmpty);
    }
    match root {
        None => Step::Finished(AuthOutcome::WrongPassword),
        Some(p) => match authenticate_vault(p, name, password, replies) {
            Step::Perform(q) => Step::Perform(q),
            Step::Finished(true) => Step::Finished(AuthOutcome::Authenticated),
            Step::Finished(false) => Step::Finished(AuthOutcome::WrongPassword),
        },
    }
}

} // verus!
