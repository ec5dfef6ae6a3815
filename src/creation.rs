use vstd::prelude::*;
use vstd::string::StrSliceExecFns;
use vstd::utf8::encode_utf8;
use crate::codec::{VaultInfo, encode_vault_info, info_record};
use crate::existence::{check_answered, lemma_vault_check_decides, vault_check, vault_valid};
use crate::layout::{
    PathView, StoragePath, default_vault_file_path_in, root_view, pointer_path, vault_dir, vault_dir_in,
    vault_index_path, vault_index_path_in, vault_info_path, vault_info_path_in, vault_notes_path,
    vault_notes_path_in,
};
use crate::password::{argon2id_prefix, begins_with, generate_password_hash, phc_accepts};
use crate::storage::{
    Outcome, Request, Step, StorageReply, StorageRequest, created, creation_landed, found,
    holds_path, is_created, is_found, is_written, written,
};

verus! {

/// The step of vault creation that failed.
#[derive(Debug, Clone, Copy, PartialEq, Eq, Structural)]
pub enum CreateVaultError {
    /// The operating system reports no data directory.
    NoLocalDirectory,
    /// Creating the vault's directory tree on the first start failed.
    Directories,
    /// Hashing the password failed.
    PasswordHash,
    /// Writing the credential record failed.
    InfoFile,
    /// Writing the empty index failed.
    IndexFile,
    /// Creating the notes directory failed.
    NotesDirectory,
    /// Writing the default-vault pointer failed, or wrote nothing.
    DefaultVaultFile,
}

/// What creating one vault needs: the storage root, the name, the encoded
/// credential record (`None` when hashing failed) and whether this is the
/// first start, when the directory tree must be made. The record is prepared
/// before any request; a failed hash is still reported at its own step, after
/// the directory tree.
pub struct VaultCreation {
    pub root: Option<StoragePath>,
    pub name: String,
    pub record: Option<Vec<u8>>,
    pub first_start: bool,
}

/// The view of a [`VaultCreation`].
pub struct CreationPlan {
    pub root: Option<PathView>,
    pub name: Seq<char>,
    pub record: Option<Seq<u8>>,
    pub first_start: bool,
}

impl View for VaultCreation {
    type V = CreationPlan;

    open spec fn view(&self) -> CreationPlan {
        CreationPlan {
            root: root_view(&self.root),
            name: self.name@,
            record: match self.record {
                Some(b) => Some(b@),
                None => None,
            },
            first_start: self.first_start,
        }
    }
}

/// The reply says that the pointer file was written with at least one byte.
pub open spec fn pointer_written(r: StorageReply) -> bool {
    r matches StorageReply::Written(Ok(n)) && n > 0
}

/// Creation once the directory tree is there: the record, the empty index,
/// the notes directory, then the pointer file unless one exists.
pub open spec fn creation_tail(
    root: PathView,
    name: Seq<char>,
    record: Seq<u8>,
    rs: Seq<StorageReply>,
) -> Outcome<Result<(), CreateVaultError>> {
    if rs.len() == 0 {
        Outcome::Next(Request::WriteFile(vault_info_path(root, name), record))
    } else if !written(rs[0]) {
        Outcome::Done(Err(CreateVaultError::InfoFile))
    } else if rs.len() == 1 {
        Outcome::Next(Request::WriteFile(vault_index_path(root, name), Seq::empty()))
    } else if !written(rs[1]) {
        Outcome::Done(Err(CreateVaultError::IndexFile))
    } else if rs.len() == 2 {
        Outcome::Next(Request::CreateDirAll(vault_notes_path(root, name)))
    } else if !created(rs[2]) {
        Outcome::Done(Err(CreateVaultError::NotesDirectory))
    } else if rs.len() == 3 {
        Outcome::Next(Request::Exists(pointer_path(root)))
    } else if found(rs[3]) {
        Outcome::Done(Ok(()))
    } else if rs.len() == 4 {
        Outcome::Next(Request::WriteFile(pointer_path(root), encode_utf8(name)))
    } else if pointer_written(rs[4]) {
        Outcome::Done(Ok(()))
    } else {
        Outcome::Done(Err(CreateVaultError::DefaultVaultFile))
    }
}

/// Vault creation after `rs`. Each step that fails ends it with its own error.
pub open spec fn creation_outcome(c: CreationPlan, rs: Seq<StorageReply>) -> Outcome<
    Result<(), CreateVaultError>,
> {
    match c.root {
        None => Outcome::Done(Err(CreateVaultError::NoLocalDirectory)),
        Some(root) => if c.first_start && rs.len() == 0 {
            Outcome::Next(Request::CreateDirAll(vault_dir(root, c.name)))
        } else if c.first_start && !created(rs[0]) {
            Outcome::Done(Err(CreateVaultError::Directories))
        } else {
            match c.record {
                None => Outcome::Done(Err(CreateVaultError::PasswordHash)),
                Some(b) => creation_tail(
                    root,
                    c.name,
                    b,
                    rs.skip(if c.first_start { 1int } else { 0int }),
                ),
            }
        },
    }
}

/// Every creation that the replies report as done left its path present.
pub open spec fn creation_answered(
    present: Set<PathView>,
    c: CreationPlan,
    rs: Seq<StorageReply>,
) -> bool {
    forall|i: int|
        0 <= i < rs.len() ==> creation_landed(
            present,
            #[trigger] creation_outcome(c, rs.take(i)),
            rs[i],
        )
}

/// The request that creates the vault's directory tree on the first start.
pub fn create_secure_notes_directories(root: &StoragePath, name: &str) -> (r: StorageRequest)
    ensures
        r@ == Request::CreateDirAll(vault_dir(root@, name@)),
{
    StorageRequest::CreateDirAll(vault_dir_in(root, name))
}

/// The request that writes the credential record.
pub fn create_vault_info_file(root: &StoragePath, name: &str, record: &Vec<u8>) -> (r:
    StorageRequest)
    ensures
        r@ == Request::WriteFile(vault_info_path(root@, name@), record@),
{
    let mut bytes: Vec<u8> = Vec::new();
    let mut i: usize = 0;
    while i < record.len()
        invariant
            i <= record@.len(),
            bytes@ == record@.take(i as int),
        decreases record@.len() - i,
    {
        bytes.push(record[i]);
        i = i + 1;
        assert(bytes@ =~= record@.take(i as int));
    }
    assert(bytes@ =~= record@);
    StorageRequest::WriteFile(vault_info_path_in(root, name), bytes)
}

/// The request that writes the empty index.
pub fn create_vault_index_file(root: &StoragePath, name: &str) -> (r: StorageRequest)
    ensures
        r@ == Request::WriteFile(vault_index_path(root@, name@), Seq::empty()),
{
    let bytes: Vec<u8> = Vec::new();
    assert(bytes@ =~= Seq::<u8>::empty());
    StorageRequest::WriteFile(vault_index_path_in(root, name), bytes)
}

/// The request that creates the notes directory.
pub fn create_vault_notes_directory(root: &StoragePath, name: &str) -> (r: StorageRequest)
    ensures
        r@ == Request::CreateDirAll(vault_notes_path(root@, name@)),
{
    StorageRequest::CreateDirAll(vault_notes_path_in(root, name))
}

/// The request that writes `name`, as UTF-8, into the pointer file.
pub fn create_default_vault_file(root: &StoragePath, name: &str) -> (r: StorageRequest)
    ensures
        r@ == Request::WriteFile(pointer_path(root@), encode_utf8(name@)),
{
    StorageRequest::WriteFile(default_vault_file_path_in(root), name.as_bytes_vec())
}

/// Hashes the password and encodes the credential record of a new vault.
/// The record, when there is one, holds `name` and an Argon2id hash with the
/// library's parameters that the password verifies against.
pub fn prepare_vault_creation(
    root: Option<StoragePath>,
    name: String,
    password: &str,
    first_start: bool,
) -> (r: VaultCreation)
    ensures
        root_view(&r.root) == root_view(&root),
        r.name@ == name@,
        r.first_start == first_start,
        r.record matches Some(b) ==> exists|h: Seq<char>|
            phc_accepts(password@, h) && begins_with(h, argon2id_prefix()) && b@ == info_record(
                name@,
                h,
            ),
{
    let record = match generate_password_hash(password) {
        Some(hash) => {
            let info = VaultInfo { name: name.clone(), password: hash };
            Some(encode_vault_info(&info))
        },
        None => None,
    };
    VaultCreation { root, name, record, first_start }
}

/// The tail of creation on the replies from index `k` on.
fn creation_tail_from(
    root: &StoragePath,
    name: &str,
    record: &Vec<u8>,
    rs: &Vec<StorageReply>,
    k: usize,
) -> (r: Step<Result<(), CreateVaultError>>)
    requires
        k <= rs@.len(),
    ensures
        r.follows(creation_tail(root@, name@, record@, rs@.skip(k as int))),
{
    let ghost rest = rs@.skip(k as int);
    let n = rs.len() - k;
    if n == 0 {
        return Step::Perform(create_vault_info_file(root, name, record));
    }
    assert(rest[0] == rs@[k as int]);
    if !is_written(&rs[k]) {
        return Step::Finished(Err(CreateVaultError::InfoFile));
    }
    if n == 1 {
        return Step::Perform(create_vault_index_file(root, name));
    }
    assert(rest[1] == rs@[k + 1]);
    if !is_written(&rs[k + 1]) {
        return Step::Finished(Err(CreateVaultError::IndexFile));
    }
    if n == 2 {
        return Step::Perform(create_vault_notes_directory(root, name));
    }
    assert(rest[2] == rs@[k + 2]);
    if !is_created(&rs[k + 2]) {
        return Step::Finished(Err(CreateVaultError::NotesDirectory));
    }
    if n == 3 {
        return Step::Perform(StorageRequest::Exists(default_vault_file_path_in(root)));
    }
    assert(rest[3] == rs@[k + 3]);
    if is_found(&rs[k + 3]) {
        return Step::Finished(Ok(()));
    }
    if n == 4 {
        return Step::Perform(create_default_vault_file(root, name));
    }
    assert(rest[4] == rs@[k + 4]);
    match &rs[k + 4] {
        StorageReply::Written(Ok(count)) => {
            if *count > 0 {
                Step::Finished(Ok(()))
            } else {
                Step::Finished(Err(CreateVaultError::DefaultVaultFile))
            }
        },
        _ => Step::Finished(Err(CreateVaultError::DefaultVaultFile)),
    }
}

/// The next step of creating the vault that `c` describes.
pub fn create_vault(c: &VaultCreation, replies: &Vec<StorageReply>) -> (r: Step<
    Result<(), CreateVaultError>,
>)
    ensures
        r.follows(creation_outcome(c@, replies@)),
{
    let root = match &c.root {
        None => return Step::Finished(Err(CreateVaultError::NoLocalDirectory)),
        Some(p) => p,
    };
    if c.first_start && replies.len() == 0 {
        return Step::Perform(create_secure_notes_directories(root, c.name.as_str()));
    }
    if c.first_start && !is_created(&replies[0]) {
        return Step::Finished(Err(CreateVaultError::Directories));
    }
    match &c.record {
        None => Step::Finished(Err(CreateVaultError::PasswordHash)),
        Some(record) => {
            let k: usize = if c.first_start { 1 } else { 0 };
            creation_tail_from(root, c.name.as_str(), record, replies, k)
        },
    }
}

/// After a creation that ended in success, on a storage where each directory
/// and file that the replies reported as made is present, the vault is valid,
/// and the existence check answers `true` on truthful probes.
pub proof fn lemma_created_vault_exists(
    c: CreationPlan,
    replies: Seq<StorageReply>,
    present: Set<PathView>,
    probes: Seq<StorageReply>,
)
    requires
        creation_outcome(c, replies) == Outcome::<Result<(), CreateVaultError>>::Done(Ok(())),
        creation_answered(present, c, replies),
        c.root matches Some(root) && check_answered(present, root, c.name, probes),
        probes.len() >= 3,
    ensures
        c.root matches Some(root) && vault_valid(present, root, c.name) && vault_check(
            root,
            c.name,
            probes,
        ) == Outcome::<bool>::Done(true),
{
    let root = c.root->0;
    let b = c.record->0;
    let k: int = if c.first_start { 1 } else { 0 };
    let rest = replies.skip(k);
    let info = vault_info_path(root, c.name);
    let index = vault_index_path(root, c.name);
    assert(rest[0] == replies[k]);
    assert(rest[1] == replies[k + 1]);
    if c.first_start {
        assert(replies.take(k)[0] == replies[0]);
        assert(replies.take(k + 1)[0] == replies[0]);
    }
    assert(replies.take(k).skip(k).len() == 0);
    assert(creation_outcome(c, replies.take(k)) == Outcome::<Result<(), CreateVaultError>>::Next(
        Request::WriteFile(info, b),
    ));
    assert(creation_landed(present, creation_outcome(c, replies.take(k)), replies[k]));
    assert(holds_path(present, info));
    assert(replies.take(k + 1).skip(k)[0] == replies[k]);
    assert(creation_outcome(c, replies.take(k + 1)) == Outcome::<Result<(), CreateVaultError>>::Next(
        Request::WriteFile(index, Seq::empty()),
    ));
    assert(creation_landed(present, creation_outcome(c, replies.take(k + 1)), replies[k + 1]));
    assert(holds_path(present, index));
    assert(present.contains(info.take(info.len() as int)));
    assert(present.contains(index.take(index.len() as int)));
    assert(present.contains(info.take(info.len() - 1)));
    assert(info.take(info.len() as int) =~= info);
    assert(index.take(index.len() as int) =~= index);
    assert(info.take(info.len() - 1) =~= vault_dir(root, c.name));
    lemma_vault_check_decides(present, root, c.name, probes);
}

} // verus!
