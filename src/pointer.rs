use vstd::prelude::*;
use vstd::string::StrSliceExecFns;
use crate::existence::{vault_check, vault_check_from};
use crate::layout::{PathView, StoragePath, default_vault_file_path_in, pointer_path, root_view};
use crate::storage::{FileRead, Outcome, Request, Step, StorageReply, StorageRequest};

verus! {

/// Why the default vault could not be resolved.
pub enum DefaultVaultFileError {
    /// There is no storage root, or no pointer file in it.
    FileDoesNotExist,
    /// The pointer file's first line is empty.
    FirstLineEmpty,
    /// The first line names no valid vault.
    VaultDoesNotExist,
    /// Reading the pointer file failed; the system's message.
    OSError(String),
}

/// The view of a [`DefaultVaultFileError`].
pub enum PointerFault {
    FileDoesNotExist,
    FirstLineEmpty,
    VaultDoesNotExist,
    OSError(Seq<char>),
}

impl View for DefaultVaultFileError {
    type V = PointerFault;

    open spec fn view(&self) -> PointerFault {
        match self {
            DefaultVaultFileError::FileDoesNotExist => PointerFault::FileDoesNotExist,
            DefaultVaultFileError::FirstLineEmpty => PointerFault::FirstLineEmpty,
            DefaultVaultFileError::VaultDoesNotExist => PointerFault::VaultDoesNotExist,
            DefaultVaultFileError::OSError(m) => PointerFault::OSError(m@),
        }
    }
}

/// `k` is where the first line of `s` ends: at the first newline, or at the
/// end of `s` when it has none.
pub open spec fn is_line_end(s: Seq<char>, k: int) -> bool {
    &&& 0 <= k <= s.len()
    &&& k == s.len() || s[k] == '\n'
    &&& forall|j: int| 0 <= j < k ==> s[j] != '\n'
}

/// The first line of `s`, without its newline.
pub open spec fn first_line(s: Seq<char>) -> Seq<char> {
    s.take(choose|k: int| is_line_end(s, k))
}

proof fn lemma_line_end_unique(s: Seq<char>, k: int)
    requires
        is_line_end(s, k),
    ensures
        first_line(s) == s.take(k),
{
    let c = choose|k: int| is_line_end(s, k);
    assert(is_line_end(s, c));
    if c < k {
        assert(s[c] != '\n');
    } else if k < c {
        assert(s[k] != '\n');
    }
}

/// The first line of `text`: everything before its first newline.
pub fn first_line_of(text: &str) -> (r: String)
    ensures
        r@ == first_line(text@),
{
    let n = text.unicode_len();
    let mut k: usize = 0;
    while k < n && text.get_char(k) != '\n'
        invariant
            n == text@.len(),
            k <= n,
            forall|j: int| 0 <= j < k ==> text@[j] != '\n',
        decreases n - k,
    {
        k = k + 1;
    }
    proof {
        lemma_line_end_unique(text@, k as int);
    }
    text.substring_char(0, k).to_owned()
}

/// The default-vault lookup after `replies`: read the pointer file, take its
/// first line, and check that it names a valid vault.
pub open spec fn pointer_lookup(root: Option<PathView>, replies: Seq<StorageReply>) -> Outcome<
    Result<Seq<char>, PointerFault>,
> {
    match root {
        None => Outcome::Done(Err(PointerFault::FileDoesNotExist)),
        Some(r) => if replies.len() == 0 {
            Outcome::Next(Request::ReadText(pointer_path(r)))
        } else {
            match replies[0] {
                StorageReply::Text(FileRead::Failed(m)) => Outcome::Done(
                    Err(PointerFault::OSError(m@)),
                ),
                StorageReply::Text(FileRead::Contents(t)) => {
                    let name = first_line(t@);
                    if name.len() == 0 {
                        Outcome::Done(Err(PointerFault::FirstLineEmpty))
                    } else {
                        match vault_check(r, name, replies.skip(1)) {
                            Outcome::Next(q) => Outcome::Next(q),
                            Outcome::Done(true) => Outcome::Done(Ok(name)),
                            Outcome::Done(false) => Outcome::Done(
                                Err(PointerFault::VaultDoesNotExist),
                            ),
                        }
                    }
                },
                _ => Outcome::Done(Err(PointerFault::FileDoesNotExist)),
            }
        },
    }
}

/// `r` is the step that `o` describes.
pub open spec fn lookup_follows(
    r: Step<Result<String, DefaultVaultFileError>>,
    o: Outcome<Result<Seq<char>, PointerFault>>,
) -> bool {
    match o {
        Outcome::Next(q) => r.requests(q),
        Outcome::Done(Ok(n)) => r matches Step::Finished(Ok(s)) && s@ == n,
        Outcome::Done(Err(f)) => r matches Step::Finished(Err(e)) && e@ == f,
    }
}

/// The next step of resolving the default vault's name under `root`.
pub fn get_default_vault_name(root: &Option<StoragePath>, replies: &Vec<StorageReply>) -> (r: Step<
    Result<String, DefaultVaultFileError>,
>)
    ensures
        lookup_follows(r, pointer_lookup(root_view(root), replies@)),
{
    let root = match root {
        None => return Step::Finished(Err(DefaultVaultFileError::FileDoesNotExist)),
        Some(p) => p,
    };
    if replies.len() == 0 {
        return Step::Perform(StorageRequest::ReadText(default_vault_file_path_in(root)));
    }
    match &replies[0] {
        StorageReply::Text(FileRead::Failed(m)) => Step::Finished(
            Err(DefaultVaultFileError::OSError(m.clone())),
        ),
        StorageReply::Text(FileRead::Contents(t)) => {
            let name = first_line_of(t.as_str());
            if name.unicode_len() == 0 {
                return Step::Finished(Err(DefaultVaultFileError::FirstLineEmpty));
            }
            match vault_check_from(root, name.as_str(), replies, 1) {
                Step::Perform(q) => Step::Perform(q),
                Step::Finished(true) => Step::Finished(Ok(name)),
                Step::Finished(false) => Step::Finished(
                    Err(DefaultVaultFileError::VaultDoesNotExist),
                ),
            }
        },
        _ => Step::Finished(Err(DefaultVaultFileError::FileDoesNotExist)),
    }
}

} // verus!
