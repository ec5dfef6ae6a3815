use vstd::prelude::*;
use crate::layout::{
    PathView, StoragePath, vault_dir, vault_dir_in, vault_index_path, vault_index_path_in,
    vault_info_path, vault_info_path_in,
};
use crate::storage::{
    Outcome, Request, Step, StorageReply, StorageRequest, found, is_found, probe_answered,
};

verus! {

/// A vault is valid when its directory, its index and its credential record
/// are all present.
pub open spec fn vault_valid(present: Set<PathView>, root: PathView, name: Seq<char>) -> bool {
    &&& present.contains(vault_dir(root, name))
    &&& present.contains(vault_index_path(root, name))
    &&& present.contains(vault_info_path(root, name))
}

/// The existence check after `replies`: it probes the vault directory, then
/// the index, then the record, and answers `false` at the first one missing.
pub open spec fn vault_check(root: PathView, name: Seq<char>, replies: Seq<StorageReply>) -> Outcome<bool> {
    if replies.len() == 0 {
        Outcome::Next(Request::Exists(vault_dir(root, name)))
    } else if !found(replies[0]) {
        Outcome::Done(false)
    } else if replies.len() == 1 {
        Outcome::Next(Request::Exists(vault_index_path(root, name)))
    } else if !found(replies[1]) {
        Outcome::Done(false)
    } else if replies.len() == 2 {
        Outcome::Next(Request::Exists(vault_info_path(root, name)))
    } else {
        Outcome::Done(found(replies[2]))
    }
}

/// Every probe of the existence check was answered truthfully from `present`.
pub open spec fn check_answered(
    present: Set<PathView>,
    root: PathView,
    name: Seq<char>,
    replies: Seq<StorageReply>,
) -> bool {
    forall|i: int|
        0 <= i < replies.len() ==> probe_answered(
            present,
            #[trigger] vault_check(root, name, replies.take(i)),
            replies[i],
        )
}

/// The next step of the check that the vault `name` under `root` exists.
pub fn vault_exists(root: &StoragePath, name: &str, replies: &Vec<StorageReply>) -> (r: Step<bool>)
    ensures
        r.follows(vault_check(root@, name@, replies@)),
{
    assert(replies@.skip(0) =~= replies@);
    vault_check_from(root, name, replies, 0)
}

/// The existence check on the replies from index `start` on.
pub fn vault_check_from(
    root: &StoragePath,
    name: &str,
    replies: &Vec<StorageReply>,
    start: usize,
) -> (r: Step<bool>)
    requires
        start <= replies@.len(),
    ensures
        r.follows(vault_check(root@, name@, replies@.skip(start as int))),
{
    let ghost rest = replies@.skip(start as int);
    let n = replies.len() - start;
    if n == 0 {
        return Step::Perform(StorageRequest::Exists(vault_dir_in(root, name)));
    }
    assert(rest[0] == replies@[start as int]);
    if !is_found(&replies[start]) {
        return Step::Finished(false);
    }
    if n == 1 {
        return Step::Perform(StorageRequest::Exists(vault_index_path_in(root, name)));
    }
    assert(rest[1] == replies@[start + 1]);
    if !is_found(&replies[start + 1]) {
        return Step::Finished(false);
    }
    if n == 2 {
        return Step::Perform(StorageRequest::Exists(vault_info_path_in(root, name)));
    }
    assert(rest[2] == replies@[start + 2]);
    Step::Finished(is_found(&replies[start + 2]))
}

/// On truthful answers the check decides validity: it answers `true` exactly
/// when the directory, the index and the record are all present, and it
/// decides within three probes.
pub proof fn lemma_vault_check_decides(
    present: Set<PathView>,
    root: PathView,
    name: Seq<char>,
    replies: Seq<StorageReply>,
)
    requires
        check_answered(present, root, name, replies),
    ensures
        replies.len() >= 3 ==> vault_check(root, name, replies) is Done,
        vault_check(root, name, replies) matches Outcome::Done(b) ==> b == vault_valid(
            present,
            root,
            name,
        ),
{
    if replies.len() > 0 {
        assert(vault_check(root, name, replies.take(0)) == Outcome::<bool>::Next(
            Request::Exists(vault_dir(root, name)),
        ));
        assert(probe_answered(present, vault_check(root, name, replies.take(0)), replies[0]));
    }
    if replies.len() > 1 && found(replies[0]) {
        assert(replies.take(1)[0] == replies[0]);
        assert(vault_check(root, name, replies.take(1)) == Outcome::<bool>::Next(
            Request::Exists(vault_index_path(root, name)),
        ));
        assert(probe_answered(present, vault_check(root, name, replies.take(1)), replies[1]));
    }
    if replies.len() > 2 && found(replies[0]) && found(replies[1]) {
        assert(replies.take(2)[0] == replies[0]);
        assert(replies.take(2)[1] == replies[1]);
        assert(vault_check(root, name, replies.take(2)) == Outcome::<bool>::Next(
            Request::Exists(vault_info_path(root, name)),
        ));
        assert(probe_answered(present, vault_check(root, name, replies.take(2)), replies[2]));
    }
}

/// The next step of the check that this is the first start: `true` when there
/// is no storage root, or when nothing exists at the root.
pub fn is_first_start(root: &Option<StoragePath>, replies: &Vec<StorageReply>) -> (r: Step<bool>)
    ensures
        r.follows(
            match root {
                None => Outcome::Done(true),
                Some(p) => if replies@.len() == 0 {
                    Outcome::Next(Request::Exists(p@))
                } else {
                    Outcome::Done(!found(replies@[0]))
                },
            },
        ),
{
    match root {
        None => Step::Finished(true),
        Some(p) => {
            if replies.len() == 0 {
                Step::Perform(StorageRequest::Exists(p.duplicate()))
            } else {
                Step::Finished(!is_found(&replies[0]))
            }
        },
    }
}

} // verus!
