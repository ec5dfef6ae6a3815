use vstd::prelude::*;

verus! {

/// A path as the list of its segments, the view of a [`StoragePath`].
pub type PathView = Seq<Seq<char>>;

/// A location under the user's data directory, as the list of its segments.
/// The first segment is the data directory that the operating system reports.
pub struct StoragePath {
    pub segments: Vec<String>,
}

pub open spec fn segments_view(v: Seq<String>) -> PathView {
    Seq::new(v.len(), |i: int| v[i]@)
}

impl View for StoragePath {
    type V = PathView;

    open spec fn view(&self) -> PathView {
        segments_view(self.segments@)
    }
}

impl StoragePath {
    /// A path of one segment.
    pub fn from_base(base: &str) -> (r: StoragePath)
        ensures
            r@ == seq![base@],
    {
        let mut segments: Vec<String> = Vec::new();
        segments.push(base.to_owned());
        let r = StoragePath { segments };
        assert(r@ =~= seq![base@]);
        r
    }

    /// This path with one more segment at its end.
    pub fn child(&self, segment: &str) -> (r: StoragePath)
        ensures
            r@ == self@.push(segment@),
    {
        let mut segments: Vec<String> = Vec::new();
        let mut i: usize = 0;
        while i < self.segments.len()
            invariant
                i <= self.segments@.len(),
                segments@.len() == i,
                forall|j: int| 0 <= j < i ==> segments@[j]@ == self.segments@[j]@,
            decreases self.segments@.len() - i,
        {
            segments.push(self.segments[i].clone());
            i = i + 1;
        }
        segments.push(segment.to_owned());
        let r = StoragePath { segments };
        assert(r@ =~= self@.push(segment@));
        r
    }

    /// A copy of this path.
    pub fn duplicate(&self) -> (r: StoragePath)
        ensures
            r@ == self@,
    {
        let mut segments: Vec<String> = Vec::new();
        let mut i: usize = 0;
        while i < self.segments.len()
            invariant
                i <= self.segments@.len(),
                segments@.len() == i,
                forall|j: int| 0 <= j < i ==> segments@[j]@ == self.segments@[j]@,
            decreases self.segments@.len() - i,
        {
            segments.push(self.segments[i].clone());
            i = i + 1;
        }
        let r = StoragePath { segments };
        assert(r@ =~= self@);
        r
    }
}

/// The view of a storage root that may be missing.
pub open spec fn root_view(root: &Option<StoragePath>) -> Option<PathView> {
    match root {
        Some(p) => Some(p@),
        None => None,
    }
}

/// The segment that the application's storage root adds to the data directory.
pub open spec fn namespace_segment() -> Seq<char> {
    "secure-notes"@
}

/// The storage root under the data directory `base`.
pub open spec fn local_root(base: Seq<char>) -> PathView {
    seq![base, namespace_segment()]
}

/// The directory of the vault `name`.
pub open spec fn vault_dir(root: PathView, name: Seq<char>) -> PathView {
    root.push("vaults"@).push(name)
}

/// The credential record of the vault `name`.
pub open spec fn vault_info_path(root: PathView, name: Seq<char>) -> PathView {
    vault_dir(root, name).push("info"@)
}

/// The index of folders and notes of the vault `name`.
pub open spec fn vault_index_path(root: PathView, name: Seq<char>) -> PathView {
    vault_dir(root, name).push("index"@)
}

/// The directory of the encrypted notes of the vault `name`.
pub open spec fn vault_notes_path(root: PathView, name: Seq<char>) -> PathView {
    vault_dir(root, name).push("notes"@)
}

/// The file that names the vault opened at startup.
pub open spec fn pointer_path(root: PathView) -> PathView {
    root.push("default-vault"@)
}

/// Relies on dirs_next::data_local_dir: the per-user local data directory of
/// the operating system, when it reports one that is valid Unicode.
#[verifier::external_body]
fn os_data_local_dir() -> (r: Option<String>) {
    match dirs_next::data_local_dir() {
        Some(p) => p.into_os_string().into_string().ok(),
        None => None,
    }
}

/// The storage root under the data directory `data_dir`, if there is one.
pub fn local_dir_from(data_dir: Option<String>) -> (r: Option<StoragePath>)
    ensures
        match data_dir {
            Some(base) => r matches Some(p) && p@ == local_root(base@),
            None => r is None,
        },
{
    match data_dir {
        Some(base) => {
            let root = StoragePath::from_base(base.as_str());
            Some(root.child("secure-notes"))
        },
        None => None,
    }
}

/// The storage root of this user, or `None` when the operating system reports
/// no data directory.
pub fn get_local_dir() -> (r: Option<StoragePath>)
    ensures
        r matches Some(p) ==> exists|base: Seq<char>| p@ == local_root(base),
{
    local_dir_from(os_data_local_dir())
}

/// The vault directory of `name` under `root`.
pub fn vault_dir_in(root: &StoragePath, name: &str) -> (r: StoragePath)
    ensures
        r@ == vault_dir(root@, name@),
{
    root.child("vaults").child(name)
}

/// The credential record of `name` under `root`.
pub fn vault_info_path_in(root: &StoragePath, name: &str) -> (r: StoragePath)
    ensures
        r@ == vault_info_path(root@, name@),
{
    vault_dir_in(root, name).child("info")
}

/// The index file of `name` under `root`.
pub fn vault_index_path_in(root: &StoragePath, name: &str) -> (r: StoragePath)
    ensures
        r@ == vault_index_path(root@, name@),
{
    vault_dir_in(root, name).child("index")
}

/// The notes directory of `name` under `root`.
pub fn vault_notes_path_in(root: &StoragePath, name: &str) -> (r: StoragePath)
    ensures
        r@ == vault_notes_path(root@, name@),
{
    vault_dir_in(root, name).child("notes")
}

/// The default-vault pointer file under `root`.
pub fn default_vault_file_path_in(root: &StoragePath) -> (r: StoragePath)
    ensures
        r@ == pointer_path(root@),
{
    root.child("default-vault")
}

/// The default-vault pointer file of this user, or `None` when the operating
/// system reports no data directory.
pub fn get_default_vault_file_path() -> (r: Option<StoragePath>)
    ensures
        r matches Some(p) ==> exists|base: Seq<char>| p@ == pointer_path(local_root(base)),
{
    match get_local_dir() {
        Some(root) => Some(default_vault_file_path_in(&root)),
        None => None,
    }
}

} // verus!
