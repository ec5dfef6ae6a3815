use vstd::prelude::*;

verus! {

/// A folder or a note of a vault. A root entry has no parent folder.
pub struct VaultIndexEntry {
    pub id: u32,
    pub name: String,
    pub parent_folder: Option<u32>,
}

/// Why an entry was not added to the index.
#[derive(Debug, Clone, Copy, PartialEq, Eq, Structural)]
pub enum IndexError {
    /// The entry names a parent folder that the index does not hold.
    UnknownParent,
}

/// The folders and notes of a vault, each in the order they were added.
pub struct VaultIndex {
    pub folders: Vec<VaultIndexEntry>,
    pub notes: Vec<VaultIndexEntry>,
}

/// Some folder of `folders` has the id `id`.
pub open spec fn has_folder_id(folders: Seq<VaultIndexEntry>, id: u32) -> bool {
    exists|i: int| 0 <= i < folders.len() && #[trigger] folders[i].id == id
}

/// The entry is a root, or its parent is one of `folders`.
pub open spec fn parent_known(folders: Seq<VaultIndexEntry>, e: VaultIndexEntry) -> bool {
    e.parent_folder matches Some(p) ==> has_folder_id(folders, p)
}

impl VaultIndex {
    /// Every entry is a root or names a folder of the index as its parent.
    pub open spec fn well_formed(&self) -> bool {
        &&& forall|i: int|
            0 <= i < self.folders@.len() ==> parent_known(self.folders@, #[trigger] self.folders@[i])
        &&& forall|i: int|
            0 <= i < self.notes@.len() ==> parent_known(self.folders@, #[trigger] self.notes@[i])
    }

    /// The index of a new vault: no folders, no notes.
    pub fn new() -> (r: Self)
        ensures
            r.folders@.len() == 0,
            r.notes@.len() == 0,
            r.well_formed(),
    {
        VaultIndex { folders: Vec::new(), notes: Vec::new() }
    }

    /// Whether the index holds a folder with this id.
    pub fn has_folder(&self, id: u32) -> (r: bool)
        ensures
            r == has_folder_id(self.folders@, id),
    {
        let mut i: usize = 0;
        while i < self.folders.len()
            invariant
                i <= self.folders@.len(),
                forall|j: int| 0 <= j < i ==> self.folders@[j].id != id,
            decreases self.folders@.len() - i,
        {
            if self.folders[i].id == id {
                return true;
            }
            i = i + 1;
        }
        false
    }

    /// Whether `entry` may be added: it is a root, or its parent is a folder
    /// of the index.
    fn accepts(&self, entry: &VaultIndexEntry) -> (r: bool)
        ensures
            r == parent_known(self.folders@, *entry),
    {
        match entry.parent_folder {
            Some(p) => self.has_folder(p),
            None => true,
        }
    }

    /// Appends a folder, unless its parent is unknown.
    pub fn add_folder(&mut self, entry: VaultIndexEntry) -> (r: Result<(), IndexError>)
        requires
            old(self).well_formed(),
        ensures
            final(self).well_formed(),
            r is Ok <==> parent_known(old(self).folders@, entry),
            r matches Err(e) ==> e == IndexError::UnknownParent,
            r is Ok ==> final(self).folders@ == old(self).folders@.push(entry) && final(self).notes@ == old(self).notes@,
            r is Err ==> final(self).folders@ == old(self).folders@ && final(self).notes@ == old(self).notes@,
    {
        if !self.accepts(&entry) {
            return Err(IndexError::UnknownParent);
        }
        let ghost before = self.folders@;
        self.folders.push(entry);
        proof {
            assert forall|id: u32| has_folder_id(before, id) implies has_folder_id(
                self.folders@,
                id,
            ) by {
                let i = choose|i: int| 0 <= i < before.len() && #[trigger] before[i].id == id;
                assert(self.folders@[i] == before[i]);
            }
            assert forall|i: int| 0 <= i < self.folders@.len() implies parent_known(
                self.folders@,
                #[trigger] self.folders@[i],
            ) by {
                if i < before.len() {
                    assert(self.folders@[i] == before[i]);
                    assert(parent_known(before, before[i]));
                }
            }
            assert forall|i: int| 0 <= i < self.notes@.len() implies parent_known(
                self.folders@,
                #[trigger] self.notes@[i],
            ) by {
                assert(parent_known(before, self.notes@[i]));
            }
        }
        Ok(())
    }

    /// Appends a note, unless its parent is unknown.
    pub fn add_note(&mut self, entry: VaultIndexEntry) -> (r: Result<(), IndexError>)
        requires
            old(self).well_formed(),
        ensures
            final(self).well_formed(),
            r is Ok <==> parent_known(old(self).folders@, entry),
            r matches Err(e) ==> e == IndexError::UnknownParent,
            r is Ok ==> final(self).notes@ == old(self).notes@.push(entry) && final(self).folders@ == old(self).folders@,
            r is Err ==> final(self).folders@ == old(self).folders@ && final(self).notes@ == old(self).notes@,
    {
        if !self.accepts(&entry) {
            return Err(IndexError::UnknownParent);
        }
        let ghost before = self.notes@;
        self.notes.push(entry);
        proof {
            assert forall|i: int| 0 <= i < self.notes@.len() implies parent_known(
                self.folders@,
                #[trigger] self.notes@[i],
            ) by {
                if i < before.len() {
                    assert(self.notes@[i] == before[i]);
                }
            }
        }
        Ok(())
    }
}

} // verus!
