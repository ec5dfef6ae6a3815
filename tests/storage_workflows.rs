use std::collections::{HashMap, HashSet};

use secure_notes::auth::{authenticate_vault, authentication, AuthOutcome};
use secure_notes::creation::{create_vault, prepare_vault_creation, CreateVaultError, VaultCreation};
use secure_notes::existence::{is_first_start, vault_exists};
use secure_notes::layout::{local_dir_from, StoragePath};
use secure_notes::pointer::{first_line_of, get_default_vault_name, DefaultVaultFileError};
use secure_notes::storage::{FileRead, Step, StorageReply, StorageRequest};

/// A file system held in memory: the paths that exist and the files' bytes.
#[derive(Default)]
struct MemStorage {
    present: HashSet<Vec<String>>,
    files: HashMap<Vec<String>, Vec<u8>>,
    fail_reads: bool,
    fail_dirs: bool,
    short_writes: bool,
    requests: Vec<String>,
}

impl MemStorage {
    fn add_dirs(&mut self, segs: &[String]) {
        for k in 1..=segs.len() {
            self.present.insert(segs[..k].to_vec());
        }
    }

    fn put(&mut self, segs: Vec<String>, bytes: &[u8]) {
        self.add_dirs(&segs[..segs.len() - 1]);
        self.present.insert(segs.clone());
        self.files.insert(segs, bytes.to_vec());
    }

    fn remove(&mut self, segs: &[String]) {
        self.present.remove(segs);
        self.files.remove(segs);
    }

    fn perform(&mut self, req: &StorageRequest) -> StorageReply {
        match req {
            StorageRequest::Exists(p) => {
                self.requests.push(format!("exists {}", p.segments.join("/")));
                StorageReply::Found(self.present.contains(&p.segments))
            }
            StorageRequest::ReadText(p) => {
                self.requests.push(format!("read {}", p.segments.join("/")));
                if self.fail_reads {
                    return StorageReply::Text(FileRead::Failed(String::from("permission denied")));
                }
                match self.files.get(&p.segments) {
                    Some(b) => StorageReply::Text(FileRead::Contents(String::from_utf8(b.clone()).unwrap())),
                    None => StorageReply::Text(FileRead::NotFound),
                }
            }
            StorageRequest::ReadBytes(p) => {
                self.requests.push(format!("read {}", p.segments.join("/")));
                match self.files.get(&p.segments) {
                    Some(b) => StorageReply::Bytes(FileRead::Contents(b.clone())),
                    None => StorageReply::Bytes(FileRead::NotFound),
                }
            }
            StorageRequest::CreateDirAll(p) => {
                self.requests.push(format!("mkdir {}", p.segments.join("/")));
                if self.fail_dirs {
                    return StorageReply::Created(Err(String::from("read-only file system")));
                }
                self.add_dirs(&p.segments);
                StorageReply::Created(Ok(()))
            }
            StorageRequest::WriteFile(p, bytes) => {
                self.requests.push(format!("write {}", p.segments.join("/")));
                let parent = p.segments[..p.segments.len() - 1].to_vec();
                if !self.present.contains(&parent) {
                    return StorageReply::Written(Err(String::from("no such directory")));
                }
                if self.short_writes {
                    self.present.insert(p.segments.clone());
                    self.files.insert(p.segments.clone(), Vec::new());
                    return StorageReply::Written(Ok(0));
                }
                self.present.insert(p.segments.clone());
                self.files.insert(p.segments.clone(), bytes.clone());
                StorageReply::Written(Ok(bytes.len()))
            }
        }
    }
}

fn run<T>(storage: &mut MemStorage, mut next: impl FnMut(&Vec<StorageReply>) -> Step<T>) -> T {
    let mut replies: Vec<StorageReply> = Vec::new();
    loop {
        match next(&replies) {
            Step::Perform(req) => {
                let reply = storage.perform(&req);
                replies.push(reply);
            }
            Step::Finished(v) => return v,
        }
    }
}

fn root() -> StoragePath {
    local_dir_from(Some(String::from("/home/u/.local/share"))).unwrap()
}

fn segs(parts: &[&str]) -> Vec<String> {
    let mut v = vec![String::from("/home/u/.local/share"), String::from("secure-notes")];
    v.extend(parts.iter().map(|s| s.to_string()));
    v
}

fn vault_present(storage: &mut MemStorage, name: &str) -> bool {
    let r = root();
    run(storage, |rs| vault_exists(&r, name, rs))
}

fn create(storage: &mut MemStorage, name: &str, password: &str, first_start: bool) -> Result<(), CreateVaultError> {
    let plan = prepare_vault_creation(Some(root()), String::from(name), password, first_start);
    run(storage, |rs| create_vault(&plan, rs))
}

fn default_name(storage: &mut MemStorage) -> Result<String, DefaultVaultFileError> {
    let r = Some(root());
    run(storage, |rs| get_default_vault_name(&r, rs))
}

fn authenticate(storage: &mut MemStorage, name: &str, password: &str) -> AuthOutcome {
    let r = Some(root());
    run(storage, |rs| authentication(&r, name, password, rs))
}

fn with_vault(name: &str) -> MemStorage {
    let mut s = MemStorage::default();
    s.put(segs(&["vaults", name, "index"]), b"");
    s.put(segs(&["vaults", name, "info"]), b"x");
    s
}

#[test]
fn local_dir_appends_namespace() {
    let r = local_dir_from(Some(String::from("/data"))).unwrap();
    assert_eq!(r.segments, vec![String::from("/data"), String::from("secure-notes")]);
    assert!(local_dir_from(None).is_none());
}

#[test]
fn vault_paths_follow_layout() {
    let r = local_dir_from(Some(String::from("/data"))).unwrap();
    let info = secure_notes::layout::vault_info_path_in(&r, "work");
    assert_eq!(info.segments, vec!["/data", "secure-notes", "vaults", "work", "info"]);
    let pointer = secure_notes::layout::default_vault_file_path_in(&r);
    assert_eq!(pointer.segments, vec!["/data", "secure-notes", "default-vault"]);
}

#[test]
fn first_line_stops_at_newline() {
    assert_eq!(first_line_of("myvault\nother"), "myvault");
    assert_eq!(first_line_of("myvault"), "myvault");
    assert_eq!(first_line_of(""), "");
    assert_eq!(first_line_of("\nsecond"), "");
    assert_eq!(first_line_of("é-vault\n"), "é-vault");
}

#[test]
fn vault_exists_needs_all_three_parts() {
    let mut s = with_vault("ab");
    assert!(vault_present(&mut s, "ab"));
    assert!(!vault_present(&mut s, "cd"));
    s.remove(&segs(&["vaults", "ab", "info"]));
    assert!(!vault_present(&mut s, "ab"));
}

#[test]
fn vault_exists_stops_at_missing_index() {
    let mut s = with_vault("ab");
    s.remove(&segs(&["vaults", "ab", "index"]));
    s.requests.clear();
    assert!(!vault_present(&mut s, "ab"));
    assert_eq!(s.requests.len(), 2);
}

#[test]
fn first_start_without_root_or_storage() {
    let mut s = MemStorage::default();
    assert!(run(&mut s, |rs| is_first_start(&None, rs)));
    let r = Some(root());
    assert!(run(&mut s, |rs| is_first_start(&r, rs)));
    s.add_dirs(&segs(&[]));
    assert!(!run(&mut s, |rs| is_first_start(&r, rs)));
}

#[test]
fn vault_exists_before_and_after_creation() {
    let mut s = MemStorage::default();
    assert!(!vault_present(&mut s, "ab"));
    assert_eq!(create(&mut s, "ab", "password1", true), Ok(()));
    assert!(vault_present(&mut s, "ab"));
}

#[test]
fn deleting_index_makes_vault_invalid() {
    let mut s = MemStorage::default();
    assert_eq!(create(&mut s, "ab", "password1", true), Ok(()));
    assert!(vault_present(&mut s, "ab"));
    s.remove(&segs(&["vaults", "ab", "index"]));
    assert!(!vault_present(&mut s, "ab"));
}

#[test]
fn creation_lays_out_vault_and_pointer() {
    let mut s = MemStorage::default();
    assert_eq!(create(&mut s, "ab", "password1", true), Ok(()));
    assert_eq!(s.files.get(&segs(&["vaults", "ab", "index"])).unwrap().len(), 0);
    assert!(s.present.contains(&segs(&["vaults", "ab", "notes"])));
    assert_eq!(s.files.get(&segs(&["default-vault"])).unwrap(), b"ab");
    let info = s.files.get(&segs(&["vaults", "ab", "info"])).unwrap();
    let decoded = secure_notes::codec::decode_vault_info(info).unwrap();
    assert_eq!(decoded.name, "ab");
    assert!(decoded.password.starts_with("$argon2id$v=19$m=16384,t=8,p=1$"));
}

#[test]
fn later_vault_keeps_existing_pointer() {
    let mut s = MemStorage::default();
    s.put(segs(&["default-vault"]), b"first");
    s.add_dirs(&segs(&["vaults", "second"]));
    assert_eq!(create(&mut s, "second", "password1", false), Ok(()));
    assert_eq!(s.files.get(&segs(&["default-vault"])).unwrap(), b"first");
}

#[test]
fn creation_without_root_fails() {
    let plan = prepare_vault_creation(None, String::from("ab"), "password1", true);
    let mut s = MemStorage::default();
    assert_eq!(run(&mut s, |rs| create_vault(&plan, rs)), Err(CreateVaultError::NoLocalDirectory));
    assert!(s.requests.is_empty());
}

#[test]
fn creation_reports_directory_failure() {
    let mut s = MemStorage { fail_dirs: true, ..Default::default() };
    assert_eq!(create(&mut s, "ab", "password1", true), Err(CreateVaultError::Directories));
}

#[test]
fn creation_reports_info_failure_without_directory() {
    let mut s = MemStorage::default();
    assert_eq!(create(&mut s, "ab", "password1", false), Err(CreateVaultError::InfoFile));
}

#[test]
fn creation_reports_hash_failure() {
    let plan = VaultCreation { root: Some(root()), name: String::from("ab"), record: None, first_start: true };
    let mut s = MemStorage::default();
    assert_eq!(run(&mut s, |rs| create_vault(&plan, rs)), Err(CreateVaultError::PasswordHash));
}

#[test]
fn creation_reports_index_and_notes_failures() {
    let plan = VaultCreation {
        root: Some(root()),
        name: String::from("ab"),
        record: Some(vec![1, 2, 3]),
        first_start: false,
    };
    let ok = StorageReply::Written(Ok(3));
    let bad = StorageReply::Written(Err(String::from("disk full")));
    assert!(matches!(create_vault(&plan, &vec![ok, bad]), Step::Finished(Err(CreateVaultError::IndexFile))));
    let replies = vec![
        StorageReply::Written(Ok(3)),
        StorageReply::Written(Ok(0)),
        StorageReply::Created(Err(String::from("denied"))),
    ];
    assert!(matches!(create_vault(&plan, &replies), Step::Finished(Err(CreateVaultError::NotesDirectory))));
}

#[test]
fn creation_reports_empty_pointer_write() {
    let mut s = MemStorage::default();
    s.add_dirs(&segs(&["vaults", "ab"]));
    s.short_writes = true;
    assert_eq!(create(&mut s, "ab", "password1", false), Err(CreateVaultError::DefaultVaultFile));
}

#[test]
fn default_vault_resolves_existing_vault() {
    let mut s = with_vault("myvault");
    s.put(segs(&["default-vault"]), b"myvault");
    assert_eq!(default_name(&mut s).ok(), Some(String::from("myvault")));
}

#[test]
fn default_vault_ignores_later_lines() {
    let mut s = with_vault("myvault");
    s.put(segs(&["default-vault"]), b"myvault\nother\n");
    assert_eq!(default_name(&mut s).ok(), Some(String::from("myvault")));
}

#[test]
fn default_vault_missing_vault() {
    let mut s = MemStorage::default();
    s.put(segs(&["default-vault"]), b"myvault");
    assert!(matches!(default_name(&mut s), Err(DefaultVaultFileError::VaultDoesNotExist)));
}

#[test]
fn default_vault_empty_pointer() {
    let mut s = with_vault("myvault");
    s.put(segs(&["default-vault"]), b"");
    assert!(matches!(default_name(&mut s), Err(DefaultVaultFileError::FirstLineEmpty)));
}

#[test]
fn default_vault_missing_pointer() {
    let mut s = with_vault("myvault");
    assert!(matches!(default_name(&mut s), Err(DefaultVaultFileError::FileDoesNotExist)));
    let mut t = MemStorage::default();
    assert!(matches!(run(&mut t, |rs| get_default_vault_name(&None, rs)), Err(DefaultVaultFileError::FileDoesNotExist)));
}

#[test]
fn default_vault_read_error() {
    let mut s = with_vault("myvault");
    s.put(segs(&["default-vault"]), b"myvault");
    s.fail_reads = true;
    match default_name(&mut s) {
        Err(DefaultVaultFileError::OSError(m)) => assert_eq!(m, "permission denied"),
        _ => panic!("expected an OS error"),
    }
}

#[test]
fn authenticate_correct_password() {
    let mut s = MemStorage::default();
    assert_eq!(create(&mut s, "v1", "correct-horse", true), Ok(()));
    assert_eq!(authenticate(&mut s, "v1", "correct-horse"), AuthOutcome::Authenticated);
}

#[test]
fn authenticate_wrong_password() {
    let mut s = MemStorage::default();
    assert_eq!(create(&mut s, "v1", "correct-horse", true), Ok(()));
    assert_eq!(authenticate(&mut s, "v1", "wrong"), AuthOutcome::WrongPassword);
}

#[test]
fn authenticate_empty_fields() {
    let mut s = MemStorage::default();
    assert_eq!(create(&mut s, "v1", "correct-horse", true), Ok(()));
    s.requests.clear();
    assert_eq!(authenticate(&mut s, "v1", ""), AuthOutcome::PasswordEmpty);
    assert_eq!(authenticate(&mut s, "", "correct-horse"), AuthOutcome::VaultNameEmpty);
    assert_eq!(authenticate(&mut s, "", ""), AuthOutcome::BothEmpty);
    assert!(s.requests.is_empty());
}

#[test]
fn authenticate_missing_vault_or_corrupt_record() {
    let mut s = MemStorage::default();
    assert_eq!(authenticate(&mut s, "v1", "pw"), AuthOutcome::WrongPassword);
    let mut t = with_vault("v1");
    assert_eq!(authenticate(&mut t, "v1", "pw"), AuthOutcome::WrongPassword);
    let r = root();
    assert!(!run(&mut t, |rs| authenticate_vault(&r, "v1", "pw", rs)));
    assert_eq!(run(&mut t, |rs| authentication(&None, "v1", "pw", rs)), AuthOutcome::WrongPassword);
}
