use secure_notes::auth::AuthOutcome;
use secure_notes::editor::{EditorScreen, EditorVaultPasswordStatus, Pane, PaneType, PasswordPrompt};
use secure_notes::first_start::{FirstStart, FirstStartAction, Message, Page};
use secure_notes::index::{IndexError, VaultIndex, VaultIndexEntry};
use secure_notes::pointer::DefaultVaultFileError;

#[test]
fn pane_starts_unpinned() {
    let p = Pane::new(3, PaneType::Explorer);
    assert_eq!(p, Pane { id: 3, pane_type: PaneType::Explorer, is_pinned: false });
}

#[test]
fn prompt_opens_default_vault() {
    let p = PasswordPrompt::new(Ok(String::from("myvault")));
    assert_eq!(p.screen, EditorScreen::PasswordPrompt);
    assert_eq!(p.opened_vault.as_deref(), Some("myvault"));
    let q = PasswordPrompt::new(Err(DefaultVaultFileError::FirstLineEmpty));
    assert_eq!(q.screen, EditorScreen::VaultSelectionPrompt);
    assert!(q.opened_vault.is_none());
}

#[test]
fn one_request_one_result() {
    let mut p = PasswordPrompt::new(Ok(String::from("v1")));
    p.password_changed(String::from("correct-horse"));
    assert!(p.submit());
    assert!(!p.submit());
    assert_eq!(p.vault_password_status, EditorVaultPasswordStatus::Loading);
    let (name, password) = p.credentials();
    assert_eq!((name.as_str(), password.as_str()), ("v1", "correct-horse"));
    assert!(p.finish(AuthOutcome::Authenticated));
    assert!(!p.finish(AuthOutcome::WrongPassword));
    assert_eq!(p.vault_password_status, EditorVaultPasswordStatus::Authenticated);
    assert_eq!(p.screen, EditorScreen::Editor);
}

#[test]
fn wrong_password_allows_retry() {
    let mut p = PasswordPrompt::new(Ok(String::from("v1")));
    p.password_changed(String::from("wrong"));
    assert!(p.submit());
    assert!(p.finish(AuthOutcome::WrongPassword));
    assert_eq!(p.vault_password_status, EditorVaultPasswordStatus::DoesNotMatch);
    assert_eq!(p.screen, EditorScreen::PasswordPrompt);
    p.password_changed(String::from("again"));
    assert_eq!(p.vault_password_status, EditorVaultPasswordStatus::NONE);
    assert!(p.submit());
}

#[test]
fn editing_keeps_request_in_flight() {
    let mut p = PasswordPrompt::new(Ok(String::from("v1")));
    assert!(p.submit());
    p.password_changed(String::from("x"));
    assert_eq!(p.vault_password_status, EditorVaultPasswordStatus::Loading);
    assert!(p.finish(AuthOutcome::PasswordEmpty));
    assert_eq!(p.vault_password_status, EditorVaultPasswordStatus::Empty);
}

#[test]
fn credentials_without_vault_are_empty() {
    let p = PasswordPrompt::new(Err(DefaultVaultFileError::FileDoesNotExist));
    let (name, password) = p.credentials();
    assert!(name.is_empty() && password.is_empty());
}

#[test]
fn wizard_validates_fields() {
    let mut w = FirstStart::new();
    assert!(matches!(w.update(Message::Page(Page::P2)), FirstStartAction::Nothing));
    assert_eq!(w.current_page, Page::P2);
    w.update(Message::VaultNameChanged(String::from("abc")));
    w.update(Message::VaultPasswordChanged(String::from("short")));
    assert!(matches!(w.update(Message::CreateVault), FirstStartAction::Nothing));
    assert!(w.name_error && w.password_error);
    w.update(Message::VaultNameChanged(String::from("abcd")));
    assert!(!w.name_error);
    w.update(Message::VaultPasswordChanged(String::from("long enough")));
    match w.update(Message::CreateVault) {
        FirstStartAction::CreateVault(n, p) => assert_eq!((n.as_str(), p.as_str()), ("abcd", "long enough")),
        _ => panic!("expected a creation"),
    }
    w.vault_created(true);
    assert_eq!(w.current_page, Page::P3);
}

#[test]
fn wizard_rejects_long_name() {
    let mut w = FirstStart::new();
    w.update(Message::VaultNameChanged("n".repeat(33)));
    w.update(Message::VaultPasswordChanged(String::from("password")));
    assert!(matches!(w.update(Message::CreateVault), FirstStartAction::Nothing));
    assert!(w.name_error && !w.password_error);
    w.vault_created(false);
    assert_eq!(w.current_page, Page::P1);
    assert!(matches!(w.update(Message::Exit), FirstStartAction::Exit));
    assert!(matches!(w.update(Message::Restart), FirstStartAction::Restart));
}

#[test]
fn index_rejects_unknown_parent() {
    let mut idx = VaultIndex::new();
    let root = VaultIndexEntry { id: 1, name: String::from("docs"), parent_folder: None };
    assert_eq!(idx.add_folder(root), Ok(()));
    let note = VaultIndexEntry { id: 2, name: String::from("todo"), parent_folder: Some(1) };
    assert_eq!(idx.add_note(note), Ok(()));
    let orphan = VaultIndexEntry { id: 3, name: String::from("lost"), parent_folder: Some(9) };
    assert_eq!(idx.add_note(orphan), Err(IndexError::UnknownParent));
    assert!(idx.has_folder(1));
    assert!(!idx.has_folder(2));
    assert_eq!(idx.folders.len(), 1);
    assert_eq!(idx.notes.len(), 1);
}
