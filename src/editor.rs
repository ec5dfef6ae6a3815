use vstd::prelude::*;
use crate::auth::AuthOutcome;
use crate::pointer::DefaultVaultFileError;

verus! {

/// Where the password prompt stands.
#[allow(non_camel_case_types)]
#[derive(Debug, Clone, Copy, PartialEq, Eq, Structural)]
pub enum EditorVaultPasswordStatus {
    /// No password submitted yet, or edited since.
    NONE,
    /// The password field was empty when submitted.
    Empty,
    /// The password does not match.
    DoesNotMatch,
    /// An authentication is in flight.
    Loading,
    /// The password was accepted.
    Authenticated,
}

/// The screen the editor shows.
#[derive(Debug, Clone, Copy, PartialEq, Eq, Structural)]
pub enum EditorScreen {
    /// The password prompt for the default vault.
    PasswordPrompt,
    /// The choice of a vault to open.
    VaultSelectionPrompt,
    /// The editor proper.
    Editor,
}

/// The kind of a pane of the editor.
#[derive(Debug, Clone, Copy, PartialEq, Eq, Structural)]
pub enum PaneType {
    Explorer,
    TextEditor,
}

/// A pane of the editor.
#[derive(Debug, Clone, Copy, PartialEq, Eq, Structural)]
pub struct Pane {
    pub id: usize,
    pub pane_type: PaneType,
    pub is_pinned: bool,
}

impl Pane {
    /// A pane that is not pinned.
    pub fn new(id: usize, pane_type: PaneType) -> (r: Self)
        ensures
            r == (Pane { id, pane_type, is_pinned: false }),
    {
        Self { id, is_pinned: false, pane_type }
    }
}

/// The editor's vault session: the default vault it opened, the password
/// typed for it, and the state of its authentication. At most one
/// authentication is in flight, exactly while the status is `Loading`.
pub struct PasswordPrompt {
    pub vault_password: String,
    pub vault_password_status: EditorVaultPasswordStatus,
    pub screen: EditorScreen,
    pub opened_vault: Option<String>,
}

/// The view of a [`PasswordPrompt`].
pub struct PromptState {
    pub password: Seq<char>,
    pub status: EditorVaultPasswordStatus,
    pub screen: EditorScreen,
    pub opened: Option<Seq<char>>,
}

impl View for PasswordPrompt {
    type V = PromptState;

    open spec fn view(&self) -> PromptState {
        PromptState {
            password: self.vault_password@,
            status: self.vault_password_status,
            screen: self.screen,
            opened: match self.opened_vault {
                Some(n) => Some(n@),
                None => None,
            },
        }
    }
}

/// A submission starts an authentication unless one is in flight.
pub open spec fn submit_starts(s: PromptState) -> bool {
    s.status != EditorVaultPasswordStatus::Loading
}

pub open spec fn after_submit(s: PromptState) -> PromptState {
    PromptState { status: EditorVaultPasswordStatus::Loading, ..s }
}

/// A result is taken only while an authentication is in flight.
pub open spec fn finish_accepts(s: PromptState) -> bool {
    s.status == EditorVaultPasswordStatus::Loading
}

/// The status that a result leaves.
pub open spec fn status_after(o: AuthOutcome) -> EditorVaultPasswordStatus {
    match o {
        AuthOutcome::Authenticated => EditorVaultPasswordStatus::Authenticated,
        AuthOutcome::WrongPassword => EditorVaultPasswordStatus::DoesNotMatch,
        AuthOutcome::PasswordEmpty => EditorVaultPasswordStatus::Empty,
        AuthOutcome::BothEmpty => EditorVaultPasswordStatus::Empty,
        AuthOutcome::VaultNameEmpty => EditorVaultPasswordStatus::NONE,
    }
}

pub open spec fn after_finish(s: PromptState, o: AuthOutcome) -> PromptState {
    PromptState {
        status: status_after(o),
        screen: if o == AuthOutcome::Authenticated {
            EditorScreen::Editor
        } else {
            s.screen
        },
        ..s
    }
}

impl PasswordPrompt {
    /// The session at startup: the password prompt for the default vault when
    /// it resolved, else the vault choice.
    pub fn new(default_vault: Result<String, DefaultVaultFileError>) -> (r: Self)
        ensures
            r@.password.len() == 0,
            r@.status == EditorVaultPasswordStatus::NONE,
            match default_vault {
                Ok(name) => r@.screen == EditorScreen::PasswordPrompt && r@.opened == Some(name@),
                Err(_) => r@.screen == EditorScreen::VaultSelectionPrompt && r@.opened is None,
            },
    {
        let (screen, opened_vault) = match default_vault {
            Ok(name) => (EditorScreen::PasswordPrompt, Some(name)),
            Err(_) => (EditorScreen::VaultSelectionPrompt, None),
        };
        PasswordPrompt {
            vault_password: String::new(),
            vault_password_status: EditorVaultPasswordStatus::NONE,
            screen,
            opened_vault,
        }
    }

    /// The password was edited. An earlier verdict is cleared; an
    /// authentication in flight stays in flight.
    pub fn password_changed(&mut self, password: String)
        ensures
            final(self)@ == (PromptState {
                password: password@,
                status: if old(self)@.status == EditorVaultPasswordStatus::Loading {
                    EditorVaultPasswordStatus::Loading
                } else {
                    EditorVaultPasswordStatus::NONE
                },
                ..old(self)@
            }),
    {
        self.vault_password = password;
        if self.vault_password_status != EditorVaultPasswordStatus::Loading {
            self.vault_password_status = EditorVaultPasswordStatus::NONE;
        }
    }

    /// The password was submitted. Returns whether an authentication must be
    /// started; none is while another is in flight.
    pub fn submit(&mut self) -> (start: bool)
        ensures
            start == submit_starts(old(self)@),
            final(self)@ == if start {
                after_submit(old(self)@)
            } else {
                old(self)@
            },
    {
        if self.vault_password_status == EditorVaultPasswordStatus::Loading {
            return false;
        }
        self.vault_password_status = EditorVaultPasswordStatus::Loading;
        true
    }

    /// The vault name and password to hand to the authentication: empty
    /// strings stand for what is missing.
    pub fn credentials(&self) -> (r: (String, String))
        ensures
            r.1@ == self@.password,
            match self@.opened {
                Some(n) => r.0@ == n,
                None => r.0@.len() == 0,
            },
    {
        let name = match &self.opened_vault {
            Some(n) => n.clone(),
            None => String::new(),
        };
        (name, self.vault_password.clone())
    }

    /// The result of the authentication in flight came back. Returns whether it
    /// was taken; with none in flight it is refused and nothing changes.
    pub fn finish(&mut self, outcome: AuthOutcome) -> (accepted: bool)
        ensures
            accepted == finish_accepts(old(self)@),
            final(self)@ == if accepted {
                after_finish(old(self)@, outcome)
            } else {
                old(self)@
            },
    {
        if self.vault_password_status != EditorVaultPasswordStatus::Loading {
            return false;
        }
        self.vault_password_status = match outcome {
            AuthOutcome::Authenticated => EditorVaultPasswordStatus::Authenticated,
            AuthOutcome::WrongPassword => EditorVaultPasswordStatus::DoesNotMatch,
            AuthOutcome::PasswordEmpty => EditorVaultPasswordStatus::Empty,
            AuthOutcome::BothEmpty => EditorVaultPasswordStatus::Empty,
            AuthOutcome::VaultNameEmpty => EditorVaultPasswordStatus::NONE,
        };
        if outcome == AuthOutcome::Authenticated {
            self.screen = EditorScreen::Editor;
        }
        true
    }
}

/// One request, one result. From a session with nothing in flight, a
/// submission starts exactly one authentication, and a second submission
/// starts none while it runs; the first result to come back, whatever it is,
/// is taken and ends it; any further result is refused.
pub proof fn lemma_one_result_per_request(s: PromptState, first: AuthOutcome)
    requires
        s.status != EditorVaultPasswordStatus::Loading,
    ensures
        submit_starts(s),
        !submit_starts(after_submit(s)),
        finish_accepts(after_submit(s)),
        !finish_accepts(after_finish(after_submit(s), first)),
        !finish_accepts(s),
{
}

} // verus!
