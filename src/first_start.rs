use vstd::prelude::*;
use vstd::utf8::encode_utf8;

verus! {

/// A page of the first-start wizard: welcome, vault details, done.
#[derive(Debug, Clone, Copy, PartialEq, Eq, Structural)]
pub enum Page {
    P1,
    P2,
    P3,
}

/// An event of the first-start wizard.
pub enum Message {
    Page(Page),
    VaultNameChanged(String),
    VaultPasswordChanged(String),
    CreateVault,
    Restart,
    Exit,
}

/// What the host must do after an event of the wizard.
pub enum FirstStartAction {
    Nothing,
    /// Create the first vault with this name and password, then report back
    /// through [`FirstStart::vault_created`].
    CreateVault(String, String),
    /// Start the application again and exit.
    Restart,
    Exit,
}

/// The state of the first-start wizard.
pub struct FirstStart {
    pub current_page: Page,
    pub password_error: bool,
    pub name_error: bool,
    pub vault_name: String,
    pub vault_password: String,
}

/// The view of a [`FirstStart`].
pub struct WizardState {
    pub page: Page,
    pub password_error: bool,
    pub name_error: bool,
    pub name: Seq<char>,
    pub password: Seq<char>,
}

impl View for FirstStart {
    type V = WizardState;

    open spec fn view(&self) -> WizardState {
        WizardState {
            page: self.current_page,
            password_error: self.password_error,
            name_error: self.name_error,
            name: self.vault_name@,
            password: self.vault_password@,
        }
    }
}

/// A vault name takes 4 to 32 bytes of UTF-8.
pub open spec fn name_acceptable(name: Seq<char>) -> bool {
    4 <= encode_utf8(name).len() <= 32
}

/// A vault password takes 8 to 32 bytes of UTF-8.
pub open spec fn password_acceptable(password: Seq<char>) -> bool {
    8 <= encode_utf8(password).len() <= 32
}

/// Both fields are acceptable, so creating the vault may go ahead.
pub open spec fn wizard_accepts_creation(s: WizardState) -> bool {
    name_acceptable(s.name) && password_acceptable(s.password)
}

impl FirstStart {
    /// The wizard on its first page, with empty fields and no errors.
    pub fn new() -> (r: Self)
        ensures
            r@ == (WizardState {
                page: Page::P1,
                password_error: false,
                name_error: false,
                name: Seq::empty(),
                password: Seq::empty(),
            }),
    {
        let r = FirstStart {
            current_page: Page::P1,
            password_error: false,
            name_error: false,
            vault_name: String::new(),
            vault_password: String::new(),
        };
        assert(r@.name =~= Seq::<char>::empty());
        assert(r@.password =~= Seq::<char>::empty());
        r
    }

    /// Handles one event. Editing a field clears its error; `CreateVault`
    /// checks both fields, flags each one that is out of bounds, and asks for
    /// the vault only when both are acceptable.
    pub fn update(&mut self, message: Message) -> (r: FirstStartAction)
        ensures
            message matches Message::Page(p) ==> (r matches FirstStartAction::Nothing)
                && final(self)@ == (WizardState { page: p, ..old(self)@ }),
            message matches Message::VaultNameChanged(n) ==> (r matches FirstStartAction::Nothing)
                && final(self)@ == (WizardState { name: n@, name_error: false, ..old(self)@ }),
            message matches Message::VaultPasswordChanged(p) ==> (
            r matches FirstStartAction::Nothing) && final(self)@ == (WizardState {
                password: p@,
                password_error: false,
                ..old(self)@
            }),
            message is CreateVault ==> final(self)@ == (WizardState {
                name_error: !name_acceptable(old(self)@.name),
                password_error: !password_acceptable(old(self)@.password),
                ..old(self)@
            }),
            message is CreateVault && wizard_accepts_creation(old(self)@) ==> (
            r matches FirstStartAction::CreateVault(n, p) && n@ == old(self)@.name && p@ == old(
                self,
            )@.password),
            message is CreateVault && !wizard_accepts_creation(old(self)@) ==> (
            r matches FirstStartAction::Nothing),
            message is Restart ==> (r matches FirstStartAction::Restart) && final(self)@ == old(
                self,
            )@,
            message is Exit ==> (r matches FirstStartAction::Exit) && final(self)@ == old(self)@,
    {
        match message {
            Message::Page(p) => {
                self.current_page = p;
                FirstStartAction::Nothing
            },
            Message::VaultNameChanged(n) => {
                self.vault_name = n;
                self.name_error = false;
                FirstStartAction::Nothing
            },
            Message::VaultPasswordChanged(p) => {
                self.vault_password = p;
                self.password_error = false;
                FirstStartAction::Nothing
            },
            Message::CreateVault => {
                let name_len = self.vault_name.as_str().as_bytes().len();
                let password_len = self.vault_password.as_str().as_bytes().len();
                self.name_error = name_len > 32 || name_len < 4;
                self.password_error = password_len > 32 || password_len < 8;
                if !self.name_error && !self.password_error {
                    FirstStartAction::CreateVault(
                        self.vault_name.clone(),
                        self.vault_password.clone(),
                    )
                } else {
                    FirstStartAction::Nothing
                }
            },
            Message::Restart => FirstStartAction::Restart,
            Message::Exit => FirstStartAction::Exit,
        }
    }

    /// The host reports whether the vault asked for was created; on success
    /// the wizard moves to its last page.
    pub fn vault_created(&mut self, created: bool)
        ensures
            final(self)@ == if created {
                WizardState { page: Page::P3, ..old(self)@ }
            } else {
                old(self)@
            },
    {
        if created {
            self.current_page = Page::P3;
        }
    }
}

} // verus!
