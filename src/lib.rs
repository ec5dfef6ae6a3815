//! Vault credentials and on-disk layout for an encrypted notes application.
//!
//! The library decides; the host performs. Every workflow that touches the
//! disk is a pure function from its inputs and the replies received so far to
//! the next storage request or to its result, so that the host can run it
//! against a real file system or against any stand-in.
pub mod layout;
pub mod storage;
pub mod existence;
pub mod codec;
pub mod password;
pub mod pointer;
pub mod creation;
pub mod auth;
pub mod index;
pub mod editor;
pub mod first_start;

pub use layout::{StoragePath, get_default_vault_file_path, get_local_dir, local_dir_from};
pub use storage::{FileRead, Outcome, Request, Step, StorageReply, StorageRequest};
pub use existence::{is_first_start, vault_exists};
pub use codec::{CodecError, VaultInfo, decode_vault_info, encode_vault_info};
pub use password::{generate_password_hash, verify_password};
pub use pointer::{DefaultVaultFileError, get_default_vault_name};
pub use creation::{CreateVaultError, VaultCreation, create_vault, prepare_vault_creation};
pub use auth::{AuthOutcome, authenticate_vault, authentication};
pub use index::{IndexError, VaultIndex, VaultIndexEntry};
pub use editor::{EditorScreen, EditorVaultPasswordStatus, Pane, PaneType, PasswordPrompt};
pub use first_start::{FirstStart, FirstStartAction, Message, Page};
