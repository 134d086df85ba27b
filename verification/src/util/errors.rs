//! The error kinds that every layer reports.

use vstd::prelude::*;
use vstd::string::*;

verus! {

/// Every failure the vault can report to its user.
///
/// Cryptographic failures are deliberately coarse: a wrong passphrase, a
/// damaged ciphertext and a malformed envelope all surface as
/// `DecryptionFailed`.
#[derive(Debug, PartialEq, Eq)]
pub enum ObscuraError {
    VaultNotFound,
    AliasNotFound(String),
    DecryptionFailed,
    EncryptionFailed,
    FilePermissionError,
    InvalidVaultFormat,
    PassphraseTooShort,
    ConfirmationMismatch,
    FileExists(String),
    InvalidTimeout,
    AgentNotRunning,
    CustomError(String),
}

pub type ObscuraResult<T> = Result<T, ObscuraError>;

impl Clone for ObscuraError {
    fn clone(&self) -> (res: Self)
        ensures
            res.message_text() == self.message_text(),
            res.same_kind(*self),
    {
        match self {
            ObscuraError::VaultNotFound => ObscuraError::VaultNotFound,
            ObscuraError::AliasNotFound(alias) => ObscuraError::AliasNotFound(alias.clone()),
            ObscuraError::DecryptionFailed => ObscuraError::DecryptionFailed,
            ObscuraError::EncryptionFailed => ObscuraError::EncryptionFailed,
            ObscuraError::FilePermissionError => ObscuraError::FilePermissionError,
            ObscuraError::InvalidVaultFormat => ObscuraError::InvalidVaultFormat,
            ObscuraError::PassphraseTooShort => ObscuraError::PassphraseTooShort,
            ObscuraError::ConfirmationMismatch => ObscuraError::ConfirmationMismatch,
            ObscuraError::FileExists(path) => ObscuraError::FileExists(path.clone()),
            ObscuraError::InvalidTimeout => ObscuraError::InvalidTimeout,
            ObscuraError::AgentNotRunning => ObscuraError::AgentNotRunning,
            ObscuraError::CustomError(msg) => ObscuraError::CustomError(msg.clone()),
        }
    }
}

impl ObscuraError {
    /// Whether two errors are of the same kind, whatever text they carry.
    pub open spec fn same_kind(self, other: ObscuraError) -> bool {
        match (self, other) {
            (ObscuraError::VaultNotFound, ObscuraError::VaultNotFound) => true,
            (ObscuraError::AliasNotFound(_), ObscuraError::AliasNotFound(_)) => true,
            (ObscuraError::DecryptionFailed, ObscuraError::DecryptionFailed) => true,
            (ObscuraError::EncryptionFailed, ObscuraError::EncryptionFailed) => true,
            (ObscuraError::FilePermissionError, ObscuraError::FilePermissionError) => true,
            (ObscuraError::InvalidVaultFormat, ObscuraError::InvalidVaultFormat) => true,
            (ObscuraError::PassphraseTooShort, ObscuraError::PassphraseTooShort) => true,
            (ObscuraError::ConfirmationMismatch, ObscuraError::ConfirmationMismatch) => true,
            (ObscuraError::FileExists(_), ObscuraError::FileExists(_)) => true,
            (ObscuraError::InvalidTimeout, ObscuraError::InvalidTimeout) => true,
            (ObscuraError::AgentNotRunning, ObscuraError::AgentNotRunning) => true,
            (ObscuraError::CustomError(_), ObscuraError::CustomError(_)) => true,
            _ => false,
        }
    }

    /// The one-line diagnostic shown for this error.
    pub open spec fn message_text(self) -> Seq<char> {
        match self {
            ObscuraError::VaultNotFound => "Vault not found"@,
            ObscuraError::AliasNotFound(alias) => "Alias '"@ + alias@ + "' not found"@,
            ObscuraError::DecryptionFailed =>
                "Decryption failed, re-enter passphrase or try 'obscura lock' to refresh the vault"@,
            ObscuraError::EncryptionFailed => "Encryption failed"@,
            ObscuraError::FilePermissionError => "File permission error"@,
            ObscuraError::InvalidVaultFormat => "Invalid vault format"@,
            ObscuraError::PassphraseTooShort => "Passphrase must be at least 8 characters"@,
            ObscuraError::ConfirmationMismatch => "Passphrase confirmation does not match"@,
            ObscuraError::FileExists(path) => "File '"@ + path@ + "' already exists"@,
            ObscuraError::InvalidTimeout => "Invalid timeout value"@,
            ObscuraError::AgentNotRunning => "Agent not running"@,
            ObscuraError::CustomError(msg) => msg@,
        }
    }

    /// Renders the diagnostic for this error.
    pub fn message(&self) -> (text: String)
        ensures
            text@ == self.message_text(),
    {
        match self {
            ObscuraError::VaultNotFound => String::from_str("Vault not found"),
            ObscuraError::AliasNotFound(alias) => {
                String::from_str("Alias '").concat(alias.as_str()).concat("' not found")
            },
            ObscuraError::DecryptionFailed => String::from_str(
                "Decryption failed, re-enter passphrase or try 'obscura lock' to refresh the vault",
            ),
            ObscuraError::EncryptionFailed => String::from_str("Encryption failed"),
            ObscuraError::FilePermissionError => String::from_str("File permission error"),
            ObscuraError::InvalidVaultFormat => String::from_str("Invalid vault format"),
            ObscuraError::PassphraseTooShort => String::from_str(
                "Passphrase must be at least 8 characters",
            ),
            ObscuraError::ConfirmationMismatch => String::from_str(
                "Passphrase confirmation does not match",
            ),
            ObscuraError::FileExists(path) => {
                String::from_str("File '").concat(path.as_str()).concat("' already exists")
            },
            ObscuraError::InvalidTimeout => String::from_str("Invalid timeout value"),
            ObscuraError::AgentNotRunning => String::from_str("Agent not running"),
            ObscuraError::CustomError(msg) => msg.clone(),
        }
    }
}

/// The error type of `serde_json`, carried through without looking inside.
#[verifier::external_type_specification]
#[verifier::external_body]
pub struct ExJsonError(serde_json::Error);

/// The error type of `std::io`, carried through without looking inside.
#[verifier::external_type_specification]
#[verifier::external_body]
pub struct ExIoError(std::io::Error);

impl From<std::io::Error> for ObscuraError {
    /// Every I/O failure is reported as the file permission error.
    fn from(error: std::io::Error) -> (res: Self) {
        ObscuraError::FilePermissionError
    }
}

impl vstd::std_specs::convert::FromSpecImpl<std::io::Error> for ObscuraError {
    open spec fn obeys_from_spec() -> bool {
        true
    }

    open spec fn from_spec(error: std::io::Error) -> ObscuraError {
        ObscuraError::FilePermissionError
    }
}

impl From<serde_json::Error> for ObscuraError {
    /// Every JSON failure is reported as an invalid vault format.
    fn from(error: serde_json::Error) -> (res: Self) {
        ObscuraError::InvalidVaultFormat
    }
}

impl vstd::std_specs::convert::FromSpecImpl<serde_json::Error> for ObscuraError {
    open spec fn obeys_from_spec() -> bool {
        true
    }

    open spec fn from_spec(error: serde_json::Error) -> ObscuraError {
        ObscuraError::InvalidVaultFormat
    }
}

} // verus!
