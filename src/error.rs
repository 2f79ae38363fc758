//! Errors reported by the library.

use vstd::prelude::*;

verus! {

/// Every failure the library reports; each carries a human-readable message.
#[derive(Debug, Clone)]
pub enum VncDesError {
    /// The password is empty, or longer than the policy allows.
    InvalidPasswordLength(String),
    /// A lower-level failure while encrypting.
    EncryptionFailed(String),
    /// A lower-level failure while decrypting, such as output that is not text.
    DecryptionFailed(String),
    /// A key that does not hold exactly 8 bytes.
    InvalidKeyFormat(String),
    /// A ciphertext that does not hold exactly 8 bytes.
    InvalidPasswordFormat(String),
    /// Malformed hexadecimal text.
    HexDecodeError(String),
    /// A password policy that breaks its limits.
    ConfigError(String),
}

/// Result type of the library's fallible operations.
pub type Result<T> = core::result::Result<T, VncDesError>;

impl VncDesError {
    /// An invalid password length error.
    pub fn invalid_password_length(msg: &str) -> (r: Self)
        ensures
            match r {
                VncDesError::InvalidPasswordLength(m) => m@ == msg@,
                _ => false,
            },
    {
        VncDesError::InvalidPasswordLength(msg.to_owned())
    }

    /// An encryption failure.
    pub fn encryption_failed(msg: &str) -> (r: Self)
        ensures
            match r {
                VncDesError::EncryptionFailed(m) => m@ == msg@,
                _ => false,
            },
    {
        VncDesError::EncryptionFailed(msg.to_owned())
    }

    /// A decryption failure.
    pub fn decryption_failed(msg: &str) -> (r: Self)
        ensures
            match r {
                VncDesError::DecryptionFailed(m) => m@ == msg@,
                _ => false,
            },
    {
        VncDesError::DecryptionFailed(msg.to_owned())
    }

    /// An invalid key format error.
    pub fn invalid_key_format(msg: &str) -> (r: Self)
        ensures
            match r {
                VncDesError::InvalidKeyFormat(m) => m@ == msg@,
                _ => false,
            },
    {
        VncDesError::InvalidKeyFormat(msg.to_owned())
    }

    /// An invalid ciphertext format error.
    pub fn invalid_password_format(msg: &str) -> (r: Self)
        ensures
            match r {
                VncDesError::InvalidPasswordFormat(m) => m@ == msg@,
                _ => false,
            },
    {
        VncDesError::InvalidPasswordFormat(msg.to_owned())
    }

    /// A configuration error.
    pub fn config_error(msg: &str) -> (r: Self)
        ensures
            match r {
                VncDesError::ConfigError(m) => m@ == msg@,
                _ => false,
            },
    {
        VncDesError::ConfigError(msg.to_owned())
    }

    /// A hexadecimal decoding error.
    pub fn hex_decode_error(msg: &str) -> (r: Self)
        ensures
            match r {
                VncDesError::HexDecodeError(m) => m@ == msg@,
                _ => false,
            },
    {
        VncDesError::HexDecodeError(msg.to_owned())
    }
}

} // verus!
