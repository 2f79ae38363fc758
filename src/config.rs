//! The key and the password-length policy.

use vstd::prelude::*;
use vstd::string::*;
use crate::codec::{hex_bytes, hex_decodable, hex_decode, hex_encode, hex_text};
use crate::error::{Result, VncDesError};

verus! {

/// The fixed key that the common remote-desktop servers use by default.
pub const TIGHTVNC_DEFAULT_KEY: [u8; 8] = [23, 82, 107, 6, 35, 78, 88, 7];

/// The key and the password-length policy of a processing session.
#[derive(Debug, Clone, Copy)]
pub struct VncDesConfig {
    /// The 8-byte cipher key.
    pub encryption_key: [u8; 8],
    /// Reject overlong passwords, unless `auto_truncate` is set.
    pub strict_mode: bool,
    /// Cut overlong passwords even in strict mode. An overlong password that
    /// is not rejected is always cut to `max_password_length` characters.
    pub auto_truncate: bool,
    /// The longest password kept whole, in characters.
    pub max_password_length: usize,
}

/// The default policy: the common default key, no strict mode, truncation
/// to 8 characters.
pub open spec fn default_config() -> VncDesConfig {
    VncDesConfig {
        encryption_key: TIGHTVNC_DEFAULT_KEY,
        strict_mode: false,
        auto_truncate: true,
        max_password_length: 8,
    }
}

/// The limits a policy must keep: a maximum length in 1..=256.
pub open spec fn valid_config(c: VncDesConfig) -> bool {
    1 <= c.max_password_length <= 256
}

impl Default for VncDesConfig {
    fn default() -> (r: Self)
        ensures
            r == default_config(),
    {
        VncDesConfig {
            encryption_key: TIGHTVNC_DEFAULT_KEY,
            strict_mode: false,
            auto_truncate: true,
            max_password_length: 8,
        }
    }
}

/// The key of a hexadecimal key text, or the error that text gives: a decode
/// error, or a key format error when it does not decode to 8 bytes.
pub open spec fn key_from_hex_ok(t: Seq<u8>) -> bool {
    hex_decodable(t) && hex_bytes(t).len() == 8
}

/// Decodes a hexadecimal key text into 8 key bytes.
fn decode_key(hex_key: &str) -> (r: Result<[u8; 8]>)
    ensures
        r is Ok <==> key_from_hex_ok(hex_key.spec_bytes()),
        r matches Ok(k) ==> k@ == hex_bytes(hex_key.spec_bytes()),
        r matches Err(e) ==> (if hex_decodable(hex_key.spec_bytes()) {
            e is InvalidKeyFormat
        } else {
            e is HexDecodeError
        }),
{
    let key_bytes = match hex_decode(hex_key.as_bytes()) {
        Ok(v) => v,
        Err(_) => {
            return Err(VncDesError::hex_decode_error("cannot parse the hexadecimal key"));
        },
    };
    if key_bytes.len() != 8 {
        return Err(VncDesError::invalid_key_format("the key must hold exactly 8 bytes"));
    }
    let mut key = [0u8; 8];
    let mut i: usize = 0;
    while i < 8
        invariant
            i <= 8,
            key_bytes@.len() == 8,
            forall|k: int| 0 <= k < i ==> key[k] == key_bytes@[k],
        decreases 8 - i,
    {
        key[i] = key_bytes[i];
        i += 1;
    }
    assert(key@ =~= key_bytes@);
    Ok(key)
}

impl VncDesConfig {
    /// The default policy.
    pub fn new() -> (r: Self)
        ensures
            r == default_config(),
    {
        Self::default()
    }

    /// The same policy with another key.
    pub fn with_key(self, key: [u8; 8]) -> (r: Self)
        ensures
            r == (VncDesConfig { encryption_key: key, ..self }),
    {
        let mut c = self;
        c.encryption_key = key;
        c
    }

    /// The same policy with the key that a hexadecimal text gives.
    pub fn with_hex_key(self, hex_key: &str) -> (r: Result<Self>)
        ensures
            r is Ok <==> key_from_hex_ok(hex_key.spec_bytes()),
            r matches Ok(c) ==> c.encryption_key@ == hex_bytes(hex_key.spec_bytes())
                && c.strict_mode == self.strict_mode && c.auto_truncate == self.auto_truncate
                && c.max_password_length == self.max_password_length,
            r matches Err(e) ==> (if hex_decodable(hex_key.spec_bytes()) {
                e is InvalidKeyFormat
            } else {
                e is HexDecodeError
            }),
    {
        match decode_key(hex_key) {
            Ok(key) => Ok(self.with_key(key)),
            Err(e) => Err(e),
        }
    }

    /// The same policy with strict mode set or cleared.
    pub fn with_strict_mode(self, strict: bool) -> (r: Self)
        ensures
            r == (VncDesConfig { strict_mode: strict, ..self }),
    {
        let mut c = self;
        c.strict_mode = strict;
        c
    }

    /// The same policy with truncation set or cleared.
    pub fn with_auto_truncate(self, truncate: bool) -> (r: Self)
        ensures
            r == (VncDesConfig { auto_truncate: truncate, ..self }),
    {
        let mut c = self;
        c.auto_truncate = truncate;
        c
    }

    /// The same policy with another maximum length.
    pub fn with_max_password_length(self, length: usize) -> (r: Self)
        ensures
            r == (VncDesConfig { max_password_length: length, ..self }),
    {
        let mut c = self;
        c.max_password_length = length;
        c
    }

    /// Checks the policy's limits.
    pub fn validate(&self) -> (r: Result<()>)
        ensures
            r is Ok <==> valid_config(*self),
            r matches Err(e) ==> e is ConfigError,
    {
        if self.max_password_length == 0 {
            return Err(VncDesError::config_error("the maximum password length cannot be 0"));
        }
        if self.max_password_length > 256 {
            return Err(VncDesError::config_error("the maximum password length cannot exceed 256"));
        }
        Ok(())
    }

    /// The key as 16 lowercase hexadecimal digits.
    pub fn key_as_hex(&self) -> (r: String)
        ensures
            r@ == hex_text(self.encryption_key@),
    {
        hex_encode(&self.encryption_key)
    }
}

/// Builds a policy step by step and checks it at the end.
#[derive(Debug, Clone, Copy)]
pub struct VncDesConfigBuilder {
    config: VncDesConfig,
}

impl Default for VncDesConfigBuilder {
    fn default() -> (r: Self)
        ensures
            r.spec_config() == default_config(),
    {
        VncDesConfigBuilder { config: VncDesConfig::default() }
    }
}

impl VncDesConfigBuilder {
    /// The policy built so far.
    pub closed spec fn spec_config(&self) -> VncDesConfig {
        self.config
    }

    /// A builder that starts from the default policy.
    pub fn new() -> (r: Self)
        ensures
            r.spec_config() == default_config(),
    {
        Self::default()
    }

    /// Sets the key.
    pub fn encryption_key(self, key: [u8; 8]) -> (r: Self)
        ensures
            r.spec_config() == (VncDesConfig { encryption_key: key, ..self.spec_config() }),
    {
        VncDesConfigBuilder { config: self.config.with_key(key) }
    }

    /// Sets the key from a hexadecimal text.
    pub fn hex_key(self, hex_key: &str) -> (r: Result<Self>)
        ensures
            r is Ok <==> key_from_hex_ok(hex_key.spec_bytes()),
            r matches Ok(b) ==> b.spec_config().encryption_key@ == hex_bytes(hex_key.spec_bytes())
                && b.spec_config().strict_mode == self.spec_config().strict_mode
                && b.spec_config().auto_truncate == self.spec_config().auto_truncate
                && b.spec_config().max_password_length == self.spec_config().max_password_length,
            r matches Err(e) ==> (if hex_decodable(hex_key.spec_bytes()) {
                e is InvalidKeyFormat
            } else {
                e is HexDecodeError
            }),
    {
        match self.config.with_hex_key(hex_key) {
            Ok(c) => Ok(VncDesConfigBuilder { config: c }),
            Err(e) => Err(e),
        }
    }

    /// Sets strict mode.
    pub fn strict_mode(self, strict: bool) -> (r: Self)
        ensures
            r.spec_config() == (VncDesConfig { strict_mode: strict, ..self.spec_config() }),
    {
        VncDesConfigBuilder { config: self.config.with_strict_mode(strict) }
    }

    /// Sets truncation.
    pub fn auto_truncate(self, truncate: bool) -> (r: Self)
        ensures
            r.spec_config() == (VncDesConfig { auto_truncate: truncate, ..self.spec_config() }),
    {
        VncDesConfigBuilder { config: self.config.with_auto_truncate(truncate) }
    }

    /// Sets the maximum password length.
    pub fn max_password_length(self, length: usize) -> (r: Self)
        ensures
            r.spec_config() == (VncDesConfig { max_password_length: length, ..self.spec_config() }),
    {
        VncDesConfigBuilder { config: self.config.with_max_password_length(length) }
    }

    /// The policy, once it keeps its limits.
    pub fn build(self) -> (r: Result<VncDesConfig>)
        ensures
            r is Ok <==> valid_config(self.spec_config()),
            r matches Ok(c) ==> c == self.spec_config(),
            r matches Err(e) ==> e is ConfigError,
    {
        match self.config.validate() {
            Ok(()) => Ok(self.config),
            Err(e) => Err(e),
        }
    }
}

} // verus!
