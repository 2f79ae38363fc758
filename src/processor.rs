//! Passwords: the length policy, the zero-padded block, the cipher in either
//! direction, verification, and the hexadecimal storage form.

use vstd::prelude::*;
use vstd::string::*;
use vstd::utf8::*;
use crate::codec::{
    hex_bytes, hex_decodable, hex_decode, hex_digit, hex_encode, hex_text, hex_value, is_hex_byte, is_white_space,
    white_space,
};
use crate::config::{default_config, key_from_hex_ok, VncDesConfig};
use crate::des::{des_cipher, lemma_cipher_len, lemma_decrypt_encrypt, VncDesEngine};
use crate::error::{Result, VncDesError};

verus! {

// ----------------------------------------------------------------------------
// Specification
// ----------------------------------------------------------------------------

/// The policy refuses a password: it is empty, or it is overlong while strict
/// mode is on and truncation is off.
pub open spec fn password_rejected(cfg: VncDesConfig, p: Seq<char>) -> bool {
    p.len() == 0 || (p.len() > cfg.max_password_length && cfg.strict_mode && !cfg.auto_truncate)
}

/// The password that is encrypted, once the policy accepts it: its first
/// `max_password_length` characters when it is longer, otherwise unchanged.
pub open spec fn effective_password(cfg: VncDesConfig, p: Seq<char>) -> Seq<char> {
    if p.len() > cfg.max_password_length {
        p.subrange(0, cfg.max_password_length as int)
    } else {
        p
    }
}

/// The first 8 bytes of `b`, padded with zero bytes to 8.
pub open spec fn padded_block(b: Seq<u8>) -> Seq<u8> {
    Seq::new(8, |i: int| if i < b.len() { b[i] } else { 0u8 })
}

/// The ciphertext of an accepted password: its UTF-8 bytes, padded to one
/// block and encrypted under the policy's key.
pub open spec fn encrypted_password(cfg: VncDesConfig, p: Seq<char>) -> Seq<u8> {
    des_cipher(cfg.encryption_key@, padded_block(encode_utf8(effective_password(cfg, p))), true)
}

/// The bytes before the first zero byte (all of them if there is none).
pub open spec fn until_nul(b: Seq<u8>) -> Seq<u8>
    decreases b.len(),
{
    if b.len() == 0 {
        b
    } else if b[0] == 0 {
        Seq::empty()
    } else {
        seq![b[0]] + until_nul(b.drop_first())
    }
}

/// The password bytes that a ciphertext block decrypts to under a key.
pub open spec fn recovered_bytes(key: Seq<u8>, c: Seq<u8>) -> Seq<u8> {
    until_nul(des_cipher(key, c, false))
}

/// What `encrypt_password` returns under a policy.
pub open spec fn encrypt_outcome(cfg: VncDesConfig, p: Seq<char>, r: Result<Vec<u8>>) -> bool {
    match r {
        Ok(v) => !password_rejected(cfg, p) && v@ == encrypted_password(cfg, p) && v@.len() == 8,
        Err(e) => password_rejected(cfg, p) && e is InvalidPasswordLength,
    }
}

/// What `decrypt_password` returns under a key.
pub open spec fn decrypt_outcome(key: Seq<u8>, c: Seq<u8>, r: Result<String>) -> bool {
    if c.len() != 8 {
        match r {
            Ok(_) => false,
            Err(e) => e is InvalidPasswordFormat,
        }
    } else {
        let b = recovered_bytes(key, c);
        match r {
            Ok(s) => valid_utf8(b) && s@ == decode_utf8(b),
            Err(e) => !valid_utf8(b) && e is DecryptionFailed,
        }
    }
}

/// What `verify_password` returns under a policy.
pub open spec fn verify_outcome(cfg: VncDesConfig, p: Seq<char>, c: Seq<u8>, r: Result<bool>) -> bool {
    match r {
        Ok(m) => !password_rejected(cfg, p) && m == (encrypted_password(cfg, p) == c),
        Err(e) => password_rejected(cfg, p) && e is InvalidPasswordLength,
    }
}

/// The characters of `s` that are not white space, in order.
pub open spec fn strip_white(s: Seq<char>) -> Seq<char>
    decreases s.len(),
{
    if s.len() == 0 {
        s
    } else if white_space(s.last()) {
        strip_white(s.drop_last())
    } else {
        strip_white(s.drop_last()).push(s.last())
    }
}

/// The ASCII byte of a character with `A`..`Z` folded to lowercase.
pub open spec fn lower_byte(c: char) -> u8 {
    let b = (c as u32) as u8;
    if 65 <= b <= 90 {
        (b + 32) as u8
    } else {
        b
    }
}

/// The characters' lowercase ASCII bytes.
pub open spec fn lowered(t: Seq<char>) -> Seq<u8> {
    Seq::new(t.len(), |i: int| lower_byte(t[i]))
}

/// Cleaned ciphertext text that decodes: 16 ASCII hexadecimal digits.
pub open spec fn clean_hex_ok(t: Seq<char>) -> bool {
    &&& t.len() == 16
    &&& forall|i: int| 0 <= i < t.len() ==> (#[trigger] t[i] as u32) < 128
    &&& hex_decodable(lowered(t))
}

/// What `from_clean_hex` returns for cleaned text.
pub open spec fn clean_hex_outcome(t: Seq<char>, r: Result<Vec<u8>>) -> bool {
    match r {
        Ok(v) => clean_hex_ok(t) && v@ == hex_bytes(lowered(t)) && v@.len() == 8,
        Err(e) => !clean_hex_ok(t) && e is HexDecodeError,
    }
}

// ----------------------------------------------------------------------------
// Laws
// ----------------------------------------------------------------------------

proof fn lemma_digit_round_trip(c: u8)
    requires
        (48 <= c <= 57) || (97 <= c <= 102),
    ensures
        0 <= hex_value(c) < 16,
        hex_digit(hex_value(c)) == c as char,
{
    let d = seq!['0', '1', '2', '3', '4', '5', '6', '7', '8', '9', 'a', 'b', 'c', 'd', 'e', 'f'];
    assert(hex_digit(hex_value(c)) == d[hex_value(c)]);
}

/// Decoded ciphertext text encodes back to the same text, white space
/// removed and letters in lowercase; the decoded value is 8 bytes.
pub proof fn lemma_hex_reencode(t: Seq<char>)
    requires
        clean_hex_ok(t),
    ensures
        hex_bytes(lowered(t)).len() == 8,
        hex_text(hex_bytes(lowered(t))) == Seq::new(16, |i: int| lowered(t)[i] as char),
{
    let l = lowered(t);
    let v = hex_bytes(l);
    assert forall|i: int| 0 <= i < 16 implies (48 <= #[trigger] l[i] <= 57) || (97 <= l[i] <= 102) by {
        assert(is_hex_byte(l[i]));
        assert((t[i] as u32) < 128);
    }
    assert forall|i: int| 0 <= i < 16 implies #[trigger] hex_text(v)[i] == l[i] as char by {
        let k = i / 2;
        lemma_digit_round_trip(l[2 * k]);
        lemma_digit_round_trip(l[2 * k + 1]);
        let hi = hex_value(l[2 * k]);
        let lo = hex_value(l[2 * k + 1]);
        assert(v[k] as int == hi * 16 + lo);
        assert((hi * 16 + lo) / 16 == hi && (hi * 16 + lo) % 16 == lo) by (nonlinear_arith)
            requires
                0 <= hi < 16,
                0 <= lo < 16,
        ;
    }
    assert(hex_text(v) =~= Seq::new(16, |i: int| l[i] as char));
}

proof fn lemma_until_nul_prefix(b: Seq<u8>, i: int)
    requires
        0 <= i <= b.len(),
        forall|k: int| 0 <= k < i ==> b[k] != 0,
        i == b.len() || b[i] == 0,
    ensures
        until_nul(b) == b.subrange(0, i),
    decreases i,
{
    if i == 0 {
        if b.len() != 0 {
            assert(b[0] == 0);
        }
        assert(b.subrange(0, 0) =~= Seq::<u8>::empty());
    } else {
        let t = b.drop_first();
        assert forall|k: int| 0 <= k < i - 1 implies t[k] != 0 by {
            assert(t[k] == b[k + 1]);
        }
        if i - 1 < t.len() {
            assert(t[i - 1] == b[i]);
        }
        lemma_until_nul_prefix(t, i - 1);
        assert(seq![b[0]] + t.subrange(0, i - 1) =~= b.subrange(0, i));
    }
}

proof fn lemma_scalar_no_zero(v: u32)
    requires
        v != 0,
    ensures
        forall|k: int| 0 <= k < encode_scalar(v).len() ==> #[trigger] encode_scalar(v)[k] != 0,
{
    let b1 = (v & 0x7F) as u8;
    assert(v <= 0x7F ==> b1 != 0) by (bit_vector)
        requires
            v != 0,
            b1 == (v & 0x7F) as u8,
    ;
    let h2 = ((v >> 6) & 0x1F) as u8;
    let h3 = ((v >> 12) & 0x0F) as u8;
    let h4 = ((v >> 18) & 0x7) as u8;
    let c1 = (v & 0x3F) as u8;
    let c2 = ((v >> 6) & 0x3F) as u8;
    let c3 = ((v >> 12) & 0x3F) as u8;
    assert((0xC0u8 | h2) != 0 && (0xE0u8 | h3) != 0 && (0xF0u8 | h4) != 0 && (0x80u8 | c1) != 0
        && (0x80u8 | c2) != 0 && (0x80u8 | c3) != 0) by (bit_vector);
}

proof fn lemma_utf8_no_zero(p: Seq<char>)
    requires
        forall|i: int| 0 <= i < p.len() ==> #[trigger] p[i] != '\0',
    ensures
        forall|k: int| 0 <= k < encode_utf8(p).len() ==> #[trigger] encode_utf8(p)[k] != 0,
    decreases p.len(),
{
    if p.len() > 0 {
        let rest = p.drop_first();
        assert forall|i: int| 0 <= i < rest.len() implies #[trigger] rest[i] != '\0' by {
            assert(rest[i] == p[i + 1]);
        }
        lemma_utf8_no_zero(rest);
        assert(p[0] != '\0');
        char_u32_cast(p[0], p[0] as u32);
        assert((p[0] as u32) != 0) by {
            if (p[0] as u32) == 0 {
                assert((0u32 as char) == '\0');
            }
        }
        lemma_scalar_no_zero(p[0] as u32);
        let e = encode_scalar(p[0] as u32);
        assert(encode_utf8(p) == e + encode_utf8(rest));
        assert forall|k: int| 0 <= k < encode_utf8(p).len() implies #[trigger] encode_utf8(p)[k] != 0 by {
            if k < e.len() {
                assert(encode_utf8(p)[k] == e[k]);
            } else {
                assert(encode_utf8(p)[k] == encode_utf8(rest)[k - e.len()]);
            }
        }
    }
}

/// A block made of up to 8 non-zero bytes padded with zeros decrypts, under
/// any key, to those bytes once its padding is dropped.
pub proof fn lemma_block_round_trip(key: Seq<u8>, b: Seq<u8>)
    requires
        b.len() <= 8,
        forall|i: int| 0 <= i < b.len() ==> #[trigger] b[i] != 0,
    ensures
        recovered_bytes(key, des_cipher(key, padded_block(b), true)) == b,
{
    let pb = padded_block(b);
    lemma_decrypt_encrypt(key, pb);
    lemma_until_nul_prefix(pb, b.len() as int);
    assert(pb.subrange(0, b.len() as int) =~= b);
}

/// Round trip: under every key, a password that the policy takes whole (1 to
/// `max_password_length` characters, at most 8 bytes of UTF-8, no NUL
/// character) is accepted, and its ciphertext decrypts to valid text that is
/// the password again.
pub proof fn lemma_password_round_trip(cfg: VncDesConfig, p: Seq<char>)
    requires
        1 <= p.len() <= cfg.max_password_length,
        encode_utf8(p).len() <= 8,
        forall|i: int| 0 <= i < p.len() ==> #[trigger] p[i] != '\0',
    ensures
        !password_rejected(cfg, p),
        encrypted_password(cfg, p).len() == 8,
        valid_utf8(recovered_bytes(cfg.encryption_key@, encrypted_password(cfg, p))),
        decode_utf8(recovered_bytes(cfg.encryption_key@, encrypted_password(cfg, p))) == p,
{
    assert(effective_password(cfg, p) == p);
    lemma_cipher_len(cfg.encryption_key@, padded_block(encode_utf8(p)), true);
    lemma_utf8_no_zero(p);
    lemma_block_round_trip(cfg.encryption_key@, encode_utf8(p));
    encode_utf8_valid_utf8(p);
    encode_utf8_decode_utf8(p);
}

/// Verification against a password's own ciphertext: an accepted password
/// verifies as a match, and a refused one is an error, never a mismatch.
pub proof fn lemma_verify_own_ciphertext(cfg: VncDesConfig, p: Seq<char>, r: Result<bool>)
    requires
        verify_outcome(cfg, p, encrypted_password(cfg, p), r),
    ensures
        r is Ok <==> !password_rejected(cfg, p),
        r matches Ok(m) ==> m,
{
}

// ----------------------------------------------------------------------------
// Helpers
// ----------------------------------------------------------------------------

/// Relies on `std::str::from_utf8`: it accepts exactly the valid UTF-8 byte
/// sequences, and the text it gives consists of those bytes.
#[verifier::external_body]
fn utf8_text(bytes: &[u8]) -> (r: Option<String>)
    ensures
        r is Some <==> valid_utf8(bytes@),
        r matches Some(s) ==> s@ == decode_utf8(bytes@),
{
    match std::str::from_utf8(bytes) {
        Ok(s) => Some(s.to_string()),
        Err(_) => None,
    }
}

/// The bytes of a block as a vector.
fn block_to_vec(b: &[u8; 8]) -> (r: Vec<u8>)
    ensures
        r@ == b@,
{
    let mut v: Vec<u8> = Vec::new();
    let mut i: usize = 0;
    while i < 8
        invariant
            i <= 8,
            v@ == b@.subrange(0, i as int),
        decreases 8 - i,
    {
        v.push(b[i]);
        i += 1;
        assert(v@ =~= b@.subrange(0, i as int));
    }
    assert(b@.subrange(0, 8) =~= b@);
    v
}

/// Byte-for-byte equality.
fn bytes_equal(a: &[u8], b: &[u8]) -> (r: bool)
    ensures
        r == (a@ == b@),
{
    if a.len() != b.len() {
        return false;
    }
    let mut i: usize = 0;
    while i < a.len()
        invariant
            i <= a@.len(),
            a@.len() == b@.len(),
            forall|k: int| 0 <= k < i ==> a@[k] == b@[k],
        decreases a@.len() - i,
    {
        if a[i] != b[i] {
            return false;
        }
        i += 1;
    }
    assert(a@ =~= b@);
    true
}

// ----------------------------------------------------------------------------
// Processor
// ----------------------------------------------------------------------------

/// Encrypts, decrypts and verifies passwords under one policy.
#[derive(Debug, Clone)]
pub struct VncDesProcessor {
    config: VncDesConfig,
    engine: VncDesEngine,
}

impl Default for VncDesProcessor {
    fn default() -> (r: Self)
        ensures
            r.spec_config() == default_config(),
    {
        Self::new(VncDesConfig::default())
    }
}

impl VncDesProcessor {
    /// The policy the processor works under.
    pub closed spec fn spec_config(&self) -> VncDesConfig {
        self.config
    }

    /// A processor for a policy.
    pub fn new(config: VncDesConfig) -> (r: Self)
        ensures
            r.spec_config() == config,
    {
        Self { config, engine: VncDesEngine::new() }
    }

    /// A processor for the default policy.
    pub fn with_default_config() -> (r: Self)
        ensures
            r.spec_config() == default_config(),
    {
        Self::default()
    }

    /// A processor for the default policy with another key.
    pub fn with_key(key: [u8; 8]) -> (r: Self)
        ensures
            r.spec_config() == (VncDesConfig { encryption_key: key, ..default_config() }),
    {
        let config = VncDesConfig::new().with_key(key);
        Self::new(config)
    }

    /// A processor for the default policy with the key of a hexadecimal text.
    pub fn with_hex_key(hex_key: &str) -> (r: Result<Self>)
        ensures
            r is Ok <==> key_from_hex_ok(hex_key.spec_bytes()),
            r matches Ok(p) ==> p.spec_config().encryption_key@ == hex_bytes(hex_key.spec_bytes())
                && p.spec_config().strict_mode == default_config().strict_mode
                && p.spec_config().auto_truncate == default_config().auto_truncate
                && p.spec_config().max_password_length == default_config().max_password_length,
            r matches Err(e) ==> (if hex_decodable(hex_key.spec_bytes()) {
                e is InvalidKeyFormat
            } else {
                e is HexDecodeError
            }),
    {
        match VncDesConfig::new().with_hex_key(hex_key) {
            Ok(config) => Ok(Self::new(config)),
            Err(e) => Err(e),
        }
    }

    /// The policy.
    pub fn config(&self) -> (r: &VncDesConfig)
        ensures
            *r == self.spec_config(),
    {
        &self.config
    }

    /// Replaces the policy.
    pub fn set_config(&mut self, config: VncDesConfig)
        ensures
            final(self).spec_config() == config,
    {
        self.config = config;
    }

    /// Applies the length policy: refuses, truncates, or keeps the password.
    fn process_password(&self, password: &str) -> (r: Result<String>)
        ensures
            r is Err <==> password_rejected(self.spec_config(), password@),
            r matches Ok(s) ==> s@ == effective_password(self.spec_config(), password@),
            r matches Err(e) ==> e is InvalidPasswordLength,
    {
        if password.is_empty() {
            return Err(VncDesError::invalid_password_length("the password cannot be empty"));
        }
        let max = self.config.max_password_length;
        if password.unicode_len() > max {
            if self.config.strict_mode && !self.config.auto_truncate {
                return Err(VncDesError::invalid_password_length("the password exceeds the maximum length"));
            }
            return Ok(password.substring_char(0, max).to_owned());
        }
        Ok(password.to_owned())
    }

    /// Encrypts a password under the policy: the policy's length rule, then
    /// its UTF-8 bytes zero-padded (or cut) to one block, encrypted.
    pub fn encrypt_password(&mut self, password: &str) -> (r: Result<Vec<u8>>)
        ensures
            encrypt_outcome(old(self).spec_config(), password@, r),
            final(self).spec_config() == old(self).spec_config(),
    {
        let processed = match self.process_password(password) {
            Ok(s) => s,
            Err(e) => {
                return Err(e);
            },
        };
        let pwd_bytes = processed.as_str().as_bytes();
        let ghost text = encode_utf8(effective_password(self.config, password@));
        assert(pwd_bytes@ == text);
        let mut password_bytes = [0u8; 8];
        let copy_len = if pwd_bytes.len() < 8 {
            pwd_bytes.len()
        } else {
            8
        };
        let mut i: usize = 0;
        while i < copy_len
            invariant
                i <= copy_len,
                copy_len <= 8,
                copy_len <= pwd_bytes@.len(),
                copy_len == pwd_bytes@.len() || copy_len == 8,
                forall|k: int| 0 <= k < i ==> password_bytes[k] == pwd_bytes@[k],
                forall|k: int| i <= k < 8 ==> password_bytes[k] == 0,
            decreases copy_len - i,
        {
            password_bytes[i] = pwd_bytes[i];
            i += 1;
        }
        assert(password_bytes@ =~= padded_block(text));
        let key = self.config.encryption_key;
        let mut encrypted = [0u8; 8];
        match self.engine.encrypt(&mut encrypted, &password_bytes, &key) {
            Ok(()) => {},
            Err(_) => {
                return Err(VncDesError::encryption_failed("the block cipher failed"));
            },
        }
        Ok(block_to_vec(&encrypted))
    }

    /// Decrypts a ciphertext block to the password text before its first zero byte.
    pub fn decrypt_password(&mut self, encrypted_password: &[u8]) -> (r: Result<String>)
        ensures
            decrypt_outcome(old(self).spec_config().encryption_key@, encrypted_password@, r),
            final(self).spec_config() == old(self).spec_config(),
    {
        if encrypted_password.len() != 8 {
            return Err(VncDesError::invalid_password_format("the encrypted password must hold exactly 8 bytes"));
        }
        let mut encrypted_array = [0u8; 8];
        let mut i: usize = 0;
        while i < 8
            invariant
                i <= 8,
                encrypted_password@.len() == 8,
                forall|k: int| 0 <= k < i ==> encrypted_array[k] == encrypted_password@[k],
            decreases 8 - i,
        {
            encrypted_array[i] = encrypted_password[i];
            i += 1;
        }
        assert(encrypted_array@ =~= encrypted_password@);

        let key = self.config.encryption_key;
        let mut decrypted = [0u8; 8];
        match self.engine.decrypt(&mut decrypted, &encrypted_array, &key) {
            Ok(()) => {},
            Err(_) => {
                return Err(VncDesError::decryption_failed("the block cipher failed"));
            },
        }

        let mut text: Vec<u8> = Vec::new();
        let mut end_pos: usize = 0;
        while end_pos < 8 && decrypted[end_pos] != 0
            invariant
                end_pos <= 8,
                text@ == decrypted@.subrange(0, end_pos as int),
                forall|k: int| 0 <= k < end_pos ==> decrypted@[k] != 0,
            decreases 8 - end_pos,
        {
            text.push(decrypted[end_pos]);
            end_pos += 1;
            assert(text@ =~= decrypted@.subrange(0, end_pos as int));
        }
        proof {
            lemma_until_nul_prefix(decrypted@, end_pos as int);
        }
        match utf8_text(text.as_slice()) {
            Some(s) => Ok(s),
            None => Err(VncDesError::decryption_failed("the decrypted password is not valid UTF-8")),
        }
    }

    /// Whether a password encrypts, under the policy, to exactly the given
    /// bytes. A mismatch is `Ok(false)`; only a refused password is an error.
    pub fn verify_password(&mut self, plain_password: &str, encrypted_password: &[u8]) -> (r: Result<bool>)
        ensures
            verify_outcome(old(self).spec_config(), plain_password@, encrypted_password@, r),
            final(self).spec_config() == old(self).spec_config(),
    {
        let encrypted_plain = match self.encrypt_password(plain_password) {
            Ok(v) => v,
            Err(e) => {
                return Err(e);
            },
        };
        Ok(bytes_equal(encrypted_plain.as_slice(), encrypted_password))
    }

    /// The bytes as lowercase hexadecimal text.
    pub fn to_hex_string(encrypted_password: &[u8]) -> (r: String)
        ensures
            r@ == hex_text(encrypted_password@),
    {
        hex_encode(encrypted_password)
    }

    /// Decodes ciphertext text once its white space is removed: it must then
    /// be 16 hexadecimal digits of either case.
    pub fn from_hex_string(hex_string: &str) -> (r: Result<Vec<u8>>)
        ensures
            clean_hex_outcome(strip_white(hex_string@), r),
    {
        let n = hex_string.unicode_len();
        let mut cleaned: Vec<char> = Vec::new();
        let mut i: usize = 0;
        while i < n
            invariant
                i <= n,
                n == hex_string@.len(),
                cleaned@ == strip_white(hex_string@.subrange(0, i as int)),
            decreases n - i,
        {
            let c = hex_string.get_char(i);
            if !is_white_space(c) {
                cleaned.push(c);
            }
            assert(hex_string@.subrange(0, i + 1).drop_last() =~= hex_string@.subrange(0, i as int));
            i += 1;
        }
        assert(hex_string@.subrange(0, n as int) =~= hex_string@);
        Self::from_clean_hex(cleaned.as_slice())
    }

    /// Decodes ciphertext text that holds no white space: 16 hexadecimal
    /// digits of either case.
    pub fn from_clean_hex(cleaned: &[char]) -> (r: Result<Vec<u8>>)
        ensures
            clean_hex_outcome(cleaned@, r),
    {
        if cleaned.len() != 16 {
            return Err(VncDesError::hex_decode_error("the hexadecimal text must hold 16 digits"));
        }
        let mut bytes: Vec<u8> = Vec::new();
        let mut i: usize = 0;
        while i < 16
            invariant
                i <= 16,
                cleaned@.len() == 16,
                bytes@ == lowered(cleaned@).subrange(0, i as int),
                forall|k: int| 0 <= k < i ==> (#[trigger] cleaned@[k] as u32) < 128,
            decreases 16 - i,
        {
            let c = cleaned[i] as u32;
            if c >= 128 {
                return Err(VncDesError::hex_decode_error("not a hexadecimal digit"));
            }
            let b = c as u8;
            bytes.push(if 65 <= b && b <= 90 { b + 32 } else { b });
            i += 1;
            assert(bytes@ =~= lowered(cleaned@).subrange(0, i as int));
        }
        assert(bytes@ =~= lowered(cleaned@));
        match hex_decode(bytes.as_slice()) {
            Ok(v) => Ok(v),
            Err(_) => Err(VncDesError::hex_decode_error("not a hexadecimal text")),
        }
    }

    /// A password with the hexadecimal text of its ciphertext.
    pub fn generate_test_pair(&mut self, plain_password: &str) -> (r: Result<(String, String)>)
        ensures
            match r {
                Ok((p, h)) => !password_rejected(old(self).spec_config(), plain_password@) && p@ == plain_password@
                    && h@ == hex_text(encrypted_password(old(self).spec_config(), plain_password@)),
                Err(e) => password_rejected(old(self).spec_config(), plain_password@) && e is InvalidPasswordLength,
            },
            final(self).spec_config() == old(self).spec_config(),
    {
        let encrypted = match self.encrypt_password(plain_password) {
            Ok(v) => v,
            Err(e) => {
                return Err(e);
            },
        };
        let hex_string = Self::to_hex_string(encrypted.as_slice());
        Ok((plain_password.to_owned(), hex_string))
    }
}

/// Password operations with a fresh processor per call.
pub struct PasswordProcessor;

impl PasswordProcessor {
    /// Encrypts under the default policy.
    pub fn encrypt_with_default(password: &str) -> (r: Result<Vec<u8>>)
        ensures
            encrypt_outcome(default_config(), password@, r),
    {
        let mut processor = VncDesProcessor::default();
        processor.encrypt_password(password)
    }

    /// Decrypts under the default key.
    pub fn decrypt_with_default(encrypted_password: &[u8]) -> (r: Result<String>)
        ensures
            decrypt_outcome(default_config().encryption_key@, encrypted_password@, r),
    {
        let mut processor = VncDesProcessor::default();
        processor.decrypt_password(encrypted_password)
    }

    /// Verifies under the default policy.
    pub fn verify_with_default(plain_password: &str, encrypted_password: &[u8]) -> (r: Result<bool>)
        ensures
            verify_outcome(default_config(), plain_password@, encrypted_password@, r),
    {
        let mut processor = VncDesProcessor::default();
        processor.verify_password(plain_password, encrypted_password)
    }

    /// Encrypts under the default policy with another key.
    pub fn encrypt_with_key(password: &str, key: &[u8; 8]) -> (r: Result<Vec<u8>>)
        ensures
            encrypt_outcome(VncDesConfig { encryption_key: *key, ..default_config() }, password@, r),
    {
        let mut processor = VncDesProcessor::with_key(*key);
        processor.encrypt_password(password)
    }

    /// Decrypts under a key.
    pub fn decrypt_with_key(encrypted_password: &[u8], key: &[u8; 8]) -> (r: Result<String>)
        ensures
            decrypt_outcome(key@, encrypted_password@, r),
    {
        let mut processor = VncDesProcessor::with_key(*key);
        processor.decrypt_password(encrypted_password)
    }

    /// Verifies under the default policy with another key.
    pub fn verify_with_key(plain_password: &str, encrypted_password: &[u8], key: &[u8; 8]) -> (r: Result<bool>)
        ensures
            verify_outcome(
                VncDesConfig { encryption_key: *key, ..default_config() },
                plain_password@,
                encrypted_password@,
                r,
            ),
    {
        let mut processor = VncDesProcessor::with_key(*key);
        processor.verify_password(plain_password, encrypted_password)
    }
}

} // verus!
