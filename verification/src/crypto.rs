//! The credential envelope: slow one-way hashes of the two passphrases, and the symmetric
//! protection of stored secrets.

use vstd::prelude::*;
use vstd::string::*;
use ciftl::crypter::chacha20::ChaCha20CipherAlgorithm;
use ciftl::crypter::{StringCrypter, StringCrypterTrait};
use crate::error::{DurianError, DurianResult, ErrorView};

verus! {

/// Rounds of the key-derivation function.
pub const PBKDF2_ITERATIONS: u32 = 100000;

/// Length of a derived key in bytes.
pub const DERIVED_KEY_BYTES: usize = 32;

/// Longest input, in bytes, that the digest behind the key derivation takes: its length in
/// bits has to fit 64 bits.
pub const MAX_SECRET_BYTES: u64 = 0x1fff_ffff_ffff_ffff;

/// Bytes that the key derivation hashes together with the salt.
pub const SALT_OVERHEAD_BYTES: u64 = 68;

/// Whether a secret is short enough for the key derivation.
pub open spec fn hashable(secret: Seq<char>) -> bool {
    vstd::utf8::encode_utf8(secret).len() <= MAX_SECRET_BYTES
}

/// Whether a secret is short enough for the key derivation.
pub fn is_hashable(secret: &str) -> (fits: bool)
    ensures
        fits == hashable(secret@),
{
    secret.as_bytes().len() as u64 <= MAX_SECRET_BYTES
}

/// The salt under which login passphrases are hashed.
pub open spec fn login_salt() -> Seq<char> {
    "durian.password"@
}

/// The salt under which core passphrases are hashed.
pub open spec fn core_salt() -> Seq<char> {
    "durian.core.password"@
}

/// The key that PBKDF2 with HMAC-SHA256 derives from a secret, a salt and a number of
/// rounds, 32 bytes long.
pub uninterp spec fn pbkdf2_hmac_sha256(iterations: u32, salt: Seq<u8>, secret: Seq<u8>) -> Seq<u8>;

/// What the ChaCha20 string crypter makes of a ciphertext under a password: the plaintext,
/// or nothing where it fails.
pub uninterp spec fn chacha20_decrypt(data: Seq<char>, password: Seq<char>) -> Option<Seq<char>>;

/// Longest plaintext, in bytes, that the cipher takes: its key stream ends after 2^38 bytes,
/// is drawn in pieces of 1024, and four bytes of it go to the checksum.
pub const MAX_PLAIN_BYTES: u64 = 0x3f_ffff_fbfc;

/// Longest ciphertext, in bytes, that the cipher takes: what a plaintext of
/// [`MAX_PLAIN_BYTES`] is encrypted to.
pub const MAX_SEALED_BYTES: u64 = 0x55_5555_5010;

/// Whether a plaintext is short enough for the cipher.
pub open spec fn sealable(plain: Seq<char>) -> bool {
    vstd::utf8::encode_utf8(plain).len() <= MAX_PLAIN_BYTES
}

/// Whether a ciphertext is short enough for the cipher.
pub open spec fn openable(sealed: Seq<char>) -> bool {
    vstd::utf8::encode_utf8(sealed).len() <= MAX_SEALED_BYTES
}

/// Whether a plaintext is short enough for the cipher.
pub fn is_sealable(plain: &str) -> (fits: bool)
    ensures
        fits == sealable(plain@),
{
    plain.as_bytes().len() as u64 <= MAX_PLAIN_BYTES
}

/// Whether a ciphertext is short enough for the cipher.
pub fn is_openable(sealed: &str) -> (fits: bool)
    ensures
        fits == openable(sealed@),
{
    sealed.as_bytes().len() as u64 <= MAX_SEALED_BYTES
}

/// The lower-case hexadecimal digit for `d`.
pub open spec fn hex_digit(d: int) -> char {
    "0123456789abcdef"@[d]
}

/// The lower-case hexadecimal text of `bytes`: two digits for each byte, the high one first.
pub open spec fn hex_lower(bytes: Seq<u8>) -> Seq<char>
    decreases bytes.len(),
{
    if bytes.len() == 0 {
        Seq::empty()
    } else {
        hex_lower(bytes.drop_last()).push(hex_digit(bytes.last() as int / 16)).push(
            hex_digit(bytes.last() as int % 16),
        )
    }
}

/// Whether `c` is one of `0`..`9`, `a`..`f`.
pub open spec fn is_hex_digit(c: char) -> bool {
    exists|d: int| 0 <= d < 16 && c == hex_digit(d)
}

/// The hexadecimal text of `bytes` has two characters for each byte, all of them hex digits.
pub proof fn lemma_hex_lower_shape(bytes: Seq<u8>)
    ensures
        hex_lower(bytes).len() == 2 * bytes.len(),
        forall|i: int| 0 <= i < hex_lower(bytes).len() ==> is_hex_digit(#[trigger] hex_lower(bytes)[i]),
    decreases bytes.len(),
{
    if bytes.len() > 0 {
        lemma_hex_lower_shape(bytes.drop_last());
        let front = hex_lower(bytes.drop_last());
        let high = bytes.last() as int / 16;
        let low = bytes.last() as int % 16;
        assert forall|i: int| 0 <= i < hex_lower(bytes).len() implies is_hex_digit(
            #[trigger] hex_lower(bytes)[i],
        ) by {
            if i < front.len() {
                assert(hex_lower(bytes)[i] == front[i]);
            } else if i == front.len() {
                assert(hex_lower(bytes)[i] == hex_digit(high));
            } else {
                assert(hex_lower(bytes)[i] == hex_digit(low));
            }
        }
    }
}

/// Different bytes have different hexadecimal texts.
pub proof fn lemma_hex_lower_injective(a: Seq<u8>, b: Seq<u8>)
    requires
        hex_lower(a) == hex_lower(b),
    ensures
        a == b,
    decreases a.len(),
{
    lemma_hex_lower_shape(a);
    lemma_hex_lower_shape(b);
    if a.len() > 0 {
        let fa = hex_lower(a.drop_last());
        let fb = hex_lower(b.drop_last());
        lemma_hex_lower_shape(a.drop_last());
        lemma_hex_lower_shape(b.drop_last());
        let ha = a.last() as int / 16;
        let la = a.last() as int % 16;
        let hb = b.last() as int / 16;
        let lb = b.last() as int % 16;
        let n = fa.len() as int;
        assert(hex_lower(a)[n] == hex_digit(ha) && hex_lower(a)[n + 1] == hex_digit(la));
        assert(hex_lower(b)[n] == hex_digit(hb) && hex_lower(b)[n + 1] == hex_digit(lb));
        reveal_strlit("0123456789abcdef");
        assert(ha == hb && la == lb);
        assert(a.last() == b.last());
        assert(fa =~= hex_lower(a).take(n));
        assert(fb =~= hex_lower(b).take(n));
        lemma_hex_lower_injective(a.drop_last(), b.drop_last());
        assert(a =~= a.drop_last().push(a.last()));
        assert(b =~= b.drop_last().push(b.last()));
    } else {
        assert(a =~= b);
    }
}

/// Calls `ring::pbkdf2::derive` with `PBKDF2_HMAC_SHA256` and a 32-byte output buffer.
/// Trusted: the buffer it fills is the key that PBKDF2/HMAC-SHA256 derives from these
/// rounds, salt and secret. The bounds keep the call away from the inputs on which the
/// crate panics: no rounds, or a secret, or a salt with the block and counter hashed
/// beside it, whose length in bits does not fit 64 bits.
#[verifier::external_body]
fn pbkdf2_derive(iterations: u32, salt: &[u8], secret: &[u8]) -> (key: Vec<u8>)
    requires
        iterations > 0,
        salt@.len() + SALT_OVERHEAD_BYTES <= MAX_SECRET_BYTES,
        secret@.len() <= MAX_SECRET_BYTES,
    ensures
        key@ == pbkdf2_hmac_sha256(iterations, salt@, secret@),
        key@.len() == DERIVED_KEY_BYTES,
{
    let rounds = std::num::NonZeroU32::new(iterations).unwrap();
    let mut out = [0u8; 32];
    ring::pbkdf2::derive(ring::pbkdf2::PBKDF2_HMAC_SHA256, rounds, salt, secret, &mut out);
    out.to_vec()
}

/// Calls `hex::encode`. Trusted: the text holds two lower-case hexadecimal digits for each
/// byte, in order, the high digit first.
#[verifier::external_body]
fn hex_encode(bytes: &Vec<u8>) -> (text: String)
    ensures
        text@ == hex_lower(bytes@),
{
    hex::encode(bytes)
}

/// Calls `StringCrypterTrait::encrypt` of ciftl's ChaCha20 string crypter. Trusted: with a
/// plaintext and a password that are not empty the call succeeds, and what it returns is
/// not empty, short enough to be decrypted, and decrypts, under the same password, to the
/// plaintext. The ciphertext itself embeds a random nonce, so nothing more is said of it.
/// A failure comes back as the crate's description of it. The bounds keep the call away
/// from the inputs on which the crate panics: a plaintext that outlasts the key stream,
/// or a password too long for the digest that makes the key of it.
#[verifier::external_body]
fn chacha20_seal(data: &str, password: &str) -> (r: Result<String, String>)
    requires
        sealable(data@),
        hashable(password@),
    ensures
        data@.len() > 0 && password@.len() > 0 ==> r is Ok,
        r matches Ok(sealed) ==> sealed@.len() > 0 && openable(sealed@) && chacha20_decrypt(
            sealed@,
            password@,
        ) == Some(data@),
{
    let crypter = StringCrypter::<ChaCha20CipherAlgorithm>::default();
    match crypter.encrypt(data, password) {
        Ok(sealed) => Ok(sealed),
        Err(e) => Err(format!("{:?}", e)),
    }
}

/// Calls `StringCrypterTrait::decrypt` of ciftl's ChaCha20 string crypter. Trusted: the
/// outcome depends on the ciphertext and the password alone. Of a failure nothing is
/// handed on: the crate's description of it may hold what was decrypted. The bounds keep
/// the call away from the inputs on which the crate panics, as for encryption.
#[verifier::external_body]
fn chacha20_open(data: &str, password: &str) -> (r: Option<String>)
    requires
        openable(data@),
        hashable(password@),
    ensures
        opened_view(r) == chacha20_decrypt(data@, password@),
{
    let crypter = StringCrypter::<ChaCha20CipherAlgorithm>::default();
    match crypter.decrypt(data, password) {
        Ok(plain) => Some(plain),
        Err(_) => None,
    }
}

/// The digest of `password` under `salt`: the derived key in hexadecimal.
pub open spec fn password_digest(password: Seq<char>, salt: Seq<char>) -> Seq<char> {
    hex_lower(
        pbkdf2_hmac_sha256(
            PBKDF2_ITERATIONS,
            vstd::utf8::encode_utf8(salt),
            vstd::utf8::encode_utf8(password),
        ),
    )
}

/// Hashes `password`, which is not empty, under `salt` with the slow key-derivation
/// function.
pub fn hash_password_pbkdf2(password: &str, salt: &str) -> (digest: String)
    requires
        password@.len() > 0,
        hashable(password@),
        salt.spec_bytes().len() + SALT_OVERHEAD_BYTES <= MAX_SECRET_BYTES,
    ensures
        digest@ == password_digest(password@, salt@),
        digest@.len() == 64,
        forall|i: int| 0 <= i < 64 ==> is_hex_digit(#[trigger] digest@[i]),
{
    let key = pbkdf2_derive(PBKDF2_ITERATIONS, salt.as_bytes(), password.as_bytes());
    proof {
        lemma_hex_lower_shape(key@);
    }
    hex_encode(&key)
}

/// The digest of a login passphrase, which is not empty, as the server stores it.
pub fn hash_login_password(password: &str) -> (digest: String)
    requires
        password@.len() > 0,
        hashable(password@),
    ensures
        digest@ == password_digest(password@, login_salt()),
        digest@.len() == 64,
        forall|i: int| 0 <= i < 64 ==> is_hex_digit(#[trigger] digest@[i]),
{
    let salt = "durian.password";
    proof {
        reveal_strlit("durian.password");
        is_ascii_spec_bytes(salt);
    }
    hash_password_pbkdf2(password, salt)
}

/// The digest of a core passphrase, which is not empty, as the server stores it.
pub fn hash_core_password(password: &str) -> (digest: String)
    requires
        password@.len() > 0,
        hashable(password@),
    ensures
        digest@ == password_digest(password@, core_salt()),
        digest@.len() == 64,
        forall|i: int| 0 <= i < 64 ==> is_hex_digit(#[trigger] digest@[i]),
{
    let salt = "durian.core.password";
    proof {
        reveal_strlit("durian.core.password");
        is_ascii_spec_bytes(salt);
    }
    hash_password_pbkdf2(password, salt)
}

/// What a passphrase is hashed for.
#[derive(Debug, Clone, Copy, PartialEq, Eq, Structural)]
pub enum HashPurpose {
    /// Proving the user's identity to the server.
    Login,
    /// Proving knowledge of the key that protects the stored secrets.
    Core,
}

/// The salt that goes with a purpose.
pub open spec fn purpose_salt(purpose: HashPurpose) -> Seq<char> {
    match purpose {
        HashPurpose::Login => login_salt(),
        HashPurpose::Core => core_salt(),
    }
}

/// The two purposes hash under different salts.
pub proof fn lemma_salts_differ()
    ensures
        login_salt() != core_salt(),
{
    reveal_strlit("durian.password");
    reveal_strlit("durian.core.password");
    assert(login_salt().len() != core_salt().len());
}

/// Two digests of one passphrase agree only where the keys derived under the two salts do.
pub proof fn lemma_digests_agree_only_on_equal_keys(password: Seq<char>)
    requires
        password_digest(password, login_salt()) == password_digest(password, core_salt()),
    ensures
        pbkdf2_hmac_sha256(
            PBKDF2_ITERATIONS,
            vstd::utf8::encode_utf8(login_salt()),
            vstd::utf8::encode_utf8(password),
        ) == pbkdf2_hmac_sha256(
            PBKDF2_ITERATIONS,
            vstd::utf8::encode_utf8(core_salt()),
            vstd::utf8::encode_utf8(password),
        ),
{
    lemma_hex_lower_injective(
        pbkdf2_hmac_sha256(
            PBKDF2_ITERATIONS,
            vstd::utf8::encode_utf8(login_salt()),
            vstd::utf8::encode_utf8(password),
        ),
        pbkdf2_hmac_sha256(
            PBKDF2_ITERATIONS,
            vstd::utf8::encode_utf8(core_salt()),
            vstd::utf8::encode_utf8(password),
        ),
    );
}

/// What [`derive_auth_hash`] answers: a validation error for an empty secret, else its
/// digest under the salt of the purpose.
pub open spec fn auth_hash_spec(secret: Seq<char>, purpose: HashPurpose) -> Result<
    Seq<char>,
    ErrorView,
> {
    if secret.len() == 0 {
        Err(ErrorView::ValidationError("密码不能为空"@))
    } else {
        Ok(password_digest(secret, purpose_salt(purpose)))
    }
}

/// The digest that proves knowledge of `secret` for `purpose`: 64 hexadecimal characters,
/// the same for the same input. An empty secret is a validation error.
pub fn derive_auth_hash(secret: &str, purpose: HashPurpose) -> (r: DurianResult<String>)
    requires
        hashable(secret@),
    ensures
        text_result_view(r) == auth_hash_spec(secret@, purpose),
        r matches Ok(digest) ==> digest@.len() == 64 && forall|i: int|
            0 <= i < 64 ==> is_hex_digit(#[trigger] digest@[i]),
{
    if secret.is_empty() {
        return Err(DurianError::validation("密码不能为空"));
    }
    match purpose {
        HashPurpose::Login => Ok(hash_login_password(secret)),
        HashPurpose::Core => Ok(hash_core_password(secret)),
    }
}

/// What [`encrypt_message`] answers once the cipher has answered `sealed`.
pub open spec fn sealed_outcome(sealed: Result<Seq<char>, Seq<char>>) -> Result<
    Seq<char>,
    ErrorView,
> {
    match sealed {
        Ok(text) => Ok(text),
        Err(why) => Err(ErrorView::CryptoError("加密失败: "@ + why)),
    }
}

/// What [`decrypt_message`] answers once the cipher has answered `opened`. The error says
/// no more than that decryption failed.
pub open spec fn opened_outcome(opened: Option<Seq<char>>) -> Result<Seq<char>, ErrorView> {
    match opened {
        Some(text) => Ok(text),
        None => Err(ErrorView::CryptoError("解密失败"@)),
    }
}

/// The model of what the cipher made of a ciphertext.
pub open spec fn opened_view(r: Option<String>) -> Option<Seq<char>> {
    match r {
        Some(text) => Some(text@),
        None => None,
    }
}

/// The model of the cipher's answer to an encryption.
pub open spec fn cipher_view(r: Result<String, String>) -> Result<Seq<char>, Seq<char>> {
    match r {
        Ok(text) => Ok(text@),
        Err(why) => Err(why@),
    }
}

/// The model of an answer of this module.
pub open spec fn text_result_view(r: DurianResult<String>) -> Result<Seq<char>, ErrorView> {
    match r {
        Ok(text) => Ok(text@),
        Err(e) => Err(e@),
    }
}

/// Turns the cipher's answer to an encryption into this crate's: the ciphertext, or a
/// crypto error that quotes the cipher's description of its failure.
pub fn seal_outcome(sealed: Result<String, String>) -> (r: DurianResult<String>)
    ensures
        text_result_view(r) == sealed_outcome(cipher_view(sealed)),
{
    match sealed {
        Ok(text) => Ok(text),
        Err(why) => Err(
            DurianError::CryptoError(String::from_str("加密失败: ").concat(why.as_str())),
        ),
    }
}

/// Turns the cipher's answer to a decryption into this crate's: the plaintext, or a crypto
/// error that holds nothing of what was decrypted.
pub fn open_outcome(opened: Option<String>) -> (r: DurianResult<String>)
    ensures
        text_result_view(r) == opened_outcome(opened_view(opened)),
{
    match opened {
        Some(text) => Ok(text),
        None => Err(DurianError::crypto("解密失败")),
    }
}

/// What [`decrypt_message`] answers: a validation error for an empty ciphertext or key,
/// else what the cipher makes of them.
pub open spec fn decrypt_spec(ciphertext: Seq<char>, key: Seq<char>) -> Result<
    Seq<char>,
    ErrorView,
> {
    if ciphertext.len() == 0 {
        Err(ErrorView::ValidationError("解密内容不能为空"@))
    } else if key.len() == 0 {
        Err(ErrorView::ValidationError("解密密钥不能为空"@))
    } else {
        opened_outcome(chacha20_decrypt(ciphertext, key))
    }
}

/// Encrypts `message` under `key`. An empty message or key is a validation error. Otherwise
/// the call succeeds, and its result decrypts under `key` to `message`; two calls may
/// return different ciphertexts.
pub fn encrypt_message(message: &str, key: &str) -> (r: DurianResult<String>)
    requires
        sealable(message@),
        hashable(key@),
    ensures
        r matches Ok(sealed) ==> openable(sealed@),
        message@.len() == 0 ==> r is Err && r->Err_0@ == ErrorView::ValidationError(
            "加密内容不能为空"@,
        ),
        message@.len() > 0 && key@.len() == 0 ==> r is Err && r->Err_0@
            == ErrorView::ValidationError("加密密钥不能为空"@),
        message@.len() > 0 && key@.len() > 0 ==> r is Ok && decrypt_spec(r->Ok_0@, key@) == Ok::<
            Seq<char>,
            ErrorView,
        >(message@),
{
    if message.is_empty() {
        return Err(DurianError::validation("加密内容不能为空"));
    }
    if key.is_empty() {
        return Err(DurianError::validation("加密密钥不能为空"));
    }
    seal_outcome(chacha20_seal(message, key))
}

/// Decrypts `ciphertext` under `key`. An empty ciphertext or key is a validation error; a
/// ciphertext that is malformed, or was made under another key, is a crypto error.
pub fn decrypt_message(ciphertext: &str, key: &str) -> (r: DurianResult<String>)
    requires
        openable(ciphertext@),
        hashable(key@),
    ensures
        text_result_view(r) == decrypt_spec(ciphertext@, key@),
{
    if ciphertext.is_empty() {
        return Err(DurianError::validation("解密内容不能为空"));
    }
    if key.is_empty() {
        return Err(DurianError::validation("解密密钥不能为空"));
    }
    open_outcome(chacha20_open(ciphertext, key))
}

/// Decryption inverts encryption: whatever ciphertext [`encrypt_message`] may return for a
/// message and a key that are not empty, [`decrypt_message`] turns it back into the message
/// under that key.
pub proof fn law_decrypt_inverts_encrypt(
    message: Seq<char>,
    key: Seq<char>,
    sealed: Seq<char>,
)
    requires
        message.len() > 0,
        key.len() > 0,
        sealed.len() > 0,
        chacha20_decrypt(sealed, key) == Some(message),
    ensures
        decrypt_spec(sealed, key) == Ok::<Seq<char>, ErrorView>(message),
{
}

} // verus!
