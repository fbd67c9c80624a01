//! The two-level key hierarchy: a key-encryption key derived from the
//! master password wraps the master key, and the master key seals records.

use crate::codec::{base64_bytes, base64_decode, base64_encode, base64_text};
use crate::config::{
    config_well_formed, Config, ConfigView, EncConfig, EncConfigView, KdfParams, KdfParamsView,
    AEAD_XCHACHA20POLY1305, KDF_ARGON2ID,
};
use crate::text::{chars_of, str_eq, string_of};
use chacha20poly1305::aead::{Aead, AeadCore, OsRng};
use chacha20poly1305::{Key, KeyInit, XChaCha20Poly1305, XNonce};
use rand::RngCore;
use vstd::prelude::*;
use vstd::string::*;
use vstd::utf8::encode_utf8;

verus! {

/// The key that seals every record of a store: 32 bytes.
pub type MasterKey = [u8; 32];

/// Length of a key, in bytes.
pub const KEY_LEN: usize = 32;

/// Length of a salt of a new store, in bytes.
pub const SALT_LEN: usize = 16;

/// Length of a nonce, in bytes.
pub const NONCE_LEN: usize = 24;

/// Memory cost of the key derivation of a new store, in MiB.
pub const DEFAULT_MEMORY_MIB: u32 = 32;

/// Number of passes of the key derivation of a new store.
pub const DEFAULT_ITERATIONS: u32 = 3;

/// Degree of parallelism of the key derivation of a new store.
pub const DEFAULT_PARALLELISM: u32 = 1;

/// Largest degree of parallelism that the key derivation takes.
pub const MAX_PARALLELISM: u32 = 0x00FF_FFFF;

/// Largest length, in bytes, of a password or of a salt that the key
/// derivation takes.
pub const MAX_KDF_INPUT_LEN: usize = 0xFFFF_FFFF;

/// Length below which a plaintext can always be sealed.
pub const MAX_PLAINTEXT_LEN: u64 = 0x3F_FFFF_FFC0;

/// Why a key or a record could not be produced or opened.
#[derive(Debug, Clone, Copy, PartialEq, Eq, Structural)]
pub enum CryptoError {
    /// Authentication failed: the key, and so the password that it came
    /// from, does not fit the ciphertext.
    InvalidMasterPassword,
    /// Stored data is malformed: an unknown tag, text that is not base64, or
    /// a nonce or key of the wrong length.
    Corrupt,
    /// The key derivation refused its parameters or its input.
    Kdf,
    /// The plaintext is too long to be sealed.
    Seal,
}

/// The key that Argon2id, version 1.3, derives in 32 bytes from a password
/// and a salt under the given costs (memory in KiB, passes, lanes), or `None`
/// where it refuses them.
pub uninterp spec fn argon2id_key(
    password: Seq<u8>,
    salt: Seq<u8>,
    m_cost: u32,
    t_cost: u32,
    p_cost: u32,
) -> Option<Seq<u8>>;

/// The ciphertext with its authentication tag that XChaCha20-Poly1305 gives
/// for `plaintext` under `key` and `nonce`, with no associated data, or
/// `None` where it refuses the plaintext.
pub uninterp spec fn xchacha_sealed(key: Seq<u8>, nonce: Seq<u8>, plaintext: Seq<u8>) -> Option<
    Seq<u8>,
>;

/// The plaintext that XChaCha20-Poly1305 gives for `ciphertext` under `key`
/// and `nonce`, with no associated data, or `None` where authentication
/// fails.
pub uninterp spec fn xchacha_opened(key: Seq<u8>, nonce: Seq<u8>, ciphertext: Seq<u8>) -> Option<
    Seq<u8>,
>;

/// Inputs on which the key derivation is owed to succeed.
pub open spec fn kdf_inputs_accepted(
    password_len: nat,
    salt_len: nat,
    m_cost: u32,
    t_cost: u32,
    p_cost: u32,
) -> bool {
    &&& password_len <= MAX_KDF_INPUT_LEN
    &&& 8 <= salt_len <= MAX_KDF_INPUT_LEN
    &&& 1 <= p_cost <= MAX_PARALLELISM
    &&& 8 * p_cost <= m_cost
    &&& 1 <= t_cost
}

/// Derives a 32-byte key with Argon2id.
///
/// Trusted: stands for `Params::new`, `Argon2::new` and
/// `Argon2::hash_password_into` of the `argon2` crate, for the algorithm
/// Argon2id in version 1.3 and an output of 32 bytes. The contract names the
/// key and claims that the derivation succeeds on the inputs that the crate's
/// own checks let through, given that the work memory of `m_cost` KiB can
/// be had. The bound on `p_cost` keeps the crate's parameter check clear of
/// an overflowing product.
#[verifier::external_body]
pub(crate) fn argon2id_derive(
    password: &[u8],
    salt: &[u8],
    m_cost: u32,
    t_cost: u32,
    p_cost: u32,
) -> (r: Option<MasterKey>)
    requires
        p_cost <= MAX_PARALLELISM,
    ensures
        match r {
            Some(key) => argon2id_key(password@, salt@, m_cost, t_cost, p_cost) == Some(key@),
            None => argon2id_key(password@, salt@, m_cost, t_cost, p_cost) is None,
        },
        kdf_inputs_accepted(password@.len(), salt@.len(), m_cost, t_cost, p_cost) ==> r is Some,
{
    let mut out = [0u8; 32];
    let params = argon2::Params::new(m_cost, t_cost, p_cost, Some(out.len())).ok()?;
    argon2::Argon2::new(argon2::Algorithm::Argon2id, argon2::Version::V0x13, params)
        .hash_password_into(password, salt, &mut out)
        .ok()?;
    Some(out)
}

/// Seals `plaintext` under `key` and `nonce`.
///
/// Trusted: stands for `KeyInit::new` and `Aead::encrypt` of the
/// `chacha20poly1305` crate on `XChaCha20Poly1305`. The contract names the
/// ciphertext, claims that sealing succeeds below the cipher's length limit,
/// and that opening the ciphertext under the same key and nonce gives the
/// plaintext back.
#[verifier::external_body]
pub(crate) fn xchacha_seal(key: &MasterKey, nonce: &[u8; 24], plaintext: &[u8]) -> (r: Option<
    Vec<u8>,
>)
    ensures
        match r {
            Some(ciphertext) => {
                &&& xchacha_sealed(key@, nonce@, plaintext@) == Some(ciphertext@)
                &&& xchacha_opened(key@, nonce@, ciphertext@) == Some(plaintext@)
            },
            None => xchacha_sealed(key@, nonce@, plaintext@) is None,
        },
        plaintext@.len() < MAX_PLAINTEXT_LEN ==> r is Some,
{
    XChaCha20Poly1305::new(Key::from_slice(key)).encrypt(XNonce::from_slice(nonce), plaintext).ok()
}

/// Opens `ciphertext` under `key` and `nonce`.
///
/// Trusted: stands for `KeyInit::new` and `Aead::decrypt` of the
/// `chacha20poly1305` crate on `XChaCha20Poly1305`. The contract names the
/// plaintext, with the authentication error turned into `None`. The nonce
/// must have the cipher's nonce length, which the crate asserts.
#[verifier::external_body]
pub(crate) fn xchacha_open(key: &MasterKey, nonce: &[u8], ciphertext: &[u8]) -> (r: Option<
    Vec<u8>,
>)
    requires
        nonce@.len() == NONCE_LEN,
    ensures
        match r {
            Some(plaintext) => xchacha_opened(key@, nonce@, ciphertext@) == Some(plaintext@),
            None => xchacha_opened(key@, nonce@, ciphertext@) is None,
        },
{
    XChaCha20Poly1305::new(Key::from_slice(key)).decrypt(XNonce::from_slice(nonce), ciphertext).ok()
}

/// Draws a nonce from the operating system's random source.
///
/// Trusted: stands for `AeadCore::generate_nonce` of the `chacha20poly1305`
/// crate on `OsRng`. Nothing is claimed of the bytes drawn.
#[verifier::external_body]
pub(crate) fn fresh_nonce() -> [u8; 24] {
    let mut out = [0u8; 24];
    out.copy_from_slice(XChaCha20Poly1305::generate_nonce(&mut OsRng).as_slice());
    out
}

/// Draws `N` bytes from the thread's random generator.
///
/// Trusted: stands for `thread_rng` and `RngCore::fill_bytes` of the `rand`
/// crate. Nothing is claimed of the bytes drawn.
#[verifier::external_body]
pub(crate) fn random_bytes<const N: usize>() -> [u8; N] {
    let mut out = [0u8; N];
    rand::thread_rng().fill_bytes(&mut out);
    out
}

/// Draws 32 bits from the thread's random generator.
///
/// Trusted: stands for `thread_rng` and `RngCore::next_u32` of the `rand`
/// crate. Nothing is claimed of the number drawn.
#[verifier::external_body]
pub(crate) fn random_u32() -> u32 {
    rand::thread_rng().next_u32()
}

/// The key-encryption key that `password` gives under the parameters `kdf`.
pub open spec fn kek_of(password: Seq<char>, kdf: KdfParamsView) -> Result<Seq<u8>, CryptoError> {
    if kdf.algo != KDF_ARGON2ID@ {
        Err(CryptoError::Corrupt)
    } else {
        match base64_bytes(kdf.salt) {
            None => Err(CryptoError::Corrupt),
            Some(salt) => if kdf.memory_mib * 1024 > u32::MAX || kdf.parallelism
                > MAX_PARALLELISM {
                Err(CryptoError::Kdf)
            } else {
                match argon2id_key(
                    encode_utf8(password),
                    salt,
                    (kdf.memory_mib * 1024) as u32,
                    kdf.iterations,
                    kdf.parallelism,
                ) {
                    Some(key) => Ok(key),
                    None => Err(CryptoError::Kdf),
                }
            },
        }
    }
}

/// What sealing `plaintext` under `key` and `nonce` puts on disk: the nonce
/// and the ciphertext, each as base64 text.
pub open spec fn sealed_with(key: Seq<u8>, nonce: Seq<u8>, plaintext: Seq<u8>) -> Result<
    (Seq<char>, Seq<char>),
    CryptoError,
> {
    match xchacha_sealed(key, nonce, plaintext) {
        Some(ciphertext) => Ok((base64_text(nonce), base64_text(ciphertext))),
        None => Err(CryptoError::Seal),
    }
}

/// The plaintext that `key` opens from a nonce and a ciphertext held as
/// base64 text.
pub open spec fn opened_with(key: Seq<u8>, nonce_b64: Seq<char>, ct_b64: Seq<char>) -> Result<
    Seq<u8>,
    CryptoError,
> {
    match base64_bytes(nonce_b64) {
        None => Err(CryptoError::Corrupt),
        Some(nonce) => if nonce.len() != NONCE_LEN {
            Err(CryptoError::Corrupt)
        } else {
            match base64_bytes(ct_b64) {
                None => Err(CryptoError::Corrupt),
                Some(ciphertext) => match xchacha_opened(key, nonce, ciphertext) {
                    Some(plaintext) => Ok(plaintext),
                    None => Err(CryptoError::InvalidMasterPassword),
                },
            }
        },
    }
}

/// The 32-byte key that `kek` unwraps from a nonce and a ciphertext held as
/// base64 text.
pub open spec fn unwrapped_key(kek: Seq<u8>, nonce_b64: Seq<char>, ct_b64: Seq<char>) -> Result<
    Seq<u8>,
    CryptoError,
> {
    match opened_with(kek, nonce_b64, ct_b64) {
        Err(e) => Err(e),
        Ok(key) => if key.len() == KEY_LEN {
            Ok(key)
        } else {
            Err(CryptoError::Corrupt)
        },
    }
}

/// The master key that `password` unwraps from the key file `cfg`.
pub open spec fn unlocked_key(password: Seq<char>, cfg: ConfigView) -> Result<
    Seq<u8>,
    CryptoError,
> {
    if cfg.enc.algo != AEAD_XCHACHA20POLY1305@ {
        Err(CryptoError::Corrupt)
    } else {
        match kek_of(password, cfg.kdf) {
            Err(e) => Err(e),
            Ok(kek) => unwrapped_key(kek, cfg.enc.master_key_nonce, cfg.enc.encrypted_master_key),
        }
    }
}

/// Parameters and password on which the key derivation is owed to succeed.
pub open spec fn kek_owed(password: Seq<char>, kdf: KdfParamsView) -> bool {
    &&& kdf.algo == KDF_ARGON2ID@
    &&& base64_bytes(kdf.salt) matches Some(salt) && kdf.memory_mib * 1024 <= u32::MAX
        && kdf_inputs_accepted(
        encode_utf8(password).len(),
        salt.len(),
        (kdf.memory_mib * 1024) as u32,
        kdf.iterations,
        kdf.parallelism,
    )
}

/// The key file that wraps `master_key` for `password`, with the default
/// costs, the given salt and the given nonce.
pub open spec fn config_for(
    password: Seq<char>,
    master_key: Seq<u8>,
    salt: Seq<u8>,
    nonce: Seq<u8>,
) -> Result<ConfigView, CryptoError> {
    let kdf = KdfParamsView {
        algo: KDF_ARGON2ID@,
        memory_mib: DEFAULT_MEMORY_MIB,
        iterations: DEFAULT_ITERATIONS,
        parallelism: DEFAULT_PARALLELISM,
        salt: base64_text(salt),
    };
    match kek_of(password, kdf) {
        Err(e) => Err(e),
        Ok(kek) => match sealed_with(kek, nonce, master_key) {
            Err(e) => Err(e),
            Ok((nonce_b64, ct_b64)) => Ok(
                ConfigView {
                    version: 1,
                    kdf,
                    enc: EncConfigView {
                        algo: AEAD_XCHACHA20POLY1305@,
                        master_key_nonce: nonce_b64,
                        encrypted_master_key: ct_b64,
                    },
                },
            ),
        },
    }
}

/// Copies 32 bytes into a key.
pub fn key_from_bytes(bytes: &[u8]) -> (r: MasterKey)
    requires
        bytes@.len() == KEY_LEN,
    ensures
        r@ == bytes@,
{
    let mut out: MasterKey = [0u8; 32];
    let mut i: usize = 0;
    while i < 32
        invariant
            i <= 32,
            bytes@.len() == 32,
            forall|j: int| 0 <= j < i ==> out@[j] == bytes@[j],
        decreases 32 - i,
    {
        out[i] = bytes[i];
        i += 1;
    }
    assert(out@ =~= bytes@);
    out
}

/// Derives the key-encryption key from the master password.
///
/// The derivation runs on every password, the empty one included, so that
/// the time taken tells nothing of the password.
pub fn derive_kek(master_password: &str, kdf: &KdfParams) -> (r: Result<MasterKey, CryptoError>)
    ensures
        match r {
            Ok(key) => kek_of(master_password@, kdf@) == Ok::<Seq<u8>, CryptoError>(key@),
            Err(e) => kek_of(master_password@, kdf@) == Err::<Seq<u8>, CryptoError>(e),
        },
        kek_owed(master_password@, kdf@) ==> r is Ok,
{
    if !str_eq(kdf.algo.as_str(), KDF_ARGON2ID) {
        return Err(CryptoError::Corrupt);
    }
    let salt = match base64_decode(kdf.salt.as_str()) {
        Some(salt) => salt,
        None => {
            return Err(CryptoError::Corrupt);
        },
    };
    if kdf.memory_mib > u32::MAX / 1024 || kdf.parallelism > MAX_PARALLELISM {
        return Err(CryptoError::Kdf);
    }
    let m_cost: u32 = kdf.memory_mib * 1024;
    match argon2id_derive(
        master_password.as_bytes(),
        salt.as_slice(),
        m_cost,
        kdf.iterations,
        kdf.parallelism,
    ) {
        Some(key) => Ok(key),
        None => Err(CryptoError::Kdf),
    }
}


/// Seals `plaintext` under `key` with the given nonce, and returns the nonce
/// and the ciphertext as base64 text.
pub fn seal_with_nonce(key: &MasterKey, nonce: &[u8; 24], plaintext: &[u8]) -> (r: Result<
    (String, String),
    CryptoError,
>)
    ensures
        match r {
            Ok((nonce_b64, ct_b64)) => {
                &&& sealed_with(key@, nonce@, plaintext@) == Ok::<
                    (Seq<char>, Seq<char>),
                    CryptoError,
                >((nonce_b64@, ct_b64@))
                &&& opened_with(key@, nonce_b64@, ct_b64@) == Ok::<Seq<u8>, CryptoError>(
                    plaintext@,
                )
            },
            Err(e) => sealed_with(key@, nonce@, plaintext@) == Err::<
                (Seq<char>, Seq<char>),
                CryptoError,
            >(e),
        },
        plaintext@.len() < MAX_PLAINTEXT_LEN ==> r is Ok,
{
    match xchacha_seal(key, nonce, plaintext) {
        None => Err(CryptoError::Seal),
        Some(ciphertext) => {
            let nonce_b64 = base64_encode(nonce.as_slice());
            let ct_b64 = base64_encode(ciphertext.as_slice());
            Ok((nonce_b64, ct_b64))
        },
    }
}

/// Seals `plaintext` under `key` with a nonce drawn afresh, and returns the
/// nonce and the ciphertext as base64 text.
///
/// Whatever nonce is drawn, what comes back opens to `plaintext` under
/// `key`.
pub fn encrypt_with_key(key: &MasterKey, plaintext: &[u8]) -> (r: Result<
    (String, String),
    CryptoError,
>)
    ensures
        match r {
            Ok((nonce_b64, ct_b64)) => {
                &&& exists|nonce: Seq<u8>|
                    nonce.len() == NONCE_LEN && #[trigger] sealed_with(key@, nonce, plaintext@)
                        == Ok::<(Seq<char>, Seq<char>), CryptoError>((nonce_b64@, ct_b64@))
                &&& opened_with(key@, nonce_b64@, ct_b64@) == Ok::<Seq<u8>, CryptoError>(
                    plaintext@,
                )
            },
            Err(e) => e == CryptoError::Seal,
        },
        plaintext@.len() < MAX_PLAINTEXT_LEN ==> r is Ok,
{
    let nonce = fresh_nonce();
    seal_with_nonce(key, &nonce, plaintext)
}

/// Unwraps a 32-byte key from a nonce and a ciphertext held as base64 text.
pub fn decrypt_with_key(key: &MasterKey, nonce_b64: &str, ct_b64: &str) -> (r: Result<
    MasterKey,
    CryptoError,
>)
    ensures
        match r {
            Ok(opened) => unwrapped_key(key@, nonce_b64@, ct_b64@) == Ok::<Seq<u8>, CryptoError>(
                opened@,
            ),
            Err(e) => unwrapped_key(key@, nonce_b64@, ct_b64@) == Err::<Seq<u8>, CryptoError>(e),
        },
{
    match decrypt_entry(key, nonce_b64, ct_b64) {
        Err(e) => Err(e),
        Ok(plaintext) => {
            if plaintext.len() != KEY_LEN {
                Err(CryptoError::Corrupt)
            } else {
                Ok(key_from_bytes(plaintext.as_slice()))
            }
        },
    }
}

/// Seals the bytes of a record under the master key with a nonce drawn
/// afresh, and returns the nonce and the ciphertext as base64 text.
///
/// Whatever nonce is drawn, [`decrypt_entry`] gives `data` back under the
/// same key.
pub fn encrypt_entry(master_key: &MasterKey, data: &[u8]) -> (r: Result<
    (String, String),
    CryptoError,
>)
    ensures
        match r {
            Ok((nonce_b64, ct_b64)) => {
                &&& exists|nonce: Seq<u8>|
                    nonce.len() == NONCE_LEN && #[trigger] sealed_with(master_key@, nonce, data@)
                        == Ok::<(Seq<char>, Seq<char>), CryptoError>((nonce_b64@, ct_b64@))
                &&& opened_with(master_key@, nonce_b64@, ct_b64@) == Ok::<Seq<u8>, CryptoError>(
                    data@,
                )
            },
            Err(e) => e == CryptoError::Seal,
        },
        data@.len() < MAX_PLAINTEXT_LEN ==> r is Ok,
{
    encrypt_with_key(master_key, data)
}

/// Opens the bytes of a record from a nonce and a ciphertext held as base64
/// text. Every authentication failure is the one error
/// `InvalidMasterPassword`.
pub fn decrypt_entry(master_key: &MasterKey, nonce_b64: &str, ct_b64: &str) -> (r: Result<
    Vec<u8>,
    CryptoError,
>)
    ensures
        match r {
            Ok(data) => opened_with(master_key@, nonce_b64@, ct_b64@) == Ok::<
                Seq<u8>,
                CryptoError,
            >(data@),
            Err(e) => opened_with(master_key@, nonce_b64@, ct_b64@) == Err::<Seq<u8>, CryptoError>(
                e,
            ),
        },
{
    let nonce = match base64_decode(nonce_b64) {
        Some(nonce) => nonce,
        None => {
            return Err(CryptoError::Corrupt);
        },
    };
    if nonce.len() != NONCE_LEN {
        return Err(CryptoError::Corrupt);
    }
    let ciphertext = match base64_decode(ct_b64) {
        Some(ciphertext) => ciphertext,
        None => {
            return Err(CryptoError::Corrupt);
        },
    };
    match xchacha_open(master_key, nonce.as_slice(), ciphertext.as_slice()) {
        Some(plaintext) => Ok(plaintext),
        None => Err(CryptoError::InvalidMasterPassword),
    }
}

/// Unwraps the master key of a store with the master password.
///
/// Returns `InvalidMasterPassword` exactly when the key derived from the
/// password fails to authenticate the wrapped key.
pub fn unlock_master_key(master_password: &str, cfg: &Config) -> (r: Result<
    MasterKey,
    CryptoError,
>)
    ensures
        match r {
            Ok(key) => unlocked_key(master_password@, cfg@) == Ok::<Seq<u8>, CryptoError>(key@),
            Err(e) => unlocked_key(master_password@, cfg@) == Err::<Seq<u8>, CryptoError>(e),
        },
{
    if !str_eq(cfg.enc.algo.as_str(), AEAD_XCHACHA20POLY1305) {
        return Err(CryptoError::Corrupt);
    }
    let kek = match derive_kek(master_password, &cfg.kdf) {
        Ok(kek) => kek,
        Err(e) => {
            return Err(e);
        },
    };
    decrypt_with_key(
        &kek,
        cfg.enc.master_key_nonce.as_str(),
        cfg.enc.encrypted_master_key.as_str(),
    )
}

/// Builds the key file that wraps `master_key` for `master_password`, with
/// the default costs, the given salt and the given nonce.
///
/// The key file that comes back unlocks to `master_key` with the same
/// password.
pub fn new_config_with(
    master_password: &str,
    master_key: &MasterKey,
    salt: &[u8; 16],
    nonce: &[u8; 24],
) -> (r: Result<Config, CryptoError>)
    ensures
        match r {
            Ok(cfg) => {
                &&& config_for(master_password@, master_key@, salt@, nonce@) == Ok::<
                    ConfigView,
                    CryptoError,
                >(cfg@)
                &&& config_well_formed(cfg@)
                &&& unlocked_key(master_password@, cfg@) == Ok::<Seq<u8>, CryptoError>(
                    master_key@,
                )
            },
            Err(e) => {
                &&& config_for(master_password@, master_key@, salt@, nonce@) == Err::<
                    ConfigView,
                    CryptoError,
                >(e)
                &&& e == CryptoError::Kdf
            },
        },
        encode_utf8(master_password@).len() <= MAX_KDF_INPUT_LEN ==> r is Ok,
{
    let kdf = KdfParams {
        algo: KDF_ARGON2ID.to_owned(),
        memory_mib: DEFAULT_MEMORY_MIB,
        iterations: DEFAULT_ITERATIONS,
        parallelism: DEFAULT_PARALLELISM,
        salt: base64_encode(salt.as_slice()),
    };
    let kek = match derive_kek(master_password, &kdf) {
        Ok(kek) => kek,
        Err(e) => {
            return Err(e);
        },
    };
    match seal_with_nonce(&kek, nonce, master_key.as_slice()) {
        Err(e) => Err(e),
        Ok((nonce_b64, ct_b64)) => {
            let enc = EncConfig {
                algo: AEAD_XCHACHA20POLY1305.to_owned(),
                master_key_nonce: nonce_b64,
                encrypted_master_key: ct_b64,
            };
            Ok(Config { version: 1, kdf, enc })
        },
    }
}

/// Makes the key file of a new store: draws a master key, a salt and a
/// nonce, and wraps the master key for `master_password`.
///
/// Whatever is drawn, the key file that comes back is well-formed and
/// unlocks with the same password.
pub fn generate_new_config(master_password: &str) -> (r: Result<Config, CryptoError>)
    ensures
        match r {
            Ok(cfg) => {
                &&& exists|key: Seq<u8>, salt: Seq<u8>, nonce: Seq<u8>|
                    key.len() == KEY_LEN && salt.len() == SALT_LEN && nonce.len() == NONCE_LEN
                        && #[trigger] config_for(master_password@, key, salt, nonce) == Ok::<
                        ConfigView,
                        CryptoError,
                    >(cfg@)
                &&& config_well_formed(cfg@)
                &&& unlocked_key(master_password@, cfg@) is Ok
            },
            Err(e) => e == CryptoError::Kdf,
        },
        encode_utf8(master_password@).len() <= MAX_KDF_INPUT_LEN ==> r is Ok,
{
    let master_key: MasterKey = random_bytes::<32>();
    let salt: [u8; 16] = random_bytes::<16>();
    let nonce = fresh_nonce();
    new_config_with(master_password, &master_key, &salt, &nonce)
}


/// The upper-case letters that a generated password may draw from.
pub const UPPERCASE_LETTERS: &'static str = "ABCDEFGHIJKLMNOPQRSTUVWXYZ";

/// The lower-case letters that a generated password may draw from.
pub const LOWERCASE_LETTERS: &'static str = "abcdefghijklmnopqrstuvwxyz";

/// The digits that a generated password may draw from.
pub const DECIMAL_DIGITS: &'static str = "0123456789";

/// The symbols that every generated password may draw from.
pub const SYMBOLS: &'static str = "!@#$%^&*()-_=+[]{};:,.<>?/";

/// The alphabet of a generated password: the classes asked for, in the
/// order upper case, lower case, digits, and then the symbols.
pub open spec fn password_alphabet(upper: bool, lower: bool, digits: bool) -> Seq<char> {
    (if upper {
        "ABCDEFGHIJKLMNOPQRSTUVWXYZ"@
    } else {
        Seq::empty()
    }) + (if lower {
        "abcdefghijklmnopqrstuvwxyz"@
    } else {
        Seq::empty()
    }) + (if digits {
        "0123456789"@
    } else {
        Seq::empty()
    }) + "!@#$%^&*()-_=+[]{};:,.<>?/"@
}

/// The password that the draws `draws` pick from `alphabet`: each draw
/// picks the character at its remainder by the alphabet's length.
pub open spec fn password_from(alphabet: Seq<char>, draws: Seq<u32>) -> Seq<char> {
    Seq::new(draws.len(), |i: int| alphabet[draws[i] as int % alphabet.len() as int])
}

/// Builds the alphabet of a generated password.
pub fn alphabet_for(upper: bool, lower: bool, digits: bool) -> (r: Vec<char>)
    ensures
        r@ == password_alphabet(upper, lower, digits),
        r@.len() >= 26,
{
    let mut chars = String::new();
    if upper {
        chars.append(UPPERCASE_LETTERS);
    }
    if lower {
        chars.append(LOWERCASE_LETTERS);
    }
    if digits {
        chars.append(DECIMAL_DIGITS);
    }
    chars.append(SYMBOLS);
    proof {
        reveal_strlit("!@#$%^&*()-_=+[]{};:,.<>?/");
        assert(chars@ == password_alphabet(upper, lower, digits));
    }
    chars_of(chars.as_str())
}

/// The password that the given draws pick from the alphabet of the classes
/// asked for.
pub fn password_from_draws(draws: &[u32], upper: bool, lower: bool, digits: bool) -> (r: String)
    ensures
        r@ == password_from(password_alphabet(upper, lower, digits), draws@),
{
    let alphabet = alphabet_for(upper, lower, digits);
    let mut out: Vec<char> = Vec::new();
    let mut i: usize = 0;
    while i < draws.len()
        invariant
            i <= draws.len(),
            alphabet@.len() >= 26,
            out@ == password_from(alphabet@, draws@).take(i as int),
        decreases draws.len() - i,
    {
        let idx: usize = (draws[i] as usize) % alphabet.len();
        out.push(alphabet[idx]);
        i += 1;
        assert(out@ == password_from(alphabet@, draws@).take(i as int));
    }
    assert(password_from(alphabet@, draws@).take(draws.len() as int) == password_from(
        alphabet@,
        draws@,
    ));
    string_of(out.as_slice())
}

/// Draws a password of `len` characters from the classes asked for and the
/// symbols, each character picked by a fresh random draw of 32 bits reduced
/// modulo the alphabet's length.
///
/// The reduction leaves the small bias of a remainder: the alphabet's
/// length does not divide 2^32.
pub fn random_password(len: usize, upper: bool, lower: bool, digits: bool) -> (password: String)
    ensures
        password@.len() == len,
        exists|draws: Seq<u32>|
            draws.len() == len && password@ == #[trigger] password_from(
                password_alphabet(upper, lower, digits),
                draws,
            ),
        forall|i: int|
            0 <= i < len ==> password_alphabet(upper, lower, digits).contains(
                #[trigger] password@[i],
            ),
{
    let mut draws: Vec<u32> = Vec::new();
    let mut i: usize = 0;
    while i < len
        invariant
            i <= len,
            draws@.len() == i,
        decreases len - i,
    {
        draws.push(random_u32());
        i += 1;
    }
    let password = password_from_draws(draws.as_slice(), upper, lower, digits);
    proof {
        let alphabet = password_alphabet(upper, lower, digits);
        reveal_strlit("!@#$%^&*()-_=+[]{};:,.<>?/");
        assert(alphabet.len() >= 26);
        assert forall|i: int| 0 <= i < len implies alphabet.contains(#[trigger] password@[i]) by {
            let k = draws@[i] as int % alphabet.len() as int;
            assert(0 <= k < alphabet.len());
            assert(password@[i] == alphabet[k]);
        }
    }
    password
}

/// Generates a password of `len` characters from the classes asked for and
/// the symbols; see [`random_password`]. It never fails.
pub fn generate_password(len: usize, upper: bool, lower: bool, digits: bool) -> (r: Result<
    String,
    CryptoError,
>)
    ensures
        r matches Ok(password) && {
            &&& password@.len() == len
            &&& exists|draws: Seq<u32>|
                draws.len() == len && password@ == #[trigger] password_from(
                    password_alphabet(upper, lower, digits),
                    draws,
                )
            &&& forall|i: int|
                0 <= i < len ==> password_alphabet(upper, lower, digits).contains(
                    #[trigger] password@[i],
                )
        },
{
    Ok(random_password(len, upper, lower, digits))
}

} // verus!
