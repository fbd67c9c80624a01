//! The key file: the parameters of the key derivation and the wrapped
//! master key.

use crate::codec::base64_bytes;
use crate::store::{config_path_in, config_path_under, store_root, store_root_under, StoreError};
use vstd::prelude::*;

verus! {

/// Tag of the only key derivation function that a key file may name.
pub const KDF_ARGON2ID: &'static str = "argon2id";

/// Tag of the only cipher that a key file may name.
pub const AEAD_XCHACHA20POLY1305: &'static str = "xchacha20-poly1305";

/// Parameters of the derivation of the key-encryption key.
#[derive(Debug, Clone, PartialEq, Eq)]
pub struct KdfParams {
    /// Tag of the derivation function.
    pub algo: String,
    /// Memory cost, in MiB.
    pub memory_mib: u32,
    /// Number of passes.
    pub iterations: u32,
    /// Degree of parallelism.
    pub parallelism: u32,
    /// The salt, as base64 text.
    pub salt: String,
}

/// What a [`KdfParams`] holds, with its strings as character sequences.
pub struct KdfParamsView {
    pub algo: Seq<char>,
    pub memory_mib: u32,
    pub iterations: u32,
    pub parallelism: u32,
    pub salt: Seq<char>,
}

impl View for KdfParams {
    type V = KdfParamsView;

    open spec fn view(&self) -> KdfParamsView {
        KdfParamsView {
            algo: self.algo@,
            memory_mib: self.memory_mib,
            iterations: self.iterations,
            parallelism: self.parallelism,
            salt: self.salt@,
        }
    }
}

/// The wrapped master key.
#[derive(Debug, Clone, PartialEq, Eq)]
pub struct EncConfig {
    /// Tag of the cipher.
    pub algo: String,
    /// The nonce under which the master key was sealed, as base64 text.
    pub master_key_nonce: String,
    /// The sealed master key with its authentication tag, as base64 text.
    pub encrypted_master_key: String,
}

/// What an [`EncConfig`] holds, with its strings as character sequences.
pub struct EncConfigView {
    pub algo: Seq<char>,
    pub master_key_nonce: Seq<char>,
    pub encrypted_master_key: Seq<char>,
}

impl View for EncConfig {
    type V = EncConfigView;

    open spec fn view(&self) -> EncConfigView {
        EncConfigView {
            algo: self.algo@,
            master_key_nonce: self.master_key_nonce@,
            encrypted_master_key: self.encrypted_master_key@,
        }
    }
}

/// The key file of a store.
#[derive(Debug, Clone, PartialEq, Eq)]
pub struct Config {
    /// Format version; 1 in this revision.
    pub version: u32,
    pub kdf: KdfParams,
    pub enc: EncConfig,
}

/// What a [`Config`] holds, with its strings as character sequences.
pub struct ConfigView {
    pub version: u32,
    pub kdf: KdfParamsView,
    pub enc: EncConfigView,
}

impl View for Config {
    type V = ConfigView;

    open spec fn view(&self) -> ConfigView {
        ConfigView { version: self.version, kdf: self.kdf@, enc: self.enc@ }
    }
}

/// Whether `c` is a key file as a new store gets it: version 1, the two
/// known tags, a salt of 16 bytes and a nonce of 24 bytes.
pub open spec fn config_well_formed(c: ConfigView) -> bool {
    &&& c.version == 1
    &&& c.kdf.algo == KDF_ARGON2ID@
    &&& c.enc.algo == AEAD_XCHACHA20POLY1305@
    &&& base64_bytes(c.kdf.salt) matches Some(salt) && salt.len() == 16
    &&& base64_bytes(c.enc.master_key_nonce) matches Some(nonce) && nonce.len() == 24
    &&& base64_bytes(c.enc.encrypted_master_key) is Some
}

impl KdfParams {
    /// A copy of these parameters.
    pub fn duplicate(&self) -> (r: KdfParams)
        ensures
            r@ == self@,
    {
        KdfParams {
            algo: self.algo.clone(),
            memory_mib: self.memory_mib,
            iterations: self.iterations,
            parallelism: self.parallelism,
            salt: self.salt.clone(),
        }
    }
}

impl EncConfig {
    /// A copy of this wrapped key.
    pub fn duplicate(&self) -> (r: EncConfig)
        ensures
            r@ == self@,
    {
        EncConfig {
            algo: self.algo.clone(),
            master_key_nonce: self.master_key_nonce.clone(),
            encrypted_master_key: self.encrypted_master_key.clone(),
        }
    }
}

impl Config {
    /// A copy of this key file.
    pub fn duplicate(&self) -> (r: Config)
        ensures
            r@ == self@,
    {
        Config { version: self.version, kdf: self.kdf.duplicate(), enc: self.enc.duplicate() }
    }
}


/// The key file of the user's store: `config.json` in the store's root.
pub fn config_path() -> (r: Result<String, StoreError>)
    ensures
        match r {
            Ok(path) => exists|data_dir: Seq<char>|
                path@ == config_path_under(#[trigger] store_root_under(data_dir)),
            Err(e) => e == StoreError::NoDataDir,
        },
{
    match store_root() {
        Ok(root) => Ok(config_path_in(root.as_str())),
        Err(e) => Err(e),
    }
}

} // verus!
