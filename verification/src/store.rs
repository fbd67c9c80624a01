//! Where a store keeps its files, and how records are sealed, opened and
//! listed.

use crate::crypto::{
    decrypt_entry, encrypt_entry, opened_with, sealed_with, CryptoError, MasterKey,
    MAX_PLAINTEXT_LEN, NONCE_LEN,
};
use crate::text::{
    chars_of, joined, has_prefix, has_suffix, lex_sorted, replace_char, replaced, rows,
    slice_chars, sort_lex, string_of, strings_of, texts,
};
use vstd::prelude::*;
use vstd::string::*;

verus! {

/// Name of the directory of a store, below the user's data directory.
pub const STORE_ROOT_NAME: &'static str = "pm-store";

/// Name of the directory of the records, below the store's root.
pub const RECORDS_DIR_NAME: &'static str = "store";

/// Name of the key file, below the store's root.
pub const CONFIG_FILE_NAME: &'static str = "config.json";

/// Format version of a record file.
pub const RECORD_VERSION: u32 = 1;

/// Why the store could not name or produce a file.
#[derive(Debug, Clone, Copy, PartialEq, Eq, Structural)]
pub enum StoreError {
    /// The platform names no data directory for the user.
    NoDataDir,
    /// The logical path is empty, absolute, or has a `..` component.
    InvalidPath,
    /// Sealing failed.
    Crypto(CryptoError),
}

/// The user's data directory, where the platform names one that is valid
/// Unicode.
///
/// Trusted: stands for `dirs::data_dir`, whose answer depends on the
/// platform and on the environment. Nothing is claimed of it.
#[verifier::external_body]
pub(crate) fn platform_data_dir() -> Option<String> {
    dirs::data_dir()?.into_os_string().into_string().ok()
}

/// The path `leaf` below the directory `base`.
pub open spec fn path_join(base: Seq<char>, leaf: Seq<char>) -> Seq<char> {
    if base.len() == 0 {
        leaf
    } else if base.last() == '/' {
        base + leaf
    } else {
        base + seq!['/'] + leaf
    }
}

/// Joins `leaf` to the directory `base`.
pub fn join_path(base: &str, leaf: &str) -> (r: String)
    ensures
        r@ == path_join(base@, leaf@),
{
    let b = chars_of(base);
    if b.len() == 0 {
        leaf.to_owned()
    } else if b[b.len() - 1] == '/' {
        joined(base, leaf)
    } else {
        let mut out = joined(base, "/");
        proof {
            reveal_strlit("/");
            assert("/"@ == seq!['/']);
        }
        out.append(leaf);
        out
    }
}

/// The root of the store whose data directory is `data_dir`.
pub open spec fn store_root_under(data_dir: Seq<char>) -> Seq<char> {
    path_join(data_dir, STORE_ROOT_NAME@)
}

/// The root of the store below the data directory `data_dir`.
pub fn store_root_in(data_dir: &str) -> (r: String)
    ensures
        r@ == store_root_under(data_dir@),
{
    join_path(data_dir, STORE_ROOT_NAME)
}

/// The root of the user's store: the directory `pm-store` below the data
/// directory that the platform names.
pub fn store_root() -> (r: Result<String, StoreError>)
    ensures
        match r {
            Ok(root) => exists|data_dir: Seq<char>| root@ == #[trigger] store_root_under(data_dir),
            Err(e) => e == StoreError::NoDataDir,
        },
{
    match platform_data_dir() {
        Some(dir) => Ok(store_root_in(dir.as_str())),
        None => Err(StoreError::NoDataDir),
    }
}

/// A logical path with its backslashes turned into slashes.
pub open spec fn normalized_path(path: Seq<char>) -> Seq<char> {
    replaced(path, '\\', '/')
}

/// Whether a component `..` begins at position `i` of `path`.
pub open spec fn parent_at(path: Seq<char>, i: int) -> bool {
    &&& 0 <= i
    &&& i + 2 <= path.len()
    &&& path[i] == '.'
    &&& path[i + 1] == '.'
    &&& (i == 0 || path[i - 1] == '/')
    &&& (i + 2 == path.len() || path[i + 2] == '/')
}

/// Whether one of the slash-separated components of `path` is `..`.
pub open spec fn has_parent_component(path: Seq<char>) -> bool {
    exists|i: int| #[trigger] parent_at(path, i)
}

/// Whether `path` is accepted as a logical path: once normalized it is not
/// empty, does not begin with a slash, and has no component `..`.
pub open spec fn path_accepted(path: Seq<char>) -> bool {
    let n = normalized_path(path);
    n.len() > 0 && n[0] != '/' && !has_parent_component(n)
}

/// Decides whether one of the components of `path` is `..`.
pub fn contains_parent_component(path: &[char]) -> (r: bool)
    ensures
        r == has_parent_component(path@),
{
    if path.len() < 2 {
        return false;
    }
    let last: usize = path.len() - 2;
    let mut i: usize = 0;
    while i <= last
        invariant
            last == path.len() - 2,
            i <= last + 1,
            forall|k: int| 0 <= k < i ==> !parent_at(path@, k),
        decreases last + 1 - i,
    {
        if path[i] == '.' && path[i + 1] == '.' && (i == 0 || path[i - 1] == '/') && (i == last
            || path[i + 2] == '/') {
            assert(parent_at(path@, i as int));
            return true;
        }
        i += 1;
    }
    false
}

/// Normalizes a logical path, or refuses it.
pub fn normalize_path(entry_path: &str) -> (r: Result<String, StoreError>)
    ensures
        match r {
            Ok(n) => path_accepted(entry_path@) && n@ == normalized_path(entry_path@),
            Err(e) => !path_accepted(entry_path@) && e == StoreError::InvalidPath,
        },
{
    let raw = chars_of(entry_path);
    let n = replace_char(raw.as_slice(), '\\', '/');
    if n.len() == 0 || n[0] == '/' || contains_parent_component(n.as_slice()) {
        Err(StoreError::InvalidPath)
    } else {
        Ok(string_of(n.as_slice()))
    }
}

/// The key file of the store rooted at `root`.
pub open spec fn config_path_under(root: Seq<char>) -> Seq<char> {
    path_join(root, CONFIG_FILE_NAME@)
}

/// The key file of the store rooted at `root`.
pub fn config_path_in(root: &str) -> (r: String)
    ensures
        r@ == config_path_under(root@),
{
    join_path(root, CONFIG_FILE_NAME)
}

/// The file that holds the record of the logical path `path` in the store
/// rooted at `root`.
pub open spec fn entry_file_under(root: Seq<char>, path: Seq<char>) -> Seq<char> {
    path_join(path_join(root, RECORDS_DIR_NAME@), normalized_path(path)) + ".enc"@
}

/// The file that holds the record of `entry_path` in the store rooted at
/// `root`; `InvalidPath` where the logical path is refused.
pub fn entry_file_in(root: &str, entry_path: &str) -> (r: Result<String, StoreError>)
    ensures
        match r {
            Ok(file) => path_accepted(entry_path@) && file@ == entry_file_under(
                root@,
                entry_path@,
            ),
            Err(e) => !path_accepted(entry_path@) && e == StoreError::InvalidPath,
        },
{
    match normalize_path(entry_path) {
        Err(e) => Err(e),
        Ok(rel) => {
            let dir = join_path(root, RECORDS_DIR_NAME);
            let mut file = join_path(dir.as_str(), rel.as_str());
            file.append(".enc");
            Ok(file)
        },
    }
}

/// The file that holds the record of `entry_path` in the user's store.
///
/// The logical path is judged first: `InvalidPath` comes back exactly when
/// it is refused.
pub fn entry_file_path(entry_path: &str) -> (r: Result<String, StoreError>)
    ensures
        match r {
            Ok(file) => path_accepted(entry_path@) && exists|data_dir: Seq<char>|
                file@ == entry_file_under(#[trigger] store_root_under(data_dir), entry_path@),
            Err(e) => if path_accepted(entry_path@) {
                e == StoreError::NoDataDir
            } else {
                e == StoreError::InvalidPath
            },
        },
{
    match normalize_path(entry_path) {
        Err(e) => Err(e),
        Ok(_) => match store_root() {
            Err(e) => Err(e),
            Ok(root) => entry_file_in(root.as_str(), entry_path),
        },
    }
}

/// Where the last component of `path` begins: just after its last slash, or
/// at 0 where it has none.
pub open spec fn name_start(path: Seq<char>) -> int
    decreases path.len(),
{
    if path.len() == 0 {
        0
    } else if path.last() == '/' {
        path.len() as int
    } else {
        name_start(path.drop_last())
    }
}

/// Finds where the last component of `path` begins.
pub fn file_name_start(path: &[char]) -> (r: usize)
    ensures
        r == name_start(path@),
        r <= path@.len(),
{
    let mut i: usize = path.len();
    assert(path@.take(i as int) == path@);
    while i > 0 && path[i - 1] != '/'
        invariant
            i <= path.len(),
            name_start(path@) == name_start(path@.take(i as int)),
        decreases i,
    {
        assert(path@.take(i as int).drop_last() == path@.take(i - 1));
        i -= 1;
    }
    i
}

/// The directory that holds the file `path`: what stands before its last
/// slash, or the root directory where that slash comes first.
pub open spec fn parent_dir(path: Seq<char>) -> Seq<char> {
    let k = name_start(path);
    if k <= 1 {
        path.take(k)
    } else {
        path.take(k - 1)
    }
}

/// The directory that must exist before the record of `entry_path` is
/// written in the store rooted at `root`.
pub fn entry_dir_in(root: &str, entry_path: &str) -> (r: Result<String, StoreError>)
    ensures
        match r {
            Ok(dir) => path_accepted(entry_path@) && dir@ == parent_dir(
                entry_file_under(root@, entry_path@),
            ),
            Err(e) => !path_accepted(entry_path@) && e == StoreError::InvalidPath,
        },
{
    match entry_file_in(root, entry_path) {
        Err(e) => Err(e),
        Ok(file) => {
            let chars = chars_of(file.as_str());
            let k = file_name_start(chars.as_slice());
            let end: usize = if k <= 1 {
                k
            } else {
                k - 1
            };
            let dir = slice_chars(chars.as_slice(), 0, end);
            Ok(string_of(dir.as_slice()))
        },
    }
}

/// Whether `name` is the name of a record file: it ends in `.enc` and does
/// not begin with a dot.
pub open spec fn is_record_name(name: Seq<char>) -> bool {
    ".enc"@.is_suffix_of(name) && name[0] != '.'
}

/// The logical path that the file `rel`, given relative to the records
/// directory with `sep` between its components, stands for; `None` where the
/// file is no record.
pub open spec fn listed_name(rel: Seq<char>, sep: char) -> Option<Seq<char>> {
    let n = replaced(rel, sep, '/');
    if is_record_name(n.skip(name_start(n))) {
        Some(n.take(n.len() - 4))
    } else {
        None
    }
}

/// The logical paths that the record files among `files` stand for, in the
/// order of `files`.
pub open spec fn listed_names(files: Seq<Seq<char>>, sep: char) -> Seq<Seq<char>>
    decreases files.len(),
{
    if files.len() == 0 {
        Seq::empty()
    } else {
        let rest = listed_names(files.drop_last(), sep);
        match listed_name(files.last(), sep) {
            Some(name) => rest.push(name),
            None => rest,
        }
    }
}

/// The logical path that the file `rel` stands for, if it is a record.
pub fn entry_name_of(rel: &str, sep: char) -> (r: Option<Vec<char>>)
    ensures
        match r {
            Some(name) => listed_name(rel@, sep) == Some(name@),
            None => listed_name(rel@, sep) is None,
        },
{
    let raw = chars_of(rel);
    let n = replace_char(raw.as_slice(), sep, '/');
    let start = file_name_start(n.as_slice());
    let name = slice_chars(n.as_slice(), start, n.len());
    let ext = chars_of(".enc");
    proof {
        reveal_strlit(".enc");
        assert(n@.skip(start as int) == n@.subrange(start as int, n@.len() as int));
    }
    if has_suffix(name.as_slice(), ext.as_slice()) && name[0] != '.' {
        Some(slice_chars(n.as_slice(), 0, n.len() - 4))
    } else {
        None
    }
}

/// Lists the logical paths of a store, given the files found below its
/// records directory, each relative to that directory with `sep` between
/// its components.
///
/// The list is in lexicographic order and holds exactly the logical paths of
/// the record files among `files`: those whose name ends in `.enc` and does
/// not begin with a dot, without that ending and with `/` between the
/// components.
pub fn list_entries(files: &Vec<String>, sep: char) -> (r: Vec<String>)
    ensures
        lex_sorted(texts(r@)),
        texts(r@).to_multiset() == listed_names(texts(files@), sep).to_multiset(),
{
    let mut names: Vec<Vec<char>> = Vec::new();
    let mut i: usize = 0;
    assert(texts(files@).take(0) == Seq::<Seq<char>>::empty());
    while i < files.len()
        invariant
            i <= files.len(),
            rows(names@) == listed_names(texts(files@).take(i as int), sep),
        decreases files.len() - i,
    {
        let ghost done = rows(names@);
        assert(texts(files@).take(i + 1).drop_last() == texts(files@).take(i as int));
        assert(texts(files@).take(i + 1).last() == files@[i as int]@);
        match entry_name_of(files[i].as_str(), sep) {
            Some(name) => {
                names.push(name);
                assert(rows(names@) == done.push(name@));
            },
            None => {},
        }
        i += 1;
    }
    assert(texts(files@).take(files.len() as int) == texts(files@));
    let sorted = sort_lex(names);
    strings_of(&sorted)
}

/// Whether the logical path `entry` is `prefix` itself or lies below it.
pub open spec fn under_prefix(entry: Seq<char>, prefix: Seq<char>) -> bool {
    entry == prefix || (prefix + seq!['/']).is_prefix_of(entry)
}

/// The logical paths among `entries` that are `prefix` or lie below it, in
/// the order of `entries`.
pub open spec fn entries_under(entries: Seq<Seq<char>>, prefix: Seq<char>) -> Seq<Seq<char>>
    decreases entries.len(),
{
    if entries.len() == 0 {
        Seq::empty()
    } else {
        let rest = entries_under(entries.drop_last(), prefix);
        if under_prefix(entries.last(), prefix) {
            rest.push(entries.last())
        } else {
            rest
        }
    }
}

/// Decides whether `entry` is `prefix` itself or lies below it.
pub fn is_under_prefix(entry: &str, prefix: &str) -> (r: bool)
    ensures
        r == under_prefix(entry@, prefix@),
{
    let e = chars_of(entry);
    let mut p = chars_of(prefix);
    if crate::text::str_eq(entry, prefix) {
        return true;
    }
    p.push('/');
    has_prefix(e.as_slice(), p.as_slice())
}

/// A copy of the strings `entries`, in order.
pub fn copy_strings(entries: &Vec<String>) -> (r: Vec<String>)
    ensures
        texts(r@) == texts(entries@),
{
    let mut out: Vec<String> = Vec::new();
    let mut i: usize = 0;
    while i < entries.len()
        invariant
            i <= entries.len(),
            texts(out@) == texts(entries@).take(i as int),
        decreases entries.len() - i,
    {
        let ghost done = texts(out@);
        out.push(entries[i].clone());
        i += 1;
        assert(texts(out@) == done.push(entries@[i - 1]@));
        assert(texts(entries@).take(i as int) == texts(entries@).take(i - 1).push(
            entries@[i - 1]@,
        ));
    }
    assert(texts(entries@).take(entries.len() as int) == texts(entries@));
    out
}

/// Keeps the logical paths that are `prefix` or lie below it; with no
/// prefix, keeps them all. The order is that of `entries`.
pub fn filter_by_prefix(entries: &Vec<String>, prefix: Option<&str>) -> (r: Vec<String>)
    ensures
        texts(r@) == match prefix {
            Some(p) => entries_under(texts(entries@), p@),
            None => texts(entries@),
        },
{
    let p = match prefix {
        Some(p) => p,
        None => {
            return copy_strings(entries);
        },
    };
    let mut out: Vec<String> = Vec::new();
    let mut i: usize = 0;
    let ghost all = texts(entries@);
    assert(all.take(0) == Seq::<Seq<char>>::empty());
    while i < entries.len()
        invariant
            i <= entries.len(),
            all == texts(entries@),
            texts(out@) == entries_under(all.take(i as int), p@),
        decreases entries.len() - i,
    {
        let ghost done = texts(out@);
        assert(all.take(i + 1).drop_last() == all.take(i as int));
        assert(all.take(i + 1).last() == entries@[i as int]@);
        if is_under_prefix(entries[i].as_str(), p) {
            out.push(entries[i].clone());
            assert(texts(out@) == done.push(entries@[i as int]@));
        }
        i += 1;
    }
    assert(all.take(entries.len() as int) == all);
    out
}


/// A record as it lies on disk: the nonce and the ciphertext of one entry,
/// each as base64 text.
#[derive(Debug, Clone, PartialEq, Eq)]
pub struct EncryptedRecord {
    /// Format version; 1 in this revision.
    pub version: u32,
    /// The nonce under which the entry was sealed, as base64 text.
    pub nonce: String,
    /// The sealed entry with its authentication tag, as base64 text.
    pub ciphertext: String,
}

/// What an [`EncryptedRecord`] holds, with its strings as character
/// sequences.
pub struct EncryptedRecordView {
    pub version: u32,
    pub nonce: Seq<char>,
    pub ciphertext: Seq<char>,
}

impl View for EncryptedRecord {
    type V = EncryptedRecordView;

    open spec fn view(&self) -> EncryptedRecordView {
        EncryptedRecordView {
            version: self.version,
            nonce: self.nonce@,
            ciphertext: self.ciphertext@,
        }
    }
}

/// A record together with the file that is to hold it.
#[derive(Debug, Clone, PartialEq, Eq)]
pub struct SavedEntry {
    /// The file of the record.
    pub file: String,
    /// The record.
    pub record: EncryptedRecord,
}

/// The bytes of the entry that `key` opens from `record`.
pub open spec fn loaded_bytes(record: EncryptedRecordView, key: Seq<u8>) -> Result<
    Seq<u8>,
    CryptoError,
> {
    opened_with(key, record.nonce, record.ciphertext)
}

/// Whether `record` is what sealing `entry_bytes` under `key` with some
/// nonce of 24 bytes gives.
pub open spec fn seals(record: EncryptedRecordView, key: Seq<u8>, entry_bytes: Seq<u8>) -> bool {
    &&& record.version == RECORD_VERSION
    &&& exists|nonce: Seq<u8>|
        nonce.len() == NONCE_LEN && #[trigger] sealed_with(key, nonce, entry_bytes) == Ok::<
            (Seq<char>, Seq<char>),
            CryptoError,
        >((record.nonce, record.ciphertext))
}

/// Seals the serialized entry `entry_bytes` into a record, under a nonce
/// drawn afresh.
///
/// Whatever nonce is drawn, [`load_entry`] gives `entry_bytes` back under
/// the same key.
pub fn seal_record(entry_bytes: &[u8], master_key: &MasterKey) -> (r: Result<
    EncryptedRecord,
    CryptoError,
>)
    ensures
        match r {
            Ok(record) => {
                &&& seals(record@, master_key@, entry_bytes@)
                &&& loaded_bytes(record@, master_key@) == Ok::<Seq<u8>, CryptoError>(entry_bytes@)
            },
            Err(e) => e == CryptoError::Seal && entry_bytes@.len() >= MAX_PLAINTEXT_LEN,
        },
{
    match encrypt_entry(master_key, entry_bytes) {
        Err(e) => Err(e),
        Ok((nonce, ciphertext)) => Ok(
            EncryptedRecord { version: RECORD_VERSION, nonce, ciphertext },
        ),
    }
}

/// Opens a record and returns the serialized entry that it holds.
pub fn load_entry(record: &EncryptedRecord, master_key: &MasterKey) -> (r: Result<
    Vec<u8>,
    CryptoError,
>)
    ensures
        match r {
            Ok(bytes) => loaded_bytes(record@, master_key@) == Ok::<Seq<u8>, CryptoError>(bytes@),
            Err(e) => loaded_bytes(record@, master_key@) == Err::<Seq<u8>, CryptoError>(e),
        },
{
    decrypt_entry(master_key, record.nonce.as_str(), record.ciphertext.as_str())
}

/// Prepares the record of `path` for the store rooted at `root`: names its
/// file and seals the serialized entry.
///
/// The logical path is judged first. What comes back opens to
/// `entry_bytes` under the same key.
pub fn save_entry_in(root: &str, path: &str, entry_bytes: &[u8], master_key: &MasterKey) -> (r:
    Result<SavedEntry, StoreError>)
    ensures
        match r {
            Ok(saved) => {
                &&& path_accepted(path@)
                &&& saved.file@ == entry_file_under(root@, path@)
                &&& seals(saved.record@, master_key@, entry_bytes@)
                &&& loaded_bytes(saved.record@, master_key@) == Ok::<Seq<u8>, CryptoError>(
                    entry_bytes@,
                )
            },
            Err(e) => if path_accepted(path@) {
                e == StoreError::Crypto(CryptoError::Seal) && entry_bytes@.len()
                    >= MAX_PLAINTEXT_LEN
            } else {
                e == StoreError::InvalidPath
            },
        },
{
    let file = match entry_file_in(root, path) {
        Ok(file) => file,
        Err(e) => {
            return Err(e);
        },
    };
    match seal_record(entry_bytes, master_key) {
        Ok(record) => Ok(SavedEntry { file, record }),
        Err(e) => Err(StoreError::Crypto(e)),
    }
}

/// Prepares the record of `path` for the user's store: names its file and
/// seals the serialized entry.
///
/// The logical path is judged first, then the platform is asked for the
/// data directory. What comes back opens to `entry_bytes` under the same
/// key.
pub fn save_entry(path: &str, entry_bytes: &[u8], master_key: &MasterKey) -> (r: Result<
    SavedEntry,
    StoreError,
>)
    ensures
        match r {
            Ok(saved) => {
                &&& path_accepted(path@)
                &&& exists|data_dir: Seq<char>|
                    saved.file@ == entry_file_under(#[trigger] store_root_under(data_dir), path@)
                &&& seals(saved.record@, master_key@, entry_bytes@)
                &&& loaded_bytes(saved.record@, master_key@) == Ok::<Seq<u8>, CryptoError>(
                    entry_bytes@,
                )
            },
            Err(e) => if path_accepted(path@) {
                e == StoreError::NoDataDir || (e == StoreError::Crypto(CryptoError::Seal)
                    && entry_bytes@.len() >= MAX_PLAINTEXT_LEN)
            } else {
                e == StoreError::InvalidPath
            },
        },
{
    match normalize_path(path) {
        Err(e) => Err(e),
        Ok(_) => match store_root() {
            Err(e) => Err(e),
            Ok(root) => save_entry_in(root.as_str(), path, entry_bytes, master_key),
        },
    }
}

/// The directory that must exist before the record of `entry_path` is
/// written in the user's store.
pub fn entry_dir(entry_path: &str) -> (r: Result<String, StoreError>)
    ensures
        match r {
            Ok(dir) => path_accepted(entry_path@) && exists|data_dir: Seq<char>|
                dir@ == parent_dir(
                    entry_file_under(#[trigger] store_root_under(data_dir), entry_path@),
                ),
            Err(e) => if path_accepted(entry_path@) {
                e == StoreError::NoDataDir
            } else {
                e == StoreError::InvalidPath
            },
        },
{
    match normalize_path(entry_path) {
        Err(e) => Err(e),
        Ok(_) => match store_root() {
            Err(e) => Err(e),
            Ok(root) => entry_dir_in(root.as_str(), entry_path),
        },
    }
}

} // verus!
