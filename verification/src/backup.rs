//! Backups: how the archive of a store is named and which format it takes.
//!
//! An archive holds the key file and the sealed records as they lie on
//! disk, so it is of no use without the master password.

use crate::clock::utc_now_rfc3339;
use crate::text::{
    chars_of, has_prefix, has_suffix, replace_char, replaced, slice_chars, string_of, trim,
    trimmed,
};
use vstd::prelude::*;
use vstd::string::*;

verus! {

/// The directory under which a tar archive packs the store.
pub const TAR_PREFIX: &'static str = "pm-store";

/// The format of an archive.
#[derive(Debug, Clone, Copy, PartialEq, Eq, Structural)]
pub enum BackupFormat {
    /// A zip archive with deflated members, named relative to the store's
    /// root.
    Zip,
    /// A gzip-compressed tar archive of the store under [`TAR_PREFIX`].
    TarGz,
}

/// The name and the format of an archive.
#[derive(Debug, Clone, PartialEq, Eq)]
pub struct BackupPlan {
    pub file: String,
    pub format: BackupFormat,
}

/// Why no archive could be planned.
#[derive(Debug, Clone, Copy, PartialEq, Eq, Structural)]
pub enum BackupError {
    /// The clock gave no instant that can be written.
    Clock,
}

/// Whether `name` ends in one of the endings of an archive: `.tar.gz`,
/// `.tgz`, `.gz` or `.zip`.
pub open spec fn has_archive_ending(name: Seq<char>) -> bool {
    ||| ".tar.gz"@.is_suffix_of(name)
    ||| ".tgz"@.is_suffix_of(name)
    ||| ".gz"@.is_suffix_of(name)
    ||| ".zip"@.is_suffix_of(name)
}

/// The default stem of an archive made at the instant `timestamp`: the
/// instant with its colons turned into dashes, after `backup_`.
pub open spec fn backup_stem(timestamp: Seq<char>) -> Seq<char> {
    "backup_"@ + replaced(timestamp, ':', '-')
}

/// The name of the archive. With no name asked for it is the default stem
/// with `.zip`; with a name that is blank, the default stem with `.tar.gz`;
/// with a name that has an archive's ending, that name; with any other
/// name, that name with `.tar.gz`. A name asked for is trimmed first.
pub open spec fn backup_name(requested: Option<Seq<char>>, timestamp: Seq<char>) -> Seq<char> {
    match requested {
        None => backup_stem(timestamp) + ".zip"@,
        Some(name) => {
            let given = trimmed(name);
            if given.len() == 0 {
                backup_stem(timestamp) + ".tar.gz"@
            } else if has_archive_ending(given) {
                given
            } else {
                given + ".tar.gz"@
            }
        },
    }
}

/// The format that the name of an archive selects: zip for `.zip`, else
/// gzip-compressed tar.
pub open spec fn format_of(name: Seq<char>) -> BackupFormat {
    if ".zip"@.is_suffix_of(name) {
        BackupFormat::Zip
    } else {
        BackupFormat::TarGz
    }
}

/// The characters of a name that may be absent.
pub open spec fn name_of(requested: Option<&str>) -> Option<Seq<char>> {
    match requested {
        Some(name) => Some(name@),
        None => None,
    }
}

/// Whether `name` ends in `ending`.
fn ends_with(name: &[char], ending: &str) -> (r: bool)
    ensures
        r == ending@.is_suffix_of(name@),
{
    let e = chars_of(ending);
    has_suffix(name, e.as_slice())
}

/// Names the archive made at the instant `timestamp`.
pub fn backup_file_name(requested: Option<&str>, timestamp: &str) -> (r: String)
    ensures
        r@ == backup_name(name_of(requested), timestamp@),
{
    let stamp_chars = chars_of(timestamp);
    let stamp = replace_char(stamp_chars.as_slice(), ':', '-');
    let mut stem = "backup_".to_owned();
    stem.append(string_of(stamp.as_slice()).as_str());
    match requested {
        None => {
            stem.append(".zip");
            stem
        },
        Some(name) => {
            let raw = chars_of(name);
            let given = trim(raw.as_slice());
            if given.len() == 0 {
                stem.append(".tar.gz");
                stem
            } else if ends_with(given.as_slice(), ".tar.gz") || ends_with(given.as_slice(), ".tgz")
                || ends_with(given.as_slice(), ".gz") || ends_with(given.as_slice(), ".zip") {
                string_of(given.as_slice())
            } else {
                let mut out = string_of(given.as_slice());
                out.append(".tar.gz");
                out
            }
        },
    }
}

/// Selects the format of the archive named `name`.
pub fn backup_format(name: &str) -> (r: BackupFormat)
    ensures
        r == format_of(name@),
{
    let chars = chars_of(name);
    if ends_with(chars.as_slice(), ".zip") {
        BackupFormat::Zip
    } else {
        BackupFormat::TarGz
    }
}

/// Plans the archive made at the instant `timestamp`.
pub fn plan_backup_at(requested: Option<&str>, timestamp: &str) -> (r: BackupPlan)
    ensures
        r.file@ == backup_name(name_of(requested), timestamp@),
        r.format == format_of(r.file@),
{
    let file = backup_file_name(requested, timestamp);
    let format = backup_format(file.as_str());
    BackupPlan { file, format }
}

/// Plans the archive made now.
///
/// The clock is read only where the name holds the instant. A name that is
/// asked for and not blank decides the plan alone, and the plan is owed.
pub fn plan_backup(requested: Option<&str>) -> (r: Result<BackupPlan, BackupError>)
    ensures
        match r {
            Ok(plan) => {
                &&& exists|timestamp: Seq<char>|
                    plan.file@ == #[trigger] backup_name(name_of(requested), timestamp)
                &&& plan.format == format_of(plan.file@)
            },
            Err(e) => e == BackupError::Clock && needs_timestamp(name_of(requested)),
        },
        !needs_timestamp(name_of(requested)) ==> (r matches Ok(plan) && plan.file@
            == backup_name(name_of(requested), Seq::empty())),
{
    if request_needs_timestamp(requested) {
        match utc_now_rfc3339() {
            Some(timestamp) => plan_backup_with(requested, Some(timestamp.as_str())),
            None => plan_backup_with(requested, None),
        }
    } else {
        plan_backup_with(requested, None)
    }
}

/// Whether the name of the archive holds the instant at which it is made:
/// no name is asked for, or a blank one.
pub open spec fn needs_timestamp(requested: Option<Seq<char>>) -> bool {
    match requested {
        None => true,
        Some(name) => trimmed(name).len() == 0,
    }
}

/// The name of the archive, given what the clock said, if it was asked:
/// where the name holds the instant and the clock gave none, there is no
/// name; a name that is asked for and not blank needs no clock.
pub open spec fn planned_name(requested: Option<Seq<char>>, clock: Option<Seq<char>>) -> Result<
    Seq<char>,
    BackupError,
> {
    if needs_timestamp(requested) {
        match clock {
            Some(timestamp) => Ok(backup_name(requested, timestamp)),
            None => Err(BackupError::Clock),
        }
    } else {
        Ok(backup_name(requested, Seq::empty()))
    }
}

/// A name that is asked for and not blank gives the same archive name at
/// every instant.
pub proof fn lemma_named_backup_ignores_the_instant(
    requested: Option<Seq<char>>,
    a: Seq<char>,
    b: Seq<char>,
)
    requires
        !needs_timestamp(requested),
    ensures
        backup_name(requested, a) == backup_name(requested, b),
{
}

/// Decides whether the name of the archive holds the instant.
pub fn request_needs_timestamp(requested: Option<&str>) -> (r: bool)
    ensures
        r == needs_timestamp(name_of(requested)),
{
    match requested {
        None => true,
        Some(name) => {
            let raw = chars_of(name);
            let given = trim(raw.as_slice());
            given.len() == 0
        },
    }
}

/// Plans the archive, given what the clock said, if it was asked.
pub fn plan_backup_with(requested: Option<&str>, clock: Option<&str>) -> (r: Result<
    BackupPlan,
    BackupError,
>)
    ensures
        match r {
            Ok(plan) => {
                &&& planned_name(name_of(requested), name_of(clock)) == Ok::<
                    Seq<char>,
                    BackupError,
                >(plan.file@)
                &&& plan.format == format_of(plan.file@)
            },
            Err(e) => planned_name(name_of(requested), name_of(clock)) == Err::<
                Seq<char>,
                BackupError,
            >(e),
        },
{
    if request_needs_timestamp(requested) {
        match clock {
            Some(timestamp) => Ok(plan_backup_at(requested, timestamp)),
            None => Err(BackupError::Clock),
        }
    } else {
        proof {
            reveal_strlit("");
            assert(""@ == Seq::<char>::empty());
        }
        Ok(plan_backup_at(requested, ""))
    }
}

/// The directory `root` as the beginning of the paths below it: `root`
/// with the separator `sep` at its end.
pub open spec fn directory_prefix(root: Seq<char>, sep: char) -> Seq<char> {
    if root.len() > 0 && root.last() == sep {
        root
    } else {
        root.push(sep)
    }
}

/// The name under which a zip archive holds `file`: its path relative to
/// the store's root; `None` where `file` does not lie below `root`.
pub open spec fn member_name_of(root: Seq<char>, file: Seq<char>, sep: char) -> Option<Seq<char>> {
    let prefix = directory_prefix(root, sep);
    if prefix.is_prefix_of(file) && file.len() > prefix.len() {
        Some(file.skip(prefix.len() as int))
    } else {
        None
    }
}

/// Names the member of a zip archive that holds `file`, a file below the
/// store's root `root`, on a platform that separates components by `sep`.
pub fn member_name(root: &str, file: &str, sep: char) -> (r: Option<String>)
    ensures
        match r {
            Some(name) => member_name_of(root@, file@, sep) == Some(name@),
            None => member_name_of(root@, file@, sep) is None,
        },
{
    let mut prefix = chars_of(root);
    if prefix.len() == 0 || prefix[prefix.len() - 1] != sep {
        prefix.push(sep);
    }
    let path = chars_of(file);
    if has_prefix(path.as_slice(), prefix.as_slice()) && path.len() > prefix.len() {
        let name = slice_chars(path.as_slice(), prefix.len(), path.len());
        assert(path@.skip(prefix@.len() as int) == path@.subrange(
            prefix@.len() as int,
            path@.len() as int,
        ));
        Some(string_of(name.as_slice()))
    } else {
        None
    }
}

} // verus!
