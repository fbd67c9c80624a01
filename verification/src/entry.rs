//! The entry: one secret with what belongs to it.

use crate::clock::utc_now_rfc3339;
use crate::crypto::{password_alphabet, random_password};
use crate::text::{joined, texts};
use vstd::prelude::*;
use vstd::string::*;

verus! {

/// Format version of an entry.
pub const ENTRY_VERSION: u32 = 1;

/// Length of the password that is generated where none is given.
pub const GENERATED_PASSWORD_LEN: usize = 24;

/// How one-time passwords are derived for an entry.
#[derive(Debug, Clone, PartialEq, Eq)]
pub struct OtpConfig {
    /// Kind of one-time password; `totp`.
    pub kind: String,
    /// The shared secret, as base32 text.
    pub secret: String,
    /// Length of a time step, in seconds.
    pub period: u32,
    /// Number of digits of a code.
    pub digits: u8,
    /// Tag of the hash function: `SHA1`, `SHA256` or `SHA512`.
    pub algo: String,
}

/// What an [`OtpConfig`] holds, with its strings as character sequences.
pub struct OtpConfigView {
    pub kind: Seq<char>,
    pub secret: Seq<char>,
    pub period: u32,
    pub digits: u8,
    pub algo: Seq<char>,
}

impl View for OtpConfig {
    type V = OtpConfigView;

    open spec fn view(&self) -> OtpConfigView {
        OtpConfigView {
            kind: self.kind@,
            secret: self.secret@,
            period: self.period,
            digits: self.digits,
            algo: self.algo@,
        }
    }
}

impl OtpConfig {
    /// A copy of this descriptor.
    pub fn duplicate(&self) -> (r: OtpConfig)
        ensures
            r@ == self@,
    {
        OtpConfig {
            kind: self.kind.clone(),
            secret: self.secret.clone(),
            period: self.period,
            digits: self.digits,
            algo: self.algo.clone(),
        }
    }
}

/// One secret of the store.
#[derive(Debug, Clone, PartialEq, Eq)]
pub struct Entry {
    /// Format version; 1 in this revision.
    pub version: u32,
    /// The logical path under which the entry was created.
    pub title: String,
    pub username: Option<String>,
    /// The secret itself; never empty.
    pub password: String,
    pub url: Option<String>,
    pub notes: Option<String>,
    /// Instant of creation, in UTC after RFC 3339.
    pub created_at: String,
    /// Instant of the last change, in UTC after RFC 3339.
    pub updated_at: String,
    pub otp: Option<OtpConfig>,
}

/// What an [`Entry`] holds, with its strings as character sequences.
pub struct EntryView {
    pub version: u32,
    pub title: Seq<char>,
    pub username: Option<Seq<char>>,
    pub password: Seq<char>,
    pub url: Option<Seq<char>>,
    pub notes: Option<Seq<char>>,
    pub created_at: Seq<char>,
    pub updated_at: Seq<char>,
    pub otp: Option<OtpConfigView>,
}

/// The characters of an optional string.
pub open spec fn text_of(s: Option<String>) -> Option<Seq<char>> {
    match s {
        Some(s) => Some(s@),
        None => None,
    }
}

impl View for Entry {
    type V = EntryView;

    open spec fn view(&self) -> EntryView {
        EntryView {
            version: self.version,
            title: self.title@,
            username: text_of(self.username),
            password: self.password@,
            url: text_of(self.url),
            notes: text_of(self.notes),
            created_at: self.created_at@,
            updated_at: self.updated_at@,
            otp: match self.otp {
                Some(otp) => Some(otp@),
                None => None,
            },
        }
    }
}

/// Whether `e` is an entry as this revision writes it: version 1 and a
/// password that is not empty.
pub open spec fn entry_well_formed(e: EntryView) -> bool {
    e.version == ENTRY_VERSION && e.password.len() > 0
}

/// Why an entry could not be made.
#[derive(Debug, Clone, Copy, PartialEq, Eq, Structural)]
pub enum EntryError {
    /// The password is empty.
    EmptyPassword,
    /// The clock gave no instant that can be written.
    Clock,
}

/// A field left empty stands for no value.
pub open spec fn optional_text(s: Seq<char>) -> Option<Seq<char>> {
    if s.len() == 0 {
        None
    } else {
        Some(s)
    }
}

/// Turns a field left empty into no value.
pub fn optional_field(s: &str) -> (r: Option<String>)
    ensures
        text_of(r) == optional_text(s@),
{
    if s.unicode_len() == 0 {
        None
    } else {
        Some(s.to_owned())
    }
}

/// The entry created under the logical path `path` at the instant `now`.
pub open spec fn fresh_entry(
    path: Seq<char>,
    username: Seq<char>,
    password: Seq<char>,
    url: Seq<char>,
    notes: Seq<char>,
    now: Seq<char>,
) -> EntryView {
    EntryView {
        version: ENTRY_VERSION,
        title: path,
        username: optional_text(username),
        password,
        url: optional_text(url),
        notes: optional_text(notes),
        created_at: now,
        updated_at: now,
        otp: None,
    }
}

/// Makes the entry for the logical path `path`, created at the instant
/// `now`. Its title is the path; fields left empty stand for no value. An
/// empty password is refused.
pub fn new_entry(
    path: &str,
    username: &str,
    password: &str,
    url: &str,
    notes: &str,
    now: &str,
) -> (r: Result<Entry, EntryError>)
    ensures
        match r {
            Ok(e) => {
                &&& password@.len() > 0
                &&& e@ == fresh_entry(path@, username@, password@, url@, notes@, now@)
                &&& entry_well_formed(e@)
            },
            Err(e) => password@.len() == 0 && e == EntryError::EmptyPassword,
        },
{
    if password.unicode_len() == 0 {
        return Err(EntryError::EmptyPassword);
    }
    Ok(
        Entry {
            version: ENTRY_VERSION,
            title: path.to_owned(),
            username: optional_field(username),
            password: password.to_owned(),
            url: optional_field(url),
            notes: optional_field(notes),
            created_at: now.to_owned(),
            updated_at: now.to_owned(),
            otp: None,
        },
    )
}

/// Makes the entry for the logical path `path` as of now. Where
/// `password` is empty, a password of 24 characters is generated from upper
/// case, lower case, digits and symbols.
///
/// Whatever the clock says and whatever is drawn, the entry is well-formed,
/// carries the path as its title, and holds the given password where one
/// was given.
pub fn add_entry(path: &str, username: &str, password: &str, url: &str, notes: &str) -> (r: Result<
    Entry,
    EntryError,
>)
    ensures
        match r {
            Ok(e) => {
                &&& entry_well_formed(e@)
                &&& exists|chosen: Seq<char>, now: Seq<char>|
                    e@ == #[trigger] fresh_entry(path@, username@, chosen, url@, notes@, now)
                &&& password@.len() > 0 ==> e@.password == password@
                &&& password@.len() == 0 ==> {
                    &&& e@.password.len() == GENERATED_PASSWORD_LEN
                    &&& forall|i: int|
                        0 <= i < e@.password.len() ==> password_alphabet(true, true, true).contains(
                            #[trigger] e@.password[i],
                        )
                }
            },
            Err(e) => e == EntryError::Clock,
        },
{
    let chosen = if password.unicode_len() == 0 {
        random_password(GENERATED_PASSWORD_LEN, true, true, true)
    } else {
        password.to_owned()
    };
    let now = match utc_now_rfc3339() {
        Some(now) => now,
        None => {
            return Err(EntryError::Clock);
        },
    };
    new_entry(path, username, chosen.as_str(), url, notes, now.as_str())
}

/// `entry` with the descriptor `otp` attached at the instant `now`: the
/// descriptor replaces any earlier one, `updated_at` becomes `now`, and all
/// else stays.
pub open spec fn with_otp(entry: EntryView, otp: OtpConfigView, now: Seq<char>) -> EntryView {
    EntryView { otp: Some(otp), updated_at: now, ..entry }
}

/// Attaches a one-time-password descriptor to an entry at the instant
/// `now`.
pub fn attach_otp(entry: Entry, otp: OtpConfig, now: &str) -> (r: Entry)
    ensures
        r@ == with_otp(entry@, otp@, now@),
        entry_well_formed(entry@) ==> entry_well_formed(r@),
{
    Entry {
        version: entry.version,
        title: entry.title,
        username: entry.username,
        password: entry.password,
        url: entry.url,
        notes: entry.notes,
        created_at: entry.created_at,
        updated_at: now.to_owned(),
        otp: Some(otp),
    }
}

/// Attaches a one-time-password descriptor to an entry as of now.
pub fn set_otp(entry: Entry, otp: OtpConfig) -> (r: Result<Entry, EntryError>)
    ensures
        match r {
            Ok(e) => exists|now: Seq<char>| e@ == #[trigger] with_otp(entry@, otp@, now),
            Err(e) => e == EntryError::Clock,
        },
{
    match utc_now_rfc3339() {
        Some(now) => Ok(attach_otp(entry, otp, now.as_str())),
        None => Err(EntryError::Clock),
    }
}

/// A field of an entry that can be handed to the clipboard.
#[derive(Debug, Clone, Copy, PartialEq, Eq, Structural)]
pub enum ClipField {
    Password,
    Username,
}

/// What the clipboard gets for `field`: the password, or the user name,
/// which is empty where the entry has none.
pub open spec fn clip_text(entry: EntryView, field: ClipField) -> Seq<char> {
    match field {
        ClipField::Password => entry.password,
        ClipField::Username => match entry.username {
            Some(name) => name,
            None => Seq::empty(),
        },
    }
}

/// The value of `field` that goes to the clipboard.
pub fn clip_value(entry: &Entry, field: ClipField) -> (r: String)
    ensures
        r@ == clip_text(entry@, field),
{
    match field {
        ClipField::Password => entry.password.clone(),
        ClipField::Username => match &entry.username {
            Some(name) => name.clone(),
            None => String::new(),
        },
    }
}

/// The word that names `field` to the user.
pub fn clip_label(field: ClipField) -> (r: &'static str)
    ensures
        r@ == match field {
            ClipField::Password => "Password"@,
            ClipField::Username => "Username"@,
        },
{
    match field {
        ClipField::Password => "Password",
        ClipField::Username => "Username",
    }
}

/// The line that shows an optional field under `label`, if the field has a
/// value.
pub open spec fn optional_line(label: Seq<char>, value: Option<Seq<char>>) -> Seq<Seq<char>> {
    match value {
        Some(v) => seq![label + v],
        None => Seq::empty(),
    }
}

/// The lines that show an entry: title, user name, password, URL, notes,
/// the two instants, and whether one-time passwords are configured. Fields
/// without a value have no line.
pub open spec fn shown_lines(e: EntryView) -> Seq<Seq<char>> {
    seq!["Title:    "@ + e.title] + optional_line("Username: "@, e.username) + seq![
        "Password: "@ + e.password,
    ] + optional_line("URL:      "@, e.url) + optional_line("Notes:    "@, e.notes) + seq![
        "Created:  "@ + e.created_at,
        "Updated:  "@ + e.updated_at,
        if e.otp is Some {
            "OTP:      configured"@
        } else {
            "OTP:      not set"@
        },
    ]
}

/// Adds the line of an optional field to `lines`.
fn push_optional_line(lines: &mut Vec<String>, label: &str, value: &Option<String>)
    ensures
        texts(final(lines)@) == texts(old(lines)@) + optional_line(label@, text_of(*value)),
{
    let ghost before = texts(lines@);
    match value {
        Some(v) => {
            lines.push(joined(label, v.as_str()));
            assert(texts(lines@) == before + seq![label@ + v@]);
        },
        None => {
            assert(texts(lines@) == before + Seq::<Seq<char>>::empty());
        },
    }
}

/// The lines that show an entry to the user.
pub fn entry_lines(entry: &Entry) -> (r: Vec<String>)
    ensures
        texts(r@) == shown_lines(entry@),
{
    let mut lines: Vec<String> = Vec::new();
    lines.push(joined("Title:    ", entry.title.as_str()));
    assert(texts(lines@) == seq!["Title:    "@ + entry@.title]);
    push_optional_line(&mut lines, "Username: ", &entry.username);
    let ghost l2 = texts(lines@);
    lines.push(joined("Password: ", entry.password.as_str()));
    assert(texts(lines@) == l2 + seq!["Password: "@ + entry@.password]);
    push_optional_line(&mut lines, "URL:      ", &entry.url);
    push_optional_line(&mut lines, "Notes:    ", &entry.notes);
    let ghost l5 = texts(lines@);
    lines.push(joined("Created:  ", entry.created_at.as_str()));
    lines.push(joined("Updated:  ", entry.updated_at.as_str()));
    if entry.otp.is_some() {
        lines.push("OTP:      configured".to_owned());
    } else {
        lines.push("OTP:      not set".to_owned());
    }
    assert(texts(lines@) == l5 + seq![
        "Created:  "@ + entry@.created_at,
        "Updated:  "@ + entry@.updated_at,
        if entry@.otp is Some {
            "OTP:      configured"@
        } else {
            "OTP:      not set"@
        },
    ]);
    lines
}

} // verus!
