//! The session: a short-lived cache of the unwrapped master key.
//!
//! The cache is a convenience, never a source of authority: a record still
//! opens only under a key that authenticates it. The functions here decide;
//! reading, prompting and writing are the caller's part.

use crate::codec::{base64_bytes, base64_decode, base64_encode, base64_text};
use crate::crypto::{key_from_bytes, MasterKey, KEY_LEN};
use crate::store::{join_path, path_join};
use vstd::prelude::*;

verus! {

/// How long a cached master key stays usable, in seconds.
pub const SESSION_TTL_SECS: u64 = 300;

/// Name of the session file in the runtime directory.
pub const RUNTIME_SESSION_NAME: &'static str = "pm-session.json";

/// Name of the session file in the store's root.
pub const STORE_SESSION_NAME: &'static str = "session.json";

/// The cached master key with the instant at which it lapses.
#[derive(Debug, Clone, PartialEq, Eq)]
pub struct SessionFile {
    /// Last instant, in Unix seconds, at which the key may be used.
    pub expires_at: u64,
    /// The master key, as base64 text.
    pub master_key: String,
}

/// What a [`SessionFile`] holds, with its string as a character sequence.
pub struct SessionFileView {
    pub expires_at: u64,
    pub master_key: Seq<char>,
}

impl View for SessionFile {
    type V = SessionFileView;

    open spec fn view(&self) -> SessionFileView {
        SessionFileView { expires_at: self.expires_at, master_key: self.master_key@ }
    }
}

/// What to do once the session file has been looked at.
#[derive(Debug, Clone, PartialEq, Eq)]
pub enum SessionAction {
    /// Use the cached key; no prompt.
    UseKey(MasterKey),
    /// Ask for the master password; first delete the session file where it
    /// has lapsed.
    Prompt { delete_stale: bool },
}

/// A [`SessionAction`] with the key as a byte sequence.
pub enum SessionActionView {
    UseKey(Seq<u8>),
    Prompt { delete_stale: bool },
}

impl View for SessionAction {
    type V = SessionActionView;

    open spec fn view(&self) -> SessionActionView {
        match self {
            SessionAction::UseKey(key) => SessionActionView::UseKey(key@),
            SessionAction::Prompt { delete_stale } => SessionActionView::Prompt {
                delete_stale: *delete_stale,
            },
        }
    }
}

/// The action that the session file calls for at the instant `now`;
/// `session` is `None` where the file is absent, unreadable or does not
/// parse.
///
/// A session is used up to and including its last instant, and only where
/// its key decodes to 32 bytes. A lapsed session is deleted; one that is
/// neither lapsed nor usable is left alone.
pub open spec fn session_action(session: Option<SessionFileView>, now: u64) -> SessionActionView {
    match session {
        None => SessionActionView::Prompt { delete_stale: false },
        Some(s) => if now <= s.expires_at {
            match base64_bytes(s.master_key) {
                Some(key) => if key.len() == KEY_LEN {
                    SessionActionView::UseKey(key)
                } else {
                    SessionActionView::Prompt { delete_stale: false }
                },
                None => SessionActionView::Prompt { delete_stale: false },
            }
        } else {
            SessionActionView::Prompt { delete_stale: true }
        },
    }
}

/// Decides what to do with the session file at the instant `now`.
pub fn session_lookup(session: Option<&SessionFile>, now: u64) -> (r: SessionAction)
    ensures
        r@ == session_action(
            match session {
                Some(s) => Some(s@),
                None => None,
            },
            now,
        ),
{
    match session {
        None => SessionAction::Prompt { delete_stale: false },
        Some(s) => {
            if now <= s.expires_at {
                match base64_decode(s.master_key.as_str()) {
                    Some(bytes) => {
                        if bytes.len() == KEY_LEN {
                            SessionAction::UseKey(key_from_bytes(bytes.as_slice()))
                        } else {
                            SessionAction::Prompt { delete_stale: false }
                        }
                    },
                    None => SessionAction::Prompt { delete_stale: false },
                }
            } else {
                SessionAction::Prompt { delete_stale: true }
            }
        },
    }
}

/// The session to write after unlocking at the instant `now`: it lapses
/// [`SESSION_TTL_SECS`] seconds later.
///
/// From `now` up to and including that instant the session gives the key
/// back without a prompt; after it, the session calls for a prompt and for
/// its own deletion.
pub fn new_session(master_key: &MasterKey, now: u64) -> (r: SessionFile)
    requires
        now + SESSION_TTL_SECS <= u64::MAX,
    ensures
        r.expires_at == now + SESSION_TTL_SECS,
        r.master_key@ == base64_text(master_key@),
        forall|t: u64|
            t <= r.expires_at ==> #[trigger] session_action(Some(r@), t)
                == SessionActionView::UseKey(master_key@),
        forall|t: u64|
            t > r.expires_at ==> #[trigger] session_action(Some(r@), t)
                == (SessionActionView::Prompt { delete_stale: true }),
{
    SessionFile {
        expires_at: now + SESSION_TTL_SECS,
        master_key: base64_encode(master_key.as_slice()),
    }
}

/// The session to write after unlocking at the instant `now`, or `None`
/// where the clock stands so late that the session's last instant cannot be
/// told.
pub fn session_after_unlock(master_key: &MasterKey, now: u64) -> (r: Option<SessionFile>)
    ensures
        match r {
            Some(s) => {
                &&& now + SESSION_TTL_SECS <= u64::MAX
                &&& s.expires_at == now + SESSION_TTL_SECS
                &&& s.master_key@ == base64_text(master_key@)
                &&& session_action(Some(s@), now) == SessionActionView::UseKey(master_key@)
            },
            None => now + SESSION_TTL_SECS > u64::MAX,
        },
{
    if now <= u64::MAX - SESSION_TTL_SECS {
        Some(new_session(master_key, now))
    } else {
        None
    }
}

/// A lapsed session calls for a prompt and for its deletion, whatever it
/// holds.
pub proof fn lemma_lapsed_session_prompts(session: SessionFileView, now: u64)
    requires
        now > session.expires_at,
    ensures
        session_action(Some(session), now) == (SessionActionView::Prompt { delete_stale: true }),
{
}

/// A session file that is missing or does not parse, or whose key is not
/// the base64 text of 32 bytes, calls for a prompt at every instant.
pub proof fn lemma_unusable_session_prompts(session: Option<SessionFileView>, now: u64)
    requires
        session matches Some(s) ==> !(base64_bytes(s.master_key) matches Some(key) && key.len()
            == KEY_LEN),
    ensures
        session_action(session, now) is Prompt,
{
}

/// The place of the session file: `pm-session.json` in the runtime
/// directory where the environment names one, else `session.json` in the
/// store's root.
pub open spec fn session_path_for(runtime_dir: Option<Seq<char>>, root: Seq<char>) -> Seq<char> {
    match runtime_dir {
        Some(dir) => path_join(dir, RUNTIME_SESSION_NAME@),
        None => path_join(root, STORE_SESSION_NAME@),
    }
}

/// Names the session file, given the runtime directory that the
/// environment names, if any, and the store's root.
pub fn session_path(runtime_dir: Option<&str>, root: &str) -> (r: String)
    ensures
        r@ == session_path_for(
            match runtime_dir {
                Some(dir) => Some(dir@),
                None => None,
            },
            root@,
        ),
{
    match runtime_dir {
        Some(dir) => join_path(dir, RUNTIME_SESSION_NAME),
        None => join_path(root, STORE_SESSION_NAME),
    }
}

} // verus!
