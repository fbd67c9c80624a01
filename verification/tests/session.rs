use pm_core::session::{
    new_session, session_after_unlock, session_lookup, session_path, SessionAction, SessionFile,
    SESSION_TTL_SECS,
};

fn counting_key() -> [u8; 32] {
    let mut key = [0u8; 32];
    for (i, b) in key.iter_mut().enumerate() {
        *b = i as u8;
    }
    key
}

#[test]
fn a_session_lasts_300_seconds() {
    assert_eq!(SESSION_TTL_SECS, 300);
    let session = new_session(&counting_key(), 1_700_000_000);
    assert_eq!(session.expires_at, 1_700_000_300);
    assert_eq!(new_session(&counting_key(), 0).expires_at, 300);
}

#[test]
fn a_session_holds_the_key_as_base64() {
    let session = new_session(&counting_key(), 0);
    assert_eq!(session.master_key, "AAECAwQFBgcICQoLDA0ODxAREhMUFRYXGBkaGxwdHh8=");
}

#[test]
fn a_fresh_session_gives_the_key_without_a_prompt() {
    let key = counting_key();
    let session = new_session(&key, 1_000);
    assert_eq!(session_lookup(Some(&session), 1_000), SessionAction::UseKey(key));
    assert_eq!(session_lookup(Some(&session), 1_150), SessionAction::UseKey(key));
}

#[test]
fn a_session_is_usable_up_to_its_last_instant() {
    let key = counting_key();
    let session = new_session(&key, 1_000);
    assert_eq!(session_lookup(Some(&session), 1_300), SessionAction::UseKey(key));
}

#[test]
fn a_lapsed_session_prompts_and_is_deleted() {
    let session = new_session(&counting_key(), 1_000);
    assert_eq!(
        session_lookup(Some(&session), 1_301),
        SessionAction::Prompt { delete_stale: true }
    );
    assert_eq!(
        session_lookup(Some(&session), u64::MAX),
        SessionAction::Prompt { delete_stale: true }
    );
}

#[test]
fn a_missing_session_prompts() {
    assert_eq!(session_lookup(None, 0), SessionAction::Prompt { delete_stale: false });
}

#[test]
fn a_mangled_session_prompts_and_never_fails() {
    for text in ["", "!!!", "AAECAw==", "AAECAwQFBgcICQoLDA0ODxAREhMUFRYXGBkaGxwdHh8", "\u{0}"] {
        let session = SessionFile { expires_at: 100, master_key: text.to_string() };
        assert_eq!(
            session_lookup(Some(&session), 50),
            SessionAction::Prompt { delete_stale: false }
        );
    }
    // 33 bytes
    let long = SessionFile {
        expires_at: 100,
        master_key: "AAECAwQFBgcICQoLDA0ODxAREhMUFRYXGBkaGxwdHh8g".to_string(),
    };
    assert_eq!(session_lookup(Some(&long), 50), SessionAction::Prompt { delete_stale: false });
}

#[test]
fn a_mangled_session_that_lapsed_is_deleted() {
    let session = SessionFile { expires_at: 100, master_key: "!!!".to_string() };
    assert_eq!(session_lookup(Some(&session), 101), SessionAction::Prompt { delete_stale: true });
}

#[test]
fn session_lookup_decodes_the_key() {
    let session = SessionFile {
        expires_at: 10,
        master_key: "BwcHBwcHBwcHBwcHBwcHBwcHBwcHBwcHBwcHBwcHBwc=".to_string(),
    };
    assert_eq!(session_lookup(Some(&session), 10), SessionAction::UseKey([7u8; 32]));
}

#[test]
fn session_after_unlock_writes_a_session() {
    let key = counting_key();
    let session = session_after_unlock(&key, 5).unwrap();
    assert_eq!(session.expires_at, 305);
    assert_eq!(session_lookup(Some(&session), 5), SessionAction::UseKey(key));
}

#[test]
fn session_after_unlock_gives_up_at_the_end_of_time() {
    assert_eq!(session_after_unlock(&counting_key(), u64::MAX), None);
    assert_eq!(session_after_unlock(&counting_key(), u64::MAX - 299), None);
    assert_eq!(
        session_after_unlock(&counting_key(), u64::MAX - 300).map(|s| s.expires_at),
        Some(u64::MAX)
    );
}

#[test]
fn session_path_prefers_the_runtime_directory() {
    assert_eq!(
        session_path(Some("/run/user/1000"), "/home/u/.local/share/pm-store"),
        "/run/user/1000/pm-session.json"
    );
    assert_eq!(
        session_path(None, "/home/u/.local/share/pm-store"),
        "/home/u/.local/share/pm-store/session.json"
    );
}
