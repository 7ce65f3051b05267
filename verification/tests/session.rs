use clip_daemon::session::{
    active_target, is_terminal, paste_commands, valid_window_address, SessionManager, Target,
    SESSION_TTL,
};

#[test]
fn terminal_targets_use_terminal_paste_shortcut() {
    assert!(is_terminal("com.mitchellh.ghostty"));
    assert!(is_terminal("org.kde.konsole"));
    assert!(!is_terminal("firefox"));
}

#[test]
fn paste_targets_require_hyprland_window_addresses() {
    assert!(valid_window_address("0x123abc"));
    assert!(!valid_window_address("0x0"));
    assert!(!valid_window_address("123abc"));
    assert!(!valid_window_address("0x123'; os.execute('false')"));
}

#[test]
fn stale_sessions_never_prepare_a_paste() {
    let result = SessionManager::new().prepare_paste("missing", 0);
    assert!(result.is_err());
}

#[test]
fn a_session_pastes_once_and_only_where_it_was_armed() {
    let mut sessions = SessionManager::new();
    let target = || {
        Some(Target {
            address: "0x1".into(),
            class: "firefox".into(),
        })
    };
    let view = sessions.begin(target(), 0);
    assert_eq!(view.paste_mode, "copy-paste");
    assert_eq!(view.state, "active");
    let hidden = sessions.hidden(&view.id, 1).unwrap();
    assert!(hidden.paste.is_none());
    assert!(sessions.hidden(&view.id, 1).is_err());

    let view = sessions.begin(target(), 0);
    assert_eq!(sessions.prepare_paste(&view.id, 1), Ok(true));
    let hidden = sessions.hidden(&view.id, 2).unwrap();
    assert_eq!(hidden.paste.unwrap().address, "0x1");
    assert_eq!(
        sessions.prepare_paste(&view.id, 3),
        Err("Paste session is unknown or expired")
    );
}

#[test]
fn sessions_expire() {
    let mut sessions = SessionManager::new();
    let view = sessions.begin(None, 0);
    assert_eq!(view.paste_mode, "copy-only");
    assert_eq!(sessions.check(&view.id, SESSION_TTL - 1), Ok(false));
    assert_eq!(
        sessions.check(&view.id, SESSION_TTL),
        Err("Paste session expired")
    );
    let ended = sessions.end(&view.id);
    assert_eq!(ended.state, "ended");
    assert!(!ended.target_available);
}

#[test]
fn targets_are_active_windows_with_an_address() {
    assert!(active_target("0x0", "firefox").is_none());
    let target = active_target("0x12", "firefox").unwrap();
    assert_eq!(target.class, "firefox");
    let gui = paste_commands(&target);
    let terminal = paste_commands(&Target {
        address: "0x12".into(),
        class: "Ghostty".into(),
    });
    assert_eq!(gui.legacy_shortcut, "CTRL,V,address:0x12");
    assert_eq!(terminal.legacy_shortcut, "CTRL SHIFT,V,address:0x12");
    assert_eq!(gui.lua_focus, "hl.dsp.focus({ window = 'address:0x12' })");
}
