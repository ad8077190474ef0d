use gamescope_x11_client::atoms::GamescopeAtom;

#[test]
fn test_atom_enums() {
    assert_eq!(
        "GAMESCOPE_FOCUSABLE_WINDOWS",
        GamescopeAtom::FocusableWindows.to_string()
    );
}

#[test]
fn atom_names_match_wire_identifiers() {
    assert_eq!(GamescopeAtom::NetWmPID.as_str(), "_NET_WM_PID");
    assert_eq!(GamescopeAtom::Steam.as_str(), "STEAM_BIGPICTURE");
    assert_eq!(GamescopeAtom::FocusedWindow.as_str(), "GAMESCOPE_FOCUSED_WINDOW");
    assert_eq!(GamescopeAtom::KeyboardFocusDisplay.as_str(), "GAMESCOPE_KEYBOARD_FOCUS_DISPLAY");
    assert_eq!(GamescopeAtom::CursorVisibleFeedback.as_str(), "GAMESCOPE_CURSOR_VISIBLE_FEEDBACK");
    assert_eq!(GamescopeAtom::BaselayerWindow.as_str(), "GAMESCOPECTRL_BASELAYER_WINDOW");
    assert_eq!(GamescopeAtom::DebugRequestScreenshot.as_str(), "GAMESCOPECTRL_DEBUG_REQUEST_SCREENSHOT");
    assert_eq!(GamescopeAtom::SteamStreamingClientVideo.to_string(), "STEAM_STREAMING_CLIENT_VIDEO");
}
