use gamescope_x11_client::atoms::GamescopeAtom;
use gamescope_x11_client::error::XError;
use gamescope_x11_client::watcher::{
    forward_resolved, watch_step, PropertyWatcher, WatchAction, WatchEvent, WatchStep,
};
use gamescope_x11_client::xwayland::{BlurMode, Primary, XWayland};

#[test]
fn new_session_is_not_connected() {
    let session = XWayland::new(String::from(":0"));
    assert_eq!(session.get_name(), ":0");
    assert_eq!(session.get_root_window_id(), Err(XError::NotConnected));
    assert_eq!(session.get_xprop(1, GamescopeAtom::FocusedApp), Err(XError::NotConnected));
    assert_eq!(session.has_xprop(1, GamescopeAtom::SteamGame), Err(XError::NotConnected));
    assert_eq!(session.set_xprop(1, GamescopeAtom::SteamGame, vec![1]), Err(XError::NotConnected));
    assert_eq!(session.remove_xprop(1, GamescopeAtom::SteamGame), Err(XError::NotConnected));
    assert_eq!(session.get_all_windows(1), Err(XError::NotConnected));
    assert_eq!(session.get_windows_for_pid(7), Err(XError::NotConnected));
    assert_eq!(session.is_primary_instance(), Err(XError::NotConnected));
}

#[test]
fn primary_surface_needs_a_connection() {
    let session = XWayland::new(String::from(":0"));
    assert_eq!(session.is_overlay_focused(), Err(XError::NotConnected));
    assert_eq!(session.get_blur_mode(), Err(XError::NotConnected));
    assert_eq!(session.set_blur_mode(BlurMode::Always), Err(XError::NotConnected));
    assert_eq!(session.get_focusable_window_names(), Err(XError::NotConnected));
    assert_eq!(session.request_screenshot(), Err(XError::NotConnected));
}

#[test]
fn connecting_to_a_missing_display_fails() {
    let mut session = XWayland::new(String::from(":4244"));
    assert_eq!(session.connect(), Err(XError::Transport));
    assert_eq!(session.get_root_window_id(), Err(XError::NotConnected));
}

#[test]
fn watcher_steps() {
    assert_eq!(watch_step(WatchEvent::PropertyChanged(42)), WatchStep::Resolve(42));
    assert_eq!(watch_step(WatchEvent::Other), WatchStep::Ignore);
    assert_eq!(watch_step(WatchEvent::Closed), WatchStep::Stop);
}

#[test]
fn resolved_names_are_forwarded_once() {
    match forward_resolved(Ok(String::from("GAMESCOPE_FOCUSED_APP"))) {
        WatchAction::Forward(name) => assert_eq!(name, "GAMESCOPE_FOCUSED_APP"),
        _ => panic!("expected a forwarded name"),
    }
    assert!(matches!(forward_resolved(Err(XError::Decode)), WatchAction::Skip));
}

#[test]
fn watcher_on_a_missing_display_fails() {
    assert!(matches!(PropertyWatcher::start(":4245", 1), Err(XError::Transport)));
}
