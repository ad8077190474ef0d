use gamescope_x11_client::atoms::GamescopeAtom;
use gamescope_x11_client::xwayland::{control_write, keep_present_names, primary_marker, select_windows_for_pid, Control};
use gamescope_x11_client::error::XError;
use gamescope_x11_client::x11::{decode_cardinal_reply, decode_string_reply, flatten_pids};
use gamescope_x11_client::xwayland::{
    blur_mode_from_value, blur_mode_value, first_value, flag_value, is_overlay_app, list_contains,
    pid_matches, BlurMode, OVERLAY_APP_ID,
};

#[test]
fn empty_cardinal_reply_is_absent() {
    assert_eq!(decode_cardinal_reply(0, None), Ok(None));
    assert_eq!(decode_cardinal_reply(0, Some(vec![])), Ok(None));
}

#[test]
fn cardinal_reply_items_are_the_value() {
    assert_eq!(decode_cardinal_reply(2, Some(vec![5, 6])), Ok(Some(vec![5, 6])));
    assert_eq!(decode_cardinal_reply(1, Some(vec![769])), Ok(Some(vec![769])));
}

#[test]
fn cardinal_reply_of_wrong_format_is_a_decode_error() {
    assert_eq!(decode_cardinal_reply(3, None), Err(XError::Decode));
}

#[test]
fn string_reply_decodes_utf8() {
    assert_eq!(decode_string_reply(0, None), Ok(None));
    assert_eq!(
        decode_string_reply(5, Some(b"Steam".to_vec())),
        Ok(Some(String::from("Steam")))
    );
    assert_eq!(
        decode_string_reply(3, Some(vec![0xc3, 0xa9, 0x21])),
        Ok(Some(String::from("\u{e9}!")))
    );
}

#[test]
fn string_reply_errors() {
    assert_eq!(decode_string_reply(2, Some(vec![0xff, 0xfe])), Err(XError::Decode));
    assert_eq!(decode_string_reply(2, None), Err(XError::Decode));
}

#[test]
fn client_pid_lists_are_concatenated() {
    assert_eq!(flatten_pids(vec![vec![1, 2], vec![], vec![3]]), vec![1, 2, 3]);
    assert_eq!(flatten_pids(vec![]), Vec::<u32>::new());
}

#[test]
fn overlay_is_focused_only_for_its_app_id() {
    assert_eq!(OVERLAY_APP_ID, 769);
    assert!(is_overlay_app(Some(769)));
    assert!(!is_overlay_app(Some(770)));
    assert!(!is_overlay_app(Some(0)));
    assert!(!is_overlay_app(None));
}

#[test]
fn blur_mode_encoding() {
    assert_eq!(blur_mode_value(BlurMode::Off), 0);
    assert_eq!(blur_mode_value(BlurMode::Cond), 1);
    assert_eq!(blur_mode_value(BlurMode::Always), 2);
    assert_eq!(blur_mode_from_value(Some(0)), Some(BlurMode::Off));
    assert_eq!(blur_mode_from_value(Some(1)), Some(BlurMode::Cond));
    assert_eq!(blur_mode_from_value(Some(2)), Some(BlurMode::Always));
    assert_eq!(blur_mode_from_value(Some(3)), None);
    assert_eq!(blur_mode_from_value(None), None);
    for mode in [BlurMode::Off, BlurMode::Cond, BlurMode::Always] {
        assert_eq!(blur_mode_from_value(Some(blur_mode_value(mode))), Some(mode));
    }
}

#[test]
fn flags_encode_as_one_and_zero() {
    assert_eq!(flag_value(true), 1);
    assert_eq!(flag_value(false), 0);
}

#[test]
fn first_value_of_a_property() {
    assert_eq!(first_value(None), None);
    assert_eq!(first_value(Some(vec![])), None);
    assert_eq!(first_value(Some(vec![7, 8])), Some(7));
}

#[test]
fn focusable_list_membership() {
    assert!(list_contains(&Some(vec![3, 4, 5]), 4));
    assert!(!list_contains(&Some(vec![3, 4, 5]), 6));
    assert!(!list_contains(&Some(vec![]), 6));
    assert!(!list_contains(&None, 6));
}

#[test]
fn windows_without_pid_do_not_match() {
    assert!(pid_matches(42, Ok(Some(42))));
    assert!(!pid_matches(42, Ok(Some(43))));
    assert!(!pid_matches(42, Ok(None)));
    assert!(!pid_matches(0, Ok(None)));
    assert!(!pid_matches(42, Err(XError::Transport)));
}

#[test]
fn control_writes_name_their_property_and_value() {
    let root = 0x100;
    let w = control_write(Control::Blur(BlurMode::Always), root);
    assert_eq!((w.window, w.key, w.values), (root, GamescopeAtom::BlurMode, vec![2]));
    let w = control_write(Control::AllowTearing(true), root);
    assert_eq!((w.window, w.key, w.values), (root, GamescopeAtom::AllowTearing, vec![1]));
    let w = control_write(Control::AllowTearing(false), root);
    assert_eq!(w.values, vec![0]);
    let w = control_write(Control::Screenshot, root);
    assert_eq!((w.window, w.key, w.values), (root, GamescopeAtom::RequestScreenshot, vec![1]));
    let w = control_write(Control::MainApp(42), root);
    assert_eq!((w.window, w.key, w.values), (42, GamescopeAtom::SteamGame, vec![769]));
    let w = control_write(Control::FpsLimit(60), root);
    assert_eq!((w.window, w.key, w.values), (root, GamescopeAtom::FPSLimit, vec![60]));
    let w = control_write(Control::BaselayerWindow(7), root);
    assert_eq!((w.window, w.key, w.values), (root, GamescopeAtom::BaselayerWindow, vec![7]));
    let w = control_write(Control::Overlay(9, 1), root);
    assert_eq!((w.window, w.key, w.values), (9, GamescopeAtom::SteamOverlay, vec![1]));
    let w = control_write(Control::InputFocus(9, 1), root);
    assert_eq!((w.window, w.key, w.values), (9, GamescopeAtom::SteamInputFocus, vec![1]));
    assert_eq!(primary_marker(), GamescopeAtom::KeyboardFocusDisplay);
}

#[test]
fn windows_are_filtered_by_pid_in_order() {
    let windows = vec![1, 2, 3, 4, 5];
    let lookups = vec![
        Ok(Some(42)),
        Ok(None),
        Err(XError::Transport),
        Ok(Some(7)),
        Ok(Some(42)),
    ];
    assert_eq!(select_windows_for_pid(&windows, &lookups, 42), vec![1, 5]);
    assert_eq!(select_windows_for_pid(&windows, &lookups, 0), Vec::<u32>::new());
}

#[test]
fn only_found_names_are_kept() {
    let lookups = vec![Some(String::from("a")), None, Some(String::from("b"))];
    assert_eq!(keep_present_names(&lookups), vec![String::from("a"), String::from("b")]);
    assert_eq!(keep_present_names(&vec![None, None]), Vec::<String>::new());
}
