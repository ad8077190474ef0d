use gamescope_x11_client::atoms::GamescopeAtom;
use gamescope_x11_client::error::XError;
use gamescope_x11_client::{probe_outcome, session_marker};
use gamescope_x11_client::discovery::display_from_socket_line;
use gamescope_x11_client::{
    discover_gamescope_displays, discover_gamescope_xwaylands, discover_x11_displays,
    probe_display, select_gamescope_displays, ProbeOutcome,
};

fn lines(v: &[&str]) -> Vec<String> {
    v.iter().map(|s| s.to_string()).collect()
}

#[test]
fn test_discover_gamescope_displays() {
    let table = lines(&[
        "Num       RefCount Protocol Flags    Type St Inode Path",
        "0000000000000000: 00000002 00000000 00010000 0001 01 21153 /tmp/.X11-unix/X4242",
    ]);
    let xwaylands = discover_gamescope_xwaylands(&table).unwrap();
    for mut xwayland in xwaylands {
        xwayland.connect().unwrap();
        let is_primary = xwayland.is_primary_instance().unwrap();
        println!(
            "Found XWayland: {:?} {}",
            xwayland.get_name(),
            if is_primary { "(primary)" } else { "" }
        );
    }
}

#[test]
fn socket_line_names_its_display() {
    assert_eq!(
        display_from_socket_line(
            "0000000000000000: 00000002 00000000 00010000 0001 01 21153 /tmp/.X11-unix/X0"
        ),
        Some(String::from(":0"))
    );
    assert_eq!(
        display_from_socket_line("ffff: 00000002 00000000 00010000 0001 01 7 /tmp/.X11-unix/X12  \t"),
        Some(String::from(":12"))
    );
}

#[test]
fn other_socket_lines_name_no_display() {
    assert_eq!(display_from_socket_line("Num       RefCount Protocol Flags    Type St Inode Path"), None);
    assert_eq!(display_from_socket_line("ffff: 00000002 00000000 00010000 0001 01 7 @/tmp/.X11-unix/X1"), None);
    assert_eq!(display_from_socket_line("ffff: 00000002 00000000 00010000 0001 01 7 /tmp/.X11-unix/Xab"), None);
    assert_eq!(display_from_socket_line("ffff: 00000002 00000000 00010000 0001 01 7 /tmp/.X11-unix/X"), None);
    assert_eq!(display_from_socket_line("ffff: 00000002 00000000 00010000 0001 01 7 /run/user/1000/bus"), None);
    assert_eq!(display_from_socket_line("ffff: 00000002 00000000 00010000 0001 01 7"), None);
    assert_eq!(display_from_socket_line(""), None);
    assert_eq!(display_from_socket_line("   "), None);
}

#[test]
fn socket_table_lists_displays_in_order() {
    let table = lines(&[
        "Num       RefCount Protocol Flags    Type St Inode Path",
        "a: 00000002 00000000 00010000 0001 01 1 /tmp/.X11-unix/X1",
        "b: 00000002 00000000 00010000 0001 01 2 /run/systemd/notify",
        "c: 00000003 00000000 00000000 0001 03 3 /tmp/.X11-unix/X0",
        "d: 00000003 00000000 00000000 0001 03 4",
    ]);
    assert_eq!(discover_x11_displays(&table), lines(&[":1", ":0"]));
    assert_eq!(discover_x11_displays(&Vec::new()), Vec::<String>::new());
}

#[test]
fn only_the_marked_display_is_selected() {
    let candidates = lines(&[":0", ":1", ":2"]);
    let outcomes = vec![
        ProbeOutcome::Unreachable,
        ProbeOutcome::Probed(true),
        ProbeOutcome::Probed(false),
    ];
    assert_eq!(select_gamescope_displays(&candidates, &outcomes), lines(&[":1"]));
}

#[test]
fn every_marked_display_is_selected_in_order() {
    let candidates = lines(&[":3", ":1", ":2"]);
    let outcomes = vec![
        ProbeOutcome::Probed(true),
        ProbeOutcome::Unreachable,
        ProbeOutcome::Probed(true),
    ];
    assert_eq!(select_gamescope_displays(&candidates, &outcomes), lines(&[":3", ":2"]));
    assert_eq!(select_gamescope_displays(&Vec::new(), &Vec::new()), Vec::<String>::new());
}

#[test]
fn unreachable_display_is_skipped() {
    assert_eq!(probe_display(":4243"), Ok(ProbeOutcome::Unreachable));
    let table = lines(&["a: 00000002 00000000 00010000 0001 01 1 /tmp/.X11-unix/X4243"]);
    assert_eq!(discover_gamescope_displays(&table), Ok(Vec::new()));
}

#[test]
fn probe_outcomes_from_what_the_calls_returned() {
    assert_eq!(probe_outcome(None), Ok(ProbeOutcome::Unreachable));
    assert_eq!(probe_outcome(Some(Ok(true))), Ok(ProbeOutcome::Probed(true)));
    assert_eq!(probe_outcome(Some(Ok(false))), Ok(ProbeOutcome::Probed(false)));
    assert_eq!(probe_outcome(Some(Err(XError::Transport))), Err(XError::Transport));
    assert_eq!(session_marker(), GamescopeAtom::CursorVisibleFeedback);
}
