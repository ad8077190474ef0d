//! A session with one of the compositor's X servers, and the control surface
//! of the primary one.

use vstd::prelude::*;

use crate::atoms::GamescopeAtom;
use crate::error::XError;
use crate::transport::{open_display, query_children, screen_root, XConnection};
use crate::tree::{descendants_of, tree_wf, TreeView, WindowTree};
use crate::x11::{self, opt_vec_view};

verus! {

/// The app id the compositor looks for in `STEAM_GAME` to tell that a window
/// is the overlay.
pub const OVERLAY_APP_ID: u32 = 769;

/// The compositor's blur modes.
#[derive(Debug, Clone, Copy, PartialEq, Eq, Structural)]
pub enum BlurMode {
    Off,
    Cond,
    Always,
}

/// The wire value of a blur mode.
pub open spec fn blur_mode_code(mode: BlurMode) -> u32 {
    match mode {
        BlurMode::Off => 0,
        BlurMode::Cond => 1,
        BlurMode::Always => 2,
    }
}

/// The blur mode a property value stands for: none when the property is
/// absent or holds an unknown value.
pub open spec fn blur_mode_of(value: Option<u32>) -> Option<BlurMode> {
    match value {
        Some(0) => Some(BlurMode::Off),
        Some(1) => Some(BlurMode::Cond),
        Some(2) => Some(BlurMode::Always),
        _ => None,
    }
}

/// The first item of a property value, if there is one.
pub open spec fn first_of(value: Option<Seq<u32>>) -> Option<u32> {
    match value {
        Some(v) => if v.len() > 0 {
            Some(v[0])
        } else {
            None
        },
        None => None,
    }
}

/// The wire value of a blur mode.
pub fn blur_mode_value(mode: BlurMode) -> (r: u32)
    ensures
        r == blur_mode_code(mode),
{
    match mode {
        BlurMode::Off => 0,
        BlurMode::Cond => 1,
        BlurMode::Always => 2,
    }
}

/// Decodes the blur-mode property; an unknown value decodes to none.
pub fn blur_mode_from_value(value: Option<u32>) -> (r: Option<BlurMode>)
    ensures
        r == blur_mode_of(value),
{
    match value {
        Some(0) => Some(BlurMode::Off),
        Some(1) => Some(BlurMode::Cond),
        Some(2) => Some(BlurMode::Always),
        _ => None,
    }
}

/// Decoding the wire value of a blur mode gives the mode back.
pub proof fn lemma_blur_mode_round_trip(mode: BlurMode)
    ensures
        blur_mode_of(Some(blur_mode_code(mode))) == Some(mode),
{
}

/// The wire value of a flag: 1 for true, 0 for false.
pub fn flag_value(flag: bool) -> (r: u32)
    ensures
        r == (if flag {
            1u32
        } else {
            0u32
        }),
{
    if flag {
        1
    } else {
        0
    }
}

/// The first item of a property value, if there is one.
pub fn first_value(value: Option<Vec<u32>>) -> (r: Option<u32>)
    ensures
        r == first_of(opt_vec_view(value)),
{
    match value {
        Some(v) => if v.len() > 0 {
            Some(v[0])
        } else {
            None
        },
        None => None,
    }
}

/// Whether the focused app is the overlay: true exactly for the overlay's app
/// id, false for any other id and when no app is focused.
pub fn is_overlay_app(focused_app: Option<u32>) -> (r: bool)
    ensures
        r == (focused_app == Some(OVERLAY_APP_ID)),
{
    match focused_app {
        Some(app) => app == OVERLAY_APP_ID,
        None => false,
    }
}

/// Whether a window appears in a list of windows; an absent list holds none.
pub fn list_contains(list: &Option<Vec<u32>>, window_id: u32) -> (r: bool)
    ensures
        r == (match list {
            Some(v) => v@.contains(window_id),
            None => false,
        }),
{
    match list {
        None => false,
        Some(v) => vec_contains(v, window_id),
    }
}

fn vec_contains(v: &Vec<u32>, window_id: u32) -> (r: bool)
    ensures
        r == v@.contains(window_id),
{
    let mut i: usize = 0;
    while i < v.len()
        invariant
            i <= v@.len(),
            forall|j: int| 0 <= j < i ==> v@[j] != window_id,
        decreases v@.len() - i,
    {
        if v[i] == window_id {
            assert(v@[i as int] == window_id);
            return true;
        }
        i = i + 1;
    }
    false
}

/// Whether a window's process-id lookup found the given process id. A window
/// without the property, or whose lookup failed, does not match.
pub fn pid_matches(pid: u32, found: Result<Option<u32>, XError>) -> (r: bool)
    ensures
        r == (found == Ok::<Option<u32>, XError>(Some(pid))),
{
    match found {
        Ok(Some(p)) => p == pid,
        _ => false,
    }
}

/// A write the primary control surface makes.
#[derive(Debug, Clone, Copy, PartialEq, Eq, Structural)]
pub enum Control {
    /// Mark a window as the main launcher app.
    MainApp(u32),
    /// The overlay input-focus flag of a window.
    InputFocus(u32, u32),
    /// The overlay flag of a window.
    Overlay(u32, u32),
    /// The notification flag of a window.
    Notification(u32, u32),
    /// The external-overlay flag of a window.
    ExternalOverlay(u32, u32),
    /// The frame-rate limit.
    FpsLimit(u32),
    /// The blur mode.
    Blur(BlurMode),
    /// The blur radius.
    BlurRadius(u32),
    /// Whether tearing is allowed.
    AllowTearing(bool),
    /// The window focused by hand.
    BaselayerWindow(u32),
    /// A screenshot request.
    Screenshot,
}

/// The window, property and value a control write sets, given the root window.
pub open spec fn control_write_of(op: Control, root: u32) -> (u32, GamescopeAtom, Seq<u32>) {
    match op {
        Control::MainApp(w) => (w, GamescopeAtom::SteamGame, seq![OVERLAY_APP_ID]),
        Control::InputFocus(w, v) => (w, GamescopeAtom::SteamInputFocus, seq![v]),
        Control::Overlay(w, v) => (w, GamescopeAtom::SteamOverlay, seq![v]),
        Control::Notification(w, v) => (w, GamescopeAtom::SteamNotification, seq![v]),
        Control::ExternalOverlay(w, v) => (w, GamescopeAtom::ExternalOverlay, seq![v]),
        Control::FpsLimit(fps) => (root, GamescopeAtom::FPSLimit, seq![fps]),
        Control::Blur(mode) => (root, GamescopeAtom::BlurMode, seq![blur_mode_code(mode)]),
        Control::BlurRadius(radius) => (root, GamescopeAtom::BlurRadius, seq![radius]),
        Control::AllowTearing(allow) => (
            root,
            GamescopeAtom::AllowTearing,
            seq![if allow { 1u32 } else { 0u32 }],
        ),
        Control::BaselayerWindow(w) => (root, GamescopeAtom::BaselayerWindow, seq![w]),
        Control::Screenshot => (root, GamescopeAtom::RequestScreenshot, seq![1u32]),
    }
}

/// The window, property and value of one control write.
pub struct PropertyWrite {
    pub window: u32,
    pub key: GamescopeAtom,
    pub values: Vec<u32>,
}

/// The window, property and value a control write sets. The blur mode goes
/// to the blur-mode property, the one `get_blur_mode` reads, and not to the
/// frame-rate limit.
pub fn control_write(op: Control, root: u32) -> (r: PropertyWrite)
    ensures
        (r.window, r.key, r.values@) == control_write_of(op, root),
{
    let r = match op {
        Control::MainApp(w) => PropertyWrite { window: w, key: GamescopeAtom::SteamGame, values: vec![OVERLAY_APP_ID] },
        Control::InputFocus(w, v) => PropertyWrite { window: w, key: GamescopeAtom::SteamInputFocus, values: vec![v] },
        Control::Overlay(w, v) => PropertyWrite { window: w, key: GamescopeAtom::SteamOverlay, values: vec![v] },
        Control::Notification(w, v) => PropertyWrite { window: w, key: GamescopeAtom::SteamNotification, values: vec![v] },
        Control::ExternalOverlay(w, v) => PropertyWrite { window: w, key: GamescopeAtom::ExternalOverlay, values: vec![v] },
        Control::FpsLimit(fps) => PropertyWrite { window: root, key: GamescopeAtom::FPSLimit, values: vec![fps] },
        Control::Blur(mode) => PropertyWrite { window: root, key: GamescopeAtom::BlurMode, values: vec![blur_mode_value(mode)] },
        Control::BlurRadius(radius) => PropertyWrite { window: root, key: GamescopeAtom::BlurRadius, values: vec![radius] },
        Control::AllowTearing(allow) => PropertyWrite { window: root, key: GamescopeAtom::AllowTearing, values: vec![flag_value(allow)] },
        Control::BaselayerWindow(w) => PropertyWrite { window: root, key: GamescopeAtom::BaselayerWindow, values: vec![w] },
        Control::Screenshot => PropertyWrite { window: root, key: GamescopeAtom::RequestScreenshot, values: vec![1] },
    };
    assert(r.values@ =~= control_write_of(op, root).2);
    r
}

/// The property whose presence on the root window marks the primary session.
pub fn primary_marker() -> (r: GamescopeAtom)
    ensures
        r == GamescopeAtom::KeyboardFocusDisplay,
{
    GamescopeAtom::KeyboardFocusDisplay
}

/// The windows whose process-id lookup found `pid`, in order; `lookups[i]` is
/// the lookup of `windows[i]`.
pub open spec fn windows_with_pid(
    windows: Seq<u32>,
    lookups: Seq<Result<Option<u32>, XError>>,
    pid: u32,
) -> Seq<u32>
    decreases windows.len(),
{
    if windows.len() == 0 || lookups.len() == 0 {
        Seq::empty()
    } else {
        let rest = windows_with_pid(windows.drop_last(), lookups.drop_last(), pid);
        if lookups.last() == Ok::<Option<u32>, XError>(Some(pid)) {
            rest.push(windows.last())
        } else {
            rest
        }
    }
}

/// Keeps the windows whose process-id lookup found `pid`, in order; a window
/// without the property, or whose lookup failed, is left out.
pub fn select_windows_for_pid(
    windows: &Vec<u32>,
    lookups: &Vec<Result<Option<u32>, XError>>,
    pid: u32,
) -> (r: Vec<u32>)
    requires
        windows@.len() == lookups@.len(),
    ensures
        r@ == windows_with_pid(windows@, lookups@, pid),
{
    let mut out: Vec<u32> = Vec::new();
    let mut i: usize = 0;
    while i < windows.len()
        invariant
            windows@.len() == lookups@.len(),
            i <= windows@.len(),
            out@ == windows_with_pid(windows@.subrange(0, i as int), lookups@.subrange(0, i as int), pid),
        decreases windows@.len() - i,
    {
        assert(windows@.subrange(0, i + 1).drop_last() =~= windows@.subrange(0, i as int));
        assert(lookups@.subrange(0, i + 1).drop_last() =~= lookups@.subrange(0, i as int));
        if pid_matches(pid, lookups[i]) {
            out.push(windows[i]);
        }
        i = i + 1;
    }
    assert(windows@.subrange(0, i as int) =~= windows@);
    assert(lookups@.subrange(0, i as int) =~= lookups@);
    out
}

pub open spec fn opt_string_view(name: Option<String>) -> Option<Seq<char>> {
    match name {
        Some(s) => Some(s@),
        None => None,
    }
}

/// The names that were found, in order.
pub open spec fn present_names(lookups: Seq<Option<Seq<char>>>) -> Seq<Seq<char>>
    decreases lookups.len(),
{
    if lookups.len() == 0 {
        Seq::empty()
    } else {
        let rest = present_names(lookups.drop_last());
        match lookups.last() {
            Some(name) => rest.push(name),
            None => rest,
        }
    }
}

/// Keeps the names that were found, in order; windows without a name are left
/// out.
pub fn keep_present_names(lookups: &Vec<Option<String>>) -> (r: Vec<String>)
    ensures
        r@.map_values(|s: String| s@) == present_names(lookups@.map_values(|o: Option<String>| opt_string_view(o))),
{
    let ghost views = lookups@.map_values(|o: Option<String>| opt_string_view(o));
    let mut names: Vec<String> = Vec::new();
    let mut i: usize = 0;
    while i < lookups.len()
        invariant
            i <= lookups@.len(),
            views == lookups@.map_values(|o: Option<String>| opt_string_view(o)),
            names@.map_values(|s: String| s@) == present_names(views.subrange(0, i as int)),
        decreases lookups@.len() - i,
    {
        assert(views.subrange(0, i + 1).drop_last() =~= views.subrange(0, i as int));
        let ghost before = names@;
        match &lookups[i] {
            Some(name) => {
                let name = name.clone();
                names.push(name);
                assert(names@.map_values(|s: String| s@) =~= before.map_values(|s: String| s@).push(
                    views[i as int]->0,
                ));
            },
            None => {},
        }
        i = i + 1;
    }
    assert(views.subrange(0, i as int) =~= views);
    names
}

/// A handle to one of the compositor's X servers, named by its display
/// (e.g. `:0`). It holds at most one connection, made by `connect`.
pub struct XWayland {
    name: String,
    conn: Option<XConnection>,
    root_window_id: u32,
}

impl XWayland {
    /// The display this session is for.
    pub closed spec fn display_name(&self) -> Seq<char> {
        self.name@
    }

    /// Whether `connect` has succeeded on this session.
    pub closed spec fn is_connected(&self) -> bool {
        self.conn is Some
    }

    /// The root window of the connected screen; 0 before the first connection.
    pub closed spec fn root(&self) -> u32 {
        self.root_window_id
    }

    /// A session for the given display, not connected yet.
    pub fn new(name: String) -> (r: XWayland)
        ensures
            r.display_name() == name@,
            !r.is_connected(),
            r.root() == 0,
    {
        XWayland { name, conn: None, root_window_id: 0 }
    }

    /// The display this session is for (e.g. `:0`).
    pub fn get_name(&self) -> (r: String)
        ensures
            r@ == self.display_name(),
    {
        self.name.clone()
    }

    fn get_connection(&self) -> (r: Result<&XConnection, XError>)
        ensures
            r is Ok <==> self.is_connected(),
            r matches Ok(c) ==> self.conn == Some(*c),
            r matches Err(e) ==> e == XError::NotConnected,
    {
        match &self.conn {
            Some(conn) => Ok(conn),
            None => Err(XError::NotConnected),
        }
    }

    /// Connects to the display and records the root window of its default
    /// screen. A second call replaces the first connection. On failure the
    /// session is left as it was.
    pub fn connect(&mut self) -> (r: Result<(), XError>)
        ensures
            final(self).display_name() == old(self).display_name(),
            r is Ok ==> final(self).is_connected(),
            r matches Err(e) ==> e == XError::Transport && *final(self) == *old(self),
    {
        let (conn, screen) = match open_display(self.name.as_str()) {
            Ok(opened) => opened,
            Err(_) => {
                return Err(XError::Transport);
            },
        };
        let root = match screen_root(&conn, screen) {
            Some(root) => root,
            None => {
                return Err(XError::Transport);
            },
        };
        self.root_window_id = root;
        self.conn = Some(conn);
        Ok(())
    }

    /// The process ids of the client that owns the window, as the X-Resource
    /// extension reports them.
    pub fn get_pids_for_window(&self, window_id: u32) -> (r: Result<Vec<u32>, XError>)
        ensures
            r matches Err(XError::NotConnected) <==> !self.is_connected(),
    {
        let conn = self.get_connection()?;
        x11::get_window_pids(conn, window_id)
    }

    /// The windows below the root whose `_NET_WM_PID` is the given process id,
    /// in depth-first order. Windows without that property, or whose lookup
    /// fails, never match.
    pub fn get_windows_for_pid(&self, pid: u32) -> (r: Result<Vec<u32>, XError>)
        ensures
            r matches Err(XError::NotConnected) <==> !self.is_connected(),
            r matches Ok(v) ==> exists|t: TreeView, lookups: Seq<Result<Option<u32>, XError>>|
                tree_wf(t) && t[0].0 == self.root() && lookups.len() == descendants_of(t, 0).len()
                    && v@ == #[trigger] windows_with_pid(descendants_of(t, 0), lookups, pid),
    {
        let all_windows = self.get_all_windows(self.root_window_id)?;
        let ghost t = choose|t: TreeView|
            tree_wf(t) && t[0].0 == self.root_window_id && all_windows@ == descendants_of(t, 0);
        let mut lookups: Vec<Result<Option<u32>, XError>> = Vec::new();
        let mut i: usize = 0;
        while i < all_windows.len()
            invariant
                i <= all_windows@.len(),
                lookups@.len() == i,
            decreases all_windows@.len() - i,
        {
            lookups.push(self.get_window_pid(all_windows[i]));
            i = i + 1;
        }
        let window_ids = select_windows_for_pid(&all_windows, &lookups, pid);
        assert(tree_wf(t) && t[0].0 == self.root() && lookups@.len() == descendants_of(t, 0).len()
            && window_ids@ == windows_with_pid(descendants_of(t, 0), lookups@, pid));
        Ok(window_ids)
    }

    /// Whether this is the primary compositor session: its root window carries
    /// the property `primary_marker` names.
    pub fn is_primary_instance(&self) -> (r: Result<bool, XError>)
        ensures
            r matches Err(XError::NotConnected) <==> !self.is_connected(),
    {
        self.has_xprop(self.root_window_id, primary_marker())
    }

    /// The root window of the connected screen.
    pub fn get_root_window_id(&self) -> (r: Result<u32, XError>)
        ensures
            !self.is_connected() ==> r == Err::<u32, XError>(XError::NotConnected),
            self.is_connected() ==> r == Ok::<u32, XError>(self.root()),
    {
        let _ = self.get_connection()?;
        Ok(self.root_window_id)
    }

    /// The `WM_NAME` of a window.
    pub fn get_window_name(&self, window_id: u32) -> (r: Result<Option<String>, XError>)
        ensures
            r matches Err(XError::NotConnected) <==> !self.is_connected(),
    {
        let conn = self.get_connection()?;
        x11::get_window_name(conn, window_id)
    }

    /// The direct children of a window, in the order the server lists them.
    pub fn get_window_children(&self, window_id: u32) -> (r: Result<Vec<u32>, XError>)
        ensures
            r matches Err(XError::NotConnected) <==> !self.is_connected(),
    {
        let conn = self.get_connection()?;
        match query_children(conn, window_id) {
            Ok(children) => Ok(children),
            Err(_) => Err(XError::Transport),
        }
    }

    /// Reads the hierarchy below a window into a snapshot, asking the server
    /// for the children of each window found.
    pub fn get_window_tree(&self, window_id: u32) -> (r: Result<WindowTree, XError>)
        ensures
            r matches Err(XError::NotConnected) <==> !self.is_connected(),
            r matches Ok(t) ==> t.wf() && t@[0].0 == window_id,
    {
        let _ = self.get_connection()?;
        let mut tree = WindowTree::new(window_id);
        let mut i: usize = 0;
        while i < tree.len()
            invariant
                tree.wf(),
                tree@[0].0 == window_id,
                i <= tree@.len(),
                self.is_connected(),
            decreases usize::MAX - i,
        {
            let children = match self.get_window_children(tree.window_at(i)) {
                Ok(children) => children,
                Err(e) => {
                    return Err(e);
                },
            };
            let mut k: usize = 0;
            while k < children.len()
                invariant
                    tree.wf(),
                    tree@[0].0 == window_id,
                    i < tree@.len(),
                    k <= children@.len(),
                decreases children@.len() - k,
            {
                tree.add_child(i, children[k]);
                k = k + 1;
            }
            i = i + 1;
        }
        Ok(tree)
    }

    /// Every window below the given one: each child is followed by the windows
    /// below it, siblings in the order the server lists them.
    pub fn get_all_windows(&self, window_id: u32) -> (r: Result<Vec<u32>, XError>)
        ensures
            r matches Err(XError::NotConnected) <==> !self.is_connected(),
            r matches Ok(v) ==> exists|t: TreeView|
                tree_wf(t) && t[0].0 == window_id && v@ == descendants_of(t, 0),
    {
        let tree = self.get_window_tree(window_id)?;
        Ok(tree.descendants())
    }

    /// Whether the window has the property set.
    pub fn has_xprop(&self, window_id: u32, key: GamescopeAtom) -> (r: Result<bool, XError>)
        ensures
            r matches Err(XError::NotConnected) <==> !self.is_connected(),
    {
        let conn = self.get_connection()?;
        x11::has_property(conn, window_id, key.as_str())
    }

    /// The value of a property of the window; `None` when it is not set.
    pub fn get_xprop(&self, window_id: u32, key: GamescopeAtom) -> (r: Result<
        Option<Vec<u32>>,
        XError,
    >)
        ensures
            r matches Err(XError::NotConnected) <==> !self.is_connected(),
            r matches Ok(Some(v)) ==> v@.len() > 0,
    {
        let conn = self.get_connection()?;
        x11::get_property(conn, window_id, key.as_str())
    }

    /// The first value of a property of the window; `None` when it is not set.
    pub fn get_one_xprop(&self, window_id: u32, key: GamescopeAtom) -> (r: Result<
        Option<u32>,
        XError,
    >)
        ensures
            r matches Err(XError::NotConnected) <==> !self.is_connected(),
    {
        let value = self.get_xprop(window_id, key)?;
        Ok(first_value(value))
    }

    /// Replaces the value of a property of the window.
    pub fn set_xprop(&self, window_id: u32, key: GamescopeAtom, values: Vec<u32>) -> (r: Result<
        (),
        XError,
    >)
        ensures
            r matches Err(XError::NotConnected) <==> !self.is_connected(),
    {
        let conn = self.get_connection()?;
        x11::set_property(conn, window_id, key.as_str(), values)
    }

    /// Deletes a property of the window; deleting an unset one is no error.
    pub fn remove_xprop(&self, window_id: u32, key: GamescopeAtom) -> (r: Result<(), XError>)
        ensures
            r matches Err(XError::NotConnected) <==> !self.is_connected(),
    {
        let conn = self.get_connection()?;
        x11::remove_property(conn, window_id, key.as_str())
    }

    /// The process id the window declares in `_NET_WM_PID`.
    pub fn get_window_pid(&self, window_id: u32) -> (r: Result<Option<u32>, XError>)
        ensures
            r matches Err(XError::NotConnected) <==> !self.is_connected(),
    {
        self.get_one_xprop(window_id, GamescopeAtom::NetWmPID)
    }

    /// The app id set on the window.
    pub fn get_app_id(&self, window_id: u32) -> (r: Result<Option<u32>, XError>)
        ensures
            r matches Err(XError::NotConnected) <==> !self.is_connected(),
    {
        self.get_one_xprop(window_id, GamescopeAtom::SteamGame)
    }

    /// Sets the app id of the window.
    pub fn set_app_id(&self, window_id: u32, app_id: u32) -> (r: Result<(), XError>)
        ensures
            r matches Err(XError::NotConnected) <==> !self.is_connected(),
    {
        self.set_xprop(window_id, GamescopeAtom::SteamGame, vec![app_id])
    }

    /// Makes one write of the primary control surface: the window, property
    /// and value that `control_write` gives for it.
    pub fn apply_control(&self, op: Control) -> (r: Result<(), XError>)
        ensures
            r matches Err(XError::NotConnected) <==> !self.is_connected(),
    {
        let write = control_write(op, self.root_window_id);
        self.set_xprop(write.window, write.key, write.values)
    }

    /// Whether the window has an app id set.
    pub fn has_app_id(&self, window_id: u32) -> (r: Result<bool, XError>)
        ensures
            r matches Err(XError::NotConnected) <==> !self.is_connected(),
    {
        self.has_xprop(window_id, GamescopeAtom::SteamGame)
    }
}

/// The control surface of the primary compositor session: each operation
/// reads or writes one compositor property with a fixed encoding.
pub trait Primary {
    /// Whether the session has a connection.
    spec fn primary_connected(&self) -> bool;

    /// Returns the app ids the compositor lists as focusable.
    fn get_focusable_apps(&self) -> (r: Result<Option<Vec<u32>>, XError>)
        ensures
            r matches Err(XError::NotConnected) <==> !self.primary_connected(),
            r matches Ok(Some(v)) ==> v@.len() > 0,
        ;

    /// Whether the given id is among the focusable apps; false when none are listed.
    fn is_focusable_app(&self, window_id: u32) -> (r: Result<bool, XError>)
        ensures
            r matches Err(XError::NotConnected) <==> !self.primary_connected(),
        ;

    /// Returns the windows the compositor lists as focusable.
    fn get_focusable_windows(&self) -> (r: Result<Option<Vec<u32>>, XError>)
        ensures
            r matches Err(XError::NotConnected) <==> !self.primary_connected(),
            r matches Ok(Some(v)) ==> v@.len() > 0,
        ;

    /// Returns the names of the focusable windows, in their order; windows
    /// without a name are left out, and a failed name lookup is an error.
    fn get_focusable_window_names(&self) -> (r: Result<Vec<String>, XError>)
        ensures
            r matches Err(XError::NotConnected) <==> !self.primary_connected(),
            r matches Ok(v) ==> exists|lookups: Seq<Option<Seq<char>>>|
                v@.map_values(|s: String| s@) == #[trigger] present_names(lookups),
        ;

    /// Returns the focused window.
    fn get_focused_window(&self) -> (r: Result<Option<u32>, XError>)
        ensures
            r matches Err(XError::NotConnected) <==> !self.primary_connected(),
        ;

    /// Returns the focused app id.
    fn get_focused_app(&self) -> (r: Result<Option<u32>, XError>)
        ensures
            r matches Err(XError::NotConnected) <==> !self.primary_connected(),
        ;

    /// Returns the app id whose graphics are focused.
    fn get_focused_app_gfx(&self) -> (r: Result<Option<u32>, XError>)
        ensures
            r matches Err(XError::NotConnected) <==> !self.primary_connected(),
        ;

    /// Marks the window as the main launcher app, by giving it the overlay's app id.
    fn set_main_app(&self, window_id: u32) -> (r: Result<(), XError>)
        ensures
            r matches Err(XError::NotConnected) <==> !self.primary_connected(),
        ;

    /// Sets the overlay input-focus flag of the window; 1 while the overlay takes input from a game.
    fn set_input_focus(&self, window_id: u32, value: u32) -> (r: Result<(), XError>)
        ensures
            r matches Err(XError::NotConnected) <==> !self.primary_connected(),
        ;

    /// Whether the focused app is the overlay.
    fn is_overlay_focused(&self) -> (r: Result<bool, XError>)
        ensures
            r matches Err(XError::NotConnected) <==> !self.primary_connected(),
        ;

    /// Returns the overlay flag of the window.
    fn get_overlay(&self, window_id: u32) -> (r: Result<Option<u32>, XError>)
        ensures
            r matches Err(XError::NotConnected) <==> !self.primary_connected(),
        ;

    /// Sets the overlay flag of the window.
    fn set_overlay(&self, window_id: u32, value: u32) -> (r: Result<(), XError>)
        ensures
            r matches Err(XError::NotConnected) <==> !self.primary_connected(),
        ;

    /// Sets the notification flag of the window: shown without taking input.
    fn set_notification(&self, window_id: u32, value: u32) -> (r: Result<(), XError>)
        ensures
            r matches Err(XError::NotConnected) <==> !self.primary_connected(),
        ;

    /// Sets the external-overlay flag of the window.
    fn set_external_overlay(&self, window_id: u32, value: u32) -> (r: Result<(), XError>)
        ensures
            r matches Err(XError::NotConnected) <==> !self.primary_connected(),
        ;

    /// Sets the frame-rate limit.
    fn set_fps_limit(&self, fps: u32) -> (r: Result<(), XError>)
        ensures
            r matches Err(XError::NotConnected) <==> !self.primary_connected(),
        ;

    /// Returns the frame-rate limit.
    fn get_fps_limit(&self) -> (r: Result<Option<u32>, XError>)
        ensures
            r matches Err(XError::NotConnected) <==> !self.primary_connected(),
        ;

    /// Sets the blur mode: the write `control_write` gives for `Control::Blur`.
    fn set_blur_mode(&self, mode: BlurMode) -> (r: Result<(), XError>)
        ensures
            r matches Err(XError::NotConnected) <==> !self.primary_connected(),
        ;

    /// Returns the blur mode; none when unset or unknown.
    fn get_blur_mode(&self) -> (r: Result<Option<BlurMode>, XError>)
        ensures
            r matches Err(XError::NotConnected) <==> !self.primary_connected(),
        ;

    /// Sets the blur radius used while blur is on.
    fn set_blur_radius(&self, radius: u32) -> (r: Result<(), XError>)
        ensures
            r matches Err(XError::NotConnected) <==> !self.primary_connected(),
        ;

    /// Allows tearing or not.
    fn set_allow_tearing(&self, allow: bool) -> (r: Result<(), XError>)
        ensures
            r matches Err(XError::NotConnected) <==> !self.primary_connected(),
        ;

    /// Returns the window focused by hand, if any.
    fn get_baselayer_window(&self) -> (r: Result<Option<u32>, XError>)
        ensures
            r matches Err(XError::NotConnected) <==> !self.primary_connected(),
        ;

    /// Focuses the given window by hand.
    fn set_baselayer_window(&self, window_id: u32) -> (r: Result<(), XError>)
        ensures
            r matches Err(XError::NotConnected) <==> !self.primary_connected(),
        ;

    /// Removes the window focused by hand.
    fn remove_baselayer_window(&self) -> (r: Result<(), XError>)
        ensures
            r matches Err(XError::NotConnected) <==> !self.primary_connected(),
        ;

    /// Asks the compositor for a screenshot.
    fn request_screenshot(&self) -> (r: Result<(), XError>)
        ensures
            r matches Err(XError::NotConnected) <==> !self.primary_connected(),
        ;
}

impl Primary for XWayland {
    open spec fn primary_connected(&self) -> bool {
        self.is_connected()
    }

    fn get_focusable_apps(&self) -> (r: Result<Option<Vec<u32>>, XError>) {
        self.get_xprop(self.root_window_id, GamescopeAtom::FocusableApps)
    }

    fn is_focusable_app(&self, window_id: u32) -> (r: Result<bool, XError>) {
        let focusable = self.get_focusable_apps()?;
        Ok(list_contains(&focusable, window_id))
    }

    fn get_focusable_windows(&self) -> (r: Result<Option<Vec<u32>>, XError>) {
        self.get_xprop(self.root_window_id, GamescopeAtom::FocusableWindows)
    }

    fn get_focusable_window_names(&self) -> (r: Result<Vec<String>, XError>) {
        let focusable_windows = match self.get_focusable_windows()? {
            Some(windows) => windows,
            None => Vec::new(),
        };
        let mut lookups: Vec<Option<String>> = Vec::new();
        let mut i: usize = 0;
        while i < focusable_windows.len()
            invariant
                i <= focusable_windows@.len(),
                lookups@.len() == i,
                self.is_connected(),
            decreases focusable_windows@.len() - i,
        {
            lookups.push(self.get_window_name(focusable_windows[i])?);
            i = i + 1;
        }
        let names = keep_present_names(&lookups);
        assert(names@.map_values(|s: String| s@) == present_names(
            lookups@.map_values(|o: Option<String>| opt_string_view(o)),
        ));
        Ok(names)
    }

    fn get_focused_window(&self) -> (r: Result<Option<u32>, XError>) {
        self.get_one_xprop(self.root_window_id, GamescopeAtom::FocusedWindow)
    }

    fn get_focused_app(&self) -> (r: Result<Option<u32>, XError>) {
        self.get_one_xprop(self.root_window_id, GamescopeAtom::FocusedApp)
    }

    fn get_focused_app_gfx(&self) -> (r: Result<Option<u32>, XError>) {
        self.get_one_xprop(self.root_window_id, GamescopeAtom::FocusedAppGFX)
    }

    fn set_main_app(&self, window_id: u32) -> (r: Result<(), XError>) {
        self.apply_control(Control::MainApp(window_id))
    }

    fn set_input_focus(&self, window_id: u32, value: u32) -> (r: Result<(), XError>) {
        self.apply_control(Control::InputFocus(window_id, value))
    }

    fn is_overlay_focused(&self) -> (r: Result<bool, XError>) {
        let focused_app = self.get_focused_app()?;
        Ok(is_overlay_app(focused_app))
    }

    fn get_overlay(&self, window_id: u32) -> (r: Result<Option<u32>, XError>) {
        self.get_one_xprop(window_id, GamescopeAtom::SteamOverlay)
    }

    fn set_overlay(&self, window_id: u32, value: u32) -> (r: Result<(), XError>) {
        self.apply_control(Control::Overlay(window_id, value))
    }

    fn set_notification(&self, window_id: u32, value: u32) -> (r: Result<(), XError>) {
        self.apply_control(Control::Notification(window_id, value))
    }

    fn set_external_overlay(&self, window_id: u32, value: u32) -> (r: Result<(), XError>) {
        self.apply_control(Control::ExternalOverlay(window_id, value))
    }

    fn set_fps_limit(&self, fps: u32) -> (r: Result<(), XError>) {
        self.apply_control(Control::FpsLimit(fps))
    }

    fn get_fps_limit(&self) -> (r: Result<Option<u32>, XError>) {
        self.get_one_xprop(self.root_window_id, GamescopeAtom::FPSLimit)
    }

    fn set_blur_mode(&self, mode: BlurMode) -> (r: Result<(), XError>) {
        self.apply_control(Control::Blur(mode))
    }

    fn get_blur_mode(&self) -> (r: Result<Option<BlurMode>, XError>) {
        let value = self.get_one_xprop(self.root_window_id, GamescopeAtom::BlurMode)?;
        Ok(blur_mode_from_value(value))
    }

    fn set_blur_radius(&self, radius: u32) -> (r: Result<(), XError>) {
        self.apply_control(Control::BlurRadius(radius))
    }

    fn set_allow_tearing(&self, allow: bool) -> (r: Result<(), XError>) {
        self.apply_control(Control::AllowTearing(allow))
    }

    fn get_baselayer_window(&self) -> (r: Result<Option<u32>, XError>) {
        self.get_one_xprop(self.root_window_id, GamescopeAtom::BaselayerWindow)
    }

    fn set_baselayer_window(&self, window_id: u32) -> (r: Result<(), XError>) {
        self.apply_control(Control::BaselayerWindow(window_id))
    }

    fn remove_baselayer_window(&self) -> (r: Result<(), XError>) {
        self.remove_xprop(self.root_window_id, GamescopeAtom::BaselayerWindow)
    }

    fn request_screenshot(&self) -> (r: Result<(), XError>) {
        self.apply_control(Control::Screenshot)
    }
}

} // verus!
