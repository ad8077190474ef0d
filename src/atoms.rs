//! The fixed vocabulary of compositor window properties.

use vstd::prelude::*;

verus! {

/// A symbolic property name, each bound to exactly one wire identifier.
#[derive(Debug, Clone, Copy, PartialEq, Eq, Structural)]
pub enum GamescopeAtom {
    NetWmPID,
    Steam,
    InputCounter,
    FocusedApp,
    FocusedAppGFX,
    FocusedWindow,
    FocusableApps,
    FocusableWindows,
    FocusDisplay,
    KeyboardFocusDisplay,
    CursorVisibleFeedback,
    ExternalOverlay,
    FPSLimit,
    BlurMode,
    BlurRadius,
    AllowTearing,
    ModeControl,
    XwaylandServerId,
    BaselayerWindow,
    BaselayerAppId,
    RequestScreenshot,
    DebugRequestScreenshot,
    SteamGame,
    SteamInputFocus,
    SteamOverlay,
    SteamNotification,
    SteamStreamingClient,
    SteamStreamingClientVideo,
}

/// The wire identifier of each key.
pub open spec fn atom_name(k: GamescopeAtom) -> Seq<char> {
    match k {
        GamescopeAtom::NetWmPID => "_NET_WM_PID"@,
        GamescopeAtom::Steam => "STEAM_BIGPICTURE"@,
        GamescopeAtom::InputCounter => "GAMESCOPE_INPUT_COUNTER"@,
        GamescopeAtom::FocusedApp => "GAMESCOPE_FOCUSED_APP"@,
        GamescopeAtom::FocusedAppGFX => "GAMESCOPE_FOCUSED_APP_GFX"@,
        GamescopeAtom::FocusedWindow => "GAMESCOPE_FOCUSED_WINDOW"@,
        GamescopeAtom::FocusableApps => "GAMESCOPE_FOCUSABLE_APPS"@,
        GamescopeAtom::FocusableWindows => "GAMESCOPE_FOCUSABLE_WINDOWS"@,
        GamescopeAtom::FocusDisplay => "GAMESCOPE_FOCUS_DISPLAY"@,
        GamescopeAtom::KeyboardFocusDisplay => "GAMESCOPE_KEYBOARD_FOCUS_DISPLAY"@,
        GamescopeAtom::CursorVisibleFeedback => "GAMESCOPE_CURSOR_VISIBLE_FEEDBACK"@,
        GamescopeAtom::ExternalOverlay => "GAMESCOPE_EXTERNAL_OVERLAY"@,
        GamescopeAtom::FPSLimit => "GAMESCOPE_FPS_LIMIT"@,
        GamescopeAtom::BlurMode => "GAMESCOPE_BLUR_MODE"@,
        GamescopeAtom::BlurRadius => "GAMESCOPE_BLUR_RADIUS"@,
        GamescopeAtom::AllowTearing => "GAMESCOPE_ALLOW_TEARING"@,
        GamescopeAtom::ModeControl => "GAMESCOPE_XWAYLAND_MODE_CONTROL"@,
        GamescopeAtom::XwaylandServerId => "GAMESCOPE_XWAYLAND_SERVER_ID"@,
        GamescopeAtom::BaselayerWindow => "GAMESCOPECTRL_BASELAYER_WINDOW"@,
        GamescopeAtom::BaselayerAppId => "GAMESCOPECTRL_BASELAYER_APPID"@,
        GamescopeAtom::RequestScreenshot => "GAMESCOPECTRL_REQUEST_SCREENSHOT"@,
        GamescopeAtom::DebugRequestScreenshot => "GAMESCOPECTRL_DEBUG_REQUEST_SCREENSHOT"@,
        GamescopeAtom::SteamGame => "STEAM_GAME"@,
        GamescopeAtom::SteamInputFocus => "STEAM_INPUT_FOCUS"@,
        GamescopeAtom::SteamOverlay => "STEAM_OVERLAY"@,
        GamescopeAtom::SteamNotification => "STEAM_NOTIFICATION"@,
        GamescopeAtom::SteamStreamingClient => "STEAM_STREAMING_CLIENT"@,
        GamescopeAtom::SteamStreamingClientVideo => "STEAM_STREAMING_CLIENT_VIDEO"@,
    }
}

impl GamescopeAtom {
    /// The wire identifier of this key, as a `&str`.
    pub fn as_str(&self) -> (r: &'static str)
        ensures
            r@ == atom_name(*self),
    {
        match self {
            GamescopeAtom::NetWmPID => {
                proof { reveal_strlit("_NET_WM_PID"); }
                "_NET_WM_PID"
            },
            GamescopeAtom::Steam => {
                proof { reveal_strlit("STEAM_BIGPICTURE"); }
                "STEAM_BIGPICTURE"
            },
            GamescopeAtom::InputCounter => {
                proof { reveal_strlit("GAMESCOPE_INPUT_COUNTER"); }
                "GAMESCOPE_INPUT_COUNTER"
            },
            GamescopeAtom::FocusedApp => {
                proof { reveal_strlit("GAMESCOPE_FOCUSED_APP"); }
                "GAMESCOPE_FOCUSED_APP"
            },
            GamescopeAtom::FocusedAppGFX => {
                proof { reveal_strlit("GAMESCOPE_FOCUSED_APP_GFX"); }
                "GAMESCOPE_FOCUSED_APP_GFX"
            },
            GamescopeAtom::FocusedWindow => {
                proof { reveal_strlit("GAMESCOPE_FOCUSED_WINDOW"); }
                "GAMESCOPE_FOCUSED_WINDOW"
            },
            GamescopeAtom::FocusableApps => {
                proof { reveal_strlit("GAMESCOPE_FOCUSABLE_APPS"); }
                "GAMESCOPE_FOCUSABLE_APPS"
            },
            GamescopeAtom::FocusableWindows => {
                proof { reveal_strlit("GAMESCOPE_FOCUSABLE_WINDOWS"); }
                "GAMESCOPE_FOCUSABLE_WINDOWS"
            },
            GamescopeAtom::FocusDisplay => {
                proof { reveal_strlit("GAMESCOPE_FOCUS_DISPLAY"); }
                "GAMESCOPE_FOCUS_DISPLAY"
            },
            GamescopeAtom::KeyboardFocusDisplay => {
                proof { reveal_strlit("GAMESCOPE_KEYBOARD_FOCUS_DISPLAY"); }
                "GAMESCOPE_KEYBOARD_FOCUS_DISPLAY"
            },
            GamescopeAtom::CursorVisibleFeedback => {
                proof { reveal_strlit("GAMESCOPE_CURSOR_VISIBLE_FEEDBACK"); }
                "GAMESCOPE_CURSOR_VISIBLE_FEEDBACK"
            },
            GamescopeAtom::ExternalOverlay => {
                proof { reveal_strlit("GAMESCOPE_EXTERNAL_OVERLAY"); }
                "GAMESCOPE_EXTERNAL_OVERLAY"
            },
            GamescopeAtom::FPSLimit => {
                proof { reveal_strlit("GAMESCOPE_FPS_LIMIT"); }
                "GAMESCOPE_FPS_LIMIT"
            },
            GamescopeAtom::BlurMode => {
                proof { reveal_strlit("GAMESCOPE_BLUR_MODE"); }
                "GAMESCOPE_BLUR_MODE"
            },
            GamescopeAtom::BlurRadius => {
                proof { reveal_strlit("GAMESCOPE_BLUR_RADIUS"); }
                "GAMESCOPE_BLUR_RADIUS"
            },
            GamescopeAtom::AllowTearing => {
                proof { reveal_strlit("GAMESCOPE_ALLOW_TEARING"); }
                "GAMESCOPE_ALLOW_TEARING"
            },
            GamescopeAtom::ModeControl => {
                proof { reveal_strlit("GAMESCOPE_XWAYLAND_MODE_CONTROL"); }
                "GAMESCOPE_XWAYLAND_MODE_CONTROL"
            },
            GamescopeAtom::XwaylandServerId => {
                proof { reveal_strlit("GAMESCOPE_XWAYLAND_SERVER_ID"); }
                "GAMESCOPE_XWAYLAND_SERVER_ID"
            },
            GamescopeAtom::BaselayerWindow => {
                proof { reveal_strlit("GAMESCOPECTRL_BASELAYER_WINDOW"); }
                "GAMESCOPECTRL_BASELAYER_WINDOW"
            },
            GamescopeAtom::BaselayerAppId => {
                proof { reveal_strlit("GAMESCOPECTRL_BASELAYER_APPID"); }
                "GAMESCOPECTRL_BASELAYER_APPID"
            },
            GamescopeAtom::RequestScreenshot => {
                proof { reveal_strlit("GAMESCOPECTRL_REQUEST_SCREENSHOT"); }
                "GAMESCOPECTRL_REQUEST_SCREENSHOT"
            },
            GamescopeAtom::DebugRequestScreenshot => {
                proof { reveal_strlit("GAMESCOPECTRL_DEBUG_REQUEST_SCREENSHOT"); }
                "GAMESCOPECTRL_DEBUG_REQUEST_SCREENSHOT"
            },
            GamescopeAtom::SteamGame => {
                proof { reveal_strlit("STEAM_GAME"); }
                "STEAM_GAME"
            },
            GamescopeAtom::SteamInputFocus => {
                proof { reveal_strlit("STEAM_INPUT_FOCUS"); }
                "STEAM_INPUT_FOCUS"
            },
            GamescopeAtom::SteamOverlay => {
                proof { reveal_strlit("STEAM_OVERLAY"); }
                "STEAM_OVERLAY"
            },
            GamescopeAtom::SteamNotification => {
                proof { reveal_strlit("STEAM_NOTIFICATION"); }
                "STEAM_NOTIFICATION"
            },
            GamescopeAtom::SteamStreamingClient => {
                proof { reveal_strlit("STEAM_STREAMING_CLIENT"); }
                "STEAM_STREAMING_CLIENT"
            },
            GamescopeAtom::SteamStreamingClientVideo => {
                proof { reveal_strlit("STEAM_STREAMING_CLIENT_VIDEO"); }
                "STEAM_STREAMING_CLIENT_VIDEO"
            },
        }
    }

    /// The wire identifier of this key, as an owned `String`.
    pub fn to_string(&self) -> (r: String)
        ensures
            r@ == atom_name(*self),
    {
        self.as_str().to_owned()
    }
}

} // verus!
