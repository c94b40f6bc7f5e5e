//! Session-type classification: Wayland, X11 or unknown.
//!
//! `XDG_SESSION_TYPE` is the primary signal; it is empty in some login paths,
//! so the presence of `WAYLAND_DISPLAY` / `DISPLAY` is the fallback, with
//! `WAYLAND_DISPLAY` first because XWayland also sets `DISPLAY` in Wayland
//! sessions.

use vstd::prelude::*;

use crate::text::{chars_of, str_eq, string_of, trim, trim_chars};
use crate::types::SessionType;

verus! {

pub open spec fn opt_str_view(o: Option<&str>) -> Option<Seq<char>> {
    match o {
        Some(s) => Some(s@),
        None => None,
    }
}

pub open spec fn classify_spec(
    xdg_session_type: Option<Seq<char>>,
    has_wayland_display: bool,
    has_display: bool,
) -> SessionType {
    let explicit = match xdg_session_type {
        Some(s) => if trim(s) == "wayland"@ {
            Some(SessionType::Wayland)
        } else if trim(s) == "x11"@ {
            Some(SessionType::X11)
        } else {
            None
        },
        None => None,
    };
    match explicit {
        Some(t) => t,
        None => if has_wayland_display {
            SessionType::Wayland
        } else if has_display {
            SessionType::X11
        } else {
            SessionType::Unknown
        },
    }
}

impl SessionType {
    /// Classifies the session from `XDG_SESSION_TYPE` (trimmed; `wayland` or
    /// `x11` decide) and, failing that, from whether `WAYLAND_DISPLAY` and
    /// `DISPLAY` are set. Unset, empty, `tty` or any other value fall back.
    pub fn classify(xdg_session_type: Option<&str>, has_wayland_display: bool, has_display: bool) -> (t:
        SessionType)
        ensures
            t == classify_spec(opt_str_view(xdg_session_type), has_wayland_display, has_display),
    {
        match xdg_session_type {
            Some(s) => {
                let c = chars_of(s);
                let t = string_of(&trim_chars(&c));
                if str_eq(t.as_str(), "wayland") {
                    return SessionType::Wayland;
                }
                if str_eq(t.as_str(), "x11") {
                    return SessionType::X11;
                }
            },
            None => {},
        }
        if has_wayland_display {
            SessionType::Wayland
        } else if has_display {
            SessionType::X11
        } else {
            SessionType::Unknown
        }
    }
}

} // verus!
