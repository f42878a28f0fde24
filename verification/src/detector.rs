//! Classification of the display server and desktop environment from
//! session state handed in by the caller: environment-variable values
//! and which compositor processes are running.

use vstd::prelude::*;
use crate::text::{lower_seq, has_sub, eq_lower, contains_sub_lower};

verus! {

/// The display server of the current session.
#[derive(Clone, Copy, Debug, PartialEq, Eq, Structural)]
pub enum Environment {
    X11,
    Wayland,
}

/// The desktop environment or compositor of the current session.
#[derive(Clone, Copy, Debug, PartialEq, Eq, Structural)]
pub enum DesktopEnvironment {
    Gnome,
    Kde,
    Xfce,
    LxQt,
    Cinnamon,
    Mate,
    Hyprland,
    Sway,
    I3,
    Niri,
    Openbox,
    Unknown,
}

/// A snapshot of the session signals the detector reads.  The caller
/// fills it from the process environment and the process table; the
/// classification itself is pure.
#[derive(Clone, Debug)]
pub struct EnvProbe {
    /// Value of the session-type variable (`XDG_SESSION_TYPE`), if set.
    pub session_type: Option<String>,
    /// Whether the Wayland display variable (`WAYLAND_DISPLAY`) is set.
    pub wayland_display: bool,
    /// Whether the X11 display variable (`DISPLAY`) is set.
    pub display: bool,
    /// Value of the current-desktop variable (`XDG_CURRENT_DESKTOP`), if set.
    pub current_desktop: Option<String>,
    /// Whether `HYPRLAND_INSTANCE_SIGNATURE` is set.
    pub hyprland_instance_signature: bool,
    /// Whether `SWAYSOCK` is set.
    pub swaysock: bool,
    /// Whether `I3SOCK` is set.
    pub i3sock: bool,
    /// Whether a process named `hyprland` is running.
    pub running_hyprland: bool,
    /// Whether a process named `sway` is running.
    pub running_sway: bool,
    /// Whether a process named `i3` is running.
    pub running_i3: bool,
    /// Whether a process named `niri` is running.
    pub running_niri: bool,
    /// Whether a process named `openbox` is running.
    pub running_openbox: bool,
}

/// Display-server classification when the session-type variable is
/// absent or holds neither `wayland` nor `x11`.
pub open spec fn spec_environment_fallback(p: EnvProbe) -> Option<Environment> {
    if p.wayland_display {
        Some(Environment::Wayland)
    } else if p.display {
        Some(Environment::X11)
    } else {
        None
    }
}

/// The full display-server classification chain: the session-type
/// variable decides when it holds `wayland` or `x11` (any case), then
/// the display variables, then nothing.
pub open spec fn spec_detect_environment(p: EnvProbe) -> Option<Environment> {
    match p.session_type {
        Some(t) => if lower_seq(t@) == "wayland"@ {
            Some(Environment::Wayland)
        } else if lower_seq(t@) == "x11"@ {
            Some(Environment::X11)
        } else {
            spec_environment_fallback(p)
        },
        None => spec_environment_fallback(p),
    }
}

/// Classify the display server; absence of every signal yields `None`,
/// never an error.
pub fn detect_environment(p: &EnvProbe) -> (r: Option<Environment>)
    ensures
        r == spec_detect_environment(*p),
{
    match &p.session_type {
        Some(t) => {
            if eq_lower(t.as_str(), "wayland") {
                return Some(Environment::Wayland);
            }
            if eq_lower(t.as_str(), "x11") {
                return Some(Environment::X11);
            }
        },
        None => {},
    }
    if p.wayland_display {
        return Some(Environment::Wayland);
    }
    if p.display {
        return Some(Environment::X11);
    }
    None
}

/// Desktop-environment classification when the current-desktop
/// variable names no known desktop: compositor variables first, then
/// the process table, then `Unknown`.
pub open spec fn spec_desktop_fallback(p: EnvProbe) -> DesktopEnvironment {
    if p.hyprland_instance_signature {
        DesktopEnvironment::Hyprland
    } else if p.swaysock {
        DesktopEnvironment::Sway
    } else if p.i3sock {
        DesktopEnvironment::I3
    } else if p.running_hyprland {
        DesktopEnvironment::Hyprland
    } else if p.running_sway {
        DesktopEnvironment::Sway
    } else if p.running_i3 {
        DesktopEnvironment::I3
    } else if p.running_niri {
        DesktopEnvironment::Niri
    } else if p.running_openbox {
        DesktopEnvironment::Openbox
    } else {
        DesktopEnvironment::Unknown
    }
}

/// The full desktop-environment classification chain: the
/// current-desktop variable is matched case-insensitively by substring
/// against the known desktop names, in a fixed order.
pub open spec fn spec_detect_desktop_environment(p: EnvProbe) -> DesktopEnvironment {
    match p.current_desktop {
        Some(d) => {
            let dl = lower_seq(d@);
            if has_sub(dl, "gnome"@) {
                DesktopEnvironment::Gnome
            } else if has_sub(dl, "kde"@) {
                DesktopEnvironment::Kde
            } else if has_sub(dl, "xfce"@) {
                DesktopEnvironment::Xfce
            } else if has_sub(dl, "lxqt"@) {
                DesktopEnvironment::LxQt
            } else if has_sub(dl, "cinnamon"@) {
                DesktopEnvironment::Cinnamon
            } else if has_sub(dl, "mate"@) {
                DesktopEnvironment::Mate
            } else {
                spec_desktop_fallback(p)
            }
        },
        None => spec_desktop_fallback(p),
    }
}

/// Classify the desktop environment; every missing signal falls
/// through to the next one, ending at `Unknown`.
pub fn detect_desktop_environment(p: &EnvProbe) -> (r: DesktopEnvironment)
    ensures
        r == spec_detect_desktop_environment(*p),
{
    match &p.current_desktop {
        Some(d) => {
            if contains_sub_lower(d.as_str(), "gnome") {
                return DesktopEnvironment::Gnome;
            }
            if contains_sub_lower(d.as_str(), "kde") {
                return DesktopEnvironment::Kde;
            }
            if contains_sub_lower(d.as_str(), "xfce") {
                return DesktopEnvironment::Xfce;
            }
            if contains_sub_lower(d.as_str(), "lxqt") {
                return DesktopEnvironment::LxQt;
            }
            if contains_sub_lower(d.as_str(), "cinnamon") {
                return DesktopEnvironment::Cinnamon;
            }
            if contains_sub_lower(d.as_str(), "mate") {
                return DesktopEnvironment::Mate;
            }
        },
        None => {},
    }
    if p.hyprland_instance_signature {
        return DesktopEnvironment::Hyprland;
    }
    if p.swaysock {
        return DesktopEnvironment::Sway;
    }
    if p.i3sock {
        return DesktopEnvironment::I3;
    }
    if p.running_hyprland {
        return DesktopEnvironment::Hyprland;
    }
    if p.running_sway {
        return DesktopEnvironment::Sway;
    }
    if p.running_i3 {
        return DesktopEnvironment::I3;
    }
    if p.running_niri {
        return DesktopEnvironment::Niri;
    }
    if p.running_openbox {
        return DesktopEnvironment::Openbox;
    }
    DesktopEnvironment::Unknown
}

/// Which external wallpaper tools are installed, as probed once by the
/// caller (the availability check itself spawns a process and so lives
/// outside this crate).
#[derive(Clone, Copy, Debug, PartialEq, Eq, Structural, Default)]
pub struct ToolSet {
    pub feh: bool,
    pub nitrogen: bool,
    pub xwallpaper: bool,
    pub swww: bool,
    pub hyprpaper: bool,
    pub hyprctl: bool,
    pub swaybg: bool,
    pub swaymsg: bool,
    pub gsettings: bool,
    pub qdbus: bool,
    pub qdbus_qt5: bool,
    pub xfconf_query: bool,
    pub xrandr: bool,
    pub mpv: bool,
}

} // verus!
