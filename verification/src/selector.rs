//! The one-time adapter choice: a fixed priority order over the
//! detected desktop environment, the display server and the installed
//! tools.  No re-selection happens later; if the chosen tool
//! disappears mid-session, later calls simply fail.

use vstd::prelude::*;
use crate::adapter::Adapter;
use crate::detector::{DesktopEnvironment, Environment, ToolSet};

verus! {

/// The full priority order: desktop-specific adapters first (GNOME,
/// KDE, XFCE, each behind its own tool); on Wayland the Wayland
/// adapters (swww, hyprpaper, swaybg) and nothing else; on X11 or an
/// unknown display server the X11 fallbacks (nitrogen, feh,
/// xwallpaper); else nothing.
pub open spec fn spec_select_adapter(
    env: Option<Environment>,
    de: DesktopEnvironment,
    tools: ToolSet,
) -> Option<Adapter> {
    if de == DesktopEnvironment::Gnome && tools.gsettings {
        Some(Adapter::Gnome(crate::desktop::GnomeAdapter))
    } else if de == DesktopEnvironment::Kde && tools.qdbus {
        Some(Adapter::Kde(crate::desktop::KdeAdapter))
    } else if de == DesktopEnvironment::Xfce && tools.xfconf_query {
        Some(Adapter::Xfce(crate::desktop::XfceAdapter))
    } else if env == Some(Environment::Wayland) && tools.swww {
        Some(Adapter::Swww(crate::wayland::SwwwAdapter))
    } else if env == Some(Environment::Wayland) && tools.hyprpaper {
        Some(Adapter::Hyprpaper(crate::wayland::HyprpaperAdapter))
    } else if env == Some(Environment::Wayland) && tools.swaybg {
        Some(Adapter::Swaybg(crate::wayland::SwaybgAdapter))
    } else if env != Some(Environment::Wayland) && tools.nitrogen {
        Some(Adapter::Nitrogen(crate::x11::NitrogenAdapter))
    } else if env != Some(Environment::Wayland) && tools.feh {
        Some(Adapter::Feh(crate::x11::FehAdapter))
    } else if env != Some(Environment::Wayland) && tools.xwallpaper {
        Some(Adapter::XWallpaper(crate::x11::XWallpaperAdapter))
    } else {
        None
    }
}

/// Choose the one adapter for this process, or report that none fits:
/// a terminal configuration error for wallpaper setting, not
/// something to retry.
pub fn select_adapter(
    env: Option<Environment>,
    de: DesktopEnvironment,
    tools: &ToolSet,
) -> (r: Option<Adapter>)
    ensures
        r == spec_select_adapter(env, de, *tools),
{
    match de {
        DesktopEnvironment::Gnome => {
            if tools.gsettings {
                return Some(Adapter::Gnome(crate::desktop::GnomeAdapter::new()));
            }
        },
        DesktopEnvironment::Kde => {
            if tools.qdbus {
                return Some(Adapter::Kde(crate::desktop::KdeAdapter::new()));
            }
        },
        DesktopEnvironment::Xfce => {
            if tools.xfconf_query {
                return Some(Adapter::Xfce(crate::desktop::XfceAdapter::new()));
            }
        },
        _ => {},
    }
    if env == Some(Environment::Wayland) {
        if tools.swww {
            return Some(Adapter::Swww(crate::wayland::SwwwAdapter::new()));
        }
        if tools.hyprpaper {
            return Some(Adapter::Hyprpaper(crate::wayland::HyprpaperAdapter::new()));
        }
        if tools.swaybg {
            return Some(Adapter::Swaybg(crate::wayland::SwaybgAdapter::new()));
        }
        return None;
    }
    if tools.nitrogen {
        return Some(Adapter::Nitrogen(crate::x11::NitrogenAdapter::new()));
    }
    if tools.feh {
        return Some(Adapter::Feh(crate::x11::FehAdapter::new()));
    }
    if tools.xwallpaper {
        return Some(Adapter::XWallpaper(crate::x11::XWallpaperAdapter::new()));
    }
    None
}

/// Desktop-specific adapters outrank display-server-specific ones: on
/// GNOME with gsettings installed, the GNOME adapter is chosen
/// whatever the display server says and whatever else is installed.
pub proof fn lemma_de_outranks_display_server(
    env: Option<Environment>,
    tools: ToolSet,
)
    requires
        tools.gsettings,
    ensures
        spec_select_adapter(env, DesktopEnvironment::Gnome, tools) == Some(
            Adapter::Gnome(crate::desktop::GnomeAdapter),
        ),
{
}

} // verus!
