use wallmgr::adapter::Adapter;
use wallmgr::detector::{DesktopEnvironment, Environment, ToolSet};
use wallmgr::selector::select_adapter;

#[test]
fn gnome_outranks_wayland_and_swww() {
    let mut tools = ToolSet::default();
    tools.gsettings = true;
    tools.swww = true;
    let r = select_adapter(Some(Environment::Wayland), DesktopEnvironment::Gnome, &tools);
    assert!(matches!(r, Some(Adapter::Gnome(_))));
}

#[test]
fn desktop_adapters_need_their_own_tool() {
    let mut tools = ToolSet::default();
    tools.swww = true;
    // GNOME detected but gsettings missing: fall through to swww.
    let r = select_adapter(Some(Environment::Wayland), DesktopEnvironment::Gnome, &tools);
    assert!(matches!(r, Some(Adapter::Swww(_))));
}

#[test]
fn kde_and_xfce_selected_on_their_tools() {
    let mut tools = ToolSet::default();
    tools.qdbus = true;
    let r = select_adapter(None, DesktopEnvironment::Kde, &tools);
    assert!(matches!(r, Some(Adapter::Kde(_))));
    let mut tools = ToolSet::default();
    tools.xfconf_query = true;
    let r = select_adapter(None, DesktopEnvironment::Xfce, &tools);
    assert!(matches!(r, Some(Adapter::Xfce(_))));
}

#[test]
fn wayland_order_is_swww_hyprpaper_swaybg() {
    let mut tools = ToolSet::default();
    tools.swww = true;
    tools.hyprpaper = true;
    tools.swaybg = true;
    let env = Some(Environment::Wayland);
    let r = select_adapter(env, DesktopEnvironment::Hyprland, &tools);
    assert!(matches!(r, Some(Adapter::Swww(_))));
    tools.swww = false;
    let r = select_adapter(env, DesktopEnvironment::Hyprland, &tools);
    assert!(matches!(r, Some(Adapter::Hyprpaper(_))));
    tools.hyprpaper = false;
    let r = select_adapter(env, DesktopEnvironment::Hyprland, &tools);
    assert!(matches!(r, Some(Adapter::Swaybg(_))));
}

#[test]
fn x11_order_is_nitrogen_feh_xwallpaper() {
    let mut tools = ToolSet::default();
    tools.nitrogen = true;
    tools.feh = true;
    tools.xwallpaper = true;
    let r = select_adapter(Some(Environment::X11), DesktopEnvironment::Unknown, &tools);
    assert!(matches!(r, Some(Adapter::Nitrogen(_))));
    tools.nitrogen = false;
    let r = select_adapter(Some(Environment::X11), DesktopEnvironment::Unknown, &tools);
    assert!(matches!(r, Some(Adapter::Feh(_))));
    tools.feh = false;
    let r = select_adapter(Some(Environment::X11), DesktopEnvironment::Unknown, &tools);
    assert!(matches!(r, Some(Adapter::XWallpaper(_))));
}

#[test]
fn wayland_tools_are_skipped_outside_wayland() {
    let mut tools = ToolSet::default();
    tools.swww = true;
    tools.feh = true;
    let r = select_adapter(Some(Environment::X11), DesktopEnvironment::Unknown, &tools);
    assert!(matches!(r, Some(Adapter::Feh(_))));
    let r = select_adapter(None, DesktopEnvironment::Unknown, &tools);
    assert!(matches!(r, Some(Adapter::Feh(_))));
}

#[test]
fn wayland_without_wayland_tools_selects_none() {
    // On Wayland the X11 fallbacks never apply: with none of
    // swww/hyprpaper/swaybg installed, no adapter is chosen even
    // when X11 tools are present.
    let mut tools = ToolSet::default();
    tools.feh = true;
    tools.nitrogen = true;
    tools.xwallpaper = true;
    let r = select_adapter(Some(Environment::Wayland), DesktopEnvironment::Unknown, &tools);
    assert!(r.is_none());
}

#[test]
fn nothing_installed_selects_no_adapter() {
    let tools = ToolSet::default();
    assert!(select_adapter(None, DesktopEnvironment::Unknown, &tools).is_none());
    assert!(
        select_adapter(Some(Environment::Wayland), DesktopEnvironment::Gnome, &tools).is_none()
    );
}

#[test]
fn selected_adapter_names() {
    let mut tools = ToolSet::default();
    tools.gsettings = true;
    let a = select_adapter(None, DesktopEnvironment::Gnome, &tools).unwrap();
    assert_eq!(a.name(), "gnome");
    assert_eq!(a.get_trait().name(), "gnome");
}
