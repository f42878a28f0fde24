use wallmgr::detector::{detect_desktop_environment, detect_environment, DesktopEnvironment,
    Environment, EnvProbe};

fn empty_probe() -> EnvProbe {
    EnvProbe {
        session_type: None,
        wayland_display: false,
        display: false,
        current_desktop: None,
        hyprland_instance_signature: false,
        swaysock: false,
        i3sock: false,
        running_hyprland: false,
        running_sway: false,
        running_i3: false,
        running_niri: false,
        running_openbox: false,
    }
}

#[test]
fn test_detect_environment() {
    let probe = empty_probe();
    let env = detect_environment(&probe);
    println!("Detected environment: {:?}", env);
}

#[test]
fn test_detect_de() {
    let probe = empty_probe();
    let de = detect_desktop_environment(&probe);
    println!("Detected DE: {:?}", de);
}

#[test]
fn session_type_wins_case_insensitively() {
    let mut probe = empty_probe();
    probe.session_type = Some("Wayland".to_string());
    probe.display = true;
    assert_eq!(detect_environment(&probe), Some(Environment::Wayland));
    probe.session_type = Some("X11".to_string());
    probe.wayland_display = true;
    assert_eq!(detect_environment(&probe), Some(Environment::X11));
}

#[test]
fn unknown_session_type_falls_through_to_display_vars() {
    let mut probe = empty_probe();
    probe.session_type = Some("tty".to_string());
    probe.wayland_display = true;
    assert_eq!(detect_environment(&probe), Some(Environment::Wayland));
    probe.wayland_display = false;
    probe.display = true;
    assert_eq!(detect_environment(&probe), Some(Environment::X11));
    probe.display = false;
    assert_eq!(detect_environment(&probe), None);
}

#[test]
fn absence_of_every_signal_yields_none_and_unknown() {
    let probe = empty_probe();
    assert_eq!(detect_environment(&probe), None);
    assert_eq!(detect_desktop_environment(&probe), DesktopEnvironment::Unknown);
}

#[test]
fn current_desktop_matched_by_substring() {
    let mut probe = empty_probe();
    probe.current_desktop = Some("ubuntu:GNOME".to_string());
    assert_eq!(detect_desktop_environment(&probe), DesktopEnvironment::Gnome);
    probe.current_desktop = Some("KDE".to_string());
    assert_eq!(detect_desktop_environment(&probe), DesktopEnvironment::Kde);
    probe.current_desktop = Some("XFCE".to_string());
    assert_eq!(detect_desktop_environment(&probe), DesktopEnvironment::Xfce);
    probe.current_desktop = Some("LXQt".to_string());
    assert_eq!(detect_desktop_environment(&probe), DesktopEnvironment::LxQt);
    probe.current_desktop = Some("X-Cinnamon".to_string());
    assert_eq!(detect_desktop_environment(&probe), DesktopEnvironment::Cinnamon);
    probe.current_desktop = Some("MATE".to_string());
    assert_eq!(detect_desktop_environment(&probe), DesktopEnvironment::Mate);
}

#[test]
fn compositor_variables_outrank_process_table() {
    let mut probe = empty_probe();
    probe.running_openbox = true;
    assert_eq!(detect_desktop_environment(&probe), DesktopEnvironment::Openbox);
    probe.running_niri = true;
    assert_eq!(detect_desktop_environment(&probe), DesktopEnvironment::Niri);
    probe.running_i3 = true;
    assert_eq!(detect_desktop_environment(&probe), DesktopEnvironment::I3);
    probe.running_sway = true;
    assert_eq!(detect_desktop_environment(&probe), DesktopEnvironment::Sway);
    probe.running_hyprland = true;
    assert_eq!(detect_desktop_environment(&probe), DesktopEnvironment::Hyprland);
    probe.i3sock = true;
    assert_eq!(detect_desktop_environment(&probe), DesktopEnvironment::I3);
    probe.swaysock = true;
    assert_eq!(detect_desktop_environment(&probe), DesktopEnvironment::Sway);
    probe.hyprland_instance_signature = true;
    assert_eq!(detect_desktop_environment(&probe), DesktopEnvironment::Hyprland);
}

#[test]
fn unmatched_desktop_name_falls_through() {
    let mut probe = empty_probe();
    probe.current_desktop = Some("Weston".to_string());
    probe.swaysock = true;
    assert_eq!(detect_desktop_environment(&probe), DesktopEnvironment::Sway);
}
