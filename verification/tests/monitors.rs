use wallmgr::monitors::{parse_monitor_line, parse_swww_line, parse_swww_monitors,
    parse_xrandr_monitors};

#[test]
fn xrandr_line_parses_exactly() {
    let m = parse_monitor_line("eDP-1 connected primary 1920x1080+0+0 (normal) 310mm x 170mm")
        .unwrap();
    assert_eq!(m.name, "eDP-1");
    assert_eq!(m.width, 1920);
    assert_eq!(m.height, 1080);
    assert_eq!(m.x, 0);
    assert_eq!(m.y, 0);
    assert!(m.primary);
}

#[test]
fn line_without_connected_yields_no_monitor() {
    assert!(parse_monitor_line("HDMI-1 disconnected (normal left inverted)").is_none());
    assert!(parse_monitor_line("Screen 0: minimum 320 x 200").is_none());
}

#[test]
fn secondary_monitor_with_offsets() {
    let m = parse_monitor_line("HDMI-1 connected 2560x1440+1920+0 (normal) 600mm x 340mm")
        .unwrap();
    assert_eq!(m.name, "HDMI-1");
    assert_eq!(m.width, 2560);
    assert_eq!(m.height, 1440);
    assert_eq!(m.x, 1920);
    assert_eq!(m.y, 0);
    assert!(!m.primary);
}

#[test]
fn negative_offsets_parse() {
    let m = parse_monitor_line("DP-2 connected 1280x1024+-1280+-24 (normal)").unwrap();
    assert_eq!(m.x, -1280);
    assert_eq!(m.y, -24);
}

#[test]
fn connected_line_without_geometry_is_skipped() {
    // " connected" but no token holding both 'x' and '+'.
    assert!(parse_monitor_line("eDP-1 connected (normal left inverted right)").is_none());
    // Too few tokens.
    assert!(parse_monitor_line("eDP-1 connected").is_none());
}

#[test]
fn unparseable_resolution_is_skipped() {
    assert!(parse_monitor_line("eDP-1 connected primary axbx+0+0 (normal)").is_none());
}

#[test]
fn unparseable_coordinates_default_to_zero() {
    let m = parse_monitor_line("eDP-1 connected primary 1920x1080+z+q (normal)").unwrap();
    assert_eq!(m.x, 0);
    assert_eq!(m.y, 0);
}

#[test]
fn whole_xrandr_output_keeps_order_and_skips_noise() {
    let text = "Screen 0: minimum 320 x 200, current 4480 x 1440, maximum 16384 x 16384\n\
                eDP-1 connected primary 1920x1080+0+360 (normal left inverted) 310mm x 170mm\n\
                   1920x1080     60.01*+  59.97\n\
                HDMI-1 connected 2560x1440+1920+0 (normal left inverted) 600mm x 340mm\n\
                DP-1 disconnected (normal left inverted)\n";
    let monitors = parse_xrandr_monitors(text);
    assert_eq!(monitors.len(), 2);
    assert_eq!(monitors[0].name, "eDP-1");
    assert_eq!(monitors[0].y, 360);
    assert_eq!(monitors[1].name, "HDMI-1");
    assert_eq!(monitors[1].x, 1920);
}

#[test]
fn swww_line_parses_name_and_resolution() {
    let m = parse_swww_line("eDP-1: 1920x1080", 0).unwrap();
    assert_eq!(m.name, "eDP-1");
    assert_eq!(m.width, 1920);
    assert_eq!(m.height, 1080);
    assert_eq!(m.x, 0);
    assert_eq!(m.y, 0);
    assert!(m.primary);
}

#[test]
fn swww_monitors_lay_offsets_side_by_side() {
    let monitors = parse_swww_monitors("eDP-1: 1920x1080\nHDMI-1: 2560x1440\n");
    assert_eq!(monitors.len(), 2);
    assert!(monitors[0].primary);
    assert_eq!(monitors[0].x, 0);
    assert!(!monitors[1].primary);
    assert_eq!(monitors[1].x, 2560);
    assert_eq!(monitors[1].y, 0);
}

#[test]
fn swww_garbage_lines_are_skipped() {
    let monitors = parse_swww_monitors("no separator here\neDP-1: 1920x1080\n");
    assert_eq!(monitors.len(), 1);
    assert_eq!(monitors[0].name, "eDP-1");
    // The skipped line still consumed index 0, so this one is not
    // primary and sits at x = 1 * width.
    assert!(!monitors[0].primary);
    assert_eq!(monitors[0].x, 1920);
}
