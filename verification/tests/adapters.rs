use wallmgr::command::{CmdOutput, Step};
use wallmgr::desktop::{GnomeAdapter, KdeAdapter, XfceAdapter};
use wallmgr::detector::ToolSet;
use wallmgr::types::{DisplayMode, Error};
use wallmgr::wayland::{HyprpaperAdapter, SwaybgAdapter, SwwwAdapter};
use wallmgr::x11::{FehAdapter, NitrogenAdapter, XWallpaperAdapter};

const MODES: [DisplayMode; 5] = [
    DisplayMode::Fill,
    DisplayMode::Fit,
    DisplayMode::Stretch,
    DisplayMode::Center,
    DisplayMode::Tile,
];

fn all_tools() -> ToolSet {
    ToolSet {
        feh: true,
        nitrogen: true,
        xwallpaper: true,
        swww: true,
        hyprpaper: true,
        hyprctl: true,
        swaybg: true,
        swaymsg: true,
        gsettings: true,
        qdbus: true,
        qdbus_qt5: true,
        xfconf_query: true,
        xrandr: true,
        mpv: true,
    }
}

fn ok_output(stdout: &str) -> CmdOutput {
    CmdOutput { success: true, stdout: stdout.to_string(), stderr: String::new() }
}

/// The single Run step of a one-command plan.
fn only_run(steps: &[Step]) -> (&String, &Vec<String>) {
    assert_eq!(steps.len(), 1);
    match &steps[0] {
        Step::Run(inv) => (&inv.program, &inv.args),
        other => panic!("expected a Run step, got {:?}", other),
    }
}

#[test]
fn feh_mode_flags_match_table() {
    let tools = all_tools();
    let expected = ["--bg-fill", "--bg-max", "--bg-scale", "--bg-center", "--bg-tile"];
    for (mode, flag) in MODES.iter().zip(expected.iter()) {
        let steps = FehAdapter::new().set_wallpaper(&tools, "/w.jpg", None, *mode).unwrap();
        let (program, args) = only_run(&steps);
        assert_eq!(program, "feh");
        assert_eq!(args, &vec![flag.to_string(), "/w.jpg".to_string()]);
    }
}

#[test]
fn feh_monitor_becomes_xinerama_index() {
    let steps = FehAdapter::new()
        .set_wallpaper(&all_tools(), "/w.jpg", Some("1"), DisplayMode::Fill)
        .unwrap();
    let (_, args) = only_run(&steps);
    assert_eq!(
        args,
        &vec![
            "--bg-fill".to_string(),
            "--xinerama-index".to_string(),
            "1".to_string(),
            "/w.jpg".to_string()
        ]
    );
}

#[test]
fn nitrogen_mode_flags_match_table() {
    let tools = all_tools();
    let expected = ["--set-zoom-fill", "--set-auto", "--set-scaled", "--set-centered",
        "--set-tiled"];
    for (mode, flag) in MODES.iter().zip(expected.iter()) {
        let steps = NitrogenAdapter::new()
            .set_wallpaper(&tools, "/w.jpg", Some("ignored"), *mode)
            .unwrap();
        let (program, args) = only_run(&steps);
        assert_eq!(program, "nitrogen");
        assert_eq!(args, &vec![flag.to_string(), "/w.jpg".to_string()]);
    }
}

#[test]
fn xwallpaper_mode_flags_match_table() {
    let tools = all_tools();
    let expected = ["--zoom", "--maximize", "--stretch", "--center", "--tile"];
    for (mode, flag) in MODES.iter().zip(expected.iter()) {
        let steps = XWallpaperAdapter::new().set_wallpaper(&tools, "/w.jpg", None, *mode).unwrap();
        let (program, args) = only_run(&steps);
        assert_eq!(program, "xwallpaper");
        assert_eq!(args, &vec![flag.to_string(), "/w.jpg".to_string()]);
    }
}

#[test]
fn xwallpaper_output_flag_comes_first() {
    let steps = XWallpaperAdapter::new()
        .set_wallpaper(&all_tools(), "/w.jpg", Some("eDP-1"), DisplayMode::Tile)
        .unwrap();
    let (_, args) = only_run(&steps);
    assert_eq!(
        args,
        &vec![
            "--output".to_string(),
            "eDP-1".to_string(),
            "--tile".to_string(),
            "/w.jpg".to_string()
        ]
    );
}

#[test]
fn swww_resize_modes_match_table() {
    let tools = all_tools();
    let expected = ["crop", "fit", "no", "fit", "no"];
    for (mode, flag) in MODES.iter().zip(expected.iter()) {
        let steps = SwwwAdapter::new()
            .set_wallpaper(&tools, true, "/w.png", None, *mode)
            .unwrap();
        let (program, args) = only_run(&steps);
        assert_eq!(program, "swww");
        assert_eq!(
            args,
            &vec![
                "img".to_string(),
                "--resize".to_string(),
                flag.to_string(),
                "--transition-type".to_string(),
                "fade".to_string(),
                "--transition-duration".to_string(),
                "1".to_string(),
                "/w.png".to_string()
            ]
        );
    }
}

#[test]
fn swww_cold_daemon_spawns_and_sleeps_first() {
    let steps = SwwwAdapter::new()
        .set_wallpaper(&all_tools(), false, "/w.png", Some("DP-1"), DisplayMode::Fill)
        .unwrap();
    assert_eq!(steps.len(), 3);
    match &steps[0] {
        Step::Spawn(inv) => {
            assert_eq!(inv.program, "swww-daemon");
            assert!(inv.args.is_empty());
        },
        other => panic!("expected Spawn, got {:?}", other),
    }
    assert!(matches!(steps[1], Step::SleepMs(500)));
    match &steps[2] {
        Step::Run(inv) => {
            assert_eq!(inv.program, "swww");
            assert_eq!(inv.args[0], "img");
            assert_eq!(inv.args[1], "--outputs");
            assert_eq!(inv.args[2], "DP-1");
        },
        other => panic!("expected Run, got {:?}", other),
    }
}

#[test]
fn swaybg_mode_keywords_match_table() {
    let tools = all_tools();
    let expected = ["fill", "fit", "stretch", "center", "tile"];
    for (mode, flag) in MODES.iter().zip(expected.iter()) {
        let steps = SwaybgAdapter::new().set_wallpaper(&tools, "/w.png", None, *mode).unwrap();
        assert_eq!(steps.len(), 2);
        match &steps[0] {
            Step::KillByName(name) => assert_eq!(name, "swaybg"),
            other => panic!("expected KillByName, got {:?}", other),
        }
        match &steps[1] {
            Step::Spawn(inv) => {
                assert_eq!(inv.program, "swaybg");
                assert_eq!(
                    inv.args,
                    vec![
                        "-i".to_string(),
                        "/w.png".to_string(),
                        "-m".to_string(),
                        flag.to_string()
                    ]
                );
            },
            other => panic!("expected Spawn, got {:?}", other),
        }
    }
}

#[test]
fn gnome_picture_options_match_table() {
    let tools = all_tools();
    let expected = ["zoom", "scaled", "stretched", "centered", "wallpaper"];
    for (mode, flag) in MODES.iter().zip(expected.iter()) {
        let steps = GnomeAdapter::new().set_wallpaper(&tools, "/w.jpg", None, *mode).unwrap();
        assert_eq!(steps.len(), 3);
        match &steps[0] {
            Step::Run(inv) => {
                assert_eq!(inv.program, "gsettings");
                assert_eq!(
                    inv.args,
                    vec![
                        "set".to_string(),
                        "org.gnome.desktop.background".to_string(),
                        "picture-uri".to_string(),
                        "file:///w.jpg".to_string()
                    ]
                );
            },
            other => panic!("expected Run, got {:?}", other),
        }
        match &steps[1] {
            Step::RunQuiet(inv) => {
                assert_eq!(inv.args[2], "picture-uri-dark");
                assert_eq!(inv.args[3], "file:///w.jpg");
            },
            other => panic!("expected RunQuiet, got {:?}", other),
        }
        match &steps[2] {
            Step::RunQuiet(inv) => {
                assert_eq!(inv.args[2], "picture-options");
                assert_eq!(&inv.args[3], flag);
            },
            other => panic!("expected RunQuiet, got {:?}", other),
        }
    }
}

#[test]
fn kde_script_embeds_path_and_mode_is_ignored() {
    let tools = all_tools();
    for mode in MODES.iter() {
        let steps = KdeAdapter::new().set_wallpaper(&tools, "/w.jpg", None, *mode).unwrap();
        let (program, args) = only_run(&steps);
        assert_eq!(program, "qdbus");
        assert_eq!(args[0], "org.kde.plasmashell");
        assert_eq!(args[1], "/PlasmaShell");
        assert_eq!(args[2], "org.kde.PlasmaShell.evaluateScript");
        assert!(args[3].contains("desktop.writeConfig(\"Image\", \"file:///w.jpg\");"));
        assert!(args[3].contains("const allDesktops = desktops();"));
    }
}

#[test]
fn kde_falls_back_to_qdbus_qt5() {
    let mut tools = all_tools();
    tools.qdbus = false;
    let steps = KdeAdapter::new()
        .set_wallpaper(&tools, "/w.jpg", None, DisplayMode::Fill)
        .unwrap();
    let (program, _) = only_run(&steps);
    assert_eq!(program, "qdbus-qt5");
}

#[test]
fn hyprpaper_preloads_then_binds_and_mode_is_ignored() {
    let tools = all_tools();
    for mode in MODES.iter() {
        let steps = HyprpaperAdapter::new()
            .set_wallpaper(&tools, true, "/w.png", Some("DP-1"), *mode)
            .unwrap();
        assert_eq!(steps.len(), 2);
        match &steps[0] {
            Step::Run(inv) => {
                assert_eq!(inv.program, "hyprctl");
                assert_eq!(inv.args, vec!["hyprpaper".to_string(), "preload /w.png".to_string()]);
            },
            other => panic!("expected Run, got {:?}", other),
        }
        match &steps[1] {
            Step::Run(inv) => {
                assert_eq!(
                    inv.args,
                    vec!["hyprpaper".to_string(), "wallpaper DP-1,/w.png".to_string()]
                );
            },
            other => panic!("expected Run, got {:?}", other),
        }
    }
}

#[test]
fn hyprpaper_all_monitors_uses_empty_name() {
    let steps = HyprpaperAdapter::new()
        .set_wallpaper(&all_tools(), true, "/w.png", None, DisplayMode::Fill)
        .unwrap();
    match &steps[1] {
        Step::Run(inv) => {
            assert_eq!(inv.args[1], "wallpaper ,/w.png");
        },
        other => panic!("expected Run, got {:?}", other),
    }
}

#[test]
fn xfce_updates_each_selected_backdrop_property() {
    let tools = all_tools();
    let props = "/backdrop/screen0/monitoreDP-1/workspace0/last-image\n\
                 /backdrop/screen0/monitorHDMI-1/workspace0/last-image\n\
                 /backdrop/screen0/monitoreDP-1/workspace0/image-style\n";
    let steps = XfceAdapter::new().set_wallpaper(&tools, props, "/w.jpg", None).unwrap();
    assert_eq!(steps.len(), 2);
    for step in &steps {
        match step {
            Step::Run(inv) => {
                assert_eq!(inv.program, "xfconf-query");
                assert_eq!(inv.args[0], "-c");
                assert_eq!(inv.args[1], "xfce4-desktop");
                assert_eq!(inv.args[2], "-p");
                assert_eq!(inv.args[4], "-s");
                assert_eq!(inv.args[5], "/w.jpg");
            },
            other => panic!("expected Run, got {:?}", other),
        }
    }
    let with_monitor = XfceAdapter::new()
        .set_wallpaper(&tools, props, "/w.jpg", Some("HDMI-1"))
        .unwrap();
    assert_eq!(with_monitor.len(), 1);
    match &with_monitor[0] {
        Step::Run(inv) => {
            assert_eq!(inv.args[3], "/backdrop/screen0/monitorHDMI-1/workspace0/last-image");
        },
        other => panic!("expected Run, got {:?}", other),
    }
}

#[test]
fn xfce_without_backdrop_properties_is_an_error() {
    let r = XfceAdapter::new().set_wallpaper(&all_tools(), "/some/other/prop\n", "/w.jpg", None);
    match r {
        Err(Error::Renderer(m)) => assert_eq!(m, "No XFCE backdrop properties found"),
        other => panic!("expected a renderer error, got {:?}", other),
    }
}

#[test]
fn each_adapter_reports_its_missing_tool() {
    let tools = ToolSet::default();
    let cases: Vec<(Result<Vec<Step>, Error>, &str)> = vec![
        (FehAdapter::new().set_wallpaper(&tools, "/w", None, DisplayMode::Fill), "feh not found"),
        (
            NitrogenAdapter::new().set_wallpaper(&tools, "/w", None, DisplayMode::Fill),
            "nitrogen not found",
        ),
        (
            XWallpaperAdapter::new().set_wallpaper(&tools, "/w", None, DisplayMode::Fill),
            "xwallpaper not found",
        ),
        (
            SwwwAdapter::new().set_wallpaper(&tools, true, "/w", None, DisplayMode::Fill),
            "swww not found",
        ),
        (
            HyprpaperAdapter::new().set_wallpaper(&tools, true, "/w", None, DisplayMode::Fill),
            "hyprpaper not found",
        ),
        (
            SwaybgAdapter::new().set_wallpaper(&tools, "/w", None, DisplayMode::Fill),
            "swaybg not found",
        ),
        (
            GnomeAdapter::new().set_wallpaper(&tools, "/w", None, DisplayMode::Fill),
            "gsettings not found",
        ),
        (
            KdeAdapter::new().set_wallpaper(&tools, "/w", None, DisplayMode::Fill),
            "qdbus not found",
        ),
        (XfceAdapter::new().set_wallpaper(&tools, "", "/w", None), "xfconf-query not found"),
    ];
    for (r, expected) in cases {
        match r {
            Err(Error::AdapterUnavailable(m)) => assert_eq!(m, expected),
            other => panic!("expected AdapterUnavailable, got {:?}", other),
        }
    }
}

#[test]
fn hyprpaper_needs_both_binaries() {
    let mut tools = all_tools();
    tools.hyprctl = false;
    let r = HyprpaperAdapter::new().set_wallpaper(&tools, true, "/w", None, DisplayMode::Fill);
    assert!(matches!(r, Err(Error::AdapterUnavailable(_))));
}

#[test]
fn adapter_stop_plans_are_idempotent() {
    // Stateless adapters: stopping twice yields the identical plan
    // both times, and the non-daemon adapters have nothing to do.
    assert!(FehAdapter::new().stop().is_empty());
    assert!(NitrogenAdapter::new().stop().is_empty());
    assert!(XWallpaperAdapter::new().stop().is_empty());
    assert!(GnomeAdapter::new().stop().is_empty());
    assert!(KdeAdapter::new().stop().is_empty());
    assert!(XfceAdapter::new().stop().is_empty());
    for _ in 0..2 {
        let steps = SwwwAdapter::new().stop();
        assert_eq!(steps.len(), 1);
        assert!(matches!(&steps[0], Step::KillByName(n) if n == "swww-daemon"));
        let steps = HyprpaperAdapter::new().stop();
        assert!(matches!(&steps[0], Step::KillByName(n) if n == "hyprpaper"));
        let steps = SwaybgAdapter::new().stop();
        assert!(matches!(&steps[0], Step::KillByName(n) if n == "swaybg"));
    }
}

#[test]
fn xrandr_fallback_listing_degrades_to_empty() {
    let mut tools = all_tools();
    tools.xrandr = false;
    let adapter = FehAdapter::new();
    assert!(adapter.monitors_query(&tools).is_none());
    let r = adapter.list_monitors(&tools, &ok_output("whatever")).unwrap();
    assert!(r.is_empty());
}

#[test]
fn xrandr_fallback_listing_parses_connected_monitors() {
    let tools = all_tools();
    let adapter = GnomeAdapter::new();
    let query = adapter.monitors_query(&tools).unwrap();
    assert_eq!(query.program, "xrandr");
    assert_eq!(query.args, vec!["--query".to_string()]);
    let out = ok_output(
        "Screen 0: minimum 320 x 200, current 1920 x 1080, maximum 16384 x 16384\n\
         eDP-1 connected primary 1920x1080+0+0 (normal left inverted) 310mm x 170mm\n\
         HDMI-1 disconnected (normal left inverted right x axis y axis)\n",
    );
    let monitors = adapter.list_monitors(&tools, &out).unwrap();
    assert_eq!(monitors.len(), 1);
    assert_eq!(monitors[0].name, "eDP-1");
    assert!(monitors[0].primary);
}
