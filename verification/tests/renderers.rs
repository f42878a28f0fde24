use wallmgr::detector::ToolSet;
use wallmgr::renderer::{ProcHandle, Renderer, RendererTrait};
use wallmgr::spine::{find_spine_renderer, SpineProbe, SpineRenderer};
use wallmgr::types::Error;
use wallmgr::video::VideoRenderer;
use wallmgr::wallpaper_engine::{find_linux_wallpaperengine, EngineProbe,
    WallpaperEngineRenderer};

fn mpv_tools() -> ToolSet {
    let mut t = ToolSet::default();
    t.mpv = true;
    t
}

#[test]
fn second_start_surrenders_first_child_before_attach() {
    let tools = mpv_tools();
    let mut r = VideoRenderer::new();
    let plan1 = r.start(&tools, false, "/a.mp4", None).unwrap();
    assert_eq!(plan1.kill, None);
    r.attach(ProcHandle { id: 41 });
    assert!(r.is_running());
    let plan2 = r.start(&tools, false, "/b.mp4", None).unwrap();
    // The first child comes back for termination before the second
    // spawn happens; in between, no child is accounted for.
    assert_eq!(plan2.kill, Some(ProcHandle { id: 41 }));
    assert!(!r.is_running());
    r.attach(ProcHandle { id: 42 });
    assert!(r.is_running());
}

#[test]
fn stop_on_never_started_renderer_succeeds() {
    let mut r = VideoRenderer::new();
    assert_eq!(r.stop(), None);
    assert!(!r.is_running());
}

#[test]
fn stop_twice_behaves_identically() {
    let mut video = VideoRenderer::new();
    video.attach(ProcHandle { id: 7 });
    assert_eq!(video.stop(), Some(ProcHandle { id: 7 }));
    assert!(!video.is_running());
    assert_eq!(video.stop(), None);
    assert!(!video.is_running());

    let mut spine = SpineRenderer::new(None);
    spine.attach(ProcHandle { id: 8 });
    assert_eq!(spine.stop(), Some(ProcHandle { id: 8 }));
    assert_eq!(spine.stop(), None);
    assert!(!spine.is_running());

    let mut engine = WallpaperEngineRenderer::new(None);
    assert_eq!(engine.stop(), None);
    assert_eq!(engine.stop(), None);
    assert!(!engine.is_running());
}

#[test]
fn video_start_builds_exact_mpv_command() {
    let mut r = VideoRenderer::new();
    let plan = r.start(&mpv_tools(), false, "/v.mp4", Some("0")).unwrap();
    assert_eq!(plan.spawn.program, "mpv");
    assert_eq!(
        plan.spawn.args,
        vec![
            "--loop".to_string(),
            "--no-audio".to_string(),
            "--hwdec=auto".to_string(),
            "--vo=gpu".to_string(),
            "--profile=low-latency".to_string(),
            "--fps=30".to_string(),
            "--no-osc".to_string(),
            "--no-osd-bar".to_string(),
            "--no-input-default-bindings".to_string(),
            "--input-conf=/dev/null".to_string(),
            "--no-border".to_string(),
            "--fs".to_string(),
            "--screen=0".to_string(),
            "--ontop=no".to_string(),
            "--no-keepaspect-window".to_string(),
            "/v.mp4".to_string()
        ]
    );
    assert_eq!(r.current_path.as_deref(), Some("/v.mp4"));
}

#[test]
fn video_monitor_flag_differs_on_wayland() {
    let mut r = VideoRenderer::new();
    let plan = r.start(&mpv_tools(), true, "/v.mp4", Some("DP-1")).unwrap();
    assert!(plan.spawn.args.contains(&"--fs-screen=DP-1".to_string()));
    assert!(!plan.spawn.args.contains(&"--screen=DP-1".to_string()));
}

#[test]
fn video_without_mpv_fails_and_keeps_state() {
    let mut r = VideoRenderer::new();
    r.attach(ProcHandle { id: 5 });
    let err = r.start(&ToolSet::default(), false, "/v.mp4", None).unwrap_err();
    match err {
        Error::Renderer(m) => assert_eq!(m, "mpv not found"),
        other => panic!("expected Renderer, got {:?}", other),
    }
    assert!(r.is_running());
}

#[test]
fn spine_is_never_available_and_start_always_fails() {
    let tools = {
        let mut t = ToolSet::default();
        t.mpv = true;
        t
    };
    // Even a renderer built around a resolved binary stays gated off.
    let mut r = SpineRenderer::new(Some("/usr/bin/spine-wallpaper".to_string()));
    assert!(!r.is_available(&tools));
    for _ in 0..2 {
        match r.start("/anim", None) {
            Err(Error::Renderer(m)) => assert_eq!(
                m,
                "Spine animation support is coming soon! Currently under development."
            ),
            other => panic!("expected the product-decision error, got {:?}", other),
        }
    }
    assert!(!r.is_running());
}

#[test]
fn spine_resolver_prefers_which_hits_in_order() {
    let probe = SpineProbe {
        which_spine_wallpaper: None,
        which_spine_player: Some("/opt/spine-player\n".to_string()),
        which_spine_runtime: Some("/opt/spine-runtime\n".to_string()),
        usr_bin_exists: true,
        usr_local_bin_exists: true,
        home_local_bin_exists: true,
        home: "/home/u".to_string(),
    };
    assert_eq!(find_spine_renderer(&probe).as_deref(), Some("/opt/spine-player"));
}

#[test]
fn spine_resolver_falls_back_to_fixed_paths() {
    let mut probe = SpineProbe {
        which_spine_wallpaper: None,
        which_spine_player: None,
        which_spine_runtime: None,
        usr_bin_exists: false,
        usr_local_bin_exists: false,
        home_local_bin_exists: true,
        home: "/home/u".to_string(),
    };
    assert_eq!(
        find_spine_renderer(&probe).as_deref(),
        Some("/home/u/.local/bin/spine-wallpaper")
    );
    probe.home_local_bin_exists = false;
    assert_eq!(find_spine_renderer(&probe), None);
}

#[test]
fn spine_directory_wants_skel_without_project_json() {
    let skel_only: Vec<String> = vec!["a.skel".to_string(), "a.atlas".to_string()];
    assert!(SpineRenderer::is_spine_directory(true, &skel_only));
    let with_project: Vec<String> =
        vec!["a.skel".to_string(), "project.json".to_string()];
    assert!(!SpineRenderer::is_spine_directory(true, &with_project));
    assert!(!SpineRenderer::is_spine_directory(false, &skel_only));
}

#[test]
fn engine_resolver_prefers_fixed_paths_over_which() {
    let probe = EngineProbe {
        usr_bin_exists: false,
        usr_local_bin_exists: true,
        home_local_bin_exists: true,
        home: "/home/u".to_string(),
        which_result: Some("/elsewhere/linux-wallpaperengine\n".to_string()),
    };
    assert_eq!(
        find_linux_wallpaperengine(&probe).as_deref(),
        Some("/usr/local/bin/linux-wallpaperengine")
    );
    let which_only = EngineProbe {
        usr_bin_exists: false,
        usr_local_bin_exists: false,
        home_local_bin_exists: false,
        home: "/home/u".to_string(),
        which_result: Some("/elsewhere/linux-wallpaperengine\n".to_string()),
    };
    assert_eq!(
        find_linux_wallpaperengine(&which_only).as_deref(),
        Some("/elsewhere/linux-wallpaperengine")
    );
}

#[test]
fn engine_start_renders_the_project_directory() {
    let mut r = WallpaperEngineRenderer::new(Some("/usr/bin/linux-wallpaperengine".to_string()));
    let plan = r.start("/wp/scene/project.json", false, Some("DP-1")).unwrap();
    assert_eq!(plan.spawn.program, "/usr/bin/linux-wallpaperengine");
    assert_eq!(
        plan.spawn.args,
        vec![
            "--dir".to_string(),
            "/wp/scene".to_string(),
            "--silent".to_string(),
            "--noautomute".to_string(),
            "--fps".to_string(),
            "30".to_string(),
            "--screen-root".to_string(),
            "DP-1".to_string()
        ]
    );
    assert_eq!(r.current_path.as_deref(), Some("/wp/scene"));
}

#[test]
fn engine_start_without_monitor_targets_all() {
    let mut r = WallpaperEngineRenderer::new(Some("/usr/bin/linux-wallpaperengine".to_string()));
    let plan = r.start("/wp/scene", true, None).unwrap();
    assert_eq!(plan.spawn.args[1], "/wp/scene");
    assert_eq!(plan.spawn.args[7], "all");
}

#[test]
fn engine_start_without_binary_fails() {
    let mut r = WallpaperEngineRenderer::new(None);
    match r.start("/wp/scene", true, None) {
        Err(Error::Renderer(m)) => assert_eq!(m, "linux-wallpaperengine not found"),
        other => panic!("expected Renderer, got {:?}", other),
    }
}

#[test]
fn engine_start_on_rootless_path_fails() {
    let mut r = WallpaperEngineRenderer::new(Some("/usr/bin/linux-wallpaperengine".to_string()));
    match r.start("/", false, None) {
        Err(Error::InvalidPath(m)) => assert_eq!(m, "Cannot determine project directory"),
        other => panic!("expected InvalidPath, got {:?}", other),
    }
}

#[test]
fn engine_project_detection_follows_project_json() {
    let with: Vec<String> = vec!["project.json".to_string(), "scene.pkg".to_string()];
    let without: Vec<String> = vec!["scene.pkg".to_string()];
    assert!(WallpaperEngineRenderer::is_wallpaper_engine_project("/wp/s", true, false, &with));
    assert!(!WallpaperEngineRenderer::is_wallpaper_engine_project("/wp/s", true, false, &without));
    assert!(WallpaperEngineRenderer::is_wallpaper_engine_project(
        "/wp/s/project.json",
        false,
        true,
        &without
    ));
    assert!(WallpaperEngineRenderer::is_wallpaper_engine_project(
        "/wp/s/scene.pkg",
        false,
        true,
        &with
    ));
    assert!(!WallpaperEngineRenderer::is_wallpaper_engine_project(
        "/wp/s/missing",
        false,
        false,
        &with
    ));
}

#[test]
fn renderer_set_dispatches_the_shared_lifecycle() {
    let mut r = Renderer::Video(VideoRenderer::new());
    assert_eq!(r.name(), "mpv-video");
    assert!(!r.is_running());
    r.attach(ProcHandle { id: 3 });
    assert!(r.is_running());
    assert_eq!(r.stop(), Some(ProcHandle { id: 3 }));
    assert_eq!(r.stop(), None);

    let mut s = Renderer::Spine(SpineRenderer::new(None));
    assert_eq!(s.name(), "spine");
    assert!(!s.is_available(&ToolSet::default()));

    let mut w = Renderer::WallpaperEngine(WallpaperEngineRenderer::new(Some("/x".to_string())));
    assert_eq!(w.name(), "linux-wallpaperengine");
    assert!(w.is_available(&ToolSet::default()));
    assert_eq!(w.stop(), None);
}
