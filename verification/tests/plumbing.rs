use wallmgr::adapter::Adapter;
use wallmgr::booru::parse_rating;
use wallmgr::command::{command_outcome, CmdOutput, Step};
use wallmgr::detector::ToolSet;
use wallmgr::json::{parse_hyprctl_monitors, parse_swaymsg_outputs};
use wallmgr::text::{parse_i32, parse_u32, trim};
use wallmgr::types::{ApiResponse, DisplayMode, Error, Rating};
use wallmgr::wayland::HyprpaperAdapter;
use wallmgr::x11::FehAdapter;

#[test]
fn ratings_parse_case_insensitively_with_safe_default() {
    assert_eq!(parse_rating("s"), Rating::Safe);
    assert_eq!(parse_rating("Safe"), Rating::Safe);
    assert_eq!(parse_rating("general"), Rating::Safe);
    assert_eq!(parse_rating("q"), Rating::Questionable);
    assert_eq!(parse_rating("QUESTIONABLE"), Rating::Questionable);
    assert_eq!(parse_rating("e"), Rating::Explicit);
    assert_eq!(parse_rating("Explicit"), Rating::Explicit);
    assert_eq!(parse_rating("sensitive"), Rating::Safe);
    assert_eq!(parse_rating(""), Rating::Safe);
}

#[test]
fn api_response_envelopes() {
    let ok: ApiResponse<u32> = ApiResponse::success(7);
    assert!(ok.success);
    assert_eq!(ok.data, Some(7));
    assert!(ok.error.is_none());
    let err: ApiResponse<u32> = ApiResponse::error("broken".to_string());
    assert!(!err.success);
    assert!(err.data.is_none());
    assert_eq!(err.error.as_deref(), Some("broken"));
}

#[test]
fn error_messages_carry_their_prefix() {
    assert_eq!(
        Error::AdapterUnavailable("feh not found".to_string()).message(),
        "Adapter not available: feh not found"
    );
    assert_eq!(Error::Renderer("boom".to_string()).message(), "Renderer error: boom");
    assert_eq!(Error::InvalidPath("x".to_string()).message(), "Invalid path: x");
    assert_eq!(Error::NotFound("y".to_string()).message(), "Not found: y");
    assert_eq!(Error::InvalidInput("z".to_string()).message(), "Invalid input: z");
}

#[test]
fn command_outcome_carries_stderr_verbatim() {
    let ok = CmdOutput { success: true, stdout: String::new(), stderr: String::new() };
    assert!(command_outcome("feh failed: ", &ok).is_ok());
    let bad = CmdOutput {
        success: false,
        stdout: String::new(),
        stderr: "No such file".to_string(),
    };
    match command_outcome("feh failed: ", &bad) {
        Err(Error::Renderer(m)) => assert_eq!(m, "feh failed: No such file"),
        other => panic!("expected Renderer, got {:?}", other),
    }
}

#[test]
fn hyprctl_json_listing_round_trips() {
    let json = "[{\"name\":\"eDP-1\",\"width\":1920,\"height\":1080,\"x\":0,\"y\":0,\
                 \"focused\":true},\
                 {\"name\":\"HDMI-1\",\"width\":2560,\"height\":1440,\"x\":1920,\"y\":0}]";
    let monitors = parse_hyprctl_monitors(json).unwrap();
    assert_eq!(monitors.len(), 2);
    assert_eq!(monitors[0].name, "eDP-1");
    assert_eq!(monitors[0].width, 1920);
    assert!(monitors[0].primary);
    assert_eq!(monitors[1].x, 1920);
    assert!(!monitors[1].primary);
}

#[test]
fn hyprctl_entries_missing_fields_are_skipped() {
    let json = "[{\"name\":\"eDP-1\"},{\"name\":\"DP-1\",\"width\":800,\"height\":600,\
                 \"x\":0,\"y\":0}]";
    let monitors = parse_hyprctl_monitors(json).unwrap();
    assert_eq!(monitors.len(), 1);
    assert_eq!(monitors[0].name, "DP-1");
}

#[test]
fn invalid_json_propagates_as_renderer_error() {
    match parse_hyprctl_monitors("this is not json") {
        Err(Error::Renderer(m)) => assert!(m.starts_with("Failed to parse hyprctl output: ")),
        other => panic!("expected Renderer, got {:?}", other),
    }
    match parse_swaymsg_outputs("{") {
        Err(Error::Renderer(m)) => assert!(m.starts_with("Failed to parse swaymsg output: ")),
        other => panic!("expected Renderer, got {:?}", other),
    }
}

#[test]
fn swaymsg_listing_reads_the_rect() {
    let json = "[{\"name\":\"eDP-1\",\"focused\":true,\
                 \"rect\":{\"x\":0,\"y\":0,\"width\":1920,\"height\":1080}},\
                 {\"name\":\"weird\"}]";
    let monitors = parse_swaymsg_outputs(json).unwrap();
    assert_eq!(monitors.len(), 1);
    assert_eq!(monitors[0].name, "eDP-1");
    assert_eq!(monitors[0].width, 1920);
    assert!(monitors[0].primary);
}

#[test]
fn non_array_json_yields_an_empty_listing() {
    assert!(parse_hyprctl_monitors("{\"a\":1}").unwrap().is_empty());
    assert!(parse_swaymsg_outputs("42").unwrap().is_empty());
}

#[test]
fn adapter_dispatch_prepares_and_sets() {
    let mut tools = ToolSet::default();
    tools.hyprpaper = true;
    tools.hyprctl = true;
    let a = Adapter::Hyprpaper(HyprpaperAdapter::new());
    let probe = a.prepare().unwrap();
    assert_eq!(probe.program, "pgrep");
    assert_eq!(probe.args, vec!["-x".to_string(), "hyprpaper".to_string()]);
    // The probe found no daemon: the plan warms one up first.
    let prep = CmdOutput { success: false, stdout: String::new(), stderr: String::new() };
    let steps = a.set_wallpaper(&tools, &prep, "/w.png", None, DisplayMode::Fill).unwrap();
    assert_eq!(steps.len(), 4);
    assert!(matches!(&steps[0], Step::Spawn(inv) if inv.program == "hyprpaper"));
    assert!(matches!(steps[1], Step::SleepMs(500)));

    let mut tools = ToolSet::default();
    tools.feh = true;
    let a = Adapter::Feh(FehAdapter::new());
    assert!(a.prepare().is_none());
    assert_eq!(a.name(), "feh");
    assert!(a.is_available(&tools));
    assert!(a.stop().is_empty());
}

#[test]
fn decimal_parsing_matches_std() {
    for s in ["0", "42", "+7", "4294967295", "4294967296", "", "+", "1a", "-1", " 1"] {
        assert_eq!(parse_u32(s), s.parse::<u32>().ok(), "u32 {:?}", s);
    }
    for s in ["0", "-0", "42", "-42", "+17", "2147483647", "2147483648", "-2147483648",
        "-2147483649", "", "-", "+-3", "12x"] {
        assert_eq!(parse_i32(s), s.parse::<i32>().ok(), "i32 {:?}", s);
    }
}

#[test]
fn trim_strips_both_ends() {
    assert_eq!(trim("  eDP-1 \t"), "eDP-1");
    assert_eq!(trim("\r\n"), "");
    assert_eq!(trim("x"), "x");
    assert_eq!(trim(""), "");
}
