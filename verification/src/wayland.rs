//! The Wayland wallpaper-setter adapters: swww, hyprpaper and swaybg.
//! The daemon-backed ones (swww, hyprpaper) spell out their
//! fixed-delay warm-up as explicit plan steps; whether the daemon is
//! already running is probed by the caller and handed in.

use vstd::prelude::*;
use crate::command::{
    Invocation, Step, StepView, CmdOutput, plan_view, run_step, spawn_step, opt_str_view,
};
use crate::detector::ToolSet;
use crate::json::{
    json_parses, json_value_of, parse_hyprctl_monitors, parse_swaymsg_outputs,
    spec_hyprctl_listing, spec_swaymsg_listing,
};
use crate::monitors::{monitor_views, spec_swww_monitors, parse_swww_monitors};
use crate::text::lines_spec;
use crate::types::{concat_str, DisplayMode, Error, ErrorView, Monitor};

verus! {

/// The warm-up plan of a daemon-backed adapter: nothing when the
/// daemon already runs, else spawn it and wait a fixed 500 ms.  This
/// is a readiness heuristic, not a health check: a daemon that takes
/// longer leaves the next command to fail, and the caller must
/// surface or retry that failure.
pub open spec fn spec_ensure_daemon(daemon: Seq<char>, daemon_running: bool) -> Seq<StepView> {
    if daemon_running {
        Seq::empty()
    } else {
        seq![spawn_step(daemon, Seq::empty()), StepView::SleepMs(500)]
    }
}

/// Build the warm-up steps for the named daemon.
fn ensure_daemon_steps(daemon: &str, daemon_running: bool) -> (r: Vec<Step>)
    ensures
        crate::command::step_views(r@) =~= spec_ensure_daemon(daemon@, daemon_running),
{
    let mut steps: Vec<Step> = Vec::new();
    if !daemon_running {
        let inv = Invocation::new(daemon);
        steps.push(Step::Spawn(inv));
        steps.push(Step::SleepMs(500));
    }
    steps
}

/// swww's `--resize` vocabulary; `Center` and `Tile` have no true
/// analogue and fall back to `fit` and `no` by design.
pub open spec fn swww_resize_flag(mode: DisplayMode) -> Seq<char> {
    match mode {
        DisplayMode::Fill => "crop"@,
        DisplayMode::Fit => "fit"@,
        DisplayMode::Stretch => "no"@,
        DisplayMode::Center => "fit"@,
        DisplayMode::Tile => "no"@,
    }
}

/// swww's resize keyword for one display mode.
pub fn swww_resize_arg(mode: DisplayMode) -> (r: &'static str)
    ensures
        r@ == swww_resize_flag(mode),
{
    match mode {
        DisplayMode::Fill => "crop",
        DisplayMode::Fit => "fit",
        DisplayMode::Stretch => "no",
        DisplayMode::Center => "fit",
        DisplayMode::Tile => "no",
    }
}

/// The full plan of swww's set-wallpaper call: warm the daemon up if
/// needed, then `swww img` with the resize mode and a fixed fade
/// transition.
pub open spec fn spec_swww_set(
    tools: ToolSet,
    daemon_running: bool,
    path: Seq<char>,
    monitor: Option<Seq<char>>,
    mode: DisplayMode,
) -> Result<Seq<StepView>, ErrorView> {
    if !tools.swww {
        Err(ErrorView::AdapterUnavailable("swww not found"@))
    } else {
        let args = seq!["img"@] + (match monitor {
            Some(m) => seq!["--outputs"@, m],
            None => Seq::empty(),
        }) + seq![
            "--resize"@,
            swww_resize_flag(mode),
            "--transition-type"@,
            "fade"@,
            "--transition-duration"@,
            "1"@,
            path,
        ];
        Ok(spec_ensure_daemon("swww-daemon"@, daemon_running) + seq![run_step("swww"@, args)])
    }
}

/// `swww query` exactly when swww is there, nothing otherwise.
pub open spec fn spec_swww_query(tools: ToolSet) -> Option<crate::command::InvocationView> {
    if tools.swww {
        Some(crate::command::InvocationView { program: "swww"@, args: seq!["query"@] })
    } else {
        None
    }
}

/// The swww adapter: a Wayland wallpaper daemon with transitions.
#[derive(Clone, Copy, Debug, PartialEq, Eq, Structural)]
pub struct SwwwAdapter;

impl SwwwAdapter {
    pub fn new() -> (r: Self)
        ensures
            r == SwwwAdapter,
    {
        SwwwAdapter
    }



    /// The probe that tells whether the daemon is alive (the caller
    /// runs it and hands the answer to `set_wallpaper`).
    pub fn daemon_probe(&self) -> (r: Invocation)
        ensures
            r@.program == "pgrep"@,
            r@.args =~= seq!["-x"@, "swww-daemon"@],
    {
        let mut inv = Invocation::new("pgrep");
        inv.arg("-x");
        inv.arg("swww-daemon");
        inv
    }

    /// The daemon warm-up steps.
    pub fn ensure_daemon(&self, daemon_running: bool) -> (r: Vec<Step>)
        ensures
            crate::command::step_views(r@) =~= spec_ensure_daemon("swww-daemon"@, daemon_running),
    {
        ensure_daemon_steps("swww-daemon", daemon_running)
    }

    /// Build swww's exact set-wallpaper plan.
    pub fn set_wallpaper(
        &self,
        tools: &ToolSet,
        daemon_running: bool,
        path: &str,
        monitor: Option<&str>,
        mode: DisplayMode,
    ) -> (r: Result<Vec<Step>, Error>)
        ensures
            plan_view(r) == spec_swww_set(*tools, daemon_running, path@, opt_str_view(monitor), mode),
    {
        if !tools.swww {
            let r = Err(Error::AdapterUnavailable("swww not found".to_owned()));
            proof {
                assert(plan_view(r) =~~= spec_swww_set(
                    *tools,
                    daemon_running,
                    path@,
                    opt_str_view(monitor),
                    mode,
                ));
            }
            return r;
        }
        let mut steps = ensure_daemon_steps("swww-daemon", daemon_running);
        let ghost warmup = crate::command::step_views(steps@);
        let mut inv = Invocation::new("swww");
        inv.arg("img");
        match monitor {
            Some(m) => {
                inv.arg("--outputs");
                inv.arg(m);
            },
            None => {},
        }
        inv.arg("--resize");
        inv.arg(swww_resize_arg(mode));
        inv.arg("--transition-type");
        inv.arg("fade");
        inv.arg("--transition-duration");
        inv.arg("1");
        inv.arg(path);
        let ghost iv = inv@;
        steps.push(Step::Run(inv));
        let r = Ok(steps);
        proof {
            let args = seq!["img"@] + (match opt_str_view(monitor) {
                Some(m) => seq!["--outputs"@, m],
                None => Seq::empty(),
            }) + seq![
                "--resize"@,
                swww_resize_flag(mode),
                "--transition-type"@,
                "fade"@,
                "--transition-duration"@,
                "1"@,
                path@,
            ];
            assert(iv.args =~= args);
            assert(iv =~= crate::command::InvocationView { program: "swww"@, args });
            assert(crate::command::step_views(steps@) =~= warmup.push(run_step("swww"@, args)));
            assert(crate::command::step_views(steps@) =~= spec_ensure_daemon(
                "swww-daemon"@,
                daemon_running,
            ) + seq![run_step("swww"@, args)]);
        }
        r
    }

    /// The command whose output `list_monitors` parses, when any; the
    /// daemon warm-up steps run before it.
    pub fn monitors_query(&self, tools: &ToolSet) -> (r: Option<Invocation>)
        ensures
            crate::adapter::opt_inv_view(r) == spec_swww_query(*tools),
    {
        if tools.swww {
            let mut inv = Invocation::new("swww");
            inv.arg("query");
            proof {
                assert(inv@ =~= spec_swww_query(*tools)->Some_0);
            }
            Some(inv)
        } else {
            None
        }
    }

    /// Parse the monitors out of `swww query` output; without the
    /// tool, or when the query failed, the listing is empty.
    pub fn list_monitors(&self, tools: &ToolSet, output: &CmdOutput) -> (r: Result<
        Vec<Monitor>,
        Error,
    >)
        ensures
            r matches Ok(v) && monitor_views(v@) == (if tools.swww && output.success {
                spec_swww_monitors(lines_spec(output.stdout@))
            } else {
                Seq::empty()
            }),
    {
        if !tools.swww || !output.success {
            let r = Ok(Vec::new());
            proof {
                assert(monitor_views(Seq::<Monitor>::empty()) =~= Seq::<
                    crate::types::MonitorView,
                >::empty());
            }
            return r;
        }
        Ok(parse_swww_monitors(output.stdout.as_str()))
    }

    /// Stopping swww kills its daemon by name.
    pub fn stop(&self) -> (r: Vec<Step>)
        ensures
            crate::command::step_views(r@) =~= seq![StepView::KillByName("swww-daemon"@)],
    {
        let mut steps: Vec<Step> = Vec::new();
        steps.push(Step::KillByName("swww-daemon".to_owned()));
        steps
    }
}

/// The full plan of hyprpaper's set-wallpaper call: warm the daemon
/// up if needed, preload the image, then bind it to one monitor (or
/// to all, with an empty monitor name).  The display mode has no
/// hyprpaper vocabulary and is ignored.
pub open spec fn spec_hyprpaper_set(
    tools: ToolSet,
    daemon_running: bool,
    path: Seq<char>,
    monitor: Option<Seq<char>>,
) -> Result<Seq<StepView>, ErrorView> {
    if !(tools.hyprpaper && tools.hyprctl) {
        Err(ErrorView::AdapterUnavailable("hyprpaper not found"@))
    } else {
        let preload = "preload "@ + path;
        let wall = match monitor {
            Some(m) => "wallpaper "@ + m + ","@ + path,
            None => "wallpaper ,"@ + path,
        };
        Ok(
            spec_ensure_daemon("hyprpaper"@, daemon_running) + seq![
                run_step("hyprctl"@, seq!["hyprpaper"@, preload]),
                run_step("hyprctl"@, seq!["hyprpaper"@, wall]),
            ],
        )
    }
}

/// `hyprctl monitors -j` exactly when hyprctl is there, nothing
/// otherwise.
pub open spec fn spec_hyprctl_monitors_query(tools: ToolSet) -> Option<
    crate::command::InvocationView,
> {
    if tools.hyprctl {
        Some(crate::command::InvocationView { program: "hyprctl"@, args: seq!["monitors"@, "-j"@] })
    } else {
        None
    }
}

/// The hyprpaper adapter: Hyprland's wallpaper utility, driven
/// through `hyprctl`.
#[derive(Clone, Copy, Debug, PartialEq, Eq, Structural)]
pub struct HyprpaperAdapter;

impl HyprpaperAdapter {
    pub fn new() -> (r: Self)
        ensures
            r == HyprpaperAdapter,
    {
        HyprpaperAdapter
    }



    /// The probe that tells whether the daemon is alive.
    pub fn daemon_probe(&self) -> (r: Invocation)
        ensures
            r@.program == "pgrep"@,
            r@.args =~= seq!["-x"@, "hyprpaper"@],
    {
        let mut inv = Invocation::new("pgrep");
        inv.arg("-x");
        inv.arg("hyprpaper");
        inv
    }

    /// The daemon warm-up steps.
    pub fn ensure_daemon(&self, daemon_running: bool) -> (r: Vec<Step>)
        ensures
            crate::command::step_views(r@) =~= spec_ensure_daemon("hyprpaper"@, daemon_running),
    {
        ensure_daemon_steps("hyprpaper", daemon_running)
    }

    /// Build hyprpaper's exact set-wallpaper plan.
    pub fn set_wallpaper(
        &self,
        tools: &ToolSet,
        daemon_running: bool,
        path: &str,
        monitor: Option<&str>,
        _mode: DisplayMode,
    ) -> (r: Result<Vec<Step>, Error>)
        ensures
            plan_view(r) == spec_hyprpaper_set(*tools, daemon_running, path@, opt_str_view(monitor)),
    {
        if !(tools.hyprpaper && tools.hyprctl) {
            let r = Err(Error::AdapterUnavailable("hyprpaper not found".to_owned()));
            proof {
                assert(plan_view(r) =~~= spec_hyprpaper_set(
                    *tools,
                    daemon_running,
                    path@,
                    opt_str_view(monitor),
                ));
            }
            return r;
        }
        let mut steps = ensure_daemon_steps("hyprpaper", daemon_running);
        let ghost warmup = crate::command::step_views(steps@);
        let preload = concat_str("preload ", path);
        let wall = match monitor {
            Some(m) => {
                let head = concat_str("wallpaper ", m);
                let head = crate::command::append_str(head, ",");
                crate::command::append_str(head, path)
            },
            None => concat_str("wallpaper ,", path),
        };
        let mut pre_inv = Invocation::new("hyprctl");
        pre_inv.arg("hyprpaper");
        pre_inv.arg_owned(preload);
        let ghost pre_iv = pre_inv@;
        let mut wall_inv = Invocation::new("hyprctl");
        wall_inv.arg("hyprpaper");
        wall_inv.arg_owned(wall);
        let ghost wall_iv = wall_inv@;
        steps.push(Step::Run(pre_inv));
        steps.push(Step::Run(wall_inv));
        let r = Ok(steps);
        proof {
            let preload_s = "preload "@ + path@;
            let wall_s = match opt_str_view(monitor) {
                Some(m) => "wallpaper "@ + m + ","@ + path@,
                None => "wallpaper ,"@ + path@,
            };
            assert(pre_iv.args =~= seq!["hyprpaper"@, preload_s]);
            assert(pre_iv =~= crate::command::InvocationView {
                program: "hyprctl"@,
                args: seq!["hyprpaper"@, preload_s],
            });
            assert(wall_iv.args =~= seq!["hyprpaper"@, wall_s]);
            assert(wall_iv =~= crate::command::InvocationView {
                program: "hyprctl"@,
                args: seq!["hyprpaper"@, wall_s],
            });
            assert(crate::command::step_views(steps@) =~= warmup + seq![
                run_step("hyprctl"@, seq!["hyprpaper"@, preload_s]),
                run_step("hyprctl"@, seq!["hyprpaper"@, wall_s]),
            ]);
        }
        r
    }

    /// The command whose output `list_monitors` parses, when any.
    pub fn monitors_query(&self, tools: &ToolSet) -> (r: Option<Invocation>)
        ensures
            crate::adapter::opt_inv_view(r) == spec_hyprctl_monitors_query(*tools),
    {
        if tools.hyprctl {
            let mut inv = Invocation::new("hyprctl");
            inv.arg("monitors");
            inv.arg("-j");
            proof {
                assert(inv@ =~= spec_hyprctl_monitors_query(*tools)->Some_0);
            }
            Some(inv)
        } else {
            None
        }
    }

    /// Parse the monitors out of `hyprctl monitors -j` output: empty
    /// without the tool or on a failed query; on a successful query,
    /// an error exactly when the output is no JSON, else exactly the
    /// document's listing.
    pub fn list_monitors(&self, tools: &ToolSet, output: &CmdOutput) -> (r: Result<
        Vec<Monitor>,
        Error,
    >)
        ensures
            (!tools.hyprctl || !output.success) ==> (r matches Ok(v) && v@.len() == 0),
            tools.hyprctl && output.success ==> ((r is Ok <==> json_parses(output.stdout@)) && (
            r matches Ok(ms) ==> monitor_views(ms@) == spec_hyprctl_listing(
                json_value_of(output.stdout@),
            ))),
            r matches Err(e) ==> e matches Error::Renderer(_),
    {
        if !tools.hyprctl || !output.success {
            return Ok(Vec::new());
        }
        parse_hyprctl_monitors(output.stdout.as_str())
    }

    /// Stopping hyprpaper kills its daemon by name.
    pub fn stop(&self) -> (r: Vec<Step>)
        ensures
            crate::command::step_views(r@) =~= seq![StepView::KillByName("hyprpaper"@)],
    {
        let mut steps: Vec<Step> = Vec::new();
        steps.push(Step::KillByName("hyprpaper".to_owned()));
        steps
    }
}

/// swaybg's `-m` vocabulary for the generic display modes.
pub open spec fn swaybg_mode_flag(mode: DisplayMode) -> Seq<char> {
    match mode {
        DisplayMode::Fill => "fill"@,
        DisplayMode::Fit => "fit"@,
        DisplayMode::Stretch => "stretch"@,
        DisplayMode::Center => "center"@,
        DisplayMode::Tile => "tile"@,
    }
}

/// swaybg's mode keyword for one display mode.
pub fn swaybg_mode_arg(mode: DisplayMode) -> (r: &'static str)
    ensures
        r@ == swaybg_mode_flag(mode),
{
    match mode {
        DisplayMode::Fill => "fill",
        DisplayMode::Fit => "fit",
        DisplayMode::Stretch => "stretch",
        DisplayMode::Center => "center",
        DisplayMode::Tile => "tile",
    }
}

/// The full plan of swaybg's set-wallpaper call: kill any running
/// swaybg, then spawn a fresh one in the background.
pub open spec fn spec_swaybg_set(
    tools: ToolSet,
    path: Seq<char>,
    monitor: Option<Seq<char>>,
    mode: DisplayMode,
) -> Result<Seq<StepView>, ErrorView> {
    if !tools.swaybg {
        Err(ErrorView::AdapterUnavailable("swaybg not found"@))
    } else {
        let args = (match monitor {
            Some(m) => seq!["-o"@, m],
            None => Seq::empty(),
        }) + seq!["-i"@, path, "-m"@, swaybg_mode_flag(mode)];
        Ok(seq![StepView::KillByName("swaybg"@), spawn_step("swaybg"@, args)])
    }
}

/// `swaymsg -t get_outputs -r` exactly when swaymsg is there,
/// nothing otherwise.
pub open spec fn spec_swaymsg_outputs_query(tools: ToolSet) -> Option<
    crate::command::InvocationView,
> {
    if tools.swaymsg {
        Some(
            crate::command::InvocationView {
                program: "swaymsg"@,
                args: seq!["-t"@, "get_outputs"@, "-r"@],
            },
        )
    } else {
        None
    }
}

/// The swaybg adapter: Sway's background utility.
#[derive(Clone, Copy, Debug, PartialEq, Eq, Structural)]
pub struct SwaybgAdapter;

impl SwaybgAdapter {
    pub fn new() -> (r: Self)
        ensures
            r == SwaybgAdapter,
    {
        SwaybgAdapter
    }



    /// Build swaybg's exact set-wallpaper plan.
    pub fn set_wallpaper(
        &self,
        tools: &ToolSet,
        path: &str,
        monitor: Option<&str>,
        mode: DisplayMode,
    ) -> (r: Result<Vec<Step>, Error>)
        ensures
            plan_view(r) == spec_swaybg_set(*tools, path@, opt_str_view(monitor), mode),
    {
        if !tools.swaybg {
            let r = Err(Error::AdapterUnavailable("swaybg not found".to_owned()));
            proof {
                assert(plan_view(r) =~~= spec_swaybg_set(
                    *tools,
                    path@,
                    opt_str_view(monitor),
                    mode,
                ));
            }
            return r;
        }
        let mut inv = Invocation::new("swaybg");
        match monitor {
            Some(m) => {
                inv.arg("-o");
                inv.arg(m);
            },
            None => {},
        }
        inv.arg("-i");
        inv.arg(path);
        inv.arg("-m");
        inv.arg(swaybg_mode_arg(mode));
        let ghost iv = inv@;
        let mut steps: Vec<Step> = Vec::new();
        steps.push(Step::KillByName("swaybg".to_owned()));
        steps.push(Step::Spawn(inv));
        let r = Ok(steps);
        proof {
            let args = (match opt_str_view(monitor) {
                Some(m) => seq!["-o"@, m],
                None => Seq::empty(),
            }) + seq!["-i"@, path@, "-m"@, swaybg_mode_flag(mode)];
            assert(iv.args =~= args);
            assert(iv =~= crate::command::InvocationView { program: "swaybg"@, args });
            assert(crate::command::step_views(steps@) =~= seq![
                StepView::KillByName("swaybg"@),
                spawn_step("swaybg"@, args),
            ]);
        }
        r
    }

    /// The command whose output `list_monitors` parses, when any.
    pub fn monitors_query(&self, tools: &ToolSet) -> (r: Option<Invocation>)
        ensures
            crate::adapter::opt_inv_view(r) == spec_swaymsg_outputs_query(*tools),
    {
        if tools.swaymsg {
            let mut inv = Invocation::new("swaymsg");
            inv.arg("-t");
            inv.arg("get_outputs");
            inv.arg("-r");
            proof {
                assert(inv@ =~= spec_swaymsg_outputs_query(*tools)->Some_0);
            }
            Some(inv)
        } else {
            None
        }
    }

    /// Parse the monitors out of `swaymsg -t get_outputs -r` output:
    /// empty without the tool or on a failed query; on a successful
    /// query, an error exactly when the output is no JSON, else
    /// exactly the document's listing.
    pub fn list_monitors(&self, tools: &ToolSet, output: &CmdOutput) -> (r: Result<
        Vec<Monitor>,
        Error,
    >)
        ensures
            (!tools.swaymsg || !output.success) ==> (r matches Ok(v) && v@.len() == 0),
            tools.swaymsg && output.success ==> ((r is Ok <==> json_parses(output.stdout@)) && (
            r matches Ok(ms) ==> monitor_views(ms@) == spec_swaymsg_listing(
                json_value_of(output.stdout@),
            ))),
            r matches Err(e) ==> e matches Error::Renderer(_),
    {
        if !tools.swaymsg || !output.success {
            return Ok(Vec::new());
        }
        parse_swaymsg_outputs(output.stdout.as_str())
    }

    /// Stopping swaybg kills its background process by name.
    pub fn stop(&self) -> (r: Vec<Step>)
        ensures
            crate::command::step_views(r@) =~= seq![StepView::KillByName("swaybg"@)],
    {
        let mut steps: Vec<Step> = Vec::new();
        steps.push(Step::KillByName("swaybg".to_owned()));
        steps
    }
}


impl crate::adapter::AdapterTrait for SwwwAdapter {
    open spec fn spec_name(&self) -> Seq<char> {
        "swww"@
    }

    open spec fn spec_available(&self, tools: ToolSet) -> bool {
        tools.swww
    }

    fn name(&self) -> &'static str {
        "swww"
    }

    fn is_available(&self, tools: &ToolSet) -> bool {
        tools.swww
    }
}

impl crate::adapter::AdapterTrait for HyprpaperAdapter {
    open spec fn spec_name(&self) -> Seq<char> {
        "hyprpaper"@
    }

    open spec fn spec_available(&self, tools: ToolSet) -> bool {
        tools.hyprpaper && tools.hyprctl
    }

    fn name(&self) -> &'static str {
        "hyprpaper"
    }

    fn is_available(&self, tools: &ToolSet) -> bool {
        tools.hyprpaper && tools.hyprctl
    }
}

impl crate::adapter::AdapterTrait for SwaybgAdapter {
    open spec fn spec_name(&self) -> Seq<char> {
        "swaybg"@
    }

    open spec fn spec_available(&self, tools: ToolSet) -> bool {
        tools.swaybg
    }

    fn name(&self) -> &'static str {
        "swaybg"
    }

    fn is_available(&self, tools: &ToolSet) -> bool {
        tools.swaybg
    }
}

} // verus!
