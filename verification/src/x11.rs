//! The X11 wallpaper-setter adapters: feh, nitrogen and xwallpaper.
//! Each translates a set-wallpaper request into its tool's exact
//! command line; monitors are listed through `xrandr`.

use vstd::prelude::*;
use crate::command::{
    Invocation, Step, StepView, plan_view, run_step, opt_str_view,
};
use crate::detector::ToolSet;
use crate::types::{DisplayMode, Error, ErrorView};

verus! {

/// feh's vocabulary for the generic display modes.
pub open spec fn feh_mode_flag(mode: DisplayMode) -> Seq<char> {
    match mode {
        DisplayMode::Fill => "--bg-fill"@,
        DisplayMode::Fit => "--bg-max"@,
        DisplayMode::Stretch => "--bg-scale"@,
        DisplayMode::Center => "--bg-center"@,
        DisplayMode::Tile => "--bg-tile"@,
    }
}

/// feh's flag for one display mode.
pub fn feh_mode_arg(mode: DisplayMode) -> (r: &'static str)
    ensures
        r@ == feh_mode_flag(mode),
{
    match mode {
        DisplayMode::Fill => "--bg-fill",
        DisplayMode::Fit => "--bg-max",
        DisplayMode::Stretch => "--bg-scale",
        DisplayMode::Center => "--bg-center",
        DisplayMode::Tile => "--bg-tile",
    }
}

/// The full plan of `feh`'s set-wallpaper call: the mode flag, the
/// xinerama index when one monitor is addressed, then the path.
pub open spec fn spec_feh_set(
    tools: ToolSet,
    path: Seq<char>,
    monitor: Option<Seq<char>>,
    mode: DisplayMode,
) -> Result<Seq<StepView>, ErrorView> {
    if !tools.feh {
        Err(ErrorView::AdapterUnavailable("feh not found"@))
    } else {
        let args = seq![feh_mode_flag(mode)] + (match monitor {
            Some(m) => seq!["--xinerama-index"@, m],
            None => Seq::empty(),
        }) + seq![path];
        Ok(seq![run_step("feh"@, args)])
    }
}

/// The feh adapter: lightweight, X11 only.
#[derive(Clone, Copy, Debug, PartialEq, Eq, Structural)]
pub struct FehAdapter;

impl FehAdapter {
    pub fn new() -> (r: Self)
        ensures
            r == FehAdapter,
    {
        FehAdapter
    }



    /// Build feh's exact set-wallpaper command.
    pub fn set_wallpaper(
        &self,
        tools: &ToolSet,
        path: &str,
        monitor: Option<&str>,
        mode: DisplayMode,
    ) -> (r: Result<Vec<Step>, Error>)
        ensures
            plan_view(r) == spec_feh_set(*tools, path@, opt_str_view(monitor), mode),
    {
        if !tools.feh {
            let r = Err(Error::AdapterUnavailable("feh not found".to_owned()));
            proof {
                assert(plan_view(r) =~~= spec_feh_set(*tools, path@, opt_str_view(monitor), mode));
            }
            return r;
        }
        let mut inv = Invocation::new("feh");
        inv.arg(feh_mode_arg(mode));
        match monitor {
            Some(m) => {
                inv.arg("--xinerama-index");
                inv.arg(m);
            },
            None => {},
        }
        inv.arg(path);
        let ghost iv = inv@;
        let mut steps: Vec<Step> = Vec::new();
        steps.push(Step::Run(inv));
        let r = Ok(steps);
        proof {
            let args = seq![feh_mode_flag(mode)] + (match opt_str_view(monitor) {
                Some(m) => seq!["--xinerama-index"@, m],
                None => Seq::empty(),
            }) + seq![path@];
            assert(iv.args =~= args);
            assert(iv =~= crate::command::InvocationView { program: "feh"@, args });
            assert(crate::command::step_views(steps@) =~= seq![run_step("feh"@, args)]);
        }
        r
    }

    /// The command whose output `list_monitors` wants, when any.
    pub fn monitors_query(&self, tools: &ToolSet) -> (r: Option<Invocation>)
        ensures
            crate::adapter::opt_inv_view(r) == crate::adapter::spec_xrandr_query(*tools),
    {
        crate::adapter::xrandr_monitors_query(tools)
    }

    /// Parse the monitors out of the query's output.
    pub fn list_monitors(&self, tools: &ToolSet, output: &crate::command::CmdOutput) -> (r: Result<
        Vec<crate::types::Monitor>,
        Error,
    >)
        ensures
            crate::adapter::xrandr_listing(*tools, output.stdout@, r),
    {
        crate::adapter::xrandr_list_monitors(tools, output)
    }

    /// feh runs as no daemon: stopping is a no-op and the wallpaper
    /// stays applied.
    pub fn stop(&self) -> (r: Vec<Step>)
        ensures
            r@.len() == 0,
    {
        Vec::new()
    }
}

/// nitrogen's vocabulary for the generic display modes.
pub open spec fn nitrogen_mode_flag(mode: DisplayMode) -> Seq<char> {
    match mode {
        DisplayMode::Fill => "--set-zoom-fill"@,
        DisplayMode::Fit => "--set-auto"@,
        DisplayMode::Stretch => "--set-scaled"@,
        DisplayMode::Center => "--set-centered"@,
        DisplayMode::Tile => "--set-tiled"@,
    }
}

/// nitrogen's flag for one display mode.
pub fn nitrogen_mode_arg(mode: DisplayMode) -> (r: &'static str)
    ensures
        r@ == nitrogen_mode_flag(mode),
{
    match mode {
        DisplayMode::Fill => "--set-zoom-fill",
        DisplayMode::Fit => "--set-auto",
        DisplayMode::Stretch => "--set-scaled",
        DisplayMode::Center => "--set-centered",
        DisplayMode::Tile => "--set-tiled",
    }
}

/// The full plan of nitrogen's set-wallpaper call; nitrogen has no
/// per-monitor flag, so the monitor argument is ignored.
pub open spec fn spec_nitrogen_set(
    tools: ToolSet,
    path: Seq<char>,
    mode: DisplayMode,
) -> Result<Seq<StepView>, ErrorView> {
    if !tools.nitrogen {
        Err(ErrorView::AdapterUnavailable("nitrogen not found"@))
    } else {
        Ok(seq![run_step("nitrogen"@, seq![nitrogen_mode_flag(mode), path])])
    }
}

/// The nitrogen adapter: X11, with its own GUI.
#[derive(Clone, Copy, Debug, PartialEq, Eq, Structural)]
pub struct NitrogenAdapter;

impl NitrogenAdapter {
    pub fn new() -> (r: Self)
        ensures
            r == NitrogenAdapter,
    {
        NitrogenAdapter
    }



    /// Build nitrogen's exact set-wallpaper command.
    pub fn set_wallpaper(
        &self,
        tools: &ToolSet,
        path: &str,
        _monitor: Option<&str>,
        mode: DisplayMode,
    ) -> (r: Result<Vec<Step>, Error>)
        ensures
            plan_view(r) == spec_nitrogen_set(*tools, path@, mode),
    {
        if !tools.nitrogen {
            let r = Err(Error::AdapterUnavailable("nitrogen not found".to_owned()));
            proof {
                assert(plan_view(r) =~~= spec_nitrogen_set(*tools, path@, mode));
            }
            return r;
        }
        let mut inv = Invocation::new("nitrogen");
        inv.arg(nitrogen_mode_arg(mode));
        inv.arg(path);
        let ghost iv = inv@;
        let mut steps: Vec<Step> = Vec::new();
        steps.push(Step::Run(inv));
        let r = Ok(steps);
        proof {
            let args = seq![nitrogen_mode_flag(mode), path@];
            assert(iv.args =~= args);
            assert(iv =~= crate::command::InvocationView { program: "nitrogen"@, args });
            assert(crate::command::step_views(steps@) =~= seq![run_step("nitrogen"@, args)]);
        }
        r
    }

    /// The command whose output `list_monitors` wants, when any.
    pub fn monitors_query(&self, tools: &ToolSet) -> (r: Option<Invocation>)
        ensures
            crate::adapter::opt_inv_view(r) == crate::adapter::spec_xrandr_query(*tools),
    {
        crate::adapter::xrandr_monitors_query(tools)
    }

    /// Parse the monitors out of the query's output.
    pub fn list_monitors(&self, tools: &ToolSet, output: &crate::command::CmdOutput) -> (r: Result<
        Vec<crate::types::Monitor>,
        Error,
    >)
        ensures
            crate::adapter::xrandr_listing(*tools, output.stdout@, r),
    {
        crate::adapter::xrandr_list_monitors(tools, output)
    }

    /// nitrogen runs as no daemon: stopping is a no-op.
    pub fn stop(&self) -> (r: Vec<Step>)
        ensures
            r@.len() == 0,
    {
        Vec::new()
    }
}

/// xwallpaper's vocabulary for the generic display modes.
pub open spec fn xwallpaper_mode_flag(mode: DisplayMode) -> Seq<char> {
    match mode {
        DisplayMode::Fill => "--zoom"@,
        DisplayMode::Fit => "--maximize"@,
        DisplayMode::Stretch => "--stretch"@,
        DisplayMode::Center => "--center"@,
        DisplayMode::Tile => "--tile"@,
    }
}

/// xwallpaper's flag for one display mode.
pub fn xwallpaper_mode_arg(mode: DisplayMode) -> (r: &'static str)
    ensures
        r@ == xwallpaper_mode_flag(mode),
{
    match mode {
        DisplayMode::Fill => "--zoom",
        DisplayMode::Fit => "--maximize",
        DisplayMode::Stretch => "--stretch",
        DisplayMode::Center => "--center",
        DisplayMode::Tile => "--tile",
    }
}

/// The full plan of xwallpaper's set-wallpaper call: the output flag
/// when one monitor is addressed, then the mode flag, then the path.
pub open spec fn spec_xwallpaper_set(
    tools: ToolSet,
    path: Seq<char>,
    monitor: Option<Seq<char>>,
    mode: DisplayMode,
) -> Result<Seq<StepView>, ErrorView> {
    if !tools.xwallpaper {
        Err(ErrorView::AdapterUnavailable("xwallpaper not found"@))
    } else {
        let args = (match monitor {
            Some(m) => seq!["--output"@, m],
            None => Seq::empty(),
        }) + seq![xwallpaper_mode_flag(mode), path];
        Ok(seq![run_step("xwallpaper"@, args)])
    }
}

/// The xwallpaper adapter: a minimal X11 wallpaper setter.
#[derive(Clone, Copy, Debug, PartialEq, Eq, Structural)]
pub struct XWallpaperAdapter;

impl XWallpaperAdapter {
    pub fn new() -> (r: Self)
        ensures
            r == XWallpaperAdapter,
    {
        XWallpaperAdapter
    }



    /// Build xwallpaper's exact set-wallpaper command.
    pub fn set_wallpaper(
        &self,
        tools: &ToolSet,
        path: &str,
        monitor: Option<&str>,
        mode: DisplayMode,
    ) -> (r: Result<Vec<Step>, Error>)
        ensures
            plan_view(r) == spec_xwallpaper_set(*tools, path@, opt_str_view(monitor), mode),
    {
        if !tools.xwallpaper {
            let r = Err(Error::AdapterUnavailable("xwallpaper not found".to_owned()));
            proof {
                assert(plan_view(r) =~~= spec_xwallpaper_set(
                    *tools,
                    path@,
                    opt_str_view(monitor),
                    mode,
                ));
            }
            return r;
        }
        let mut inv = Invocation::new("xwallpaper");
        match monitor {
            Some(m) => {
                inv.arg("--output");
                inv.arg(m);
            },
            None => {},
        }
        inv.arg(xwallpaper_mode_arg(mode));
        inv.arg(path);
        let ghost iv = inv@;
        let mut steps: Vec<Step> = Vec::new();
        steps.push(Step::Run(inv));
        let r = Ok(steps);
        proof {
            let args = (match opt_str_view(monitor) {
                Some(m) => seq!["--output"@, m],
                None => Seq::empty(),
            }) + seq![xwallpaper_mode_flag(mode), path@];
            assert(iv.args =~= args);
            assert(iv =~= crate::command::InvocationView { program: "xwallpaper"@, args });
            assert(crate::command::step_views(steps@) =~= seq![run_step("xwallpaper"@, args)]);
        }
        r
    }

    /// The command whose output `list_monitors` wants, when any.
    pub fn monitors_query(&self, tools: &ToolSet) -> (r: Option<Invocation>)
        ensures
            crate::adapter::opt_inv_view(r) == crate::adapter::spec_xrandr_query(*tools),
    {
        crate::adapter::xrandr_monitors_query(tools)
    }

    /// Parse the monitors out of the query's output.
    pub fn list_monitors(&self, tools: &ToolSet, output: &crate::command::CmdOutput) -> (r: Result<
        Vec<crate::types::Monitor>,
        Error,
    >)
        ensures
            crate::adapter::xrandr_listing(*tools, output.stdout@, r),
    {
        crate::adapter::xrandr_list_monitors(tools, output)
    }

    /// xwallpaper runs as no daemon: stopping is a no-op.
    pub fn stop(&self) -> (r: Vec<Step>)
        ensures
            r@.len() == 0,
    {
        Vec::new()
    }
}


impl crate::adapter::AdapterTrait for FehAdapter {
    open spec fn spec_name(&self) -> Seq<char> {
        "feh"@
    }

    open spec fn spec_available(&self, tools: ToolSet) -> bool {
        tools.feh
    }

    fn name(&self) -> &'static str {
        "feh"
    }

    fn is_available(&self, tools: &ToolSet) -> bool {
        tools.feh
    }
}

impl crate::adapter::AdapterTrait for NitrogenAdapter {
    open spec fn spec_name(&self) -> Seq<char> {
        "nitrogen"@
    }

    open spec fn spec_available(&self, tools: ToolSet) -> bool {
        tools.nitrogen
    }

    fn name(&self) -> &'static str {
        "nitrogen"
    }

    fn is_available(&self, tools: &ToolSet) -> bool {
        tools.nitrogen
    }
}

impl crate::adapter::AdapterTrait for XWallpaperAdapter {
    open spec fn spec_name(&self) -> Seq<char> {
        "xwallpaper"@
    }

    open spec fn spec_available(&self, tools: ToolSet) -> bool {
        tools.xwallpaper
    }

    fn name(&self) -> &'static str {
        "xwallpaper"
    }

    fn is_available(&self, tools: &ToolSet) -> bool {
        tools.xwallpaper
    }
}

} // verus!
