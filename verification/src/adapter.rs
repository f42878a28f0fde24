//! The polymorphic adapter interface, the closed set of adapters, and
//! the monitor-listing helpers shared by every adapter that falls back
//! to `xrandr`.

use vstd::prelude::*;
use crate::command::{Invocation, CmdOutput};
use crate::detector::ToolSet;
use crate::monitors::{monitor_views, spec_xrandr_monitors, parse_xrandr_monitors};
use crate::text::lines_spec;
use crate::types::{Error, Monitor};

verus! {

/// What every wallpaper adapter can say of itself: a static name and
/// whether its external tool is installed.  The operations that build
/// command plans keep adapter-specific signatures (daemon probes,
/// property listings) and are dispatched through [`Adapter`].
pub trait AdapterTrait {
    /// The adapter's static identifier.
    spec fn spec_name(&self) -> Seq<char>;

    /// Which tools the adapter needs, of those probed.
    spec fn spec_available(&self, tools: ToolSet) -> bool;

    fn name(&self) -> (r: &'static str)
        ensures
            r@ == self.spec_name(),
    ;

    fn is_available(&self, tools: &ToolSet) -> (r: bool)
        ensures
            r == self.spec_available(*tools),
    ;
}

/// `xrandr --query` exactly when the tool is there, nothing
/// otherwise.
pub open spec fn spec_xrandr_query(tools: ToolSet) -> Option<crate::command::InvocationView> {
    if tools.xrandr {
        Some(crate::command::InvocationView { program: "xrandr"@, args: seq!["--query"@] })
    } else {
        None
    }
}

/// The query whose output the xrandr-backed monitor listing parses;
/// `None` when `xrandr` is not installed (the listing is then empty).
pub fn xrandr_monitors_query(tools: &ToolSet) -> (r: Option<Invocation>)
    ensures
        opt_inv_view(r) == spec_xrandr_query(*tools),
{
    if tools.xrandr {
        let mut inv = Invocation::new("xrandr");
        inv.arg("--query");
        proof {
            assert(inv@ =~= spec_xrandr_query(*tools)->Some_0);
        }
        Some(inv)
    } else {
        None
    }
}

/// What an xrandr-backed monitor listing returns: every parseable
/// monitor line of the output, or nothing at all without the tool.
pub open spec fn xrandr_listing(
    tools: ToolSet,
    stdout: Seq<char>,
    r: Result<Vec<Monitor>, Error>,
) -> bool {
    if tools.xrandr {
        r matches Ok(v) && monitor_views(v@) == spec_xrandr_monitors(lines_spec(stdout))
    } else {
        r matches Ok(v) && v@.len() == 0
    }
}

/// List monitors from the output of `xrandr --query`; unparseable
/// lines are skipped and a missing tool degrades to an empty list.
pub fn xrandr_list_monitors(tools: &ToolSet, output: &CmdOutput) -> (r: Result<
    Vec<Monitor>,
    Error,
>)
    ensures
        xrandr_listing(*tools, output.stdout@, r),
{
    if !tools.xrandr {
        return Ok(Vec::new());
    }
    Ok(parse_xrandr_monitors(output.stdout.as_str()))
}

/// The display-mode translation table, in one place: for every
/// adapter with a mode vocabulary and every `DisplayMode`, the exact
/// flag or keyword its set-wallpaper plan carries (the plans' own
/// contracts place these values into the built command lines).
/// hyprpaper, KDE and XFCE take no mode at all: their plan
/// specifications have no mode parameter.
pub proof fn lemma_mode_flag_table()
    ensures
        crate::x11::feh_mode_flag(crate::types::DisplayMode::Fill) == "--bg-fill"@,
        crate::x11::feh_mode_flag(crate::types::DisplayMode::Fit) == "--bg-max"@,
        crate::x11::feh_mode_flag(crate::types::DisplayMode::Stretch) == "--bg-scale"@,
        crate::x11::feh_mode_flag(crate::types::DisplayMode::Center) == "--bg-center"@,
        crate::x11::feh_mode_flag(crate::types::DisplayMode::Tile) == "--bg-tile"@,
        crate::x11::nitrogen_mode_flag(crate::types::DisplayMode::Fill) == "--set-zoom-fill"@,
        crate::x11::nitrogen_mode_flag(crate::types::DisplayMode::Fit) == "--set-auto"@,
        crate::x11::nitrogen_mode_flag(crate::types::DisplayMode::Stretch) == "--set-scaled"@,
        crate::x11::nitrogen_mode_flag(crate::types::DisplayMode::Center) == "--set-centered"@,
        crate::x11::nitrogen_mode_flag(crate::types::DisplayMode::Tile) == "--set-tiled"@,
        crate::x11::xwallpaper_mode_flag(crate::types::DisplayMode::Fill) == "--zoom"@,
        crate::x11::xwallpaper_mode_flag(crate::types::DisplayMode::Fit) == "--maximize"@,
        crate::x11::xwallpaper_mode_flag(crate::types::DisplayMode::Stretch) == "--stretch"@,
        crate::x11::xwallpaper_mode_flag(crate::types::DisplayMode::Center) == "--center"@,
        crate::x11::xwallpaper_mode_flag(crate::types::DisplayMode::Tile) == "--tile"@,
        crate::wayland::swww_resize_flag(crate::types::DisplayMode::Fill) == "crop"@,
        crate::wayland::swww_resize_flag(crate::types::DisplayMode::Fit) == "fit"@,
        crate::wayland::swww_resize_flag(crate::types::DisplayMode::Stretch) == "no"@,
        crate::wayland::swww_resize_flag(crate::types::DisplayMode::Center) == "fit"@,
        crate::wayland::swww_resize_flag(crate::types::DisplayMode::Tile) == "no"@,
        crate::wayland::swaybg_mode_flag(crate::types::DisplayMode::Fill) == "fill"@,
        crate::wayland::swaybg_mode_flag(crate::types::DisplayMode::Fit) == "fit"@,
        crate::wayland::swaybg_mode_flag(crate::types::DisplayMode::Stretch) == "stretch"@,
        crate::wayland::swaybg_mode_flag(crate::types::DisplayMode::Center) == "center"@,
        crate::wayland::swaybg_mode_flag(crate::types::DisplayMode::Tile) == "tile"@,
        crate::desktop::gnome_mode_flag(crate::types::DisplayMode::Fill) == "zoom"@,
        crate::desktop::gnome_mode_flag(crate::types::DisplayMode::Fit) == "scaled"@,
        crate::desktop::gnome_mode_flag(crate::types::DisplayMode::Stretch) == "stretched"@,
        crate::desktop::gnome_mode_flag(crate::types::DisplayMode::Center) == "centered"@,
        crate::desktop::gnome_mode_flag(crate::types::DisplayMode::Tile) == "wallpaper"@,
{
}

/// The view of an optional invocation.
pub open spec fn opt_inv_view(r: Option<Invocation>) -> Option<crate::command::InvocationView> {
    match r {
        Some(inv) => Some(inv@),
        None => None,
    }
}

/// The closed set of wallpaper adapters; exactly one is chosen at
/// startup and kept for the process lifetime.
#[derive(Clone, Copy, Debug, PartialEq, Eq, Structural)]
pub enum Adapter {
    Feh(crate::x11::FehAdapter),
    Nitrogen(crate::x11::NitrogenAdapter),
    XWallpaper(crate::x11::XWallpaperAdapter),
    Swww(crate::wayland::SwwwAdapter),
    Hyprpaper(crate::wayland::HyprpaperAdapter),
    Swaybg(crate::wayland::SwaybgAdapter),
    Gnome(crate::desktop::GnomeAdapter),
    Kde(crate::desktop::KdeAdapter),
    Xfce(crate::desktop::XfceAdapter),
}

/// The adapter's static identifier.
pub open spec fn spec_adapter_name(a: Adapter) -> Seq<char> {
    match a {
        Adapter::Feh(x) => x.spec_name(),
        Adapter::Nitrogen(x) => x.spec_name(),
        Adapter::XWallpaper(x) => x.spec_name(),
        Adapter::Swww(x) => x.spec_name(),
        Adapter::Hyprpaper(x) => x.spec_name(),
        Adapter::Swaybg(x) => x.spec_name(),
        Adapter::Gnome(x) => x.spec_name(),
        Adapter::Kde(x) => x.spec_name(),
        Adapter::Xfce(x) => x.spec_name(),
    }
}

/// Whether the adapter's tools are installed.
pub open spec fn spec_adapter_available(a: Adapter, tools: ToolSet) -> bool {
    match a {
        Adapter::Feh(x) => x.spec_available(tools),
        Adapter::Nitrogen(x) => x.spec_available(tools),
        Adapter::XWallpaper(x) => x.spec_available(tools),
        Adapter::Swww(x) => x.spec_available(tools),
        Adapter::Hyprpaper(x) => x.spec_available(tools),
        Adapter::Swaybg(x) => x.spec_available(tools),
        Adapter::Gnome(x) => x.spec_available(tools),
        Adapter::Kde(x) => x.spec_available(tools),
        Adapter::Xfce(x) => x.spec_available(tools),
    }
}

/// The command whose outcome `set_wallpaper` wants first: the daemon
/// liveness probe for swww and hyprpaper, the property listing for
/// XFCE, nothing for the rest.
pub open spec fn spec_adapter_prepare(a: Adapter) -> Option<crate::command::InvocationView> {
    match a {
        Adapter::Swww(_) => Some(
            crate::command::InvocationView {
                program: "pgrep"@,
                args: seq!["-x"@, "swww-daemon"@],
            },
        ),
        Adapter::Hyprpaper(_) => Some(
            crate::command::InvocationView { program: "pgrep"@, args: seq!["-x"@, "hyprpaper"@] },
        ),
        Adapter::Xfce(_) => Some(
            crate::command::InvocationView {
                program: "xfconf-query"@,
                args: seq!["-c"@, "xfce4-desktop"@, "-l"@],
            },
        ),
        _ => None,
    }
}

/// The full set-wallpaper plan of the chosen adapter.  `prep` is the
/// outcome of the preparatory command: its exit status answers the
/// daemon probes, its stdout carries XFCE's property listing.
pub open spec fn spec_adapter_set(
    a: Adapter,
    tools: ToolSet,
    prep_success: bool,
    prep_stdout: Seq<char>,
    path: Seq<char>,
    monitor: Option<Seq<char>>,
    mode: crate::types::DisplayMode,
) -> Result<Seq<crate::command::StepView>, crate::types::ErrorView> {
    match a {
        Adapter::Feh(_) => crate::x11::spec_feh_set(tools, path, monitor, mode),
        Adapter::Nitrogen(_) => crate::x11::spec_nitrogen_set(tools, path, mode),
        Adapter::XWallpaper(_) => crate::x11::spec_xwallpaper_set(tools, path, monitor, mode),
        Adapter::Swww(_) => crate::wayland::spec_swww_set(tools, prep_success, path, monitor, mode),
        Adapter::Hyprpaper(_) => crate::wayland::spec_hyprpaper_set(
            tools,
            prep_success,
            path,
            monitor,
        ),
        Adapter::Swaybg(_) => crate::wayland::spec_swaybg_set(tools, path, monitor, mode),
        Adapter::Gnome(_) => crate::desktop::spec_gnome_set(tools, path, mode),
        Adapter::Kde(_) => crate::desktop::spec_kde_set(tools, path),
        Adapter::Xfce(_) => crate::desktop::spec_xfce_set(tools, prep_stdout, path, monitor),
    }
}

/// The monitor-listing query of the chosen adapter, when it has one.
pub open spec fn spec_adapter_monitors_query(a: Adapter, tools: ToolSet) -> Option<
    crate::command::InvocationView,
> {
    match a {
        Adapter::Swww(_) => crate::wayland::spec_swww_query(tools),
        Adapter::Hyprpaper(_) => crate::wayland::spec_hyprctl_monitors_query(tools),
        Adapter::Swaybg(_) => crate::wayland::spec_swaymsg_outputs_query(tools),
        _ => spec_xrandr_query(tools),
    }
}

/// What the chosen adapter's monitor listing returns for the query's
/// outcome: the exact parse for the tabular listings, emptiness and
/// error conditions for the JSON ones (whose documents stay opaque).
pub open spec fn spec_adapter_listing(
    a: Adapter,
    tools: ToolSet,
    success: bool,
    stdout: Seq<char>,
    r: Result<Vec<Monitor>, Error>,
) -> bool {
    match a {
        Adapter::Swww(_) => r matches Ok(v) && crate::monitors::monitor_views(v@) == (
        if tools.swww && success {
            crate::monitors::spec_swww_monitors(lines_spec(stdout))
        } else {
            Seq::empty()
        }),
        Adapter::Hyprpaper(_) => ((!tools.hyprctl || !success) ==> (r matches Ok(v) && v@.len()
            == 0)) && ((tools.hyprctl && success) ==> ((r is Ok <==> crate::json::json_parses(
            stdout,
        )) && (r matches Ok(ms) ==> crate::monitors::monitor_views(ms@)
            == crate::json::spec_hyprctl_listing(crate::json::json_value_of(stdout))))) && (
        r matches Err(e) ==> e matches Error::Renderer(_)),
        Adapter::Swaybg(_) => ((!tools.swaymsg || !success) ==> (r matches Ok(v) && v@.len()
            == 0)) && ((tools.swaymsg && success) ==> ((r is Ok <==> crate::json::json_parses(
            stdout,
        )) && (r matches Ok(ms) ==> crate::monitors::monitor_views(ms@)
            == crate::json::spec_swaymsg_listing(crate::json::json_value_of(stdout))))) && (
        r matches Err(e) ==> e matches Error::Renderer(_)),
        _ => xrandr_listing(tools, stdout, r),
    }
}

/// The stop plan: kill the daemon or background process by name for
/// swww, hyprpaper and swaybg; a successful no-op for the rest.
pub open spec fn spec_adapter_stop(a: Adapter) -> Seq<crate::command::StepView> {
    match a {
        Adapter::Swww(_) => seq![crate::command::StepView::KillByName("swww-daemon"@)],
        Adapter::Hyprpaper(_) => seq![crate::command::StepView::KillByName("hyprpaper"@)],
        Adapter::Swaybg(_) => seq![crate::command::StepView::KillByName("swaybg"@)],
        _ => Seq::empty(),
    }
}

impl Adapter {
    /// The underlying adapter as a trait object.
    pub fn get_trait(&self) -> &dyn AdapterTrait {
        match self {
            Adapter::Feh(a) => a,
            Adapter::Nitrogen(a) => a,
            Adapter::XWallpaper(a) => a,
            Adapter::Swww(a) => a,
            Adapter::Hyprpaper(a) => a,
            Adapter::Swaybg(a) => a,
            Adapter::Gnome(a) => a,
            Adapter::Kde(a) => a,
            Adapter::Xfce(a) => a,
        }
    }

    pub fn name(&self) -> (r: &'static str)
        ensures
            r@ == spec_adapter_name(*self),
    {
        match self {
            Adapter::Feh(a) => a.name(),
            Adapter::Nitrogen(a) => a.name(),
            Adapter::XWallpaper(a) => a.name(),
            Adapter::Swww(a) => a.name(),
            Adapter::Hyprpaper(a) => a.name(),
            Adapter::Swaybg(a) => a.name(),
            Adapter::Gnome(a) => a.name(),
            Adapter::Kde(a) => a.name(),
            Adapter::Xfce(a) => a.name(),
        }
    }

    pub fn is_available(&self, tools: &ToolSet) -> (r: bool)
        ensures
            r == spec_adapter_available(*self, *tools),
    {
        match self {
            Adapter::Feh(a) => a.is_available(tools),
            Adapter::Nitrogen(a) => a.is_available(tools),
            Adapter::XWallpaper(a) => a.is_available(tools),
            Adapter::Swww(a) => a.is_available(tools),
            Adapter::Hyprpaper(a) => a.is_available(tools),
            Adapter::Swaybg(a) => a.is_available(tools),
            Adapter::Gnome(a) => a.is_available(tools),
            Adapter::Kde(a) => a.is_available(tools),
            Adapter::Xfce(a) => a.is_available(tools),
        }
    }

    /// The command to run before `set_wallpaper`, when any.
    pub fn prepare(&self) -> (r: Option<Invocation>)
        ensures
            opt_inv_view(r) == spec_adapter_prepare(*self),
    {
        match self {
            Adapter::Swww(a) => {
                let inv = a.daemon_probe();
                proof {
                    assert(inv@ =~= spec_adapter_prepare(*self)->Some_0);
                }
                Some(inv)
            },
            Adapter::Hyprpaper(a) => {
                let inv = a.daemon_probe();
                proof {
                    assert(inv@ =~= spec_adapter_prepare(*self)->Some_0);
                }
                Some(inv)
            },
            Adapter::Xfce(a) => {
                let inv = a.props_query();
                proof {
                    assert(inv@ =~= spec_adapter_prepare(*self)->Some_0);
                }
                Some(inv)
            },
            _ => None,
        }
    }

    /// Build the adapter's exact set-wallpaper plan.  `prep` is the
    /// outcome of the `prepare` command; adapters without one ignore
    /// it.
    pub fn set_wallpaper(
        &self,
        tools: &ToolSet,
        prep: &CmdOutput,
        path: &str,
        monitor: Option<&str>,
        mode: crate::types::DisplayMode,
    ) -> (r: Result<Vec<crate::command::Step>, Error>)
        ensures
            crate::command::plan_view(r) == spec_adapter_set(
                *self,
                *tools,
                prep.success,
                prep.stdout@,
                path@,
                crate::command::opt_str_view(monitor),
                mode,
            ),
    {
        match self {
            Adapter::Feh(a) => a.set_wallpaper(tools, path, monitor, mode),
            Adapter::Nitrogen(a) => a.set_wallpaper(tools, path, monitor, mode),
            Adapter::XWallpaper(a) => a.set_wallpaper(tools, path, monitor, mode),
            Adapter::Swww(a) => a.set_wallpaper(tools, prep.success, path, monitor, mode),
            Adapter::Hyprpaper(a) => a.set_wallpaper(tools, prep.success, path, monitor, mode),
            Adapter::Swaybg(a) => a.set_wallpaper(tools, path, monitor, mode),
            Adapter::Gnome(a) => a.set_wallpaper(tools, path, monitor, mode),
            Adapter::Kde(a) => a.set_wallpaper(tools, path, monitor, mode),
            Adapter::Xfce(a) => a.set_wallpaper(tools, prep.stdout.as_str(), path, monitor),
        }
    }

    /// The command whose output `list_monitors` parses, when any.
    pub fn monitors_query(&self, tools: &ToolSet) -> (r: Option<Invocation>)
        ensures
            opt_inv_view(r) == spec_adapter_monitors_query(*self, *tools),
    {
        match self {
            Adapter::Feh(a) => a.monitors_query(tools),
            Adapter::Nitrogen(a) => a.monitors_query(tools),
            Adapter::XWallpaper(a) => a.monitors_query(tools),
            Adapter::Swww(a) => a.monitors_query(tools),
            Adapter::Hyprpaper(a) => a.monitors_query(tools),
            Adapter::Swaybg(a) => a.monitors_query(tools),
            Adapter::Gnome(a) => a.monitors_query(tools),
            Adapter::Kde(a) => a.monitors_query(tools),
            Adapter::Xfce(a) => a.monitors_query(tools),
        }
    }

    /// Parse the monitor listing out of the query's output.
    pub fn list_monitors(&self, tools: &ToolSet, output: &CmdOutput) -> (r: Result<
        Vec<Monitor>,
        Error,
    >)
        ensures
            spec_adapter_listing(*self, *tools, output.success, output.stdout@, r),
    {
        match self {
            Adapter::Feh(a) => a.list_monitors(tools, output),
            Adapter::Nitrogen(a) => a.list_monitors(tools, output),
            Adapter::XWallpaper(a) => a.list_monitors(tools, output),
            Adapter::Swww(a) => a.list_monitors(tools, output),
            Adapter::Hyprpaper(a) => a.list_monitors(tools, output),
            Adapter::Swaybg(a) => a.list_monitors(tools, output),
            Adapter::Gnome(a) => a.list_monitors(tools, output),
            Adapter::Kde(a) => a.list_monitors(tools, output),
            Adapter::Xfce(a) => a.list_monitors(tools, output),
        }
    }

    /// The steps that stop the adapter's processes, if it has any.
    pub fn stop(&self) -> (r: Vec<crate::command::Step>)
        ensures
            crate::command::step_views(r@) == spec_adapter_stop(*self),
    {
        let r = match self {
            Adapter::Feh(a) => a.stop(),
            Adapter::Nitrogen(a) => a.stop(),
            Adapter::XWallpaper(a) => a.stop(),
            Adapter::Swww(a) => a.stop(),
            Adapter::Hyprpaper(a) => a.stop(),
            Adapter::Swaybg(a) => a.stop(),
            Adapter::Gnome(a) => a.stop(),
            Adapter::Kde(a) => a.stop(),
            Adapter::Xfce(a) => a.stop(),
        };
        proof {
            assert(crate::command::step_views(r@) =~= spec_adapter_stop(*self));
        }
        r
    }
}

} // verus!
