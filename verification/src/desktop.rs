//! The desktop-environment adapters: GNOME (gsettings), KDE (qdbus)
//! and XFCE (xfconf-query).  The wallpaper setting persists in
//! desktop state, so stopping these is always a successful no-op.

use vstd::prelude::*;
use crate::command::{
    Invocation, Step, StepView, CmdOutput, plan_view, run_step, run_quiet_step, opt_str_view,
    step_views,
};
use crate::detector::ToolSet;
use crate::text::{
    has_sub, ends_with_spec, lines_spec, str_views, contains_sub, ends_with, lines_of,
};
use crate::types::{concat_str, DisplayMode, Error, ErrorView, Monitor};

verus! {

/// GNOME's `picture-options` vocabulary for the generic display
/// modes.
pub open spec fn gnome_mode_flag(mode: DisplayMode) -> Seq<char> {
    match mode {
        DisplayMode::Fill => "zoom"@,
        DisplayMode::Fit => "scaled"@,
        DisplayMode::Stretch => "stretched"@,
        DisplayMode::Center => "centered"@,
        DisplayMode::Tile => "wallpaper"@,
    }
}

/// GNOME's picture option for one display mode.
pub fn gnome_mode_arg(mode: DisplayMode) -> (r: &'static str)
    ensures
        r@ == gnome_mode_flag(mode),
{
    match mode {
        DisplayMode::Fill => "zoom",
        DisplayMode::Fit => "scaled",
        DisplayMode::Stretch => "stretched",
        DisplayMode::Center => "centered",
        DisplayMode::Tile => "wallpaper",
    }
}

/// The full plan of GNOME's set-wallpaper call: the light-mode URI
/// must succeed; the dark-mode URI and the picture option are
/// non-critical secondary effects and may fail silently.  GNOME has
/// no per-monitor setting, so the monitor argument is ignored.
pub open spec fn spec_gnome_set(
    tools: ToolSet,
    path: Seq<char>,
    mode: DisplayMode,
) -> Result<Seq<StepView>, ErrorView> {
    if !tools.gsettings {
        Err(ErrorView::AdapterUnavailable("gsettings not found"@))
    } else {
        let uri = "file://"@ + path;
        Ok(
            seq![
                run_step(
                    "gsettings"@,
                    seq!["set"@, "org.gnome.desktop.background"@, "picture-uri"@, uri],
                ),
                run_quiet_step(
                    "gsettings"@,
                    seq!["set"@, "org.gnome.desktop.background"@, "picture-uri-dark"@, uri],
                ),
                run_quiet_step(
                    "gsettings"@,
                    seq![
                        "set"@,
                        "org.gnome.desktop.background"@,
                        "picture-options"@,
                        gnome_mode_flag(mode),
                    ],
                ),
            ],
        )
    }
}

/// The GNOME adapter, driven through gsettings.
#[derive(Clone, Copy, Debug, PartialEq, Eq, Structural)]
pub struct GnomeAdapter;

impl GnomeAdapter {
    pub fn new() -> (r: Self)
        ensures
            r == GnomeAdapter,
    {
        GnomeAdapter
    }



    /// Build GNOME's exact set-wallpaper plan.
    pub fn set_wallpaper(
        &self,
        tools: &ToolSet,
        path: &str,
        _monitor: Option<&str>,
        mode: DisplayMode,
    ) -> (r: Result<Vec<Step>, Error>)
        ensures
            plan_view(r) == spec_gnome_set(*tools, path@, mode),
    {
        if !tools.gsettings {
            let r = Err(Error::AdapterUnavailable("gsettings not found".to_owned()));
            proof {
                assert(plan_view(r) =~~= spec_gnome_set(*tools, path@, mode));
            }
            return r;
        }
        let uri = concat_str("file://", path);
        let mut uri_inv = Invocation::new("gsettings");
        uri_inv.arg("set");
        uri_inv.arg("org.gnome.desktop.background");
        uri_inv.arg("picture-uri");
        uri_inv.arg(uri.as_str());
        let ghost uri_iv = uri_inv@;
        let mut dark_inv = Invocation::new("gsettings");
        dark_inv.arg("set");
        dark_inv.arg("org.gnome.desktop.background");
        dark_inv.arg("picture-uri-dark");
        dark_inv.arg(uri.as_str());
        let ghost dark_iv = dark_inv@;
        let mut opt_inv = Invocation::new("gsettings");
        opt_inv.arg("set");
        opt_inv.arg("org.gnome.desktop.background");
        opt_inv.arg("picture-options");
        opt_inv.arg(gnome_mode_arg(mode));
        let ghost opt_iv = opt_inv@;
        let mut steps: Vec<Step> = Vec::new();
        steps.push(Step::Run(uri_inv));
        steps.push(Step::RunQuiet(dark_inv));
        steps.push(Step::RunQuiet(opt_inv));
        let r = Ok(steps);
        proof {
            let uri_s = "file://"@ + path@;
            assert(uri_iv.args =~= seq![
                "set"@,
                "org.gnome.desktop.background"@,
                "picture-uri"@,
                uri_s,
            ]);
            assert(dark_iv.args =~= seq![
                "set"@,
                "org.gnome.desktop.background"@,
                "picture-uri-dark"@,
                uri_s,
            ]);
            assert(opt_iv.args =~= seq![
                "set"@,
                "org.gnome.desktop.background"@,
                "picture-options"@,
                gnome_mode_flag(mode),
            ]);
            assert(uri_iv =~= crate::command::InvocationView {
                program: "gsettings"@,
                args: uri_iv.args,
            });
            assert(dark_iv =~= crate::command::InvocationView {
                program: "gsettings"@,
                args: dark_iv.args,
            });
            assert(opt_iv =~= crate::command::InvocationView {
                program: "gsettings"@,
                args: opt_iv.args,
            });
            assert(step_views(steps@) =~~= spec_gnome_set(*tools, path@, mode)->Ok_0);
        }
        r
    }

    /// The command whose output `list_monitors` wants, when any.
    pub fn monitors_query(&self, tools: &ToolSet) -> (r: Option<Invocation>)
        ensures
            crate::adapter::opt_inv_view(r) == crate::adapter::spec_xrandr_query(*tools),
    {
        crate::adapter::xrandr_monitors_query(tools)
    }

    /// Parse the monitors out of the query's output.
    pub fn list_monitors(&self, tools: &ToolSet, output: &CmdOutput) -> (r: Result<
        Vec<Monitor>,
        Error,
    >)
        ensures
            crate::adapter::xrandr_listing(*tools, output.stdout@, r),
    {
        crate::adapter::xrandr_list_monitors(tools, output)
    }

    /// The setting persists in desktop state: nothing to stop.
    pub fn stop(&self) -> (r: Vec<Step>)
        ensures
            r@.len() == 0,
    {
        Vec::new()
    }
}

/// The head of the Plasma script, up to the embedded wallpaper path.
pub open spec fn kde_script_head() -> Seq<char> {
    "\n            const allDesktops = desktops();\n            for (const desktop of allDesktops) {\n                desktop.currentConfigGroup = [\"Wallpaper\", \"org.kde.image\", \"General\"];\n                desktop.writeConfig(\"Image\", \"file://"@
}

/// The tail of the Plasma script, after the embedded wallpaper path.
pub open spec fn kde_script_tail() -> Seq<char> {
    "\");\n            }\n            "@
}

/// The full plan of KDE's set-wallpaper call: one Plasma scripting
/// call through whichever qdbus binary is present (`qdbus` first).
/// Monitor and mode have no vocabulary here and are ignored.
pub open spec fn spec_kde_set(tools: ToolSet, path: Seq<char>) -> Result<
    Seq<StepView>,
    ErrorView,
> {
    if !tools.qdbus && !tools.qdbus_qt5 {
        Err(ErrorView::AdapterUnavailable("qdbus not found"@))
    } else {
        let program = if tools.qdbus {
            "qdbus"@
        } else {
            "qdbus-qt5"@
        };
        let script = kde_script_head() + path + kde_script_tail();
        Ok(
            seq![
                run_step(
                    program,
                    seq![
                        "org.kde.plasmashell"@,
                        "/PlasmaShell"@,
                        "org.kde.PlasmaShell.evaluateScript"@,
                        script,
                    ],
                ),
            ],
        )
    }
}

/// The KDE adapter, driven through Plasma's scripting interface.
#[derive(Clone, Copy, Debug, PartialEq, Eq, Structural)]
pub struct KdeAdapter;

impl KdeAdapter {
    pub fn new() -> (r: Self)
        ensures
            r == KdeAdapter,
    {
        KdeAdapter
    }



    /// Build KDE's exact set-wallpaper plan.
    pub fn set_wallpaper(
        &self,
        tools: &ToolSet,
        path: &str,
        _monitor: Option<&str>,
        _mode: DisplayMode,
    ) -> (r: Result<Vec<Step>, Error>)
        ensures
            plan_view(r) == spec_kde_set(*tools, path@),
    {
        let program = if tools.qdbus {
            "qdbus"
        } else if tools.qdbus_qt5 {
            "qdbus-qt5"
        } else {
            let r = Err(Error::AdapterUnavailable("qdbus not found".to_owned()));
            proof {
                assert(plan_view(r) =~~= spec_kde_set(*tools, path@));
            }
            return r;
        };
        let script = concat_str(
            "\n            const allDesktops = desktops();\n            for (const desktop of allDesktops) {\n                desktop.currentConfigGroup = [\"Wallpaper\", \"org.kde.image\", \"General\"];\n                desktop.writeConfig(\"Image\", \"file://",
            path,
        );
        let script = crate::command::append_str(script, "\");\n            }\n            ");
        let mut inv = Invocation::new(program);
        inv.arg("org.kde.plasmashell");
        inv.arg("/PlasmaShell");
        inv.arg("org.kde.PlasmaShell.evaluateScript");
        inv.arg_owned(script);
        let ghost iv = inv@;
        let mut steps: Vec<Step> = Vec::new();
        steps.push(Step::Run(inv));
        let r = Ok(steps);
        proof {
            let script_s = kde_script_head() + path@ + kde_script_tail();
            assert(iv.args =~= seq![
                "org.kde.plasmashell"@,
                "/PlasmaShell"@,
                "org.kde.PlasmaShell.evaluateScript"@,
                script_s,
            ]);
            assert(iv =~= crate::command::InvocationView {
                program: if tools.qdbus {
                    "qdbus"@
                } else {
                    "qdbus-qt5"@
                },
                args: iv.args,
            });
            assert(step_views(steps@) =~~= spec_kde_set(*tools, path@)->Ok_0);
        }
        r
    }

    /// The command whose output `list_monitors` wants, when any.
    pub fn monitors_query(&self, tools: &ToolSet) -> (r: Option<Invocation>)
        ensures
            crate::adapter::opt_inv_view(r) == crate::adapter::spec_xrandr_query(*tools),
    {
        crate::adapter::xrandr_monitors_query(tools)
    }

    /// Parse the monitors out of the query's output.
    pub fn list_monitors(&self, tools: &ToolSet, output: &CmdOutput) -> (r: Result<
        Vec<Monitor>,
        Error,
    >)
        ensures
            crate::adapter::xrandr_listing(*tools, output.stdout@, r),
    {
        crate::adapter::xrandr_list_monitors(tools, output)
    }

    /// The setting persists in desktop state: nothing to stop.
    pub fn stop(&self) -> (r: Vec<Step>)
        ensures
            r@.len() == 0,
    {
        Vec::new()
    }
}

/// An xfconf property line that names a per-monitor wallpaper image.
pub open spec fn is_backdrop_prop(line: Seq<char>) -> bool {
    has_sub(line, "/backdrop/screen0/"@) && ends_with_spec(line, "/last-image"@)
}

/// The backdrop properties among the lines of `xfconf-query -l`
/// output, in order.
pub open spec fn backdrop_props(ls: Seq<Seq<char>>) -> Seq<Seq<char>>
    decreases ls.len(),
{
    if ls.len() == 0 {
        Seq::empty()
    } else {
        backdrop_props(ls.drop_last()) + (if is_backdrop_prop(ls.last()) {
            seq![ls.last()]
        } else {
            Seq::empty()
        })
    }
}

/// Whether a property is updated: all of them without a monitor,
/// else only those whose path mentions the monitor's name.
pub open spec fn prop_selected(prop: Seq<char>, monitor: Option<Seq<char>>) -> bool {
    match monitor {
        Some(m) => has_sub(prop, m),
        None => true,
    }
}

/// The properties that the update touches, in order.
pub open spec fn selected_props(
    props: Seq<Seq<char>>,
    monitor: Option<Seq<char>>,
) -> Seq<Seq<char>>
    decreases props.len(),
{
    if props.len() == 0 {
        Seq::empty()
    } else {
        selected_props(props.drop_last(), monitor) + (if prop_selected(props.last(), monitor) {
            seq![props.last()]
        } else {
            Seq::empty()
        })
    }
}

/// The update of one backdrop property.
pub open spec fn xfce_prop_step(prop: Seq<char>, path: Seq<char>) -> StepView {
    run_step("xfconf-query"@, seq!["-c"@, "xfce4-desktop"@, "-p"@, prop, "-s"@, path])
}

/// The full plan of XFCE's set-wallpaper call, given the listing of
/// xfconf's properties: one update per selected backdrop property.
/// Failing to find any backdrop property at all is an error; a
/// monitor name that matches none simply updates nothing.
pub open spec fn spec_xfce_set(
    tools: ToolSet,
    props_stdout: Seq<char>,
    path: Seq<char>,
    monitor: Option<Seq<char>>,
) -> Result<Seq<StepView>, ErrorView> {
    if !tools.xfconf_query {
        Err(ErrorView::AdapterUnavailable("xfconf-query not found"@))
    } else {
        let props = backdrop_props(lines_spec(props_stdout));
        if props.len() == 0 {
            Err(ErrorView::Renderer("No XFCE backdrop properties found"@))
        } else {
            Ok(
                selected_props(props, monitor).map_values(
                    |p: Seq<char>| xfce_prop_step(p, path),
                ),
            )
        }
    }
}

/// The XFCE adapter, driven through xfconf-query.
#[derive(Clone, Copy, Debug, PartialEq, Eq, Structural)]
pub struct XfceAdapter;

impl XfceAdapter {
    pub fn new() -> (r: Self)
        ensures
            r == XfceAdapter,
    {
        XfceAdapter
    }



    /// The property listing whose output `set_wallpaper` needs first.
    pub fn props_query(&self) -> (r: Invocation)
        ensures
            r@.program == "xfconf-query"@,
            r@.args =~= seq!["-c"@, "xfce4-desktop"@, "-l"@],
    {
        let mut inv = Invocation::new("xfconf-query");
        inv.arg("-c");
        inv.arg("xfce4-desktop");
        inv.arg("-l");
        inv
    }

    /// Build XFCE's exact set-wallpaper plan out of the property
    /// listing.
    pub fn set_wallpaper(
        &self,
        tools: &ToolSet,
        props_output: &str,
        path: &str,
        monitor: Option<&str>,
    ) -> (r: Result<Vec<Step>, Error>)
        ensures
            plan_view(r) == spec_xfce_set(*tools, props_output@, path@, opt_str_view(monitor)),
    {
        if !tools.xfconf_query {
            let r = Err(Error::AdapterUnavailable("xfconf-query not found".to_owned()));
            proof {
                assert(plan_view(r) =~~= spec_xfce_set(
                    *tools,
                    props_output@,
                    path@,
                    opt_str_view(monitor),
                ));
            }
            return r;
        }
        let lines = lines_of(props_output);
        let ghost lv = str_views(lines@);
        let mut props: Vec<String> = Vec::new();
        assert(str_views(props@) =~= backdrop_props(lv.subrange(0, 0)));
        let mut i: usize = 0;
        while i < lines.len()
            invariant
                i <= lines.len(),
                lv == str_views(lines@),
                lv.len() == lines.len(),
                str_views(props@) =~= backdrop_props(lv.subrange(0, i as int)),
            decreases lines.len() - i,
        {
            let ghost pre = lv.subrange(0, i as int);
            let ghost pre1 = lv.subrange(0, i + 1 as int);
            proof {
                assert(pre1.drop_last() =~= pre);
                assert(pre1.last() == lv[i as int]);
            }
            let line: &String = &lines[i];
            let ghost old_props = props@;
            if contains_sub(line.as_str(), "/backdrop/screen0/") && ends_with(
                line.as_str(),
                "/last-image",
            ) {
                props.push(line.clone());
                proof {
                    assert(str_views(props@) =~= str_views(old_props).push(lv[i as int]));
                }
            }
            assert(str_views(props@) =~= backdrop_props(pre1));
            i = i + 1;
        }
        proof {
            assert(lv.subrange(0, lines.len() as int) =~= lv);
        }
        if props.len() == 0 {
            let r = Err(Error::Renderer("No XFCE backdrop properties found".to_owned()));
            proof {
                assert(plan_view(r) =~~= spec_xfce_set(
                    *tools,
                    props_output@,
                    path@,
                    opt_str_view(monitor),
                ));
            }
            return r;
        }
        let ghost pv = str_views(props@);
        let mut steps: Vec<Step> = Vec::new();
        assert(step_views(steps@) =~= selected_props(pv.subrange(0, 0), opt_str_view(monitor))
            .map_values(|p: Seq<char>| xfce_prop_step(p, path@)));
        let mut k: usize = 0;
        while k < props.len()
            invariant
                k <= props.len(),
                pv == str_views(props@),
                pv.len() == props.len(),
                step_views(steps@) =~= selected_props(
                    pv.subrange(0, k as int),
                    opt_str_view(monitor),
                ).map_values(|p: Seq<char>| xfce_prop_step(p, path@)),
            decreases props.len() - k,
        {
            let ghost pre = pv.subrange(0, k as int);
            let ghost pre1 = pv.subrange(0, k + 1 as int);
            proof {
                assert(pre1.drop_last() =~= pre);
                assert(pre1.last() == pv[k as int]);
            }
            let prop: &String = &props[k];
            let selected = match monitor {
                Some(m) => contains_sub(prop.as_str(), m),
                None => true,
            };
            let ghost old_steps = steps@;
            if selected {
                let mut inv = Invocation::new("xfconf-query");
                inv.arg("-c");
                inv.arg("xfce4-desktop");
                inv.arg("-p");
                inv.arg(prop.as_str());
                inv.arg("-s");
                inv.arg(path);
                let ghost iv = inv@;
                steps.push(Step::Run(inv));
                proof {
                    assert(iv.args =~= seq![
                        "-c"@,
                        "xfce4-desktop"@,
                        "-p"@,
                        pv[k as int],
                        "-s"@,
                        path@,
                    ]);
                    assert(iv =~= crate::command::InvocationView {
                        program: "xfconf-query"@,
                        args: iv.args,
                    });
                    assert(step_views(steps@) =~= step_views(old_steps).push(
                        xfce_prop_step(pv[k as int], path@),
                    ));
                }
            }
            assert(step_views(steps@) =~= selected_props(pre1, opt_str_view(monitor)).map_values(
                |p: Seq<char>| xfce_prop_step(p, path@),
            ));
            k = k + 1;
        }
        proof {
            assert(pv.subrange(0, props.len() as int) =~= pv);
        }
        let r = Ok(steps);
        r
    }

    /// The command whose output `list_monitors` wants, when any.
    pub fn monitors_query(&self, tools: &ToolSet) -> (r: Option<Invocation>)
        ensures
            crate::adapter::opt_inv_view(r) == crate::adapter::spec_xrandr_query(*tools),
    {
        crate::adapter::xrandr_monitors_query(tools)
    }

    /// Parse the monitors out of the query's output.
    pub fn list_monitors(&self, tools: &ToolSet, output: &CmdOutput) -> (r: Result<
        Vec<Monitor>,
        Error,
    >)
        ensures
            crate::adapter::xrandr_listing(*tools, output.stdout@, r),
    {
        crate::adapter::xrandr_list_monitors(tools, output)
    }

    /// The setting persists in desktop state: nothing to stop.
    pub fn stop(&self) -> (r: Vec<Step>)
        ensures
            r@.len() == 0,
    {
        Vec::new()
    }
}


impl crate::adapter::AdapterTrait for GnomeAdapter {
    open spec fn spec_name(&self) -> Seq<char> {
        "gnome"@
    }

    open spec fn spec_available(&self, tools: ToolSet) -> bool {
        tools.gsettings
    }

    fn name(&self) -> &'static str {
        "gnome"
    }

    fn is_available(&self, tools: &ToolSet) -> bool {
        tools.gsettings
    }
}

impl crate::adapter::AdapterTrait for KdeAdapter {
    open spec fn spec_name(&self) -> Seq<char> {
        "kde"@
    }

    open spec fn spec_available(&self, tools: ToolSet) -> bool {
        tools.qdbus || tools.qdbus_qt5
    }

    fn name(&self) -> &'static str {
        "kde"
    }

    fn is_available(&self, tools: &ToolSet) -> bool {
        tools.qdbus || tools.qdbus_qt5
    }
}

impl crate::adapter::AdapterTrait for XfceAdapter {
    open spec fn spec_name(&self) -> Seq<char> {
        "xfce"@
    }

    open spec fn spec_available(&self, tools: ToolSet) -> bool {
        tools.xfconf_query
    }

    fn name(&self) -> &'static str {
        "xfce"
    }

    fn is_available(&self, tools: &ToolSet) -> bool {
        tools.xfconf_query
    }
}

} // verus!
