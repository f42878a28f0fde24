//! The video renderer: one looping, muted, fullscreen `mpv` child
//! per active wallpaper.

use vstd::prelude::*;
use crate::command::{Invocation, InvocationView, opt_str_view};
use crate::detector::ToolSet;
use crate::renderer::{ProcHandle, RendererTrait, StartPlan};
use crate::types::{concat_str, Error, ErrorView};

verus! {

/// The exact mpv command line: loop, no audio, hardware decoding, 30
/// fps, no on-screen controls, fullscreen on the requested monitor,
/// kept behind other windows.
pub open spec fn spec_mpv_invocation(
    wayland: bool,
    path: Seq<char>,
    monitor: Option<Seq<char>>,
) -> InvocationView {
    let base = seq![
        "--loop"@,
        "--no-audio"@,
        "--hwdec=auto"@,
        "--vo=gpu"@,
        "--profile=low-latency"@,
        "--fps=30"@,
        "--no-osc"@,
        "--no-osd-bar"@,
        "--no-input-default-bindings"@,
        "--input-conf=/dev/null"@,
        "--no-border"@,
        "--fs"@,
    ];
    let screen = match monitor {
        Some(m) => if wayland {
            seq!["--fs-screen="@ + m]
        } else {
            seq!["--screen="@ + m]
        },
        None => Seq::empty(),
    };
    InvocationView {
        program: "mpv"@,
        args: base + screen + seq!["--ontop=no"@, "--no-keepaspect-window"@, path],
    }
}

/// What a successful video start does: the old child goes back for
/// termination, the slot empties until `attach`, and the new path is
/// recorded.
pub open spec fn spec_video_started(
    v0: VideoRenderer,
    v1: VideoRenderer,
    plan: StartPlan,
    wayland: bool,
    path: Seq<char>,
    monitor: Option<Seq<char>>,
) -> bool {
    &&& plan.kill == v0.process
    &&& plan.spawn@ == spec_mpv_invocation(wayland, path, monitor)
    &&& v1.process is None
    &&& v1.current_path matches Some(p) && p@ == path
}

/// No two children ever run for one renderer instance: across
/// start, attach and a second start, the second start surrenders
/// exactly the first start's child for termination before the second
/// child can be attached, and the slot is empty in between.
pub proof fn lemma_restart_surrenders_child(
    v0: VideoRenderer,
    v1: VideoRenderer,
    v3: VideoRenderer,
    plan1: StartPlan,
    plan2: StartPlan,
    h1: ProcHandle,
    wayland: bool,
    path1: Seq<char>,
    path2: Seq<char>,
    monitor: Option<Seq<char>>,
)
    requires
        spec_video_started(v0, v1, plan1, wayland, path1, monitor),
        spec_video_started(
            VideoRenderer { process: Some(h1), ..v1 },
            v3,
            plan2,
            wayland,
            path2,
            monitor,
        ),
    ensures
        plan2.kill == Some(h1),
        v3.process is None,
{
}

/// The video renderer; `process` is the one child it accounts for.
#[derive(Clone, Debug)]
pub struct VideoRenderer {
    pub process: Option<ProcHandle>,
    pub current_path: Option<String>,
}

impl VideoRenderer {
    pub fn new() -> (r: Self)
        ensures
            r.process is None,
            r.current_path is None,
    {
        VideoRenderer { process: None, current_path: None }
    }

    /// Begin a start: surrender the old child for termination and
    /// build the exact mpv command for the caller to spawn; the
    /// spawned child is then handed back through `attach`.
    pub fn start(
        &mut self,
        tools: &ToolSet,
        wayland: bool,
        path: &str,
        monitor: Option<&str>,
    ) -> (r: Result<StartPlan, Error>)
        ensures
            !tools.mpv ==> (r matches Err(e) && e@ == ErrorView::Renderer("mpv not found"@)
                && *final(self) == *old(self)),
            tools.mpv ==> (r matches Ok(plan) && spec_video_started(
                *old(self),
                *final(self),
                plan,
                wayland,
                path@,
                opt_str_view(monitor),
            )),
    {
        if !tools.mpv {
            return Err(Error::Renderer("mpv not found".to_owned()));
        }
        let kill = self.process;
        self.process = None;
        let mut inv = Invocation::new("mpv");
        inv.arg("--loop");
        inv.arg("--no-audio");
        inv.arg("--hwdec=auto");
        inv.arg("--vo=gpu");
        inv.arg("--profile=low-latency");
        inv.arg("--fps=30");
        inv.arg("--no-osc");
        inv.arg("--no-osd-bar");
        inv.arg("--no-input-default-bindings");
        inv.arg("--input-conf=/dev/null");
        inv.arg("--no-border");
        inv.arg("--fs");
        match monitor {
            Some(m) => {
                if wayland {
                    inv.arg_owned(concat_str("--fs-screen=", m));
                } else {
                    inv.arg_owned(concat_str("--screen=", m));
                }
            },
            None => {},
        }
        inv.arg("--ontop=no");
        inv.arg("--no-keepaspect-window");
        inv.arg(path);
        self.current_path = Some(path.to_owned());
        proof {
            assert(inv@.args =~= spec_mpv_invocation(wayland, path@, opt_str_view(monitor)).args);
            assert(inv@ =~= spec_mpv_invocation(wayland, path@, opt_str_view(monitor)));
        }
        Ok(StartPlan { kill, spawn: inv })
    }
}

impl RendererTrait for VideoRenderer {
    open spec fn spec_name(&self) -> Seq<char> {
        "mpv-video"@
    }

    open spec fn spec_available(&self, tools: ToolSet) -> bool {
        tools.mpv
    }

    open spec fn spec_process(&self) -> Option<ProcHandle> {
        self.process
    }

    fn name(&self) -> &'static str {
        "mpv-video"
    }

    fn is_available(&self, tools: &ToolSet) -> bool {
        tools.mpv
    }

    fn is_running(&self) -> bool {
        self.process.is_some()
    }

    fn stop(&mut self) -> (h: Option<ProcHandle>)
        ensures
            final(self).current_path is None,
    {
        let h = self.process;
        self.process = None;
        self.current_path = None;
        h
    }

    fn attach(&mut self, h: ProcHandle)
        ensures
            final(self).current_path == old(self).current_path,
    {
        self.process = Some(h);
    }
}

} // verus!
