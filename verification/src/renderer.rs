//! The content-renderer interface: each renderer owns at most one
//! background child process.  This crate only does the bookkeeping
//! and builds the commands; the caller spawns and kills, and hands a
//! handle for each spawned child back in.
//!
//! The start protocol has two phases: `start` surrenders the old
//! child for termination and yields the spawn command, and `attach`
//! records the newly spawned child.  `attach` demands an empty slot,
//! so no renderer instance ever accounts for two live children.

use vstd::prelude::*;
use crate::command::Invocation;
use crate::detector::ToolSet;

verus! {

/// The caller's token for one spawned child process.
#[derive(Clone, Copy, Debug, PartialEq, Eq, Structural)]
pub struct ProcHandle {
    pub id: u64,
}

/// What a successful `start` hands back: the child to terminate
/// first, if one was held, and the command to spawn then.
#[derive(Clone, Debug)]
pub struct StartPlan {
    pub kill: Option<ProcHandle>,
    pub spawn: Invocation,
}

/// The stop transition on a renderer's child slot: the slot empties,
/// and the held child, if any, goes back to the caller for
/// termination.  Every renderer's `stop` follows this transition.
pub open spec fn spec_stop(p: Option<ProcHandle>) -> (Option<ProcHandle>, Option<ProcHandle>) {
    (None, p)
}

/// Stopping is idempotent: a second stop right after a first one
/// leaves the same stopped state and hands no further child out, so
/// both calls observe the same outcome (success, nothing running).
pub proof fn lemma_stop_idempotent(p: Option<ProcHandle>)
    ensures
        spec_stop(spec_stop(p).0).0 == spec_stop(p).0,
        spec_stop(spec_stop(p).0).1 is None,
{
}

/// What every content renderer can say of itself, and the shared
/// lifecycle: the slot for the one child process.
pub trait RendererTrait {
    /// The renderer's static identifier.
    spec fn spec_name(&self) -> Seq<char>;

    /// Whether the renderer's backing binary can be used.
    spec fn spec_available(&self, tools: ToolSet) -> bool;

    /// The held child process, if any.
    spec fn spec_process(&self) -> Option<ProcHandle>;

    fn name(&self) -> (r: &'static str)
        ensures
            r@ == self.spec_name(),
    ;

    fn is_available(&self, tools: &ToolSet) -> (r: bool)
        ensures
            r == self.spec_available(*tools),
    ;

    /// True exactly when a child handle is held: a liveness
    /// approximation, not a health check — a crashed child goes
    /// unnoticed until the next start or stop.
    fn is_running(&self) -> (r: bool)
        ensures
            r == (self.spec_process() is Some),
    ;

    /// Clear the slot and hand any held child back for termination.
    /// Idempotent: on a never-started or already-stopped renderer it
    /// succeeds and hands nothing back (see `lemma_stop_idempotent`).
    fn stop(&mut self) -> (h: Option<ProcHandle>)
        ensures
            (final(self).spec_process(), h) == spec_stop(old(self).spec_process()),
    ;

    /// Record a freshly spawned child.  The slot must be empty: a
    /// renderer never accounts for two live children.
    fn attach(&mut self, h: ProcHandle)
        requires
            old(self).spec_process() is None,
        ensures
            final(self).spec_process() == Some(h),
    ;
}

/// The closed set of content renderers, one per wallpaper kind that
/// needs a live child process.
#[derive(Clone, Debug)]
pub enum Renderer {
    Video(crate::video::VideoRenderer),
    Spine(crate::spine::SpineRenderer),
    WallpaperEngine(crate::wallpaper_engine::WallpaperEngineRenderer),
}

/// The held child of whichever renderer is active.
pub open spec fn spec_renderer_process(r: Renderer) -> Option<ProcHandle> {
    match r {
        Renderer::Video(v) => v.spec_process(),
        Renderer::Spine(v) => v.spec_process(),
        Renderer::WallpaperEngine(v) => v.spec_process(),
    }
}

impl Renderer {
    pub fn name(&self) -> (r: &'static str)
        ensures
            r@ == match *self {
                Renderer::Video(v) => v.spec_name(),
                Renderer::Spine(v) => v.spec_name(),
                Renderer::WallpaperEngine(v) => v.spec_name(),
            },
    {
        match self {
            Renderer::Video(r) => r.name(),
            Renderer::Spine(r) => r.name(),
            Renderer::WallpaperEngine(r) => r.name(),
        }
    }

    pub fn is_available(&self, tools: &ToolSet) -> (r: bool)
        ensures
            r == match *self {
                Renderer::Video(v) => v.spec_available(*tools),
                Renderer::Spine(v) => v.spec_available(*tools),
                Renderer::WallpaperEngine(v) => v.spec_available(*tools),
            },
    {
        match self {
            Renderer::Video(r) => r.is_available(tools),
            Renderer::Spine(r) => r.is_available(tools),
            Renderer::WallpaperEngine(r) => r.is_available(tools),
        }
    }

    /// True exactly when a child handle is held.
    pub fn is_running(&self) -> (r: bool)
        ensures
            r == (spec_renderer_process(*self) is Some),
    {
        match self {
            Renderer::Video(r) => r.is_running(),
            Renderer::Spine(r) => r.is_running(),
            Renderer::WallpaperEngine(r) => r.is_running(),
        }
    }

    /// Clear the slot and hand any held child back for termination;
    /// idempotent.
    pub fn stop(&mut self) -> (h: Option<ProcHandle>)
        ensures
            h == spec_renderer_process(*old(self)),
            spec_renderer_process(*final(self)) is None,
    {
        match self {
            Renderer::Video(r) => r.stop(),
            Renderer::Spine(r) => r.stop(),
            Renderer::WallpaperEngine(r) => r.stop(),
        }
    }

    /// Record a freshly spawned child; the slot must be empty.
    pub fn attach(&mut self, h: ProcHandle)
        requires
            spec_renderer_process(*old(self)) is None,
        ensures
            spec_renderer_process(*final(self)) == Some(h),
    {
        match self {
            Renderer::Video(r) => r.attach(h),
            Renderer::Spine(r) => r.attach(h),
            Renderer::WallpaperEngine(r) => r.attach(h),
        }
    }
}

} // verus!
