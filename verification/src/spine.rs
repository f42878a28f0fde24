//! The Spine animation renderer.  It is switched off in this
//! version as a deliberate product decision: it never reports itself
//! available and every start fails the same way, whatever binaries
//! the system holds.  The resolver for its backing binary remains in
//! place for a later version.

use vstd::prelude::*;
use crate::detector::ToolSet;
use crate::renderer::{ProcHandle, RendererTrait, StartPlan};
use crate::text::trim_spec;
use crate::types::{has_entry, has_skel_entry, Error, ErrorView};

verus! {

/// The filesystem and `which` answers the resolver reads: one `which`
/// result per candidate binary, in the fixed candidate order, then
/// one existence bit per fixed install path.
#[derive(Clone, Debug)]
pub struct SpineProbe {
    /// `which spine-wallpaper` output, when it succeeded.
    pub which_spine_wallpaper: Option<String>,
    /// `which spine-player` output, when it succeeded.
    pub which_spine_player: Option<String>,
    /// `which spine-runtime` output, when it succeeded.
    pub which_spine_runtime: Option<String>,
    /// Whether `/usr/bin/spine-wallpaper` exists.
    pub usr_bin_exists: bool,
    /// Whether `/usr/local/bin/spine-wallpaper` exists.
    pub usr_local_bin_exists: bool,
    /// Whether `~/.local/bin/spine-wallpaper` exists (after tilde
    /// expansion).
    pub home_local_bin_exists: bool,
    /// The home directory, for tilde expansion.
    pub home: String,
}

/// Which binary the resolver picks: the first `which` hit (trimmed),
/// else the first existing fixed install path.
pub open spec fn spec_find_spine_renderer(p: SpineProbe) -> Option<Seq<char>> {
    match p.which_spine_wallpaper {
        Some(w) => Some(trim_spec(w@)),
        None => match p.which_spine_player {
            Some(w) => Some(trim_spec(w@)),
            None => match p.which_spine_runtime {
                Some(w) => Some(trim_spec(w@)),
                None => spec_find_spine_fixed(p),
            },
        },
    }
}

/// The fixed-install-path half of the resolver.
pub open spec fn spec_find_spine_fixed(p: SpineProbe) -> Option<Seq<char>> {
    if p.usr_bin_exists {
        Some("/usr/bin/spine-wallpaper"@)
    } else if p.usr_local_bin_exists {
        Some("/usr/local/bin/spine-wallpaper"@)
    } else if p.home_local_bin_exists {
        Some(p.home@ + "/.local/bin/spine-wallpaper"@)
    } else {
        None
    }
}

/// Resolve the Spine runtime binary from the probe's answers.
pub fn find_spine_renderer(p: &SpineProbe) -> (r: Option<String>)
    ensures
        match r {
            Some(s) => spec_find_spine_renderer(*p) == Some(s@),
            None => spec_find_spine_renderer(*p) is None,
        },
{
    match &p.which_spine_wallpaper {
        Some(w) => {
            return Some(crate::text::trim(w.as_str()).to_owned());
        },
        None => {},
    }
    match &p.which_spine_player {
        Some(w) => {
            return Some(crate::text::trim(w.as_str()).to_owned());
        },
        None => {},
    }
    match &p.which_spine_runtime {
        Some(w) => {
            return Some(crate::text::trim(w.as_str()).to_owned());
        },
        None => {},
    }
    if p.usr_bin_exists {
        return Some("/usr/bin/spine-wallpaper".to_owned());
    }
    if p.usr_local_bin_exists {
        return Some("/usr/local/bin/spine-wallpaper".to_owned());
    }
    if p.home_local_bin_exists {
        let mut s = p.home.clone();
        s.append("/.local/bin/spine-wallpaper");
        return Some(s);
    }
    None
}

/// The Spine renderer.
#[derive(Clone, Debug)]
pub struct SpineRenderer {
    pub process: Option<ProcHandle>,
    pub current_path: Option<String>,
    pub renderer_path: Option<String>,
}

impl SpineRenderer {
    /// A fresh renderer around the resolved runtime binary, if any.
    pub fn new(renderer_path: Option<String>) -> (r: Self)
        ensures
            r.process is None,
            r.current_path is None,
            r.renderer_path == renderer_path,
    {
        SpineRenderer { process: None, current_path: None, renderer_path }
    }

    /// A standalone Spine directory: it is a directory, holds a
    /// `.skel` file and no `project.json` (which would make it a
    /// Wallpaper-Engine project instead).
    pub fn is_spine_directory(is_dir: bool, entries: &Vec<String>) -> (r: bool)
        ensures
            r == (is_dir && has_skel_entry(crate::text::str_views(entries@)) && !has_entry(
                crate::text::str_views(entries@),
                "project.json"@,
            )),
    {
        if !is_dir {
            return false;
        }
        let ghost ev = crate::text::str_views(entries@);
        let mut has_skel = false;
        let mut has_project = false;
        let mut i: usize = 0;
        while i < entries.len()
            invariant
                i <= entries.len(),
                ev == crate::text::str_views(entries@),
                ev.len() == entries.len(),
                has_project == (exists|j: int| 0 <= j < i && ev[j] == "project.json"@),
                has_skel == (exists|j: int|
                    0 <= j < i && crate::types::spec_extension(ev[j]) == Some("skel"@)),
            decreases entries.len() - i,
        {
            let e: &String = &entries[i];
            if crate::text::eq_exact(e.as_str(), "project.json") {
                has_project = true;
            }
            match crate::types::extension_of(e.as_str()) {
                Some(x) => {
                    if crate::text::eq_exact(x, "skel") {
                        has_skel = true;
                    }
                },
                None => {},
            }
            proof {
                assert(ev[i as int] == e@);
                if exists|j: int| 0 <= j < i + 1 && ev[j] == "project.json"@ {
                    let j = choose|j: int| 0 <= j < i + 1 && ev[j] == "project.json"@;
                    if j == i as int {
                        assert(e@ == "project.json"@);
                    }
                }
                if exists|j: int|
                    0 <= j < i + 1 && crate::types::spec_extension(ev[j]) == Some("skel"@) {
                    let j = choose|j: int|
                        0 <= j < i + 1 && crate::types::spec_extension(ev[j]) == Some("skel"@);
                    if j == i as int {
                        assert(crate::types::spec_extension(e@) == Some("skel"@));
                    }
                }
            }
            i = i + 1;
        }
        has_skel && !has_project
    }

    /// Start never succeeds in this version: the failure is a
    /// product decision, not an environment probe.
    pub fn start(&mut self, _path: &str, _monitor: Option<&str>) -> (r: Result<StartPlan, Error>)
        ensures
            r matches Err(e) && e@ == ErrorView::Renderer(
                "Spine animation support is coming soon! Currently under development."@,
            ),
            *final(self) == *old(self),
    {
        Err(
            Error::Renderer(
                "Spine animation support is coming soon! Currently under development.".to_owned(),
            ),
        )
    }
}

impl RendererTrait for SpineRenderer {
    open spec fn spec_name(&self) -> Seq<char> {
        "spine"@
    }

    /// Never available in this version, whatever is installed.
    open spec fn spec_available(&self, tools: ToolSet) -> bool {
        false
    }

    open spec fn spec_process(&self) -> Option<ProcHandle> {
        self.process
    }

    fn name(&self) -> &'static str {
        "spine"
    }

    fn is_available(&self, _tools: &ToolSet) -> bool {
        false
    }

    fn is_running(&self) -> bool {
        self.process.is_some()
    }

    fn stop(&mut self) -> (h: Option<ProcHandle>)
        ensures
            final(self).current_path is None,
            final(self).renderer_path == old(self).renderer_path,
    {
        let h = self.process;
        self.process = None;
        self.current_path = None;
        h
    }

    fn attach(&mut self, h: ProcHandle)
        ensures
            final(self).current_path == old(self).current_path,
            final(self).renderer_path == old(self).renderer_path,
    {
        self.process = Some(h);
    }
}

} // verus!
