//! The Wallpaper-Engine renderer: one `linux-wallpaperengine` child
//! per active project.  The backing binary is resolved from a fixed
//! list of install paths before falling back to `which`.

use vstd::prelude::*;
use crate::command::{Invocation, InvocationView, opt_str_view};
use crate::detector::ToolSet;
use crate::renderer::{ProcHandle, RendererTrait, StartPlan};
use crate::text::trim_spec;
use crate::types::{has_entry, spec_parent, Error, ErrorView};

verus! {

/// The filesystem and `which` answers the resolver reads.
#[derive(Clone, Debug)]
pub struct EngineProbe {
    /// Whether `/usr/bin/linux-wallpaperengine` exists.
    pub usr_bin_exists: bool,
    /// Whether `/usr/local/bin/linux-wallpaperengine` exists.
    pub usr_local_bin_exists: bool,
    /// Whether `~/.local/bin/linux-wallpaperengine` exists (after
    /// tilde expansion).
    pub home_local_bin_exists: bool,
    /// The home directory, for tilde expansion.
    pub home: String,
    /// `which linux-wallpaperengine` output, when it succeeded.
    pub which_result: Option<String>,
}

/// Which binary the resolver picks: the first existing fixed install
/// path, else the trimmed `which` hit.
pub open spec fn spec_find_linux_wallpaperengine(p: EngineProbe) -> Option<Seq<char>> {
    if p.usr_bin_exists {
        Some("/usr/bin/linux-wallpaperengine"@)
    } else if p.usr_local_bin_exists {
        Some("/usr/local/bin/linux-wallpaperengine"@)
    } else if p.home_local_bin_exists {
        Some(p.home@ + "/.local/bin/linux-wallpaperengine"@)
    } else {
        match p.which_result {
            Some(w) => Some(trim_spec(w@)),
            None => None,
        }
    }
}

/// Resolve the linux-wallpaperengine binary from the probe's answers.
pub fn find_linux_wallpaperengine(p: &EngineProbe) -> (r: Option<String>)
    ensures
        match r {
            Some(s) => spec_find_linux_wallpaperengine(*p) == Some(s@),
            None => spec_find_linux_wallpaperengine(*p) is None,
        },
{
    if p.usr_bin_exists {
        return Some("/usr/bin/linux-wallpaperengine".to_owned());
    }
    if p.usr_local_bin_exists {
        return Some("/usr/local/bin/linux-wallpaperengine".to_owned());
    }
    if p.home_local_bin_exists {
        let mut s = p.home.clone();
        s.append("/.local/bin/linux-wallpaperengine");
        return Some(s);
    }
    match &p.which_result {
        Some(w) => Some(crate::text::trim(w.as_str()).to_owned()),
        None => None,
    }
}

/// The exact linux-wallpaperengine command line for one project
/// directory: silent, muted, 30 fps, on one screen or on all.
pub open spec fn spec_engine_invocation(
    binary: Seq<char>,
    project_dir: Seq<char>,
    monitor: Option<Seq<char>>,
) -> InvocationView {
    InvocationView {
        program: binary,
        args: seq!["--dir"@, project_dir, "--silent"@, "--noautomute"@, "--fps"@, "30"@]
            + match monitor {
            Some(m) => seq!["--screen-root"@, m],
            None => seq!["--screen-root"@, "all"@],
        },
    }
}

/// The project directory a start renders: the path itself when it is
/// a directory, else its parent.
pub open spec fn spec_project_dir(path: Seq<char>, is_dir: bool) -> Option<Seq<char>> {
    if is_dir {
        Some(path)
    } else {
        spec_parent(path)
    }
}

/// The Wallpaper-Engine renderer; `process` is the one child it
/// accounts for.
#[derive(Clone, Debug)]
pub struct WallpaperEngineRenderer {
    pub process: Option<ProcHandle>,
    pub current_path: Option<String>,
    pub linux_we_path: Option<String>,
}

impl WallpaperEngineRenderer {
    /// A fresh renderer around the resolved binary, if any.
    pub fn new(linux_we_path: Option<String>) -> (r: Self)
        ensures
            r.process is None,
            r.current_path is None,
            r.linux_we_path == linux_we_path,
    {
        WallpaperEngineRenderer { process: None, current_path: None, linux_we_path }
    }

    /// A Wallpaper-Engine project always has a `project.json`: the
    /// path is one, points at one, or sits beside one.  `entries`
    /// lists the path itself when it is a directory, else its parent;
    /// `is_file` says the path names an existing file.
    pub fn is_wallpaper_engine_project(
        path: &str,
        is_dir: bool,
        is_file: bool,
        entries: &Vec<String>,
    ) -> (r: bool)
        ensures
            r == ({
                if is_dir {
                    has_entry(crate::text::str_views(entries@), "project.json"@)
                } else if is_file {
                    crate::types::spec_file_name(path@) == "project.json"@ || has_entry(
                        crate::text::str_views(entries@),
                        "project.json"@,
                    )
                } else {
                    false
                }
            }),
    {
        if !is_dir && !is_file {
            return false;
        }
        if !is_dir && crate::text::eq_exact(crate::types::file_name_of(path), "project.json") {
            return true;
        }
        let ghost ev = crate::text::str_views(entries@);
        let mut has_project = false;
        let mut i: usize = 0;
        while i < entries.len()
            invariant
                i <= entries.len(),
                ev == crate::text::str_views(entries@),
                ev.len() == entries.len(),
                has_project == (exists|j: int| 0 <= j < i && ev[j] == "project.json"@),
            decreases entries.len() - i,
        {
            let e: &String = &entries[i];
            if crate::text::eq_exact(e.as_str(), "project.json") {
                has_project = true;
            }
            proof {
                assert(ev[i as int] == e@);
                if exists|j: int| 0 <= j < i + 1 && ev[j] == "project.json"@ {
                    let j = choose|j: int| 0 <= j < i + 1 && ev[j] == "project.json"@;
                    if j == i as int {
                        assert(e@ == "project.json"@);
                    }
                }
            }
            i = i + 1;
        }
        has_project
    }

    /// Begin a start: surrender the old child for termination and
    /// build the exact spawn command; the spawned child is then
    /// handed back through `attach`.  Fails without a resolved
    /// binary, or on a path with no project directory.
    pub fn start(&mut self, path: &str, is_dir: bool, monitor: Option<&str>) -> (r: Result<
        StartPlan,
        Error,
    >)
        ensures
            old(self).linux_we_path is None ==> (r matches Err(e) && e@ == ErrorView::Renderer(
                "linux-wallpaperengine not found"@,
            ) && *final(self) == *old(self)),
            (old(self).linux_we_path is Some && spec_project_dir(path@, is_dir) is None) ==> (
            r matches Err(e) && e@ == ErrorView::InvalidPath("Cannot determine project directory"@)
                && *final(self) == *old(self)),
            (old(self).linux_we_path is Some && spec_project_dir(path@, is_dir) is Some) ==> (
            r matches Ok(plan) && plan.kill == old(self).process && plan.spawn@
                == spec_engine_invocation(
                old(self).linux_we_path->Some_0@,
                spec_project_dir(path@, is_dir)->Some_0,
                opt_str_view(monitor),
            ) && final(self).process is None && (final(self).current_path matches Some(cp) && cp@
                == spec_project_dir(path@, is_dir)->Some_0) && final(self).linux_we_path == old(
                self,
            ).linux_we_path),
    {
        let binary = match &self.linux_we_path {
            Some(b) => b.clone(),
            None => {
                return Err(Error::Renderer("linux-wallpaperengine not found".to_owned()));
            },
        };
        let project_dir: String = if is_dir {
            path.to_owned()
        } else {
            match crate::types::parent_of(path) {
                Some(par) => par.to_owned(),
                None => {
                    return Err(Error::InvalidPath("Cannot determine project directory".to_owned()));
                },
            }
        };
        let kill = self.process;
        self.process = None;
        let mut inv = Invocation::new(binary.as_str());
        inv.arg("--dir");
        inv.arg(project_dir.as_str());
        inv.arg("--silent");
        inv.arg("--noautomute");
        inv.arg("--fps");
        inv.arg("30");
        inv.arg("--screen-root");
        match monitor {
            Some(m) => {
                inv.arg(m);
            },
            None => {
                inv.arg("all");
            },
        }
        self.current_path = Some(project_dir);
        proof {
            let d = spec_project_dir(path@, is_dir)->Some_0;
            assert(inv@.args =~= spec_engine_invocation(
                old(self).linux_we_path->Some_0@,
                d,
                opt_str_view(monitor),
            ).args);
            assert(inv@ =~= spec_engine_invocation(
                old(self).linux_we_path->Some_0@,
                d,
                opt_str_view(monitor),
            ));
        }
        Ok(StartPlan { kill, spawn: inv })
    }
}

impl RendererTrait for WallpaperEngineRenderer {
    open spec fn spec_name(&self) -> Seq<char> {
        "linux-wallpaperengine"@
    }

    /// Available exactly when a binary was resolved at construction.
    open spec fn spec_available(&self, tools: ToolSet) -> bool {
        self.linux_we_path is Some
    }

    open spec fn spec_process(&self) -> Option<ProcHandle> {
        self.process
    }

    fn name(&self) -> &'static str {
        "linux-wallpaperengine"
    }

    fn is_available(&self, _tools: &ToolSet) -> bool {
        self.linux_we_path.is_some()
    }

    fn is_running(&self) -> bool {
        self.process.is_some()
    }

    fn stop(&mut self) -> (h: Option<ProcHandle>)
        ensures
            final(self).current_path is None,
            final(self).linux_we_path == old(self).linux_we_path,
    {
        let h = self.process;
        self.process = None;
        self.current_path = None;
        h
    }

    fn attach(&mut self, h: ProcHandle)
        ensures
            final(self).current_path == old(self).current_path,
            final(self).linux_we_path == old(self).linux_we_path,
    {
        self.process = Some(h);
    }
}

} // verus!
