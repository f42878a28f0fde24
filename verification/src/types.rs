//! Core data types shared by the adapter, renderer and classifier layers.

use vstd::prelude::*;

verus! {

/// Generic scaling intent for a wallpaper; each adapter maps it to its
/// own tool-specific vocabulary.
#[derive(Clone, Copy, Debug, PartialEq, Eq, Structural)]
pub enum DisplayMode {
    Fill,
    Fit,
    Stretch,
    Center,
    Tile,
}

/// What kind of content a wallpaper file or directory holds, derived
/// from filesystem inspection rather than stored on the file.
#[derive(Clone, Copy, Debug, PartialEq, Eq, Structural)]
pub enum WallpaperType {
    Image,
    Video,
    Spine,
    WallpaperEngine,
}

/// Rating attached to an image by a booru site.
#[derive(Clone, Copy, Debug, PartialEq, Eq, Structural)]
pub enum Rating {
    Safe,
    Questionable,
    Explicit,
}

/// One connected monitor, freshly parsed from an external tool's
/// output on every listing; never cached.
#[derive(Clone, Debug)]
pub struct Monitor {
    pub name: String,
    pub width: u32,
    pub height: u32,
    pub x: i32,
    pub y: i32,
    pub primary: bool,
}

/// Mathematical view of a `Monitor`: the name as a character
/// sequence, everything else as it stands.
pub struct MonitorView {
    pub name: Seq<char>,
    pub width: u32,
    pub height: u32,
    pub x: i32,
    pub y: i32,
    pub primary: bool,
}

impl View for Monitor {
    type V = MonitorView;

    open spec fn view(&self) -> MonitorView {
        MonitorView {
            name: self.name@,
            width: self.width,
            height: self.height,
            x: self.x,
            y: self.y,
            primary: self.primary,
        }
    }
}

/// Errors surfaced by the adapter and renderer layers.
#[derive(Clone, Debug)]
pub enum Error {
    /// A required external binary is absent.
    AdapterUnavailable(String),
    /// An external tool failed, or a renderer could not do its work;
    /// carries a human-readable message.
    Renderer(String),
    /// The given path cannot be used for the requested operation.
    InvalidPath(String),
    /// Something looked up by name or id does not exist.
    NotFound(String),
    /// A request parameter was rejected.
    InvalidInput(String),
}

/// Mathematical view of an `Error`.
#[verifier::ext_equal]
pub enum ErrorView {
    AdapterUnavailable(Seq<char>),
    Renderer(Seq<char>),
    InvalidPath(Seq<char>),
    NotFound(Seq<char>),
    InvalidInput(Seq<char>),
}

impl View for Error {
    type V = ErrorView;

    open spec fn view(&self) -> ErrorView {
        match self {
            Error::AdapterUnavailable(m) => ErrorView::AdapterUnavailable(m@),
            Error::Renderer(m) => ErrorView::Renderer(m@),
            Error::InvalidPath(m) => ErrorView::InvalidPath(m@),
            Error::NotFound(m) => ErrorView::NotFound(m@),
            Error::InvalidInput(m) => ErrorView::InvalidInput(m@),
        }
    }
}

impl Error {
    /// Human-readable message for logs and API error bodies.
    pub fn message(&self) -> (r: String)
        ensures
            r@ == self.spec_message(),
    {
        match self {
            Error::AdapterUnavailable(m) => concat_str("Adapter not available: ", m.as_str()),
            Error::Renderer(m) => concat_str("Renderer error: ", m.as_str()),
            Error::InvalidPath(m) => concat_str("Invalid path: ", m.as_str()),
            Error::NotFound(m) => concat_str("Not found: ", m.as_str()),
            Error::InvalidInput(m) => concat_str("Invalid input: ", m.as_str()),
        }
    }

    pub open spec fn spec_message(&self) -> Seq<char> {
        match self {
            Error::AdapterUnavailable(m) => "Adapter not available: "@ + m@,
            Error::Renderer(m) => "Renderer error: "@ + m@,
            Error::InvalidPath(m) => "Invalid path: "@ + m@,
            Error::NotFound(m) => "Not found: "@ + m@,
            Error::InvalidInput(m) => "Invalid input: "@ + m@,
        }
    }
}

/// Concatenation of two string slices into an owned string.
pub fn concat_str(a: &str, b: &str) -> (r: String)
    ensures
        r@ == a@ + b@,
{
    let mut r = a.to_owned();
    r.append(b);
    r
}

/// Uniform envelope for API answers.
#[derive(Clone, Debug)]
pub struct ApiResponse<T> {
    pub success: bool,
    pub data: Option<T>,
    pub error: Option<String>,
}

impl<T> ApiResponse<T> {
    pub fn success(data: T) -> (r: Self)
        ensures
            r.success,
            r.data == Some(data),
            r.error is None,
    {
        ApiResponse { success: true, data: Some(data), error: None }
    }

    pub fn error(message: String) -> (r: Self)
        ensures
            !r.success,
            r.data is None,
            r.error == Some(message),
    {
        ApiResponse { success: false, data: None, error: Some(message) }
    }
}

/// Extension of a bare file name: what follows the last dot, unless
/// the name starts with that dot or has none.
pub open spec fn spec_extension(name: Seq<char>) -> Option<Seq<char>> {
    match crate::text::last_idx(name, '.') {
        Some(i) => if i > 0 {
            Some(name.subrange(i + 1, name.len() as int))
        } else {
            None
        },
        None => None,
    }
}

/// The part of a path after its last separator (the whole path when
/// it has none).
pub open spec fn spec_file_name(path: Seq<char>) -> Seq<char> {
    match crate::text::last_idx(path, '/') {
        Some(i) => path.subrange(i + 1, path.len() as int),
        None => path,
    }
}

/// Extension-based wallpaper classification, case-insensitive.
pub open spec fn spec_from_extension(ext: Seq<char>) -> Option<WallpaperType> {
    let e = crate::text::lower_seq(ext);
    if e == "jpg"@ || e == "jpeg"@ || e == "png"@ || e == "webp"@ || e == "bmp"@ {
        Some(WallpaperType::Image)
    } else if e == "mp4"@ || e == "webm"@ || e == "mkv"@ || e == "avi"@ || e == "gif"@ {
        Some(WallpaperType::Video)
    } else if e == "skel"@ || e == "atlas"@ {
        Some(WallpaperType::Spine)
    } else {
        None
    }
}

/// Some entry of the listing is exactly `name`.
pub open spec fn has_entry(entries: Seq<Seq<char>>, name: Seq<char>) -> bool {
    exists|i: int| 0 <= i < entries.len() && entries[i] == name
}

/// Some entry of the listing carries the exact extension `skel`.
pub open spec fn has_skel_entry(entries: Seq<Seq<char>>) -> bool {
    exists|i: int| 0 <= i < entries.len() && spec_extension(entries[i]) == Some("skel"@)
}

/// Path-based wallpaper classification.  `entries` is the listing of
/// the relevant directory (the path itself when it is a directory,
/// else its parent); `None` when that directory cannot be read.
/// A `project.json` (in the path or the listing) wins over any
/// `.skel` file; the file extension is the last resort.
pub open spec fn spec_from_path(
    path: Seq<char>,
    entries: Option<Seq<Seq<char>>>,
) -> Option<WallpaperType> {
    if crate::text::ends_with_spec(path, "project.json"@) {
        Some(WallpaperType::WallpaperEngine)
    } else {
        match entries {
            Some(es) => if has_entry(es, "project.json"@) {
                Some(WallpaperType::WallpaperEngine)
            } else if has_skel_entry(es) {
                Some(WallpaperType::Spine)
            } else {
                match spec_extension(spec_file_name(path)) {
                    Some(e) => spec_from_extension(e),
                    None => None,
                }
            },
            None => None,
        }
    }
}

/// `project.json` takes precedence: a path whose directory listing
/// holds a `project.json` classifies as a Wallpaper-Engine project,
/// never as Spine, even when the listing also holds a `.skel` file.
pub proof fn lemma_project_json_precedence(path: Seq<char>, entries: Seq<Seq<char>>)
    requires
        has_entry(entries, "project.json"@),
    ensures
        spec_from_path(path, Some(entries)) == Some(WallpaperType::WallpaperEngine),
{
}

/// A directory with a `.skel` file and no `project.json` classifies
/// as Spine.
pub proof fn lemma_skel_directory_is_spine(path: Seq<char>, entries: Seq<Seq<char>>)
    requires
        has_skel_entry(entries),
        !has_entry(entries, "project.json"@),
        !crate::text::ends_with_spec(path, "project.json"@),
    ensures
        spec_from_path(path, Some(entries)) == Some(WallpaperType::Spine),
{
}

/// Extension of a bare file name, as `Path::extension` computes it
/// for names without separators.
pub fn extension_of(name: &str) -> (r: Option<&str>)
    ensures
        match r {
            Some(e) => spec_extension(name@) == Some(e@),
            None => spec_extension(name@) is None,
        },
{
    let n = name.unicode_len();
    match crate::text::rfind_char(name, '.') {
        Some(i) => {
            if i > 0 {
                proof {
                    crate::text::lemma_last_idx(name@, '.');
                }
                Some(name.substring_char(i + 1, n))
            } else {
                None
            }
        },
        None => None,
    }
}

/// The part of a path after its last `/`.
pub fn file_name_of(path: &str) -> (r: &str)
    ensures
        r@ == spec_file_name(path@),
{
    let n = path.unicode_len();
    match crate::text::rfind_char(path, '/') {
        Some(i) => {
            proof {
                crate::text::lemma_last_idx(path@, '/');
            }
            path.substring_char(i + 1, n)
        },
        None => path,
    }
}

/// Parent of a plain path, as `Path::parent` computes it for paths
/// without trailing separators: the part before the last `/` (the
/// root stays `/`; a bare file name has the empty parent; the root
/// itself and the empty path have none).
pub open spec fn spec_parent(path: Seq<char>) -> Option<Seq<char>> {
    if path.len() == 0 || path == "/"@ {
        None
    } else {
        match crate::text::last_idx(path, '/') {
            None => Some(Seq::empty()),
            Some(i) => if i == 0 {
                Some(path.subrange(0, 1))
            } else {
                Some(path.subrange(0, i))
            },
        }
    }
}

/// The parent of a plain path.
pub fn parent_of(path: &str) -> (r: Option<&str>)
    ensures
        match r {
            Some(p) => spec_parent(path@) == Some(p@),
            None => spec_parent(path@) is None,
        },
{
    let n = path.unicode_len();
    if n == 0 || crate::text::eq_exact(path, "/") {
        return None;
    }
    match crate::text::rfind_char(path, '/') {
        None => {
            let r = path.substring_char(0, 0);
            proof {
                assert(r@ =~= Seq::<char>::empty());
            }
            Some(r)
        },
        Some(i) => {
            proof {
                crate::text::lemma_last_idx(path@, '/');
            }
            if i == 0 {
                Some(path.substring_char(0, 1))
            } else {
                Some(path.substring_char(0, i))
            }
        },
    }
}

impl WallpaperType {
    /// Classify by file extension alone, case-insensitively.
    pub fn from_extension(ext: &str) -> (r: Option<WallpaperType>)
        ensures
            r == spec_from_extension(ext@),
    {
        if crate::text::eq_lower(ext, "jpg") || crate::text::eq_lower(ext, "jpeg")
            || crate::text::eq_lower(ext, "png") || crate::text::eq_lower(ext, "webp")
            || crate::text::eq_lower(ext, "bmp") {
            Some(WallpaperType::Image)
        } else if crate::text::eq_lower(ext, "mp4") || crate::text::eq_lower(ext, "webm")
            || crate::text::eq_lower(ext, "mkv") || crate::text::eq_lower(ext, "avi")
            || crate::text::eq_lower(ext, "gif") {
            Some(WallpaperType::Video)
        } else if crate::text::eq_lower(ext, "skel") || crate::text::eq_lower(ext, "atlas") {
            Some(WallpaperType::Spine)
        } else {
            None
        }
    }

    /// Classify a filesystem path.  `dir_entries` lists the file
    /// names of the path itself when it is a directory, else of its
    /// parent; `None` when that directory could not be read.
    pub fn from_path(path: &str, dir_entries: Option<&Vec<String>>) -> (r: Option<WallpaperType>)
        ensures
            r == spec_from_path(
                path@,
                match dir_entries {
                    Some(es) => Some(crate::text::str_views(es@)),
                    None => None::<Seq<Seq<char>>>,
                },
            ),
    {
        if crate::text::ends_with(path, "project.json") {
            return Some(WallpaperType::WallpaperEngine);
        }
        match dir_entries {
            None => None,
            Some(es) => {
                let ghost ev = crate::text::str_views(es@);
                let mut i: usize = 0;
                let mut found_project = false;
                let mut found_skel = false;
                while i < es.len()
                    invariant
                        i <= es.len(),
                        ev == crate::text::str_views(es@),
                        ev.len() == es.len(),
                        found_project == (exists|j: int| 0 <= j < i && ev[j] == "project.json"@),
                        found_skel == (exists|j: int|
                            0 <= j < i && spec_extension(ev[j]) == Some("skel"@)),
                    decreases es.len() - i,
                {
                    let e: &String = &es[i];
                    if crate::text::eq_exact(e.as_str(), "project.json") {
                        found_project = true;
                    }
                    match extension_of(e.as_str()) {
                        Some(x) => {
                            if crate::text::eq_exact(x, "skel") {
                                found_skel = true;
                            }
                        },
                        None => {},
                    }
                    proof {
                        assert(ev[i as int] == e@);
                        if exists|j: int| 0 <= j < i + 1 && ev[j] == "project.json"@ {
                            let j = choose|j: int|
                                0 <= j < i + 1 && ev[j] == "project.json"@;
                            if j == i as int {
                                assert(e@ == "project.json"@);
                            }
                        }
                        if exists|j: int|
                            0 <= j < i + 1 && spec_extension(ev[j]) == Some("skel"@) {
                            let j = choose|j: int|
                                0 <= j < i + 1 && spec_extension(ev[j]) == Some("skel"@);
                            if j == i as int {
                                assert(spec_extension(e@) == Some("skel"@));
                            }
                        }
                    }
                    i = i + 1;
                }
                if found_project {
                    Some(WallpaperType::WallpaperEngine)
                } else if found_skel {
                    Some(WallpaperType::Spine)
                } else {
                    match extension_of(file_name_of(path)) {
                        Some(x) => WallpaperType::from_extension(x),
                        None => None,
                    }
                }
            },
        }
    }
}

/// A stored tag with usage count.
#[derive(Clone, Debug)]
pub struct Tag {
    pub id: i64,
    pub name: String,
    pub category: Option<String>,
    pub count: i64,
}

/// A search request against one or more booru sites.
#[derive(Clone, Debug)]
pub struct SearchQuery {
    pub tags: Vec<String>,
    pub sources: Vec<String>,
    pub limit: Option<u32>,
    pub rating: Option<Rating>,
}

/// One image returned by a booru search.
#[derive(Clone, Debug)]
pub struct BooruImage {
    pub id: String,
    pub source: String,
    pub file_url: String,
    pub preview_url: Option<String>,
    pub sample_url: Option<String>,
    pub width: u32,
    pub height: u32,
    pub tags: Vec<String>,
    pub rating: Rating,
    pub score: Option<i32>,
    pub author: Option<String>,
}

} // verus!
