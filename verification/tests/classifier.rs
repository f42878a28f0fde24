use wallmgr::types::WallpaperType;

fn entries(names: &[&str]) -> Vec<String> {
    names.iter().map(|s| s.to_string()).collect()
}

#[test]
fn project_json_takes_precedence_over_skel() {
    let listing = entries(&["scene.skel", "scene.atlas", "project.json"]);
    let r = WallpaperType::from_path("/wp/mixed", Some(&listing));
    assert_eq!(r, Some(WallpaperType::WallpaperEngine));
}

#[test]
fn skel_only_directory_is_spine() {
    let listing = entries(&["scene.skel", "scene.atlas", "scene.png"]);
    let r = WallpaperType::from_path("/wp/anim", Some(&listing));
    assert_eq!(r, Some(WallpaperType::Spine));
}

#[test]
fn bare_jpg_with_no_siblings_is_image() {
    let r = WallpaperType::from_path("/wp/photo.jpg", Some(&entries(&["photo.jpg"])));
    assert_eq!(r, Some(WallpaperType::Image));
}

#[test]
fn path_ending_in_project_json_is_wallpaper_engine() {
    let r = WallpaperType::from_path("/wp/scene/project.json", None);
    assert_eq!(r, Some(WallpaperType::WallpaperEngine));
}

#[test]
fn unreadable_directory_classifies_nothing() {
    assert_eq!(WallpaperType::from_path("/wp/video.mp4", None), None);
}

#[test]
fn video_extension_fallback() {
    let r = WallpaperType::from_path("/wp/clip.webm", Some(&entries(&["clip.webm"])));
    assert_eq!(r, Some(WallpaperType::Video));
}

#[test]
fn unknown_extension_is_rejected() {
    assert_eq!(WallpaperType::from_path("/wp/notes.txt", Some(&entries(&["notes.txt"]))), None);
    assert_eq!(WallpaperType::from_path("/wp/noext", Some(&entries(&["noext"]))), None);
}

#[test]
fn from_extension_accepts_known_kinds_case_insensitively() {
    assert_eq!(WallpaperType::from_extension("jpg"), Some(WallpaperType::Image));
    assert_eq!(WallpaperType::from_extension("JPEG"), Some(WallpaperType::Image));
    assert_eq!(WallpaperType::from_extension("png"), Some(WallpaperType::Image));
    assert_eq!(WallpaperType::from_extension("webp"), Some(WallpaperType::Image));
    assert_eq!(WallpaperType::from_extension("bmp"), Some(WallpaperType::Image));
    assert_eq!(WallpaperType::from_extension("MP4"), Some(WallpaperType::Video));
    assert_eq!(WallpaperType::from_extension("webm"), Some(WallpaperType::Video));
    assert_eq!(WallpaperType::from_extension("mkv"), Some(WallpaperType::Video));
    assert_eq!(WallpaperType::from_extension("avi"), Some(WallpaperType::Video));
    assert_eq!(WallpaperType::from_extension("gif"), Some(WallpaperType::Video));
    assert_eq!(WallpaperType::from_extension("skel"), Some(WallpaperType::Spine));
    assert_eq!(WallpaperType::from_extension("atlas"), Some(WallpaperType::Spine));
    assert_eq!(WallpaperType::from_extension("txt"), None);
    assert_eq!(WallpaperType::from_extension(""), None);
}

#[test]
fn skel_detection_needs_a_real_extension() {
    // A file literally named ".skel" has no extension in the
    // `Path::extension` sense and marks no Spine directory.
    let r = WallpaperType::from_path("/wp/dir", Some(&entries(&[".skel"])));
    assert_eq!(r, None);
}
