//! Wallpaper management core: display-server and desktop-environment
//! detection, wallpaper-setter adapter selection, per-tool command
//! translation, monitor-listing parsers, content renderers and the
//! wallpaper-type classifier.
//!
//! Every function here is pure with respect to the outside world: the
//! callers (an unverified shell around this crate) read environment
//! variables, probe for installed tools and run the commands this
//! library builds, then hand the outcomes back in as plain values.

pub mod adapter;
pub mod booru;
pub mod command;
pub mod desktop;
pub mod detector;
pub mod json;
pub mod monitors;
pub mod renderer;
pub mod selector;
pub mod spine;
pub mod text;
pub mod types;
pub mod video;
pub mod wallpaper_engine;
pub mod wayland;
pub mod x11;
