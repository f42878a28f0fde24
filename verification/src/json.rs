//! The trusted boundary around serde_json, and the monitor listings
//! that arrive as JSON (`hyprctl monitors -j`, `swaymsg -t
//! get_outputs -r`).  A JSON value is opaque here, but every outside
//! result is a function of its arguments alone, so each accessor's
//! result carries a name; the listings' contracts then pin, over
//! those names, exactly which monitors are built out of a document.

use vstd::prelude::*;
use crate::monitors::monitor_views;
use crate::types::{Error, Monitor, MonitorView};

verus! {

#[verifier::external_type_specification]
#[verifier::external_body]
pub struct ExValue(serde_json::Value);

/// Whether serde_json accepts `s` as one JSON document; the answer is
/// a function of the text alone.
pub uninterp spec fn json_parses(s: Seq<char>) -> bool;

/// The document that parsing `s` yields when it succeeds; parsing is
/// a function of the text alone.
pub uninterp spec fn json_value_of(s: Seq<char>) -> serde_json::Value;

/// Relies on `serde_json::from_str::<Value>`: `Ok` exactly on valid
/// JSON, with the parsed document a function of the text; the error
/// is carried on as its display text.
#[verifier::external_body]
fn json_parse(s: &str) -> (r: Result<serde_json::Value, String>)
    ensures
        r is Ok <==> json_parses(s@),
        r matches Ok(v) ==> v == json_value_of(s@),
{
    match serde_json::from_str::<serde_json::Value>(s) {
        Ok(v) => Ok(v),
        Err(e) => Err(e.to_string()),
    }
}

/// What `Value::as_array` yields: the element sequence of an array
/// value, nothing otherwise.
pub uninterp spec fn arr_of(v: serde_json::Value) -> Option<Seq<serde_json::Value>>;

/// Relies on `serde_json::Value::as_array`: `Some` of the elements on
/// an array value, `None` otherwise.
pub assume_specification[ serde_json::Value::as_array ](v: &serde_json::Value) -> (r: Option<
    &Vec<serde_json::Value>,
>)
    ensures
        match r {
            Some(a) => arr_of(*v) == Some(a@),
            None => arr_of(*v) is None,
        },
;

/// What `Value::as_str` yields: the characters of a string value.
pub uninterp spec fn val_str_of(v: serde_json::Value) -> Option<Seq<char>>;

/// Relies on `serde_json::Value::as_str`: `Some` on a string value.
pub assume_specification[ serde_json::Value::as_str ](v: &serde_json::Value) -> (r: Option<&str>)
    ensures
        match r {
            Some(s) => val_str_of(*v) == Some(s@),
            None => val_str_of(*v) is None,
        },
;

/// What `Value::as_u64` yields on an unsigned integer value.
pub uninterp spec fn val_u64_of(v: serde_json::Value) -> Option<u64>;

/// Relies on `serde_json::Value::as_u64`: `Some` on an unsigned
/// integer value.
pub assume_specification[ serde_json::Value::as_u64 ](v: &serde_json::Value) -> (r: Option<u64>)
    ensures
        r == val_u64_of(*v),
;

/// What `Value::as_i64` yields on a signed integer value.
pub uninterp spec fn val_i64_of(v: serde_json::Value) -> Option<i64>;

/// Relies on `serde_json::Value::as_i64`: `Some` on a signed integer
/// value.
pub assume_specification[ serde_json::Value::as_i64 ](v: &serde_json::Value) -> (r: Option<i64>)
    ensures
        r == val_i64_of(*v),
;

/// What `Value::as_bool` yields on a boolean value.
pub uninterp spec fn val_bool_of(v: serde_json::Value) -> Option<bool>;

/// Relies on `serde_json::Value::as_bool`: `Some` on a boolean value.
pub assume_specification[ serde_json::Value::as_bool ](v: &serde_json::Value) -> (r: Option<bool>)
    ensures
        r == val_bool_of(*v),
;

/// What indexing a value by a field name yields (`Value::Null` when
/// the value is no object or lacks the field).
pub uninterp spec fn field_of(v: serde_json::Value, key: Seq<char>) -> serde_json::Value;

/// Relies on serde_json's index operator for `&str` keys: it borrows
/// the named field of an object and yields `Value::Null` in every
/// other case, without panicking.
#[verifier::external_body]
fn json_field<'a>(v: &'a serde_json::Value, key: &str) -> (r: &'a serde_json::Value)
    ensures
        *r == field_of(*v, key@),
{
    &v[key]
}

/// What one entry of `hyprctl monitors -j` yields: a monitor when
/// name, width, height, x and y are all present, with `focused`
/// (defaulting to false) as the primary flag; nothing otherwise.
pub open spec fn spec_hyprctl_entry(mon: serde_json::Value) -> Option<MonitorView> {
    match (
        val_str_of(field_of(mon, "name"@)),
        val_u64_of(field_of(mon, "width"@)),
        val_u64_of(field_of(mon, "height"@)),
        val_i64_of(field_of(mon, "x"@)),
        val_i64_of(field_of(mon, "y"@)),
    ) {
        (Some(name), Some(w), Some(h), Some(x), Some(y)) => Some(
            MonitorView {
                name,
                width: w as u32,
                height: h as u32,
                x: x as i32,
                y: y as i32,
                primary: match val_bool_of(field_of(mon, "focused"@)) {
                    Some(b) => b,
                    None => false,
                },
            },
        ),
        _ => None,
    }
}

/// The monitors of a sequence of hyprctl entries, in order; entries
/// with missing fields are skipped.
pub open spec fn spec_hyprctl_monitors(arr: Seq<serde_json::Value>) -> Seq<MonitorView>
    decreases arr.len(),
{
    if arr.len() == 0 {
        Seq::empty()
    } else {
        spec_hyprctl_monitors(arr.drop_last()) + match spec_hyprctl_entry(arr.last()) {
            Some(m) => seq![m],
            None => Seq::empty(),
        }
    }
}

/// The monitors of a whole hyprctl document: its array entries, or
/// nothing when the document is no array.
pub open spec fn spec_hyprctl_listing(doc: serde_json::Value) -> Seq<MonitorView> {
    match arr_of(doc) {
        Some(a) => spec_hyprctl_monitors(a),
        None => Seq::empty(),
    }
}

/// One entry of `hyprctl monitors -j`.
fn hyprctl_entry(mon: &serde_json::Value) -> (r: Option<Monitor>)
    ensures
        match r {
            Some(m) => spec_hyprctl_entry(*mon) == Some(m@),
            None => spec_hyprctl_entry(*mon) is None,
        },
{
    let name = json_field(mon, "name").as_str();
    let width = json_field(mon, "width").as_u64();
    let height = json_field(mon, "height").as_u64();
    let x = json_field(mon, "x").as_i64();
    let y = json_field(mon, "y").as_i64();
    match (name, width, height, x, y) {
        (Some(name), Some(width), Some(height), Some(x), Some(y)) => {
            let primary = match json_field(mon, "focused").as_bool() {
                Some(b) => b,
                None => false,
            };
            Some(
                Monitor {
                    name: name.to_owned(),
                    width: #[verifier::truncate] (width as u32),
                    height: #[verifier::truncate] (height as u32),
                    x: #[verifier::truncate] (x as i32),
                    y: #[verifier::truncate] (y as i32),
                    primary,
                },
            )
        },
        _ => None,
    }
}

/// Parse the monitors out of `hyprctl monitors -j` output.  The call
/// fails exactly when the text is no JSON; on success the result is
/// exactly the document's listing: one monitor per complete array
/// entry, in order.
pub fn parse_hyprctl_monitors(stdout: &str) -> (r: Result<Vec<Monitor>, Error>)
    ensures
        r is Ok <==> json_parses(stdout@),
        r matches Ok(ms) ==> monitor_views(ms@) == spec_hyprctl_listing(json_value_of(stdout@)),
        r matches Err(e) ==> e matches Error::Renderer(_),
{
    let parsed = match json_parse(stdout) {
        Ok(v) => v,
        Err(msg) => {
            let mut m = "Failed to parse hyprctl output: ".to_owned();
            m.append(msg.as_str());
            return Err(Error::Renderer(m));
        },
    };
    let mut monitors: Vec<Monitor> = Vec::new();
    match parsed.as_array() {
        Some(arr) => {
            let ghost av = arr@;
            assert(monitor_views(monitors@) =~= spec_hyprctl_monitors(av.subrange(0, 0)));
            let mut i: usize = 0;
            while i < arr.len()
                invariant
                    i <= arr.len(),
                    av == arr@,
                    monitor_views(monitors@) =~= spec_hyprctl_monitors(av.subrange(0, i as int)),
                decreases arr.len() - i,
            {
                let ghost pre = av.subrange(0, i as int);
                let ghost pre1 = av.subrange(0, i + 1 as int);
                proof {
                    assert(pre1.drop_last() =~= pre);
                    assert(pre1.last() == av[i as int]);
                }
                let ghost old_out = monitors@;
                match hyprctl_entry(&arr[i]) {
                    Some(m) => {
                        monitors.push(m);
                        proof {
                            assert(monitor_views(monitors@) =~= monitor_views(old_out).push(m@));
                        }
                    },
                    None => {},
                }
                assert(monitor_views(monitors@) =~= spec_hyprctl_monitors(pre1));
                i = i + 1;
            }
            proof {
                assert(av.subrange(0, arr.len() as int) =~= av);
            }
        },
        None => {
            assert(monitor_views(monitors@) =~= Seq::<MonitorView>::empty());
        },
    }
    Ok(monitors)
}

/// What one entry of `swaymsg -t get_outputs -r` yields: a monitor
/// when the name and the rect's width, height, x and y are all
/// present, with `focused` (defaulting to false) as the primary flag.
pub open spec fn spec_swaymsg_entry(out: serde_json::Value) -> Option<MonitorView> {
    let rect = field_of(out, "rect"@);
    match (
        val_str_of(field_of(out, "name"@)),
        val_u64_of(field_of(rect, "width"@)),
        val_u64_of(field_of(rect, "height"@)),
        val_i64_of(field_of(rect, "x"@)),
        val_i64_of(field_of(rect, "y"@)),
    ) {
        (Some(name), Some(w), Some(h), Some(x), Some(y)) => Some(
            MonitorView {
                name,
                width: w as u32,
                height: h as u32,
                x: x as i32,
                y: y as i32,
                primary: match val_bool_of(field_of(out, "focused"@)) {
                    Some(b) => b,
                    None => false,
                },
            },
        ),
        _ => None,
    }
}

/// The monitors of a sequence of swaymsg outputs, in order; entries
/// with missing fields are skipped.
pub open spec fn spec_swaymsg_monitors(arr: Seq<serde_json::Value>) -> Seq<MonitorView>
    decreases arr.len(),
{
    if arr.len() == 0 {
        Seq::empty()
    } else {
        spec_swaymsg_monitors(arr.drop_last()) + match spec_swaymsg_entry(arr.last()) {
            Some(m) => seq![m],
            None => Seq::empty(),
        }
    }
}

/// The monitors of a whole swaymsg document: its array entries, or
/// nothing when the document is no array.
pub open spec fn spec_swaymsg_listing(doc: serde_json::Value) -> Seq<MonitorView> {
    match arr_of(doc) {
        Some(a) => spec_swaymsg_monitors(a),
        None => Seq::empty(),
    }
}

/// One entry of `swaymsg -t get_outputs -r`.
fn swaymsg_entry(out: &serde_json::Value) -> (r: Option<Monitor>)
    ensures
        match r {
            Some(m) => spec_swaymsg_entry(*out) == Some(m@),
            None => spec_swaymsg_entry(*out) is None,
        },
{
    let name = json_field(out, "name").as_str();
    let rect = json_field(out, "rect");
    let width = json_field(rect, "width").as_u64();
    let height = json_field(rect, "height").as_u64();
    let x = json_field(rect, "x").as_i64();
    let y = json_field(rect, "y").as_i64();
    match (name, width, height, x, y) {
        (Some(name), Some(width), Some(height), Some(x), Some(y)) => {
            let primary = match json_field(out, "focused").as_bool() {
                Some(b) => b,
                None => false,
            };
            Some(
                Monitor {
                    name: name.to_owned(),
                    width: #[verifier::truncate] (width as u32),
                    height: #[verifier::truncate] (height as u32),
                    x: #[verifier::truncate] (x as i32),
                    y: #[verifier::truncate] (y as i32),
                    primary,
                },
            )
        },
        _ => None,
    }
}

/// Parse the outputs of `swaymsg -t get_outputs -r`.  The call fails
/// exactly when the text is no JSON; on success the result is exactly
/// the document's listing: one monitor per complete array entry, in
/// order.
pub fn parse_swaymsg_outputs(stdout: &str) -> (r: Result<Vec<Monitor>, Error>)
    ensures
        r is Ok <==> json_parses(stdout@),
        r matches Ok(ms) ==> monitor_views(ms@) == spec_swaymsg_listing(json_value_of(stdout@)),
        r matches Err(e) ==> e matches Error::Renderer(_),
{
    let parsed = match json_parse(stdout) {
        Ok(v) => v,
        Err(msg) => {
            let mut m = "Failed to parse swaymsg output: ".to_owned();
            m.append(msg.as_str());
            return Err(Error::Renderer(m));
        },
    };
    let mut monitors: Vec<Monitor> = Vec::new();
    match parsed.as_array() {
        Some(arr) => {
            let ghost av = arr@;
            assert(monitor_views(monitors@) =~= spec_swaymsg_monitors(av.subrange(0, 0)));
            let mut i: usize = 0;
            while i < arr.len()
                invariant
                    i <= arr.len(),
                    av == arr@,
                    monitor_views(monitors@) =~= spec_swaymsg_monitors(av.subrange(0, i as int)),
                decreases arr.len() - i,
            {
                let ghost pre = av.subrange(0, i as int);
                let ghost pre1 = av.subrange(0, i + 1 as int);
                proof {
                    assert(pre1.drop_last() =~= pre);
                    assert(pre1.last() == av[i as int]);
                }
                let ghost old_out = monitors@;
                match swaymsg_entry(&arr[i]) {
                    Some(m) => {
                        monitors.push(m);
                        proof {
                            assert(monitor_views(monitors@) =~= monitor_views(old_out).push(m@));
                        }
                    },
                    None => {},
                }
                assert(monitor_views(monitors@) =~= spec_swaymsg_monitors(pre1));
                i = i + 1;
            }
            proof {
                assert(av.subrange(0, arr.len() as int) =~= av);
            }
        },
        None => {
            assert(monitor_views(monitors@) =~= Seq::<MonitorView>::empty());
        },
    }
    Ok(monitors)
}

} // verus!
