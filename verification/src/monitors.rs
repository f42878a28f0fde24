//! Parsers for the monitor listings of external tools: the tabular
//! output of `xrandr --query` and the `name: WxH` listing of
//! `swww query`.  Unparseable lines are skipped, never an error.

use vstd::prelude::*;
use crate::text::{
    has_sub, first_idx, split_once_spec, split_ws_spec, lines_spec, trim_spec, parse_u32_spec,
    parse_i32_spec, contains_sub, split_ws, split_once_char, lines_of, trim, parse_u32, parse_i32,
    find_char, str_views,
};
use crate::types::{Monitor, MonitorView};

verus! {

/// A whitespace-separated token that carries geometry: it contains
/// both an `x` and a `+`, like `1920x1080+0+0`.
pub open spec fn is_geo_token(p: Seq<char>) -> bool {
    first_idx(p, 'x') is Some && first_idx(p, '+') is Some
}

/// The first geometry token among the tokens of a line.
pub open spec fn first_geo_token(parts: Seq<Seq<char>>) -> Option<Seq<char>>
    decreases parts.len(),
{
    if parts.len() == 0 {
        None
    } else if is_geo_token(parts[0]) {
        Some(parts[0])
    } else {
        first_geo_token(parts.drop_first())
    }
}

proof fn lemma_first_geo_token_at(parts: Seq<Seq<char>>, i: int)
    requires
        0 <= i < parts.len(),
        is_geo_token(parts[i]),
        forall|j: int| 0 <= j < i ==> !is_geo_token(parts[j]),
    ensures
        first_geo_token(parts) == Some(parts[i]),
    decreases parts.len(),
{
    if i > 0 {
        assert(parts.drop_first()[i - 1] == parts[i]);
        assert forall|j: int| 0 <= j < i - 1 implies !is_geo_token(parts.drop_first()[j]) by {
            assert(parts.drop_first()[j] == parts[j + 1]);
        }
        lemma_first_geo_token_at(parts.drop_first(), i - 1);
    }
}

proof fn lemma_first_geo_token_none(parts: Seq<Seq<char>>)
    requires
        forall|j: int| 0 <= j < parts.len() ==> !is_geo_token(parts[j]),
    ensures
        first_geo_token(parts) is None,
    decreases parts.len(),
{
    if parts.len() > 0 {
        assert forall|j: int| 0 <= j < parts.len() - 1 implies !is_geo_token(
            parts.drop_first()[j],
        ) by {
            assert(parts.drop_first()[j] == parts[j + 1]);
        }
        lemma_first_geo_token_none(parts.drop_first());
    }
}

/// The first piece of splitting `s` on every `c` (the whole of `s`
/// when `c` does not occur).
pub open spec fn split_head(s: Seq<char>, c: char) -> Seq<char> {
    match split_once_spec(s, c) {
        Some(p) => p.0,
        None => s,
    }
}

/// The second piece of splitting `s` on every `c`, if there is one.
pub open spec fn split_second(s: Seq<char>, c: char) -> Option<Seq<char>> {
    match split_once_spec(s, c) {
        Some(p) => Some(split_head(p.1, c)),
        None => None,
    }
}

/// A signed coordinate: parsed as `i32`, defaulting to 0 when absent
/// or unparseable.
pub open spec fn coord_or_zero(s: Option<Seq<char>>) -> i32 {
    match s {
        Some(t) => match parse_i32_spec(t) {
            Some(v) => v,
            None => 0,
        },
        None => 0,
    }
}

/// What one line of `xrandr --query` output yields.  A monitor line is
/// recognised by the literal substring " connected"; the name is the
/// first token; `primary` is recognised by the substring "primary";
/// geometry comes from the first token holding both `x` and `+`.
pub open spec fn spec_parse_monitor_line(line: Seq<char>) -> Option<MonitorView> {
    if !has_sub(line, " connected"@) {
        None
    } else {
        let parts = split_ws_spec(line);
        if parts.len() < 3 {
            None
        } else {
            match first_geo_token(parts) {
                None => None,
                Some(tok) => match split_once_spec(tok, '+') {
                    None => None,
                    Some(respos) => match split_once_spec(respos.0, 'x') {
                        None => None,
                        Some(wh) => match (parse_u32_spec(wh.0), parse_u32_spec(wh.1)) {
                            (Some(w), Some(h)) => Some(
                                MonitorView {
                                    name: parts[0],
                                    width: w,
                                    height: h,
                                    x: coord_or_zero(Some(split_head(respos.1, '+'))),
                                    y: coord_or_zero(split_second(respos.1, '+')),
                                    primary: has_sub(line, "primary"@),
                                },
                            ),
                            _ => None,
                        },
                    },
                },
            }
        }
    }
}

/// Parse one line of `xrandr --query` output.
pub fn parse_monitor_line(line: &str) -> (r: Option<Monitor>)
    ensures
        match r {
            Some(m) => spec_parse_monitor_line(line@) == Some(m@),
            None => spec_parse_monitor_line(line@) is None,
        },
{
    if !contains_sub(line, " connected") {
        return None;
    }
    let parts = split_ws(line);
    let ghost pv = str_views(parts@);
    if parts.len() < 3 {
        return None;
    }
    let mut gi: usize = 0;
    let mut found = false;
    while gi < parts.len() && !found
        invariant
            gi <= parts.len(),
            pv == str_views(parts@),
            pv.len() == parts.len(),
            !found ==> forall|j: int| 0 <= j < gi ==> !is_geo_token(pv[j]),
            found ==> gi < parts.len() && is_geo_token(pv[gi as int]) && (forall|j: int|
                0 <= j < gi ==> !is_geo_token(pv[j])),
        decreases parts.len() - gi, (if found { 0int } else { 1int }),
    {
        let p: &String = &parts[gi];
        if find_char(p.as_str(), 'x').is_some() && find_char(p.as_str(), '+').is_some() {
            found = true;
        } else {
            gi = gi + 1;
        }
    }
    if !found {
        proof {
            lemma_first_geo_token_none(pv);
        }
        return None;
    }
    proof {
        lemma_first_geo_token_at(pv, gi as int);
    }
    let tok: &String = &parts[gi];
    match split_once_char(tok.as_str(), '+') {
        None => None,
        Some((res, pos)) => match split_once_char(res, 'x') {
            None => None,
            Some((w, h)) => match (parse_u32(w), parse_u32(h)) {
                (Some(wv), Some(hv)) => {
                    let (c0, c1): (&str, Option<&str>) = match split_once_char(pos, '+') {
                        Some((a, b)) => {
                            let b0 = match split_once_char(b, '+') {
                                Some((b0, _)) => b0,
                                None => b,
                            };
                            (a, Some(b0))
                        },
                        None => (pos, None),
                    };
                    let x = match parse_i32(c0) {
                        Some(v) => v,
                        None => 0,
                    };
                    let y = match c1 {
                        Some(t) => match parse_i32(t) {
                            Some(v) => v,
                            None => 0,
                        },
                        None => 0,
                    };
                    let primary = contains_sub(line, "primary");
                    let name = parts[0].clone();
                    Some(Monitor { name, width: wv, height: hv, x, y, primary })
                },
                _ => None,
            },
        },
    }
}

/// The monitors that the lines of an `xrandr --query` output yield,
/// in order; lines that parse to nothing are skipped.
pub open spec fn spec_xrandr_monitors(ls: Seq<Seq<char>>) -> Seq<MonitorView>
    decreases ls.len(),
{
    if ls.len() == 0 {
        Seq::empty()
    } else {
        spec_xrandr_monitors(ls.drop_last()) + match spec_parse_monitor_line(ls.last()) {
            Some(m) => seq![m],
            None => Seq::empty(),
        }
    }
}

/// Views of a vector of monitors.
pub open spec fn monitor_views(v: Seq<Monitor>) -> Seq<MonitorView> {
    v.map_values(|m: Monitor| m@)
}

/// Parse a whole `xrandr --query` output into monitors, skipping
/// every line that does not describe a connected monitor.
pub fn parse_xrandr_monitors(text: &str) -> (r: Vec<Monitor>)
    ensures
        monitor_views(r@) == spec_xrandr_monitors(lines_spec(text@)),
{
    let lines = lines_of(text);
    let ghost lv = str_views(lines@);
    let mut out: Vec<Monitor> = Vec::new();
    assert(monitor_views(out@) =~= spec_xrandr_monitors(lv.subrange(0, 0)));
    let mut i: usize = 0;
    while i < lines.len()
        invariant
            i <= lines.len(),
            lv == str_views(lines@),
            lv.len() == lines.len(),
            monitor_views(out@) =~= spec_xrandr_monitors(lv.subrange(0, i as int)),
        decreases lines.len() - i,
    {
        let ghost pre = lv.subrange(0, i as int);
        let ghost pre1 = lv.subrange(0, i + 1 as int);
        proof {
            assert(pre1.drop_last() =~= pre);
            assert(pre1.last() == lv[i as int]);
        }
        let line: &String = &lines[i];
        let ghost old_out = out@;
        match parse_monitor_line(line.as_str()) {
            Some(m) => {
                out.push(m);
                proof {
                    assert(monitor_views(out@) =~= monitor_views(old_out).push(m@));
                }
            },
            None => {},
        }
        assert(monitor_views(out@) =~= spec_xrandr_monitors(pre1));
        i = i + 1;
    }
    assert(lv.subrange(0, lines.len() as int) =~= lv);
    out
}

/// What one line of `swww query` output (`name: WxH`) yields, given
/// the zero-based index of the line: offsets are laid out side by
/// side and the first line counts as primary.
pub open spec fn spec_parse_swww_line(line: Seq<char>, idx: int) -> Option<MonitorView> {
    match split_once_spec(line, ':') {
        None => None,
        Some(p) => {
            let name = trim_spec(p.0);
            match split_once_spec(trim_spec(p.1), 'x') {
                None => None,
                Some(wh) => match (parse_u32_spec(wh.0), parse_u32_spec(wh.1)) {
                    (Some(w), Some(h)) => Some(
                        MonitorView {
                            name: name,
                            width: w,
                            height: h,
                            x: (idx * (w as int)) as i32,
                            y: 0,
                            primary: idx == 0,
                        },
                    ),
                    _ => None,
                },
            }
        },
    }
}

/// The monitors that the lines of a `swww query` output yield; the
/// line index feeds the synthesised horizontal offset.
pub open spec fn spec_swww_monitors(ls: Seq<Seq<char>>) -> Seq<MonitorView>
    decreases ls.len(),
{
    if ls.len() == 0 {
        Seq::empty()
    } else {
        spec_swww_monitors(ls.drop_last()) + match spec_parse_swww_line(
            ls.last(),
            ls.len() - 1,
        ) {
            Some(m) => seq![m],
            None => Seq::empty(),
        }
    }
}

/// Parse one `swww query` line.
pub fn parse_swww_line(line: &str, idx: usize) -> (r: Option<Monitor>)
    ensures
        match r {
            Some(m) => spec_parse_swww_line(line@, idx as int) == Some(m@),
            None => spec_parse_swww_line(line@, idx as int) is None,
        },
{
    match split_once_char(line, ':') {
        None => None,
        Some((name_raw, res_raw)) => {
            let name = trim(name_raw);
            let res = trim(res_raw);
            match split_once_char(res, 'x') {
                None => None,
                Some((w, h)) => match (parse_u32(w), parse_u32(h)) {
                    (Some(wv), Some(hv)) => {
                        proof {
                            assert((idx as int) * (wv as int) < 0x1_0000_0000_0000_0000_0000_0000)
                                by (nonlinear_arith)
                                requires
                                    0 <= (idx as int),
                                    (idx as int) < 0x1_0000_0000_0000_0000,
                                    0 <= (wv as int),
                                    (wv as int) < 0x1_0000_0000;
                        }
                        let prod: i128 = (idx as i128) * (wv as i128);
                        let x: i32 = #[verifier::truncate] (prod as i32);
                        Some(
                            Monitor {
                                name: name.to_owned(),
                                width: wv,
                                height: hv,
                                x,
                                y: 0,
                                primary: idx == 0,
                            },
                        )
                    },
                    _ => None,
                },
            }
        },
    }
}

/// Parse a whole `swww query` output.
pub fn parse_swww_monitors(text: &str) -> (r: Vec<Monitor>)
    ensures
        monitor_views(r@) == spec_swww_monitors(lines_spec(text@)),
{
    let lines = lines_of(text);
    let ghost lv = str_views(lines@);
    let mut out: Vec<Monitor> = Vec::new();
    assert(monitor_views(out@) =~= spec_swww_monitors(lv.subrange(0, 0)));
    let mut i: usize = 0;
    while i < lines.len()
        invariant
            i <= lines.len(),
            lv == str_views(lines@),
            lv.len() == lines.len(),
            monitor_views(out@) =~= spec_swww_monitors(lv.subrange(0, i as int)),
        decreases lines.len() - i,
    {
        let ghost pre = lv.subrange(0, i as int);
        let ghost pre1 = lv.subrange(0, i + 1 as int);
        proof {
            assert(pre1.drop_last() =~= pre);
            assert(pre1.last() == lv[i as int]);
        }
        let line: &String = &lines[i];
        let ghost old_out = out@;
        match parse_swww_line(line.as_str(), i) {
            Some(m) => {
                out.push(m);
                proof {
                    assert(monitor_views(out@) =~= monitor_views(old_out).push(m@));
                }
            },
            None => {},
        }
        assert(monitor_views(out@) =~= spec_swww_monitors(pre1));
        i = i + 1;
    }
    assert(lv.subrange(0, lines.len() as int) =~= lv);
    out
}

} // verus!
