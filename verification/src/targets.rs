//! The two watched targets: their colour templates, match-window sizes,
//! process gates and scan pipelines.
//!
//! Target A is the match-making launcher, target B the game client. Per
//! tick A is checked before B: when both applications run, the launcher's
//! cue appears out-of-game only, so A reporting busy is a reliable signal
//! to leave the mouse alone.

use vstd::prelude::*;
use crate::color::{RGB2, dist_sq};
use crate::finder::{check_image_match, found_coords, has_block};
use crate::image_data::Image;
use crate::mask::{match_cell, match_grid};
use crate::matcher::Matcher;
use crate::types::{ErrorKind, MatchOptions, Point, SearchResult};

verus! {

/// Match-window width for the game target's cue.
pub const X_LIMIT: usize = 10;

/// Match-window height for the game target's cue.
pub const Y_LIMIT: usize = 8;

/// Match-window width for the launcher target's cue.
pub const X_LIMIT_5E: usize = 26;

/// Match-window height for the launcher target's cue.
pub const Y_LIMIT_5E: usize = 12;

/// Match-window side for the in-lobby check.
pub const LOBBY_LIMIT: usize = 4;

/// Whether a pixel matches the launcher target's template: one reference
/// colour, threshold 90.
pub open spec fn matches_5e(p: RGB2) -> bool {
    dist_sq(p, (RGB2 { r: 72, g: 180, b: 30 })) < 8100
}

/// Whether a pixel matches the game target's template: two reference
/// colours, threshold 20.
pub open spec fn matches_cs2(p: RGB2) -> bool {
    dist_sq(p, (RGB2 { r: 52, g: 182, b: 81 })) < 400 || dist_sq(
        p,
        (RGB2 { r: 58, g: 198, b: 90 }),
    ) < 400
}

/// Whether a pixel matches the in-lobby template: three reference colours,
/// threshold 30.
pub open spec fn matches_lobby(p: RGB2) -> bool {
    ||| dist_sq(p, (RGB2 { r: 11, g: 85, b: 10 })) < 900
    ||| dist_sq(p, (RGB2 { r: 4, g: 90, b: 4 })) < 900
    ||| dist_sq(p, (RGB2 { r: 9, g: 50, b: 7 })) < 900
}

/// The boolean mask of an image under the launcher template, as columns.
pub open spec fn grid_5e(area: Image) -> Seq<Seq<bool>> {
    Seq::new(
        area.width as nat,
        |x: int| Seq::new(area.height as nat, |y: int| matches_5e(area.pixel_at(x, y))),
    )
}

/// The boolean mask of an image under the game template, as columns.
pub open spec fn grid_cs2(area: Image) -> Seq<Seq<bool>> {
    Seq::new(
        area.width as nat,
        |x: int| Seq::new(area.height as nat, |y: int| matches_cs2(area.pixel_at(x, y))),
    )
}

/// The boolean mask of an image under the in-lobby template, as columns.
pub open spec fn grid_lobby(area: Image) -> Seq<Seq<bool>> {
    Seq::new(
        area.width as nat,
        |x: int| Seq::new(area.height as nat, |y: int| matches_lobby(area.pixel_at(x, y))),
    )
}

/// The launcher target's template.
pub fn match_template_5e() -> (m: Matcher)
    ensures
        m.wf(),
        m.use_diff,
        m.threshold == 90,
        m.template@.len() == 1,
        m.template@[0] == (RGB2 { r: 72, g: 180, b: 30 }),
{
    let mut t: Vec<RGB2> = Vec::new();
    t.push(RGB2::new(72, 180, 30));
    Matcher { use_diff: true, template: t, threshold: 90 }
}

/// The game target's template.
pub fn match_template_cs2() -> (m: Matcher)
    ensures
        m.wf(),
        m.use_diff,
        m.threshold == 20,
        m.template@.len() == 2,
        m.template@[0] == (RGB2 { r: 52, g: 182, b: 81 }),
        m.template@[1] == (RGB2 { r: 58, g: 198, b: 90 }),
{
    let mut t: Vec<RGB2> = Vec::new();
    t.push(RGB2::new(52, 182, 81));
    t.push(RGB2::new(58, 198, 90));
    Matcher { use_diff: true, template: t, threshold: 20 }
}

/// The in-lobby template.
pub fn match_template_lobby() -> (m: Matcher)
    ensures
        m.wf(),
        m.use_diff,
        m.threshold == 30,
        m.template@.len() == 3,
        m.template@[0] == (RGB2 { r: 11, g: 85, b: 10 }),
        m.template@[1] == (RGB2 { r: 4, g: 90, b: 4 }),
        m.template@[2] == (RGB2 { r: 9, g: 50, b: 7 }),
{
    let mut t: Vec<RGB2> = Vec::new();
    t.push(RGB2::new(11, 85, 10));
    t.push(RGB2::new(4, 90, 4));
    t.push(RGB2::new(9, 50, 7));
    Matcher { use_diff: true, template: t, threshold: 30 }
}

/// Scans a captured image for the launcher target's cue.
pub fn scan_target_5e(area: &Image, point: Point, force_distance: bool) -> (r: Result<
    SearchResult,
    ErrorKind,
>)
    requires
        area.wf(),
        point.pos1x >= 0,
        point.pos1y >= 0,
        area.width + point.pos1x <= i32::MAX,
        area.height + point.pos1y <= i32::MAX,
    ensures
        r is Err <==> X_LIMIT_5E > area.width || Y_LIMIT_5E > area.height,
        r is Err ==> r == Result::<SearchResult, ErrorKind>::Err(ErrorKind::Internal),
        r matches Ok(sr) ==> (sr is Found) == has_block(
            grid_5e(*area),
            area.width as int,
            area.height as int,
            X_LIMIT_5E as int,
            Y_LIMIT_5E as int,
        ),
        r matches Ok(SearchResult::Found(px, py)) ==> px <= i32::MAX && py <= i32::MAX
            && found_coords(
            grid_5e(*area),
            area.width as int,
            area.height as int,
            (MatchOptions { force_distance, limit_x: X_LIMIT_5E, limit_y: Y_LIMIT_5E }),
            point,
            px as int,
            py as int,
        ),
{
    let m = match_template_5e();
    let options = MatchOptions::new(force_distance, X_LIMIT_5E, Y_LIMIT_5E);
    let r = check_image_match(area, &m, options, point);
    proof {
        assert forall|x: int, y: int| 0 <= x < area.width && 0 <= y < area.height implies
            match_cell(*area, m, force_distance, x, y) == matches_5e(area.pixel_at(x, y)) by {
            let p = area.pixel_at(x, y);
            if matches_5e(p) {
                assert(dist_sq(p, m.template@[0]) < 90 * 90);
            }
        }
        assert(match_grid(*area, m, force_distance) =~~= grid_5e(*area));
    }
    r
}

/// Scans a captured image for the game target's cue.
pub fn scan_target_cs2(area: &Image, point: Point, force_distance: bool) -> (r: Result<
    SearchResult,
    ErrorKind,
>)
    requires
        area.wf(),
        point.pos1x >= 0,
        point.pos1y >= 0,
        area.width + point.pos1x <= i32::MAX,
        area.height + point.pos1y <= i32::MAX,
    ensures
        r is Err <==> X_LIMIT > area.width || Y_LIMIT > area.height,
        r is Err ==> r == Result::<SearchResult, ErrorKind>::Err(ErrorKind::Internal),
        r matches Ok(sr) ==> (sr is Found) == has_block(
            grid_cs2(*area),
            area.width as int,
            area.height as int,
            X_LIMIT as int,
            Y_LIMIT as int,
        ),
        r matches Ok(SearchResult::Found(px, py)) ==> px <= i32::MAX && py <= i32::MAX
            && found_coords(
            grid_cs2(*area),
            area.width as int,
            area.height as int,
            (MatchOptions { force_distance, limit_x: X_LIMIT, limit_y: Y_LIMIT }),
            point,
            px as int,
            py as int,
        ),
{
    let m = match_template_cs2();
    let options = MatchOptions::new(force_distance, X_LIMIT, Y_LIMIT);
    let r = check_image_match(area, &m, options, point);
    proof {
        assert forall|x: int, y: int| 0 <= x < area.width && 0 <= y < area.height implies
            match_cell(*area, m, force_distance, x, y) == matches_cs2(area.pixel_at(x, y)) by {
            let p = area.pixel_at(x, y);
            if dist_sq(p, (RGB2 { r: 52, g: 182, b: 81 })) < 400 {
                assert(dist_sq(p, m.template@[0]) < 20 * 20);
            } else if dist_sq(p, (RGB2 { r: 58, g: 198, b: 90 })) < 400 {
                assert(dist_sq(p, m.template@[1]) < 20 * 20);
            }
        }
        assert(match_grid(*area, m, force_distance) =~~= grid_cs2(*area));
    }
    r
}

/// Scans a captured image with the in-lobby template and the given window.
pub fn scan_lobby(area: &Image, point: Point, options: MatchOptions) -> (r: Result<
    SearchResult,
    ErrorKind,
>)
    requires
        area.wf(),
        options.wf(),
        point.pos1x >= 0,
        point.pos1y >= 0,
        area.width + point.pos1x <= i32::MAX,
        area.height + point.pos1y <= i32::MAX,
    ensures
        r is Err <==> options.limit_x > area.width || options.limit_y > area.height,
        r is Err ==> r == Result::<SearchResult, ErrorKind>::Err(ErrorKind::Internal),
        r matches Ok(sr) ==> (sr is Found) == has_block(
            grid_lobby(*area),
            area.width as int,
            area.height as int,
            options.limit_x as int,
            options.limit_y as int,
        ),
        r matches Ok(SearchResult::Found(px, py)) ==> px <= i32::MAX && py <= i32::MAX
            && found_coords(
            grid_lobby(*area),
            area.width as int,
            area.height as int,
            options,
            point,
            px as int,
            py as int,
        ),
{
    let m = match_template_lobby();
    let r = check_image_match(area, &m, options, point);
    proof {
        assert forall|x: int, y: int| 0 <= x < area.width && 0 <= y < area.height implies
            match_cell(*area, m, options.force_distance, x, y) == matches_lobby(
            area.pixel_at(x, y),
        ) by {
            let p = area.pixel_at(x, y);
            if dist_sq(p, (RGB2 { r: 11, g: 85, b: 10 })) < 900 {
                assert(dist_sq(p, m.template@[0]) < 30 * 30);
            } else if dist_sq(p, (RGB2 { r: 4, g: 90, b: 4 })) < 900 {
                assert(dist_sq(p, m.template@[1]) < 30 * 30);
            } else if dist_sq(p, (RGB2 { r: 9, g: 50, b: 7 })) < 900 {
                assert(dist_sq(p, m.template@[2]) < 30 * 30);
            }
        }
        assert(match_grid(*area, m, options.force_distance) =~~= grid_lobby(*area));
    }
    r
}

/// The answer of a target's gate for one tick.
#[derive(Clone, Copy, Debug, PartialEq, Eq, Structural)]
pub enum CheckResult {
    /// The target's cue should be scanned for now.
    NeedProcess,
    /// The target is busy: wait, and do not touch the mouse.
    NoNeedProcess,
    /// The target is absent: fall through to the next check.
    Next,
}

/// The launcher's process name.
pub open spec fn launcher_process() -> Seq<char> {
    "5EClient.exe"@
}

/// The game client's process name.
pub open spec fn game_process() -> Seq<char> {
    "cs2.exe"@
}

/// Some entry of `names` reads exactly `target`.
pub open spec fn contains_name(names: Seq<String>, target: Seq<char>) -> bool {
    exists|i: int| 0 <= i < names.len() && #[trigger] names[i]@ == target
}

/// Whether the process list holds a process of the given name.
pub fn process_present(names: &Vec<String>, target: &String) -> (r: bool)
    ensures
        r == contains_name(names@, target@),
{
    let mut i: usize = 0;
    while i < names.len()
        invariant
            0 <= i <= names@.len(),
            forall|k: int| 0 <= k < i ==> (#[trigger] names@[k])@ != target@,
        decreases names@.len() - i,
    {
        if names[i].eq(target) {
            assert(names@[i as int]@ == target@);
            return true;
        }
        i = i + 1;
    }
    false
}

/// The launcher's process name as a value.
pub fn launcher_process_name() -> (s: String)
    ensures
        s@ == launcher_process(),
{
    "5EClient.exe".to_owned()
}

/// The game client's process name as a value.
pub fn game_process_name() -> (s: String)
    ensures
        s@ == game_process(),
{
    "cs2.exe".to_owned()
}

/// Target A's gate over a process list: attention when the launcher runs
/// and the game does not; busy when both run; skip when the launcher is
/// absent.
pub open spec fn spec_gate_a(names: Seq<String>) -> CheckResult {
    if contains_name(names, launcher_process()) {
        if contains_name(names, game_process()) {
            CheckResult::NoNeedProcess
        } else {
            CheckResult::NeedProcess
        }
    } else {
        CheckResult::Next
    }
}

/// Evaluates target A's gate on the current process list.
pub fn check_need_handle(processes: &Vec<String>) -> (r: CheckResult)
    ensures
        r == spec_gate_a(processes@),
{
    let launcher = launcher_process_name();
    if process_present(processes, &launcher) {
        let game = game_process_name();
        if process_present(processes, &game) {
            CheckResult::NoNeedProcess
        } else {
            CheckResult::NeedProcess
        }
    } else {
        CheckResult::Next
    }
}

/// Target B's gate: attention when the game runs and the in-lobby check
/// succeeded; busy when it runs and the check failed; skip when the game is
/// absent.
pub open spec fn spec_gate_b(game_running: bool, lobby_found: bool) -> CheckResult {
    if !game_running {
        CheckResult::Next
    } else if lobby_found {
        CheckResult::NeedProcess
    } else {
        CheckResult::NoNeedProcess
    }
}

/// Evaluates target B's gate from the game's presence and the outcome of
/// the in-lobby scan.
pub fn check_primary_exec(game_running: bool, lobby: &SearchResult) -> (r: CheckResult)
    ensures
        r == spec_gate_b(game_running, *lobby is Found),
{
    if !game_running {
        CheckResult::Next
    } else {
        match lobby {
            SearchResult::Found(_, _) => CheckResult::NeedProcess,
            SearchResult::NotFound => CheckResult::NoNeedProcess,
        }
    }
}

} // verus!
