//! The action dispatcher: translates a found coordinate into the cursor
//! move and click sequence the input synthesizer should perform.

use vstd::prelude::*;
use crate::types::SearchResult;

verus! {

/// One primitive the input synthesizer performs.
#[derive(Clone, Copy, Debug, PartialEq, Eq, Structural)]
pub enum InputEvent {
    /// Move the OS cursor to this absolute coordinate.
    CursorMove(i32, i32),
    /// Press the left button.
    ButtonDown,
    /// Release the left button.
    ButtonUp,
    /// Wait this many milliseconds.
    PauseMillis(u64),
}

/// The event sequence dispatched for a hit at `(x, y)`: move the cursor; in
/// a dry run nothing more, else a click pair one second apart (the first
/// click arms the control, the second confirms).
pub open spec fn click_plan(x: i32, y: i32, dry_run: bool) -> Seq<InputEvent> {
    if dry_run {
        seq![InputEvent::CursorMove(x, y)]
    } else {
        seq![
            InputEvent::CursorMove(x, y),
            InputEvent::ButtonDown,
            InputEvent::ButtonUp,
            InputEvent::PauseMillis(1000),
            InputEvent::ButtonDown,
            InputEvent::ButtonUp,
        ]
    }
}

/// Plans the dispatch of a click at `(x, y)`. In dry-run mode the plan is
/// exactly one cursor move and no button event.
pub fn dispatch(x: i32, y: i32, dry_run: bool) -> (plan: Vec<InputEvent>)
    ensures
        plan@ == click_plan(x, y, dry_run),
        dry_run ==> plan@.len() == 1 && plan@[0] == InputEvent::CursorMove(x, y),
{
    let mut plan: Vec<InputEvent> = Vec::new();
    plan.push(InputEvent::CursorMove(x, y));
    if !dry_run {
        plan.push(InputEvent::ButtonDown);
        plan.push(InputEvent::ButtonUp);
        plan.push(InputEvent::PauseMillis(1000));
        plan.push(InputEvent::ButtonDown);
        plan.push(InputEvent::ButtonUp);
    }
    proof {
        assert(plan@ =~= click_plan(x, y, dry_run));
    }
    plan
}

/// Turns a search outcome into the plan to perform: a click plan for a hit,
/// nothing for a miss.
pub fn handle_target(result: &SearchResult, dry_run: bool) -> (r: Option<Vec<InputEvent>>)
    requires
        result matches SearchResult::Found(px, py) ==> px <= i32::MAX && py <= i32::MAX,
    ensures
        r is Some <==> result is Found,
        result matches SearchResult::Found(px, py) ==> r matches Some(plan) && plan@ == click_plan(
            px as i32,
            py as i32,
            dry_run,
        ),
{
    match result {
        SearchResult::Found(px, py) => Some(dispatch(*px as i32, *py as i32, dry_run)),
        SearchResult::NotFound => None,
    }
}

} // verus!
