use cue_clicker::color::RGB2;
use cue_clicker::configure::{Configure, Interval};
use cue_clicker::dispatch::{dispatch, handle_target, InputEvent};
use cue_clicker::image_data::Image;
use cue_clicker::region::{determine_point, get_right_upon_side, resolve_region};
use cue_clicker::supervisor::{sleep_poll_count, ActivationState, Step, Supervisor};
use cue_clicker::targets::{
    check_need_handle, check_primary_exec, scan_lobby, scan_target_5e, CheckResult,
};
use cue_clicker::types::{ErrorKind, MatchOptions, MonitorInfo, Point, RegionChoice, SearchResult};

fn names(list: &[&str]) -> Vec<String> {
    list.iter().map(|s| s.to_string()).collect()
}

fn fresh() -> Supervisor {
    Supervisor::new(Configure::default(), false, false)
}

#[test]
fn interval_defaults() {
    let i = Interval::default();
    assert_eq!(i.handle_success(), 2);
    assert_eq!(i.each(), 3);
    assert_eq!(i.long(), 10);
    assert_eq!(i.e5_wait(), 16);
    assert_eq!(i.cs2_wait(), 20);
}

#[test]
fn gate_a_cases() {
    let both = names(&["5EClient.exe", "cs2.exe", "other.exe"]);
    let launcher_only = names(&["5EClient.exe"]);
    let game_only = names(&["cs2.exe"]);
    let neither = names(&["explorer.exe"]);
    assert_eq!(check_need_handle(&both), CheckResult::NoNeedProcess);
    assert_eq!(check_need_handle(&launcher_only), CheckResult::NeedProcess);
    assert_eq!(check_need_handle(&game_only), CheckResult::Next);
    assert_eq!(check_need_handle(&neither), CheckResult::Next);
}

#[test]
fn gate_b_cases() {
    assert_eq!(
        check_primary_exec(false, &SearchResult::NotFound),
        CheckResult::Next
    );
    assert_eq!(
        check_primary_exec(true, &SearchResult::Found(3, 4)),
        CheckResult::NeedProcess
    );
    assert_eq!(
        check_primary_exec(true, &SearchResult::NotFound),
        CheckResult::NoNeedProcess
    );
}

#[test]
fn gating_launcher_busy() {
    // Both launcher and game run: target A reports busy, the supervisor
    // sleeps the launcher wait (16 s by default) and asks for no capture.
    let mut sup = fresh();
    sup.on_processes(&names(&["cs2.exe", "5EClient.exe"]));
    assert_eq!(sup.current_step(), Step::Sleep(16));
    assert_eq!(sup.state, ActivationState::Cooldown);
}

#[test]
fn gating_launcher_attention() {
    // Launcher present, game absent: target A wants a scan of its region.
    let mut sup = fresh();
    sup.on_processes(&names(&["5EClient.exe"]));
    assert_eq!(sup.current_step(), Step::CaptureA);
    assert_eq!(sup.state, ActivationState::ScanningA);

    // With no configured rectangle the default centre region is captured.
    let (choice, is_5e) = sup.capture_choice();
    assert!(is_5e);
    assert!(matches!(choice, RegionChoice::Auto));
    let monitor = MonitorInfo { x: 0, y: 0, width: 1920, height: 1080 };
    let region = resolve_region(&choice, monitor, is_5e);
    assert_eq!(region, Point::new(760, 490, 1160, 690));

    // The captured frame is one solid block of the launcher's cue colour.
    let area = Image::new(40, 20, vec![RGB2::new(72, 180, 30); 800]).unwrap();
    let r = scan_target_5e(&area, region, false).unwrap();
    let (px, py) = match r {
        SearchResult::Found(px, py) => (px, py),
        SearchResult::NotFound => panic!("expected a hit"),
    };
    // First window origin (0, 0), centre (13, 6), offset by the region.
    assert_eq!((px, py), (773, 496));

    sup.on_scan_result(&r);
    assert_eq!(sup.current_step(), Step::Dispatch(773, 496));

    // A real (non-dry) dispatch is a click pair with a one-second gap.
    let plan = handle_target(&r, false).unwrap();
    assert_eq!(
        plan,
        vec![
            InputEvent::CursorMove(773, 496),
            InputEvent::ButtonDown,
            InputEvent::ButtonUp,
            InputEvent::PauseMillis(1000),
            InputEvent::ButtonDown,
            InputEvent::ButtonUp,
        ]
    );
    sup.on_dispatched(true);
    assert_eq!(sup.current_step(), Step::Sleep(2));
}

#[test]
fn exit_during_sleep() {
    // The game runs but its lobby cue is absent: target B reports busy and
    // the supervisor sleeps the game wait. The exit latch is set during
    // that sleep: the loop stops with no retained error.
    let mut sup = fresh();
    sup.on_processes(&names(&["cs2.exe"]));
    assert_eq!(sup.current_step(), Step::CaptureLobby);
    let (choice, _) = sup.capture_choice();
    assert!(matches!(choice, RegionChoice::TopRightStrip));

    let strip = Image::new(30, 16, vec![RGB2::new(200, 200, 200); 480]).unwrap();
    let r = scan_lobby(&strip, Point::new(1890, 0, 1920, 16), MatchOptions::new(false, 4, 4))
        .unwrap();
    assert_eq!(r, SearchResult::NotFound);

    sup.on_scan_result(&r);
    assert_eq!(sup.current_step(), Step::Sleep(20));

    sup.on_slept(true);
    assert_eq!(sup.current_step(), Step::Stopped);
    assert_eq!(sup.state, ActivationState::Stopping);
    assert_eq!(sup.exit_error(), None);
}

#[test]
fn lobby_hit_arms_the_game_scan() {
    let mut sup = fresh();
    sup.on_processes(&names(&["cs2.exe"]));
    assert_eq!(sup.current_step(), Step::CaptureLobby);
    let strip = Image::new(30, 16, vec![RGB2::new(11, 85, 10); 480]).unwrap();
    let r = scan_lobby(&strip, Point::new(1890, 0, 1920, 16), MatchOptions::new(false, 4, 4))
        .unwrap();
    assert!(matches!(r, SearchResult::Found(_, _)));
    sup.on_scan_result(&r);
    assert_eq!(sup.current_step(), Step::CaptureB);
    let (choice, is_5e) = sup.capture_choice();
    assert!(!is_5e);
    assert!(matches!(choice, RegionChoice::Auto));
}

#[test]
fn a_miss_falls_through_to_idle_when_game_absent() {
    let mut sup = fresh();
    sup.on_processes(&names(&["5EClient.exe"]));
    sup.on_scan_result(&SearchResult::NotFound);
    assert_eq!(sup.current_step(), Step::Sleep(3));
    sup.on_slept(false);
    assert_eq!(sup.current_step(), Step::RefreshProcesses);
    assert_eq!(sup.state, ActivationState::Idle);
}

#[test]
fn dry_run_idles_two_seconds() {
    let mut sup = Supervisor::new(Configure::default(), false, true);
    sup.on_processes(&names(&["explorer.exe"]));
    assert_eq!(sup.current_step(), Step::Sleep(2));
}

#[test]
fn capture_errors_restart_or_wait() {
    let mut sup = fresh();
    sup.on_processes(&names(&["5EClient.exe"]));
    sup.on_scan_error(ErrorKind::CaptureFailed);
    assert_eq!(sup.current_step(), Step::RefreshProcesses);
    assert_eq!(sup.exit_error(), Some(ErrorKind::CaptureFailed));

    sup.on_processes(&names(&["5EClient.exe"]));
    sup.on_scan_error(ErrorKind::NoDisplay);
    assert_eq!(sup.current_step(), Step::Sleep(3));
    assert_eq!(sup.exit_error(), Some(ErrorKind::NoDisplay));
}

#[test]
fn second_consecutive_internal_error_stops_the_loop() {
    let mut sup = fresh();
    sup.on_processes(&names(&["5EClient.exe"]));
    sup.on_scan_error(ErrorKind::Internal);
    assert_eq!(sup.current_step(), Step::RefreshProcesses);
    sup.on_processes(&names(&["5EClient.exe"]));
    sup.on_scan_error(ErrorKind::Internal);
    assert_eq!(sup.current_step(), Step::Stopped);
    assert_eq!(sup.exit_error(), Some(ErrorKind::Internal));
}

#[test]
fn dry_run_dispatch_moves_only() {
    let plan = dispatch(40, 50, true);
    assert_eq!(plan, vec![InputEvent::CursorMove(40, 50)]);
}

#[test]
fn sleep_polls_twice_a_second() {
    assert_eq!(sleep_poll_count(0), 0);
    assert_eq!(sleep_poll_count(16), 32);
}

#[test]
fn configure_getters_and_defaults() {
    let c = Configure::default();
    assert!(c.cs2().is_none());
    assert!(c.e5().is_none());
    assert_eq!(c.interval().each(), 3);
    let p = Point::new(10, 20, 110, 220);
    assert_eq!(p.x(), 10);
    assert_eq!(p.y(), 20);
    assert_eq!(p.width(), 100);
    assert_eq!(p.height(), 200);
    let o = MatchOptions::new(true, 26, 12);
    assert!(o.force_distance());
    assert_eq!(o.limit_x(), 26);
    assert_eq!(o.limit_y(), 12);
}

#[test]
fn dispatch_failure_restarts_and_retains_the_error() {
    let mut sup = fresh();
    sup.on_processes(&names(&["5EClient.exe"]));
    sup.on_scan_result(&SearchResult::Found(100, 100));
    assert_eq!(sup.current_step(), Step::Dispatch(100, 100));
    sup.on_dispatched(false);
    assert_eq!(sup.current_step(), Step::RefreshProcesses);
    assert_eq!(sup.exit_error(), Some(ErrorKind::InputFailed));
}

#[test]
fn default_regions_match_the_monitor_centre() {
    let monitor = MonitorInfo { x: 0, y: 0, width: 1920, height: 1080 };
    // Game target: centre shifted up by 100.
    assert_eq!(
        determine_point(monitor, false),
        Point::new(760, 340, 1160, 540)
    );
    // Launcher target: centre shifted down by 50.
    assert_eq!(
        determine_point(monitor, true),
        Point::new(760, 490, 1160, 690)
    );
    assert_eq!(get_right_upon_side(monitor), Point::new(1890, 0, 1920, 16));
    let literal = Point::new(1, 2, 3, 4);
    assert_eq!(
        resolve_region(&RegionChoice::Literal(literal), monitor, false),
        literal
    );
}
