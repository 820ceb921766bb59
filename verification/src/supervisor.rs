//! The activation state machine: decides, tick by tick, which target to
//! scan, when to sleep and for how long, when to dispatch a click, and when
//! to stop.
//!
//! The supervisor owns no thread and performs no outside work itself. The
//! caller drives it: it asks for the current [`Step`], performs the outside
//! work the step names (refresh the process list, capture a region, carry
//! out a click plan, sleep while polling the exit latch), and hands the
//! outcome back through the `on_*` methods, each of which decides the next
//! step.

use vstd::prelude::*;
use crate::configure::Configure;
use crate::targets::{contains_name, game_process, spec_gate_a, CheckResult, check_need_handle, game_process_name, process_present};
use crate::types::{ErrorKind, RegionChoice, SearchResult};

verus! {

/// Seconds the idle sleep lasts in dry-run mode.
pub const DRY_RUN_IDLE: u64 = 2;

/// The lifecycle state of the activation loop.
#[derive(Clone, Copy, Debug, PartialEq, Eq, Structural)]
pub enum ActivationState {
    Idle,
    ScanningA,
    ScanningB,
    Cooldown,
    Stopping,
}

/// The outside work the supervisor asks for next.
#[derive(Clone, Copy, Debug, PartialEq, Eq, Structural)]
pub enum Step {
    /// Refresh the process list and report it.
    RefreshProcesses,
    /// Capture the launcher target's region and scan it.
    CaptureA,
    /// Capture the top-right strip and run the in-lobby scan.
    CaptureLobby,
    /// Capture the game target's region and scan it.
    CaptureB,
    /// Perform the click plan for this absolute coordinate.
    Dispatch(i32, i32),
    /// Sleep this many seconds, polling the exit latch.
    Sleep(u64),
    /// The loop has ended.
    Stopped,
}

/// The supervisor: the per-tick decision state of the activation loop.
pub struct Supervisor {
    pub config: Configure,
    pub force_distance: bool,
    pub dry_run: bool,
    pub state: ActivationState,
    pub step: Step,
    pub game_running: bool,
    pub last_error: Option<ErrorKind>,
    pub internal_errors: u8,
}

impl Supervisor {
    /// The step always agrees with the lifecycle state.
    pub open spec fn wf(self) -> bool {
        match self.step {
            Step::RefreshProcesses => self.state == ActivationState::Idle,
            Step::CaptureA => self.state == ActivationState::ScanningA,
            Step::CaptureLobby => self.state == ActivationState::ScanningB,
            Step::CaptureB => self.state == ActivationState::ScanningB,
            Step::Dispatch(_, _) => self.state == ActivationState::ScanningA || self.state
                == ActivationState::ScanningB,
            Step::Sleep(_) => self.state == ActivationState::Cooldown,
            Step::Stopped => self.state == ActivationState::Stopping,
        }
    }

    /// Seconds the idle sleep at the end of an uneventful tick lasts.
    pub open spec fn idle_sleep(self) -> u64 {
        if self.dry_run {
            DRY_RUN_IDLE
        } else {
            self.config.interval.each
        }
    }

    /// A fresh supervisor, idle and about to start its first tick.
    pub fn new(config: Configure, force_distance: bool, dry_run: bool) -> (s: Supervisor)
        ensures
            s.wf(),
            s.config == config,
            s.force_distance == force_distance,
            s.dry_run == dry_run,
            s.state == ActivationState::Idle,
            s.step == Step::RefreshProcesses,
            s.last_error is None,
            s.internal_errors == 0,
    {
        Supervisor {
            config,
            force_distance,
            dry_run,
            state: ActivationState::Idle,
            step: Step::RefreshProcesses,
            game_running: false,
            last_error: None,
            internal_errors: 0,
        }
    }

    /// The outside work to perform next.
    pub fn current_step(&self) -> (s: Step)
        ensures
            s == self.step,
    {
        self.step
    }

    /// The error that shutdown surfaces, if any tick failed.
    pub fn exit_error(&self) -> (e: Option<ErrorKind>)
        ensures
            e == self.last_error,
    {
        self.last_error
    }

    /// Which rectangle the pending capture step wants, and whether the
    /// region belongs to the launcher target: the literal rectangle from
    /// configuration when one is set, else the target's own rule.
    pub fn capture_choice(&self) -> (r: (RegionChoice, bool))
        requires
            self.step == Step::CaptureA || self.step == Step::CaptureLobby || self.step
                == Step::CaptureB,
        ensures
            self.step == Step::CaptureA ==> r.1 && (match self.config.e5 {
                Some(p) => r.0 == RegionChoice::Literal(p),
                None => r.0 == RegionChoice::Auto,
            }),
            self.step == Step::CaptureB ==> !r.1 && (match self.config.cs2 {
                Some(p) => r.0 == RegionChoice::Literal(p),
                None => r.0 == RegionChoice::Auto,
            }),
            self.step == Step::CaptureLobby ==> !r.1 && r.0 == RegionChoice::TopRightStrip,
    {
        match self.step {
            Step::CaptureA => {
                match self.config.e5() {
                    Some(p) => (RegionChoice::Literal(p), true),
                    None => (RegionChoice::Auto, true),
                }
            },
            Step::CaptureLobby => (RegionChoice::TopRightStrip, false),
            _ => {
                match self.config.cs2() {
                    Some(p) => (RegionChoice::Literal(p), false),
                    None => (RegionChoice::Auto, false),
                }
            },
        }
    }

    /// Starts a tick from the refreshed process list. Target A is gated
    /// first: attention starts its scan, busy sleeps the launcher wait.
    /// Only when A skips is target B considered: its gate starts with the
    /// in-lobby capture when the game runs, else the tick ends in the idle
    /// sleep.
    pub fn on_processes(&mut self, processes: &Vec<String>)
        requires
            old(self).wf(),
            old(self).step == Step::RefreshProcesses,
        ensures
            final(self).wf(),
            final(self).config == old(self).config,
            final(self).force_distance == old(self).force_distance,
            final(self).dry_run == old(self).dry_run,
            final(self).last_error == old(self).last_error,
            final(self).internal_errors == old(self).internal_errors,
            final(self).game_running == contains_name(processes@, game_process()),
            spec_gate_a(processes@) == CheckResult::NeedProcess ==> final(self).state
                == ActivationState::ScanningA && final(self).step == Step::CaptureA,
            spec_gate_a(processes@) == CheckResult::NoNeedProcess ==> final(self).state
                == ActivationState::Cooldown && final(self).step == Step::Sleep(
                old(self).config.interval.e5_wait,
            ),
            spec_gate_a(processes@) == CheckResult::Next ==> (if contains_name(
                processes@,
                game_process(),
            ) {
                final(self).state == ActivationState::ScanningB && final(self).step
                    == Step::CaptureLobby
            } else {
                final(self).state == ActivationState::Cooldown && final(self).step == Step::Sleep(
                    old(self).idle_sleep(),
                )
            }),
    {
        let game = game_process_name();
        self.game_running = process_present(processes, &game);
        match check_need_handle(processes) {
            CheckResult::NeedProcess => {
                self.state = ActivationState::ScanningA;
                self.step = Step::CaptureA;
            },
            CheckResult::NoNeedProcess => {
                self.state = ActivationState::Cooldown;
                self.step = Step::Sleep(self.config.interval().e5_wait());
            },
            CheckResult::Next => {
                if self.game_running {
                    self.state = ActivationState::ScanningB;
                    self.step = Step::CaptureLobby;
                } else {
                    self.state = ActivationState::Cooldown;
                    let secs = if self.dry_run {
                        DRY_RUN_IDLE
                    } else {
                        self.config.interval().each()
                    };
                    self.step = Step::Sleep(secs);
                }
            },
        }
    }

    /// Consumes the outcome of the pending scan. A hit on a target's own
    /// region dispatches a click at the hit; a miss falls through: after A
    /// to target B's gate, after the lobby check to the busy wait, after B
    /// to the idle sleep. A lobby hit arms the scan of B's own region.
    pub fn on_scan_result(&mut self, sr: &SearchResult)
        requires
            old(self).wf(),
            old(self).step == Step::CaptureA || old(self).step == Step::CaptureLobby || old(self).step == Step::CaptureB,
            sr matches SearchResult::Found(px, py) ==> px <= i32::MAX && py <= i32::MAX,
        ensures
            final(self).wf(),
            final(self).config == old(self).config,
            final(self).force_distance == old(self).force_distance,
            final(self).dry_run == old(self).dry_run,
            final(self).last_error == old(self).last_error,
            final(self).game_running == old(self).game_running,
            final(self).internal_errors == 0,
            old(self).step == Step::CaptureA ==> (match *sr {
                SearchResult::Found(px, py) => final(self).state == ActivationState::ScanningA
                    && final(self).step == Step::Dispatch(px as i32, py as i32),
                SearchResult::NotFound => (if old(self).game_running {
                    final(self).state == ActivationState::ScanningB && final(self).step
                        == Step::CaptureLobby
                } else {
                    final(self).state == ActivationState::Cooldown && final(self).step
                        == Step::Sleep(old(self).idle_sleep())
                }),
            }),
            old(self).step == Step::CaptureLobby ==> (match *sr {
                SearchResult::Found(px, py) => final(self).state == ActivationState::ScanningB
                    && final(self).step == Step::CaptureB,
                SearchResult::NotFound => final(self).state == ActivationState::Cooldown && final(self).step == Step::Sleep(old(self).config.interval.cs2_wait),
            }),
            old(self).step == Step::CaptureB ==> (match *sr {
                SearchResult::Found(px, py) => final(self).state == ActivationState::ScanningB
                    && final(self).step == Step::Dispatch(px as i32, py as i32),
                SearchResult::NotFound => final(self).state == ActivationState::Cooldown && final(self).step == Step::Sleep(old(self).idle_sleep()),
            }),
    {
        self.internal_errors = 0;
        match self.step {
            Step::CaptureA => {
                match sr {
                    SearchResult::Found(px, py) => {
                        self.step = Step::Dispatch(*px as i32, *py as i32);
                    },
                    SearchResult::NotFound => {
                        if self.game_running {
                            self.state = ActivationState::ScanningB;
                            self.step = Step::CaptureLobby;
                        } else {
                            self.state = ActivationState::Cooldown;
                            let secs = if self.dry_run {
                                DRY_RUN_IDLE
                            } else {
                                self.config.interval().each()
                            };
                            self.step = Step::Sleep(secs);
                        }
                    },
                }
            },
            Step::CaptureLobby => {
                match sr {
                    SearchResult::Found(_, _) => {
                        self.step = Step::CaptureB;
                    },
                    SearchResult::NotFound => {
                        self.state = ActivationState::Cooldown;
                        self.step = Step::Sleep(self.config.interval().cs2_wait());
                    },
                }
            },
            _ => {
                match sr {
                    SearchResult::Found(px, py) => {
                        self.step = Step::Dispatch(*px as i32, *py as i32);
                    },
                    SearchResult::NotFound => {
                        self.state = ActivationState::Cooldown;
                        let secs = if self.dry_run {
                            DRY_RUN_IDLE
                        } else {
                            self.config.interval().each()
                        };
                        self.step = Step::Sleep(secs);
                    },
                }
            },
        }
    }

    /// Consumes a failed capture or scan. A missing display ends the tick
    /// and the next one starts after the idle interval; a refused capture
    /// restarts the tick at once. An internal error restarts the tick too,
    /// but a second consecutive internal error stops the loop. The error is
    /// retained and surfaces at shutdown.
    pub fn on_scan_error(&mut self, kind: ErrorKind)
        requires
            old(self).wf(),
            old(self).step == Step::CaptureA || old(self).step == Step::CaptureLobby || old(self).step == Step::CaptureB,
            kind == ErrorKind::NoDisplay || kind == ErrorKind::CaptureFailed || kind
                == ErrorKind::Internal,
        ensures
            final(self).wf(),
            final(self).config == old(self).config,
            final(self).force_distance == old(self).force_distance,
            final(self).dry_run == old(self).dry_run,
            final(self).game_running == old(self).game_running,
            final(self).last_error == Some(kind),
            kind == ErrorKind::NoDisplay ==> final(self).state == ActivationState::Cooldown
                && final(self).step == Step::Sleep(old(self).config.interval.each) && final(self).internal_errors == 0,
            kind == ErrorKind::CaptureFailed ==> final(self).state == ActivationState::Idle
                && final(self).step == Step::RefreshProcesses && final(self).internal_errors == 0,
            kind == ErrorKind::Internal ==> (if old(self).internal_errors >= 1 {
                final(self).state == ActivationState::Stopping && final(self).step == Step::Stopped
            } else {
                final(self).state == ActivationState::Idle && final(self).step
                    == Step::RefreshProcesses && final(self).internal_errors == 1
            }),
    {
        self.last_error = Some(kind);
        match kind {
            ErrorKind::NoDisplay => {
                self.internal_errors = 0;
                self.state = ActivationState::Cooldown;
                self.step = Step::Sleep(self.config.interval().each());
            },
            ErrorKind::Internal => {
                if self.internal_errors >= 1 {
                    self.state = ActivationState::Stopping;
                    self.step = Step::Stopped;
                } else {
                    self.internal_errors = 1;
                    self.state = ActivationState::Idle;
                    self.step = Step::RefreshProcesses;
                }
            },
            _ => {
                self.internal_errors = 0;
                self.state = ActivationState::Idle;
                self.step = Step::RefreshProcesses;
            },
        }
    }

    /// Consumes the outcome of a dispatched click plan: on success the tick
    /// ends in the post-success sleep; a refused input restarts the tick
    /// and the error is retained.
    pub fn on_dispatched(&mut self, ok: bool)
        requires
            old(self).wf(),
            old(self).step matches Step::Dispatch(_, _),
        ensures
            final(self).wf(),
            final(self).config == old(self).config,
            final(self).force_distance == old(self).force_distance,
            final(self).dry_run == old(self).dry_run,
            final(self).game_running == old(self).game_running,
            final(self).internal_errors == old(self).internal_errors,
            ok ==> final(self).state == ActivationState::Cooldown && final(self).step
                == Step::Sleep(old(self).config.interval.handle_success) && final(self).last_error
                == old(self).last_error,
            !ok ==> final(self).state == ActivationState::Idle && final(self).step
                == Step::RefreshProcesses && final(self).last_error == Some(
                ErrorKind::InputFailed,
            ),
    {
        if ok {
            self.state = ActivationState::Cooldown;
            self.step = Step::Sleep(self.config.interval().handle_success());
        } else {
            self.last_error = Some(ErrorKind::InputFailed);
            self.state = ActivationState::Idle;
            self.step = Step::RefreshProcesses;
        }
    }

    /// Consumes the end of a sleep: when the exit latch was observed the
    /// loop stops, else the next tick starts.
    pub fn on_slept(&mut self, exited: bool)
        requires
            old(self).wf(),
            old(self).step matches Step::Sleep(_),
        ensures
            final(self).wf(),
            final(self).config == old(self).config,
            final(self).force_distance == old(self).force_distance,
            final(self).dry_run == old(self).dry_run,
            final(self).game_running == old(self).game_running,
            final(self).last_error == old(self).last_error,
            final(self).internal_errors == old(self).internal_errors,
            exited ==> final(self).state == ActivationState::Stopping && final(self).step
                == Step::Stopped,
            !exited ==> final(self).state == ActivationState::Idle && final(self).step
                == Step::RefreshProcesses,
    {
        if exited {
            self.state = ActivationState::Stopping;
            self.step = Step::Stopped;
        } else {
            self.state = ActivationState::Idle;
            self.step = Step::RefreshProcesses;
        }
    }

    /// Stops the loop at once, from any state.
    pub fn on_exit(&mut self)
        ensures
            final(self).wf(),
            final(self).config == old(self).config,
            final(self).force_distance == old(self).force_distance,
            final(self).dry_run == old(self).dry_run,
            final(self).game_running == old(self).game_running,
            final(self).last_error == old(self).last_error,
            final(self).internal_errors == old(self).internal_errors,
            final(self).state == ActivationState::Stopping,
            final(self).step == Step::Stopped,
    {
        self.state = ActivationState::Stopping;
        self.step = Step::Stopped;
    }
}

/// How many times a sleep of `seconds` seconds polls the exit latch: once
/// every half second, so the latch is observed within half a second of
/// being set.
pub fn sleep_poll_count(seconds: u64) -> (n: u64)
    requires
        seconds <= u64::MAX / 2,
    ensures
        n == 2 * seconds,
{
    seconds * 2
}

} // verus!
