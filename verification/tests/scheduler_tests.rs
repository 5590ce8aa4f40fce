use pong_core::commands::CommandBuffer;
use pong_core::components::{
    ComponentMask, ComponentSet, EntityId, GameState, Player, Position, PresentMode, Score, Window,
};
use pong_core::error::{ConfigError, FatalError, ResourceKind, StepError};
use pong_core::log::LogEntry;
use pong_core::scheduler::{run_phase, Outcome, Phase, Scheduler};
use pong_core::steps::{Input, Step};
use pong_core::store::{Resource, Store};

const PRESSED: Input = Input { toggle_pressed: true };
const IDLE: Input = Input { toggle_pressed: false };

fn store_with_windows(windows: usize) -> Store {
    let mut store = Store::new();
    for _ in 0..windows {
        store.spawn(ComponentSet::of_window(Window::new()));
    }
    store
}

fn window_of(scheduler: &Scheduler) -> Window {
    scheduler.store().single_window().unwrap().1
}

#[test]
fn reference_scheduler_starts_in_startup_at_frame_zero() {
    let scheduler = Scheduler::reference();
    assert_eq!(scheduler.phase(), Phase::Startup);
    assert_eq!(scheduler.halted(), None);
    assert_eq!(scheduler.frame_count(), 0);
    assert_eq!(scheduler.store().single_window(), Ok((EntityId(0), Window::new())));
    assert_eq!(scheduler.store().resource_get(ResourceKind::GameState), None);
    assert!(scheduler.store().query_players().is_empty());
}

#[test]
fn new_scheduler_gives_the_store_a_frame_clock() {
    let scheduler = Scheduler::new(Store::new(), vec![], vec![]);
    assert_eq!(scheduler.frame_count(), 0);
    assert!(scheduler.store().resource_get(ResourceKind::FrameClock).is_some());
}

#[test]
fn new_scheduler_keeps_a_frame_clock_that_the_store_brings() {
    let mut store = Store::new();
    let mut clock = pong_core::clock::FrameClock::new();
    clock.tick();
    clock.tick();
    store.resource_insert(Resource::FrameClock(clock)).unwrap();
    let scheduler = Scheduler::new(store, vec![], vec![]);
    assert_eq!(scheduler.frame_count(), 2);
}

#[test]
fn startup_spawns_two_players_with_score_zero_at_their_positions() {
    let mut scheduler = Scheduler::reference();
    let report = scheduler.run_startup();
    assert_eq!(report.outcome, Outcome::Completed);
    assert_eq!(
        scheduler.store().query_players(),
        vec![
            (Player(1), Position { x: -200, y: 0 }, Score(0)),
            (Player(2), Position { x: 200, y: 0 }, Score(0)),
        ]
    );
    assert_eq!(scheduler.store().query(ComponentMask::players()).len(), 2);
}

#[test]
fn startup_inserts_the_game_state_and_updates_leave_it_alone() {
    let mut scheduler = Scheduler::reference();
    scheduler.run_startup();
    let expected = Some(Resource::GameState(GameState::new(0, 5).unwrap()));
    assert_eq!(scheduler.store().resource_get(ResourceKind::GameState), expected);
    match scheduler.store().resource_get(ResourceKind::GameState) {
        Some(Resource::GameState(state)) => {
            assert_eq!(state.current_round(), 0);
            assert_eq!(state.max_rounds(), 5);
        }
        _ => panic!("game state missing"),
    }
    for _ in 0..100 {
        assert_eq!(scheduler.run_update(IDLE).outcome, Outcome::Completed);
    }
    assert_eq!(scheduler.store().resource_get(ResourceKind::GameState), expected);
    assert_eq!(scheduler.frame_count(), 100);
}

#[test]
fn startup_log_is_the_dump_of_what_was_opened() {
    let mut scheduler = Scheduler::reference();
    let report = scheduler.run_startup();
    assert_eq!(report.frame, 0);
    assert_eq!(
        report.log,
        vec![
            LogEntry::Rule,
            LogEntry::GameStateLine(GameState::new(0, 5).unwrap()),
            LogEntry::PlayerLine(Player(1), Position { x: -200, y: 0 }, Score(0)),
            LogEntry::PlayerLine(Player(2), Position { x: 200, y: 0 }, Score(0)),
            LogEntry::Rule,
        ]
    );
}

#[test]
fn startup_runs_once_and_leads_to_update() {
    let mut scheduler = Scheduler::reference();
    assert_eq!(scheduler.run_startup().outcome, Outcome::Completed);
    assert_eq!(scheduler.phase(), Phase::Update);
    let again = scheduler.run_startup();
    assert_eq!(again.outcome, Outcome::NotDue);
    assert!(again.log.is_empty());
    assert_eq!(scheduler.phase(), Phase::Update);
    assert_eq!(scheduler.store().query_players().len(), 2);
    assert_eq!(scheduler.halted(), None);
}

#[test]
fn startup_does_not_advance_the_frame_clock() {
    let mut scheduler = Scheduler::reference();
    scheduler.run_startup();
    assert_eq!(scheduler.frame_count(), 0);
}

#[test]
fn update_before_startup_runs_nothing() {
    let mut scheduler = Scheduler::reference();
    let report = scheduler.run_update(PRESSED);
    assert_eq!(report.outcome, Outcome::NotDue);
    assert!(report.log.is_empty());
    assert_eq!(scheduler.phase(), Phase::Startup);
    assert_eq!(scheduler.frame_count(), 0);
    assert_eq!(window_of(&scheduler), Window::new());
}

#[test]
fn frame_clock_advances_by_one_each_iteration() {
    let mut scheduler = Scheduler::reference();
    scheduler.run_startup();
    let mut observed = Vec::new();
    for i in 0..60u64 {
        assert_eq!(scheduler.frame_count(), i);
        let report = scheduler.run_update(IDLE);
        assert_eq!(report.frame, i);
        assert!(!observed.contains(&report.frame));
        observed.push(report.frame);
        assert_eq!(scheduler.frame_count(), i + 1);
    }
}

#[test]
fn window_becomes_visible_on_exactly_one_iteration() {
    let mut scheduler = Scheduler::reference();
    scheduler.run_startup();
    let mut transitions = Vec::new();
    for _ in 0..200 {
        let before = window_of(&scheduler).visible;
        let report = scheduler.run_update(IDLE);
        let after = window_of(&scheduler).visible;
        assert!(!(before && !after));
        if !before && after {
            transitions.push(report.frame);
        }
        assert_eq!(after, report.frame >= 3);
    }
    assert_eq!(transitions, vec![3]);
}

#[test]
fn toggles_on_iterations_ten_and_twenty_five() {
    let mut scheduler = Scheduler::reference();
    scheduler.run_startup();
    for iteration in 0..40u64 {
        let input = if iteration == 10 || iteration == 25 { PRESSED } else { IDLE };
        let report = scheduler.run_update(input);
        assert_eq!(report.frame, iteration);
        let expected = if iteration < 10 {
            PresentMode::VsyncOff
        } else if iteration < 25 {
            PresentMode::VsyncOn
        } else {
            PresentMode::VsyncOff
        };
        assert_eq!(window_of(&scheduler).present_mode, expected, "iteration {}", iteration);
        if iteration == 10 {
            assert_eq!(report.log, vec![LogEntry::PresentModeChanged(PresentMode::VsyncOn)]);
        } else if iteration == 25 {
            assert_eq!(report.log, vec![LogEntry::PresentModeChanged(PresentMode::VsyncOff)]);
        } else {
            assert!(report.log.is_empty());
        }
    }
}

#[test]
fn mode_after_n_toggle_events_follows_parity() {
    let mut scheduler = Scheduler::reference();
    scheduler.run_startup();
    assert_eq!(window_of(&scheduler).present_mode, PresentMode::VsyncOff);
    let mut toggles = 0u32;
    for iteration in 0..90u32 {
        let pressed = iteration % 3 != 1;
        if pressed {
            toggles += 1;
        }
        scheduler.run_update(Input { toggle_pressed: pressed });
        let expected = if toggles % 2 == 0 { PresentMode::VsyncOff } else { PresentMode::VsyncOn };
        assert_eq!(window_of(&scheduler).present_mode, expected);
    }
}

#[test]
fn every_toggle_is_logged() {
    let mut scheduler = Scheduler::reference();
    scheduler.run_startup();
    let first = scheduler.run_update(PRESSED);
    assert_eq!(first.log, vec![LogEntry::PresentModeChanged(PresentMode::VsyncOn)]);
    let second = scheduler.run_update(PRESSED);
    assert_eq!(second.log, vec![LogEntry::PresentModeChanged(PresentMode::VsyncOff)]);
    let third = scheduler.run_update(IDLE);
    assert!(third.log.is_empty());
}

#[test]
fn toggle_on_the_reveal_frame_sees_the_revealed_window() {
    let mut scheduler = Scheduler::reference();
    scheduler.run_startup();
    for _ in 0..3 {
        scheduler.run_update(IDLE);
    }
    let report = scheduler.run_update(PRESSED);
    assert_eq!(report.frame, 3);
    assert_eq!(
        window_of(&scheduler),
        Window { visible: true, present_mode: PresentMode::VsyncOn }
    );
}

#[test]
fn step_that_tolerates_absence_does_not_abort_the_iteration() {
    let mut scheduler = Scheduler::new(
        store_with_windows(1),
        vec![],
        vec![Step::DumpState, Step::ToggleVsync],
    );
    assert_eq!(scheduler.store().resource_get(ResourceKind::GameState), None);
    scheduler.run_startup();
    let report = scheduler.run_update(PRESSED);
    assert_eq!(report.outcome, Outcome::Completed);
    assert_eq!(
        report.log,
        vec![
            LogEntry::Rule,
            LogEntry::Rule,
            LogEntry::PresentModeChanged(PresentMode::VsyncOn),
        ]
    );
}

#[test]
fn step_that_requires_presence_raises_a_configuration_error() {
    let mut scheduler = Scheduler::new(
        store_with_windows(1),
        vec![],
        vec![Step::CheckStartup, Step::ToggleVsync],
    );
    scheduler.run_startup();
    let report = scheduler.run_update(PRESSED);
    let error = ConfigError::MissingResource(ResourceKind::GameState);
    assert_eq!(report.outcome, Outcome::Aborted { step: 0, error });
    assert_eq!(report.log, vec![LogEntry::StepFailed { step: 0, error }]);
    assert_eq!(window_of(&scheduler).present_mode, PresentMode::VsyncOff);
}

#[test]
fn configuration_error_skips_the_rest_and_the_next_tick_resumes() {
    let mut scheduler = Scheduler::new(
        store_with_windows(0),
        vec![],
        vec![Step::DumpState, Step::ToggleVsync, Step::DumpState],
    );
    scheduler.run_startup();
    let failed = scheduler.run_update(PRESSED);
    assert_eq!(failed.frame, 0);
    assert_eq!(failed.outcome, Outcome::Aborted { step: 1, error: ConfigError::NoWindow });
    assert_eq!(
        failed.log,
        vec![
            LogEntry::Rule,
            LogEntry::Rule,
            LogEntry::StepFailed { step: 1, error: ConfigError::NoWindow },
        ]
    );
    assert_eq!(scheduler.halted(), None);
    assert_eq!(scheduler.frame_count(), 1);
    let resumed = scheduler.run_update(IDLE);
    assert_eq!(resumed.frame, 1);
    assert_eq!(resumed.outcome, Outcome::Completed);
    assert_eq!(
        resumed.log,
        vec![LogEntry::Rule, LogEntry::Rule, LogEntry::Rule, LogEntry::Rule]
    );
}

#[test]
fn two_windows_are_a_configuration_error_on_the_reveal_frame() {
    let mut scheduler =
        Scheduler::new(store_with_windows(2), vec![], vec![Step::MakeVisible]);
    scheduler.run_startup();
    for frame in 0..3u64 {
        let report = scheduler.run_update(IDLE);
        assert_eq!(report.frame, frame);
        assert_eq!(report.outcome, Outcome::Completed);
    }
    let report = scheduler.run_update(IDLE);
    assert_eq!(
        report.outcome,
        Outcome::Aborted { step: 0, error: ConfigError::MultipleWindows }
    );
    assert_eq!(scheduler.run_update(IDLE).outcome, Outcome::Completed);
    assert_eq!(scheduler.frame_count(), 5);
}

#[test]
fn configuration_error_in_startup_still_leads_to_update() {
    let mut scheduler = Scheduler::new(
        store_with_windows(1),
        vec![Step::CheckStartup, Step::StartupSystem],
        vec![Step::MakeVisible],
    );
    let report = scheduler.run_startup();
    let error = ConfigError::MissingResource(ResourceKind::GameState);
    assert_eq!(report.outcome, Outcome::Aborted { step: 0, error });
    assert_eq!(scheduler.phase(), Phase::Update);
    assert_eq!(scheduler.store().resource_get(ResourceKind::GameState), None);
    assert!(scheduler.store().query_players().is_empty());
    assert_eq!(scheduler.run_update(IDLE).outcome, Outcome::Completed);
}

#[test]
fn fatal_error_halts_the_scheduler() {
    let mut scheduler = Scheduler::new(
        store_with_windows(1),
        vec![Step::StartupSystem, Step::StartupSystem, Step::CheckStartup],
        vec![Step::ToggleVsync],
    );
    let error = FatalError::ResourceCollision(ResourceKind::GameState);
    let report = scheduler.run_startup();
    assert_eq!(report.outcome, Outcome::Halted(error));
    assert!(report.log.is_empty());
    assert_eq!(scheduler.halted(), Some(error));
    assert_eq!(scheduler.store().query_players().len(), 2);
    let update = scheduler.run_update(PRESSED);
    assert_eq!(update.outcome, Outcome::Halted(error));
    assert!(update.log.is_empty());
    assert_eq!(scheduler.frame_count(), 0);
    assert_eq!(window_of(&scheduler).present_mode, PresentMode::VsyncOff);
    assert_eq!(scheduler.run_startup().outcome, Outcome::Halted(error));
}

#[test]
fn fatal_error_in_an_update_keeps_the_clock() {
    let mut scheduler = Scheduler::new(
        store_with_windows(1),
        vec![],
        vec![Step::ToggleVsync, Step::StartupSystem],
    );
    scheduler.run_startup();
    let first = scheduler.run_update(PRESSED);
    assert_eq!(first.outcome, Outcome::Completed);
    assert_eq!(scheduler.frame_count(), 1);
    assert_eq!(scheduler.store().query_players().len(), 2);
    let error = FatalError::ResourceCollision(ResourceKind::GameState);
    let second = scheduler.run_update(PRESSED);
    assert_eq!(second.frame, 1);
    assert_eq!(second.outcome, Outcome::Halted(error));
    assert_eq!(second.log, vec![LogEntry::PresentModeChanged(PresentMode::VsyncOff)]);
    assert_eq!(scheduler.frame_count(), 1);
    assert_eq!(scheduler.halted(), Some(error));
    assert_eq!(scheduler.run_update(PRESSED).outcome, Outcome::Halted(error));
    assert_eq!(window_of(&scheduler).present_mode, PresentMode::VsyncOff);
}

#[test]
fn later_step_sees_what_an_earlier_step_asked_for() {
    let mut store = Store::new();
    let mut commands = CommandBuffer::new();
    let steps = vec![Step::DumpState, Step::StartupSystem, Step::DumpState];
    let (log, failure) = run_phase(&mut store, &mut commands, &steps, IDLE);
    assert_eq!(failure, None);
    assert!(commands.is_empty());
    assert_eq!(
        log,
        vec![
            LogEntry::Rule,
            LogEntry::Rule,
            LogEntry::Rule,
            LogEntry::GameStateLine(GameState::new(0, 5).unwrap()),
            LogEntry::PlayerLine(Player(1), Position { x: -200, y: 0 }, Score(0)),
            LogEntry::PlayerLine(Player(2), Position { x: 200, y: 0 }, Score(0)),
            LogEntry::Rule,
        ]
    );
}

#[test]
fn run_phase_reports_the_place_of_the_failure() {
    let mut store = Store::new();
    let mut commands = CommandBuffer::new();
    let steps = vec![Step::DumpState, Step::DumpState, Step::MakeVisible, Step::StartupSystem];
    let (log, failure) = run_phase(&mut store, &mut commands, &steps, IDLE);
    let error = ConfigError::MissingResource(ResourceKind::FrameClock);
    assert_eq!(failure, Some((2, StepError::Config(error))));
    assert_eq!(log.last(), Some(&LogEntry::StepFailed { step: 2, error }));
    assert_eq!(store.resource_get(ResourceKind::GameState), None);
}

#[test]
fn flush_failures_of_a_step_are_logged() {
    let mut store = Store::starting_at(u64::MAX - 1);
    let mut commands = CommandBuffer::new();
    let steps = vec![Step::StartupSystem];
    let (log, failure) = run_phase(&mut store, &mut commands, &steps, IDLE);
    assert_eq!(failure, None);
    assert_eq!(
        log,
        vec![LogEntry::CommandSkipped(pong_core::commands::Skipped {
            index: 1,
            reason: pong_core::error::StoreError::OutOfIds,
        })]
    );
    assert_eq!(
        store.query_players(),
        vec![(Player(1), Position { x: -200, y: 0 }, Score(0))]
    );
}

#[test]
fn empty_schedule_only_counts_frames() {
    let mut scheduler = Scheduler::new(Store::new(), vec![], vec![]);
    assert_eq!(scheduler.run_startup().outcome, Outcome::Completed);
    for _ in 0..10 {
        let report = scheduler.run_update(PRESSED);
        assert_eq!(report.outcome, Outcome::Completed);
        assert!(report.log.is_empty());
    }
    assert_eq!(scheduler.frame_count(), 10);
    assert_eq!(scheduler.store().len(), 0);
}
