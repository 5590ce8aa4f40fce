use pong_core::clock::FrameClock;
use pong_core::commands::CommandBuffer;
use pong_core::components::{
    ComponentSet, EntityId, GameState, Player, Position, PresentMode, Score, Window,
};
use pong_core::error::{ConfigError, FatalError, ResourceKind, StepError};
use pong_core::log::LogEntry;
use pong_core::presentation::REVEAL_FRAME;
use pong_core::scheduler::run_step;
use pong_core::steps::{
    check_startup, dump_state, make_visible, startup_system, toggle_vsync, Input, Step,
};
use pong_core::store::{Resource, Store};

const PRESSED: Input = Input { toggle_pressed: true };
const IDLE: Input = Input { toggle_pressed: false };

fn store_at_frame(frame: u64, windows: usize) -> Store {
    let mut store = Store::new();
    for _ in 0..windows {
        store.spawn(ComponentSet::of_window(Window::new()));
    }
    let mut clock = FrameClock::new();
    for _ in 0..frame {
        clock.tick();
    }
    store.resource_insert(Resource::FrameClock(clock)).unwrap();
    store
}

#[test]
fn reveal_frame_is_three() {
    assert_eq!(REVEAL_FRAME, 3);
}

#[test]
fn startup_system_inserts_the_game_state_and_asks_for_two_players() {
    let mut store = Store::new();
    let mut commands = CommandBuffer::new();
    assert_eq!(startup_system(&mut store, &mut commands), Ok(()));
    assert_eq!(
        store.resource_get(ResourceKind::GameState),
        Some(Resource::GameState(GameState::new(0, 5).unwrap()))
    );
    assert_eq!(commands.len(), 2);
    assert_eq!(store.len(), 0);
    assert!(store.query_players().is_empty());
    assert!(commands.flush(&mut store).is_empty());
    assert_eq!(
        store.query_players(),
        vec![
            (Player(1), Position { x: -200, y: 0 }, Score(0)),
            (Player(2), Position { x: 200, y: 0 }, Score(0)),
        ]
    );
}

#[test]
fn startup_system_on_a_store_with_a_game_state_is_a_collision() {
    let mut store = Store::new();
    let state = GameState::new(3, 5).unwrap();
    store.resource_insert(Resource::GameState(state)).unwrap();
    let mut commands = CommandBuffer::new();
    assert_eq!(
        startup_system(&mut store, &mut commands),
        Err(FatalError::ResourceCollision(ResourceKind::GameState))
    );
    assert!(commands.is_empty());
    assert_eq!(store.resource_get(ResourceKind::GameState), Some(Resource::GameState(state)));
}

#[test]
fn make_visible_shows_the_window_on_frame_three() {
    let mut store = store_at_frame(3, 1);
    assert_eq!(make_visible(&mut store), Ok(()));
    assert_eq!(
        store.single_window(),
        Ok((EntityId(0), Window { visible: true, present_mode: PresentMode::VsyncOff }))
    );
}

#[test]
fn make_visible_does_nothing_on_other_frames() {
    for frame in [0u64, 1, 2, 4, 5, 30] {
        let mut store = store_at_frame(frame, 1);
        assert_eq!(make_visible(&mut store), Ok(()));
        assert_eq!(store.single_window(), Ok((EntityId(0), Window::new())), "frame {}", frame);
    }
}

#[test]
fn make_visible_keeps_the_presentation_mode() {
    let mut store = store_at_frame(3, 1);
    toggle_vsync(&mut store, PRESSED).unwrap();
    make_visible(&mut store).unwrap();
    assert_eq!(
        store.single_window(),
        Ok((EntityId(0), Window { visible: true, present_mode: PresentMode::VsyncOn }))
    );
}

#[test]
fn make_visible_without_a_window_fails_on_frame_three_only() {
    let mut store = store_at_frame(3, 0);
    assert_eq!(make_visible(&mut store), Err(ConfigError::NoWindow));
    let mut store = store_at_frame(2, 0);
    assert_eq!(make_visible(&mut store), Ok(()));
    let mut store = store_at_frame(4, 0);
    assert_eq!(make_visible(&mut store), Ok(()));
}

#[test]
fn make_visible_with_two_windows_fails_and_shows_neither() {
    let mut store = store_at_frame(3, 2);
    assert_eq!(make_visible(&mut store), Err(ConfigError::MultipleWindows));
    assert_eq!(store.get(EntityId(0)), Some(ComponentSet::of_window(Window::new())));
    assert_eq!(store.get(EntityId(1)), Some(ComponentSet::of_window(Window::new())));
}

#[test]
fn make_visible_needs_the_frame_clock() {
    let mut store = Store::new();
    store.spawn(ComponentSet::of_window(Window::new()));
    assert_eq!(
        make_visible(&mut store),
        Err(ConfigError::MissingResource(ResourceKind::FrameClock))
    );
    assert_eq!(store.single_window(), Ok((EntityId(0), Window::new())));
}

#[test]
fn toggle_vsync_flips_the_mode_when_pressed() {
    let mut store = store_at_frame(0, 1);
    assert_eq!(toggle_vsync(&mut store, PRESSED), Ok(Some(PresentMode::VsyncOn)));
    assert_eq!(
        store.single_window(),
        Ok((EntityId(0), Window { visible: false, present_mode: PresentMode::VsyncOn }))
    );
    assert_eq!(toggle_vsync(&mut store, PRESSED), Ok(Some(PresentMode::VsyncOff)));
    assert_eq!(store.single_window(), Ok((EntityId(0), Window::new())));
}

#[test]
fn toggle_vsync_without_a_press_changes_nothing() {
    let mut store = store_at_frame(0, 1);
    assert_eq!(toggle_vsync(&mut store, IDLE), Ok(None));
    assert_eq!(store.single_window(), Ok((EntityId(0), Window::new())));
}

#[test]
fn toggle_vsync_without_a_press_does_not_look_for_the_window() {
    let mut none = store_at_frame(0, 0);
    assert_eq!(toggle_vsync(&mut none, IDLE), Ok(None));
    let mut two = store_at_frame(0, 2);
    assert_eq!(toggle_vsync(&mut two, IDLE), Ok(None));
}

#[test]
fn toggle_vsync_needs_exactly_one_window_when_pressed() {
    let mut none = store_at_frame(0, 0);
    assert_eq!(toggle_vsync(&mut none, PRESSED), Err(ConfigError::NoWindow));
    let mut two = store_at_frame(0, 2);
    assert_eq!(toggle_vsync(&mut two, PRESSED), Err(ConfigError::MultipleWindows));
    assert_eq!(two.get(EntityId(0)), Some(ComponentSet::of_window(Window::new())));
    assert_eq!(two.get(EntityId(1)), Some(ComponentSet::of_window(Window::new())));
}

#[test]
fn present_mode_after_n_toggles_follows_parity() {
    let mut store = store_at_frame(0, 1);
    for n in 1..=40u32 {
        toggle_vsync(&mut store, PRESSED).unwrap();
        let expected = if n % 2 == 0 { PresentMode::VsyncOff } else { PresentMode::VsyncOn };
        assert_eq!(store.single_window().unwrap().1.present_mode, expected, "after {}", n);
    }
}

#[test]
fn check_startup_dumps_the_state_and_the_players() {
    let mut store = Store::new();
    let mut commands = CommandBuffer::new();
    startup_system(&mut store, &mut commands).unwrap();
    commands.flush(&mut store);
    assert_eq!(
        check_startup(&store),
        Ok(vec![
            LogEntry::Rule,
            LogEntry::GameStateLine(GameState::new(0, 5).unwrap()),
            LogEntry::PlayerLine(Player(1), Position { x: -200, y: 0 }, Score(0)),
            LogEntry::PlayerLine(Player(2), Position { x: 200, y: 0 }, Score(0)),
            LogEntry::Rule,
        ])
    );
}

#[test]
fn check_startup_without_players_dumps_the_state_alone() {
    let mut store = Store::new();
    store.resource_insert(Resource::GameState(GameState::new(2, 5).unwrap())).unwrap();
    assert_eq!(
        check_startup(&store),
        Ok(vec![
            LogEntry::Rule,
            LogEntry::GameStateLine(GameState::new(2, 5).unwrap()),
            LogEntry::Rule,
        ])
    );
}

#[test]
fn check_startup_requires_the_game_state() {
    let mut store = Store::new();
    store.spawn(ComponentSet::of_player(Player(1), Position { x: 0, y: 0 }, Score(0)));
    assert_eq!(
        check_startup(&store),
        Err(ConfigError::MissingResource(ResourceKind::GameState))
    );
}

#[test]
fn dump_state_tolerates_a_missing_game_state() {
    let mut store = Store::new();
    store.spawn(ComponentSet::of_player(Player(1), Position { x: -200, y: 0 }, Score(7)));
    assert_eq!(
        dump_state(&store),
        vec![
            LogEntry::Rule,
            LogEntry::PlayerLine(Player(1), Position { x: -200, y: 0 }, Score(7)),
            LogEntry::Rule,
        ]
    );
    assert_eq!(dump_state(&Store::new()), vec![LogEntry::Rule, LogEntry::Rule]);
}

#[test]
fn dump_state_includes_the_game_state_when_present() {
    let mut store = Store::new();
    store.resource_insert(Resource::GameState(GameState::new(1, 5).unwrap())).unwrap();
    assert_eq!(
        dump_state(&store),
        vec![
            LogEntry::Rule,
            LogEntry::GameStateLine(GameState::new(1, 5).unwrap()),
            LogEntry::Rule,
        ]
    );
}

#[test]
fn run_step_reports_what_each_step_logged() {
    let mut store = store_at_frame(3, 1);
    let mut commands = CommandBuffer::new();
    assert_eq!(run_step(Step::StartupSystem, &mut store, &mut commands, IDLE), Ok(vec![]));
    assert_eq!(commands.len(), 2);
    assert_eq!(run_step(Step::MakeVisible, &mut store, &mut commands, IDLE), Ok(vec![]));
    assert!(store.single_window().unwrap().1.visible);
    assert_eq!(
        run_step(Step::ToggleVsync, &mut store, &mut commands, PRESSED),
        Ok(vec![LogEntry::PresentModeChanged(PresentMode::VsyncOn)])
    );
    assert_eq!(run_step(Step::ToggleVsync, &mut store, &mut commands, IDLE), Ok(vec![]));
    assert_eq!(
        run_step(Step::CheckStartup, &mut store, &mut commands, IDLE),
        Ok(vec![
            LogEntry::Rule,
            LogEntry::GameStateLine(GameState::new(0, 5).unwrap()),
            LogEntry::Rule,
        ])
    );
    assert_eq!(
        run_step(Step::DumpState, &mut store, &mut commands, IDLE),
        Ok(vec![
            LogEntry::Rule,
            LogEntry::GameStateLine(GameState::new(0, 5).unwrap()),
            LogEntry::Rule,
        ])
    );
    assert_eq!(commands.len(), 2);
}

#[test]
fn run_step_tells_configuration_errors_from_fatal_ones() {
    let mut store = Store::new();
    let mut commands = CommandBuffer::new();
    assert_eq!(
        run_step(Step::CheckStartup, &mut store, &mut commands, IDLE),
        Err(StepError::Config(ConfigError::MissingResource(ResourceKind::GameState)))
    );
    assert_eq!(
        run_step(Step::MakeVisible, &mut store, &mut commands, IDLE),
        Err(StepError::Config(ConfigError::MissingResource(ResourceKind::FrameClock)))
    );
    assert_eq!(
        run_step(Step::ToggleVsync, &mut store, &mut commands, PRESSED),
        Err(StepError::Config(ConfigError::NoWindow))
    );
    run_step(Step::StartupSystem, &mut store, &mut commands, IDLE).unwrap();
    assert_eq!(
        run_step(Step::StartupSystem, &mut store, &mut commands, IDLE),
        Err(StepError::Fatal(FatalError::ResourceCollision(ResourceKind::GameState)))
    );
    assert_eq!(commands.len(), 2);
}
