//! What holds of the game as a whole, whatever the host feeds it.
//!
//! The lemmas here follow a scheduler that runs the game's own update steps
//! through any number of iterations with any inputs, and relate the window
//! it ends with to the two state machines of the presentation.

use vstd::prelude::*;
use crate::clock::FrameClock;
use crate::commands::{apply_all, skipped, Command, Skipped};
use crate::components::{
    ComponentSet, EntityId, GameState, Player, PlayerRow, Position, PresentMode, Score, Window,
    MAX_ROUND,
};
use crate::error::ConfigError;
use crate::log::LogEntry;
use crate::presentation::{
    lemma_mode_counts_toggles, lemma_mode_parity, lemma_visible_from_start, mode_after_presses,
    toggle_count, visible_after, REVEAL_FRAME,
};
use crate::scheduler::{
    lemma_clock_step, lemma_no_way_back, no_input, reference_scheduler, reference_startup_steps,
    reference_update_steps, run_steps, step_effect, Phase, SchedulerModel,
};
use crate::steps::{opening_commands, paddle, state_dump, window_patch, Input, Step};
use crate::store::{player_rows, Entity, StoreModel};

verus! {

/// Replacing an entity by one that yields the same player row, or none as
/// before, leaves the player rows as they were.
pub proof fn lemma_player_rows_update(entities: Seq<Entity>, i: int, changed: Entity)
    requires
        0 <= i < entities.len(),
        changed.components.player_row() == entities[i].components.player_row(),
    ensures
        player_rows(entities.update(i, changed)) == player_rows(entities),
    decreases entities.len(),
{
    let after = entities.update(i, changed);
    if i == entities.len() - 1 {
        assert(after.drop_last() =~= entities.drop_last());
    } else {
        assert(after.drop_last() =~= entities.drop_last().update(i, changed));
        lemma_player_rows_update(entities.drop_last(), i, changed);
    }
}

/// A patch that replaces the one window of a store leaves the store with one
/// window, the new one, on the same entity, and touches neither the players
/// nor the resources.
pub proof fn lemma_window_patch(store: StoreModel, window: Window)
    requires
        store.wf(),
        store.single_window() is Ok,
    ensures
        ({
            let id = store.single_window()->Ok_0.0;
            let after = store.mutate(id, window_patch(window));
            &&& after.wf()
            &&& after.single_window() == Ok::<(EntityId, Window), ConfigError>(
                (id, window),
            )
            &&& player_rows(after.entities) == player_rows(store.entities)
            &&& after.game_state == store.game_state
            &&& after.frame_clock == store.frame_clock
            &&& after.next_id == store.next_id
        }),
{
    let at = store.window_index();
    let id = store.single_window()->Ok_0.0;
    let patch = window_patch(window);
    let after = store.mutate(id, patch);
    store.lemma_index_unique(id, at);
    store.lemma_changes_keep_wf(id, ComponentSet::spec_empty(), patch);
    assert forall|k: int| after.carries_window(k) == store.carries_window(k) by {}
    assert(after.window_index() == at) by {
        assert(after.carries_window(at) && after.carries_window(after.window_index()));
    }
    lemma_player_rows_update(store.entities, at, after.entities[at]);
}

/// Which window a store has, if it has exactly one, depends on its entities
/// alone.
pub proof fn lemma_window_is_of_the_entities(one: StoreModel, other: StoreModel)
    requires
        one.entities == other.entities,
    ensures
        one.single_window() == other.single_window(),
{
    assert forall|k: int| one.carries_window(k) == other.carries_window(k) by {}
}

/// The window of a store that has exactly one.
pub open spec fn the_window(store: StoreModel) -> Window {
    store.single_window()->Ok_0.1
}

/// The entity that carries the window of a store that has exactly one.
pub open spec fn the_window_id(store: StoreModel) -> EntityId {
    store.single_window()->Ok_0.0
}

/// The game is running: the scheduler is well formed, in the update phase
/// and not halted, its update steps are the game's own, and its store holds
/// exactly one window.
pub open spec fn game_running(scheduler: SchedulerModel) -> bool {
    &&& scheduler.wf()
    &&& scheduler.due(Phase::Update)
    &&& scheduler.update_steps == reference_update_steps()
    &&& scheduler.store.single_window() is Ok
}

/// What one iteration logs: the new mode if the toggle was pressed, else
/// nothing.
pub open spec fn toggle_log(window: Window, input: Input) -> Seq<LogEntry> {
    if input.toggle_pressed {
        seq![LogEntry::PresentModeChanged(window.present_mode.flipped())]
    } else {
        Seq::empty()
    }
}

/// One iteration of the running game. No step fails. The frame clock
/// advances by one. The window is revealed if the iteration observed the
/// reveal frame and keeps its visibility otherwise; its mode flips if the
/// toggle was pressed and stays otherwise, and a flip is logged. The players
/// and the game state are as they were, and the game is still running.
pub proof fn lemma_game_iteration(scheduler: SchedulerModel, input: Input)
    requires
        game_running(scheduler),
        scheduler.frame() < u64::MAX,
    ensures
        ({
            let after = scheduler.after_update(input);
            let window = the_window(scheduler.store);
            &&& scheduler.update_progress(input).failure is None
            &&& scheduler.update_progress(input).log == toggle_log(window, input)
            &&& game_running(after)
            &&& after.startup_steps == scheduler.startup_steps
            &&& after.frame() == scheduler.frame() + 1
            &&& the_window_id(after.store) == the_window_id(scheduler.store)
            &&& the_window(after.store) == Window {
                visible: window.visible || scheduler.frame() == REVEAL_FRAME,
                present_mode: if input.toggle_pressed {
                    window.present_mode.flipped()
                } else {
                    window.present_mode
                },
            }
            &&& after.store.game_state == scheduler.store.game_state
            &&& player_rows(after.store.entities) == player_rows(scheduler.store.entities)
        }),
{
    let steps = reference_update_steps();
    let start = scheduler.store;
    let window = the_window(start);
    let frame = scheduler.frame();
    let none = Seq::<Command>::empty();
    reveal_with_fuel(run_steps, 3);
    assert(steps.drop_last() =~= seq![Step::MakeVisible]);

    // The visibility gate.
    lemma_window_patch(start, window.shown_at(frame));
    let shown = step_effect(Step::MakeVisible, start, input);
    assert(shown.commands == none);
    let gated = shown.store;
    assert(gated.single_window() == Ok::<(EntityId, Window), ConfigError>(
        (the_window_id(start), window.shown_at(frame)),
    ));

    // The toggle.
    let seen = the_window(gated);
    lemma_window_patch(gated, seen.with_flipped_mode());
    let toggled = step_effect(Step::ToggleVsync, gated, input);
    assert(apply_all(toggled.store, none) == toggled.store);
    assert(skipped(toggled.store, none) == Seq::<Skipped>::empty());

    // The tick, which touches the clock alone.
    let progress = scheduler.update_progress(input);
    assert(progress.store == toggled.store);
    assert(progress.log =~= toggle_log(window, input));
    FrameClock::showing((frame + 1) as u64).lemma_showing();
    lemma_window_is_of_the_entities(scheduler.after_update(input).store, toggled.store);
}

/// The scheduler after one update for each of `inputs`, first to last.
pub open spec fn after_updates(scheduler: SchedulerModel, inputs: Seq<Input>) -> SchedulerModel
    decreases inputs.len(),
{
    if inputs.len() == 0 {
        scheduler
    } else {
        after_updates(scheduler, inputs.drop_last()).after_update(inputs.last())
    }
}

/// For each input, whether the toggle was pressed.
pub open spec fn presses(inputs: Seq<Input>) -> Seq<bool> {
    Seq::new(inputs.len(), |i: int| inputs[i].toggle_pressed)
}

/// Any run of the game. After one iteration for each input the game is still
/// running, the frame clock has advanced by the number of iterations, the
/// window is visible as the visibility machine says and in the mode that the
/// toggle machine says, and the players and the game state are as they were.
pub proof fn lemma_game_run(scheduler: SchedulerModel, inputs: Seq<Input>)
    requires
        game_running(scheduler),
        scheduler.frame() + inputs.len() <= u64::MAX,
    ensures
        ({
            let after = after_updates(scheduler, inputs);
            let window = the_window(scheduler.store);
            &&& game_running(after)
            &&& after.startup_steps == scheduler.startup_steps
            &&& after.frame() == scheduler.frame() + inputs.len()
            &&& the_window_id(after.store) == the_window_id(scheduler.store)
            &&& the_window(after.store) == Window {
                visible: visible_after(window.visible, scheduler.frame(), inputs.len()),
                present_mode: mode_after_presses(window.present_mode, presses(inputs)),
            }
            &&& after.store.game_state == scheduler.store.game_state
            &&& player_rows(after.store.entities) == player_rows(scheduler.store.entities)
        }),
    decreases inputs.len(),
{
    if inputs.len() > 0 {
        lemma_game_run(scheduler, inputs.drop_last());
        lemma_game_iteration(after_updates(scheduler, inputs.drop_last()), inputs.last());
        assert(presses(inputs).drop_last() =~= presses(inputs.drop_last()));
    }
}

/// A halt lasts: if the scheduler is not halted after some updates, it was
/// not halted after fewer of them, and it is in the update phase throughout.
pub proof fn lemma_halt_lasts(scheduler: SchedulerModel, inputs: Seq<Input>, i: int, j: int)
    requires
        scheduler.phase == Phase::Update,
        0 <= i <= j <= inputs.len(),
        after_updates(scheduler, inputs.take(j)).halted is None,
    ensures
        after_updates(scheduler, inputs.take(i)).halted is None,
        after_updates(scheduler, inputs.take(i)).phase == Phase::Update,
    decreases j - i,
{
    if i < j {
        assert(inputs.take(j).drop_last() =~= inputs.take(j - 1));
        lemma_halt_lasts(scheduler, inputs, i, j - 1);
    } else {
        lemma_phase_lasts(scheduler, inputs.take(i));
    }
}

/// A scheduler in the update phase stays in it through any updates.
pub proof fn lemma_phase_lasts(scheduler: SchedulerModel, inputs: Seq<Input>)
    requires
        scheduler.phase == Phase::Update,
    ensures
        after_updates(scheduler, inputs).phase == Phase::Update,
    decreases inputs.len(),
{
    if inputs.len() > 0 {
        lemma_phase_lasts(scheduler, inputs.drop_last());
    }
}

/// The frame clock counts the update iterations, whatever the steps are: as
/// long as the scheduler is not halted, the clock after a number of updates
/// shows its starting count plus that number.
pub proof fn lemma_clock_counts_iterations(scheduler: SchedulerModel, inputs: Seq<Input>)
    requires
        scheduler.wf(),
        scheduler.due(Phase::Update),
        scheduler.frame() + inputs.len() <= u64::MAX,
    ensures
        after_updates(scheduler, inputs).wf(),
        after_updates(scheduler, inputs).frame() <= scheduler.frame() + inputs.len(),
        after_updates(scheduler, inputs).halted is None ==> after_updates(
            scheduler,
            inputs,
        ).frame() == scheduler.frame() + inputs.len(),
    decreases inputs.len(),
{
    if inputs.len() > 0 {
        lemma_clock_counts_iterations(scheduler, inputs.drop_last());
        lemma_phase_lasts(scheduler, inputs.drop_last());
        let before = after_updates(scheduler, inputs.drop_last());
        lemma_clock_step(before, inputs.last());
        lemma_no_way_back(before, inputs.last());
    }
}

/// The frame clock over any run, whatever the steps are: every iteration
/// that does not halt the scheduler advances the clock by exactly one, so the
/// iteration at place `i` observes the starting count plus `i`, and no two
/// iterations observe the same count.
pub proof fn lemma_frames_advance_by_one(
    scheduler: SchedulerModel,
    inputs: Seq<Input>,
    i: int,
    j: int,
)
    requires
        scheduler.wf(),
        scheduler.due(Phase::Update),
        scheduler.frame() + inputs.len() <= u64::MAX,
        0 <= i < j <= inputs.len(),
        after_updates(scheduler, inputs.take(j)).halted is None,
    ensures
        after_updates(scheduler, inputs.take(i)).frame() == scheduler.frame() + i,
        after_updates(scheduler, inputs.take(i + 1)).frame() == after_updates(
            scheduler,
            inputs.take(i),
        ).frame() + 1,
        after_updates(scheduler, inputs.take(i)).frame() < after_updates(
            scheduler,
            inputs.take(j),
        ).frame(),
{
    lemma_halt_lasts(scheduler, inputs, i, j);
    lemma_halt_lasts(scheduler, inputs, i + 1, j);
    lemma_clock_counts_iterations(scheduler, inputs.take(i));
    lemma_clock_counts_iterations(scheduler, inputs.take(i + 1));
    lemma_clock_counts_iterations(scheduler, inputs.take(j));
}

/// The window over a run of the game that starts at frame zero with the
/// window hidden and vsync off. It is visible after `n` iterations exactly if
/// `n` exceeds the reveal frame: it is revealed by the iteration that
/// observes the reveal frame, by no other, and never hidden again. Its mode
/// is off after an even number of toggles and on after an odd number.
pub proof fn lemma_window_from_start(scheduler: SchedulerModel, inputs: Seq<Input>)
    requires
        game_running(scheduler),
        scheduler.frame() == 0,
        the_window(scheduler.store) == Window::initial(),
        inputs.len() <= u64::MAX,
    ensures
        the_window(after_updates(scheduler, inputs).store).visible == (inputs.len()
            > REVEAL_FRAME),
        the_window(after_updates(scheduler, inputs).store).present_mode == if toggle_count(
            presses(inputs),
        ) % 2 == 0 {
            PresentMode::VsyncOff
        } else {
            PresentMode::VsyncOn
        },
{
    lemma_game_run(scheduler, inputs);
    lemma_visible_from_start(inputs.len());
    lemma_mode_counts_toggles(PresentMode::VsyncOff, presses(inputs));
    lemma_mode_parity(toggle_count(presses(inputs)));
}

/// The two players as the game opens: player 1 to the left of the centre,
/// player 2 as far to the right, both without points.
pub open spec fn opening_rows() -> Seq<PlayerRow> {
    seq![
        (Player(1), Position { x: -200i32, y: 0 }, Score(0)),
        (Player(2), Position { x: 200, y: 0 }, Score(0)),
    ]
}

/// The start-up of the game. No step fails; the log is the dump of what was
/// opened. Afterwards the game is running at frame zero, the window is still
/// hidden with vsync off, the game state is at round zero of the full number
/// of rounds, and a player query yields the two players, in order.
pub proof fn lemma_game_startup()
    ensures
        ({
            let before = reference_scheduler();
            let after = before.after_startup();
            &&& before.wf()
            &&& before.startup_progress().failure is None
            &&& before.startup_progress().log == state_dump(
                Some(GameState::spec_new(0, MAX_ROUND)),
                opening_rows(),
            )
            &&& game_running(after)
            &&& after.frame() == 0
            &&& the_window(after.store) == Window::initial()
            &&& after.store.game_state == Some(GameState::spec_new(0, MAX_ROUND))
            &&& player_rows(after.store.entities) == opening_rows()
        }),
{
    let before = reference_scheduler();
    let steps = reference_startup_steps();
    let start = before.store;
    FrameClock::showing(0).lemma_showing();
    assert(start.entities.len() == 1);
    reveal_with_fuel(run_steps, 3);
    assert(steps.drop_last() =~= seq![Step::StartupSystem]);

    // Opening the game.
    let opened = step_effect(Step::StartupSystem, start, no_input());
    let commands = opening_commands();
    assert(opened.commands == commands);
    reveal_with_fuel(apply_all, 3);
    reveal_with_fuel(skipped, 3);
    assert(commands.drop_last() =~= seq![commands[0]]);
    assert(commands.drop_last().drop_last() =~= Seq::<Command>::empty());
    let spawned = apply_all(opened.store, commands);
    assert(spawned.entities =~= seq![
        start.entities[0],
        Entity { id: EntityId(1), components: paddle(1, -200i32) },
        Entity { id: EntityId(2), components: paddle(2, 200) },
    ]);
    assert(spawned.wf());

    // The players.
    reveal_with_fuel(player_rows, 4);
    assert(spawned.entities.drop_last().drop_last().drop_last() =~= Seq::<Entity>::empty());
    assert(player_rows(spawned.entities) =~= opening_rows());

    // The window.
    assert(spawned.carries_window(0));
    assert(spawned.window_index() == 0) by {
        assert(spawned.carries_window(spawned.window_index()));
    }

    // The dump.
    let dumped = step_effect(Step::CheckStartup, spawned, no_input());
    assert(apply_all(dumped.store, dumped.commands) == spawned);
    let progress = before.startup_progress();
    assert(progress.log =~= state_dump(
        Some(GameState::spec_new(0, MAX_ROUND)),
        opening_rows(),
    ));
}

/// The game from the start of the process, whatever the host feeds it. After
/// start-up and one update for each input, the frame clock shows the number
/// of updates; the window is visible exactly if more updates have run than
/// the reveal frame counts; its mode is off after an even number of toggles
/// and on after an odd number; the game state is at round zero of the full
/// number of rounds; and a player query yields the two players.
pub proof fn lemma_game(inputs: Seq<Input>)
    requires
        inputs.len() <= u64::MAX,
    ensures
        ({
            let after = after_updates(reference_scheduler().after_startup(), inputs);
            &&& game_running(after)
            &&& after.frame() == inputs.len()
            &&& the_window(after.store).visible == (inputs.len() > REVEAL_FRAME)
            &&& the_window(after.store).present_mode == if toggle_count(presses(inputs)) % 2
                == 0 {
                PresentMode::VsyncOff
            } else {
                PresentMode::VsyncOn
            }
            &&& after.store.game_state == Some(GameState::spec_new(0, MAX_ROUND))
            &&& player_rows(after.store.entities) == opening_rows()
        }),
{
    lemma_game_startup();
    let started = reference_scheduler().after_startup();
    lemma_game_run(started, inputs);
    lemma_window_from_start(started, inputs);
}

} // verus!
