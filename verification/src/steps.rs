//! The steps that a schedule is made of.
//!
//! Each step is a function of the store it is handed, and of nothing else
//! that lasts: the store, the command buffer and the input snapshot are
//! passed in, never looked up. A step changes resources and components in
//! place and leaves the spawning of entities to the command buffer.

use vstd::prelude::*;
use crate::commands::{Command, CommandBuffer};
use crate::components::{
    ComponentSet, GameState, Patch, Player, PlayerRow, Position, PresentMode, Score, MAX_ROUND,
    PADDLE_OFFSET,
};
use crate::error::{ConfigError, FatalError, ResourceKind};
use crate::log::LogEntry;
use crate::presentation::REVEAL_FRAME;
use crate::store::{player_rows, Resource, Store, StoreModel};

verus! {

/// What the input source reports for one tick.
#[derive(Clone, Copy, Debug, PartialEq, Eq)]
pub struct Input {
    /// Whether the toggle key went down on this tick.
    pub toggle_pressed: bool,
}

/// The kinds of step that a schedule can name.
#[derive(Clone, Copy, Debug, PartialEq, Eq, Structural)]
pub enum Step {
    /// Insert the game state and ask for the two players.
    StartupSystem,
    /// Dump the game state and the players; the game state must exist.
    CheckStartup,
    /// Dump the players, and the game state if there is one.
    DumpState,
    /// Reveal the window on the reveal frame.
    MakeVisible,
    /// Flip the presentation mode if the toggle was pressed.
    ToggleVsync,
}

/// The patch that replaces the window component by `window`.
pub open spec fn window_patch(window: crate::components::Window) -> Patch {
    Patch { position: None, score: None, window: Some(window) }
}

/// The components of the paddle of player `number`, placed at `x` on the
/// horizontal axis through the centre, with no points yet.
pub open spec fn paddle(number: u8, x: i32) -> ComponentSet {
    ComponentSet {
        player: Some(Player(number)),
        position: Some(Position { x, y: 0 }),
        score: Some(Score(0)),
        window: None,
    }
}

/// The commands with which a game opens: player 1 to the left of the centre,
/// player 2 as far to the right.
pub open spec fn opening_commands() -> Seq<Command> {
    seq![
        Command::Spawn(paddle(1, (0 - PADDLE_OFFSET) as i32)),
        Command::Spawn(paddle(2, PADDLE_OFFSET)),
    ]
}

/// What `startup_system` makes of a store: the store with the opening game
/// state and the commands it enqueues, or a collision if the store already
/// has a game state.
pub open spec fn startup_system_outcome(store: StoreModel) -> Result<
    (StoreModel, Seq<Command>),
    FatalError,
> {
    if store.game_state is Some {
        Err(FatalError::ResourceCollision(ResourceKind::GameState))
    } else {
        Ok(
            (
                store.with_resource(Resource::GameState(GameState::spec_new(0, MAX_ROUND))),
                opening_commands(),
            ),
        )
    }
}

/// What `make_visible` makes of a store. Without a frame clock it fails. On
/// the reveal frame it needs the one window and shows it. On every other
/// frame it does nothing, whatever windows there are.
pub open spec fn make_visible_outcome(store: StoreModel) -> Result<StoreModel, ConfigError> {
    match store.frame_clock {
        None => Err(ConfigError::MissingResource(ResourceKind::FrameClock)),
        Some(clock) => if clock@ == REVEAL_FRAME {
            match store.single_window() {
                Ok((id, window)) => Ok(store.mutate(id, window_patch(window.shown_at(clock@)))),
                Err(error) => Err(error),
            }
        } else {
            Ok(store)
        },
    }
}

/// What `toggle_vsync` makes of a store: without a press nothing, with a
/// press the store with the mode of its one window flipped, and the new mode.
pub open spec fn toggle_vsync_outcome(store: StoreModel, input: Input) -> Result<
    (StoreModel, Option<PresentMode>),
    ConfigError,
> {
    if input.toggle_pressed {
        match store.single_window() {
            Ok((id, window)) => Ok(
                (
                    store.mutate(id, window_patch(window.with_flipped_mode())),
                    Some(window.present_mode.flipped()),
                ),
            ),
            Err(error) => Err(error),
        }
    } else {
        Ok((store, None))
    }
}

/// One line for each row, in their order.
pub open spec fn player_lines(rows: Seq<PlayerRow>) -> Seq<LogEntry> {
    Seq::new(rows.len(), |i: int| LogEntry::PlayerLine(rows[i].0, rows[i].1, rows[i].2))
}

/// A state dump: a rule, the game state if there is one, the players, a rule.
pub open spec fn state_dump(state: Option<GameState>, rows: Seq<PlayerRow>) -> Seq<LogEntry> {
    seq![LogEntry::Rule] + match state {
        Some(state) => seq![LogEntry::GameStateLine(state)],
        None => Seq::empty(),
    } + player_lines(rows) + seq![LogEntry::Rule]
}

/// What `check_startup` reports of a store: its dump, or that the game state
/// is missing.
pub open spec fn check_startup_outcome(store: StoreModel) -> Result<Seq<LogEntry>, ConfigError> {
    if store.game_state is Some {
        Ok(state_dump(store.game_state, player_rows(store.entities)))
    } else {
        Err(ConfigError::MissingResource(ResourceKind::GameState))
    }
}

/// Opens a game: inserts the game state, at round zero of the full number of
/// rounds, and enqueues the spawning of the two players. If the store already
/// has a game state this is a collision: nothing is inserted and nothing
/// enqueued.
pub fn startup_system(store: &mut Store, commands: &mut CommandBuffer) -> (done: Result<
    (),
    FatalError,
>)
    requires
        old(store)@.wf(),
    ensures
        final(store)@.wf(),
        match startup_system_outcome(old(store)@) {
            Ok((after, enqueued)) => done is Ok && final(store)@ == after && final(commands)@
                == old(commands)@ + enqueued,
            Err(error) => done == Err::<(), FatalError>(error) && final(store)@ == old(store)@
                && final(commands)@ == old(commands)@,
        },
{
    match store.resource_insert(Resource::GameState(GameState::opening(MAX_ROUND))) {
        Ok(()) => {},
        Err(error) => {
            return Err(error);
        },
    }
    let left = Position { x: -PADDLE_OFFSET, y: 0 };
    let right = Position { x: PADDLE_OFFSET, y: 0 };
    commands.enqueue_spawn(ComponentSet::of_player(Player(1), left, Score(0)));
    commands.enqueue_spawn(ComponentSet::of_player(Player(2), right, Score(0)));
    proof {
        assert(commands@ =~= old(commands)@ + opening_commands());
    }
    Ok(())
}

/// Reveals the window on the reveal frame. The frame count is read from the
/// frame clock of the store, which must exist. On the reveal frame the store
/// must hold exactly one window; on any other frame the windows are not
/// looked at and the store stays as it is.
pub fn make_visible(store: &mut Store) -> (done: Result<(), ConfigError>)
    requires
        old(store)@.wf(),
    ensures
        final(store)@.wf(),
        match make_visible_outcome(old(store)@) {
            Ok(after) => done is Ok && final(store)@ == after,
            Err(error) => done == Err::<(), ConfigError>(error) && final(store)@ == old(store)@,
        },
{
    let clock = match store.resource_get(ResourceKind::FrameClock) {
        Some(Resource::FrameClock(clock)) => clock,
        _ => {
            return Err(ConfigError::MissingResource(ResourceKind::FrameClock));
        },
    };
    let frame = clock.frame_count();
    if frame == REVEAL_FRAME {
        match store.single_window() {
            Ok((id, window)) => {
                let _ = store.mutate(id, Patch::with_window(window.reveal_at(frame)));
                Ok(())
            },
            Err(error) => Err(error),
        }
    } else {
        Ok(())
    }
}

/// Flips the presentation mode of the one window if the toggle was pressed,
/// and returns the new mode for the log. Without a press the windows are not
/// looked at, the store stays as it is and there is nothing to log.
pub fn toggle_vsync(store: &mut Store, input: Input) -> (done: Result<
    Option<PresentMode>,
    ConfigError,
>)
    requires
        old(store)@.wf(),
    ensures
        final(store)@.wf(),
        match toggle_vsync_outcome(old(store)@, input) {
            Ok((after, mode)) => {
                &&& done == Ok::<Option<PresentMode>, ConfigError>(mode)
                &&& final(store)@ == after
            },
            Err(error) => {
                &&& done == Err::<Option<PresentMode>, ConfigError>(error)
                &&& final(store)@ == old(store)@
            },
        },
{
    if input.toggle_pressed {
        match store.single_window() {
            Ok((id, window)) => {
                let toggled = window.toggle_vsync();
                let _ = store.mutate(id, Patch::with_window(toggled));
                Ok(Some(toggled.present_mode))
            },
            Err(error) => Err(error),
        }
    } else {
        Ok(None)
    }
}

/// Writes a state dump.
fn dump(state: Option<GameState>, rows: &Vec<PlayerRow>) -> (lines: Vec<LogEntry>)
    ensures
        lines@ == state_dump(state, rows@),
{
    let mut lines: Vec<LogEntry> = Vec::new();
    lines.push(LogEntry::Rule);
    match state {
        Some(state) => {
            lines.push(LogEntry::GameStateLine(state));
        },
        None => {},
    }
    let ghost head = lines@;
    let mut i: usize = 0;
    while i < rows.len()
        invariant
            i <= rows.len(),
            lines@ == head + player_lines(rows@.take(i as int)),
        decreases rows.len() - i,
    {
        let row = rows[i];
        lines.push(LogEntry::PlayerLine(row.0, row.1, row.2));
        proof {
            assert(lines@ =~= head + player_lines(rows@.take(i + 1)));
        }
        i = i + 1;
    }
    lines.push(LogEntry::Rule);
    proof {
        assert(rows@.take(rows@.len() as int) =~= rows@);
        assert(lines@ =~= state_dump(state, rows@));
    }
    lines
}

/// Dumps the game state and the players, in the order in which they were
/// spawned. Fails if the store has no game state.
pub fn check_startup(store: &Store) -> (report: Result<Vec<LogEntry>, ConfigError>)
    ensures
        match check_startup_outcome(store@) {
            Ok(lines) => report matches Ok(written) && written@ == lines,
            Err(error) => report matches Err(found) && found == error,
        },
{
    match store.resource_get(ResourceKind::GameState) {
        Some(Resource::GameState(state)) => {
            let rows = store.query_players();
            Ok(dump(Some(state), &rows))
        },
        _ => Err(ConfigError::MissingResource(ResourceKind::GameState)),
    }
}

/// Dumps the players, in the order in which they were spawned, and the game
/// state if the store has one. A store without a game state is no failure.
pub fn dump_state(store: &Store) -> (lines: Vec<LogEntry>)
    ensures
        lines@ == state_dump(store@.game_state, player_rows(store@.entities)),
{
    let state = match store.resource_get(ResourceKind::GameState) {
        Some(Resource::GameState(state)) => Some(state),
        _ => None,
    };
    let rows = store.query_players();
    dump(state, &rows)
}

} // verus!
