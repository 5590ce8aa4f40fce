//! The data that entities and resources are made of.
//!
//! Placements are whole logical units: the play field is 500 by 500 units and
//! every placement the game uses is a whole number of them.

use vstd::prelude::*;

verus! {

/// Width of the play field in logical units.
pub const RES_WIDTH: i32 = 500;

/// Height of the play field in logical units.
pub const RES_HEIGHT: i32 = 500;

/// Number of rounds in a game.
pub const MAX_ROUND: u8 = 5;

/// Distance between a paddle and the edge of the field behind it.
pub const PADDLE_MARGIN: i32 = 50;

/// Distance of each paddle from the centre of the field: half the field's
/// height less the margin.
pub const PADDLE_OFFSET: i32 = 200;

/// The paddle offset is half the field's height less the margin.
pub proof fn lemma_paddle_offset()
    ensures
        PADDLE_OFFSET == RES_HEIGHT / 2 - PADDLE_MARGIN,
{
}

/// Identifies one entity of a store. Identifiers are handed out by the store
/// and are never reused.
#[derive(Clone, Copy, Debug, PartialEq, Eq, Structural)]
pub struct EntityId(pub u64);

/// Marks an entity as a player and carries the player's number.
#[derive(Clone, Copy, Debug, PartialEq, Eq)]
pub struct Player(pub u8);

/// Where an entity is placed on the field, in logical units from its centre.
#[derive(Clone, Copy, Debug, PartialEq, Eq)]
pub struct Position {
    pub x: i32,
    pub y: i32,
}

/// Points a player has won.
#[derive(Clone, Copy, Debug, PartialEq, Eq)]
pub struct Score(pub u32);

/// Whether frames wait for the display's vertical blank.
#[derive(Clone, Copy, Debug, PartialEq, Eq, Structural)]
pub enum PresentMode {
    VsyncOn,
    VsyncOff,
}

/// The presentation state of a window.
#[derive(Clone, Copy, Debug, PartialEq, Eq)]
pub struct Window {
    pub visible: bool,
    pub present_mode: PresentMode,
}

/// Round bookkeeping. The current round never exceeds the number of rounds.
#[derive(Clone, Copy, Debug, PartialEq, Eq)]
pub struct GameState {
    current_round: u8,
    max_rounds: u8,
}

/// What one query row says of a player: who, where, and with what score.
pub type PlayerRow = (Player, Position, Score);

/// The components attached to one entity. Each kind is present at most once.
#[derive(Clone, Copy, Debug, PartialEq, Eq)]
pub struct ComponentSet {
    pub player: Option<Player>,
    pub position: Option<Position>,
    pub score: Option<Score>,
    pub window: Option<Window>,
}

/// Names a set of component kinds, for queries.
#[derive(Clone, Copy, Debug, PartialEq, Eq)]
pub struct ComponentMask {
    pub player: bool,
    pub position: bool,
    pub score: bool,
    pub window: bool,
}

/// A change to the components of one entity. A field that is `Some` replaces
/// (or attaches) that component; a field that is `None` leaves it alone. The
/// player component cannot be named, so a player's number never changes.
#[derive(Clone, Copy, Debug, PartialEq, Eq)]
pub struct Patch {
    pub position: Option<Position>,
    pub score: Option<Score>,
    pub window: Option<Window>,
}

impl PresentMode {
    /// The other mode.
    pub open spec fn flipped(self) -> PresentMode {
        match self {
            PresentMode::VsyncOn => PresentMode::VsyncOff,
            PresentMode::VsyncOff => PresentMode::VsyncOn,
        }
    }

    /// Switches vsync on if it was off, and off if it was on.
    pub fn toggled(self) -> (mode: PresentMode)
        ensures
            mode == self.flipped(),
    {
        match self {
            PresentMode::VsyncOn => PresentMode::VsyncOff,
            PresentMode::VsyncOff => PresentMode::VsyncOn,
        }
    }
}

impl Window {
    /// The window as the process starts with it: hidden, vsync off.
    pub open spec fn initial() -> Window {
        Window { visible: false, present_mode: PresentMode::VsyncOff }
    }

    /// A hidden window that does not wait for the vertical blank.
    pub fn new() -> (window: Window)
        ensures
            window == Window::initial(),
    {
        Window { visible: false, present_mode: PresentMode::VsyncOff }
    }
}

impl GameState {
    #[verifier::type_invariant]
    spec fn rounds_in_range(self) -> bool {
        self.current_round <= self.max_rounds
    }

    /// The round being played, as a contract sees it.
    pub closed spec fn spec_current_round(self) -> u8 {
        self.current_round
    }

    /// The number of rounds, as a contract sees it.
    pub closed spec fn spec_max_rounds(self) -> u8 {
        self.max_rounds
    }

    /// The game state with these two numbers, as a contract sees it.
    pub closed spec fn spec_new(current_round: u8, max_rounds: u8) -> GameState {
        GameState { current_round, max_rounds }
    }

    /// A game state is its two numbers and nothing more.
    pub proof fn lemma_spec_new(current_round: u8, max_rounds: u8)
        ensures
            GameState::spec_new(current_round, max_rounds).spec_current_round() == current_round,
            GameState::spec_new(current_round, max_rounds).spec_max_rounds() == max_rounds,
    {
    }

    /// A game state, unless the current round would exceed the number of
    /// rounds.
    pub fn new(current_round: u8, max_rounds: u8) -> (state: Option<GameState>)
        ensures
            state == if current_round <= max_rounds {
                Some(GameState::spec_new(current_round, max_rounds))
            } else {
                None
            },
    {
        if current_round <= max_rounds {
            Some(GameState { current_round, max_rounds })
        } else {
            None
        }
    }

    /// The state a game starts in: round zero of `max_rounds`.
    pub fn opening(max_rounds: u8) -> (state: GameState)
        ensures
            state == GameState::spec_new(0, max_rounds),
    {
        GameState { current_round: 0, max_rounds }
    }

    /// The round being played. It never exceeds the number of rounds.
    pub fn current_round(&self) -> (round: u8)
        ensures
            round == self.spec_current_round(),
            round <= self.spec_max_rounds(),
    {
        proof {
            use_type_invariant(self);
        }
        self.current_round
    }

    /// The number of rounds in the game.
    pub fn max_rounds(&self) -> (rounds: u8)
        ensures
            rounds == self.spec_max_rounds(),
    {
        self.max_rounds
    }
}

impl ComponentSet {
    /// The set with no component in it.
    pub open spec fn spec_empty() -> ComponentSet {
        ComponentSet { player: None, position: None, score: None, window: None }
    }

    /// Whether every kind that `mask` names is present.
    pub open spec fn has_all(self, mask: ComponentMask) -> bool {
        &&& mask.player ==> self.player is Some
        &&& mask.position ==> self.position is Some
        &&& mask.score ==> self.score is Some
        &&& mask.window ==> self.window is Some
    }

    /// The set after `patch`: named components are replaced or attached, the
    /// others and the player component stay.
    pub open spec fn patched(self, patch: Patch) -> ComponentSet {
        ComponentSet {
            player: self.player,
            position: if patch.position is Some { patch.position } else { self.position },
            score: if patch.score is Some { patch.score } else { self.score },
            window: if patch.window is Some { patch.window } else { self.window },
        }
    }

    /// The row a player query yields for this set, if it has all three of
    /// player, position and score.
    pub open spec fn player_row(self) -> Option<PlayerRow> {
        if self.player is Some && self.position is Some && self.score is Some {
            Some((self.player->0, self.position->0, self.score->0))
        } else {
            None
        }
    }

    /// A set without components.
    pub fn empty() -> (set: ComponentSet)
        ensures
            set == ComponentSet::spec_empty(),
    {
        ComponentSet { player: None, position: None, score: None, window: None }
    }

    /// The components of a player entity.
    pub fn of_player(player: Player, position: Position, score: Score) -> (set: ComponentSet)
        ensures
            set == (ComponentSet {
                player: Some(player),
                position: Some(position),
                score: Some(score),
                window: None,
            }),
    {
        ComponentSet {
            player: Some(player),
            position: Some(position),
            score: Some(score),
            window: None,
        }
    }

    /// The components of a window entity.
    pub fn of_window(window: Window) -> (set: ComponentSet)
        ensures
            set == (ComponentSet {
                player: None,
                position: None,
                score: None,
                window: Some(window),
            }),
    {
        ComponentSet { player: None, position: None, score: None, window: Some(window) }
    }

    /// Whether every kind that `mask` names is present.
    pub fn includes(&self, mask: ComponentMask) -> (all: bool)
        ensures
            all == self.has_all(mask),
    {
        (!mask.player || self.player.is_some()) && (!mask.position || self.position.is_some())
            && (!mask.score || self.score.is_some()) && (!mask.window || self.window.is_some())
    }

    /// Applies `patch` to the set.
    pub fn apply(&self, patch: Patch) -> (set: ComponentSet)
        ensures
            set == self.patched(patch),
    {
        ComponentSet {
            player: self.player,
            position: if patch.position.is_some() {
                patch.position
            } else {
                self.position
            },
            score: if patch.score.is_some() {
                patch.score
            } else {
                self.score
            },
            window: if patch.window.is_some() {
                patch.window
            } else {
                self.window
            },
        }
    }

    /// The player row of this set, if it has a player, a position and a score.
    pub fn row(&self) -> (row: Option<PlayerRow>)
        ensures
            row == self.player_row(),
    {
        match (self.player, self.position, self.score) {
            (Some(player), Some(position), Some(score)) => Some((player, position, score)),
            _ => None,
        }
    }
}

impl ComponentMask {
    /// The kinds that make up a player row: player, position and score.
    pub open spec fn spec_players() -> ComponentMask {
        ComponentMask { player: true, position: true, score: true, window: false }
    }

    /// The window kind alone.
    pub open spec fn spec_windows() -> ComponentMask {
        ComponentMask { player: false, position: false, score: false, window: true }
    }

    /// The mask of a player query.
    pub fn players() -> (mask: ComponentMask)
        ensures
            mask == ComponentMask::spec_players(),
    {
        ComponentMask { player: true, position: true, score: true, window: false }
    }

    /// The mask of a window query.
    pub fn windows() -> (mask: ComponentMask)
        ensures
            mask == ComponentMask::spec_windows(),
    {
        ComponentMask { player: false, position: false, score: false, window: true }
    }
}

impl Patch {
    /// The patch that changes nothing.
    pub open spec fn spec_none() -> Patch {
        Patch { position: None, score: None, window: None }
    }

    /// A patch that replaces the window component.
    pub fn with_window(window: Window) -> (patch: Patch)
        ensures
            patch == (Patch { position: None, score: None, window: Some(window) }),
    {
        Patch { position: None, score: None, window: Some(window) }
    }

    /// A patch that replaces the position.
    pub fn with_position(position: Position) -> (patch: Patch)
        ensures
            patch == (Patch { position: Some(position), score: None, window: None }),
    {
        Patch { position: Some(position), score: None, window: None }
    }

    /// A patch that replaces the score.
    pub fn with_score(score: Score) -> (patch: Patch)
        ensures
            patch == (Patch { position: None, score: Some(score), window: None }),
    {
        Patch { position: None, score: Some(score), window: None }
    }
}

} // verus!
