//! What the core reports to its host.
//!
//! The core prints nothing. It hands the host entries, in the order in which
//! they arose, and the host writes them wherever it keeps its log.

use vstd::prelude::*;
use crate::commands::Skipped;
use crate::components::{GameState, Player, Position, PresentMode, Score};
use crate::error::ConfigError;

verus! {

/// One entry of the log.
#[derive(Clone, Copy, Debug, PartialEq, Eq)]
pub enum LogEntry {
    /// A line that sets a state dump apart from what surrounds it.
    Rule,
    /// The round being played and the number of rounds.
    GameStateLine(GameState),
    /// One player: who, where, and with what score.
    PlayerLine(Player, Position, Score),
    /// The presentation mode was toggled and is now this.
    PresentModeChanged(PresentMode),
    /// The step at this place in its phase failed, and the steps after it were
    /// not run.
    StepFailed { step: usize, error: ConfigError },
    /// A flush passed over a command.
    CommandSkipped(Skipped),
}

} // verus!
