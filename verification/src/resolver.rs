//! Choosing the one navigation command for a snapshot and a direction.
//!
//! Stepping from occupied workspace to occupied workspace gets stuck at the
//! ends of the occupied range; stepping through every slot skips nothing but
//! lands on empty workspaces all the time. The resolver steps through the
//! occupied workspaces while there is one ahead and leaves the range only at
//! its ends.

use crate::direction::Direction;
use crate::laws::lemma_between_lowest_and_highest;
use crate::laws::lemma_next_on_highest_with_windows;
use crate::laws::lemma_next_on_highest_without_windows;
use crate::laws::lemma_previous_on_lowest;
use crate::laws::lemma_single_occupied_workspace;
use crate::snapshot::Predicates;
use crate::snapshot::SnapshotView;
use crate::snapshot::WorkspaceSnapshot;
use vstd::prelude::*;

verus! {

/// The outcome of a decision: one compositor command, or none.
#[derive(Clone, Copy, Debug, PartialEq, Eq, Structural)]
pub enum Action {
    /// Move by the given step to the neighbouring occupied workspace of the display.
    MoveToAdjacentOccupied(i32),
    /// Move by the given step to the neighbouring workspace slot of the
    /// display, whether anything is open there or not.
    MoveToAdjacentIncludingEmpty(i32),
    /// Stay.
    NoOp,
}

impl Action {
    /// The step that the command carries, if the action is a command.
    pub open spec fn spec_step(self) -> Option<i32> {
        match self {
            Action::MoveToAdjacentOccupied(step) => Some(step),
            Action::MoveToAdjacentIncludingEmpty(step) => Some(step),
            Action::NoOp => None,
        }
    }
}

/// Whether no occupied workspace counts as lying further in `direction`.
/// Backwards, workspace 1 is a floor whatever else is occupied.
pub open spec fn at_boundary(direction: Direction, predicates: Predicates) -> bool {
    match direction {
        Direction::Previous => predicates.is_min || predicates.is_first,
        Direction::Next => predicates.is_max,
    }
}

/// The action for a direction and the standing of the focused workspace.
pub open spec fn decision(direction: Direction, predicates: Predicates) -> Action {
    if predicates.multiple && !at_boundary(direction, predicates) {
        Action::MoveToAdjacentOccupied(direction.spec_step())
    } else if direction == Direction::Next && predicates.multiple && !predicates.is_empty {
        Action::NoOp
    } else {
        Action::MoveToAdjacentIncludingEmpty(direction.spec_step())
    }
}

/// The action for a direction and a snapshot.
pub open spec fn resolution(direction: Direction, snapshot: SnapshotView) -> Action {
    decision(direction, snapshot.predicates())
}

/// Decides from the standing of the focused workspace alone.
pub fn decide(direction: Direction, predicates: Predicates) -> (action: Action)
    ensures
        action == decision(direction, predicates),
{
    match direction {
        Direction::Previous => {
            if !predicates.multiple {
                Action::MoveToAdjacentIncludingEmpty(-1)
            } else if predicates.is_first || predicates.is_min {
                Action::MoveToAdjacentIncludingEmpty(-1)
            } else {
                Action::MoveToAdjacentOccupied(-1)
            }
        },
        Direction::Next => {
            if !predicates.multiple {
                Action::MoveToAdjacentIncludingEmpty(1)
            } else if !predicates.is_max {
                Action::MoveToAdjacentOccupied(1)
            } else if predicates.is_empty {
                Action::MoveToAdjacentIncludingEmpty(1)
            } else {
                Action::NoOp
            }
        },
    }
}

/// Chooses the action for `direction` on `snapshot`.
///
/// The first two clauses say all there is to say; the others spell out what
/// follows at the ends of the occupied range and inside it.
pub fn resolve(direction: Direction, snapshot: &WorkspaceSnapshot) -> (action: Action)
    ensures
        snapshot@.valid(),
        action == resolution(direction, snapshot@),
        snapshot@.occupied_ids.len() == 1 ==> action == Action::MoveToAdjacentIncludingEmpty(
            direction.spec_step(),
        ),
        direction == Direction::Previous && snapshot@.is_min() && snapshot@.multiple() ==> action
            == Action::MoveToAdjacentIncludingEmpty(-1i32),
        direction == Direction::Next && snapshot@.is_max() && snapshot@.multiple()
            && snapshot@.is_empty() ==> action == Action::MoveToAdjacentIncludingEmpty(1i32),
        direction == Direction::Next && snapshot@.is_max() && snapshot@.multiple()
            && !snapshot@.is_empty() ==> action == Action::NoOp,
        snapshot@.is_between_extremes() && !(direction == Direction::Previous
            && snapshot@.is_first()) ==> action == Action::MoveToAdjacentOccupied(
            direction.spec_step(),
        ),
{
    let action = decide(direction, snapshot.predicates());
    proof {
        if snapshot@.occupied_ids.len() == 1 {
            lemma_single_occupied_workspace(snapshot@, direction);
        }
        if snapshot@.is_min() && snapshot@.multiple() {
            lemma_previous_on_lowest(snapshot@);
        }
        if snapshot@.is_max() && snapshot@.multiple() {
            if snapshot@.is_empty() {
                lemma_next_on_highest_without_windows(snapshot@);
            } else {
                lemma_next_on_highest_with_windows(snapshot@);
            }
        }
        if snapshot@.is_between_extremes() && !(direction == Direction::Previous
            && snapshot@.is_first()) {
            lemma_between_lowest_and_highest(snapshot@, direction);
        }
    }
    action
}

} // verus!
