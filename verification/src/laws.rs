//! What holds of every decision, proved from the decision table.

use crate::direction::Direction;
use crate::occupied::is_greatest_of;
use crate::occupied::is_least_of;
use crate::resolver::decision;
use crate::resolver::resolution;
use crate::resolver::Action;
use crate::snapshot::Predicates;
use crate::snapshot::SnapshotView;
use vstd::prelude::*;

verus! {

/// The decision, row by row.
pub proof fn lemma_decision_table(direction: Direction, predicates: Predicates)
    ensures
        direction == Direction::Previous && !predicates.multiple ==> decision(direction, predicates)
            == Action::MoveToAdjacentIncludingEmpty(-1i32),
        direction == Direction::Previous && predicates.multiple && !predicates.is_min
            && !predicates.is_first ==> decision(direction, predicates)
            == Action::MoveToAdjacentOccupied(-1i32),
        direction == Direction::Previous && predicates.multiple && (predicates.is_min
            || predicates.is_first) ==> decision(direction, predicates)
            == Action::MoveToAdjacentIncludingEmpty(-1i32),
        direction == Direction::Next && !predicates.multiple ==> decision(direction, predicates)
            == Action::MoveToAdjacentIncludingEmpty(1i32),
        direction == Direction::Next && predicates.multiple && !predicates.is_max ==> decision(
            direction,
            predicates,
        ) == Action::MoveToAdjacentOccupied(1i32),
        direction == Direction::Next && predicates.multiple && predicates.is_max
            && predicates.is_empty ==> decision(direction, predicates)
            == Action::MoveToAdjacentIncludingEmpty(1i32),
        direction == Direction::Next && predicates.multiple && predicates.is_max
            && !predicates.is_empty ==> decision(direction, predicates) == Action::NoOp,
{
}

/// A finite set with two different members has more than one member.
pub proof fn lemma_two_members(ids: Set<i32>, one: i32, other: i32)
    requires
        ids.finite(),
        ids.contains(one),
        ids.contains(other),
        one != other,
    ensures
        ids.len() > 1,
{
    let rest = ids.remove(one);
    assert(rest.contains(other));
    assert(rest.len() >= 1);
}

/// With a single occupied workspace there is no neighbour to step to: in both
/// directions the move goes to the adjacent slot, empty or not.
pub proof fn lemma_single_occupied_workspace(snapshot: SnapshotView, direction: Direction)
    requires
        snapshot.valid(),
        snapshot.occupied_ids.len() == 1,
    ensures
        resolution(direction, snapshot) == Action::MoveToAdjacentIncludingEmpty(
            direction.spec_step(),
        ),
{
}

/// On the lowest of several occupied workspaces, going back leaves the
/// occupied range for the slot below.
pub proof fn lemma_previous_on_lowest(snapshot: SnapshotView)
    requires
        snapshot.valid(),
        is_least_of(snapshot.current_workspace.id, snapshot.occupied_ids),
        snapshot.occupied_ids.len() > 1,
    ensures
        resolution(Direction::Previous, snapshot) == Action::MoveToAdjacentIncludingEmpty(-1i32),
{
}

/// On the highest of several occupied workspaces, going on from a workspace
/// without windows leaves the occupied range for the slot above.
pub proof fn lemma_next_on_highest_without_windows(snapshot: SnapshotView)
    requires
        snapshot.valid(),
        is_greatest_of(snapshot.current_workspace.id, snapshot.occupied_ids),
        snapshot.occupied_ids.len() > 1,
        snapshot.current_workspace.window_count == 0,
    ensures
        resolution(Direction::Next, snapshot) == Action::MoveToAdjacentIncludingEmpty(1i32),
{
}

/// On the highest of several occupied workspaces, going on from a workspace
/// that has windows does nothing.
pub proof fn lemma_next_on_highest_with_windows(snapshot: SnapshotView)
    requires
        snapshot.valid(),
        is_greatest_of(snapshot.current_workspace.id, snapshot.occupied_ids),
        snapshot.occupied_ids.len() > 1,
        snapshot.current_workspace.window_count > 0,
    ensures
        resolution(Direction::Next, snapshot) == Action::NoOp,
{
}

/// Strictly between the lowest and the highest occupied workspace the move
/// goes to the occupied neighbour, in both directions. Going back from
/// workspace 1 is left out: workspace 1 is a floor even when a workspace
/// below it is occupied.
pub proof fn lemma_between_lowest_and_highest(snapshot: SnapshotView, direction: Direction)
    requires
        snapshot.valid(),
        snapshot.is_between_extremes(),
        !(direction == Direction::Previous && snapshot.current_workspace.id == 1),
    ensures
        resolution(direction, snapshot) == Action::MoveToAdjacentOccupied(direction.spec_step()),
{
    let (lowest, highest) = choose|lowest: i32, highest: i32|
        {
            &&& #[trigger] is_least_of(lowest, snapshot.occupied_ids)
            &&& #[trigger] is_greatest_of(highest, snapshot.occupied_ids)
            &&& lowest < snapshot.current_workspace.id < highest
        };
    lemma_two_members(snapshot.occupied_ids, lowest, highest);
}

/// Going back from workspace 1 never steps to an occupied neighbour and never
/// does nothing, whatever else is occupied.
pub proof fn lemma_first_workspace_is_a_floor(snapshot: SnapshotView)
    requires
        snapshot.valid(),
        snapshot.current_workspace.id == 1,
    ensures
        resolution(Direction::Previous, snapshot) == Action::MoveToAdjacentIncludingEmpty(-1i32),
{
}

/// A focused workspace that is not among several occupied ones, as when the
/// focus is on another display, is neither the lowest nor the highest: the
/// move goes to the occupied neighbour, but for the floor at workspace 1.
pub proof fn lemma_focus_outside_occupied(snapshot: SnapshotView, direction: Direction)
    requires
        snapshot.valid(),
        !snapshot.occupied_ids.contains(snapshot.current_workspace.id),
        snapshot.occupied_ids.len() > 1,
        !(direction == Direction::Previous && snapshot.current_workspace.id == 1),
    ensures
        resolution(direction, snapshot) == Action::MoveToAdjacentOccupied(direction.spec_step()),
{
}

/// A command always carries the step of the requested direction.
pub proof fn lemma_step_follows_direction(snapshot: SnapshotView, direction: Direction)
    ensures
        resolution(direction, snapshot).spec_step() is Some ==> resolution(
            direction,
            snapshot,
        ).spec_step() == Some(direction.spec_step()),
{
}

/// Nothing is done in exactly one situation: going on from the highest of
/// several occupied workspaces while it has windows. Going back always moves.
pub proof fn lemma_no_op_only_at_occupied_top(snapshot: SnapshotView, direction: Direction)
    requires
        snapshot.valid(),
    ensures
        resolution(direction, snapshot) == Action::NoOp <==> ({
            &&& direction == Direction::Next
            &&& snapshot.occupied_ids.len() > 1
            &&& is_greatest_of(snapshot.current_workspace.id, snapshot.occupied_ids)
            &&& snapshot.current_workspace.window_count > 0
        }),
{
}

} // verus!
