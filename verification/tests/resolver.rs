use relativeworkspace::direction::Direction;
use relativeworkspace::resolver::decide;
use relativeworkspace::resolver::resolve;
use relativeworkspace::resolver::Action;
use relativeworkspace::snapshot::CurrentWorkspace;
use relativeworkspace::snapshot::Predicates;
use relativeworkspace::snapshot::Workspace;
use relativeworkspace::snapshot::WorkspaceSnapshot;

fn snapshot_of(occupied: &[i32], id: i32, window_count: u16) -> WorkspaceSnapshot {
    let mut list: Vec<Workspace> = occupied
        .iter()
        .map(|occupied_id| Workspace { id: *occupied_id, monitor: "DP-1".to_string(), windows: 1 })
        .collect();
    list.push(Workspace { id: 40, monitor: "DP-2".to_string(), windows: 1 });
    list.push(Workspace { id: -98, monitor: "DP-1".to_string(), windows: 1 });
    match WorkspaceSnapshot::new("DP-1".to_string(), &list, CurrentWorkspace { id, window_count }) {
        Some(snapshot) => snapshot,
        None => panic!("nothing is occupied on DP-1"),
    }
}

fn standing(is_first: bool, is_min: bool, is_max: bool, is_empty: bool, multiple: bool) -> Predicates {
    Predicates { is_first, is_min, is_max, is_empty, multiple }
}

#[test]
fn previous_on_the_first_of_three_leaves_the_range() {
    let snapshot = snapshot_of(&[1, 2, 3], 1, 2);
    assert_eq!(resolve(Direction::Previous, &snapshot), Action::MoveToAdjacentIncludingEmpty(-1));
}

#[test]
fn next_in_the_middle_of_three_goes_to_the_occupied_neighbour() {
    let snapshot = snapshot_of(&[1, 2, 3], 2, 0);
    assert_eq!(resolve(Direction::Next, &snapshot), Action::MoveToAdjacentOccupied(1));
}

#[test]
fn next_on_the_only_workspace_goes_to_the_empty_slot() {
    let snapshot = snapshot_of(&[5], 5, 3);
    assert_eq!(resolve(Direction::Next, &snapshot), Action::MoveToAdjacentIncludingEmpty(1));
}

#[test]
fn next_on_the_last_of_three_with_a_window_does_nothing() {
    let snapshot = snapshot_of(&[1, 2, 3], 3, 1);
    assert_eq!(resolve(Direction::Next, &snapshot), Action::NoOp);
}

#[test]
fn single_occupied_workspace_includes_empty_both_ways() {
    for (id, window_count) in [(5, 3), (5, 0), (1, 1), (0, 0), (9, 2)] {
        let snapshot = snapshot_of(&[id], id, window_count);
        assert_eq!(resolve(Direction::Previous, &snapshot), Action::MoveToAdjacentIncludingEmpty(-1));
        assert_eq!(resolve(Direction::Next, &snapshot), Action::MoveToAdjacentIncludingEmpty(1));
    }
    let elsewhere = snapshot_of(&[5], 7, 1);
    assert_eq!(resolve(Direction::Previous, &elsewhere), Action::MoveToAdjacentIncludingEmpty(-1));
    assert_eq!(resolve(Direction::Next, &elsewhere), Action::MoveToAdjacentIncludingEmpty(1));
}

#[test]
fn previous_on_the_lowest_of_several_includes_empty() {
    assert_eq!(resolve(Direction::Previous, &snapshot_of(&[4, 6, 9], 4, 1)), Action::MoveToAdjacentIncludingEmpty(-1));
    assert_eq!(resolve(Direction::Previous, &snapshot_of(&[2, 3], 2, 0)), Action::MoveToAdjacentIncludingEmpty(-1));
    assert_eq!(resolve(Direction::Previous, &snapshot_of(&[0, 1], 0, 0)), Action::MoveToAdjacentIncludingEmpty(-1));
}

#[test]
fn next_on_the_highest_of_several_without_windows_includes_empty() {
    assert_eq!(resolve(Direction::Next, &snapshot_of(&[4, 6, 9], 9, 0)), Action::MoveToAdjacentIncludingEmpty(1));
    assert_eq!(resolve(Direction::Next, &snapshot_of(&[1, 2], 2, 0)), Action::MoveToAdjacentIncludingEmpty(1));
}

#[test]
fn next_on_the_highest_of_several_with_windows_does_nothing() {
    assert_eq!(resolve(Direction::Next, &snapshot_of(&[4, 6, 9], 9, 1)), Action::NoOp);
    assert_eq!(resolve(Direction::Next, &snapshot_of(&[1, 2], 2, 65535)), Action::NoOp);
    assert_eq!(resolve(Direction::Next, &snapshot_of(&[0, 1], 1, 2)), Action::NoOp);
}

#[test]
fn between_lowest_and_highest_both_ways_go_to_the_occupied_neighbour() {
    for (id, window_count) in [(6, 0), (6, 4), (5, 1), (8, 0)] {
        let snapshot = snapshot_of(&[4, 6, 9], id, window_count);
        assert_eq!(resolve(Direction::Previous, &snapshot), Action::MoveToAdjacentOccupied(-1));
        assert_eq!(resolve(Direction::Next, &snapshot), Action::MoveToAdjacentOccupied(1));
    }
}

#[test]
fn workspace_one_is_a_floor_even_with_a_lower_one_occupied() {
    let snapshot = snapshot_of(&[0, 1, 2], 1, 1);
    assert_eq!(resolve(Direction::Previous, &snapshot), Action::MoveToAdjacentIncludingEmpty(-1));
    assert_eq!(resolve(Direction::Next, &snapshot), Action::MoveToAdjacentOccupied(1));
}

#[test]
fn focus_outside_the_occupied_workspaces_steps_to_an_occupied_one() {
    let beside = snapshot_of(&[2, 3], 7, 1);
    assert_eq!(resolve(Direction::Previous, &beside), Action::MoveToAdjacentOccupied(-1));
    assert_eq!(resolve(Direction::Next, &beside), Action::MoveToAdjacentOccupied(1));
    let on_one = snapshot_of(&[2, 3], 1, 0);
    assert_eq!(resolve(Direction::Previous, &on_one), Action::MoveToAdjacentIncludingEmpty(-1));
    assert_eq!(resolve(Direction::Next, &on_one), Action::MoveToAdjacentOccupied(1));
}

#[test]
fn decide_previous_follows_the_table() {
    for is_max in [false, true] {
        for is_empty in [false, true] {
            for is_first in [false, true] {
                for is_min in [false, true] {
                    assert_eq!(
                        decide(Direction::Previous, standing(is_first, is_min, is_max, is_empty, false)),
                        Action::MoveToAdjacentIncludingEmpty(-1)
                    );
                }
            }
            assert_eq!(
                decide(Direction::Previous, standing(false, false, is_max, is_empty, true)),
                Action::MoveToAdjacentOccupied(-1)
            );
            assert_eq!(
                decide(Direction::Previous, standing(false, true, is_max, is_empty, true)),
                Action::MoveToAdjacentIncludingEmpty(-1)
            );
            assert_eq!(
                decide(Direction::Previous, standing(true, false, is_max, is_empty, true)),
                Action::MoveToAdjacentIncludingEmpty(-1)
            );
            assert_eq!(
                decide(Direction::Previous, standing(true, true, is_max, is_empty, true)),
                Action::MoveToAdjacentIncludingEmpty(-1)
            );
        }
    }
}

#[test]
fn decide_next_follows_the_table() {
    for is_first in [false, true] {
        for is_min in [false, true] {
            for is_max in [false, true] {
                for is_empty in [false, true] {
                    assert_eq!(
                        decide(Direction::Next, standing(is_first, is_min, is_max, is_empty, false)),
                        Action::MoveToAdjacentIncludingEmpty(1)
                    );
                }
            }
            for is_empty in [false, true] {
                assert_eq!(
                    decide(Direction::Next, standing(is_first, is_min, false, is_empty, true)),
                    Action::MoveToAdjacentOccupied(1)
                );
            }
            assert_eq!(
                decide(Direction::Next, standing(is_first, is_min, true, true, true)),
                Action::MoveToAdjacentIncludingEmpty(1)
            );
            assert_eq!(decide(Direction::Next, standing(is_first, is_min, true, false, true)), Action::NoOp);
        }
    }
}

#[test]
fn a_command_carries_the_step_of_the_direction() {
    for occupied in [vec![1], vec![4], vec![1, 2, 3], vec![0, 1, 5], vec![2, 9]] {
        for id in 0..10 {
            for window_count in [0, 1] {
                let snapshot = snapshot_of(&occupied, id, window_count);
                for direction in [Direction::Previous, Direction::Next] {
                    match resolve(direction, &snapshot) {
                        Action::MoveToAdjacentOccupied(step) => assert_eq!(step, direction.step()),
                        Action::MoveToAdjacentIncludingEmpty(step) => assert_eq!(step, direction.step()),
                        Action::NoOp => {
                            assert_eq!(direction, Direction::Next);
                            assert_eq!(Some(&id), occupied.iter().max());
                            assert!(occupied.len() > 1);
                            assert_eq!(window_count, 1);
                        }
                    }
                }
            }
        }
    }
}
