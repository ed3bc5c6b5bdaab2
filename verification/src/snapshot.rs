//! A point-in-time view of the workspaces around the focused one.

use crate::occupied::is_greatest_of;
use crate::occupied::is_least_of;
use crate::occupied::OccupiedIds;
use vstd::prelude::*;

verus! {

/// A workspace as the compositor lists it.
#[derive(Debug)]
pub struct Workspace {
    /// Non-negative for an ordinary workspace, negative for a special one.
    pub id: i32,
    /// The name of the display that the workspace is bound to.
    pub monitor: String,
    /// The number of windows open on it.
    pub windows: u16,
}

/// The workspace that holds the focus, wherever it is.
#[derive(Clone, Copy, Debug, PartialEq, Eq, Structural)]
pub struct CurrentWorkspace {
    pub id: i32,
    pub window_count: u16,
}

/// The identifiers of the ordinary workspaces among `workspaces` that are
/// bound to the display called `monitor`.
pub open spec fn occupied_on(monitor: Seq<char>, workspaces: Seq<Workspace>) -> Set<i32> {
    Set::new(
        |id: i32|
            id >= 0 && exists|i: int|
                0 <= i < workspaces.len() && (#[trigger] workspaces[i]).id == id
                    && workspaces[i].monitor@ == monitor,
    )
}

proof fn lemma_occupied_on_push(monitor: Seq<char>, workspaces: Seq<Workspace>, next: Workspace)
    ensures
        occupied_on(monitor, workspaces.push(next)) == (if next.monitor@ == monitor && next.id >= 0 {
            occupied_on(monitor, workspaces).insert(next.id)
        } else {
            occupied_on(monitor, workspaces)
        }),
{
    let longer = workspaces.push(next);
    let expected = if next.monitor@ == monitor && next.id >= 0 {
        occupied_on(monitor, workspaces).insert(next.id)
    } else {
        occupied_on(monitor, workspaces)
    };
    assert forall|id: i32| occupied_on(monitor, longer).contains(id) <==> expected.contains(
        id,
    ) by {
        if occupied_on(monitor, longer).contains(id) {
            let i = choose|i: int|
                0 <= i < longer.len() && (#[trigger] longer[i]).id == id && longer[i].monitor@
                    == monitor;
            if i < workspaces.len() {
                assert(workspaces[i] == longer[i]);
            }
        }
        if occupied_on(monitor, workspaces).contains(id) {
            let i = choose|i: int|
                0 <= i < workspaces.len() && (#[trigger] workspaces[i]).id == id
                    && workspaces[i].monitor@ == monitor;
            assert(longer[i] == workspaces[i]);
        }
        if next.monitor@ == monitor && next.id == id {
            assert(longer[workspaces.len() as int] == next);
        }
    }
    assert(occupied_on(monitor, longer) =~= expected);
}

/// Collects the identifiers of the ordinary workspaces on the active display.
///
/// A workspace counts when its display is `active_monitor` and its identifier
/// is not negative; the order of the list and repeated entries do not matter.
pub fn workspace_ids(active_monitor: &str, workspaces: &Vec<Workspace>) -> (ids: OccupiedIds)
    ensures
        ids@ == occupied_on(active_monitor@, workspaces@),
{
    let monitor: String = active_monitor.to_owned();
    let mut ids = OccupiedIds::new();
    let mut i: usize = 0;
    assert(occupied_on(active_monitor@, workspaces@.take(0)) =~= Set::<i32>::empty());
    while i < workspaces.len()
        invariant
            i <= workspaces.len(),
            monitor@ == active_monitor@,
            ids@ == occupied_on(active_monitor@, workspaces@.take(i as int)),
        decreases workspaces.len() - i,
    {
        let workspace = &workspaces[i];
        proof {
            lemma_occupied_on_push(active_monitor@, workspaces@.take(i as int), *workspace);
            assert(workspaces@.take(i + 1) =~= workspaces@.take(i as int).push(*workspace));
        }
        if workspace.monitor == monitor && workspace.id >= 0 {
            ids.insert(workspace.id);
        }
        i += 1;
    }
    assert(workspaces@.take(i as int) =~= workspaces@);
    ids
}

/// Where the focused workspace stands among the occupied ones. Every decision
/// is taken from these five answers, worked out once for a snapshot.
#[derive(Clone, Copy, Debug, PartialEq, Eq, Structural)]
pub struct Predicates {
    /// The focused workspace is workspace 1.
    pub is_first: bool,
    /// The focused workspace is the lowest occupied one.
    pub is_min: bool,
    /// The focused workspace is the highest occupied one.
    pub is_max: bool,
    /// The focused workspace has no window.
    pub is_empty: bool,
    /// More than one workspace is occupied.
    pub multiple: bool,
}

/// What a [`WorkspaceSnapshot`] stands for.
pub struct SnapshotView {
    pub active_monitor_name: Seq<char>,
    pub current_workspace: CurrentWorkspace,
    pub occupied_ids: Set<i32>,
}

impl SnapshotView {
    /// Finitely many workspaces are occupied, at least one, and none of them
    /// is a special one.
    pub open spec fn valid(self) -> bool {
        &&& self.occupied_ids.finite()
        &&& self.occupied_ids.len() >= 1
        &&& forall|id: i32| self.occupied_ids.contains(id) ==> id >= 0
    }

    /// The focused workspace is workspace 1.
    pub open spec fn is_first(self) -> bool {
        self.current_workspace.id == 1
    }

    /// The focused workspace is the lowest occupied one. False in particular
    /// when the focused workspace is not among the occupied ones.
    pub open spec fn is_min(self) -> bool {
        is_least_of(self.current_workspace.id, self.occupied_ids)
    }

    /// The focused workspace is the highest occupied one. False in particular
    /// when the focused workspace is not among the occupied ones.
    pub open spec fn is_max(self) -> bool {
        is_greatest_of(self.current_workspace.id, self.occupied_ids)
    }

    /// The focused workspace has no window.
    pub open spec fn is_empty(self) -> bool {
        self.current_workspace.window_count == 0
    }

    /// More than one workspace is occupied.
    pub open spec fn multiple(self) -> bool {
        self.occupied_ids.len() > 1
    }

    /// The focused workspace lies strictly between the lowest and the highest
    /// occupied one, whether it is occupied itself or not.
    pub open spec fn is_between_extremes(self) -> bool {
        exists|lowest: i32, highest: i32|
            {
                &&& #[trigger] is_least_of(lowest, self.occupied_ids)
                &&& #[trigger] is_greatest_of(highest, self.occupied_ids)
                &&& lowest < self.current_workspace.id < highest
            }
    }

    /// The five answers that a decision is taken from.
    pub open spec fn predicates(self) -> Predicates {
        Predicates {
            is_first: self.is_first(),
            is_min: self.is_min(),
            is_max: self.is_max(),
            is_empty: self.is_empty(),
            multiple: self.multiple(),
        }
    }
}

/// The state that one navigation decision is taken from: the focused display,
/// the focused workspace and the workspaces occupied on that display.
#[derive(Debug)]
pub struct WorkspaceSnapshot {
    active_monitor_name: String,
    current_workspace: CurrentWorkspace,
    occupied_ids: OccupiedIds,
}

impl View for WorkspaceSnapshot {
    type V = SnapshotView;

    closed spec fn view(&self) -> SnapshotView {
        SnapshotView {
            active_monitor_name: self.active_monitor_name@,
            current_workspace: self.current_workspace,
            occupied_ids: self.occupied_ids@,
        }
    }
}

impl WorkspaceSnapshot {
    #[verifier::type_invariant]
    spec fn occupied_ids_are_some_ordinary_workspaces(&self) -> bool {
        &&& self.occupied_ids@.len() >= 1
        &&& forall|id: i32| self.occupied_ids@.contains(id) ==> id >= 0
    }

    /// Builds the snapshot from what the compositor answered: the name of the
    /// focused display, the list of all workspaces and the focused workspace.
    ///
    /// A running compositor always has a workspace on the focused display. An
    /// answer that shows none is not a state to decide from: there is no
    /// snapshot of it.
    pub fn new(
        active_monitor_name: String,
        workspaces: &Vec<Workspace>,
        current_workspace: CurrentWorkspace,
    ) -> (snapshot: Option<Self>)
        ensures
            (match snapshot {
                Some(snapshot) => {
                    &&& snapshot@.valid()
                    &&& snapshot@.active_monitor_name == active_monitor_name@
                    &&& snapshot@.current_workspace == current_workspace
                    &&& snapshot@.occupied_ids == occupied_on(active_monitor_name@, workspaces@)
                },
                None => occupied_on(active_monitor_name@, workspaces@) == Set::<i32>::empty(),
            }),
    {
        let occupied_ids = workspace_ids(active_monitor_name.as_str(), workspaces);
        proof {
            occupied_ids.lemma_finite();
        }
        if occupied_ids.len() == 0 {
            assert(occupied_ids@ =~= Set::<i32>::empty());
            None
        } else {
            Some(WorkspaceSnapshot { active_monitor_name, current_workspace, occupied_ids })
        }
    }

    /// The name of the focused display.
    pub fn active_monitor_name(&self) -> (name: &str)
        ensures
            name@ == self@.active_monitor_name,
    {
        self.active_monitor_name.as_str()
    }

    /// The focused workspace.
    pub fn current_workspace(&self) -> (current: CurrentWorkspace)
        ensures
            current == self@.current_workspace,
    {
        self.current_workspace
    }

    /// The workspaces occupied on the focused display.
    pub fn occupied_ids(&self) -> (ids: &OccupiedIds)
        ensures
            self@.valid(),
            ids@ == self@.occupied_ids,
    {
        proof {
            use_type_invariant(self);
            self.occupied_ids.lemma_finite();
        }
        &self.occupied_ids
    }

    /// Works out where the focused workspace stands among the occupied ones.
    pub fn predicates(&self) -> (predicates: Predicates)
        ensures
            self@.valid(),
            predicates == self@.predicates(),
    {
        proof {
            use_type_invariant(self);
            self.occupied_ids.lemma_finite();
        }
        let id = self.current_workspace.id;
        let is_min = match self.occupied_ids.min() {
            Some(lowest) => lowest == id,
            None => false,
        };
        let is_max = match self.occupied_ids.max() {
            Some(highest) => highest == id,
            None => false,
        };
        Predicates {
            is_first: id == 1,
            is_min,
            is_max,
            is_empty: self.current_workspace.window_count == 0,
            multiple: self.occupied_ids.len() > 1,
        }
    }
}

} // verus!
