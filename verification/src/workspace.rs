use vstd::prelude::*;

use crate::events::WorkspaceUpdateEvent;
use crate::text::{extract_filename, spec_last_segment};

verus! {

/// The lifecycle status of a task.
#[derive(Clone, Copy, PartialEq, Eq, Structural, Debug)]
pub enum TaskStatus {
    /// Created, nothing ran yet.
    Pending,
    /// An agent is working on it.
    InProgress,
    /// Finished successfully.
    Completed,
    /// Finished with an error.
    Failed,
}

/// A user-selected project root under which tasks are grouped.
#[derive(Debug)]
pub struct Workspace {
    /// Store-issued identity.
    pub id: u64,
    /// Display name, derived from the root path.
    pub name: String,
    /// The selected directory.
    pub root_path: String,
    /// When the workspace was added.
    pub created_at: u64,
}

impl Clone for Workspace {
    fn clone(&self) -> (res: Self)
        ensures
            res == *self,
    {
        Workspace {
            id: self.id,
            name: self.name.clone(),
            root_path: self.root_path.clone(),
            created_at: self.created_at,
        }
    }
}

/// One task grouped under a workspace. The workspace id is a back-reference,
/// not ownership; the session id is the join key that routes session updates
/// back to the task's preview.
#[derive(Debug)]
pub struct WorkspaceTask {
    /// Store-issued identity.
    pub id: u64,
    /// The workspace the task belongs under.
    pub workspace_id: u64,
    /// Display name.
    pub name: String,
    /// Lifecycle status.
    pub status: TaskStatus,
    /// Set once a session is created on the task's behalf.
    pub session_id: Option<String>,
    /// Preview of the last message seen for the task's session.
    pub last_message: Option<String>,
    /// When the task was created.
    pub created_at: u64,
    /// When the task last changed.
    pub updated_at: u64,
}

fn clone_opt_string(o: &Option<String>) -> (res: Option<String>)
    ensures
        res == *o,
{
    match o {
        Some(s) => Some(s.clone()),
        None => None,
    }
}

impl Clone for WorkspaceTask {
    fn clone(&self) -> (res: Self)
        ensures
            res == *self,
    {
        WorkspaceTask {
            id: self.id,
            workspace_id: self.workspace_id,
            name: self.name.clone(),
            status: self.status,
            session_id: clone_opt_string(&self.session_id),
            last_message: clone_opt_string(&self.last_message),
            created_at: self.created_at,
            updated_at: self.updated_at,
        }
    }
}

/// Whether `t` is joined to the session with the given id.
pub open spec fn task_has_session(t: WorkspaceTask, sid: Seq<char>) -> bool {
    t.session_id is Some && t.session_id->0@ == sid
}

/// `t` with its preview replaced and its update time bumped.
pub open spec fn with_message(t: WorkspaceTask, message: String, now: u64) -> WorkspaceTask {
    WorkspaceTask { last_message: Some(message), updated_at: now, ..t }
}

/// `t` with its status replaced and its update time bumped.
pub open spec fn with_status(t: WorkspaceTask, status: TaskStatus, now: u64) -> WorkspaceTask {
    WorkspaceTask { status, updated_at: now, ..t }
}

/// `t` joined to a session and its update time bumped.
pub open spec fn with_session(t: WorkspaceTask, session_id: String, now: u64) -> WorkspaceTask {
    WorkspaceTask { session_id: Some(session_id), updated_at: now, ..t }
}

/// Ids in a persisted snapshot are unique and leave room for more.
pub open spec fn snapshot_valid(ws: Seq<Workspace>, ts: Seq<WorkspaceTask>) -> bool {
    &&& forall|i: int, j: int|
        0 <= i < j < ws.len() ==> (#[trigger] ws[i]).id != (#[trigger] ws[j]).id
    &&& forall|i: int| 0 <= i < ws.len() ==> (#[trigger] ws[i]).id + 1 < u64::MAX
    &&& forall|i: int, j: int|
        0 <= i < j < ts.len() ==> (#[trigger] ts[i]).id != (#[trigger] ts[j]).id
    &&& forall|i: int| 0 <= i < ts.len() ==> (#[trigger] ts[i]).id + 1 < u64::MAX
}

/// The workspace/task store: the single writer of the persisted
/// workspace/task collection. Every mutation returns the workspace update
/// event to publish, so a reader that saw the event also sees the new state.
pub struct WorkspaceStore {
    workspaces: Vec<Workspace>,
    tasks: Vec<WorkspaceTask>,
    next_workspace_id: u64,
    next_task_id: u64,
}

impl WorkspaceStore {
    /// The workspaces, in insertion order.
    pub closed spec fn workspaces(&self) -> Seq<Workspace> {
        self.workspaces@
    }

    /// All tasks, in insertion order.
    pub closed spec fn tasks(&self) -> Seq<WorkspaceTask> {
        self.tasks@
    }

    /// How many workspace ids the monotonic counter has issued.
    pub closed spec fn workspace_ids_issued(&self) -> nat {
        self.next_workspace_id as nat
    }

    /// How many task ids the monotonic counter has issued.
    pub closed spec fn task_ids_issued(&self) -> nat {
        self.next_task_id as nat
    }

    /// The id counters still have room.
    pub open spec fn can_add(&self) -> bool {
        self.workspace_ids_issued() < u64::MAX && self.task_ids_issued() < u64::MAX
    }

    /// Whether a workspace with `id` exists.
    pub open spec fn has_workspace(&self, id: u64) -> bool {
        exists|i: int|
            0 <= i < self.workspaces().len() && (#[trigger] self.workspaces()[i]).id == id
    }

    /// Whether a task with `id` exists.
    pub open spec fn has_task(&self, id: u64) -> bool {
        exists|i: int| 0 <= i < self.tasks().len() && (#[trigger] self.tasks()[i]).id == id
    }

    /// Every record carries a distinct id below its counter.
    pub closed spec fn wf(&self) -> bool {
        &&& forall|i: int, j: int|
            0 <= i < j < self.workspaces@.len() ==> (#[trigger] self.workspaces@[i]).id != (
            #[trigger] self.workspaces@[j]).id
        &&& forall|i: int|
            0 <= i < self.workspaces@.len() ==> (#[trigger] self.workspaces@[i]).id
                < self.next_workspace_id
        &&& forall|i: int, j: int|
            0 <= i < j < self.tasks@.len() ==> (#[trigger] self.tasks@[i]).id != (
            #[trigger] self.tasks@[j]).id
        &&& forall|i: int|
            0 <= i < self.tasks@.len() ==> (#[trigger] self.tasks@[i]).id < self.next_task_id
    }

    /// Whether the id counters still have room: what `can_add` says.
    pub fn has_capacity(&self) -> (r: bool)
        ensures
            r == self.can_add(),
    {
        self.next_workspace_id < u64::MAX && self.next_task_id < u64::MAX
    }

    /// An empty store.
    pub fn new() -> (store: Self)
        ensures
            store.wf(),
            store.can_add(),
            store.workspaces() == Seq::<Workspace>::empty(),
            store.tasks() == Seq::<WorkspaceTask>::empty(),
            store.workspace_ids_issued() == 0,
            store.task_ids_issued() == 0,
    {
        WorkspaceStore {
            workspaces: Vec::new(),
            tasks: Vec::new(),
            next_workspace_id: 0,
            next_task_id: 0,
        }
    }

    fn scan_ids(ws: &Vec<Workspace>, ts: &Vec<WorkspaceTask>) -> (r: Option<(u64, u64)>)
        ensures
            match r {
                Some(p) => {
                    &&& snapshot_valid(ws@, ts@)
                    &&& p.0 < u64::MAX
                    &&& p.1 < u64::MAX
                    &&& forall|i: int| 0 <= i < ws@.len() ==> (#[trigger] ws@[i]).id < p.0
                    &&& forall|i: int| 0 <= i < ts@.len() ==> (#[trigger] ts@[i]).id < p.1
                },
                None => !snapshot_valid(ws@, ts@),
            },
    {
        let n = ws.len();
        let mut max_w: u64 = 0;
        let mut i: usize = 0;
        while i < n
            invariant
                i <= n,
                n == ws@.len(),
                max_w < u64::MAX,
                forall|j: int| 0 <= j < i ==> (#[trigger] ws@[j]).id + 1 < u64::MAX,
                forall|j: int| 0 <= j < i ==> (#[trigger] ws@[j]).id < max_w,
                forall|j1: int, j2: int|
                    0 <= j1 < j2 < i ==> (#[trigger] ws@[j1]).id != (#[trigger] ws@[j2]).id,
            decreases n - i,
        {
            let id = ws[i].id;
            if id >= u64::MAX - 1 {
                proof {
                    assert(ws@[i as int].id + 1 >= u64::MAX);
                }
                return None;
            }
            let mut k: usize = 0;
            while k < i
                invariant
                    k <= i,
                    i < n,
                    n == ws@.len(),
                    id == ws@[i as int].id,
                    forall|j: int| 0 <= j < k ==> (#[trigger] ws@[j]).id != id,
                decreases i - k,
            {
                if ws[k].id == id {
                    proof {
                        assert(ws@[k as int].id == ws@[i as int].id);
                    }
                    return None;
                }
                k = k + 1;
            }
            if id + 1 > max_w {
                max_w = id + 1;
            }
            i = i + 1;
        }
        let m = ts.len();
        let mut max_t: u64 = 0;
        let mut i2: usize = 0;
        while i2 < m
            invariant
                i2 <= m,
                m == ts@.len(),
                max_t < u64::MAX,
                forall|j: int| 0 <= j < i2 ==> (#[trigger] ts@[j]).id + 1 < u64::MAX,
                forall|j: int| 0 <= j < i2 ==> (#[trigger] ts@[j]).id < max_t,
                forall|j1: int, j2: int|
                    0 <= j1 < j2 < i2 ==> (#[trigger] ts@[j1]).id != (#[trigger] ts@[j2]).id,
            decreases m - i2,
        {
            let id = ts[i2].id;
            if id >= u64::MAX - 1 {
                proof {
                    assert(ts@[i2 as int].id + 1 >= u64::MAX);
                }
                return None;
            }
            let mut k: usize = 0;
            while k < i2
                invariant
                    k <= i2,
                    i2 < m,
                    m == ts@.len(),
                    id == ts@[i2 as int].id,
                    forall|j: int| 0 <= j < k ==> (#[trigger] ts@[j]).id != id,
                decreases i2 - k,
            {
                if ts[k].id == id {
                    proof {
                        assert(ts@[k as int].id == ts@[i2 as int].id);
                    }
                    return None;
                }
                k = k + 1;
            }
            if id + 1 > max_t {
                max_t = id + 1;
            }
            i2 = i2 + 1;
        }
        Some((max_w, max_t))
    }

    /// Rebuilds the store from what the backing file held at startup.
    ///
    /// A missing or unreadable document (`None`) and a corrupt one
    /// (duplicate or exhausted ids) both fall back to an empty store
    /// rather than failing startup.
    pub fn recover(loaded: Option<(Vec<Workspace>, Vec<WorkspaceTask>)>) -> (store: Self)
        ensures
            store.wf(),
            store.can_add(),
            match loaded {
                None => store.workspaces().len() == 0 && store.tasks().len() == 0,
                Some(snap) => {
                    if snapshot_valid(snap.0@, snap.1@) {
                        store.workspaces() == snap.0@ && store.tasks() == snap.1@
                    } else {
                        store.workspaces().len() == 0 && store.tasks().len() == 0
                    }
                },
            },
    {
        match loaded {
            None => Self::new(),
            Some((workspaces, tasks)) => {
                match Self::scan_ids(&workspaces, &tasks) {
                    None => Self::new(),
                    Some((max_w, max_t)) => WorkspaceStore {
                        workspaces,
                        tasks,
                        next_workspace_id: max_w,
                        next_task_id: max_t,
                    },
                }
            },
        }
    }

    /// A read snapshot of the workspaces.
    pub fn list_workspaces(&self) -> (r: Vec<Workspace>)
        ensures
            r@ == self.workspaces(),
    {
        let mut r: Vec<Workspace> = Vec::new();
        let n = self.workspaces.len();
        let mut i: usize = 0;
        while i < n
            invariant
                i <= n,
                n == self.workspaces@.len(),
                r@.len() == i,
                forall|j: int| 0 <= j < i ==> #[trigger] r@[j] == self.workspaces@[j],
            decreases n - i,
        {
            r.push(self.workspaces[i].clone());
            i = i + 1;
        }
        proof {
            assert(r@ =~= self.workspaces());
        }
        r
    }

    /// A read snapshot of all tasks.
    pub fn get_all_tasks(&self) -> (r: Vec<WorkspaceTask>)
        ensures
            r@ == self.tasks(),
    {
        let mut r: Vec<WorkspaceTask> = Vec::new();
        let n = self.tasks.len();
        let mut i: usize = 0;
        while i < n
            invariant
                i <= n,
                n == self.tasks@.len(),
                r@.len() == i,
                forall|j: int| 0 <= j < i ==> #[trigger] r@[j] == self.tasks@[j],
            decreases n - i,
        {
            r.push(self.tasks[i].clone());
            i = i + 1;
        }
        proof {
            assert(r@ =~= self.tasks());
        }
        r
    }

    /// Adds a workspace rooted at `path`: derives its name from the last
    /// path segment, assigns a fresh id, and returns the new record with
    /// the event to publish on the workspace bus.
    pub fn add_workspace(&mut self, path: String, now: u64) -> (r: (
        Workspace,
        WorkspaceUpdateEvent,
    ))
        requires
            old(self).wf(),
            old(self).can_add(),
        ensures
            final(self).wf(),
            r.0.name@ == spec_last_segment(path@),
            r.0.root_path == path,
            r.0.created_at == now,
            !old(self).has_workspace(r.0.id),
            final(self).has_workspace(r.0.id),
            final(self).workspaces() == old(self).workspaces().push(r.0),
            final(self).tasks() == old(self).tasks(),
            final(self).workspace_ids_issued() == old(self).workspace_ids_issued() + 1,
            final(self).task_ids_issued() == old(self).task_ids_issued(),
            r.1 == (WorkspaceUpdateEvent::WorkspaceAdded { workspace_id: r.0.id }),
    {
        let id = self.next_workspace_id;
        let name = extract_filename(path.as_str());
        let w = Workspace { id, name, root_path: path, created_at: now };
        let result = w.clone();
        self.workspaces.push(w);
        self.next_workspace_id = id + 1;
        proof {
            if old(self).has_workspace(id) {
                let i = choose|i: int|
                    0 <= i < old(self).workspaces().len() && (#[trigger] old(
                        self,
                    ).workspaces()[i]).id == id;
                assert(old(self).workspaces@[i].id < id);
            }
            assert(self.workspaces()[self.workspaces().len() - 1].id == id);
        }
        (result, WorkspaceUpdateEvent::WorkspaceAdded { workspace_id: id })
    }

    /// Creates a task named `name` under `workspace_id`, pending and
    /// without a session, and returns the record with the event to
    /// publish.
    pub fn add_task(&mut self, workspace_id: u64, name: String, now: u64) -> (r: (
        WorkspaceTask,
        WorkspaceUpdateEvent,
    ))
        requires
            old(self).wf(),
            old(self).can_add(),
        ensures
            final(self).wf(),
            !old(self).has_task(r.0.id),
            final(self).has_task(r.0.id),
            r.0.workspace_id == workspace_id,
            r.0.name == name,
            r.0.status == TaskStatus::Pending,
            r.0.session_id is None,
            r.0.last_message is None,
            r.0.created_at == now,
            r.0.updated_at == now,
            final(self).tasks() == old(self).tasks().push(r.0),
            final(self).workspaces() == old(self).workspaces(),
            final(self).task_ids_issued() == old(self).task_ids_issued() + 1,
            final(self).workspace_ids_issued() == old(self).workspace_ids_issued(),
            r.1 == (WorkspaceUpdateEvent::TaskAdded { task_id: r.0.id }),
    {
        let id = self.next_task_id;
        let t = WorkspaceTask {
            id,
            workspace_id,
            name,
            status: TaskStatus::Pending,
            session_id: None,
            last_message: None,
            created_at: now,
            updated_at: now,
        };
        let result = t.clone();
        self.tasks.push(t);
        self.next_task_id = id + 1;
        proof {
            if old(self).has_task(id) {
                let i = choose|i: int|
                    0 <= i < old(self).tasks().len() && (#[trigger] old(self).tasks()[i]).id
                        == id;
                assert(old(self).tasks@[i].id < id);
            }
            assert(self.tasks()[self.tasks().len() - 1].id == id);
        }
        (result, WorkspaceUpdateEvent::TaskAdded { task_id: id })
    }

    fn find_task(&self, task_id: u64) -> (r: Option<usize>)
        ensures
            match r {
                Some(i) => i < self.tasks().len() && self.tasks()[i as int].id == task_id && (
                forall|j: int| 0 <= j < i ==> (#[trigger] self.tasks()[j]).id != task_id),
                None => !self.has_task(task_id),
            },
    {
        let n = self.tasks.len();
        let mut i: usize = 0;
        while i < n
            invariant
                i <= n,
                n == self.tasks@.len(),
                forall|j: int| 0 <= j < i ==> (#[trigger] self.tasks@[j]).id != task_id,
            decreases n - i,
        {
            if self.tasks[i].id == task_id {
                return Some(i);
            }
            i = i + 1;
        }
        None
    }

    /// Sets the status of task `task_id` and returns the event to publish;
    /// `None` when no task carries that id.
    pub fn update_task_status(&mut self, task_id: u64, status: TaskStatus, now: u64) -> (r:
        Option<WorkspaceUpdateEvent>)
        requires
            old(self).wf(),
        ensures
            final(self).wf(),
            final(self).workspace_ids_issued() == old(self).workspace_ids_issued(),
            final(self).task_ids_issued() == old(self).task_ids_issued(),
            final(self).workspaces() == old(self).workspaces(),
            r is Some <==> old(self).has_task(task_id),
            r is None ==> *final(self) == *old(self),
            r is Some ==> r->0 == (WorkspaceUpdateEvent::TaskUpdated { task_id }) && exists|
                i: int,
            |
                0 <= i < old(self).tasks().len() && (#[trigger] old(self).tasks()[i]).id
                    == task_id && final(self).tasks() == old(self).tasks().update(
                    i,
                    with_status(old(self).tasks()[i], status, now),
                ),
    {
        match self.find_task(task_id) {
            None => None,
            Some(i) => {
                let t = self.tasks[i].clone();
                self.tasks.set(i, WorkspaceTask { status, updated_at: now, ..t });
                proof {
                    assert(self.tasks@ == old(self).tasks@.update(
                        i as int,
                        with_status(old(self).tasks@[i as int], status, now),
                    ));
                    assert(old(self).tasks()[i as int].id == task_id);
                }
                Some(WorkspaceUpdateEvent::TaskUpdated { task_id })
            },
        }
    }

    /// Joins task `task_id` to the session created on its behalf and
    /// returns the event to publish; `None` when no task carries that id.
    pub fn set_task_session(&mut self, task_id: u64, session_id: String, now: u64) -> (r:
        Option<WorkspaceUpdateEvent>)
        requires
            old(self).wf(),
        ensures
            final(self).wf(),
            final(self).workspace_ids_issued() == old(self).workspace_ids_issued(),
            final(self).task_ids_issued() == old(self).task_ids_issued(),
            final(self).workspaces() == old(self).workspaces(),
            r is Some <==> old(self).has_task(task_id),
            r is None ==> *final(self) == *old(self),
            r is Some ==> r->0 == (WorkspaceUpdateEvent::TaskUpdated { task_id }) && exists|
                i: int,
            |
                0 <= i < old(self).tasks().len() && (#[trigger] old(self).tasks()[i]).id
                    == task_id && final(self).tasks() == old(self).tasks().update(
                    i,
                    with_session(old(self).tasks()[i], session_id, now),
                ),
    {
        match self.find_task(task_id) {
            None => None,
            Some(i) => {
                let t = self.tasks[i].clone();
                self.tasks.set(
                    i,
                    WorkspaceTask { session_id: Some(session_id), updated_at: now, ..t },
                );
                proof {
                    assert(self.tasks@ == old(self).tasks@.update(
                        i as int,
                        with_session(old(self).tasks@[i as int], session_id, now),
                    ));
                    assert(old(self).tasks()[i as int].id == task_id);
                }
                Some(WorkspaceUpdateEvent::TaskUpdated { task_id })
            },
        }
    }

    /// Stores `message` as the preview of the first task joined to
    /// `session_id`, bumping its update time, and returns the event to
    /// publish; `None` when no task is joined to that session.
    pub fn update_task_message(&mut self, session_id: &String, message: String, now: u64) -> (r:
        Option<WorkspaceUpdateEvent>)
        requires
            old(self).wf(),
        ensures
            final(self).wf(),
            final(self).workspace_ids_issued() == old(self).workspace_ids_issued(),
            final(self).task_ids_issued() == old(self).task_ids_issued(),
            final(self).workspaces() == old(self).workspaces(),
            r is Some <==> exists|i: int|
                0 <= i < old(self).tasks().len() && task_has_session(
                    #[trigger] old(self).tasks()[i],
                    session_id@,
                ),
            r is None ==> *final(self) == *old(self),
            r is Some ==> exists|i: int|
                {
                    &&& 0 <= i < old(self).tasks().len()
                    &&& task_has_session(#[trigger] old(self).tasks()[i], session_id@)
                    &&& forall|j: int|
                        0 <= j < i ==> !task_has_session(
                            #[trigger] old(self).tasks()[j],
                            session_id@,
                        )
                    &&& final(self).tasks() == old(self).tasks().update(
                        i,
                        with_message(old(self).tasks()[i], message, now),
                    )
                    &&& r->0 == (WorkspaceUpdateEvent::TaskUpdated {
                        task_id: old(self).tasks()[i].id,
                    })
                },
    {
        let n = self.tasks.len();
        let mut i: usize = 0;
        while i < n
            invariant
                old(self).wf(),
                *self == *old(self),
                i <= n,
                n == self.tasks@.len(),
                forall|j: int|
                    0 <= j < i ==> !task_has_session(#[trigger] self.tasks@[j], session_id@),
            decreases n - i,
        {
            let joined = match &self.tasks[i].session_id {
                Some(s) => *s == *session_id,
                None => false,
            };
            if joined {
                let task_id = self.tasks[i].id;
                let t = self.tasks[i].clone();
                self.tasks.set(
                    i,
                    WorkspaceTask { last_message: Some(message), updated_at: now, ..t },
                );
                proof {
                    let gi = i as int;
                    assert(task_has_session(old(self).tasks()[gi], session_id@));
                    assert(self.tasks@ == old(self).tasks@.update(
                        gi,
                        with_message(old(self).tasks@[gi], message, now),
                    ));
                }
                return Some(WorkspaceUpdateEvent::TaskUpdated { task_id });
            }
            i = i + 1;
        }
        None
    }
}

/// Read-after-notify consistency: a reader that saw the workspace-added
/// event for `w` finds `w` in any later snapshot of the store, since the
/// store grew by exactly that record when the event was produced.
pub proof fn lemma_read_after_notify(prev: WorkspaceStore, cur: WorkspaceStore, w: Workspace)
    requires
        cur.workspaces() == prev.workspaces().push(w),
    ensures
        cur.workspaces().contains(w),
        cur.workspaces().len() == prev.workspaces().len() + 1,
        forall|x: Workspace| prev.workspaces().contains(x) ==> cur.workspaces().contains(x),
{
    assert(cur.workspaces()[cur.workspaces().len() - 1] == w);
    assert forall|x: Workspace| prev.workspaces().contains(x) implies cur.workspaces().contains(
        x,
    ) by {
        let i = choose|i: int| 0 <= i < prev.workspaces().len() && prev.workspaces()[i] == x;
        assert(cur.workspaces()[i] == x);
    }
}

} // verus!
