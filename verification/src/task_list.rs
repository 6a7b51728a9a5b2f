use vstd::prelude::*;

use crate::events::SessionUpdate;
use crate::text::{lower_of, lowercase, preview_of, spec_contains, spec_preview, str_contains_sub};
use crate::workspace::{Workspace, WorkspaceTask};

verus! {

/// A position in a sectioned list: a section and a row inside it.
#[derive(Clone, Copy, PartialEq, Eq, Structural, Debug)]
pub struct IndexPath {
    /// The section.
    pub section: usize,
    /// The row within the section.
    pub row: usize,
}

impl Default for IndexPath {
    /// The first row of the first section.
    fn default() -> (res: Self)
        ensures
            res.section == 0,
            res.row == 0,
    {
        IndexPath { section: 0, row: 0 }
    }
}

/// Whether `t` belongs under workspace `wid` and its lowercased name
/// contains the lowercased query (an empty query matches everything).
pub open spec fn task_matches(t: WorkspaceTask, wid: u64, q: Seq<char>) -> bool {
    t.workspace_id == wid && (q.len() == 0 || spec_contains(lower_of(t.name@), q))
}

/// The tasks of `all` under workspace `wid` that match the query, in
/// their original order.
pub open spec fn matching_tasks(all: Seq<WorkspaceTask>, wid: u64, q: Seq<char>) -> Seq<
    WorkspaceTask,
>
    decreases all.len(),
{
    if all.len() == 0 {
        all
    } else {
        let rest = matching_tasks(all.drop_last(), wid, q);
        if task_matches(all.last(), wid, q) {
            rest.push(all.last())
        } else {
            rest
        }
    }
}

/// Rows ordered newest first.
pub open spec fn sorted_desc(s: Seq<WorkspaceTask>) -> bool {
    forall|i: int, j: int|
        0 <= i < j < s.len() ==> (#[trigger] s[i]).created_at >= (#[trigger] s[j]).created_at
}

fn filter_tasks(all: &Vec<WorkspaceTask>, wid: u64, query_lower: &String) -> (r: Vec<
    WorkspaceTask,
>)
    ensures
        r@ == matching_tasks(all@, wid, query_lower@),
{
    let mut r: Vec<WorkspaceTask> = Vec::new();
    let n = all.len();
    let empty_query = query_lower.as_str().is_empty();
    let mut i: usize = 0;
    while i < n
        invariant
            i <= n,
            n == all@.len(),
            empty_query == (query_lower@.len() == 0),
            r@ == matching_tasks(all@.subrange(0, i as int), wid, query_lower@),
        decreases n - i,
    {
        proof {
            assert(all@.subrange(0, i + 1).drop_last() =~= all@.subrange(0, i as int));
            assert(all@.subrange(0, i + 1).last() == all@[i as int]);
        }
        if all[i].workspace_id == wid {
            let keep = if empty_query {
                true
            } else {
                let name_lower = lowercase(all[i].name.as_str());
                str_contains_sub(name_lower.as_str(), query_lower.as_str())
            };
            if keep {
                r.push(all[i].clone());
            }
        }
        i = i + 1;
    }
    proof {
        assert(all@.subrange(0, n as int) =~= all@);
    }
    r
}

proof fn lemma_insert_to_multiset(s: Seq<WorkspaceTask>, i: int, x: WorkspaceTask)
    requires
        0 <= i <= s.len(),
    ensures
        s.insert(i, x).to_multiset() =~= s.to_multiset().insert(x),
{
    broadcast use vstd::seq_lib::group_to_multiset_ensures;

    let t = s.insert(i, x);
    assert(t.remove(i) =~= s);
    assert(t[i] == x);
    assert(t.remove(i).to_multiset() =~= t.to_multiset().remove(x));
    assert(t.to_multiset().contains(x));
    assert(t.to_multiset() =~= t.to_multiset().remove(x).insert(x));
}

fn sort_tasks_desc(v: Vec<WorkspaceTask>) -> (r: Vec<WorkspaceTask>)
    ensures
        r@.to_multiset() == v@.to_multiset(),
        sorted_desc(r@),
{
    let mut r: Vec<WorkspaceTask> = Vec::new();
    let n = v.len();
    let mut i: usize = 0;
    proof {
        broadcast use vstd::seq_lib::group_to_multiset_ensures;

        assert(v@.subrange(0, 0) =~= Seq::<WorkspaceTask>::empty());
        assert(r@.to_multiset() =~= v@.subrange(0, 0).to_multiset());
    }
    while i < n
        invariant
            i <= n,
            n == v@.len(),
            r@.len() == i,
            r@.to_multiset() == v@.subrange(0, i as int).to_multiset(),
            sorted_desc(r@),
        decreases n - i,
    {
        let t = v[i].clone();
        let m = r.len();
        let mut p: usize = 0;
        while p < m && r[p].created_at >= t.created_at
            invariant
                p <= m,
                m == r@.len(),
                forall|j: int| 0 <= j < p ==> (#[trigger] r@[j]).created_at >= t.created_at,
            decreases m - p,
        {
            p = p + 1;
        }
        let ghost before = r@;
        r.insert(p, t);
        proof {
            broadcast use vstd::seq_lib::group_to_multiset_ensures;

            lemma_insert_to_multiset(before, p as int, t);
            assert(v@.subrange(0, i + 1).drop_last() =~= v@.subrange(0, i as int));
            assert(v@.subrange(0, i + 1) =~= v@.subrange(0, i as int).push(v@[i as int]));
            assert(t == v@[i as int]);
            assert(r@.to_multiset() =~= v@.subrange(0, i + 1).to_multiset());
            assert forall|a: int, b: int| 0 <= a < b < r@.len() implies (#[trigger] r@[
                a
            ]).created_at >= (#[trigger] r@[b]).created_at by {
                if a < p && b == p {
                } else if a == p && b > p {
                    assert(r@[b] == before[b - 1]);
                    if b - 1 >= p {
                        assert(before[p as int].created_at < t.created_at
                            || p == before.len());
                    }
                } else if a < p && b > p {
                    assert(r@[a] == before[a]);
                    assert(r@[b] == before[b - 1]);
                } else if a > p && b > p {
                    assert(r@[a] == before[a - 1]);
                    assert(r@[b] == before[b - 1]);
                }
            }
        }
        i = i + 1;
    }
    proof {
        assert(v@.subrange(0, n as int) =~= v@);
    }
    r
}

/// The task list shown in the tasks panel: workspaces as sections, each
/// holding its matching tasks newest first, plus the view state of the
/// list (query, selection, collapsed sections). The drawing around it
/// lives outside; this owns the grouping, filtering and ordering rules.
#[derive(Debug)]
pub struct TaskListDelegate {
    /// The workspaces, one section each.
    pub workspaces: Vec<Workspace>,
    /// The tasks per section, aligned with `workspaces`.
    pub workspace_tasks: Vec<Vec<WorkspaceTask>>,
    /// The active search query.
    pub query: String,
    /// The selected row, if any.
    pub selected_index: Option<IndexPath>,
    /// The confirmed row, if any.
    pub confirmed_index: Option<IndexPath>,
    /// Whether a load is in flight.
    pub loading: bool,
    /// Whether everything was loaded.
    pub eof: bool,
    /// Whether more rows load lazily on scroll.
    pub lazy_load: bool,
    /// The sections whose rows are hidden.
    pub collapsed_sections: Vec<usize>,
}

impl TaskListDelegate {
    /// An empty list with the first row preselected.
    pub fn new() -> (d: Self)
        ensures
            d.workspaces@.len() == 0,
            d.workspace_tasks@.len() == 0,
            d.query@.len() == 0,
            d.selected_index == Some(IndexPath { section: 0, row: 0 }),
            d.confirmed_index is None,
            !d.loading,
            !d.eof,
            !d.lazy_load,
            d.collapsed_sections@.len() == 0,
    {
        TaskListDelegate {
            workspaces: Vec::new(),
            workspace_tasks: Vec::new(),
            query: String::new(),
            selected_index: Some(IndexPath { section: 0, row: 0 }),
            confirmed_index: None,
            loading: false,
            eof: false,
            lazy_load: false,
            collapsed_sections: Vec::new(),
        }
    }

    /// Whether section `section` is collapsed.
    pub fn is_section_collapsed(&self, section: usize) -> (r: bool)
        ensures
            r == self.collapsed_sections@.contains(section),
    {
        let n = self.collapsed_sections.len();
        let mut i: usize = 0;
        while i < n
            invariant
                i <= n,
                n == self.collapsed_sections@.len(),
                forall|j: int| 0 <= j < i ==> self.collapsed_sections@[j] != section,
            decreases n - i,
        {
            if self.collapsed_sections[i] == section {
                proof {
                    assert(self.collapsed_sections@.contains(section));
                }
                return true;
            }
            i = i + 1;
        }
        proof {
            if self.collapsed_sections@.contains(section) {
                let j = choose|j: int|
                    0 <= j < self.collapsed_sections@.len() && self.collapsed_sections@[j]
                        == section;
            }
        }
        false
    }

    /// The collapsed-section set holds each section at most once.
    pub open spec fn collapsed_wf(&self) -> bool {
        forall|a: int, b: int|
            0 <= a < b < self.collapsed_sections@.len() ==> #[trigger] self.collapsed_sections@[
                a
            ] != #[trigger] self.collapsed_sections@[b]
    }

    /// Collapses an expanded section and expands a collapsed one,
    /// touching no other section.
    pub fn toggle_section_collapsed(&mut self, section: usize)
        requires
            old(self).collapsed_wf(),
        ensures
            final(self).collapsed_wf(),
            final(self).collapsed_sections@.contains(section) == !old(
                self,
            ).collapsed_sections@.contains(section),
            forall|s2: usize|
                s2 != section ==> #[trigger] final(self).collapsed_sections@.contains(s2)
                    == old(self).collapsed_sections@.contains(s2),
            final(self).workspaces == old(self).workspaces,
            final(self).workspace_tasks == old(self).workspace_tasks,
            final(self).query == old(self).query,
            final(self).selected_index == old(self).selected_index,
    {
        let n = self.collapsed_sections.len();
        let mut i: usize = 0;
        while i < n
            invariant
                old(self).collapsed_wf(),
                *self == *old(self),
                i <= n,
                n == self.collapsed_sections@.len(),
                forall|j: int| 0 <= j < i ==> self.collapsed_sections@[j] != section,
            decreases n - i,
        {
            if self.collapsed_sections[i] == section {
                let ghost before = self.collapsed_sections@;
                self.collapsed_sections.remove(i);
                proof {
                    assert forall|s2: usize|
                        #[trigger] self.collapsed_sections@.contains(s2) == (
                        if s2 == section {
                            false
                        } else {
                            before.contains(s2)
                        }) by {
                        if self.collapsed_sections@.contains(s2) {
                            let k = choose|k: int|
                                0 <= k < self.collapsed_sections@.len()
                                    && self.collapsed_sections@[k] == s2;
                            if k < i {
                                assert(before[k] == s2);
                            } else {
                                assert(before[k + 1] == s2);
                            }
                            if s2 == section {
                                assert(false);
                            }
                        }
                        if s2 != section && before.contains(s2) {
                            let k = choose|k: int|
                                0 <= k < before.len() && before[k] == s2;
                            if k < i {
                                assert(self.collapsed_sections@[k] == s2);
                            } else {
                                assert(k != i);
                                assert(self.collapsed_sections@[k - 1] == s2);
                            }
                        }
                    }
                    assert(before.contains(section));
                }
                return ;
            }
            i = i + 1;
        }
        self.collapsed_sections.push(section);
        proof {
            assert(self.collapsed_sections@.last() == section);
            assert(self.collapsed_sections@.contains(section));
            assert forall|s2: usize|
                s2 != section implies #[trigger] self.collapsed_sections@.contains(s2) == old(
                self,
            ).collapsed_sections@.contains(s2) by {
                if self.collapsed_sections@.contains(s2) {
                    let k = choose|k: int|
                        0 <= k < self.collapsed_sections@.len() && self.collapsed_sections@[k]
                            == s2;
                    assert(k < old(self).collapsed_sections@.len());
                    assert(old(self).collapsed_sections@[k] == s2);
                }
                if old(self).collapsed_sections@.contains(s2) {
                    let k = choose|k: int|
                        0 <= k < old(self).collapsed_sections@.len() && old(
                            self,
                        ).collapsed_sections@[k] == s2;
                    assert(self.collapsed_sections@[k] == s2);
                }
            }
        }
    }

    /// Stores the search query; the filtering itself happens when data is
    /// loaded.
    pub fn prepare(&mut self, query: String)
        ensures
            final(self).query == query,
            final(self).workspaces == old(self).workspaces,
            final(self).workspace_tasks == old(self).workspace_tasks,
            final(self).selected_index == old(self).selected_index,
            final(self).collapsed_sections == old(self).collapsed_sections,
    {
        self.query = query;
    }

    /// Rebuilds the sections from a store snapshot: one section per
    /// workspace holding exactly its tasks whose lowercased name contains
    /// the lowercased query (all of them for an empty query), newest
    /// first.
    pub fn load_from_service(&mut self, workspaces: Vec<Workspace>, all_tasks: Vec<WorkspaceTask>)
        ensures
            final(self).workspaces@ == workspaces@,
            final(self).workspace_tasks@.len() == workspaces@.len(),
            forall|k: int|
                0 <= k < workspaces@.len() ==> {
                    &&& (#[trigger] final(self).workspace_tasks@[k])@.to_multiset()
                        == matching_tasks(
                        all_tasks@,
                        workspaces@[k].id,
                        lower_of(old(self).query@),
                    ).to_multiset()
                    &&& sorted_desc(final(self).workspace_tasks@[k]@)
                },
            final(self).query == old(self).query,
            final(self).selected_index == old(self).selected_index,
            final(self).collapsed_sections == old(self).collapsed_sections,
    {
        let query_lower = lowercase(self.query.as_str());
        let mut groups: Vec<Vec<WorkspaceTask>> = Vec::new();
        let n = workspaces.len();
        let mut k: usize = 0;
        while k < n
            invariant
                k <= n,
                n == workspaces@.len(),
                groups@.len() == k,
                query_lower@ == lower_of(self.query@),
                forall|j: int|
                    0 <= j < k ==> {
                        &&& (#[trigger] groups@[j])@.to_multiset() == matching_tasks(
                            all_tasks@,
                            workspaces@[j].id,
                            lower_of(self.query@),
                        ).to_multiset()
                        &&& sorted_desc(groups@[j]@)
                    },
                *self == *old(self),
            decreases n - k,
        {
            let collected = filter_tasks(&all_tasks, workspaces[k].id, &query_lower);
            let sorted = sort_tasks_desc(collected);
            groups.push(sorted);
            k = k + 1;
        }
        self.workspaces = workspaces;
        self.workspace_tasks = groups;
    }

    /// The number of sections: one per workspace.
    pub fn sections_count(&self) -> (r: usize)
        ensures
            r == self.workspaces@.len(),
    {
        self.workspaces.len()
    }

    /// The number of rows shown for a section: none while it is
    /// collapsed, else its task count but at least one (a placeholder row
    /// stands in for an empty workspace).
    pub fn items_count(&self, section: usize) -> (r: usize)
        ensures
            r == (if self.collapsed_sections@.contains(section) {
                0usize
            } else {
                let count = if section < self.workspace_tasks@.len() {
                    self.workspace_tasks@[section as int]@.len()
                } else {
                    0
                };
                if count > 1 {
                    count as usize
                } else {
                    1usize
                }
            }),
    {
        if self.is_section_collapsed(section) {
            return 0;
        }
        let count = if section < self.workspace_tasks.len() {
            self.workspace_tasks[section].len()
        } else {
            0
        };
        if count > 1 {
            count
        } else {
            1
        }
    }

    /// The selected task, if the selection points at one.
    pub fn selected_task(&self) -> (r: Option<WorkspaceTask>)
        ensures
            match r {
                Some(t) => {
                    &&& self.selected_index matches Some(ix)
                    &&& ix.section < self.workspace_tasks@.len()
                    &&& ix.row < self.workspace_tasks@[ix.section as int]@.len()
                    &&& t == self.workspace_tasks@[ix.section as int]@[ix.row as int]
                },
                None => {
                    self.selected_index matches Some(ix) ==> !(ix.section
                        < self.workspace_tasks@.len() && ix.row < self.workspace_tasks@[
                        ix.section as int
                    ]@.len())
                },
            },
    {
        match &self.selected_index {
            None => None,
            Some(ix) => {
                if ix.section < self.workspace_tasks.len() {
                    let row_count = self.workspace_tasks[ix.section].len();
                    if ix.row < row_count {
                        Some(self.workspace_tasks[ix.section][ix.row].clone())
                    } else {
                        None
                    }
                } else {
                    None
                }
            },
        }
    }

    /// The workspace of the selected section, if the selection points at
    /// one.
    pub fn selected_workspace(&self) -> (r: Option<Workspace>)
        ensures
            match r {
                Some(w) => {
                    &&& self.selected_index matches Some(ix)
                    &&& ix.section < self.workspaces@.len()
                    &&& w == self.workspaces@[ix.section as int]
                },
                None => {
                    self.selected_index matches Some(ix) ==> ix.section
                        >= self.workspaces@.len()
                },
            },
    {
        match &self.selected_index {
            None => None,
            Some(ix) => {
                if ix.section < self.workspaces.len() {
                    Some(self.workspaces[ix.section].clone())
                } else {
                    None
                }
            },
        }
    }

    /// Prepends `task` to the section of its workspace; with no section
    /// for that workspace the list is left as it is. Nothing else — the
    /// other sections, the query, the selection and the collapsed set —
    /// moves.
    pub fn add_task(&mut self, task: WorkspaceTask)
        ensures
            final(self).workspaces == old(self).workspaces,
            final(self).query == old(self).query,
            final(self).selected_index == old(self).selected_index,
            final(self).confirmed_index == old(self).confirmed_index,
            final(self).loading == old(self).loading,
            final(self).eof == old(self).eof,
            final(self).lazy_load == old(self).lazy_load,
            final(self).collapsed_sections == old(self).collapsed_sections,
            final(self).workspace_tasks@.len() == old(self).workspace_tasks@.len(),
            forall|k: int|
                {
                    &&& 0 <= k < old(self).workspaces@.len()
                    &&& old(self).workspaces@[k].id == task.workspace_id
                    &&& forall|j: int|
                        0 <= j < k ==> (#[trigger] old(self).workspaces@[j]).id
                            != task.workspace_id
                    &&& k < old(self).workspace_tasks@.len()
                } ==> (#[trigger] final(self).workspace_tasks@[k])@ == old(
                    self,
                ).workspace_tasks@[k]@.insert(0, task),
            forall|k: int|
                0 <= k < old(self).workspace_tasks@.len() && !(k < old(
                    self,
                ).workspaces@.len() && old(self).workspaces@[k].id == task.workspace_id
                    && (forall|j: int|
                    0 <= j < k ==> (#[trigger] old(self).workspaces@[j]).id
                        != task.workspace_id)) ==> (#[trigger] final(self).workspace_tasks@[k]) == old(self).workspace_tasks@[k],
    {
        let n = self.workspaces.len();
        let mut k: usize = 0;
        while k < n
            invariant
                *self == *old(self),
                k <= n,
                n == self.workspaces@.len(),
                forall|j: int|
                    0 <= j < k ==> (#[trigger] self.workspaces@[j]).id != task.workspace_id,
            decreases n - k,
        {
            if self.workspaces[k].id == task.workspace_id {
                if k < self.workspace_tasks.len() {
                    let mut row = self.workspace_tasks[k].clone_rows();
                    row.insert(0, task);
                    self.workspace_tasks.set(k, row);
                }
                return ;
            }
            k = k + 1;
        }
    }

    /// Stores `message` on the first task joined to `session_id`, in
    /// section-then-row scan order: that one row's preview is replaced,
    /// its other fields and every other row are kept, and the view state
    /// (query, selection, collapsed set) never moves. Reports whether a
    /// joined task was found; with none, nothing is mutated.
    pub fn update_task_message(&mut self, session_id: &String, message: String) -> (found: bool)
        ensures
            final(self).workspaces == old(self).workspaces,
            final(self).query == old(self).query,
            final(self).selected_index == old(self).selected_index,
            final(self).confirmed_index == old(self).confirmed_index,
            final(self).loading == old(self).loading,
            final(self).eof == old(self).eof,
            final(self).lazy_load == old(self).lazy_load,
            final(self).collapsed_sections == old(self).collapsed_sections,
            final(self).workspace_tasks@.len() == old(self).workspace_tasks@.len(),
            found <==> exists|k: int, j: int|
                0 <= k < old(self).workspace_tasks@.len() && 0 <= j < old(
                    self,
                ).workspace_tasks@[k]@.len() && crate::workspace::task_has_session(
                    #[trigger] old(self).workspace_tasks@[k]@[j],
                    session_id@,
                ),
            !found ==> *final(self) == *old(self),
            found ==> exists|k: int, j: int|
                {
                    &&& 0 <= k < old(self).workspace_tasks@.len()
                    &&& 0 <= j < old(self).workspace_tasks@[k]@.len()
                    &&& crate::workspace::task_has_session(
                        #[trigger] old(self).workspace_tasks@[k]@[j],
                        session_id@,
                    )
                    // the first joined row in scan order
                    &&& forall|k2: int, j2: int|
                        0 <= k2 < k && 0 <= j2 < old(self).workspace_tasks@[k2]@.len()
                            ==> !crate::workspace::task_has_session(
                            #[trigger] old(self).workspace_tasks@[k2]@[j2],
                            session_id@,
                        )
                    &&& forall|j2: int|
                        0 <= j2 < j ==> !crate::workspace::task_has_session(
                            #[trigger] old(self).workspace_tasks@[k]@[j2],
                            session_id@,
                        )
                    // that row gains the preview, keeping its other fields
                    &&& final(self).workspace_tasks@[k]@ == old(self).workspace_tasks@[
                        k
                    ]@.update(
                        j,
                        (WorkspaceTask {
                            last_message: Some(message),
                            ..old(self).workspace_tasks@[k]@[j]
                        }),
                    )
                    // every other section is untouched
                    &&& forall|k2: int|
                        0 <= k2 < old(self).workspace_tasks@.len() && k2 != k
                            ==> #[trigger] final(self).workspace_tasks@[k2] == old(
                            self,
                        ).workspace_tasks@[k2]
                },
    {
        let sections = self.workspace_tasks.len();
        let mut k: usize = 0;
        while k < sections
            invariant
                *self == *old(self),
                k <= sections,
                sections == self.workspace_tasks@.len(),
                forall|k2: int, j: int|
                    0 <= k2 < k && 0 <= j < self.workspace_tasks@[k2]@.len()
                        ==> !crate::workspace::task_has_session(
                        #[trigger] self.workspace_tasks@[k2]@[j],
                        session_id@,
                    ),
            decreases sections - k,
        {
            let rows = self.workspace_tasks[k].len();
            let mut j: usize = 0;
            while j < rows
                invariant
                    *self == *old(self),
                    k < sections,
                    sections == self.workspace_tasks@.len(),
                    j <= rows,
                    rows == self.workspace_tasks@[k as int]@.len(),
                    forall|k2: int, j2: int|
                        0 <= k2 < k && 0 <= j2 < self.workspace_tasks@[k2]@.len()
                            ==> !crate::workspace::task_has_session(
                            #[trigger] self.workspace_tasks@[k2]@[j2],
                            session_id@,
                        ),
                    forall|j2: int|
                        0 <= j2 < j ==> !crate::workspace::task_has_session(
                            #[trigger] self.workspace_tasks@[k as int]@[j2],
                            session_id@,
                        ),
                decreases rows - j,
            {
                let joined = match &self.workspace_tasks[k][j].session_id {
                    Some(s) => *s == *session_id,
                    None => false,
                };
                if joined {
                    let mut row = self.workspace_tasks[k].clone_rows();
                    let mut t = row[j].clone();
                    t.last_message = Some(message);
                    let ghost updated = t;
                    row.set(j, t);
                    self.workspace_tasks.set(k, row);
                    proof {
                        let gk = k as int;
                        let gj = j as int;
                        assert(crate::workspace::task_has_session(
                            old(self).workspace_tasks@[gk]@[gj],
                            session_id@,
                        ));
                        assert(updated == (WorkspaceTask {
                            last_message: Some(message),
                            ..old(self).workspace_tasks@[gk]@[gj]
                        }));
                        assert(self.workspace_tasks@[gk]@ == old(self).workspace_tasks@[
                            gk
                        ]@.update(gj, updated));
                        assert forall|k2: int|
                            0 <= k2 < old(self).workspace_tasks@.len() && k2 != gk
                            implies #[trigger] self.workspace_tasks@[k2] == old(
                            self,
                        ).workspace_tasks@[k2] by {}
                        assert forall|k2: int, j2: int|
                            0 <= k2 < gk && 0 <= j2 < old(self).workspace_tasks@[k2]@.len()
                            implies !crate::workspace::task_has_session(
                            #[trigger] old(self).workspace_tasks@[k2]@[j2],
                            session_id@,
                        ) by {
                            assert(self.workspace_tasks@[k2] == old(self).workspace_tasks@[
                                k2
                            ]);
                        }
                        assert forall|j2: int|
                            0 <= j2 < gj implies !crate::workspace::task_has_session(
                            #[trigger] old(self).workspace_tasks@[gk]@[j2],
                            session_id@,
                        ) by {}
                    }
                    return true;
                }
                j = j + 1;
            }
            k = k + 1;
        }
        false
    }

    /// Appends a workspace as a new, empty section.
    pub fn add_workspace(&mut self, workspace: Workspace)
        ensures
            final(self).workspaces@ == old(self).workspaces@.push(workspace),
            final(self).workspace_tasks@.len() == old(self).workspace_tasks@.len() + 1,
            final(self).workspace_tasks@.last()@.len() == 0,
            forall|k: int|
                0 <= k < old(self).workspace_tasks@.len() ==> #[trigger] final(self).workspace_tasks@[k] == old(self).workspace_tasks@[k],
    {
        self.workspaces.push(workspace);
        self.workspace_tasks.push(Vec::new());
    }
}

trait CloneRows {
    fn clone_rows(&self) -> Vec<WorkspaceTask>;
}

impl CloneRows for Vec<WorkspaceTask> {
    fn clone_rows(&self) -> (r: Vec<WorkspaceTask>)
        ensures
            r@ == self@,
    {
        let mut r: Vec<WorkspaceTask> = Vec::new();
        let n = self.len();
        let mut i: usize = 0;
        while i < n
            invariant
                i <= n,
                n == self@.len(),
                r@.len() == i,
                forall|j: int| 0 <= j < i ==> #[trigger] r@[j] == self@[j],
            decreases n - i,
        {
            r.push(self[i].clone());
            i = i + 1;
        }
        proof {
            assert(r@ =~= self@);
        }
        r
    }
}

/// The preview text a session update contributes to its task's list row:
/// the chunk text shortened to `max` characters, `None` for an empty
/// chunk or an update that carries no message text.
pub fn message_preview(update: &SessionUpdate, max: usize) -> (r: Option<String>)
    ensures
        match update {
            SessionUpdate::UserMessageChunk { text } => {
                if text@.len() == 0 {
                    r is None
                } else {
                    r matches Some(p) && p@ == spec_preview(text@, max as nat)
                }
            },
            SessionUpdate::AgentMessageChunk { text } => {
                if text@.len() == 0 {
                    r is None
                } else {
                    r matches Some(p) && p@ == spec_preview(text@, max as nat)
                }
            },
            _ => r is None,
        },
{
    match update {
        SessionUpdate::UserMessageChunk { text } => {
            if text.as_str().is_empty() {
                None
            } else {
                Some(preview_of(text.as_str(), max))
            }
        },
        SessionUpdate::AgentMessageChunk { text } => {
            if text.as_str().is_empty() {
                None
            } else {
                Some(preview_of(text.as_str(), max))
            }
        },
        _ => None,
    }
}

} // verus!
