use vstd::prelude::*;
use crate::task::{now, strings_view, Task, TaskModel, TaskStatus, Timestamp};

verus! {

/// Relies on uuid::Uuid::new_v4 and its `Display` form: a random version-4
/// identifier written in the 36-character hyphenated form.
#[verifier::external_body]
fn new_task_id() -> (r: String)
    ensures
        r@.len() == 36,
{
    uuid::Uuid::new_v4().to_string()
}

/// The record that `set_status` leaves behind: a terminal record never
/// changes again; otherwise the status is replaced, and a move into a
/// terminal status stamps `completed_at`.
pub open spec fn with_status(t: TaskModel, status: TaskStatus, at: Timestamp) -> TaskModel {
    if t.status.spec_is_terminal() {
        t
    } else {
        TaskModel {
            status,
            completed_at: if status.spec_is_terminal() { Some(at) } else { t.completed_at },
            ..t
        }
    }
}

/// The record with one more workspace at the end of its list.
pub open spec fn with_workspace(t: TaskModel, ws: Seq<char>) -> TaskModel {
    TaskModel { workspaces: t.workspaces.push(ws), ..t }
}

/// The record that `create` makes.
pub open spec fn fresh_record(
    id: Seq<char>,
    idea: Seq<char>,
    agent_type: Seq<char>,
    model: Seq<char>,
    n_round: i32,
    created_at: Timestamp,
) -> TaskModel {
    TaskModel {
        id,
        idea,
        agent_type,
        model,
        n_round,
        status: TaskStatus::Pending,
        created_at,
        completed_at: None,
        workspaces: Seq::empty(),
    }
}

/// Registry of task records, keyed by task id. Records are never removed.
pub struct TaskRegistry {
    tasks: Vec<Task>,
    records: Ghost<Map<Seq<char>, TaskModel>>,
}

impl View for TaskRegistry {
    type V = Map<Seq<char>, TaskModel>;

    closed spec fn view(&self) -> Map<Seq<char>, TaskModel> {
        self.records@
    }
}

impl TaskRegistry {
    /// Ids are unique, the ghost map mirrors the vector, and every record
    /// carries `completed_at` exactly when it is terminal.
    pub closed spec fn wf(&self) -> bool {
        &&& forall|i: int, j: int|
            0 <= i < self.tasks@.len() && 0 <= j < self.tasks@.len() && i != j
                ==> #[trigger] self.tasks@[i].id@ != #[trigger] self.tasks@[j].id@
        &&& forall|i: int|
            0 <= i < self.tasks@.len() ==> {
                &&& self.records@.contains_key(#[trigger] self.tasks@[i].id@)
                &&& self.records@[self.tasks@[i].id@] == self.tasks@[i]@
            }
        &&& forall|k: Seq<char>|
            #[trigger] self.records@.contains_key(k) ==> exists|i: int|
                0 <= i < self.tasks@.len() && self.tasks@[i].id@ == k
        &&& forall|k: Seq<char>|
            #[trigger] self.records@.contains_key(k) ==> self.records@[k].well_formed()
        &&& self.tasks@.len() == self.records@.len()
        &&& self.records@.dom().finite()
    }

    /// What validity tells a caller: finitely many records, each carrying a
    /// completion time exactly when it is terminal.
    pub proof fn lemma_wf_facts(&self)
        requires
            self.wf(),
        ensures
            self@.dom().finite(),
            forall|k: Seq<char>| #[trigger] self@.contains_key(k) ==> self@[k].well_formed(),
    {
    }

    pub fn new() -> (r: TaskRegistry)
        ensures
            r.wf(),
            r@ == Map::<Seq<char>, TaskModel>::empty(),
    {
        TaskRegistry { tasks: Vec::new(), records: Ghost(Map::empty()) }
    }

    /// Number of records held.
    pub fn len(&self) -> (r: usize)
        requires
            self.wf(),
        ensures
            r == self@.len(),
    {
        self.tasks.len()
    }

    fn find(&self, id: &String) -> (r: Option<usize>)
        requires
            self.wf(),
        ensures
            r.is_none() ==> !self@.contains_key(id@),
            r matches Some(i) ==> i < self.tasks@.len() && self.tasks@[i as int].id@ == id@
                && self@.contains_key(id@),
    {
        let mut i: usize = 0;
        while i < self.tasks.len()
            invariant
                self.wf(),
                i <= self.tasks@.len(),
                forall|j: int| 0 <= j < i ==> self.tasks@[j].id@ != id@,
            decreases self.tasks@.len() - i,
        {
            if self.tasks[i].id == *id {
                return Some(i);
            }
            i = i + 1;
        }
        None
    }

    /// Whether a record with this id is held.
    pub fn contains(&self, id: &String) -> (r: bool)
        requires
            self.wf(),
        ensures
            r == self@.contains_key(id@),
    {
        self.find(id).is_some()
    }

    /// `candidate` itself when no record holds it; otherwise the candidate
    /// lengthened with '-' until it is longer than every id held.
    pub fn fresh_id(&self, candidate: String) -> (r: String)
        requires
            self.wf(),
        ensures
            !self@.contains_key(r@),
            !self@.contains_key(candidate@) ==> r@ == candidate@,
    {
        if !self.contains(&candidate) {
            return candidate;
        }
        let mut longest: usize = 0;
        let mut i: usize = 0;
        while i < self.tasks.len()
            invariant
                self.wf(),
                i <= self.tasks@.len(),
                forall|j: int| 0 <= j < i ==> self.tasks@[j].id@.len() <= longest,
            decreases self.tasks@.len() - i,
        {
            let n = self.tasks[i].id.as_str().unicode_len();
            if n > longest {
                longest = n;
            }
            i = i + 1;
        }
        let mut id = candidate;
        let mut n: u128 = id.as_str().unicode_len() as u128;
        while n <= longest as u128
            invariant
                n == id@.len(),
                longest <= usize::MAX,
                forall|j: int| 0 <= j < self.tasks@.len() ==> self.tasks@[j].id@.len() <= longest,
            decreases longest as int + 1 - n as int,
        {
            id.append("-");
            proof {
                reveal_strlit("-");
            }
            n = n + 1;
        }
        proof {
            if self@.contains_key(id@) {
                let j = choose|j: int| 0 <= j < self.tasks@.len() && self.tasks@[j].id@ == id@;
                assert(self.tasks@[j].id@.len() <= longest);
            }
        }
        id
    }

    /// Adds a fresh pending record under `id`.
    pub fn create_task_with_id(
        &mut self,
        id: String,
        idea: String,
        agent_type: String,
        model: String,
        n_round: i32,
        created_at: Timestamp,
    ) -> (r: Task)
        requires
            old(self).wf(),
            !old(self)@.contains_key(id@),
            old(self)@.len() < usize::MAX,
        ensures
            final(self).wf(),
            r@ == fresh_record(id@, idea@, agent_type@, model@, n_round, created_at),
            final(self)@ == old(self)@.insert(id@, r@),
    {
        let task = Task {
            id,
            idea,
            agent_type,
            model,
            n_round,
            status: TaskStatus::Pending,
            created_at,
            completed_at: None,
            workspaces: Vec::new(),
        };
        assert(task@.workspaces =~= Seq::<Seq<char>>::empty());
        let r = task.snapshot();
        let ghost old_tasks = self.tasks@;
        self.tasks.push(task);
        self.records = Ghost(self.records@.insert(r@.id, r@));
        proof {
            assert forall|k: Seq<char>| #[trigger] self.records@.contains_key(k) implies exists|i: int|
                0 <= i < self.tasks@.len() && self.tasks@[i].id@ == k by {
                if k != r@.id {
                    let i = choose|i: int| 0 <= i < old_tasks.len() && old_tasks[i].id@ == k;
                    assert(self.tasks@[i].id@ == k);
                } else {
                    assert(self.tasks@[old_tasks.len() as int].id@ == k);
                }
            }
        }
        r
    }

    /// Adds a fresh pending record under a newly drawn id, stamped with the
    /// current time. The id is one that no record held before.
    pub fn create_task(
        &mut self,
        idea: String,
        agent_type: String,
        model: String,
        n_round: i32,
    ) -> (r: Task)
        requires
            old(self).wf(),
            old(self)@.len() < usize::MAX,
        ensures
            final(self).wf(),
            !old(self)@.contains_key(r@.id),
            r@.created_at.representable(),
            r@ == fresh_record(r@.id, idea@, agent_type@, model@, n_round, r@.created_at),
            final(self)@ == old(self)@.insert(r@.id, r@),
    {
        let candidate = new_task_id();
        let id = self.fresh_id(candidate);
        let created_at = now();
        self.create_task_with_id(id, idea, agent_type, model, n_round, created_at)
    }

    /// A copy of the record held under `id`.
    pub fn get_task(&self, id: &String) -> (r: Option<Task>)
        requires
            self.wf(),
        ensures
            r.is_some() == self@.contains_key(id@),
            r matches Some(t) ==> t@ == self@[id@],
    {
        match self.find(id) {
            Some(i) => Some(self.tasks[i].snapshot()),
            None => None,
        }
    }

    /// Sets the status of the record under `id`, stamping `at` as its
    /// completion time when the new status is terminal. Unknown ids and
    /// terminal records are left as they are.
    pub fn update_task_status_at(&mut self, id: &String, status: TaskStatus, at: Timestamp)
        requires
            old(self).wf(),
        ensures
            final(self).wf(),
            old(self)@.contains_key(id@) ==> final(self)@ == old(self)@.insert(
                id@,
                with_status(old(self)@[id@], status, at),
            ),
            !old(self)@.contains_key(id@) ==> final(self)@ == old(self)@,
    {
        match self.find(id) {
            None => {},
            Some(i) => {
                if !self.tasks[i].status.is_terminal() {
                    let ghost before = self.tasks@;
                    let mut t = self.tasks.remove(i);
                    t.status = status;
                    if status.is_terminal() {
                        t.completed_at = Some(at);
                    }
                    self.tasks.insert(i, t);
                    let ghost m = self.tasks@[i as int]@;
                    assert(m == with_status(before[i as int]@, status, at));
                    self.records = Ghost(self.records@.insert(id@, m));
                    proof {
                        assert(forall|j: int| 0 <= j < before.len() && j != i ==> self.tasks@[j] == before[j]);
                        assert(self.records@ =~= old(self).records@.insert(id@, m));
                        assert forall|k: Seq<char>| #[trigger] self.records@.contains_key(k) implies exists|j: int|
                            0 <= j < self.tasks@.len() && self.tasks@[j].id@ == k by {
                            let j = choose|j: int| 0 <= j < before.len() && before[j].id@ == k;
                            assert(self.tasks@[j].id@ == k);
                        }
                    }
                }
            },
        }
    }

    /// `update_task_status_at` with the current time.
    pub fn update_task_status(&mut self, id: &String, status: TaskStatus)
        requires
            old(self).wf(),
        ensures
            final(self).wf(),
            old(self)@.contains_key(id@) ==> exists|at: Timestamp| final(self)@ == old(self)@.insert(
                id@,
                #[trigger] with_status(old(self)@[id@], status, at),
            ),
            !old(self)@.contains_key(id@) ==> final(self)@ == old(self)@,
    {
        let at = now();
        self.update_task_status_at(id, status, at);
    }

    /// Appends a workspace id to the record under `id`; unknown ids are
    /// ignored.
    pub fn add_workspace_to_task(&mut self, id: &String, workspace_id: String)
        requires
            old(self).wf(),
        ensures
            final(self).wf(),
            old(self)@.contains_key(id@) ==> final(self)@ == old(self)@.insert(
                id@,
                with_workspace(old(self)@[id@], workspace_id@),
            ),
            !old(self)@.contains_key(id@) ==> final(self)@ == old(self)@,
    {
        match self.find(id) {
            None => {},
            Some(i) => {
                let ghost before = self.tasks@;
                let ghost wsv = workspace_id@;
                let mut t = self.tasks.remove(i);
                let ghost tw = t.workspaces@;
                t.workspaces.push(workspace_id);
                assert(strings_view(t.workspaces@) =~= strings_view(tw).push(wsv));
                self.tasks.insert(i, t);
                let ghost m = self.tasks@[i as int]@;
                assert(m == with_workspace(before[i as int]@, wsv));
                self.records = Ghost(self.records@.insert(id@, m));
                proof {
                    assert(forall|j: int| 0 <= j < before.len() && j != i ==> self.tasks@[j] == before[j]);
                    assert forall|k: Seq<char>| #[trigger] self.records@.contains_key(k) implies exists|j: int|
                        0 <= j < self.tasks@.len() && self.tasks@[j].id@ == k by {
                        let j = choose|j: int| 0 <= j < before.len() && before[j].id@ == k;
                        assert(self.tasks@[j].id@ == k);
                    }
                }
            },
        }
    }
}

/// The registry after creating `recs` in order, each under its own id.
pub open spec fn after_creations(
    m: Map<Seq<char>, TaskModel>,
    recs: Seq<TaskModel>,
) -> Map<Seq<char>, TaskModel>
    decreases recs.len(),
{
    if recs.len() == 0 {
        m
    } else {
        after_creations(m, recs.drop_last()).insert(recs.last().id, recs.last())
    }
}

/// Creations one after another, each under an id that was fresh when it
/// was made (as `create_task` guarantees), leave exactly one more record per
/// creation: every created record is there under its id, and every earlier
/// record is kept as it was. So the ids handed out are pairwise distinct and
/// no record is lost.
pub proof fn lemma_creations_add_one_each(m: Map<Seq<char>, TaskModel>, recs: Seq<TaskModel>)
    requires
        m.dom().finite(),
        forall|i: int|
            0 <= i < recs.len() ==> !#[trigger] after_creations(m, recs.subrange(0, i)).contains_key(
                recs[i].id,
            ),
    ensures
        after_creations(m, recs).dom().finite(),
        after_creations(m, recs).len() == m.len() + recs.len(),
        forall|i: int|
            0 <= i < recs.len() ==> #[trigger] after_creations(m, recs).contains_key(recs[i].id),
        forall|i: int| 0 <= i < recs.len() ==> #[trigger] after_creations(m, recs)[recs[i].id] == recs[i],
        forall|i: int, j: int| 0 <= i < j < recs.len() ==> recs[i].id != recs[j].id,
        forall|k: Seq<char>| #[trigger] m.contains_key(k) ==> after_creations(m, recs).contains_key(k)
            && after_creations(m, recs)[k] == m[k],
    decreases recs.len(),
{
    if recs.len() > 0 {
        let prev = recs.drop_last();
        let n = recs.len() - 1;
        assert forall|i: int| 0 <= i < prev.len() implies !#[trigger] after_creations(
            m,
            prev.subrange(0, i),
        ).contains_key(prev[i].id) by {
            assert(prev.subrange(0, i) =~= recs.subrange(0, i));
        }
        lemma_creations_add_one_each(m, prev);
        assert(recs.subrange(0, n) =~= prev);
        let before = after_creations(m, prev);
        assert(!before.contains_key(recs[n].id));
        assert forall|i: int, j: int| 0 <= i < j < recs.len() implies recs[i].id != recs[j].id by {
            if j < n {
                assert(prev[i] == recs[i] && prev[j] == recs[j]);
            } else {
                assert(before.contains_key(prev[i].id));
            }
        }
        assert(after_creations(m, recs) == before.insert(recs[n].id, recs[n]));
        assert forall|i: int| 0 <= i < recs.len() implies #[trigger] after_creations(m, recs).contains_key(
            recs[i].id,
        ) && after_creations(m, recs)[recs[i].id] == recs[i] by {
            if i < n {
                assert(prev[i] == recs[i]);
                assert(before.contains_key(prev[i].id));
                assert(before[prev[i].id] == prev[i]);
                assert(recs[i].id != recs[n].id);
            }
        }
        assert forall|i: int| 0 <= i < recs.len() implies #[trigger] after_creations(m, recs)[recs[i].id]
            == recs[i] by {
            assert(after_creations(m, recs).contains_key(recs[i].id));
        }
    }
}

} // verus!
