//! The store of tasks: a model of what each change does to the registry
//! and of what it announces, the store that implements the model, and the
//! laws that follow from it.

use crate::channel::{Subscription, UpdateChannel};
use crate::error::{result_view, A2AError, A2AErrorView, A2AResult};
use crate::json::{clone_opt_members, clone_opt_string, str_eq};
use crate::time::Timestamp;
use crate::types::{
    clone_artifacts, clone_opt_message, Artifact, ArtifactView, Task, TaskState, TaskStatus,
    TaskStatusView, TaskView,
};
use vstd::prelude::*;

verus! {

/// Model of the registry: the tasks by id.
pub type Registry = Map<Seq<char>, TaskView>;

/// The task with its status replaced.
pub open spec fn with_status(task: TaskView, status: TaskStatusView) -> TaskView {
    TaskView { status, ..task }
}

/// The task with one more artifact at the end of its artifacts, which are
/// begun if it had none.
pub open spec fn with_artifact(task: TaskView, artifact: ArtifactView) -> TaskView {
    TaskView {
        artifacts: Some(
            match task.artifacts {
                Some(list) => list.push(artifact),
                None => seq![artifact],
            },
        ),
        ..task
    }
}

/// The task as canceled at `now`: the state is `Canceled`, the instant is
/// `now`, and the message of the status stays.
pub open spec fn canceled(task: TaskView, now: Timestamp) -> TaskView {
    with_status(
        task,
        TaskStatusView { state: TaskState::Canceled, message: task.status.message, timestamp: now },
    )
}

/// Why a task in `state` is not canceled.
pub open spec fn cancel_refusal(id: Seq<char>, state: TaskState) -> Seq<char> {
    "Task "@ + id + " cannot be canceled in state "@ + state.spec_name()
}

/// Every task of the registry stands under its own id.
pub open spec fn keyed_by_id(reg: Registry) -> bool {
    forall|id: Seq<char>| reg.contains_key(id) ==> (#[trigger] reg[id]).id == id
}

/// Every task of the registry bears an instant that can be written.
pub open spec fn writable(reg: Registry) -> bool {
    forall|id: Seq<char>|
        reg.contains_key(id) ==> (#[trigger] reg[id]).status.timestamp.wire_text() is Some
}

/// What a lookup gives: the task under the id, or that there is none.
pub open spec fn fetch(reg: Registry, id: Seq<char>) -> Result<TaskView, A2AErrorView> {
    if reg.contains_key(id) {
        Ok(reg[id])
    } else {
        Err(A2AErrorView::TaskNotFound(id))
    }
}

/// A change that can be asked of the store.
pub enum Mutation {
    /// Store the task under its id, in place of any task with that id.
    Create(TaskView),
    /// Replace the status of the task with the id.
    UpdateStatus(Seq<char>, TaskStatusView),
    /// Append an artifact to the task with the id.
    AddArtifact(Seq<char>, ArtifactView),
    /// Cancel the task with the id as of the instant.
    Cancel(Seq<char>, Timestamp),
}

impl Mutation {
    /// Whether the change creates a task with the id.
    pub open spec fn creates(self, id: Seq<char>) -> bool {
        self matches Mutation::Create(task) && task.id == id
    }

    /// The id of the task that the change is about.
    pub open spec fn target(self) -> Seq<char> {
        match self {
            Mutation::Create(task) => task.id,
            Mutation::UpdateStatus(id, _) => id,
            Mutation::AddArtifact(id, _) => id,
            Mutation::Cancel(id, _) => id,
        }
    }
}

/// What a change leads to in a registry: the task as it stands afterwards,
/// or the reason why nothing was changed.
///
/// Creation always succeeds. A change of status or of artifacts needs the
/// task to exist and is not held against its state. Cancellation needs the
/// task to exist and to be in a cancelable state.
pub open spec fn outcome(reg: Registry, m: Mutation) -> Result<TaskView, A2AErrorView> {
    match m {
        Mutation::Create(task) => Ok(task),
        Mutation::UpdateStatus(id, status) => if reg.contains_key(id) {
            Ok(with_status(reg[id], status))
        } else {
            Err(A2AErrorView::TaskNotFound(id))
        },
        Mutation::AddArtifact(id, artifact) => if reg.contains_key(id) {
            Ok(with_artifact(reg[id], artifact))
        } else {
            Err(A2AErrorView::TaskNotFound(id))
        },
        Mutation::Cancel(id, now) => if !reg.contains_key(id) {
            Err(A2AErrorView::TaskNotFound(id))
        } else if reg[id].status.state.spec_is_cancelable() {
            Ok(canceled(reg[id], now))
        } else {
            Err(A2AErrorView::TaskNotCancelable(cancel_refusal(id, reg[id].status.state)))
        },
    }
}

/// The registry after a change was asked for: with the changed task in
/// place, or as it was if the change was refused.
pub open spec fn apply(reg: Registry, m: Mutation) -> Registry {
    match outcome(reg, m) {
        Ok(task) => reg.insert(m.target(), task),
        Err(_) => reg,
    }
}

/// What is announced when a change is asked for: the changed task, or
/// nothing if the change was refused.
pub open spec fn announced(reg: Registry, m: Mutation) -> Seq<TaskView> {
    match outcome(reg, m) {
        Ok(task) => seq![task],
        Err(_) => Seq::empty(),
    }
}

/// The registry after a series of changes was asked for, one after the
/// other.
pub open spec fn apply_all(reg: Registry, changes: Seq<Mutation>) -> Registry
    decreases changes.len(),
{
    if changes.len() == 0 {
        reg
    } else {
        apply(apply_all(reg, changes.drop_last()), changes.last())
    }
}

/// All that is announced while a series of changes is asked for.
pub open spec fn announced_all(reg: Registry, changes: Seq<Mutation>) -> Seq<TaskView>
    decreases changes.len(),
{
    if changes.len() == 0 {
        Seq::empty()
    } else {
        announced_all(reg, changes.drop_last()) + announced(
            apply_all(reg, changes.drop_last()),
            changes.last(),
        )
    }
}

/// No two tasks of the list have the same id.
spec fn ids_distinct(tasks: Seq<TaskView>) -> bool {
    forall|i: int, j: int| 0 <= i < j < tasks.len() ==> tasks[i].id != tasks[j].id
}

/// Every task of the list bears an instant that can be written.
spec fn all_written(tasks: Seq<TaskView>) -> bool {
    forall|i: int| 0 <= i < tasks.len() ==> (#[trigger] tasks[i]).status.timestamp.wire_text() is Some
}

/// Whether some task of the list has the id.
spec fn has_id(tasks: Seq<TaskView>, id: Seq<char>) -> bool {
    exists|i: int| 0 <= i < tasks.len() && #[trigger] tasks[i].id == id
}

/// The list as a registry: each task under its id.
spec fn registry(tasks: Seq<TaskView>) -> Registry {
    Map::new(
        |id: Seq<char>| has_id(tasks, id),
        |id: Seq<char>| tasks[choose|i: int| 0 <= i < tasks.len() && #[trigger] tasks[i].id == id],
    )
}

/// In a list of distinct ids, each task is what the registry holds under
/// its id.
proof fn lemma_registry_at(tasks: Seq<TaskView>, i: int)
    requires
        ids_distinct(tasks),
        0 <= i < tasks.len(),
    ensures
        registry(tasks).contains_key(tasks[i].id),
        registry(tasks)[tasks[i].id] == tasks[i],
{
    let id = tasks[i].id;
    let c = choose|k: int| 0 <= k < tasks.len() && #[trigger] tasks[k].id == id;
    assert(c == i) by {
        if c < i {
            assert(tasks[c].id != tasks[i].id);
        } else if i < c {
            assert(tasks[i].id != tasks[c].id);
        }
    }
}

/// The registry of a list in which every task can be written holds only
/// tasks that can be written.
proof fn lemma_registry_writable(tasks: Seq<TaskView>)
    requires
        all_written(tasks),
    ensures
        writable(registry(tasks)),
{
    assert forall|id: Seq<char>| registry(tasks).contains_key(id) implies (#[trigger] registry(
        tasks,
    )[id]).status.timestamp.wire_text() is Some by {
        let k = choose|k: int| 0 <= k < tasks.len() && #[trigger] tasks[k].id == id;
        assert(tasks[k].status.timestamp.wire_text() is Some);
    }
}

/// A task with a new id, put at the end of the list, is inserted into the
/// registry.
proof fn lemma_registry_push(tasks: Seq<TaskView>, task: TaskView)
    requires
        ids_distinct(tasks),
        !has_id(tasks, task.id),
    ensures
        ids_distinct(tasks.push(task)),
        registry(tasks.push(task)) == registry(tasks).insert(task.id, task),
{
    let after = tasks.push(task);
    assert(ids_distinct(after)) by {
        assert forall|i: int, j: int| 0 <= i < j < after.len() implies after[i].id
            != after[j].id by {
            if j == tasks.len() {
                assert(tasks[i].id == after[i].id);
            }
        }
    }
    assert forall|id: Seq<char>| has_id(after, id) <==> (has_id(tasks, id) || id == task.id) by {
        if has_id(after, id) {
            let k = choose|k: int| 0 <= k < after.len() && #[trigger] after[k].id == id;
            if k < tasks.len() {
                assert(tasks[k].id == id);
            }
        }
        if has_id(tasks, id) {
            let k = choose|k: int| 0 <= k < tasks.len() && #[trigger] tasks[k].id == id;
            assert(after[k].id == id);
        }
        if id == task.id {
            assert(after[tasks.len() as int].id == id);
        }
    }
    assert forall|id: Seq<char>| has_id(after, id) implies #[trigger] registry(after)[id]
        == registry(tasks).insert(task.id, task)[id] by {
        let k = choose|k: int| 0 <= k < after.len() && #[trigger] after[k].id == id;
        lemma_registry_at(after, k);
        if k < tasks.len() {
            assert(tasks[k].id == id);
            lemma_registry_at(tasks, k);
        }
    }
    assert(registry(after) =~= registry(tasks).insert(task.id, task));
}

/// A task put in the place of the task with its id replaces that task in
/// the registry.
proof fn lemma_registry_update(tasks: Seq<TaskView>, i: int, task: TaskView)
    requires
        ids_distinct(tasks),
        0 <= i < tasks.len(),
        tasks[i].id == task.id,
    ensures
        ids_distinct(tasks.update(i, task)),
        registry(tasks.update(i, task)) == registry(tasks).insert(task.id, task),
{
    let after = tasks.update(i, task);
    assert forall|k: int| 0 <= k < tasks.len() implies #[trigger] after[k].id == tasks[k].id by {}
    assert(ids_distinct(after)) by {
        assert forall|a: int, b: int| 0 <= a < b < after.len() implies after[a].id
            != after[b].id by {
            assert(after[a].id == tasks[a].id);
            assert(after[b].id == tasks[b].id);
        }
    }
    assert forall|id: Seq<char>| has_id(after, id) <==> has_id(tasks, id) by {
        if has_id(after, id) {
            let k = choose|k: int| 0 <= k < after.len() && #[trigger] after[k].id == id;
            assert(tasks[k].id == id);
        }
        if has_id(tasks, id) {
            let k = choose|k: int| 0 <= k < tasks.len() && #[trigger] tasks[k].id == id;
            assert(after[k].id == id);
        }
    }
    assert(has_id(tasks, task.id)) by {
        assert(tasks[i].id == task.id);
    }
    assert forall|id: Seq<char>| has_id(after, id) implies #[trigger] registry(after)[id]
        == registry(tasks).insert(task.id, task)[id] by {
        let k = choose|k: int| 0 <= k < after.len() && #[trigger] after[k].id == id;
        lemma_registry_at(after, k);
        assert(tasks[k].id == id);
        lemma_registry_at(tasks, k);
    }
    assert(registry(after) =~= registry(tasks).insert(task.id, task));
}

/// The tasks themselves: a list in which each id occurs once, and in which
/// every task bears an instant that can be written.
///
/// The tasks are found by their ids, which are strings. They stand in a
/// list and not in a hash map, because vstd gives strings no model as keys
/// of a hash map, so that nothing could be proved of such a map.
struct TaskTable {
    tasks: Vec<Task>,
}

impl TaskTable {
    #[verifier::type_invariant]
    spec fn ids_occur_once(self) -> bool {
        &&& ids_distinct(self.tasks.deep_view())
        &&& all_written(self.tasks.deep_view())
    }

    /// The list as a registry.
    spec fn view(&self) -> Registry {
        registry(self.tasks.deep_view())
    }

    /// A list without tasks.
    fn new() -> (table: Self)
        ensures
            table.view() == Map::<Seq<char>, TaskView>::empty(),
    {
        let tasks: Vec<Task> = Vec::new();
        assert(tasks.deep_view() =~= Seq::empty());
        assert(registry(tasks.deep_view()) =~= Map::empty());
        TaskTable { tasks }
    }

    /// Where in the list the task with this id stands.
    fn position(&self, id: &str) -> (r: Option<usize>)
        ensures
            match r {
                Some(i) => i < self.tasks.len() && self.tasks.deep_view()[i as int].id == id@
                    && self.view().contains_key(id@) && self.view()[id@]
                    == self.tasks.deep_view()[i as int],
                None => !self.view().contains_key(id@),
            },
            writable(self.view()),
    {
        proof {
            use_type_invariant(self);
            lemma_registry_writable(self.tasks.deep_view());
        }
        let mut i: usize = 0;
        while i < self.tasks.len()
            invariant
                i <= self.tasks.len(),
                ids_distinct(self.tasks.deep_view()),
                writable(self.view()),
                forall|k: int| 0 <= k < i ==> self.tasks.deep_view()[k].id != id@,
            decreases self.tasks.len() - i,
        {
            if str_eq(self.tasks[i].id.as_str(), id) {
                proof {
                    lemma_registry_at(self.tasks.deep_view(), i as int);
                }
                return Some(i);
            }
            i += 1;
        }
        None
    }

    /// The task at a position of the list.
    fn at(&self, i: usize) -> (task: &Task)
        requires
            i < self.tasks.len(),
        ensures
            task@ == self.tasks.deep_view()[i as int],
    {
        &self.tasks[i]
    }

    /// Puts `task` at position `at` of the list, where a task with the same
    /// id stands, or at its end when `at` is `None` and no task has that id.
    fn put(&mut self, at: Option<usize>, task: Task)
        requires
            match at {
                Some(i) => i < old(self).tasks.len() && old(self).tasks.deep_view()[i as int].id
                    == task@.id,
                None => !old(self).view().contains_key(task@.id),
            },
        ensures
            final(self).view() == old(self).view().insert(task@.id, task@),
            writable(final(self).view()),
    {
        proof {
            use_type_invariant(&*self);
            use_type_invariant(&task.status.timestamp);
        }
        let ghost before = self.tasks.deep_view();
        let mut tasks: Vec<Task> = Vec::new();
        proof {
            assert(tasks.deep_view() =~= Seq::empty());
        }
        std::mem::swap(&mut tasks, &mut self.tasks);
        match at {
            Some(i) => {
                tasks.set(i, task);
                proof {
                    assert(tasks.deep_view() =~= before.update(i as int, task@));
                    lemma_registry_update(before, i as int, task@);
                }
            },
            None => {
                tasks.push(task);
                proof {
                    assert(tasks.deep_view() =~= before.push(task@));
                    lemma_registry_push(before, task@);
                }
            },
        }
        proof {
            lemma_registry_writable(tasks.deep_view());
        }
        self.tasks = tasks;
    }
}

/// The registry of tasks, with the channel on which it announces every
/// change.
///
/// A store is owned by whoever changes it: a change borrows it exclusively
/// from its first step to its last, so no reader sees half of one.
pub struct TaskStore {
    tasks: TaskTable,
    task_updates: UpdateChannel,
}

impl View for TaskStore {
    type V = Registry;

    closed spec fn view(&self) -> Registry {
        self.tasks.view()
    }
}

impl TaskStore {
    /// The snapshots announced so far, oldest first.
    pub closed spec fn published(&self) -> Seq<TaskView> {
        self.task_updates.sent()
    }

    /// The channel on which the store announces its changes. No change to
    /// the store changes its channel.
    pub closed spec fn channel(&self) -> int {
        self.task_updates.id()
    }

    /// A store without tasks that has announced nothing.
    pub fn new() -> (store: Self)
        ensures
            store@ == Map::<Seq<char>, TaskView>::empty(),
            store.published() == Seq::<TaskView>::empty(),
            writable(store@),
    {
        TaskStore { tasks: TaskTable::new(), task_updates: UpdateChannel::new() }
    }

    /// A new subscriber to the channel of this store: what the store
    /// announces from now on is due to it, and nothing of what was
    /// announced before. Subscribing changes no task and announces nothing.
    pub fn subscribe(&self) -> (sub: Subscription)
        ensures
            sub.channel() == self.channel(),
            sub.start() == self.published().len(),
    {
        self.task_updates.subscribe()
    }

    /// The view of a store is keyed by the ids of its tasks.
    pub proof fn lemma_keyed_by_id(&self)
        ensures
            keyed_by_id(self@),
    {
        let tasks = self.tasks.tasks.deep_view();
        assert forall|id: Seq<char>| self@.contains_key(id) implies (#[trigger] self@[id]).id
            == id by {
            let k = choose|k: int| 0 <= k < tasks.len() && #[trigger] tasks[k].id == id;
            assert(tasks[k].id == id);
        }
    }

    /// The current record of the task with this id.
    pub fn get_task(&self, id: &str) -> (r: A2AResult<Task>)
        ensures
            result_view(r) == fetch(self@, id@),
            r is Ok ==> r->Ok_0@.id == id@,
            writable(self@),
    {
        match self.tasks.position(id) {
            Some(i) => Ok(self.tasks.at(i).clone()),
            None => Err(A2AError::TaskNotFound(String::from_str(id))),
        }
    }

    /// Puts `task` where `at` says (see [`TaskTable::put`]) and announces it.
    fn store_and_announce(&mut self, at: Option<usize>, task: Task) -> (snapshot: Task)
        requires
            match at {
                Some(i) => i < old(self).tasks.tasks.len() && old(
                    self,
                ).tasks.tasks.deep_view()[i as int].id == task@.id,
                None => !old(self)@.contains_key(task@.id),
            },
        ensures
            snapshot@ == task@,
            final(self)@ == old(self)@.insert(task@.id, task@),
            final(self).channel() == old(self).channel(),
            writable(final(self)@),
            final(self).published() == old(self).published().push(task@),
    {
        let snapshot = task.clone();
        let announced = task.clone();
        self.tasks.put(at, task);
        let _ = self.task_updates.publish(announced);
        snapshot
    }

    /// Stores `task` under its id, in place of any task that had this id,
    /// announces it and returns it.
    pub fn create_task(&mut self, task: Task) -> (r: A2AResult<Task>)
        ensures
            result_view(r) == outcome(old(self)@, Mutation::Create(task@)),
            final(self)@ == apply(old(self)@, Mutation::Create(task@)),
            final(self).channel() == old(self).channel(),
            writable(final(self)@),
            final(self).published() == old(self).published() + announced(
                old(self)@,
                Mutation::Create(task@),
            ),
    {
        let at = self.tasks.position(task.id.as_str());
        Ok(self.store_and_announce(at, task))
    }

    /// Replaces the status of the task with this id, whatever both are,
    /// announces the task and returns it.
    pub fn update_task_status(&mut self, id: &str, status: TaskStatus) -> (r: A2AResult<Task>)
        ensures
            result_view(r) == outcome(old(self)@, Mutation::UpdateStatus(id@, status@)),
            final(self)@ == apply(old(self)@, Mutation::UpdateStatus(id@, status@)),
            final(self).channel() == old(self).channel(),
            writable(final(self)@),
            final(self).published() == old(self).published() + announced(
                old(self)@,
                Mutation::UpdateStatus(id@, status@),
            ),
    {
        match self.tasks.position(id) {
            Some(i) => {
                let current = self.tasks.at(i);
                let task = Task {
                    id: current.id.clone(),
                    session_id: clone_opt_string(&current.session_id),
                    status,
                    artifacts: match &current.artifacts {
                        Some(list) => Some(clone_artifacts(list)),
                        None => None,
                    },
                    metadata: clone_opt_members(&current.metadata),
                };
                Ok(self.store_and_announce(Some(i), task))
            },
            None => Err(A2AError::TaskNotFound(String::from_str(id))),
        }
    }

    /// Appends an artifact to the artifacts of the task with this id,
    /// announces the task and returns it.
    pub fn add_artifact(&mut self, id: &str, artifact: Artifact) -> (r: A2AResult<Task>)
        ensures
            result_view(r) == outcome(old(self)@, Mutation::AddArtifact(id@, artifact@)),
            final(self)@ == apply(old(self)@, Mutation::AddArtifact(id@, artifact@)),
            final(self).channel() == old(self).channel(),
            writable(final(self)@),
            final(self).published() == old(self).published() + announced(
                old(self)@,
                Mutation::AddArtifact(id@, artifact@),
            ),
    {
        match self.tasks.position(id) {
            Some(i) => {
                let mut task = self.tasks.at(i).clone();
                let mut artifacts = match task.artifacts {
                    Some(list) => list,
                    None => Vec::new(),
                };
                let ghost before = artifacts.deep_view();
                artifacts.push(artifact);
                proof {
                    assert(artifacts.deep_view() =~= before.push(artifact@));
                    if old(self)@[id@].artifacts is None {
                        assert(before =~= Seq::empty());
                        assert(before.push(artifact@) =~= seq![artifact@]);
                    }
                }
                task.artifacts = Some(artifacts);
                Ok(self.store_and_announce(Some(i), task))
            },
            None => Err(A2AError::TaskNotFound(String::from_str(id))),
        }
    }

    /// Cancels the task with this id as of `now` if it is in a cancelable
    /// state, announces it and returns it; in any other state, and where no
    /// task has the id, nothing is changed and nothing is announced.
    pub fn cancel_task_at(&mut self, id: &str, now: Timestamp) -> (r: A2AResult<Task>)
        ensures
            result_view(r) == outcome(old(self)@, Mutation::Cancel(id@, now)),
            final(self)@ == apply(old(self)@, Mutation::Cancel(id@, now)),
            final(self).channel() == old(self).channel(),
            writable(final(self)@),
            final(self).published() == old(self).published() + announced(
                old(self)@,
                Mutation::Cancel(id@, now),
            ),
    {
        match self.tasks.position(id) {
            Some(i) => {
                let current = self.tasks.at(i);
                let state = current.status.state;
                if state.is_cancelable() {
                    let mut task = current.clone();
                    task.status = TaskStatus {
                        state: TaskState::Canceled,
                        message: clone_opt_message(&current.status.message),
                        timestamp: now,
                    };
                    Ok(self.store_and_announce(Some(i), task))
                } else {
                    let mut detail = String::from_str("Task ");
                    detail.append(id);
                    detail.append(" cannot be canceled in state ");
                    detail.append(state.name());
                    Err(A2AError::TaskNotCancelable(detail))
                }
            },
            None => Err(A2AError::TaskNotFound(String::from_str(id))),
        }
    }

    /// Cancels the task with this id as of the current instant: see
    /// [`TaskStore::cancel_task_at`]. The instant of the cancellation is the
    /// one in the status of the task that is returned; it is a reading of
    /// the clock, which can be written.
    pub fn cancel_task(&mut self, id: &str) -> (r: A2AResult<Task>)
        ensures
            r is Ok ==> instant_of(r).wire_text() is Some && instant_of(r).spec_nanos()
                < 1_000_000_000,
            result_view(r) == outcome(old(self)@, Mutation::Cancel(id@, instant_of(r))),
            final(self)@ == apply(old(self)@, Mutation::Cancel(id@, instant_of(r))),
            final(self).channel() == old(self).channel(),
            writable(final(self)@),
            final(self).published() == old(self).published() + announced(
                old(self)@,
                Mutation::Cancel(id@, instant_of(r)),
            ),
    {
        let now = Timestamp::now();
        let r = self.cancel_task_at(id, now);
        proof {
            let past = Mutation::Cancel(id@, now);
            let told = Mutation::Cancel(id@, instant_of(r));
            assert(outcome(old(self)@, past) == outcome(old(self)@, told));
        }
        r
    }
}

/// One more change in a series is applied to what the series before it
/// leaves, and what it announces comes after what was announced before.
pub proof fn lemma_next_change(reg: Registry, changes: Seq<Mutation>, k: int)
    requires
        0 <= k < changes.len(),
    ensures
        apply_all(reg, changes.take(k + 1)) == apply(
            apply_all(reg, changes.take(k)),
            changes[k],
        ),
        announced_all(reg, changes.take(k + 1)) == announced_all(reg, changes.take(k)) + announced(
            apply_all(reg, changes.take(k)),
            changes[k],
        ),
        apply_all(reg, changes.take(0)) == reg,
        announced_all(reg, changes.take(0)) == Seq::<TaskView>::empty(),
{
    let upto = changes.take(k + 1);
    assert(upto.drop_last() =~= changes.take(k));
    assert(upto.last() == changes[k]);
}

/// The instant in the status of the task of a result; for a failure, the
/// start of the epoch.
pub open spec fn instant_of(r: A2AResult<Task>) -> Timestamp {
    match r {
        Ok(task) => task@.status.timestamp,
        Err(_) => Timestamp::of_parts(0, 0),
    }
}

/// An id that no task has is not found.
pub proof fn law_unknown_id_not_found(reg: Registry, id: Seq<char>)
    requires
        !reg.contains_key(id),
    ensures
        fetch(reg, id) == Err::<TaskView, A2AErrorView>(A2AErrorView::TaskNotFound(id)),
        fetch(Map::<Seq<char>, TaskView>::empty(), id) == Err::<TaskView, A2AErrorView>(
            A2AErrorView::TaskNotFound(id),
        ),
{
}

/// An id stays unknown through every series of changes that creates no task
/// with it.
pub proof fn law_unknown_until_created(reg: Registry, changes: Seq<Mutation>, id: Seq<char>)
    requires
        !reg.contains_key(id),
        forall|k: int| 0 <= k < changes.len() ==> !(#[trigger] changes[k]).creates(id),
    ensures
        !apply_all(reg, changes).contains_key(id),
        fetch(apply_all(reg, changes), id) == Err::<TaskView, A2AErrorView>(
            A2AErrorView::TaskNotFound(id),
        ),
    decreases changes.len(),
{
    if changes.len() > 0 {
        let earlier = changes.drop_last();
        assert forall|k: int| 0 <= k < earlier.len() implies !(#[trigger] earlier[k]).creates(
            id,
        ) by {
            assert(earlier[k] == changes[k]);
        }
        law_unknown_until_created(reg, earlier, id);
        let last = changes.last();
        assert(last == changes[changes.len() - 1]);
    }
}

/// A task that was created is found under its id, exactly as it was given.
pub proof fn law_created_task_is_found(reg: Registry, task: TaskView)
    ensures
        outcome(reg, Mutation::Create(task)) == Ok::<TaskView, A2AErrorView>(task),
        fetch(apply(reg, Mutation::Create(task)), task.id) == Ok::<TaskView, A2AErrorView>(task),
{
}

/// Cancellation succeeds exactly for a task in a cancelable state. For a
/// task in any other state it is refused as not cancelable, and a refusal
/// leaves the registry as it was and announces nothing. A task that was
/// canceled is not cancelable any more.
pub proof fn law_cancel(reg: Registry, id: Seq<char>, now: Timestamp, later: Timestamp)
    requires
        reg.contains_key(id),
    ensures
        outcome(reg, Mutation::Cancel(id, now)) is Ok
            <==> reg[id].status.state.spec_is_cancelable(),
        outcome(reg, Mutation::Cancel(id, now)) is Ok ==> {
            &&& fetch(apply(reg, Mutation::Cancel(id, now)), id) matches Ok(task)
            &&& task.status.state == TaskState::Canceled
            &&& outcome(apply(reg, Mutation::Cancel(id, now)), Mutation::Cancel(id, later))
                matches Err(e)
            &&& e is TaskNotCancelable
        },
        outcome(reg, Mutation::Cancel(id, now)) matches Err(e) ==> {
            &&& e is TaskNotCancelable
            &&& apply(reg, Mutation::Cancel(id, now)) == reg
            &&& announced(reg, Mutation::Cancel(id, now)) == Seq::<TaskView>::empty()
        },
{
}

/// A registry that is keyed by the ids of its tasks stays so through every
/// change.
pub proof fn law_keyed_by_id_is_kept(reg: Registry, m: Mutation)
    requires
        keyed_by_id(reg),
    ensures
        keyed_by_id(apply(reg, m)),
{
    assert forall|id: Seq<char>| apply(reg, m).contains_key(id) implies (#[trigger] apply(
        reg,
        m,
    )[id]).id == id by {
        if id != m.target() {
            assert(reg.contains_key(id));
        } else if reg.contains_key(id) {
            assert(reg[id].id == id);
        }
    }
}

/// A change to one task leaves every other task as it was.
pub proof fn law_other_tasks_untouched(reg: Registry, m: Mutation, id: Seq<char>)
    requires
        m.target() != id,
    ensures
        fetch(apply(reg, m), id) == fetch(reg, id),
{
}

/// The status that was written last is the status that is read, whatever
/// was asked of other tasks in between.
pub proof fn law_read_after_write(
    reg: Registry,
    id: Seq<char>,
    status: TaskStatusView,
    others: Seq<Mutation>,
)
    requires
        reg.contains_key(id),
        forall|k: int| 0 <= k < others.len() ==> (#[trigger] others[k]).target() != id,
    ensures
        fetch(apply_all(apply(reg, Mutation::UpdateStatus(id, status)), others), id) matches Ok(
            task,
        ) && task == with_status(reg[id], status) && task.status == status,
    decreases others.len(),
{
    if others.len() > 0 {
        let earlier = others.drop_last();
        assert forall|k: int| 0 <= k < earlier.len() implies (#[trigger] earlier[k]).target()
            != id by {
            assert(earlier[k] == others[k]);
        }
        law_read_after_write(reg, id, status, earlier);
        assert(others.last() == others[others.len() - 1]);
        law_other_tasks_untouched(
            apply_all(apply(reg, Mutation::UpdateStatus(id, status)), earlier),
            others.last(),
            id,
        );
    }
}

/// Each change that succeeds is announced once, as the task stands after
/// it, and a change that is refused is not announced.
pub proof fn law_one_announcement_per_change(reg: Registry, m: Mutation)
    ensures
        outcome(reg, m) matches Ok(task) ==> announced(reg, m) == seq![task] && fetch(
            apply(reg, m),
            m.target(),
        ) == Ok::<TaskView, A2AErrorView>(task),
        outcome(reg, m) is Err ==> announced(reg, m) == Seq::<TaskView>::empty() && apply(reg, m)
            == reg,
{
}

/// Over a series of changes there are as many announcements as changes
/// that succeeded, in the order of the changes.
pub proof fn law_announcements_follow_changes(reg: Registry, changes: Seq<Mutation>)
    ensures
        announced_all(reg, changes).len() == successes(reg, changes),
    decreases changes.len(),
{
    if changes.len() > 0 {
        law_announcements_follow_changes(reg, changes.drop_last());
    }
}

/// What is due to a subscription that was made when the store had
/// announced `published`, after a series of changes since: what the series
/// announces, one snapshot for each change that succeeded, in the order of
/// the changes, and nothing of what was announced before.
pub proof fn law_subscriber_is_due_each_change(
    sub: Subscription,
    published: Seq<TaskView>,
    reg: Registry,
    changes: Seq<Mutation>,
)
    requires
        sub.start() == published.len(),
    ensures
        sub.due(published) == Seq::<TaskView>::empty(),
        sub.due(published + announced_all(reg, changes)) == announced_all(reg, changes),
        sub.due(published + announced_all(reg, changes)).len() == successes(reg, changes),
{
    law_announcements_follow_changes(reg, changes);
    assert(published.skip(published.len() as int) =~= Seq::<TaskView>::empty());
    assert((published + announced_all(reg, changes)).skip(published.len() as int)
        =~= announced_all(reg, changes));
}

/// How many changes of a series succeed.
pub open spec fn successes(reg: Registry, changes: Seq<Mutation>) -> nat
    decreases changes.len(),
{
    if changes.len() == 0 {
        0
    } else {
        successes(reg, changes.drop_last()) + if outcome(
            apply_all(reg, changes.drop_last()),
            changes.last(),
        ) is Ok {
            1nat
        } else {
            0nat
        }
    }
}

} // verus!
