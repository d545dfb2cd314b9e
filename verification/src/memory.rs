//! A store that keeps its tasks in memory, in an [`im::Vector`].

use vstd::prelude::*;
use vstd::string::*;
use crate::error::{StorageError, StorageFault, StorageFaultView, StorageOperation};
use crate::model::{
    clone_env, clone_option, env_view, option_view, StatusView, Task, TaskId, TaskIdView, TaskStatus,
    TaskView,
};
use crate::ports::TaskStoragePort;
use crate::store::{
    changed_at, clashes, distinct, known, lemma_completed_distinct, lemma_saved_distinct,
    next_status, resolves, Record,
};

verus! {

#[verifier::external_type_specification]
#[verifier::external_body]
#[verifier::reject_recursive_types(A)]
pub struct ExVector<A>(im::Vector<A>);

/// A task as the store keeps it: its fields and its current status.
#[derive(Debug, PartialEq)]
pub struct StoredTask {
    pub id: String,
    pub name: Option<String>,
    pub command: String,
    pub env: Option<im::HashMap<String, String>>,
    pub status: TaskStatus,
}

impl View for StoredTask {
    type V = Record;

    open spec fn view(&self) -> Record {
        Record {
            task: TaskView {
                id: self.id@,
                name: option_view(self.name),
                command: self.command@,
                env: env_view(self.env),
            },
            status: self.status@,
        }
    }
}

impl Clone for StoredTask {
    fn clone(&self) -> (copy: StoredTask)
        ensures
            copy@ == self@,
    {
        StoredTask {
            id: self.id.clone(),
            name: clone_option(&self.name),
            command: self.command.clone(),
            env: clone_env(&self.env),
            status: self.status.clone(),
        }
    }
}

impl StoredTask {
    /// The stored form of a task that was just submitted: scheduled.
    pub fn from(task: &Task) -> (stored: StoredTask)
        ensures
            stored@ == (Record { task: task@, status: StatusView::Scheduled }),
    {
        StoredTask {
            id: task.id.clone(),
            name: clone_option(&task.name),
            command: task.command.clone(),
            env: clone_env(&task.env),
            status: TaskStatus::Scheduled,
        }
    }

    /// Whether `other` refers to the stored task.
    pub fn eq(&self, other: &TaskId) -> (same: bool)
        ensures
            same == self@.answers_to(other@),
    {
        match other {
            TaskId::Id(id) => self.id == *id,
            TaskId::Name(name) => match &self.name {
                Some(own) => *own == *name,
                None => false,
            },
        }
    }

    /// Whether `task` cannot be stored beside the stored one: it has the
    /// same identifier, or a name that the stored one has too.
    pub fn clashes_with(&self, task: &Task) -> (clash: bool)
        ensures
            clash == self@.clashes_with(task@),
    {
        if self.id == task.id {
            return true;
        }
        match &task.name {
            Some(wanted) => match &self.name {
                Some(own) => *own == *wanted,
                None => false,
            },
            None => false,
        }
    }

    /// The same task under another status.
    pub fn with_status(&self, status: TaskStatus) -> (stored: StoredTask)
        ensures
            stored@ == (Record { task: self@.task, status: status@ }),
    {
        StoredTask {
            id: self.id.clone(),
            name: clone_option(&self.name),
            command: self.command.clone(),
            env: clone_env(&self.env),
            status,
        }
    }
}

/// The records that a vector of stored tasks holds, first to last.
pub uninterp spec fn stored_records(tasks: im::Vector<StoredTask>) -> Seq<Record>;

/// Calls `im::Vector::new`: a vector that holds nothing.
#[verifier::external_body]
fn vector_new() -> (tasks: im::Vector<StoredTask>)
    ensures
        stored_records(tasks) == Seq::<Record>::empty(),
{
    im::Vector::new()
}

/// Calls `im::Vector::len`: the number of tasks held.
#[verifier::external_body]
fn vector_len(tasks: &im::Vector<StoredTask>) -> (count: usize)
    ensures
        count == stored_records(*tasks).len(),
{
    tasks.len()
}

/// Calls `im::Vector::get`: the task at `index`, or `None` from the length
/// of the vector on.
#[verifier::external_body]
fn vector_get(tasks: &im::Vector<StoredTask>, index: usize) -> (found: Option<&StoredTask>)
    ensures
        match found {
            Some(stored) => index < stored_records(*tasks).len() && stored@ == stored_records(
                *tasks,
            )[index as int],
            None => index >= stored_records(*tasks).len(),
        },
{
    tasks.get(index)
}

/// Calls `im::Vector::push_back`: the vector gains `stored` as its last
/// task.
#[verifier::external_body]
fn vector_push_back(tasks: &mut im::Vector<StoredTask>, stored: StoredTask)
    ensures
        stored_records(*final(tasks)) == stored_records(*old(tasks)).push(stored@),
{
    tasks.push_back(stored)
}

/// Calls `im::Vector::set`, which panics past the end of the vector: the
/// task at `index` is replaced by `stored`.
#[verifier::external_body]
fn vector_set(tasks: &mut im::Vector<StoredTask>, index: usize, stored: StoredTask)
    requires
        index < stored_records(*old(tasks)).len(),
    ensures
        stored_records(*final(tasks)) == stored_records(*old(tasks)).update(index as int, stored@),
{
    tasks.set(index, stored);
}

/// The first index from `from` on whose record answers to `id`, or the
/// number of records where none does.
pub open spec fn next_answer(records: Seq<Record>, id: TaskIdView, from: int) -> int
    decreases records.len() - from,
{
    if from < 0 || from >= records.len() {
        records.len() as int
    } else if records[from].answers_to(id) {
        from
    } else {
        next_answer(records, id, from + 1)
    }
}

/// A store that lives as long as the process.
pub struct InMemoryStorageAdapter {
    tasks: im::Vector<StoredTask>,
}

impl InMemoryStorageAdapter {
    /// A store that holds no task.
    pub fn new() -> (store: InMemoryStorageAdapter)
        ensures
            store.records() == Seq::<Record>::empty(),
            distinct(store.records()),
    {
        InMemoryStorageAdapter { tasks: vector_new() }
    }

    /// A store that holds `tasks`, in their order, as they are.
    pub fn with_tasks(tasks: Vec<StoredTask>) -> (store: InMemoryStorageAdapter)
        ensures
            store.records() == Seq::new(tasks@.len(), |i: int| tasks@[i]@),
    {
        let mut held = vector_new();
        let mut i: usize = 0;
        while i < tasks.len()
            invariant
                0 <= i <= tasks.len(),
                stored_records(held) == Seq::new(i as nat, |k: int| tasks@[k]@),
            decreases tasks.len() - i,
        {
            vector_push_back(&mut held, tasks[i].clone());
            proof {
                assert(Seq::new(i as nat, |k: int| tasks@[k]@).push(tasks@[i as int]@) =~= Seq::new(
                    (i + 1) as nat,
                    |k: int| tasks@[k]@,
                ));
            }
            i = i + 1;
        }
        InMemoryStorageAdapter { tasks: held }
    }

    /// The index of the first stored task that `id` refers to, or the number
    /// of stored tasks where there is none.
    pub fn position(&self, id: &TaskId) -> (index: usize)
        ensures
            index == next_answer(self.records(), id@, 0),
            index <= self.records().len(),
    {
        let index = self.position_from(id, 0);
        proof {
            lemma_next_answer(self.records(), id@, 0, index as int);
        }
        index
    }

    /// The index of the first stored task from `from` on that `id` refers
    /// to, or the number of stored tasks where there is none.
    fn position_from(&self, id: &TaskId, from: usize) -> (index: usize)
        requires
            from <= self.records().len(),
        ensures
            from <= index <= self.records().len(),
            forall|k: int| from <= k < index ==> !(#[trigger] self.records()[k]).answers_to(id@),
            index < self.records().len() ==> self.records()[index as int].answers_to(id@),
    {
        let count = vector_len(&self.tasks);
        let mut index = from;
        while index < count
            invariant
                count == self.records().len(),
                from <= index <= count,
                forall|k: int| from <= k < index ==> !(#[trigger] self.records()[k]).answers_to(id@),
            decreases count - index,
        {
            match vector_get(&self.tasks, index) {
                Some(stored) => {
                    if stored.eq(id) {
                        return index;
                    }
                },
                None => {},
            }
            index = index + 1;
        }
        index
    }

    /// The one stored task that `id` refers to: `NotFound` where there is
    /// none, `Ambiguous` where there are several.
    pub fn find_only_one(&self, id: &TaskId) -> (found: Result<&StoredTask, StorageFault>)
        ensures
            match found {
                Ok(stored) => exists|i: int|
                    resolves(self.records(), id@, i) && (#[trigger] self.records()[i]) == stored@,
                Err(StorageFault::NotFound) => !known(self.records(), id@),
                Err(StorageFault::Ambiguous) => known(self.records(), id@) && !exists|i: int|
                    resolves(self.records(), id@, i),
                Err(StorageFault::Backend(_)) => false,
            },
    {
        let count = vector_len(&self.tasks);
        let first = self.position_from(id, 0);
        if first >= count {
            return Err(StorageFault::NotFound);
        }
        let second = self.position_from(id, first + 1);
        if second < count {
            proof {
                assert forall|i: int| !resolves(self.records(), id@, i) by {
                    if resolves(self.records(), id@, i) {
                        if i == first {
                            assert(self.records()[second as int].answers_to(id@));
                        } else {
                            assert(self.records()[first as int].answers_to(id@));
                        }
                    }
                }
            }
            return Err(StorageFault::Ambiguous);
        }
        match vector_get(&self.tasks, first) {
            Some(stored) => {
                proof {
                    assert(resolves(self.records(), id@, first as int));
                }
                Ok(stored)
            },
            None => Err(StorageFault::NotFound),
        }
    }

    /// Whether a stored task clashes with `task`.
    pub fn holds_clash(&self, task: &Task) -> (clash: bool)
        ensures
            clash == clashes(self.records(), task@),
    {
        let count = vector_len(&self.tasks);
        let mut index: usize = 0;
        while index < count
            invariant
                count == self.records().len(),
                0 <= index <= count,
                forall|k: int| 0 <= k < index ==> !(#[trigger] self.records()[k]).clashes_with(task@),
            decreases count - index,
        {
            match vector_get(&self.tasks, index) {
                Some(stored) => {
                    if stored.clashes_with(task) {
                        return true;
                    }
                },
                None => {},
            }
            index = index + 1;
        }
        false
    }
}

impl TaskStoragePort for InMemoryStorageAdapter {
    closed spec fn records(&self) -> Seq<Record> {
        stored_records(self.tasks)
    }

    /// Adds `task` as scheduled, unless a stored task has its identifier or
    /// its name: then nothing is stored and the failure names the task.
    fn save(&mut self, task: Task) -> (outcome: Result<Task, StorageError>)
        ensures
            outcome is Err <==> clashes(old(self).records(), task@),
            distinct(old(self).records()) ==> distinct(final(self).records()),
            outcome matches Err(error) ==> {
                &&& error.operation == StorageOperation::Save
                &&& error.subject@ == task@.reference()
                &&& error.fault@ == StorageFaultView::Backend(
                    "A task with the same id or name is already stored"@,
                )
            },
    {
        if self.holds_clash(&task) {
            return Err(
                StorageError {
                    operation: StorageOperation::Save,
                    subject: TaskId::from(&task),
                    fault: StorageFault::Backend(
                        String::from_str("A task with the same id or name is already stored"),
                    ),
                },
            );
        }
        vector_push_back(&mut self.tasks, StoredTask::from(&task));
        proof {
            if distinct(old(self).records()) {
                lemma_saved_distinct(old(self).records(), self.records(), task@);
            }
        }
        Ok(task)
    }

    /// The status of the one task that `id` refers to: `NotFound` where
    /// there is none, `Ambiguous` where there are several.
    fn status(&mut self, id: TaskId) -> (outcome: Result<TaskStatus, StorageError>)
        ensures
            outcome is Ok <==> exists|i: int| resolves(old(self).records(), id@, i),
            outcome matches Err(error) ==> {
                &&& error.operation == StorageOperation::Status
                &&& error.subject@ == id@
                &&& !(error.fault is Backend)
            },
    {
        match self.find_only_one(&id) {
            Ok(stored) => Ok(stored.status.clone()),
            Err(fault) => Err(
                StorageError { operation: StorageOperation::Status, subject: id, fault },
            ),
        }
    }

    /// Gives the status `status` to the first stored task that `task` refers
    /// to: a scheduled task takes it, a task that has ended is left as it
    /// ended. `NotFound` where there is no such task.
    fn complete(&mut self, task: &Task, status: TaskStatus) -> (outcome: Result<(), StorageError>)
        ensures
            outcome is Ok <==> known(old(self).records(), task@.reference()),
            distinct(old(self).records()) ==> distinct(final(self).records()),
            outcome is Ok ==> {
                let at = next_answer(old(self).records(), task@.reference(), 0);
                &&& changed_at(old(self).records(), final(self).records(), task@.reference(), at)
                &&& final(self).records()[at].status == next_status(
                    old(self).records()[at].status,
                    status@,
                )
            },
            outcome matches Err(error) ==> {
                &&& error.operation == StorageOperation::Complete
                &&& error.subject@ == task@.reference()
                &&& error.fault is NotFound
            },
    {
        let id = TaskId::from(task);
        let index = self.position(&id);
        proof {
            lemma_next_answer_bounds(self.records(), id@, 0);
        }
        match vector_get(&self.tasks, index) {
            Some(stored) => {
                if stored.status.is_terminal() {
                    proof {
                        let records = self.records();
                        assert(records =~= records.update(index as int, records[index as int]));
                        assert(changed_at(records, records, id@, index as int));
                    }
                    return Ok(());
                }
                let updated = stored.with_status(status);
                vector_set(&mut self.tasks, index, updated);
                proof {
                    assert(changed_at(old(self).records(), self.records(), id@, index as int));
                    if distinct(old(self).records()) {
                        lemma_completed_distinct(old(self).records(), self.records(), id@, status@);
                    }
                }
                Ok(())
            },
            None => Err(
                StorageError {
                    operation: StorageOperation::Complete,
                    subject: id,
                    fault: StorageFault::NotFound,
                },
            ),
        }
    }
}

/// `next_answer` lies between `from` and the number of records, nothing
/// from `from` up to it answers, and the record at it does.
pub proof fn lemma_next_answer_bounds(records: Seq<Record>, id: TaskIdView, from: int)
    requires
        0 <= from <= records.len(),
    ensures
        from <= next_answer(records, id, from) <= records.len(),
        forall|k: int|
            from <= k < next_answer(records, id, from) ==> !(#[trigger] records[k]).answers_to(id),
        next_answer(records, id, from) < records.len() ==> records[next_answer(
            records,
            id,
            from,
        )].answers_to(id),
    decreases records.len() - from,
{
    if from < records.len() && !records[from].answers_to(id) {
        lemma_next_answer_bounds(records, id, from + 1);
    }
}

/// `next_answer` is the first index from `from` on that answers.
pub proof fn lemma_next_answer(records: Seq<Record>, id: TaskIdView, from: int, index: int)
    requires
        0 <= from <= index <= records.len(),
        forall|k: int| from <= k < index ==> !(#[trigger] records[k]).answers_to(id),
        index < records.len() ==> records[index].answers_to(id),
    ensures
        next_answer(records, id, from) == index,
    decreases index - from,
{
    if from < index {
        lemma_next_answer(records, id, from + 1, index);
    }
}

} // verus!
