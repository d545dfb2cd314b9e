//! What a store of tasks holds, as a sequence of records, and what its
//! operations do to it.

use vstd::prelude::*;
use crate::model::{StatusView, TaskIdView, TaskInputView, TaskView};

verus! {

/// A stored task with its current status.
pub struct Record {
    pub task: TaskView,
    pub status: StatusView,
}

impl Record {
    /// Whether the record is the one that `id` refers to: by identifier, or
    /// by a name that the task has.
    pub open spec fn answers_to(self, id: TaskIdView) -> bool {
        match id {
            TaskIdView::Id(wanted) => self.task.id == wanted,
            TaskIdView::Name(wanted) => self.task.name == Some(wanted),
        }
    }

    /// Whether `task` could not be stored beside the record: it has the
    /// same identifier, or a name that the record's task has too.
    pub open spec fn clashes_with(self, task: TaskView) -> bool {
        self.task.id == task.id || (task.name is Some && self.task.name == task.name)
    }
}

/// Some record answers to `id`.
pub open spec fn known(records: Seq<Record>, id: TaskIdView) -> bool {
    exists|i: int| 0 <= i < records.len() && (#[trigger] records[i]).answers_to(id)
}

/// The record at `i` answers to `id` and no other record does.
pub open spec fn resolves(records: Seq<Record>, id: TaskIdView, i: int) -> bool {
    &&& 0 <= i < records.len()
    &&& records[i].answers_to(id)
    &&& forall|j: int| 0 <= j < records.len() && j != i ==> !(#[trigger] records[j]).answers_to(id)
}

/// Some record clashes with `task`.
pub open spec fn clashes(records: Seq<Record>, task: TaskView) -> bool {
    exists|i: int| 0 <= i < records.len() && (#[trigger] records[i]).clashes_with(task)
}

/// Some record has the name `name`.
pub open spec fn name_taken(records: Seq<Record>, name: Seq<char>) -> bool {
    exists|i: int| 0 <= i < records.len() && (#[trigger] records[i]).task.name == Some(name)
}

/// No two records share an identifier or a name.
pub open spec fn distinct(records: Seq<Record>) -> bool {
    forall|i: int, j: int|
        0 <= i < j < records.len() ==> !(#[trigger] records[i]).clashes_with(
            (#[trigger] records[j]).task,
        )
}

/// `after` is `before` with `task` added under the status `status`, and
/// `task` clashed with nothing.
pub open spec fn added(
    before: Seq<Record>,
    after: Seq<Record>,
    task: TaskView,
    status: StatusView,
) -> bool {
    &&& !clashes(before, task)
    &&& after == before.push(Record { task, status })
}

/// `after` is `before` with `task` added as scheduled, and `task` clashed
/// with nothing.
pub open spec fn saved(before: Seq<Record>, after: Seq<Record>, task: TaskView) -> bool {
    added(before, after, task, StatusView::Scheduled)
}

/// `after` is `before` but for the status of the record at `i`, which
/// answers to `id`.
pub open spec fn changed_at(before: Seq<Record>, after: Seq<Record>, id: TaskIdView, i: int) -> bool {
    &&& 0 <= i < before.len()
    &&& before[i].answers_to(id)
    &&& after.len() == before.len()
    &&& after == before.update(i, Record { task: before[i].task, status: after[i].status })
}

/// The status of a task after the attempt to give it the status `given`:
/// a scheduled task takes it, a task that has ended keeps the status it
/// ended in. A status changes at most once, and never back to `Scheduled`.
pub open spec fn next_status(current: StatusView, given: StatusView) -> StatusView {
    if current is Scheduled {
        given
    } else {
        current
    }
}

/// `after` is `before` with the status `status` given to one record that
/// answers to `id`: the record takes it if it was scheduled, and stays as
/// it was if it had ended.
pub open spec fn completed(
    before: Seq<Record>,
    after: Seq<Record>,
    id: TaskIdView,
    status: StatusView,
) -> bool {
    exists|i: int| #[trigger]
        changed_at(before, after, id, i) && after[i].status == next_status(
            before[i].status,
            status,
        )
}

/// `after` is `before` with a `Success` given to one record that answers to
/// `id`: the record is a `Success` if it was scheduled, and stays as it was
/// if it had ended.
pub open spec fn completed_with_success(
    before: Seq<Record>,
    after: Seq<Record>,
    id: TaskIdView,
) -> bool {
    exists|i: int| #[trigger]
        changed_at(before, after, id, i) && if before[i].status is Scheduled {
            after[i].status is Success
        } else {
            after[i].status == before[i].status
        }
}

/// What a store holds, under the name by which a store outside of the
/// library says it.
pub type Records = Seq<Record>;

/// `after` is `before` with one record added: the submission `input` under
/// the identifier it was given, with the status `status`; and that task
/// clashed with nothing in `before`.
pub open spec fn submitted(
    before: Seq<Record>,
    after: Seq<Record>,
    input: TaskInputView,
    status: StatusView,
) -> bool {
    after.len() > 0 && added(before, after, input.with_id(after.last().task.id), status)
}

/// `after` is `before` with the submission `input` added, run with success,
/// and `id` is the reference of the new task.
pub open spec fn scheduled(
    before: Seq<Record>,
    after: Seq<Record>,
    input: TaskInputView,
    id: TaskIdView,
) -> bool {
    &&& after.len() > 0
    &&& after.last().status is Success
    &&& submitted(before, after, input, after.last().status)
    &&& id == after.last().task.reference()
}

/// A reference resolves to at most one record.
pub proof fn lemma_resolves_once(records: Seq<Record>, id: TaskIdView, i: int, j: int)
    requires
        resolves(records, id, i),
        resolves(records, id, j),
    ensures
        i == j,
{
}

/// Among distinct records, a record that answers to a reference is the one
/// that the reference resolves to.
pub proof fn lemma_distinct_resolves(records: Seq<Record>, id: TaskIdView, i: int)
    requires
        distinct(records),
        0 <= i < records.len(),
        records[i].answers_to(id),
    ensures
        resolves(records, id, i),
{
    assert forall|j: int| 0 <= j < records.len() && j != i implies !(#[trigger] records[j]).answers_to(
        id,
    ) by {
        if records[j].answers_to(id) {
            if i < j {
                assert(records[i].clashes_with(records[j].task));
            } else {
                assert(records[j].clashes_with(records[i].task));
            }
        }
    }
}

/// Saving keeps distinct records distinct.
pub proof fn lemma_saved_distinct(before: Seq<Record>, after: Seq<Record>, task: TaskView)
    requires
        distinct(before),
        saved(before, after, task),
    ensures
        distinct(after),
{
    assert forall|i: int, j: int| 0 <= i < j < after.len() implies !(#[trigger] after[i]).clashes_with(
        (#[trigger] after[j]).task,
    ) by {
        if j < before.len() {
            assert(after[i] == before[i] && after[j] == before[j]);
        } else {
            assert(after[i] == before[i]);
            assert(!before[i].clashes_with(task));
        }
    }
}

/// Completing changes a status only: distinct records stay distinct.
pub proof fn lemma_completed_distinct(
    before: Seq<Record>,
    after: Seq<Record>,
    id: TaskIdView,
    status: StatusView,
)
    requires
        distinct(before),
        completed(before, after, id, status),
    ensures
        distinct(after),
{
    let at = choose|at: int| #[trigger]
        changed_at(before, after, id, at) && after[at].status == next_status(
            before[at].status,
            status,
        );
    assert forall|i: int, j: int| 0 <= i < j < after.len() implies !(#[trigger] after[i]).clashes_with(
        (#[trigger] after[j]).task,
    ) by {
        assert(after[i].task == before[i].task && after[j].task == before[j].task);
        assert(!before[i].clashes_with(before[j].task));
    }
}

/// The only record that answers to the reference of a task just saved is
/// the new one: a change of status under that reference is a change of the
/// last record.
pub proof fn lemma_changed_last(
    before: Seq<Record>,
    between: Seq<Record>,
    after: Seq<Record>,
    task: TaskView,
    i: int,
)
    requires
        saved(before, between, task),
        changed_at(between, after, task.reference(), i),
    ensures
        i == before.len(),
        between[i].status is Scheduled,
        added(before, after, task, after.last().status),
{
    if i < before.len() {
        assert(between[i] == before[i]);
        assert(before[i].clashes_with(task));
    }
    assert(after =~= before.push(Record { task, status: after.last().status }));
}

/// Giving a status leaves every task that has ended as it ended, and takes
/// no task back to `Scheduled`.
pub proof fn lemma_completed_once(
    before: Seq<Record>,
    after: Seq<Record>,
    id: TaskIdView,
    status: StatusView,
    j: int,
)
    requires
        completed(before, after, id, status),
        0 <= j < before.len(),
    ensures
        after.len() == before.len(),
        after[j].task == before[j].task,
        before[j].status.is_terminal() ==> after[j].status == before[j].status,
        after[j].status is Scheduled ==> before[j].status is Scheduled,
{
    let at = choose|at: int| #[trigger]
        changed_at(before, after, id, at) && after[at].status == next_status(
            before[at].status,
            status,
        );
    assert(after[j].task == before[j].task);
}

/// A task whose name is taken clashes, whatever its identifier.
pub proof fn lemma_name_taken_clashes(records: Seq<Record>, task: TaskView)
    requires
        task.name is Some,
        name_taken(records, task.name->0),
    ensures
        clashes(records, task),
{
    let i = choose|i: int| 0 <= i < records.len() && (#[trigger] records[i]).task.name == Some(
        task.name->0,
    );
    assert(records[i].clashes_with(task));
}

/// After a submission the reference of the new task resolves to the new
/// record, and to no other.
pub proof fn lemma_submitted_resolves(
    before: Seq<Record>,
    after: Seq<Record>,
    input: TaskInputView,
    status: StatusView,
)
    requires
        submitted(before, after, input, status),
    ensures
        resolves(after, after.last().task.reference(), after.len() - 1),
{
    let task = after.last().task;
    assert forall|j: int| 0 <= j < after.len() && j != after.len() - 1 implies !(
    #[trigger] after[j]).answers_to(task.reference()) by {
        assert(after[j] == before[j]);
        assert(!before[j].clashes_with(task));
    }
}

/// A task that was scheduled is found by the reference that the scheduler
/// gave, and its status is then `Success`: whoever asks for its status is
/// given a status that ends the lifecycle.
pub proof fn lemma_scheduled_is_terminal(
    before: Seq<Record>,
    after: Seq<Record>,
    input: TaskInputView,
    id: TaskIdView,
    i: int,
)
    requires
        scheduled(before, after, input, id),
        resolves(after, id, i),
    ensures
        i == after.len() - 1,
        after[i].status is Success,
        after[i].status.is_terminal(),
{
    lemma_submitted_resolves(before, after, input, after.last().status);
    lemma_resolves_once(after, id, i, after.len() - 1);
}

/// A task that was submitted is found by its reference and by its
/// identifier, with the status under which it was added. After a run that
/// failed and was recorded, that status is `Error`: it ends the lifecycle.
pub proof fn lemma_submitted_status(
    before: Seq<Record>,
    after: Seq<Record>,
    input: TaskInputView,
    status: StatusView,
    id: TaskIdView,
    i: int,
)
    requires
        submitted(before, after, input, status),
        id == after.last().task.reference() || id == TaskIdView::Id(after.last().task.id),
        resolves(after, id, i),
    ensures
        i == after.len() - 1,
        after[i].status == status,
{
    assert(after[after.len() - 1].answers_to(id));
}

/// A submission leaves the tasks that were stored before as they were: a
/// reference that resolved before resolves to the same record, with the
/// same status.
pub proof fn lemma_submission_keeps_status(
    before: Seq<Record>,
    after: Seq<Record>,
    input: TaskInputView,
    status: StatusView,
    id: TaskIdView,
    i: int,
)
    requires
        submitted(before, after, input, status),
        resolves(before, id, i),
    ensures
        resolves(after, id, i),
        after[i] == before[i],
{
    let task = after.last().task;
    assert(before[i].clashes_with(task) || !after.last().answers_to(id));
    assert forall|j: int| 0 <= j < after.len() && j != i implies !(#[trigger] after[j]).answers_to(
        id,
    ) by {
        if j < before.len() {
            assert(after[j] == before[j]);
        }
    }
}

/// A task that was submitted with a name is found by that name and by the
/// identifier it was given, and both find the same record.
pub proof fn lemma_name_and_id_agree(
    before: Seq<Record>,
    after: Seq<Record>,
    input: TaskInputView,
    status: StatusView,
)
    requires
        submitted(before, after, input, status),
        input.name is Some,
    ensures
        resolves(after, TaskIdView::Name(input.name->0), after.len() - 1),
        resolves(after, TaskIdView::Id(after.last().task.id), after.len() - 1),
{
    let task = after.last().task;
    assert forall|j: int| 0 <= j < after.len() && j != after.len() - 1 implies !(
    #[trigger] after[j]).answers_to(TaskIdView::Name(input.name->0)) && !after[j].answers_to(
        TaskIdView::Id(task.id),
    ) by {
        assert(after[j] == before[j]);
        assert(!before[j].clashes_with(task));
    }
}

/// After a task was submitted with a name, the name is taken: a second
/// submission with that name clashes, whatever identifier it is given.
pub proof fn lemma_submitted_name_is_taken(
    before: Seq<Record>,
    after: Seq<Record>,
    input: TaskInputView,
    status: StatusView,
    second: TaskView,
)
    requires
        submitted(before, after, input, status),
        input.name is Some,
        second.name == input.name,
    ensures
        name_taken(after, input.name->0),
        clashes(after, second),
{
    assert(after[after.len() - 1].task.name == Some(input.name->0));
    assert(after[after.len() - 1].clashes_with(second));
}

/// A submission to distinct records leaves distinct records.
pub proof fn lemma_submitted_distinct(
    before: Seq<Record>,
    after: Seq<Record>,
    input: TaskInputView,
    status: StatusView,
)
    requires
        distinct(before),
        submitted(before, after, input, status),
    ensures
        distinct(after),
{
    let task = after.last().task;
    assert forall|i: int, j: int| 0 <= i < j < after.len() implies !(#[trigger] after[i]).clashes_with(
        (#[trigger] after[j]).task,
    ) by {
        if j < before.len() {
            assert(after[i] == before[i] && after[j] == before[j]);
        } else {
            assert(after[i] == before[i]);
            assert(!before[i].clashes_with(task));
        }
    }
}

} // verus!
