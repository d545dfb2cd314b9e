//! The row that a database keeps for a task: text columns, with the
//! environment written as `name=value` pairs separated by `;`.

use vstd::prelude::*;
use vstd::string::*;
use crate::environment::{
    bindings_of, distinct_names, env_bindings, env_from_pairs, env_to_pairs, pair_views,
};
use crate::error::{StorageFault, StorageFaultView};
use crate::model::{clone_option, option_view, StatusView, Task, TaskStatus, TaskView};
use crate::text::{
    find_char, first_at, free_of, join_with, joined, lemma_first_at, lemma_split_joined, split_on,
    split_text, text_views,
};

verus! {

/// A task and its status as a row of text columns.
#[derive(Debug, PartialEq)]
pub struct DbTask {
    pub id: String,
    pub name: Option<String>,
    pub command: String,
    pub env: Option<String>,
    pub status: String,
    pub status_log: Option<String>,
}

/// A row as a mathematical value.
pub struct RowView {
    pub id: Seq<char>,
    pub name: Option<Seq<char>>,
    pub command: Seq<char>,
    pub env: Option<Seq<char>>,
    pub status: Seq<char>,
    pub status_log: Option<Seq<char>>,
}

impl View for DbTask {
    type V = RowView;

    open spec fn view(&self) -> RowView {
        RowView {
            id: self.id@,
            name: option_view(self.name),
            command: self.command@,
            env: option_view(self.env),
            status: self.status@,
            status_log: option_view(self.status_log),
        }
    }
}

/// Why a row is no task.
#[derive(Debug, PartialEq)]
pub enum RowError {
    /// The row of the task `id` has the status `status`, which needs a
    /// status log, and has none.
    MissingStatusLog { id: String, status: String },
    /// The status column holds none of the three status words.
    InvalidStatus(String),
}

/// A row failure as a mathematical value.
pub enum RowErrorView {
    MissingStatusLog { id: Seq<char>, status: Seq<char> },
    InvalidStatus(Seq<char>),
}

impl RowErrorView {
    /// What the failure says of itself.
    pub open spec fn message(self) -> Seq<char> {
        match self {
            RowErrorView::MissingStatusLog { id, status } => "Task "@ + id
                + " is defined in database as "@ + status + " but doesn't have any status_log"@,
            RowErrorView::InvalidStatus(status) => status + " is not a valid status"@,
        }
    }
}

impl View for RowError {
    type V = RowErrorView;

    open spec fn view(&self) -> RowErrorView {
        match self {
            RowError::MissingStatusLog { id, status } => RowErrorView::MissingStatusLog {
                id: id@,
                status: status@,
            },
            RowError::InvalidStatus(status) => RowErrorView::InvalidStatus(status@),
        }
    }
}

impl RowError {
    /// What the failure says of itself.
    pub fn message(&self) -> (text: String)
        ensures
            text@ == self@.message(),
    {
        match self {
            RowError::MissingStatusLog { id, status } => String::from_str("Task ").concat(
                id.as_str(),
            ).concat(" is defined in database as ").concat(status.as_str()).concat(
                " but doesn't have any status_log",
            ),
            RowError::InvalidStatus(status) => status.clone().concat(" is not a valid status"),
        }
    }
}

/// The status word of a task that has not ended.
pub open spec fn scheduled_word() -> Seq<char> {
    "SCHEDULED"@
}

/// The status word of a task that succeeded.
pub open spec fn success_word() -> Seq<char> {
    "SUCCESS"@
}

/// The status word of a task that failed.
pub open spec fn error_word() -> Seq<char> {
    "ERROR"@
}

/// The three status words differ.
pub proof fn lemma_status_words_differ()
    ensures
        scheduled_word() != success_word(),
        scheduled_word() != error_word(),
        success_word() != error_word(),
{
    reveal_strlit("SCHEDULED");
    reveal_strlit("SUCCESS");
    reveal_strlit("ERROR");
    assert(scheduled_word().len() == 9);
    assert(success_word().len() == 7);
    assert(error_word().len() == 5);
}

/// The status column and the status log of a status.
pub open spec fn columns_of(status: StatusView) -> (Seq<char>, Option<Seq<char>>) {
    match status {
        StatusView::Scheduled => (scheduled_word(), None),
        StatusView::Success(output) => (success_word(), Some(output)),
        StatusView::Error(message) => (error_word(), Some(message)),
    }
}

/// The status that a status column and a status log stand for. `SUCCESS`
/// and `ERROR` need their log; any other word is no status.
pub open spec fn status_of(row: RowView) -> Result<StatusView, RowErrorView> {
    if row.status == scheduled_word() {
        Ok(StatusView::Scheduled)
    } else if row.status == success_word() || row.status == error_word() {
        match row.status_log {
            Some(log) => if row.status == success_word() {
                Ok(StatusView::Success(log))
            } else {
                Ok(StatusView::Error(log))
            },
            None => Err(RowErrorView::MissingStatusLog { id: row.id, status: row.status }),
        }
    } else {
        Err(RowErrorView::InvalidStatus(row.status))
    }
}

/// A pair written as `name=value`.
pub open spec fn encode_pair(pair: (Seq<char>, Seq<char>)) -> Seq<char> {
    pair.0 + seq!['='] + pair.1
}

/// Each pair written as `name=value`.
pub open spec fn encoded(pairs: Seq<(Seq<char>, Seq<char>)>) -> Seq<Seq<char>> {
    Seq::new(pairs.len(), |i: int| encode_pair(pairs[i]))
}

/// The pairs written as `name=value` with `;` between them.
pub open spec fn encode_pairs(pairs: Seq<(Seq<char>, Seq<char>)>) -> Seq<char> {
    joined(encoded(pairs), seq![';'])
}

/// The pair that a piece of text stands for: what is before its first `=`
/// and what follows it. A piece without `=` stands for two empty texts.
pub open spec fn parse_pair(piece: Seq<char>) -> (Seq<char>, Seq<char>) {
    let at = first_at(piece, '=');
    if 0 <= at < piece.len() {
        (piece.take(at), piece.skip(at + 1))
    } else {
        (Seq::empty(), Seq::empty())
    }
}

/// The pair that each piece stands for.
pub open spec fn parsed(pieces: Seq<Seq<char>>) -> Seq<(Seq<char>, Seq<char>)> {
    Seq::new(pieces.len(), |i: int| parse_pair(pieces[i]))
}

/// The pairs that a text stands for: none for the empty text, else one for
/// each piece between its `;`.
pub open spec fn parse_pairs(text: Seq<char>) -> Seq<(Seq<char>, Seq<char>)> {
    if text.len() == 0 {
        Seq::empty()
    } else {
        parsed(split_on(text, ';'))
    }
}

/// Whether `text` is the bindings written as pairs, each once, in some
/// order.
pub open spec fn is_encoding(text: Seq<char>, bindings: Map<Seq<char>, Seq<char>>) -> bool {
    exists|pairs: Seq<(Seq<char>, Seq<char>)>| #[trigger]
        is_encoding_by(text, bindings, pairs)
}

/// Whether `text` is the bindings written as the pairs `pairs`.
pub open spec fn is_encoding_by(
    text: Seq<char>,
    bindings: Map<Seq<char>, Seq<char>>,
    pairs: Seq<(Seq<char>, Seq<char>)>,
) -> bool {
    &&& distinct_names(pairs)
    &&& bindings_of(pairs) == bindings
    &&& text == encode_pairs(pairs)
}

/// Whether the pair can be written and read back: its name holds neither
/// `=` nor `;`, its value no `;`.
pub open spec fn writable(pair: (Seq<char>, Seq<char>)) -> bool {
    free_of(pair.0, '=') && free_of(pair.0, ';') && free_of(pair.1, ';')
}

/// Whether every binding can be written and read back.
pub open spec fn writable_bindings(bindings: Map<Seq<char>, Seq<char>>) -> bool {
    forall|name: Seq<char>| #[trigger]
        bindings.contains_key(name) ==> writable((name, bindings[name]))
}

/// Whether `row` is the row of `task` under `status`: the columns hold the
/// fields of the task, the status word and its log, and the environment, if
/// any, written as pairs.
pub open spec fn is_row_of(row: RowView, task: TaskView, status: StatusView) -> bool {
    &&& row.id == task.id
    &&& row.name == task.name
    &&& row.command == task.command
    &&& row.status == columns_of(status).0
    &&& row.status_log == columns_of(status).1
    &&& match task.env {
        Some(bindings) => row.env matches Some(text) && is_encoding(text, bindings),
        None => row.env is None,
    }
}

/// The task that the columns of `row` stand for.
pub open spec fn task_of(row: RowView) -> TaskView {
    TaskView {
        id: row.id,
        name: row.name,
        command: row.command,
        env: match row.env {
            Some(text) => Some(bindings_of(parse_pairs(text))),
            None => None,
        },
    }
}

/// The status column and the status log of `status`.
pub fn status_columns(status: &TaskStatus) -> (columns: (String, Option<String>))
    ensures
        columns.0@ == columns_of(status@).0,
        option_view(columns.1) == columns_of(status@).1,
{
    match status {
        TaskStatus::Scheduled => (String::from_str("SCHEDULED"), None),
        TaskStatus::Success(stdout) => (String::from_str("SUCCESS"), Some(stdout.clone())),
        TaskStatus::Error(stderr) => (String::from_str("ERROR"), Some(stderr.clone())),
    }
}

/// Writes the bindings of `env` as `name=value` pairs with `;` between
/// them, in the order in which the environment hands them out.
pub fn encode_env(env: &im::HashMap<String, String>) -> (text: String)
    ensures
        is_encoding(text@, env_bindings(*env)),
{
    let pairs = env_to_pairs(env);
    let mut parts: Vec<String> = Vec::new();
    let mut i: usize = 0;
    while i < pairs.len()
        invariant
            0 <= i <= pairs.len(),
            parts@.len() == i,
            forall|k: int| 0 <= k < i ==> (#[trigger] parts@[k])@ == encode_pair(pair_views(pairs@)[k]),
        decreases pairs.len() - i,
    {
        let part = pairs[i].0.clone().concat("=").concat(pairs[i].1.as_str());
        proof {
            reveal_strlit("=");
            assert("="@ =~= seq!['=']);
        }
        parts.push(part);
        i = i + 1;
    }
    let text = join_with(&parts, ";");
    proof {
        reveal_strlit(";");
        assert(";"@ =~= seq![';']);
        assert(text_views(parts@) =~= encoded(pair_views(pairs@)));
        assert(is_encoding_by(text@, env_bindings(*env), pair_views(pairs@)));
    }
    text
}

/// The pair that `piece` stands for: what is before its first `=` and what
/// follows it, or two empty texts where it has no `=`.
pub fn parse_pair_text(piece: &str) -> (pair: (String, String))
    ensures
        (pair.0@, pair.1@) == parse_pair(piece@),
{
    let n = piece.unicode_len();
    let at = find_char(piece, '=');
    if at < n {
        let name = String::from_str(piece.substring_char(0, at));
        let value = String::from_str(piece.substring_char(at + 1, n));
        proof {
            assert(piece@.subrange(0, at as int) =~= piece@.take(at as int));
            assert(piece@.subrange(at + 1, n as int) =~= piece@.skip(at + 1));
        }
        (name, value)
    } else {
        (String::new(), String::new())
    }
}

/// Reads an environment written as `name=value` pairs with `;` between
/// them. The empty text is the empty environment; a piece without `=` binds
/// the empty name to the empty value; of two pairs of one name the later
/// one stays.
pub fn parse_env_var(source: String) -> (env: im::HashMap<String, String>)
    ensures
        env_bindings(env) == bindings_of(parse_pairs(source@)),
{
    let mut pairs: Vec<(String, String)> = Vec::new();
    if source.as_str().unicode_len() == 0 {
        proof {
            assert(pair_views(pairs@) =~= parse_pairs(source@));
        }
        return env_from_pairs(pairs);
    }
    let pieces = split_text(source.as_str(), ';');
    let mut i: usize = 0;
    while i < pieces.len()
        invariant
            0 <= i <= pieces.len(),
            pairs@.len() == i,
            forall|k: int|
                0 <= k < i ==> (#[trigger] pair_views(pairs@)[k]) == parse_pair(pieces@[k]@),
        decreases pieces.len() - i,
    {
        let pair = parse_pair_text(pieces[i].as_str());
        proof {
            let before = pair_views(pairs@);
            let after = pair_views(pairs@.push(pair));
            assert forall|k: int| 0 <= k < i + 1 implies (#[trigger] after[k]) == parse_pair(
                pieces@[k]@,
            ) by {
                if k < i {
                    assert(after[k] == before[k]);
                }
            }
        }
        pairs.push(pair);
        i = i + 1;
    }
    proof {
        assert(text_views(pieces@) == split_on(source@, ';'));
        assert forall|k: int| 0 <= k < pieces@.len() implies pair_views(pairs@)[k] == parsed(
            split_on(source@, ';'),
        )[k] by {
            assert(text_views(pieces@)[k] == pieces@[k]@);
        }
        assert(pair_views(pairs@) =~= parse_pairs(source@));
    }
    env_from_pairs(pairs)
}

impl DbTask {
    /// The row of a task under a status.
    pub fn from(insertable_value: (&Task, &TaskStatus)) -> (row: DbTask)
        ensures
            is_row_of(row@, insertable_value.0@, insertable_value.1@),
    {
        let (task, status) = insertable_value;
        let (status, status_log) = status_columns(status);
        let env = match &task.env {
            Some(env_vars) => Some(encode_env(env_vars)),
            None => None,
        };
        DbTask {
            id: task.id.clone(),
            name: clone_option(&task.name),
            command: task.command.clone(),
            env,
            status,
            status_log,
        }
    }

    /// The task and the status that the row stands for. A row whose status
    /// column holds no status word, or `SUCCESS` or `ERROR` without a
    /// status log, is refused.
    pub fn try_into(self) -> (content: Result<(Task, TaskStatus), RowError>)
        ensures
            match content {
                Ok((task, status)) => status_of(self@) == Ok::<StatusView, RowErrorView>(status@)
                    && task@ == task_of(self@),
                Err(error) => status_of(self@) == Err::<StatusView, RowErrorView>(error@),
            },
    {
        let status = if self.status == String::from_str("SCHEDULED") {
            TaskStatus::Scheduled
        } else if self.status == String::from_str("SUCCESS") {
            match self.status_log {
                Some(stdout) => TaskStatus::Success(stdout),
                None => {
                    return Err(RowError::MissingStatusLog { id: self.id, status: self.status });
                },
            }
        } else if self.status == String::from_str("ERROR") {
            match self.status_log {
                Some(stderr) => TaskStatus::Error(stderr),
                None => {
                    return Err(RowError::MissingStatusLog { id: self.id, status: self.status });
                },
            }
        } else {
            return Err(RowError::InvalidStatus(self.status));
        };
        proof {
            lemma_status_words_differ();
        }
        let env = match self.env {
            Some(text) => Some(parse_env_var(text)),
            None => None,
        };
        let task = Task { id: self.id, name: self.name, command: self.command, env };
        Ok((task, status))
    }
}

/// Whether `outcome` is the status that the rows found for a reference
/// give: that of the only row, `NotFound` for no row, `Ambiguous` for
/// several, and the failure of a row that stands for no task.
pub open spec fn is_status_of_rows(
    rows: Seq<DbTask>,
    outcome: Result<TaskStatus, StorageFault>,
) -> bool {
    if rows.len() == 0 {
        outcome == Err::<TaskStatus, StorageFault>(StorageFault::NotFound)
    } else if rows.len() > 1 {
        outcome == Err::<TaskStatus, StorageFault>(StorageFault::Ambiguous)
    } else {
        match status_of(rows[0]@) {
            Ok(status) => outcome matches Ok(found) && found@ == status,
            Err(error) => outcome matches Err(StorageFault::Backend(report)) && report@
                == error.message(),
        }
    }
}

/// The status of the task that `rows` were found for: that of the only
/// row. No row is `NotFound`, several rows are `Ambiguous`, and a row that
/// stands for no task is a failure of the store.
pub fn status_from_rows(rows: Vec<DbTask>) -> (outcome: Result<TaskStatus, StorageFault>)
    ensures
        is_status_of_rows(rows@, outcome),
{
    let mut rows = rows;
    if rows.len() > 1 {
        return Err(StorageFault::Ambiguous);
    }
    match rows.pop() {
        None => Err(StorageFault::NotFound),
        Some(row) => match row.try_into() {
            Ok((_, status)) => Ok(status),
            Err(error) => Err(StorageFault::Backend(error.message())),
        },
    }
}

/// Whether a task was given its status by an update that reaches
/// scheduled rows only and changed `updated` of them, where `matching` rows
/// answer to the reference of the task. A row that had ended is left as it
/// ended, and that is no failure; without any row the task is `NotFound`.
pub fn completion_of(updated: usize, matching: usize) -> (outcome: Result<(), StorageFault>)
    ensures
        outcome is Ok <==> updated > 0 || matching > 0,
        outcome matches Err(fault) ==> fault == StorageFault::NotFound,
{
    if updated == 0 && matching == 0 {
        Err(StorageFault::NotFound)
    } else {
        Ok(())
    }
}

/// Whether a task may be stored beside `same_id` rows of its identifier and
/// `same_name` rows of its name: only where there is neither.
pub fn insertion_of(same_id: usize, same_name: usize) -> (outcome: Result<(), StorageFault>)
    ensures
        outcome is Ok <==> same_id == 0 && same_name == 0,
        outcome matches Err(fault) ==> fault@ == StorageFaultView::Backend(
            "A task with the same id or name is already stored"@,
        ),
{
    if same_id == 0 && same_name == 0 {
        Ok(())
    } else {
        Err(
            StorageFault::Backend(
                String::from_str("A task with the same id or name is already stored"),
            ),
        )
    }
}

/// Among pairs of distinct names, each pair is one of the bindings.
pub proof fn lemma_bindings_of_distinct(pairs: Seq<(Seq<char>, Seq<char>)>, i: int)
    requires
        distinct_names(pairs),
        0 <= i < pairs.len(),
    ensures
        bindings_of(pairs).contains_key(pairs[i].0),
        bindings_of(pairs)[pairs[i].0] == pairs[i].1,
    decreases pairs.len(),
{
    if i < pairs.len() - 1 {
        let front = pairs.drop_last();
        assert forall|a: int, b: int| 0 <= a < b < front.len() implies (#[trigger] front[a]).0 != (
        #[trigger] front[b]).0 by {
            assert(front[a] == pairs[a] && front[b] == pairs[b]);
        }
        lemma_bindings_of_distinct(front, i);
        assert(front[i] == pairs[i]);
        assert(pairs[i].0 != pairs[pairs.len() - 1].0);
    }
}

/// A pair whose name holds no `=` is read back from its written form.
pub proof fn lemma_parse_encoded_pair(pair: (Seq<char>, Seq<char>))
    requires
        free_of(pair.0, '='),
    ensures
        parse_pair(encode_pair(pair)) == pair,
{
    let text = encode_pair(pair);
    let at = pair.0.len() as int;
    assert forall|k: int| 0 <= k < at implies text[k] != '=' by {
        assert(text[k] == pair.0[k]);
    }
    assert(text[at] == '=');
    lemma_first_at(text, '=', at);
    assert(text.take(at) =~= pair.0);
    assert(text.skip(at + 1) =~= pair.1);
}

/// Pairs that can be written are read back from their written form, in
/// their order.
pub proof fn lemma_parse_encoded(pairs: Seq<(Seq<char>, Seq<char>)>)
    requires
        forall|i: int| 0 <= i < pairs.len() ==> writable(#[trigger] pairs[i]),
    ensures
        parse_pairs(encode_pairs(pairs)) == pairs,
{
    let parts = encoded(pairs);
    let text = encode_pairs(pairs);
    if pairs.len() == 0 {
        assert(parse_pairs(text) =~= pairs);
    } else {
        assert forall|i: int, k: int| 0 <= i < parts.len() && 0 <= k < parts[i].len() implies parts[i][k]
            != ';' by {
            let pair = pairs[i];
            assert(writable(pair));
            assert(parts[i] == pair.0 + seq!['='] + pair.1);
            if k < pair.0.len() {
                assert(parts[i][k] == pair.0[k]);
            } else if k == pair.0.len() {
                assert(parts[i][k] == '=');
            } else {
                assert(parts[i][k] == pair.1[k - pair.0.len() - 1]);
            }
        }
        lemma_split_joined(parts, ';');
        assert(parts[0].len() > 0);
        assert(text.len() > 0) by {
            if parts.len() > 1 {
                assert(text == parts[0] + seq![';'] + joined(parts.drop_first(), seq![';']));
            }
        }
        assert forall|i: int| 0 <= i < pairs.len() implies parsed(parts)[i] == pairs[i] by {
            assert(writable(pairs[i]));
            lemma_parse_encoded_pair(pairs[i]);
        }
        assert(parse_pairs(text) =~= pairs);
    }
}

/// An environment whose bindings can be written is read back from its
/// written form, whatever the order in which the pairs were written.
pub proof fn lemma_env_round_trip(text: Seq<char>, bindings: Map<Seq<char>, Seq<char>>)
    requires
        is_encoding(text, bindings),
        writable_bindings(bindings),
    ensures
        bindings_of(parse_pairs(text)) == bindings,
{
    let pairs = choose|pairs: Seq<(Seq<char>, Seq<char>)>| #[trigger]
        is_encoding_by(text, bindings, pairs);
    assert forall|i: int| 0 <= i < pairs.len() implies writable(#[trigger] pairs[i]) by {
        lemma_bindings_of_distinct(pairs, i);
        assert(bindings.contains_key(pairs[i].0));
        assert(writable((pairs[i].0, bindings[pairs[i].0])));
    }
    lemma_parse_encoded(pairs);
}

/// The row of a task under a status stands for that task and that status,
/// where the bindings of its environment can be written.
pub proof fn lemma_row_round_trip(row: RowView, task: TaskView, status: StatusView)
    requires
        is_row_of(row, task, status),
        task.env matches Some(bindings) ==> writable_bindings(bindings),
    ensures
        status_of(row) == Ok::<StatusView, RowErrorView>(status),
        task_of(row) == task,
{
    lemma_status_words_differ();
    if task.env is Some {
        lemma_env_round_trip(row.env->0, task.env->0);
    }
}

} // verus!
