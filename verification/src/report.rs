//! What the user is shown: the status of a task, and the notice that a task
//! was scheduled.

use vstd::prelude::*;
use vstd::string::*;
use crate::model::{StatusView, TaskId, TaskIdView, TaskStatus};
use crate::text::{first_at, joined, lemma_first_at_bounds, split_on, split_text, text_views};

verus! {

/// Calls `Itertools::join` of the crate `itertools` on the strings of
/// `parts`: each one written in turn, with `sep` between neighbours, and
/// the empty text for no strings.
#[verifier::external_body]
fn join_display(parts: &Vec<String>, sep: &str) -> (text: String)
    ensures
        text@ == joined(text_views(parts@), sep@),
{
    itertools::Itertools::join(&mut parts.iter(), sep)
}

/// A piece without the carriage return that it may end in.
pub open spec fn strip_cr(piece: Seq<char>) -> Seq<char> {
    if piece.len() > 0 && piece.last() == '\r' {
        piece.drop_last()
    } else {
        piece
    }
}

/// The lines of a text: its pieces between line feeds, each without the
/// carriage return that may stand before the line feed. What follows the
/// last line feed is a line as it stands, unless it is empty.
pub open spec fn lines_of(text: Seq<char>) -> Seq<Seq<char>> {
    let pieces = split_on(text, '\n');
    let count = if pieces.last().len() == 0 {
        pieces.len() - 1
    } else {
        pieces.len() as int
    };
    Seq::new(
        count as nat,
        |i: int|
            if i < pieces.len() - 1 {
                strip_cr(pieces[i])
            } else {
                pieces[i]
            },
    )
}

/// Each line behind a tab.
pub open spec fn indented(lines: Seq<Seq<char>>) -> Seq<Seq<char>> {
    Seq::new(lines.len(), |i: int| seq!['\t'] + lines[i])
}

/// The text with each of its lines behind a tab, the lines separated by
/// line feeds.
pub open spec fn indented_text(text: Seq<char>) -> Seq<char> {
    joined(indented(lines_of(text)), seq!['\n'])
}

/// A text splits into at least one piece.
pub proof fn lemma_split_on_some(text: Seq<char>, c: char)
    ensures
        split_on(text, c).len() >= 1,
    decreases text.len(),
{
    lemma_first_at_bounds(text, c);
    let at = first_at(text, c);
    if 0 <= at < text.len() {
        lemma_split_on_some(text.skip(at + 1), c);
    }
}

/// The lines of `text`, each behind a tab, separated by line feeds.
pub fn indent_lines(text: &str) -> (shown: String)
    ensures
        shown@ == indented_text(text@),
{
    let pieces = split_text(text, '\n');
    proof {
        lemma_split_on_some(text@, '\n');
        assert(text_views(pieces@).len() == pieces@.len());
    }
    let last = pieces.len() - 1;
    let count = if pieces[last].as_str().unicode_len() == 0 {
        last
    } else {
        pieces.len()
    };
    let ghost views = text_views(pieces@);
    proof {
        assert(views[last as int] == pieces@[last as int]@);
    }
    let mut lines: Vec<String> = Vec::new();
    let mut i: usize = 0;
    while i < count
        invariant
            0 <= i <= count <= pieces.len(),
            last == pieces.len() - 1,
            views == text_views(pieces@),
            views == split_on(text@, '\n'),
            count == lines_of(text@).len(),
            lines@.len() == i,
            forall|k: int|
                0 <= k < i ==> (#[trigger] lines@[k])@ == indented(lines_of(text@))[k],
        decreases count - i,
    {
        let piece = pieces[i].as_str();
        let n = piece.unicode_len();
        proof {
            assert(views[i as int] == pieces@[i as int]@);
            reveal_strlit("\t");
            assert("\t"@ =~= seq!['\t']);
        }
        let line = if i < last && n > 0 && piece.get_char(n - 1) == '\r' {
            proof {
                assert(piece@.subrange(0, n - 1) =~= piece@.drop_last());
            }
            String::from_str("\t").concat(piece.substring_char(0, n - 1))
        } else {
            String::from_str("\t").concat(piece)
        };
        lines.push(line);
        i = i + 1;
    }
    proof {
        reveal_strlit("\n");
        assert("\n"@ =~= seq!['\n']);
        assert(text_views(lines@) =~= indented(lines_of(text@)));
    }
    join_display(&lines, "\n")
}

/// What is shown of a status, and on which stream.
#[derive(Debug, PartialEq)]
pub struct StatusReport {
    pub text: String,
    /// Whether the text goes to standard error.
    pub is_error: bool,
}

/// The text that is shown for a status.
pub open spec fn report_text(status: StatusView) -> Seq<char> {
    match status {
        StatusView::Success(stdout) => "Task was successfully run :\n "@ + indented_text(stdout),
        StatusView::Scheduled => "Task is scheduled"@,
        StatusView::Error(stderr) => "Task was in error  :\n "@ + indented_text(stderr),
    }
}

/// What is shown of `status`: a heading and the output of the command, line
/// by line behind a tab. A failure goes to standard error.
pub fn status_report(status: &TaskStatus) -> (report: StatusReport)
    ensures
        report.text@ == report_text(status@),
        report.is_error == (status@ is Error),
{
    match status {
        TaskStatus::Success(stdout) => StatusReport {
            text: String::from_str("Task was successfully run :\n ").concat(
                indent_lines(stdout.as_str()).as_str(),
            ),
            is_error: false,
        },
        TaskStatus::Scheduled => StatusReport {
            text: String::from_str("Task is scheduled"),
            is_error: false,
        },
        TaskStatus::Error(stderr) => StatusReport {
            text: String::from_str("Task was in error  :\n ").concat(
                indent_lines(stderr.as_str()).as_str(),
            ),
            is_error: true,
        },
    }
}

/// The text of the notice that a task was scheduled.
pub open spec fn notice_text(id: TaskIdView) -> Seq<char> {
    match id {
        TaskIdView::Id(id) => "Task with id "@ + id + " scheduled"@,
        TaskIdView::Name(name) => "Task with name "@ + name + " scheduled"@,
    }
}

/// The notice that a task was scheduled, by the reference to find it with.
pub fn scheduled_notice(id: &TaskId) -> (text: String)
    ensures
        text@ == notice_text(id@),
{
    match id {
        TaskId::Id(id) => String::from_str("Task with id ").concat(id.as_str()).concat(
            " scheduled",
        ),
        TaskId::Name(name) => String::from_str("Task with name ").concat(name.as_str()).concat(
            " scheduled",
        ),
    }
}

} // verus!
