//! The file ingestor: the rules by which a batch of incoming files is written
//! to disk.
//!
//! The library decides; its caller touches the disk. A batch is worked off
//! step by step: the caller performs the step it is given, reports whether
//! that succeeded, and receives the next step.

use crate::json::{json_views, member_of, text_of, JsonValue, JsonView};
use crate::text::{chars_of, contains, occurs_at, occurs_in};
use vstd::prelude::*;

verus! {

/// One incoming file: where to write, and what.
#[derive(Debug)]
pub struct FileUpdate {
    pub path: String,
    pub content: String,
}

/// The mathematical value of a [`FileUpdate`].
pub ghost struct FileUpdateView {
    pub path: Seq<char>,
    pub content: Seq<char>,
}

impl View for FileUpdate {
    type V = FileUpdateView;

    open spec fn view(&self) -> FileUpdateView {
        FileUpdateView { path: self.path@, content: self.content@ }
    }
}

/// The values of a batch.
pub open spec fn update_views(batch: Seq<FileUpdate>) -> Seq<FileUpdateView> {
    Seq::new(batch.len(), |i: int| batch[i]@)
}

/// The text of the member `key` of a document, where it has that member and
/// the member is a string.
pub open spec fn text_member(document: JsonView, key: Seq<char>) -> Option<Seq<char>> {
    match member_of(document, key) {
        Some(value) => text_of(value),
        None => None,
    }
}

/// The update that an item of a request stands for: an object with the
/// strings `path` and `content`. Anything else stands for none.
pub open spec fn update_of(item: JsonView) -> Option<FileUpdateView> {
    match (text_member(item, "path"@), text_member(item, "content"@)) {
        (Some(path), Some(content)) => Some(FileUpdateView { path, content }),
        _ => None,
    }
}

/// The batch that a request carries: the updates among the items of its
/// array `files`, in their order. A request without such an array carries no
/// batch.
pub open spec fn batch_of(payload: JsonView) -> Option<Seq<FileUpdateView>> {
    match member_of(payload, "files"@) {
        Some(JsonView::Array(items)) => Some(items.filter_map(|item: JsonView| update_of(item))),
        _ => None,
    }
}

/// The text of the member `key`, where `document` has it as a string.
fn read_text<'a>(document: &'a JsonValue, key: &str) -> (text: Option<&'a str>)
    ensures
        match text_member(document@, key@) {
            Some(expected) => text matches Some(found) && found@ == expected,
            None => text is None,
        },
{
    match document.get(key) {
        Some(value) => value.as_str(),
        None => None,
    }
}

/// Reads one item of a request.
fn read_update(item: &JsonValue) -> (update: Option<FileUpdate>)
    ensures
        match update_of(item@) {
            Some(expected) => update matches Some(found) && found@ == expected,
            None => update is None,
        },
{
    match (read_text(item, "path"), read_text(item, "content")) {
        (Some(path), Some(content)) => Some(
            FileUpdate { path: path.to_owned(), content: content.to_owned() },
        ),
        _ => None,
    }
}

/// Reads the batch that a request carries. Items that are no update are
/// passed over.
pub fn read_batch(payload: &JsonValue) -> (batch: Option<Vec<FileUpdate>>)
    ensures
        match batch_of(payload@) {
            Some(expected) => batch matches Some(found) && update_views(found@) == expected,
            None => batch is None,
        },
{
    let items = match payload.get("files") {
        Some(files) => match files.as_array() {
            Some(items) => items,
            None => {
                return None;
            },
        },
        None => {
            return None;
        },
    };
    let ghost listed = json_views(items@);
    let ghost pick = |item: JsonView| update_of(item);
    let mut batch: Vec<FileUpdate> = Vec::new();
    let mut at: usize = 0;
    while at < items.len()
        invariant
            at <= items@.len(),
            listed == json_views(items@),
            pick == (|item: JsonView| update_of(item)),
            update_views(batch@) == listed.take(at as int).filter_map(pick),
        decreases items@.len() - at,
    {
        assert(listed.take(at + 1).drop_last() =~= listed.take(at as int));
        if let Some(update) = read_update(&items[at]) {
            batch.push(update);
        }
        at = at + 1;
    }
    assert(listed.take(at as int) =~= listed);
    Some(batch)
}

/// A path that could lead out of the directory it is meant for: it holds two
/// dots in a row, anywhere.
pub open spec fn is_traversal(path: Seq<char>) -> bool {
    occurs_in(".."@, path)
}

/// A path is a traversal exactly where a dot is followed by a dot.
pub proof fn lemma_traversal_is_two_dots(path: Seq<char>)
    ensures
        is_traversal(path) <==> exists|i: int|
            0 <= i && i + 1 < path.len() && path[i] == '.' && #[trigger] path[i + 1] == '.',
{
    reveal_strlit("..");
    let dots = ".."@;
    if is_traversal(path) {
        let at = choose|at: int| occurs_at(dots, path, at);
        let window = path.subrange(at, at + 2);
        assert(window[0] == '.' && window[1] == '.');
        assert(path[at] == '.' && path[at + 1] == '.');
    }
    if exists|i: int|
        0 <= i && i + 1 < path.len() && path[i] == '.' && #[trigger] path[i + 1] == '.' {
        let i = choose|i: int|
            0 <= i && i + 1 < path.len() && path[i] == '.' && #[trigger] path[i + 1] == '.';
        assert(path.subrange(i, i + 2) =~= dots);
        assert(occurs_at(dots, path, i));
    }
}

/// Whether `path` could lead out of the directory it is meant for.
pub fn has_traversal(path: &str) -> (refused: bool)
    ensures
        refused == is_traversal(path@),
{
    let chars = chars_of(path);
    contains(chars.as_slice(), "..")
}

/// What the caller is to do next.
#[derive(Debug, Clone, Copy, PartialEq, Eq, Structural)]
pub enum IngestStep {
    /// The entry's path is a traversal: report it, touch nothing.
    Reject { index: usize },
    /// Create the directories that lead to the entry's path.
    CreateDirectories { index: usize },
    /// Write the entry's content to its path, over what is there.
    WriteFile { index: usize },
    /// The batch is through: build the sourcemap and write the manifest.
    RefreshSourcemap,
    /// Nothing is left to do.
    Done,
}

/// The step with which the entry `index` begins, and with which the batch
/// ends where there is no such entry.
pub open spec fn entry_step(batch: Seq<FileUpdateView>, index: int) -> IngestStep {
    if index < 0 || index >= batch.len() {
        IngestStep::RefreshSourcemap
    } else if is_traversal(batch[index].path) {
        IngestStep::Reject { index: index as usize }
    } else {
        IngestStep::CreateDirectories { index: index as usize }
    }
}

/// Whether the entry `index` may be written: there is such an entry, and its
/// path is no traversal.
pub open spec fn is_writable(batch: Seq<FileUpdateView>, index: int) -> bool {
    0 <= index < batch.len() && !is_traversal(batch[index].path)
}

/// The step that follows `step`, given whether `step` succeeded.
///
/// A file is written only after its directories were created. A step that
/// failed ends the work on its entry and on nothing else.
pub open spec fn step_after(batch: Seq<FileUpdateView>, step: IngestStep, succeeded: bool)
    -> IngestStep {
    match step {
        IngestStep::Reject { index } => entry_step(batch, index + 1),
        IngestStep::CreateDirectories { index } => if succeeded && is_writable(
            batch,
            index as int,
        ) {
            IngestStep::WriteFile { index }
        } else {
            entry_step(batch, index + 1)
        },
        IngestStep::WriteFile { index } => entry_step(batch, index + 1),
        IngestStep::RefreshSourcemap => IngestStep::Done,
        IngestStep::Done => IngestStep::Done,
    }
}

/// The step with which the entry `index` begins.
fn begin_entry(batch: &Vec<FileUpdate>, index: usize) -> (step: IngestStep)
    ensures
        step == entry_step(update_views(batch@), index as int),
{
    if index >= batch.len() {
        IngestStep::RefreshSourcemap
    } else if has_traversal(batch[index].path.as_str()) {
        IngestStep::Reject { index }
    } else {
        IngestStep::CreateDirectories { index }
    }
}

/// The step with which the entry after `index` begins.
fn begin_next_entry(batch: &Vec<FileUpdate>, index: usize) -> (step: IngestStep)
    ensures
        step == entry_step(update_views(batch@), index + 1),
{
    if index >= batch.len() {
        IngestStep::RefreshSourcemap
    } else {
        begin_entry(batch, index + 1)
    }
}

/// The first step of a batch.
pub fn first_step(batch: &Vec<FileUpdate>) -> (step: IngestStep)
    ensures
        step == entry_step(update_views(batch@), 0),
{
    begin_entry(batch, 0)
}

/// The step that follows `step`, given whether `step` succeeded.
pub fn next_step(batch: &Vec<FileUpdate>, step: IngestStep, succeeded: bool) -> (next: IngestStep)
    ensures
        next == step_after(update_views(batch@), step, succeeded),
{
    match step {
        IngestStep::Reject { index } => begin_next_entry(batch, index),
        IngestStep::CreateDirectories { index } => {
            if succeeded && index < batch.len() && !has_traversal(batch[index].path.as_str()) {
                IngestStep::WriteFile { index }
            } else {
                begin_next_entry(batch, index)
            }
        },
        IngestStep::WriteFile { index } => begin_next_entry(batch, index),
        IngestStep::RefreshSourcemap => IngestStep::Done,
        IngestStep::Done => IngestStep::Done,
    }
}

/// The step that a run has reached after `done` steps, where `outcomes`
/// says of each step whether it succeeded.
pub open spec fn nth_step(batch: Seq<FileUpdateView>, outcomes: spec_fn(nat) -> bool, done: nat)
    -> IngestStep
    decreases done,
{
    if done == 0 {
        entry_step(batch, 0)
    } else {
        step_after(batch, nth_step(batch, outcomes, (done - 1) as nat), outcomes((done - 1) as nat))
    }
}

/// No step touches a traversal path: whatever step and outcome the caller
/// reports, the step that follows creates directories or writes a file only
/// for an entry of the batch whose path is no traversal, and rejects only an
/// entry whose path is one. The same holds of the first step.
pub proof fn lemma_steps_spare_traversal_paths(
    batch: Seq<FileUpdateView>,
    step: IngestStep,
    succeeded: bool,
)
    requires
        batch.len() <= usize::MAX,
    ensures
        spares_traversal_paths(batch, entry_step(batch, 0)),
        spares_traversal_paths(batch, step_after(batch, step, succeeded)),
{
}

/// What a step may do to the batch: create directories or write only for an
/// entry that may be written, reject only an entry whose path is a traversal.
pub open spec fn spares_traversal_paths(batch: Seq<FileUpdateView>, step: IngestStep) -> bool {
    match step {
        IngestStep::Reject { index } => index < batch.len() && is_traversal(
            batch[index as int].path,
        ),
        IngestStep::CreateDirectories { index } => is_writable(batch, index as int),
        IngestStep::WriteFile { index } => is_writable(batch, index as int),
        IngestStep::RefreshSourcemap => true,
        IngestStep::Done => true,
    }
}

/// No entry is skipped because an earlier one failed: whatever the outcomes
/// of the steps, a run reaches the first step of every entry, in at most two
/// steps for each entry before it, and after the last entry the refresh of
/// the sourcemap.
pub proof fn lemma_every_entry_is_reached(
    batch: Seq<FileUpdateView>,
    outcomes: spec_fn(nat) -> bool,
    index: nat,
) -> (done: nat)
    requires
        index <= batch.len(),
        batch.len() <= usize::MAX,
    ensures
        done <= 2 * index,
        nth_step(batch, outcomes, done) == entry_step(batch, index as int),
    decreases index,
{
    if index == 0 {
        0
    } else {
        let before = lemma_every_entry_is_reached(batch, outcomes, (index - 1) as nat);
        let second = nth_step(batch, outcomes, before + 1);
        if second == entry_step(batch, index as int) {
            before + 1
        } else {
            assert(second == IngestStep::WriteFile { index: (index - 1) as usize });
            assert(nth_step(batch, outcomes, before + 2) == entry_step(batch, index as int));
            before + 2
        }
    }
}

} // verus!
