//! A directory tree as it was read from disk: the input of the sourcemap
//! builder.

use crate::text::same;
use vstd::prelude::*;

verus! {

/// What a directory entry is on disk.
#[derive(Debug, Clone, Copy, PartialEq, Eq, Structural)]
pub enum EntryKind {
    Directory,
    File,
    /// Neither a directory nor a regular file.
    Other,
}

/// One entry of a directory listing, with the listing below it where the
/// entry is a directory.
#[derive(Debug)]
pub struct Entry {
    /// The entry's own name, without the directories that lead to it.
    pub name: String,
    /// The path under which the entry was found.
    pub path: String,
    pub kind: EntryKind,
    /// The entries of the directory, in the order in which the directory was
    /// read; empty for anything but a directory, and for a directory that
    /// could not be read.
    pub entries: Vec<Entry>,
}

/// The mathematical value of an [`Entry`].
pub ghost struct EntryView {
    pub name: Seq<char>,
    pub path: Seq<char>,
    pub kind: EntryKind,
    pub entries: Seq<EntryView>,
}

/// The values of a sequence of entries.
pub open spec fn entry_views(entries: Seq<Entry>) -> Seq<EntryView>
    decreases entries,
{
    Seq::new(
        entries.len(),
        |i: int|
            if 0 <= i < entries.len() {
                entries[i]@
            } else {
                arbitrary()
            },
    )
}

impl View for Entry {
    type V = EntryView;

    open spec fn view(&self) -> EntryView
        decreases self,
    {
        EntryView {
            name: self.name@,
            path: self.path@,
            kind: self.kind,
            entries: entry_views(self.entries@),
        }
    }
}

impl Entry {
    /// The value of an entry lists the values of the entries below it.
    pub proof fn lemma_view_entries(&self)
        ensures
            self@.entries == entry_views(self.entries@),
    {
    }
}

/// Whether `entry` has the given name and kind.
pub open spec fn is_entry(entry: EntryView, name: Seq<char>, kind: EntryKind) -> bool {
    entry.name == name && entry.kind == kind
}

/// The first entry of `entries` that has the given name and kind.
pub open spec fn first_entry(entries: Seq<EntryView>, name: Seq<char>, kind: EntryKind) -> Option<
    EntryView,
>
    decreases entries.len(),
{
    if entries.len() == 0 {
        None
    } else if is_entry(entries.first(), name, kind) {
        Some(entries.first())
    } else {
        first_entry(entries.drop_first(), name, kind)
    }
}

/// Finds the first entry that has the given name and kind, and returns its
/// position.
pub fn find_entry(entries: &Vec<Entry>, name: &str, kind: EntryKind) -> (found: Option<usize>)
    ensures
        match found {
            Some(at) => {
                &&& at < entries@.len()
                &&& first_entry(entry_views(entries@), name@, kind) == Some(entries@[at as int]@)
                &&& is_entry(entries@[at as int]@, name@, kind)
                &&& forall|i: int| 0 <= i < at ==> !is_entry(#[trigger] entries@[i]@, name@, kind)
            },
            None => {
                &&& first_entry(entry_views(entries@), name@, kind) is None
                &&& forall|i: int|
                    0 <= i < entries@.len() ==> !is_entry(#[trigger] entries@[i]@, name@, kind)
            },
        },
{
    let ghost all = entry_views(entries@);
    let mut at: usize = 0;
    assert(all.skip(0) =~= all);
    while at < entries.len()
        invariant
            at <= entries@.len(),
            all == entry_views(entries@),
            first_entry(all, name@, kind) == first_entry(all.skip(at as int), name@, kind),
            forall|i: int| 0 <= i < at ==> !is_entry(#[trigger] entries@[i]@, name@, kind),
        decreases entries@.len() - at,
    {
        let entry = &entries[at];
        proof {
            assert(all.skip(at as int).drop_first() =~= all.skip(at + 1));
        }
        if entry.kind == kind && same(entry.name.as_str(), name) {
            return Some(at);
        }
        at = at + 1;
    }
    None
}

} // verus!
