//! Recorded activities and the ordered store that holds them.

use vstd::prelude::*;

use crate::error::LedgerError;
use crate::text::{blank, is_blank};

verus! {

/// The tag position that stands for "no tag assigned". No registry can hold
/// a tag at this position.
pub const NO_TAG: usize = usize::MAX;

/// One completed tracking session.
pub struct Entry {
    /// Name of the activity.
    pub name: String,
    /// Position of the entry's tag in the tag registry, or `NO_TAG`.
    pub tag_index: usize,
    /// Accumulated work time, in seconds.
    pub elapsed_secs: u64,
}

/// The mathematical value of an `Entry`.
pub struct EntryView {
    pub name: Seq<char>,
    pub tag_index: usize,
    pub elapsed_secs: u64,
}

impl View for Entry {
    type V = EntryView;

    open spec fn view(&self) -> EntryView {
        EntryView { name: self.name@, tag_index: self.tag_index, elapsed_secs: self.elapsed_secs }
    }
}

impl Entry {
    pub fn new(name: String, tag_index: usize, elapsed_secs: u64) -> (e: Entry)
        ensures
            e@ == (EntryView { name: name@, tag_index, elapsed_secs }),
    {
        Entry { name, tag_index, elapsed_secs }
    }

    /// A copy with the same view.
    pub fn duplicate(&self) -> (e: Entry)
        ensures
            e@ == self@,
    {
        Entry { name: self.name.clone(), tag_index: self.tag_index, elapsed_secs: self.elapsed_secs }
    }
}

/// Where a tag reference points once the tag at position `deleted` is
/// removed: references to it become `NO_TAG`, references above it move down
/// by one, the rest stay.
pub open spec fn reindexed(tag_index: usize, deleted: usize) -> usize {
    if tag_index == deleted {
        NO_TAG
    } else if tag_index != NO_TAG && tag_index > deleted {
        (tag_index - 1) as usize
    } else {
        tag_index
    }
}

/// The views of a sequence of entries.
pub open spec fn entry_views(s: Seq<Entry>) -> Seq<EntryView> {
    s.map_values(|e: Entry| e@)
}

/// The entries, in insertion order (which is also display order).
pub struct EntryStore {
    entries: Vec<Entry>,
}

impl View for EntryStore {
    type V = Seq<EntryView>;

    closed spec fn view(&self) -> Seq<EntryView> {
        entry_views(self.entries@)
    }
}

impl EntryStore {
    pub fn new() -> (s: EntryStore)
        ensures
            s@ == Seq::<EntryView>::empty(),
    {
        let s = EntryStore { entries: Vec::new() };
        assert(s@ =~= Seq::<EntryView>::empty());
        s
    }

    /// A store holding `entries` in the given order.
    pub fn from_vec(entries: Vec<Entry>) -> (s: EntryStore)
        ensures
            s@ == entry_views(entries@),
    {
        EntryStore { entries }
    }

    pub fn len(&self) -> (n: usize)
        ensures
            n == self@.len(),
    {
        self.entries.len()
    }

    pub fn get(&self, index: usize) -> (e: &Entry)
        requires
            index < self@.len(),
        ensures
            e@ == self@[index as int],
    {
        &self.entries[index]
    }

    /// Copies of all entries, in order.
    pub fn to_vec(&self) -> (v: Vec<Entry>)
        ensures
            entry_views(v@) == self@,
    {
        let mut v: Vec<Entry> = Vec::new();
        let mut i: usize = 0;
        while i < self.entries.len()
            invariant
                i <= self.entries@.len(),
                v@.len() == i,
                forall|j: int| 0 <= j < i ==> #[trigger] v@[j]@ == self.entries@[j]@,
            decreases self.entries@.len() - i,
        {
            v.push(self.entries[i].duplicate());
            i += 1;
        }
        assert(entry_views(v@) =~= self@);
        v
    }

    /// Appends an entry and returns its position. The tag position is not
    /// checked here.
    pub fn append(&mut self, name: String, tag_index: usize, elapsed_secs: u64) -> (i: usize)
        ensures
            i == old(self)@.len(),
            final(self)@ == old(self)@.push(EntryView { name: name@, tag_index, elapsed_secs }),
    {
        let i = self.entries.len();
        self.entries.push(Entry::new(name, tag_index, elapsed_secs));
        assert(self@ =~= old(self)@.push(EntryView { name: name@, tag_index, elapsed_secs }));
        i
    }

    /// Renames the entry at `index`. A blank name (empty or white space only)
    /// abandons the edit: the entry keeps its name and the call succeeds.
    pub fn rename(&mut self, index: usize, new_name: String) -> (r: Result<(), LedgerError>)
        ensures
            index >= old(self)@.len() ==> r == Err::<(), LedgerError>(LedgerError::InvalidIndex)
                && final(self)@ == old(self)@,
            index < old(self)@.len() && is_blank(new_name@) ==> r is Ok && final(self)@ == old(
                self,
            )@,
            index < old(self)@.len() && !is_blank(new_name@) ==> r is Ok && final(self)@ == old(
                self,
            )@.update(index as int, EntryView { name: new_name@, ..old(self)@[index as int] }),
    {
        if index >= self.entries.len() {
            return Err(LedgerError::InvalidIndex);
        }
        if blank(new_name.as_str()) {
            return Ok(());
        }
        self.entries[index].name = new_name;
        assert(self@ =~= old(self)@.update(
            index as int,
            EntryView { name: new_name@, ..old(self)@[index as int] },
        ));
        Ok(())
    }

    /// Removes the entry at `index`; later entries move down by one and keep
    /// their order.
    pub fn remove(&mut self, index: usize) -> (r: Result<(), LedgerError>)
        ensures
            index >= old(self)@.len() ==> r == Err::<(), LedgerError>(LedgerError::InvalidIndex)
                && final(self)@ == old(self)@,
            index < old(self)@.len() ==> r is Ok && final(self)@ == old(self)@.remove(index as int),
    {
        if index >= self.entries.len() {
            return Err(LedgerError::InvalidIndex);
        }
        self.entries.remove(index);
        assert(self@ =~= old(self)@.remove(index as int));
        Ok(())
    }

    /// Points the entry at `index` to the tag at `tag_index`. Whether that
    /// tag exists is checked by the caller, which sees the registry.
    pub fn retag(&mut self, index: usize, tag_index: usize) -> (r: Result<(), LedgerError>)
        ensures
            index >= old(self)@.len() ==> r == Err::<(), LedgerError>(LedgerError::InvalidIndex)
                && final(self)@ == old(self)@,
            index < old(self)@.len() ==> r is Ok && final(self)@ == old(self)@.update(
                index as int,
                EntryView { tag_index, ..old(self)@[index as int] },
            ),
    {
        if index >= self.entries.len() {
            return Err(LedgerError::InvalidIndex);
        }
        self.entries[index].tag_index = tag_index;
        assert(self@ =~= old(self)@.update(
            index as int,
            EntryView { tag_index, ..old(self)@[index as int] },
        ));
        Ok(())
    }

    /// Applies `reindexed(_, deleted)` to the tag position of every entry.
    pub fn reindex_after_tag_delete(&mut self, deleted: usize)
        ensures
            final(self)@.len() == old(self)@.len(),
            forall|j: int|
                0 <= j < old(self)@.len() ==> #[trigger] final(self)@[j] == (EntryView {
                    tag_index: reindexed(old(self)@[j].tag_index, deleted),
                    ..old(self)@[j]
                }),
    {
        let ghost before = self.entries@;
        let n = self.entries.len();
        let mut i: usize = 0;
        while i < n
            invariant
                n == before.len(),
                self.entries@.len() == n,
                i <= n,
                forall|j: int|
                    0 <= j < i ==> #[trigger] self.entries@[j]@ == (EntryView {
                        tag_index: reindexed(before[j].tag_index, deleted),
                        ..before[j]@
                    }),
                forall|j: int| i <= j < n ==> #[trigger] self.entries@[j] == before[j],
            decreases n - i,
        {
            let t = self.entries[i].tag_index;
            let moved = if t == deleted {
                NO_TAG
            } else if t != NO_TAG && t > deleted {
                t - 1
            } else {
                t
            };
            self.entries[i].tag_index = moved;
            i += 1;
        }
    }
}

} // verus!
