//! The ledger: entries and tags kept consistent with each other, loaded
//! from and turned back into the flat persisted record.

use vstd::prelude::*;

use crate::color::{allocate, contains_color, Color};
use crate::config::{empty_record, Config, ConfigView, Preferences};
use crate::entry::{reindexed, Entry, EntryStore, EntryView, NO_TAG};
use crate::error::LedgerError;
use crate::tags::{all_distinct, taken_by_other, valid_tags, TagRegistry};
use crate::text::is_blank;

verus! {

/// Every entry refers to one of the first `tag_count` tags, or to none.
pub open spec fn refs_valid(entries: Seq<EntryView>, tag_count: nat) -> bool {
    forall|i: int|
        0 <= i < entries.len() ==> #[trigger] entries[i].tag_index == NO_TAG
            || entries[i].tag_index < tag_count
}

/// The records that describe a consistent ledger: a valid tag registry
/// whose colors are distinct, and no entry that refers to a missing tag.
pub open spec fn valid_record(c: ConfigView) -> bool {
    &&& valid_tags(c.tags, c.colors)
    &&& all_distinct(c.colors)
    &&& refs_valid(c.entries, c.tags.len())
    &&& c.tags.len() < NO_TAG
}

/// What loading a record yields: the record itself when it is consistent,
/// otherwise an empty ledger.
pub open spec fn loaded_record(c: ConfigView) -> ConfigView {
    if valid_record(c) {
        c
    } else {
        empty_record()
    }
}

/// `c` is a color that the allocator may settle on for a new tag when
/// `preferred` was asked for and `taken` are in use.
pub open spec fn fresh_color(taken: Seq<Color>, preferred: Color, c: Color) -> bool {
    &&& !taken.contains(c)
    &&& !taken.contains(preferred) ==> c == preferred
}

/// `t` is the tag position that a session tagged `name` is recorded under:
/// none for an empty name, the existing tag of that name, or else a new tag
/// appended after the `names`.
pub open spec fn resolves(names: Seq<Seq<char>>, name: Seq<char>, t: usize) -> bool {
    if name.len() == 0 {
        t == NO_TAG
    } else if names.contains(name) {
        t < names.len() && names[t as int] == name
    } else {
        t == names.len()
    }
}

/// An activity ledger: the tag registry, the entry store, and preferences.
pub struct Ledger {
    tags: TagRegistry,
    entries: EntryStore,
    preferences: Preferences,
}

impl Ledger {
    /// Tag names, by position.
    pub closed spec fn tag_names(&self) -> Seq<Seq<char>> {
        self.tags.names()
    }

    /// Tag colors, by position (aligned with `tag_names`).
    pub closed spec fn colors(&self) -> Seq<Color> {
        self.tags.colors()
    }

    /// Entries, in insertion order.
    pub closed spec fn entries(&self) -> Seq<EntryView> {
        self.entries@
    }

    /// The stored color-assignment preference.
    pub closed spec fn tag_assign_behavior(&self) -> Seq<char> {
        self.preferences.tag_assign_behavior@
    }

    /// The ledger as a persisted record.
    pub open spec fn record(&self) -> ConfigView {
        ConfigView {
            entries: self.entries(),
            tags: self.tag_names(),
            colors: self.colors(),
            tag_assign_behavior: self.tag_assign_behavior(),
        }
    }

    /// The ledger is consistent; every operation keeps it so.
    pub open spec fn wf(&self) -> bool {
        valid_record(self.record())
    }

    /// An empty ledger with default preferences.
    pub fn new() -> (l: Ledger)
        ensures
            l.wf(),
            l.record() == empty_record(),
    {
        let l = Ledger {
            tags: TagRegistry::new(),
            entries: EntryStore::new(),
            preferences: Preferences::default(),
        };
        assert(l.record() =~= empty_record());
        l
    }

    /// Rebuilds a ledger from a persisted record. A record that does not
    /// describe a consistent ledger yields an empty one instead.
    #[verifier::loop_isolation(false)]
    pub fn load(config: Config) -> (l: Ledger)
        ensures
            l.wf(),
            l.record() == loaded_record(config@),
    {
        let ghost c = config@;
        let Config { entry, tag_list, colors, preferences } = config;
        let tags = match TagRegistry::from_parts(tag_list, colors) {
            Some(t) => t,
            None => return Ledger::new(),
        };
        let n = tags.len();
        if n == NO_TAG {
            return Ledger::new();
        }
        let taken = tags.colors_slice();
        let mut i: usize = 0;
        while i < taken.len()
            invariant
                i <= taken@.len(),
                taken@ == c.colors,
                forall|a: int, b: int|
                    0 <= a < i && 0 <= b < taken@.len() && a != b ==> taken@[a] != taken@[b],
            decreases taken@.len() - i,
        {
            let mut j: usize = i + 1;
            while j < taken.len()
                invariant
                    i < j <= taken@.len(),
                    taken@ == c.colors,
                    forall|b: int| i < b < j ==> taken@[i as int] != #[trigger] taken@[b],
                decreases taken@.len() - j,
            {
                if taken[i] == taken[j] {
                    assert(!all_distinct(c.colors)) by {
                        assert(c.colors[i as int] == c.colors[j as int]);
                    }
                    return Ledger::new();
                }
                j += 1;
            }
            i += 1;
        }
        let entries = EntryStore::from_vec(entry);
        let mut k: usize = 0;
        while k < entries.len()
            invariant
                k <= entries@.len(),
                n == tags.names().len(),
                entries@ == c.entries,
                tags.names() == c.tags,
                forall|a: int|
                    0 <= a < k ==> #[trigger] entries@[a].tag_index == NO_TAG || entries@[a].tag_index
                        < n,
            decreases entries@.len() - k,
        {
            let t = entries.get(k).tag_index;
            if t != NO_TAG && t >= n {
                assert(!refs_valid(c.entries, c.tags.len())) by {
                    assert(c.entries[k as int].tag_index == t);
                }
                return Ledger::new();
            }
            k += 1;
        }
        let l = Ledger { tags, entries, preferences };
        assert(l.record() =~= c);
        l
    }

    /// The ledger as a persisted record.
    pub fn persist(&self) -> (c: Config)
        ensures
            c@ == self.record(),
    {
        let c = Config {
            entry: self.entries.to_vec(),
            tag_list: self.tags.names_vec(),
            colors: self.tags.colors_vec(),
            preferences: Preferences {
                tag_assign_behavior: self.preferences.tag_assign_behavior.clone(),
            },
        };
        assert(c@ =~= self.record());
        c
    }

    /// Adds a tag named `name`, which is non-empty and not yet present. It
    /// gets `color` when that is free, else a color found by the allocator;
    /// if the allocator gives up on a taken color, nothing changes.
    fn add_tag(&mut self, name: String, color: Color) -> (r: Result<usize, LedgerError>)
        requires
            old(self).wf(),
            old(self).tag_names().len() + 1 < NO_TAG,
            name@.len() > 0,
            !old(self).tag_names().contains(name@),
        ensures
            final(self).wf(),
            final(self).entries() == old(self).entries(),
            final(self).tag_assign_behavior() == old(self).tag_assign_behavior(),
            !old(self).colors().contains(color) ==> r is Ok,
            r is Err ==> r == Err::<usize, LedgerError>(LedgerError::ColorSpaceExhausted),
            r is Err ==> final(self).record() == old(self).record(),
            r is Ok ==> r == Ok::<usize, LedgerError>(old(self).tag_names().len() as usize),
            r is Ok ==> final(self).tag_names() == old(self).tag_names().push(name@),
            r is Ok ==> exists|c: Color| fresh_color(old(self).colors(), color, c) && final(self).colors() == old(self).colors().push(c),
    {
        let choice = allocate(self.tags.colors_slice(), color);
        if contains_color(self.tags.colors_slice(), choice.color) {
            return Err(LedgerError::ColorSpaceExhausted);
        }
        let r = self.tags.insert(name, choice.color);
        proof {
            assert(fresh_color(old(self).colors(), color, choice.color));
            let cs = self.colors();
            assert forall|a: int, b: int| 0 <= a < cs.len() && 0 <= b < cs.len() && a != b implies cs[a] != cs[b] by {
                if a < cs.len() - 1 && b < cs.len() - 1 {
                    assert(cs[a] == old(self).colors()[a]);
                    assert(cs[b] == old(self).colors()[b]);
                } else if a == cs.len() - 1 {
                    assert(old(self).colors()[b] == cs[b]);
                } else {
                    assert(old(self).colors()[a] == cs[a]);
                }
            }
        }
        r
    }

    /// Records a finished tracking session as a new entry and returns its
    /// position. The session's tag is resolved by name: an empty name means
    /// no tag; an existing tag is reused with its own color (the `color`
    /// given is then ignored); an unknown name creates a tag whose color is
    /// `color` when free, else one found by the allocator.
    pub fn commit_session(&mut self, name: String, tag_name: String, color: Color, elapsed_secs: u64) -> (r: Result<usize, LedgerError>)
        requires
            old(self).wf(),
            old(self).tag_names().len() + 1 < NO_TAG,
        ensures
            final(self).wf(),
            final(self).tag_assign_behavior() == old(self).tag_assign_behavior(),
            tag_name@.len() == 0 || old(self).tag_names().contains(tag_name@) || !old(self).colors().contains(color) ==> r is Ok,
            r is Err ==> r == Err::<usize, LedgerError>(LedgerError::ColorSpaceExhausted),
            r is Err ==> final(self).record() == old(self).record(),
            r matches Ok(i) ==> i == old(self).entries().len(),
            r matches Ok(i) ==> final(self).entries() == old(self).entries().push(EntryView { name: name@, tag_index: final(self).entries()[i as int].tag_index, elapsed_secs }),
            r matches Ok(i) ==> resolves(old(self).tag_names(), tag_name@, final(self).entries()[i as int].tag_index),
            r is Ok && (tag_name@.len() == 0 || old(self).tag_names().contains(tag_name@)) ==> final(self).tag_names() == old(self).tag_names() && final(self).colors() == old(self).colors(),
            r is Ok && tag_name@.len() > 0 && !old(self).tag_names().contains(tag_name@) ==> final(self).tag_names() == old(self).tag_names().push(tag_name@),
            r is Ok && tag_name@.len() > 0 && !old(self).tag_names().contains(tag_name@) ==> exists|c: Color| fresh_color(old(self).colors(), color, c) && final(self).colors() == old(self).colors().push(c),
    {
        let tag_index: usize = if tag_name.as_str().unicode_len() == 0 {
            NO_TAG
        } else {
            match self.tags.find(&tag_name) {
                Some(t) => t,
                None => match self.add_tag(tag_name, color) {
                    Ok(t) => t,
                    Err(e) => return Err(e),
                },
            }
        };
        let i = self.entries.append(name, tag_index, elapsed_secs);
        Ok(i)
    }

    /// Creates a tag and returns its position. Its color is `color` when
    /// free, else one found by the allocator.
    pub fn insert_tag(&mut self, name: String, color: Color) -> (r: Result<usize, LedgerError>)
        requires
            old(self).wf(),
            old(self).tag_names().len() + 1 < NO_TAG,
        ensures
            final(self).wf(),
            final(self).entries() == old(self).entries(),
            final(self).tag_assign_behavior() == old(self).tag_assign_behavior(),
            name@.len() == 0 ==> r == Err::<usize, LedgerError>(LedgerError::EmptyName),
            old(self).tag_names().contains(name@) ==> r == Err::<usize, LedgerError>(LedgerError::DuplicateTag),
            name@.len() > 0 && !old(self).tag_names().contains(name@) && !old(self).colors().contains(color) ==> r is Ok,
            name@.len() > 0 && !old(self).tag_names().contains(name@) && r is Err ==> r == Err::<usize, LedgerError>(LedgerError::ColorSpaceExhausted),
            r is Err ==> final(self).record() == old(self).record(),
            r is Ok ==> r == Ok::<usize, LedgerError>(old(self).tag_names().len() as usize),
            r is Ok ==> final(self).tag_names() == old(self).tag_names().push(name@),
            r is Ok ==> exists|c: Color| fresh_color(old(self).colors(), color, c) && final(self).colors() == old(self).colors().push(c),
    {
        if name.as_str().unicode_len() == 0 {
            return Err(LedgerError::EmptyName);
        }
        if self.tags.find(&name).is_some() {
            return Err(LedgerError::DuplicateTag);
        }
        self.add_tag(name, color)
    }

    /// Renames the tag at `index`; its color and position stay.
    pub fn rename_tag(&mut self, index: usize, new_name: String) -> (r: Result<(), LedgerError>)
        requires
            old(self).wf(),
        ensures
            final(self).wf(),
            final(self).entries() == old(self).entries(),
            final(self).colors() == old(self).colors(),
            final(self).tag_assign_behavior() == old(self).tag_assign_behavior(),
            index >= old(self).tag_names().len() ==> r == Err::<(), LedgerError>(LedgerError::InvalidIndex),
            index < old(self).tag_names().len() && new_name@.len() == 0 ==> r == Err::<(), LedgerError>(LedgerError::EmptyName),
            index < old(self).tag_names().len() && new_name@.len() > 0 && taken_by_other(old(self).tag_names(), index as int, new_name@) ==> r == Err::<(), LedgerError>(LedgerError::DuplicateTag),
            index < old(self).tag_names().len() && new_name@.len() > 0 && !taken_by_other(old(self).tag_names(), index as int, new_name@) ==> r is Ok,
            r is Ok ==> final(self).tag_names() == old(self).tag_names().update(index as int, new_name@),
            r is Err ==> final(self).tag_names() == old(self).tag_names(),
    {
        self.tags.rename(index, new_name)
    }

    /// Deletes the tag at `index`. Later tags move down by one position, and
    /// every entry is repointed to match: entries of the deleted tag get no
    /// tag, entries of a later tag follow it down.
    pub fn delete_tag(&mut self, index: usize) -> (r: Result<(), LedgerError>)
        requires
            old(self).wf(),
        ensures
            final(self).wf(),
            final(self).tag_assign_behavior() == old(self).tag_assign_behavior(),
            index >= old(self).tag_names().len() ==> r == Err::<(), LedgerError>(LedgerError::InvalidIndex),
            index >= old(self).tag_names().len() ==> final(self).record() == old(self).record(),
            index < old(self).tag_names().len() ==> r is Ok,
            index < old(self).tag_names().len() ==> final(self).tag_names() == old(self).tag_names().remove(index as int),
            index < old(self).tag_names().len() ==> final(self).colors() == old(self).colors().remove(index as int),
            index < old(self).tag_names().len() ==> final(self).entries().len() == old(self).entries().len(),
            index < old(self).tag_names().len() ==> forall|j: int| 0 <= j < old(self).entries().len() ==> #[trigger] final(self).entries()[j] == (EntryView { tag_index: reindexed(old(self).entries()[j].tag_index, index), ..old(self).entries()[j] }),
    {
        if index >= self.tags.len() {
            return Err(LedgerError::InvalidIndex);
        }
        let r = self.tags.delete(index);
        self.entries.reindex_after_tag_delete(index);
        proof {
            let n = self.tag_names().len();
            assert forall|j: int| 0 <= j < self.entries().len() implies #[trigger] self.entries()[j].tag_index == NO_TAG || self.entries()[j].tag_index < n by {
                assert(old(self).entries()[j].tag_index == NO_TAG || old(self).entries()[j].tag_index < n + 1);
            }
            let cs = self.colors();
            let os = old(self).colors();
            assert forall|a: int, b: int| 0 <= a < cs.len() && 0 <= b < cs.len() && a != b implies cs[a] != cs[b] by {
                let oa = if a < index { a } else { a + 1 };
                let ob = if b < index { b } else { b + 1 };
                assert(cs[a] == os[oa]);
                assert(cs[b] == os[ob]);
            }
        }
        r
    }

    /// Deletes the entry at `index`; later entries move down by one and
    /// keep their order. Tags are untouched, even one that no entry refers
    /// to any more.
    pub fn delete_entry(&mut self, index: usize) -> (r: Result<(), LedgerError>)
        requires
            old(self).wf(),
        ensures
            final(self).wf(),
            final(self).tag_names() == old(self).tag_names(),
            final(self).colors() == old(self).colors(),
            final(self).tag_assign_behavior() == old(self).tag_assign_behavior(),
            index >= old(self).entries().len() ==> r == Err::<(), LedgerError>(LedgerError::InvalidIndex) && final(self).entries() == old(self).entries(),
            index < old(self).entries().len() ==> r is Ok && final(self).entries() == old(self).entries().remove(index as int),
    {
        self.entries.remove(index)
    }

    /// Renames the entry at `index`. A blank name (empty or white space
    /// only) abandons the edit: the name stays and the call succeeds.
    pub fn rename_entry(&mut self, index: usize, new_name: String) -> (r: Result<(), LedgerError>)
        requires
            old(self).wf(),
        ensures
            final(self).wf(),
            final(self).tag_names() == old(self).tag_names(),
            final(self).colors() == old(self).colors(),
            final(self).tag_assign_behavior() == old(self).tag_assign_behavior(),
            index >= old(self).entries().len() ==> r == Err::<(), LedgerError>(LedgerError::InvalidIndex) && final(self).entries() == old(self).entries(),
            index < old(self).entries().len() && is_blank(new_name@) ==> r is Ok && final(self).entries() == old(self).entries(),
            index < old(self).entries().len() && !is_blank(new_name@) ==> r is Ok && final(self).entries() == old(self).entries().update(index as int, EntryView { name: new_name@, ..old(self).entries()[index as int] }),
    {
        self.entries.rename(index, new_name)
    }

    /// Points the entry at `entry_index` to the existing tag at `tag_index`.
    pub fn retag_entry(&mut self, entry_index: usize, tag_index: usize) -> (r: Result<(), LedgerError>)
        requires
            old(self).wf(),
        ensures
            final(self).wf(),
            final(self).tag_names() == old(self).tag_names(),
            final(self).colors() == old(self).colors(),
            final(self).tag_assign_behavior() == old(self).tag_assign_behavior(),
            entry_index >= old(self).entries().len() || tag_index >= old(self).tag_names().len() ==> r == Err::<(), LedgerError>(LedgerError::InvalidIndex) && final(self).entries() == old(self).entries(),
            entry_index < old(self).entries().len() && tag_index < old(self).tag_names().len() ==> r is Ok && final(self).entries() == old(self).entries().update(entry_index as int, EntryView { tag_index, ..old(self).entries()[entry_index as int] }),
    {
        if tag_index >= self.tags.len() {
            return Err(LedgerError::InvalidIndex);
        }
        self.entries.retag(entry_index, tag_index)
    }

    pub fn tag_count(&self) -> (n: usize)
        requires
            self.wf(),
        ensures
            n == self.tag_names().len(),
    {
        self.tags.len()
    }

    pub fn entry_count(&self) -> (n: usize)
        ensures
            n == self.entries().len(),
    {
        self.entries.len()
    }

    pub fn entry(&self, index: usize) -> (e: &Entry)
        requires
            index < self.entries().len(),
        ensures
            e@ == self.entries()[index as int],
    {
        self.entries.get(index)
    }

    pub fn tag_name(&self, index: usize) -> (s: &String)
        requires
            index < self.tag_names().len(),
        ensures
            s@ == self.tag_names()[index as int],
    {
        self.tags.name(index)
    }

    pub fn tag_color(&self, index: usize) -> (c: Color)
        requires
            index < self.colors().len(),
        ensures
            c == self.colors()[index as int],
    {
        self.tags.color(index)
    }

    /// Position of the tag named `name`, if there is one.
    pub fn find_tag(&self, name: &String) -> (r: Option<usize>)
        requires
            self.wf(),
        ensures
            match r {
                Some(i) => i < self.tag_names().len() && self.tag_names()[i as int] == name@,
                None => !self.tag_names().contains(name@),
            },
    {
        self.tags.find(name)
    }

    pub fn preferences(&self) -> (p: &Preferences)
        ensures
            p.tag_assign_behavior@ == self.tag_assign_behavior(),
    {
        &self.preferences
    }
}

/// No entry of a well-formed ledger refers to a tag that is not there:
/// each refers to none or to a present position. Every operation keeps the
/// ledger well formed, so this holds after any sequence of them.
pub proof fn lemma_no_dangling_refs(l: &Ledger)
    requires
        l.wf(),
    ensures
        forall|i: int|
            0 <= i < l.entries().len() ==> #[trigger] l.entries()[i].tag_index == NO_TAG
                || l.entries()[i].tag_index < l.tag_names().len(),
{
}

/// No two tags of a well-formed ledger share a color. Every operation keeps
/// the ledger well formed, so this holds after any sequence of them.
pub proof fn lemma_tag_colors_distinct(l: &Ledger)
    requires
        l.wf(),
    ensures
        forall|a: int, b: int|
            0 <= a < l.colors().len() && 0 <= b < l.colors().len() && a != b ==> l.colors()[a]
                != l.colors()[b],
{
}

/// No two tags of a well-formed ledger share a name.
pub proof fn lemma_tag_names_distinct(l: &Ledger)
    requires
        l.wf(),
    ensures
        forall|a: int, b: int|
            0 <= a < l.tag_names().len() && 0 <= b < l.tag_names().len() && a != b
                ==> l.tag_names()[a] != l.tag_names()[b],
{
}

/// Persisting a ledger, loading that record and persisting the result gives
/// the record that persisting once gave: `first` is `persist(ledger)`,
/// `reloaded` is `load(first)` and `second` is `persist(reloaded)`.
pub proof fn lemma_persist_load_round_trip(ledger: &Ledger, first: ConfigView, reloaded: &Ledger, second: ConfigView)
    requires
        ledger.wf(),
        first == ledger.record(),
        reloaded.record() == loaded_record(first),
        second == reloaded.record(),
    ensures
        second == first,
{
}

} // verus!
