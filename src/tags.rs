//! The tag registry: ordered, uniquely named tags, each with one color.

use vstd::prelude::*;

use crate::color::{is_first_index, Color};
use crate::error::LedgerError;

verus! {

/// No two positions of `s` hold the same value.
pub open spec fn all_distinct<T>(s: Seq<T>) -> bool {
    forall|i: int, j: int| 0 <= i < s.len() && 0 <= j < s.len() && i != j ==> s[i] != s[j]
}

/// No name in `s` is empty.
pub open spec fn all_nonempty(s: Seq<Seq<char>>) -> bool {
    forall|i: int| 0 <= i < s.len() ==> #[trigger] s[i].len() > 0
}

/// The views of a sequence of strings.
pub open spec fn string_views(s: Seq<String>) -> Seq<Seq<char>> {
    s.map_values(|x: String| x@)
}

/// What a registry may hold: one color per name, names distinct and
/// non-empty.
pub open spec fn valid_tags(names: Seq<Seq<char>>, colors: Seq<Color>) -> bool {
    &&& names.len() == colors.len()
    &&& all_distinct(names)
    &&& all_nonempty(names)
}

/// Some tag other than the one at `index` is named `name`.
pub open spec fn taken_by_other(names: Seq<Seq<char>>, index: int, name: Seq<char>) -> bool {
    exists|j: int| 0 <= j < names.len() && j != index && names[j] == name
}

/// Position of the first string in `names` whose text is `name`.
pub fn find_name(names: &[String], name: &String) -> (r: Option<usize>)
    ensures
        match r {
            Some(i) => is_first_index(string_views(names@), name@, i as int),
            None => !string_views(names@).contains(name@),
        },
{
    let mut i: usize = 0;
    while i < names.len()
        invariant
            i <= names@.len(),
            forall|j: int| 0 <= j < i ==> names@[j]@ != name@,
        decreases names@.len() - i,
    {
        if names[i] == *name {
            return Some(i);
        }
        i += 1;
    }
    proof {
        if string_views(names@).contains(name@) {
            let k = choose|k: int| 0 <= k < names@.len() && string_views(names@)[k] == name@;
            assert(names@[k]@ == name@);
        }
    }
    None
}

/// Tags in registry order. A tag is referred to by its position, which
/// stays valid until the next deletion.
pub struct TagRegistry {
    names: Vec<String>,
    colors: Vec<Color>,
}

impl TagRegistry {
    /// Tag names, by position.
    pub closed spec fn names(&self) -> Seq<Seq<char>> {
        string_views(self.names@)
    }

    /// Tag colors, by position (aligned with `names`).
    pub closed spec fn colors(&self) -> Seq<Color> {
        self.colors@
    }

    pub open spec fn wf(&self) -> bool {
        valid_tags(self.names(), self.colors())
    }

    pub fn new() -> (t: TagRegistry)
        ensures
            t.wf(),
            t.names() == Seq::<Seq<char>>::empty(),
            t.colors() == Seq::<Color>::empty(),
    {
        let t = TagRegistry { names: Vec::new(), colors: Vec::new() };
        assert(t.names() =~= Seq::<Seq<char>>::empty());
        t
    }

    /// A registry with the given names and colors, if they form a valid one.
    pub fn from_parts(names: Vec<String>, colors: Vec<Color>) -> (r: Option<TagRegistry>)
        ensures
            r is Some <==> valid_tags(string_views(names@), colors@),
            r matches Some(t) ==> t.names() == string_views(names@) && t.colors() == colors@,
    {
        if names.len() != colors.len() {
            return None;
        }
        let mut i: usize = 0;
        while i < names.len()
            invariant
                i <= names@.len(),
                names@.len() == colors@.len(),
                forall|a: int| 0 <= a < i ==> #[trigger] names@[a]@.len() > 0,
                forall|a: int, b: int| 0 <= a < i && 0 <= b < names@.len() && a != b ==> names@[a]@ != names@[b]@,
            decreases names@.len() - i,
        {
            if names[i].as_str().unicode_len() == 0 {
                proof {
                    assert(string_views(names@)[i as int].len() == 0);
                }
                return None;
            }
            let mut j: usize = i + 1;
            while j < names.len()
                invariant
                    i < j <= names@.len(),
                    forall|b: int| i < b < j ==> names@[i as int]@ != #[trigger] names@[b]@,
                decreases names@.len() - j,
            {
                if names[i] == names[j] {
                    proof {
                        assert(string_views(names@)[i as int] == string_views(names@)[j as int]);
                    }
                    return None;
                }
                j += 1;
            }
            i += 1;
        }
        let t = TagRegistry { names, colors };
        assert(t.wf());
        Some(t)
    }

    pub fn len(&self) -> (n: usize)
        requires
            self.wf(),
        ensures
            n == self.names().len(),
            n == self.colors().len(),
    {
        self.names.len()
    }

    pub fn name(&self, index: usize) -> (s: &String)
        requires
            index < self.names().len(),
        ensures
            s@ == self.names()[index as int],
    {
        &self.names[index]
    }

    pub fn color(&self, index: usize) -> (c: Color)
        requires
            index < self.colors().len(),
        ensures
            c == self.colors()[index as int],
    {
        self.colors[index]
    }

    /// All colors in use, by position.
    pub fn colors_slice(&self) -> (s: &[Color])
        ensures
            s@ == self.colors(),
    {
        self.colors.as_slice()
    }

    /// Copies of the names, by position.
    pub fn names_vec(&self) -> (v: Vec<String>)
        ensures
            string_views(v@) == self.names(),
    {
        let mut v: Vec<String> = Vec::new();
        let mut i: usize = 0;
        while i < self.names.len()
            invariant
                i <= self.names@.len(),
                v@.len() == i,
                forall|j: int| 0 <= j < i ==> #[trigger] v@[j]@ == self.names@[j]@,
            decreases self.names@.len() - i,
        {
            v.push(self.names[i].clone());
            i += 1;
        }
        assert(string_views(v@) =~= self.names());
        v
    }

    /// Copies of the colors, by position.
    pub fn colors_vec(&self) -> (v: Vec<Color>)
        ensures
            v@ == self.colors(),
    {
        let mut v: Vec<Color> = Vec::new();
        let mut i: usize = 0;
        while i < self.colors.len()
            invariant
                i <= self.colors@.len(),
                v@ == self.colors@.subrange(0, i as int),
            decreases self.colors@.len() - i,
        {
            v.push(self.colors[i]);
            i += 1;
            assert(v@ =~= self.colors@.subrange(0, i as int));
        }
        assert(v@ =~= self.colors@);
        v
    }

    /// Position of the tag named `name`, if there is one.
    pub fn find(&self, name: &String) -> (r: Option<usize>)
        ensures
            match r {
                Some(i) => is_first_index(self.names(), name@, i as int),
                None => !self.names().contains(name@),
            },
    {
        find_name(self.names.as_slice(), name)
    }

    /// Appends a tag and returns its position. The color is taken as given:
    /// keeping colors distinct is the caller's concern.
    pub fn insert(&mut self, name: String, color: Color) -> (r: Result<usize, LedgerError>)
        requires
            old(self).wf(),
        ensures
            final(self).wf(),
            name@.len() == 0 ==> r == Err::<usize, LedgerError>(LedgerError::EmptyName),
            old(self).names().contains(name@) ==> r == Err::<usize, LedgerError>(LedgerError::DuplicateTag),
            name@.len() > 0 && !old(self).names().contains(name@) ==> r == Ok::<usize, LedgerError>(old(self).names().len() as usize),
            r is Ok ==> final(self).names() == old(self).names().push(name@),
            r is Ok ==> final(self).colors() == old(self).colors().push(color),
            r is Err ==> final(self).names() == old(self).names(),
            r is Err ==> final(self).colors() == old(self).colors(),
    {
        if name.as_str().unicode_len() == 0 {
            return Err(LedgerError::EmptyName);
        }
        if self.find(&name).is_some() {
            return Err(LedgerError::DuplicateTag);
        }
        let i = self.names.len();
        self.names.push(name);
        self.colors.push(color);
        assert(self.names() =~= old(self).names().push(name@));
        Ok(i)
    }

    /// Renames the tag at `index`. Its color and position stay, so entries
    /// that refer to it still do.
    pub fn rename(&mut self, index: usize, new_name: String) -> (r: Result<(), LedgerError>)
        requires
            old(self).wf(),
        ensures
            final(self).wf(),
            final(self).colors() == old(self).colors(),
            index >= old(self).names().len() ==> r == Err::<(), LedgerError>(LedgerError::InvalidIndex),
            index < old(self).names().len() && new_name@.len() == 0 ==> r == Err::<(), LedgerError>(LedgerError::EmptyName),
            index < old(self).names().len() && new_name@.len() > 0 && taken_by_other(old(self).names(), index as int, new_name@) ==> r == Err::<(), LedgerError>(LedgerError::DuplicateTag),
            index < old(self).names().len() && new_name@.len() > 0 && !taken_by_other(old(self).names(), index as int, new_name@) ==> r is Ok,
            r is Ok ==> final(self).names() == old(self).names().update(index as int, new_name@),
            r is Err ==> final(self).names() == old(self).names(),
    {
        if index >= self.names.len() {
            return Err(LedgerError::InvalidIndex);
        }
        if new_name.as_str().unicode_len() == 0 {
            return Err(LedgerError::EmptyName);
        }
        match self.find(&new_name) {
            Some(j) => {
                if j != index {
                    return Err(LedgerError::DuplicateTag);
                }
            },
            None => {},
        }
        self.names.set(index, new_name);
        assert(self.names() =~= old(self).names().update(index as int, new_name@));
        Ok(())
    }

    /// Removes the tag at `index` with its color; later tags move down by
    /// one position.
    pub fn delete(&mut self, index: usize) -> (r: Result<(), LedgerError>)
        requires
            old(self).wf(),
        ensures
            final(self).wf(),
            index >= old(self).names().len() ==> r == Err::<(), LedgerError>(LedgerError::InvalidIndex),
            index >= old(self).names().len() ==> final(self).names() == old(self).names(),
            index >= old(self).names().len() ==> final(self).colors() == old(self).colors(),
            index < old(self).names().len() ==> r is Ok,
            index < old(self).names().len() ==> final(self).names() == old(self).names().remove(index as int),
            index < old(self).names().len() ==> final(self).colors() == old(self).colors().remove(index as int),
    {
        if index >= self.names.len() {
            return Err(LedgerError::InvalidIndex);
        }
        self.names.remove(index);
        self.colors.remove(index);
        assert(self.names() =~= old(self).names().remove(index as int));
        Ok(())
    }
}

} // verus!
