//! The flat persisted record of a ledger, and the user's preferences.

use vstd::prelude::*;

use crate::color::{allocate_from, contains_color, find_color_index, is_first_index, Color};
use crate::entry::{entry_views, Entry, EntryView};
use crate::tags::{find_name, string_views};

verus! {

/// User preferences stored with the ledger.
pub struct Preferences {
    /// How a color clash is resolved when a tag is renamed: `"random"` (the
    /// default) assigns a random free color, `"picker"` is reserved for an
    /// explicit choice by the user.
    pub tag_assign_behavior: String,
}

/// The behavior a fresh ledger starts with.
pub open spec fn default_behavior() -> Seq<char> {
    "random"@
}

impl Default for Preferences {
    fn default() -> (p: Preferences)
        ensures
            p.tag_assign_behavior@ == default_behavior(),
    {
        Preferences { tag_assign_behavior: "random".to_owned() }
    }
}

/// The persisted record: entries, tag names and tag colors (aligned with
/// the names), and preferences.
pub struct Config {
    pub entry: Vec<Entry>,
    pub tag_list: Vec<String>,
    pub colors: Vec<Color>,
    pub preferences: Preferences,
}

/// The mathematical value of a `Config`.
pub struct ConfigView {
    pub entries: Seq<EntryView>,
    pub tags: Seq<Seq<char>>,
    pub colors: Seq<Color>,
    pub tag_assign_behavior: Seq<char>,
}

impl View for Config {
    type V = ConfigView;

    open spec fn view(&self) -> ConfigView {
        ConfigView {
            entries: entry_views(self.entry@),
            tags: string_views(self.tag_list@),
            colors: self.colors@,
            tag_assign_behavior: self.preferences.tag_assign_behavior@,
        }
    }
}

/// The record of an empty ledger.
pub open spec fn empty_record() -> ConfigView {
    ConfigView {
        entries: Seq::empty(),
        tags: Seq::empty(),
        colors: Seq::empty(),
        tag_assign_behavior: default_behavior(),
    }
}

impl Default for Config {
    fn default() -> (c: Config)
        ensures
            c@ == empty_record(),
    {
        let c = Config {
            entry: Vec::new(),
            tag_list: Vec::new(),
            colors: Vec::new(),
            preferences: Preferences::default(),
        };
        assert(c@.entries =~= Seq::<EntryView>::empty());
        assert(c@.tags =~= Seq::<Seq<char>>::empty());
        c
    }
}

impl Config {
    /// Either `"random"` or `"picker"`.
    pub fn tag_assign_behavior(&self) -> (r: &String)
        ensures
            r == &self.preferences.tag_assign_behavior,
    {
        &self.preferences.tag_assign_behavior
    }

    /// Position of `tag_to_find` in `tag_list`, if present.
    pub fn find_tag(&self, tag_list: &[String], tag_to_find: &String) -> (r: Option<usize>)
        ensures
            match r {
                Some(i) => is_first_index(string_views(tag_list@), tag_to_find@, i as int),
                None => !string_views(tag_list@).contains(tag_to_find@),
            },
    {
        find_name(tag_list, tag_to_find)
    }

    /// Position of `color_to_find` in `colors`, if present.
    pub fn find_color(&self, colors: &[Color], color_to_find: &Color) -> (r: Option<usize>)
        ensures
            match r {
                Some(i) => is_first_index(colors@, *color_to_find, i as int),
                None => !colors@.contains(*color_to_find),
            },
    {
        find_color_index(colors, *color_to_find)
    }

    pub fn does_color_exist(&self, colors: &[Color], color: &Color) -> (r: bool)
        ensures
            r == colors@.contains(*color),
    {
        contains_color(colors, *color)
    }

    /// `color` when it is not in `list_of_colors`; otherwise random colors
    /// are drawn until one is free or the attempt bound is reached, counting
    /// `count` attempts as already made.
    pub fn random_color(&self, list_of_colors: &[Color], color: &Color, count: Option<usize>) -> (r: Color)
        ensures
            !list_of_colors@.contains(*color) ==> r == *color,
            list_of_colors@.contains(r) ==> list_of_colors@.contains(*color),
    {
        let start: usize = match count {
            Some(n) => n,
            None => 0,
        };
        allocate_from(list_of_colors, *color, start).color
    }
}

} // verus!
