use actt::color::Color;
use actt::config::Config;
use actt::entry::{Entry, NO_TAG};
use actt::error::LedgerError;
use actt::ledger::Ledger;

fn red() -> Color {
    Color::from_rgb(255, 0, 0)
}

fn blue() -> Color {
    Color::from_rgb(0, 0, 255)
}

fn green() -> Color {
    Color::from_rgb(0, 255, 0)
}

fn tag_indices(l: &Ledger) -> Vec<usize> {
    let mut v = Vec::new();
    for i in 0..l.entry_count() {
        v.push(l.entry(i).tag_index);
    }
    v
}

fn tag_names(l: &Ledger) -> Vec<String> {
    let mut v = Vec::new();
    for i in 0..l.tag_count() {
        v.push(l.tag_name(i).clone());
    }
    v
}

/// Tags A, B, C and four entries pointing at 0, 1, 2, 1.
fn three_tags_four_entries() -> Ledger {
    let mut l = Ledger::new();
    assert_eq!(l.insert_tag("A".to_string(), red()), Ok(0));
    assert_eq!(l.insert_tag("B".to_string(), blue()), Ok(1));
    assert_eq!(l.insert_tag("C".to_string(), green()), Ok(2));
    for (i, tag) in ["A", "B", "C", "B"].iter().enumerate() {
        let r = l.commit_session(format!("e{}", i), tag.to_string(), red(), 10 * i as u64);
        assert_eq!(r, Ok(i));
    }
    l
}

#[test]
fn fresh_commit() {
    let mut l = Ledger::new();
    let r = l.commit_session("Reading".to_string(), "Leisure".to_string(), red(), 3600);
    assert_eq!(r, Ok(0));
    assert_eq!(tag_names(&l), vec!["Leisure".to_string()]);
    assert_eq!(l.tag_color(0), red());
    assert_eq!(l.entry_count(), 1);
    let e = l.entry(0);
    assert_eq!(e.name, "Reading");
    assert_eq!(e.tag_index, 0);
    assert_eq!(e.elapsed_secs, 3600);
}

#[test]
fn reuse_existing_tag_ignores_supplied_color() {
    let mut l = Ledger::new();
    l.commit_session("Reading".to_string(), "Leisure".to_string(), red(), 3600).unwrap();
    let r = l.commit_session("Gaming".to_string(), "Leisure".to_string(), blue(), 1800);
    assert_eq!(r, Ok(1));
    assert_eq!(l.tag_count(), 1);
    assert_eq!(l.entry(1).tag_index, 0);
    assert_eq!(l.entry(1).elapsed_secs, 1800);
    assert_eq!(l.tag_color(0), red());
}

#[test]
fn delete_last_reference_leaves_orphan_tag() {
    let mut l = Ledger::new();
    l.commit_session("Reading".to_string(), "Leisure".to_string(), red(), 3600).unwrap();
    assert_eq!(l.delete_entry(0), Ok(()));
    assert_eq!(l.entry_count(), 0);
    assert_eq!(tag_names(&l), vec!["Leisure".to_string()]);
    assert_eq!(l.find_tag(&"Leisure".to_string()), Some(0));
}

#[test]
fn delete_tag_reindexes_entries() {
    let mut l = three_tags_four_entries();
    assert_eq!(tag_indices(&l), vec![0, 1, 2, 1]);
    assert_eq!(l.delete_tag(1), Ok(()));
    assert_eq!(tag_names(&l), vec!["A".to_string(), "C".to_string()]);
    assert_eq!(l.tag_color(0), red());
    assert_eq!(l.tag_color(1), green());
    assert_eq!(tag_indices(&l), vec![0, NO_TAG, 1, NO_TAG]);
    // Names and durations stay with their entries.
    assert_eq!(l.entry(2).name, "e2");
    assert_eq!(l.entry(3).elapsed_secs, 30);
}

#[test]
fn delete_tag_out_of_range() {
    let mut l = three_tags_four_entries();
    assert_eq!(l.delete_tag(3), Err(LedgerError::InvalidIndex));
    assert_eq!(l.tag_count(), 3);
    assert_eq!(tag_indices(&l), vec![0, 1, 2, 1]);
}

#[test]
fn no_dangling_refs_after_operations() {
    let mut l = three_tags_four_entries();
    l.delete_tag(0).unwrap();
    l.commit_session("x".to_string(), "D".to_string(), red(), 5).unwrap();
    l.delete_tag(1).unwrap();
    l.insert_tag("E".to_string(), blue()).unwrap();
    for i in 0..l.entry_count() {
        let t = l.entry(i).tag_index;
        assert!(t == NO_TAG || t < l.tag_count());
    }
}

#[test]
fn tag_colors_stay_distinct() {
    let mut l = Ledger::new();
    l.commit_session("a".to_string(), "one".to_string(), red(), 1).unwrap();
    // Same preferred color for a new tag: the allocator picks another one.
    l.commit_session("b".to_string(), "two".to_string(), red(), 1).unwrap();
    l.insert_tag("three".to_string(), red()).unwrap();
    assert_eq!(l.tag_count(), 3);
    assert_eq!(l.tag_color(0), red());
    assert_ne!(l.tag_color(1), red());
    assert_ne!(l.tag_color(2), red());
    assert_ne!(l.tag_color(1), l.tag_color(2));
}

#[test]
fn insert_duplicate_tag_is_refused() {
    let mut l = Ledger::new();
    assert_eq!(l.insert_tag("Work".to_string(), red()), Ok(0));
    assert_eq!(l.insert_tag("Work".to_string(), blue()), Err(LedgerError::DuplicateTag));
    assert_eq!(l.tag_count(), 1);
    assert_eq!(l.tag_color(0), red());
}

#[test]
fn insert_empty_tag_is_refused() {
    let mut l = Ledger::new();
    assert_eq!(l.insert_tag(String::new(), red()), Err(LedgerError::EmptyName));
    assert_eq!(l.tag_count(), 0);
}

#[test]
fn commit_with_empty_tag_has_no_tag() {
    let mut l = Ledger::new();
    assert_eq!(l.commit_session("Walk".to_string(), String::new(), red(), 60), Ok(0));
    assert_eq!(l.tag_count(), 0);
    assert_eq!(l.entry(0).tag_index, NO_TAG);
}

#[test]
fn rename_entry_blank_is_discarded() {
    let mut l = Ledger::new();
    l.commit_session("Reading".to_string(), "Leisure".to_string(), red(), 3600).unwrap();
    assert_eq!(l.rename_entry(0, String::new()), Ok(()));
    assert_eq!(l.entry(0).name, "Reading");
    assert_eq!(l.rename_entry(0, " \t\n".to_string()), Ok(()));
    assert_eq!(l.entry(0).name, "Reading");
    assert_eq!(l.rename_entry(0, "Novel".to_string()), Ok(()));
    assert_eq!(l.entry(0).name, "Novel");
}

#[test]
fn rename_entry_out_of_range() {
    let mut l = Ledger::new();
    assert_eq!(l.rename_entry(0, "x".to_string()), Err(LedgerError::InvalidIndex));
}

#[test]
fn rename_tag_rules() {
    let mut l = three_tags_four_entries();
    assert_eq!(l.rename_tag(1, "C".to_string()), Err(LedgerError::DuplicateTag));
    assert_eq!(l.rename_tag(1, String::new()), Err(LedgerError::EmptyName));
    assert_eq!(l.rename_tag(5, "Z".to_string()), Err(LedgerError::InvalidIndex));
    assert_eq!(l.rename_tag(1, "B".to_string()), Ok(()));
    assert_eq!(l.rename_tag(1, "Books".to_string()), Ok(()));
    assert_eq!(tag_names(&l), vec!["A".to_string(), "Books".to_string(), "C".to_string()]);
    assert_eq!(l.tag_color(1), blue());
    assert_eq!(tag_indices(&l), vec![0, 1, 2, 1]);
}

#[test]
fn retag_entry_rules() {
    let mut l = three_tags_four_entries();
    assert_eq!(l.retag_entry(0, 2), Ok(()));
    assert_eq!(l.entry(0).tag_index, 2);
    assert_eq!(l.retag_entry(0, 3), Err(LedgerError::InvalidIndex));
    assert_eq!(l.retag_entry(4, 0), Err(LedgerError::InvalidIndex));
    assert_eq!(tag_indices(&l), vec![2, 1, 2, 1]);
}

#[test]
fn delete_entry_keeps_order() {
    let mut l = three_tags_four_entries();
    assert_eq!(l.delete_entry(1), Ok(()));
    assert_eq!(l.entry_count(), 3);
    assert_eq!(l.entry(0).name, "e0");
    assert_eq!(l.entry(1).name, "e2");
    assert_eq!(l.entry(2).name, "e3");
    assert_eq!(l.delete_entry(3), Err(LedgerError::InvalidIndex));
}

fn same_record(a: &Config, b: &Config) -> bool {
    a.tag_list == b.tag_list
        && a.colors == b.colors
        && a.preferences.tag_assign_behavior == b.preferences.tag_assign_behavior
        && a.entry.len() == b.entry.len()
        && a.entry.iter().zip(b.entry.iter()).all(|(x, y)| {
            x.name == y.name && x.tag_index == y.tag_index && x.elapsed_secs == y.elapsed_secs
        })
}

#[test]
fn persist_load_round_trip() {
    let mut l = three_tags_four_entries();
    l.delete_tag(1).unwrap();
    let first = l.persist();
    let second = Ledger::load(l.persist()).persist();
    assert!(same_record(&first, &second));
    assert_eq!(second.tag_list, vec!["A".to_string(), "C".to_string()]);
    assert_eq!(second.preferences.tag_assign_behavior, "random");
}

#[test]
fn load_inconsistent_record_gives_empty_ledger() {
    let mut c = Config::default();
    c.tag_list.push("A".to_string());
    c.colors.push(red());
    c.entry.push(Entry::new("x".to_string(), 1, 5));
    let l = Ledger::load(c);
    assert_eq!(l.tag_count(), 0);
    assert_eq!(l.entry_count(), 0);

    let mut c = Config::default();
    c.tag_list.push("A".to_string());
    c.tag_list.push("B".to_string());
    c.colors.push(red());
    c.colors.push(red());
    assert_eq!(Ledger::load(c).tag_count(), 0);

    let mut c = Config::default();
    c.tag_list.push("A".to_string());
    c.tag_list.push("A".to_string());
    c.colors.push(red());
    c.colors.push(blue());
    assert_eq!(Ledger::load(c).tag_count(), 0);

    let mut c = Config::default();
    c.tag_list.push("A".to_string());
    assert_eq!(Ledger::load(c).tag_count(), 0);
}

#[test]
fn load_consistent_record() {
    let mut c = Config::default();
    c.tag_list.push("A".to_string());
    c.colors.push(red());
    c.entry.push(Entry::new("x".to_string(), 0, 5));
    c.entry.push(Entry::new("y".to_string(), NO_TAG, 7));
    c.preferences.tag_assign_behavior = "picker".to_string();
    let l = Ledger::load(c);
    assert_eq!(l.tag_count(), 1);
    assert_eq!(l.entry_count(), 2);
    assert_eq!(l.entry(1).tag_index, NO_TAG);
    assert_eq!(l.preferences().tag_assign_behavior, "picker");
}
