use std::collections::HashSet;

use j3grid_docker::process_tree::{
    descendant_process_ids_from_entries, hash_set_elements, ProcessTreeChildIndex,
    ProcessTreeEntry,
};

fn entry(process_id: u32, parent_process_id: u32) -> ProcessTreeEntry {
    ProcessTreeEntry {
        process_id,
        parent_process_id,
    }
}

#[test]
fn process_tree_descendant_ids_expand_recursively_from_known_roots() {
    let known = HashSet::from([10]);
    let mut descendants =
        descendant_process_ids_from_entries(&known, &[entry(30, 20), entry(40, 99), entry(20, 10)]);

    descendants.sort_unstable();

    assert_eq!(descendants, vec![20, 30]);
}

#[test]
fn process_tree_child_index_appends_descendants_to_tracked_processes() {
    let index = ProcessTreeChildIndex::from_entries(&[entry(20, 10), entry(30, 20), entry(60, 50)]);
    let mut watched = HashSet::from([10, 50]);
    let mut descendants = Vec::new();
    let mut stack = Vec::new();

    index.append_new_descendants(&mut watched, &mut descendants, &mut stack);
    descendants.sort_unstable();

    assert_eq!(descendants, vec![20, 30, 60]);
    assert_eq!(watched, HashSet::from([10, 20, 30, 50, 60]));
}

#[test]
fn process_tree_child_index_skips_already_tracked_descendants() {
    let index = ProcessTreeChildIndex::from_entries(&[entry(20, 10), entry(30, 20)]);
    let mut watched = HashSet::from([10, 20]);
    let mut descendants = Vec::new();
    let mut stack = Vec::new();

    index.append_new_descendants(&mut watched, &mut descendants, &mut stack);

    assert_eq!(descendants, vec![30]);
    assert_eq!(watched, HashSet::from([10, 20, 30]));
}

#[test]
fn process_tree_child_index_prunes_missing_processes_after_descendant_expansion() {
    let index = ProcessTreeChildIndex::from_entries(&[entry(10, 1), entry(30, 20)]);
    let mut watched = HashSet::from([10, 20]);
    let mut descendants = Vec::new();
    let mut removed = Vec::new();
    let mut stack = Vec::new();

    index.append_new_descendants(&mut watched, &mut descendants, &mut stack);
    index.remove_missing_processes(&mut watched, &HashSet::new(), &mut removed);
    descendants.sort_unstable();
    removed.sort_unstable();

    assert_eq!(descendants, vec![30]);
    assert_eq!(removed, vec![20]);
    assert_eq!(watched, HashSet::from([10, 30]));
}

#[test]
fn process_tree_child_index_keeps_missing_processes_with_cached_window_match() {
    let index = ProcessTreeChildIndex::from_entries(&[entry(10, 1)]);
    let mut watched = HashSet::from([10, 20]);
    let keep = HashSet::from([20]);
    let mut removed = Vec::new();

    index.remove_missing_processes(&mut watched, &keep, &mut removed);

    assert!(removed.is_empty());
    assert_eq!(watched, HashSet::from([10, 20]));
}

#[test]
fn process_tree_child_index_skips_idle_process_and_handles_cycles() {
    let mut index = ProcessTreeChildIndex::new();
    index.insert(entry(0, 5));
    index.insert(entry(5, 6));
    index.insert(entry(6, 5));
    let mut watched = HashSet::from([5]);
    let mut descendants = Vec::new();
    let mut stack = vec![1, 2, 3];

    index.append_new_descendants(&mut watched, &mut descendants, &mut stack);

    assert_eq!(descendants, vec![6]);
    assert_eq!(watched, HashSet::from([5, 6]));
    assert!(stack.is_empty());
}

#[test]
fn process_tree_expansion_of_empty_set_discovers_nothing() {
    let index = ProcessTreeChildIndex::from_entries(&[entry(20, 10)]);
    let mut watched = HashSet::new();
    let mut descendants = vec![99];
    let mut stack = Vec::new();
    index.append_new_descendants(&mut watched, &mut descendants, &mut stack);
    assert_eq!(descendants, vec![99]);
    assert!(watched.is_empty());
}

#[test]
fn hash_set_elements_lists_each_member_once() {
    let set = HashSet::from([3, 1, 2]);
    let mut elements = hash_set_elements(&set);
    elements.sort_unstable();
    assert_eq!(elements, vec![1, 2, 3]);
}
