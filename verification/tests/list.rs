use leightbox::app::{File, ListError, StatefulFileList};

fn abc() -> Vec<File> {
    vec![
        File::new(String::from("A"), 100),
        File::new(String::from("B"), 200),
        File::new(String::from("C"), 300),
    ]
}

#[test]
fn new_list_starts_on_first_entry() {
    let list = StatefulFileList::new(abc());
    assert_eq!(list.selected(), Some(0));
    assert_eq!(list.len(), 3);
}

#[test]
fn new_empty_list_has_no_cursor() {
    let list = StatefulFileList::new(Vec::new());
    assert_eq!(list.selected(), None);
    assert_eq!(list.len(), 0);
}

#[test]
fn next_steps_forward_and_wraps() {
    let mut list = StatefulFileList::new(abc());
    list.next();
    assert_eq!(list.selected(), Some(1));
    list.next();
    assert_eq!(list.selected(), Some(2));
    list.next();
    assert_eq!(list.selected(), Some(0));
}

#[test]
fn prev_steps_back_and_wraps() {
    let mut list = StatefulFileList::new(abc());
    list.prev();
    assert_eq!(list.selected(), Some(2));
    list.prev();
    assert_eq!(list.selected(), Some(1));
    list.prev();
    assert_eq!(list.selected(), Some(0));
}

#[test]
fn next_comes_round_from_every_start() {
    for start in 0..3 {
        let mut list = StatefulFileList::new(abc());
        for _ in 0..start {
            list.next();
        }
        assert_eq!(list.selected(), Some(start));
        for _ in 0..list.len() {
            list.next();
        }
        assert_eq!(list.selected(), Some(start));
    }
}

#[test]
fn prev_comes_round_from_every_start() {
    for start in 0..3 {
        let mut list = StatefulFileList::new(abc());
        for _ in 0..start {
            list.next();
        }
        for _ in 0..list.len() {
            list.prev();
        }
        assert_eq!(list.selected(), Some(start));
    }
}

#[test]
fn single_entry_list_stays_on_it() {
    let mut list = StatefulFileList::new(vec![File::new(String::from("only"), 1)]);
    list.next();
    assert_eq!(list.selected(), Some(0));
    list.prev();
    assert_eq!(list.selected(), Some(0));
}

#[test]
fn first_move_lands_on_first_entry_in_both_directions() {
    let mut list = StatefulFileList::new(abc());
    list.unselect();
    assert_eq!(list.selected(), None);
    list.next();
    assert_eq!(list.selected(), Some(0));

    list.unselect();
    list.prev();
    assert_eq!(list.selected(), Some(0));
}

#[test]
fn empty_list_ignores_next_and_prev() {
    let mut list = StatefulFileList::new(Vec::new());
    list.next();
    assert_eq!(list.selected(), None);
    list.prev();
    assert_eq!(list.selected(), None);
    list.next();
    list.next();
    assert_eq!(list.selected(), None);
    assert_eq!(list.len(), 0);
}

#[test]
fn unselect_keeps_the_entries() {
    let mut list = StatefulFileList::new(abc());
    list.next();
    list.unselect();
    assert_eq!(list.selected(), None);
    assert_eq!(list.len(), 3);
    assert_eq!(list.items()[1].name(), "B");
}

#[test]
fn push_appends_and_keeps_the_cursor() {
    let mut list = StatefulFileList::new(abc());
    list.next();
    list.push(File::new(String::from("D"), 400));
    assert_eq!(list.selected(), Some(1));
    assert_eq!(list.len(), 4);
    assert_eq!(list.items()[3].name(), "D");
    assert_eq!(list.items()[3].size(), 400);
    assert!(!list.items()[3].is_selected());
}

#[test]
fn push_onto_empty_list_leaves_cursor_unset() {
    let mut list = StatefulFileList::new(Vec::new());
    list.push(File::new(String::from("A"), 100));
    assert_eq!(list.selected(), None);
    assert_eq!(list.len(), 1);
    list.next();
    assert_eq!(list.selected(), Some(0));
}

#[test]
fn first_claim_hands_out_a_claimed_copy() {
    let mut list = StatefulFileList::new(abc());
    let outcome = list.get_selected(1);
    let file = outcome.expect("index 1 is in range").expect("B was not claimed before");
    assert_eq!(file.name(), "B");
    assert_eq!(file.size(), 200);
    assert!(file.is_selected());
    assert!(list.items()[1].is_selected());
    assert!(!list.items()[0].is_selected());
    assert!(!list.items()[2].is_selected());
    assert_eq!(list.len(), 3);
    assert_eq!(list.selected(), Some(0));
}

#[test]
fn second_claim_finds_nothing() {
    let mut list = StatefulFileList::new(abc());
    assert!(matches!(list.get_selected(2), Ok(Some(_))));
    assert!(matches!(list.get_selected(2), Ok(None)));
    assert!(matches!(list.get_selected(2), Ok(None)));
}

#[test]
fn second_claim_finds_nothing_after_other_operations() {
    let mut list = StatefulFileList::new(abc());
    assert!(matches!(list.get_selected(0), Ok(Some(_))));
    list.next();
    list.prev();
    list.unselect();
    list.push(File::new(String::from("D"), 400));
    assert!(matches!(list.get_selected(1), Ok(Some(_))));
    list.next();
    assert!(matches!(list.get_selected(0), Ok(None)));
    assert!(matches!(list.get_selected(1), Ok(None)));
    assert!(list.items()[0].is_selected());
}

#[test]
fn claim_out_of_range_is_refused() {
    let mut list = StatefulFileList::new(abc());
    list.next();
    assert_eq!(list.get_selected(3).err(), Some(ListError::IndexOutOfRange));
    assert_eq!(list.get_selected(usize::MAX).err(), Some(ListError::IndexOutOfRange));
    assert_eq!(list.len(), 3);
    assert_eq!(list.selected(), Some(1));
    for file in list.items() {
        assert!(!file.is_selected());
    }
}

#[test]
fn claim_on_empty_list_is_refused() {
    let mut list = StatefulFileList::new(Vec::new());
    assert_eq!(list.get_selected(0).err(), Some(ListError::IndexOutOfRange));
    assert_eq!(list.len(), 0);
    assert_eq!(list.selected(), None);
}

#[test]
fn new_file_is_unclaimed() {
    let file = File::new(String::from("notes.txt"), 42);
    assert_eq!(file.name(), "notes.txt");
    assert_eq!(file.size(), 42);
    assert!(!file.is_selected());
    let copy = file.clone();
    assert_eq!(copy.name(), "notes.txt");
    assert_eq!(copy.size(), 42);
    assert!(!copy.is_selected());
}
