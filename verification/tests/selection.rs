use jobdash::list::StatefulList;

fn letters() -> StatefulList<char> {
    StatefulList::with_items(vec!['a', 'b', 'c'])
}

#[test]
fn new_list_is_empty_and_unselected() {
    let list: StatefulList<u8> = StatefulList::new();
    assert!(list.items().is_empty());
    assert_eq!(list.selected(), None);
    assert_eq!(list.selected_item(), None);
}

#[test]
fn with_items_keeps_the_rows_in_order_and_selects_none() {
    let list = letters();
    assert_eq!(list.items(), &vec!['a', 'b', 'c']);
    assert_eq!(list.selected(), None);
    assert_eq!(list.selected_item(), None);
}

#[test]
fn first_next_selects_the_first_row() {
    let mut list = letters();
    list.next();
    assert_eq!(list.selected(), Some(0));
    assert_eq!(list.selected_item(), Some(&'a'));
}

#[test]
fn first_previous_selects_the_first_row() {
    let mut list = letters();
    list.previous();
    assert_eq!(list.selected(), Some(0));
    assert_eq!(list.selected_item(), Some(&'a'));
}

#[test]
fn next_advances_and_wraps_from_last_to_first() {
    let mut list = letters();
    list.next();
    list.next();
    assert_eq!(list.selected(), Some(1));
    assert_eq!(list.selected_item(), Some(&'b'));
    list.next();
    assert_eq!(list.selected(), Some(2));
    assert_eq!(list.selected_item(), Some(&'c'));
    list.next();
    assert_eq!(list.selected(), Some(0));
    assert_eq!(list.selected_item(), Some(&'a'));
}

#[test]
fn previous_retreats_and_wraps_from_first_to_last() {
    let mut list = letters();
    list.next();
    list.previous();
    assert_eq!(list.selected(), Some(2));
    assert_eq!(list.selected_item(), Some(&'c'));
    list.previous();
    assert_eq!(list.selected(), Some(1));
    list.previous();
    assert_eq!(list.selected(), Some(0));
}

#[test]
fn moving_never_changes_the_rows() {
    let mut list = letters();
    list.next();
    list.previous();
    list.previous();
    list.unselect();
    assert_eq!(list.items(), &vec!['a', 'b', 'c']);
}

#[test]
fn unselect_removes_the_cursor() {
    let mut list = letters();
    list.next();
    list.next();
    list.unselect();
    assert_eq!(list.selected(), None);
    assert_eq!(list.selected_item(), None);
    list.next();
    assert_eq!(list.selected(), Some(0));
}

#[test]
fn first_pass_from_unselected_ends_on_the_last_row() {
    for len in 1usize..=6 {
        let mut list = StatefulList::with_items((0..len).collect::<Vec<usize>>());
        for step in 1..=len {
            list.next();
            assert_eq!(list.selected(), Some(step - 1));
        }
        assert_eq!(list.selected(), Some(len - 1));
        list.next();
        assert_eq!(list.selected(), Some(0));
    }
}

#[test]
fn single_row_list_returns_to_row_zero_after_one_step() {
    let mut list = StatefulList::with_items(vec!["only"]);
    list.next();
    assert_eq!(list.selected(), Some(0));
    list.next();
    assert_eq!(list.selected(), Some(0));
    list.previous();
    assert_eq!(list.selected(), Some(0));
}

#[test]
fn full_turn_returns_to_the_starting_row() {
    let len = 5usize;
    for start in 0..len {
        let mut forward = StatefulList::with_items(vec![0u8; len]);
        let mut backward = StatefulList::with_items(vec![0u8; len]);
        for _ in 0..=start {
            forward.next();
            backward.next();
        }
        assert_eq!(forward.selected(), Some(start));
        for _ in 0..len {
            forward.next();
            backward.previous();
        }
        assert_eq!(forward.selected(), Some(start));
        assert_eq!(backward.selected(), Some(start));
    }
}

#[test]
fn next_and_previous_undo_each_other_on_every_row() {
    let len = 4usize;
    for start in 0..len {
        let mut list = StatefulList::with_items(vec!['x'; len]);
        for _ in 0..=start {
            list.next();
        }
        list.next();
        list.previous();
        assert_eq!(list.selected(), Some(start));
        list.previous();
        list.next();
        assert_eq!(list.selected(), Some(start));
    }
}

#[test]
fn empty_list_never_gets_a_cursor() {
    let mut list: StatefulList<String> = StatefulList::with_items(Vec::new());
    for round in 0..10 {
        if round % 3 == 0 {
            list.previous();
        } else {
            list.next();
        }
        assert_eq!(list.selected(), None);
        assert_eq!(list.selected_item(), None);
    }
    list.unselect();
    assert_eq!(list.selected(), None);
}

#[test]
fn two_row_list_alternates() {
    let mut list = StatefulList::with_items(vec![1, 2]);
    list.next();
    list.next();
    assert_eq!(list.selected_item(), Some(&2));
    list.next();
    assert_eq!(list.selected_item(), Some(&1));
    list.previous();
    assert_eq!(list.selected_item(), Some(&2));
}
