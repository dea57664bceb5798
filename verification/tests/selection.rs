use brewtracker::datatypes::StatefulList;

fn three() -> StatefulList<u32> {
    StatefulList::with_items(vec![10, 20, 30])
}

#[test]
fn with_items_starts_unselected() {
    let list = three();
    assert_eq!(list.selected, None);
    assert_eq!(list.items, vec![10, 20, 30]);
}

#[test]
fn next_cycles_forward_and_wraps() {
    let mut list = three();
    list.next();
    assert_eq!(list.selected, Some(0));
    list.next();
    assert_eq!(list.selected, Some(1));
    list.next();
    assert_eq!(list.selected, Some(2));
    list.next();
    assert_eq!(list.selected, Some(0));
    list.next();
    assert_eq!(list.selected, Some(1));
}

#[test]
fn previous_cycles_backward_and_wraps() {
    let mut list = three();
    list.previous();
    assert_eq!(list.selected, Some(0));
    list.previous();
    assert_eq!(list.selected, Some(2));
    list.previous();
    assert_eq!(list.selected, Some(1));
    list.previous();
    assert_eq!(list.selected, Some(0));
    list.previous();
    assert_eq!(list.selected, Some(2));
}

#[test]
fn unselect_then_next_selects_first() {
    let mut list = three();
    list.next();
    list.next();
    list.unselect();
    assert_eq!(list.selected, None);
    list.next();
    assert_eq!(list.selected, Some(0));
}

#[test]
fn unselect_then_previous_selects_first() {
    let mut list = three();
    list.next();
    list.next();
    list.unselect();
    assert_eq!(list.selected, None);
    list.previous();
    assert_eq!(list.selected, Some(0));
}

#[test]
fn empty_store_navigation_is_a_no_op() {
    let mut list: StatefulList<u32> = StatefulList::with_items(vec![]);
    list.next();
    assert_eq!(list.selected, None);
    list.previous();
    assert_eq!(list.selected, None);
    list.unselect();
    assert_eq!(list.selected, None);
    assert!(list.items.is_empty());
}

#[test]
fn single_item_always_selects_it() {
    let mut list = StatefulList::with_items(vec![7]);
    list.next();
    assert_eq!(list.selected, Some(0));
    list.next();
    assert_eq!(list.selected, Some(0));
    list.previous();
    assert_eq!(list.selected, Some(0));
}
