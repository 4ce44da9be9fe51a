use s3_browser::list::ScrollableList;
use s3_browser::search::SearchBar;

fn sample_list() -> (ScrollableList<u32>, Vec<String>) {
    let list = ScrollableList::new(String::from("Numbers")).with_items(vec![10, 20, 30, 40]);
    let keys = vec![
        String::from("alpha"),
        String::from("beta"),
        String::from("gamma"),
        String::from("delta"),
    ];
    (list, keys)
}

fn assert_invariant(list: &ScrollableList<u32>) {
    // the filtered view is strictly increasing and holds valid indices
    for w in list.filtered_indices.windows(2) {
        assert!(w[0] < w[1]);
    }
    for &i in &list.filtered_indices {
        assert!(i < list.items.len());
    }
    // a set selection is always visible
    if let Some(s) = list.selected {
        assert!(list.filtered_indices.contains(&s));
    }
}

#[test]
fn test_empty_query_shows_everything() {
    let (mut list, keys) = sample_list();
    list.apply_search(&SearchBar::default(), &keys);
    assert_eq!(list.filtered_indices, vec![0, 1, 2, 3]);
    assert_invariant(&list);
}

#[test]
fn test_filter_keeps_item_order_and_repairs_selection() {
    let (mut list, keys) = sample_list();
    list.apply_search(&SearchBar::default(), &keys);
    list.first();
    assert_eq!(list.selected, Some(0));

    let mut bar = SearchBar::default();
    bar.toggle();
    // "ta" matches "beta" and "delta" as a subsequence, in item order
    bar.input('t');
    bar.input('a');
    list.apply_search(&bar, &keys);
    assert_eq!(list.filtered_indices, vec![1, 3]);
    // the old selection fell out of view: repaired to the first visible entry
    assert_eq!(list.selected, Some(1));
    assert_invariant(&list);

    // filtering everything away clears the selection
    bar.input('q');
    list.apply_search(&bar, &keys);
    assert_eq!(list.filtered_indices, Vec::<usize>::new());
    assert_eq!(list.selected, None);
    assert_invariant(&list);

    // an empty filtered list can become non-empty again
    bar.clear();
    list.apply_search(&bar, &keys);
    assert_eq!(list.filtered_indices, vec![0, 1, 2, 3]);
    assert_eq!(list.selected, None);
    assert_invariant(&list);
}

#[test]
fn test_next_then_previous_round_trip() {
    let (mut list, keys) = sample_list();
    list.apply_search(&SearchBar::default(), &keys);
    list.select(Some(1));
    list.next();
    list.previous();
    assert_eq!(list.selected, Some(1));
    list.previous();
    list.next();
    assert_eq!(list.selected, Some(1));
}

#[test]
fn test_next_wraps_in_a_full_cycle() {
    let (mut list, keys) = sample_list();
    list.apply_search(&SearchBar::default(), &keys);
    list.select(Some(2));
    for _ in 0..list.filtered_indices.len() {
        list.next();
        assert_invariant(&list);
    }
    assert_eq!(list.selected, Some(2));
}

#[test]
fn test_wrapping_at_both_ends() {
    let (mut list, keys) = sample_list();
    list.apply_search(&SearchBar::default(), &keys);
    list.last();
    assert_eq!(list.selected, Some(3));
    list.next();
    assert_eq!(list.selected, Some(0));
    list.previous();
    assert_eq!(list.selected, Some(3));
}

#[test]
fn test_movement_on_empty_view_is_a_no_op() {
    let mut list: ScrollableList<u32> = ScrollableList::new(String::from("Empty"));
    list.next();
    list.previous();
    list.first();
    list.last();
    assert_eq!(list.selected, None);
    assert_eq!(list.items.len(), 0);
}

#[test]
fn test_append_keeps_filtered_entries_stable() {
    let (mut list, keys) = sample_list();
    let mut bar = SearchBar::default();
    bar.toggle();
    bar.input('t');
    bar.input('a');
    list.apply_search(&bar, &keys);
    let filtered_before = list.filtered_indices.clone();
    assert_eq!(filtered_before, vec![1, 3]);

    list.append_items(vec![50, 60]);
    // the filtered view is untouched: old indices still mean the same items
    assert_eq!(list.filtered_indices, filtered_before);
    assert_eq!(list.items[list.filtered_indices[0]], 20);
    assert_eq!(list.items[list.filtered_indices[1]], 40);
    assert_eq!(list.loading_more, false);
    assert_invariant(&list);

    // new items stay invisible until the filter is recomputed
    let mut keys2 = keys.clone();
    keys2.push(String::from("theta"));
    keys2.push(String::from("iota"));
    list.apply_search(&bar, &keys2);
    assert_eq!(list.filtered_indices, vec![1, 3, 4, 5]);
}

#[test]
fn test_unselect_and_selected_item() {
    let (mut list, keys) = sample_list();
    list.apply_search(&SearchBar::default(), &keys);
    list.first();
    assert_eq!(list.selected_index(), Some(0));
    assert_eq!(list.selected_item(), Some(&10));
    list.unselect();
    assert_eq!(list.selected_index(), None);
    assert_eq!(list.selected_item(), None);
}

#[test]
fn test_advance_by_pages() {
    let (mut list, keys) = sample_list();
    list.apply_search(&SearchBar::default(), &keys);
    list.first();
    list.advance_next(5);
    // 5 steps over 4 entries: one full cycle plus one
    assert_eq!(list.selected, Some(1));
    list.advance_previous(2);
    assert_eq!(list.selected, Some(3));
}

#[test]
fn test_loading_flags() {
    let mut list: ScrollableList<u32> = ScrollableList::default();
    assert!(list.has_more);
    assert!(!list.loading_more);
    assert!(list.is_empty());
    list.set_loading(true);
    assert!(list.loading_more);
    list.set_has_more(false);
    assert!(!list.has_more);
    list.append_items(vec![1]);
    assert!(!list.loading_more);
    assert!(!list.is_empty());
}
