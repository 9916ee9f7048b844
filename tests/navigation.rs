use spotivi::{Cursor, InteractiveList, KeyBinding, PageId, Paged, Action, NetworkRequest};

fn names(n: usize) -> Vec<String> {
    let mut v = Vec::new();
    for i in 0..n {
        v.push(format!("item {}", i));
    }
    v
}

fn paged_of(n: usize, next: Option<&str>) -> Paged<String> {
    Paged::from(names(n), next.map(|s| s.to_string()), PageId::Playlists)
}

#[test]
fn empty_list_move_down_stays_at_zero() {
    let mut list: InteractiveList<String> = InteractiveList::new();
    list.select_next();
    assert_eq!(list.index(), 0);
    assert!(list.selected_item().is_none());

    let mut cursor = Cursor::new();
    let mut paged: Paged<String> = Paged::new(PageId::Playlists);
    let r = cursor.receive_input(KeyBinding::Down, &mut paged, 5);
    assert!(matches!(r, Some(Action::Redraw)));
    assert_eq!(cursor.index(), 0);
    assert_eq!(cursor.scroll_offset(), 0);
}

#[test]
fn ten_items_seven_moves_scroll_three() {
    let mut cursor = Cursor::new();
    let mut paged = paged_of(10, None);
    for _ in 0..7 {
        cursor.receive_input(KeyBinding::Down, &mut paged, 5);
    }
    assert_eq!(cursor.index(), 7);
    assert_eq!(cursor.scroll_offset(), 3);
}

#[test]
fn selection_stays_in_bounds() {
    for n in 0..6usize {
        let mut list = InteractiveList::from(names(n));
        let keys = [
            KeyBinding::Down, KeyBinding::Down, KeyBinding::Up, KeyBinding::Down, KeyBinding::Down,
            KeyBinding::Down, KeyBinding::Down, KeyBinding::Down, KeyBinding::Up, KeyBinding::Up,
            KeyBinding::Up, KeyBinding::Up, KeyBinding::Up, KeyBinding::Up, KeyBinding::Enter,
        ];
        for k in keys.iter() {
            list.receive_input(*k);
            let max = if n == 0 { 0 } else { n - 1 };
            assert!(list.index() <= max);
        }
    }
}

#[test]
fn list_moves_stop_at_ends() {
    let mut list = InteractiveList::from(names(3));
    list.select_prev();
    assert_eq!(list.index(), 0);
    list.select_next();
    list.select_next();
    list.select_next();
    assert_eq!(list.index(), 2);
    assert_eq!(list.selected_item().map(|s| s.as_str()), Some("item 2"));
    assert!(list.is_highlighted(2));
    assert!(!list.is_highlighted(1));
    assert!(list.receive_input(KeyBinding::Quit).is_none());
    assert!(matches!(list.receive_input(KeyBinding::Up), Some(Action::Redraw)));
    assert_eq!(list.index(), 1);
}

#[test]
fn list_extend_keeps_selection() {
    let mut list = InteractiveList::from(names(2));
    list.select_next();
    list.extend(names(3));
    assert_eq!(list.index(), 1);
    assert_eq!(list.len(), 5);
    let all: Vec<&String> = list.iter().collect();
    assert_eq!(all[4].as_str(), "item 2");
    let owned: Vec<String> = list.into_iter().collect();
    assert_eq!(owned.len(), 5);
}

#[test]
fn scroll_keeps_selection_in_view() {
    let height: u16 = 3;
    let mut cursor = Cursor::new();
    let mut paged = paged_of(9, None);
    let keys = [
        KeyBinding::Down, KeyBinding::Down, KeyBinding::Down, KeyBinding::Down, KeyBinding::Up,
        KeyBinding::Up, KeyBinding::Up, KeyBinding::Up, KeyBinding::Down, KeyBinding::Down,
        KeyBinding::Down, KeyBinding::Down, KeyBinding::Down, KeyBinding::Down, KeyBinding::Down,
        KeyBinding::Down, KeyBinding::Down, KeyBinding::Up,
    ];
    for k in keys.iter() {
        cursor.receive_input(*k, &mut paged, height);
        assert!(cursor.scroll_offset() <= cursor.index());
        assert!(cursor.index() < cursor.scroll_offset() + height as usize);
        assert!(cursor.index() < 9);
    }
}

#[test]
fn zero_height_never_scrolls_past_selection() {
    let mut cursor = Cursor::new();
    let mut paged = paged_of(4, None);
    for _ in 0..6 {
        cursor.receive_input(KeyBinding::Down, &mut paged, 0);
        assert!(cursor.scroll_offset() <= cursor.index());
    }
    assert_eq!(cursor.index(), 3);
}

#[test]
fn growth_keeps_cursor() {
    let mut cursor = Cursor::new();
    let mut paged = paged_of(10, Some("next"));
    for _ in 0..3 {
        cursor.receive_input(KeyBinding::Down, &mut paged, 2);
    }
    let (index, offset) = (cursor.index(), cursor.scroll_offset());
    paged.add_page(paged_of(5, None));
    assert_eq!(paged.len(), 15);
    assert_eq!((cursor.index(), cursor.scroll_offset()), (index, offset));
}

#[test]
fn prefetch_once_while_in_flight() {
    let paged = paged_of(8, Some("tok"));
    assert!(paged.needs_prefetch(7));
    assert!(paged.needs_prefetch(6));
    assert!(!paged.needs_prefetch(5));

    let mut cursor = Cursor::new();
    let mut paged = paged_of(8, Some("tok"));
    let mut requests = 0;
    for _ in 0..10 {
        match cursor.receive_input(KeyBinding::Down, &mut paged, 4) {
            Some(Action::Request(NetworkRequest::LoadNextPage(PageId::Playlists, np))) => {
                assert_eq!(np.index, 1);
                assert_eq!(np.uri, "tok");
                requests += 1;
            }
            Some(Action::Redraw) => {}
            other => panic!("unexpected answer {:?}", other),
        }
    }
    assert_eq!(requests, 1);
    assert!(paged.is_loading());
    assert_eq!(cursor.index(), 7);
    assert!(!paged.needs_prefetch(7));
    assert!(paged.load_next().is_none());
}

#[test]
fn failed_fetch_rearms_prefetch() {
    let mut paged = paged_of(2, Some("tok"));
    assert!(paged.load_next().is_some());
    assert!(!paged.needs_prefetch(1));
    paged.fetch_failed();
    assert!(!paged.is_loading());
    assert!(paged.needs_prefetch(1));
    assert_eq!(paged.len(), 2);
}

#[test]
fn exhausted_collection_never_fetches() {
    let mut cursor = Cursor::new();
    let mut paged = paged_of(3, Some("tok"));
    paged.add_page(paged_of(2, None));
    assert!(!paged.has_more());
    for _ in 0..8 {
        let r = cursor.receive_input(KeyBinding::Down, &mut paged, 2);
        assert!(matches!(r, Some(Action::Redraw)));
        assert!(!paged.needs_prefetch(cursor.index()));
    }
    assert!(paged.load_next().is_none());
}

#[test]
fn cursor_lookups_and_rows() {
    let mut cursor = Cursor::new();
    let items = names(5);
    assert_eq!(cursor.get(4, &items).map(|s| s.as_str()), Some("item 4"));
    assert!(cursor.get(5, &items).is_none());
    let mut paged = paged_of(5, None);
    for _ in 0..3 {
        cursor.receive_input(KeyBinding::Down, &mut paged, 2);
    }
    assert_eq!(cursor.index(), 3);
    assert_eq!(cursor.scroll_offset(), 2);
    assert_eq!(cursor.selected_item(paged.items()).map(|s| s.as_str()), Some("item 3"));
    assert!(cursor.is_highlighted(3));
    assert_eq!(cursor.visible_rows(5, 2), vec![(2, false), (3, true)]);
    assert_eq!(cursor.visible_rows(3, 10), vec![(2, false)]);
    assert_eq!(cursor.visible_rows(2, 10), Vec::<(usize, bool)>::new());
    assert!(cursor.needs_next_page(5));
    assert!(!cursor.needs_next_page(6));
    assert!(cursor.receive_input(KeyBinding::Enter, &mut paged, 2).is_none());
}
