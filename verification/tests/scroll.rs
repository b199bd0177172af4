use sympil::list::StatefulList;
use sympil::scroll::{MouseListState, ScrollOp, ScrollState};

#[test]
fn scroll_never_leaves_the_content() {
    let mut state = ScrollState::new(5);
    state.view_size = 2;
    for _ in 0..10 {
        state.scroll_down();
        assert!(state.position <= 3);
    }
    assert_eq!(state.position, 3);
    for _ in 0..10 {
        state.scroll_up();
    }
    assert_eq!(state.position, 0);
    state.scroll_bottom();
    assert_eq!(state.position, 3);
    state.scroll_top();
    assert_eq!(state.position, 0);
}

#[test]
fn scroll_by_pages_moves_a_window_at_a_time() {
    let mut state = ScrollState::new(100);
    state.view_size = 30;
    state.scroll_page_down();
    assert_eq!(state.position, 30);
    state.scroll_page_down();
    assert_eq!(state.position, 60);
    state.scroll_page_down();
    assert_eq!(state.position, 70);
    state.scroll_page_up();
    assert_eq!(state.position, 40);
    state.scroll_page_up();
    state.scroll_page_up();
    assert_eq!(state.position, 0);
}

#[test]
fn window_larger_than_content_pins_the_cursor() {
    let mut state = ScrollState::new(3);
    state.view_size = 10;
    state.apply(ScrollOp::Down);
    assert_eq!(state.position, 0);
    state.apply(ScrollOp::Bottom);
    assert_eq!(state.position, 0);
    assert_eq!(state.scrollbar().content_length, 0);
}

#[test]
fn a_cursor_out_of_range_is_pulled_back_by_any_step() {
    let mut state = ScrollState { position: 50, view_size: 4, max: 10 };
    state.scroll_up();
    assert_eq!(state.position, 6);
    let mut state = ScrollState { position: 50, view_size: 4, max: 10 };
    state.set_view_size(8);
    assert_eq!(state.position, 2);
    assert_eq!(state.view_size, 8);
}

#[test]
fn scrollbar_shows_range_and_position() {
    let mut state = ScrollState::new(96);
    state.view_size = 4;
    state.scroll_down();
    let bar = state.scrollbar();
    assert_eq!(bar.content_length, 92);
    assert_eq!(bar.position, 1);
}

#[test]
fn mouse_list_select_out_of_bounds_keeps_the_position() {
    let mut state = MouseListState::new(3);
    state.select(Some(2));
    assert_eq!(state.position, 2);
    state.select(Some(3));
    assert_eq!(state.position, 2);
    assert_eq!(state.selected, Some(3));
    state.select(Some(usize::MAX));
    assert_eq!(state.position, 2);
    state.select(None);
    assert_eq!(state.position, 2);
    assert_eq!(state.selected, None);
    state.select(Some(0));
    assert_eq!(state.position, 0);
}

#[test]
fn mouse_list_scrolls_by_plain_saturating_steps() {
    let mut state = MouseListState::new(2);
    state.scroll_up();
    assert_eq!(state.position, 0);
    state.scroll_down();
    state.scroll_down();
    state.scroll_down();
    assert_eq!(state.position, 3);
    state.view_size = 2;
    state.scroll_page_down();
    assert_eq!(state.position, 5);
    state.scroll_page_up();
    state.scroll_page_up();
    state.scroll_page_up();
    assert_eq!(state.position, 0);
    state.scroll_bottom();
    assert_eq!(state.position, 0);
    state.position = usize::MAX;
    state.scroll_down();
    assert_eq!(state.position, usize::MAX);
    state.scroll_top();
    assert_eq!(state.position, 0);
    assert_eq!(state.list_selection(), Some(0));
    assert_eq!(state.scrollbar().content_length, 0);
}

#[test]
fn list_next_then_previous_returns_to_the_start() {
    for start in 0..4 {
        let mut list = StatefulList::with_items(vec!['a', 'b', 'c', 'd']);
        list.state.select(Some(start));
        list.next();
        list.previous();
        assert_eq!(list.state.selected(), Some(start));
        list.previous();
        list.next();
        assert_eq!(list.state.selected(), Some(start));
    }
}

#[test]
fn list_selection_wraps_around() {
    let mut list = StatefulList::with_items(vec![10, 20, 30]);
    assert_eq!(list.state.selected(), None);
    list.next();
    assert_eq!(list.state.selected(), Some(0));
    list.previous();
    assert_eq!(list.state.selected(), Some(2));
    assert_eq!(list.selected_item(), Some(&30));
    list.next();
    assert_eq!(list.state.selected(), Some(0));
    list.unselect();
    assert_eq!(list.state.selected(), None);
    list.previous();
    assert_eq!(list.state.selected(), Some(0));
}

#[test]
fn an_empty_list_selects_nothing() {
    let mut list: StatefulList<u8> = StatefulList::default();
    list.next();
    assert_eq!(list.state.selected(), None);
    list.previous();
    assert_eq!(list.state.selected(), None);
    assert_eq!(list.selected_item(), None);
}
