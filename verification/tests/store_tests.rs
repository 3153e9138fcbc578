use chat_session::message::ChatMessage;
use chat_session::store::{viewport_height, MessageStore, ViewportState, FRAME_ROWS};

fn chat(n: usize) -> ChatMessage {
    ChatMessage::new(
        "chat".to_string(),
        "bob".to_string(),
        "00ff00".to_string(),
        format!("message {}", n),
        "general".to_string(),
        0,
    )
}

fn filled(total: usize) -> MessageStore {
    let mut store = MessageStore::new();
    for n in 0..total {
        store.append(chat(n));
    }
    store
}

fn contents(window: &[ChatMessage]) -> Vec<String> {
    window.iter().map(|m| m.content().to_string()).collect()
}

#[test]
fn new_store_is_empty() {
    let store = MessageStore::new();
    assert_eq!(store.total(), 0);
    assert_eq!(store.scroll_offset(), 0);
    assert!(store.visible_window(10).is_empty());
    assert!(store.visible_window(0).is_empty());
}

#[test]
fn append_keeps_arrival_order() {
    let store = filled(4);
    assert_eq!(store.total(), 4);
    assert_eq!(
        contents(store.visible_window(10)),
        vec!["message 0", "message 1", "message 2", "message 3"]
    );
}

#[test]
fn append_does_not_deduplicate() {
    let mut store = MessageStore::new();
    store.append(chat(1));
    store.append(chat(1));
    store.append(chat(0));
    assert_eq!(store.total(), 3);
    assert_eq!(contents(store.visible_window(5)), vec!["message 1", "message 1", "message 0"]);
}

#[test]
fn window_shows_the_newest_messages() {
    let store = filled(10);
    assert_eq!(contents(store.visible_window(3)), vec!["message 7", "message 8", "message 9"]);
    assert_eq!(contents(store.visible_window(1)), vec!["message 9"]);
    assert!(store.visible_window(0).is_empty());
    assert_eq!(store.visible_window(10).len(), 10);
    assert_eq!(store.visible_window(11).len(), 10);
}

#[test]
fn window_follows_the_scroll_offset() {
    let mut store = filled(10);
    store.scroll_up(3);
    store.scroll_up(3);
    assert_eq!(store.scroll_offset(), 2);
    assert_eq!(contents(store.visible_window(3)), vec!["message 5", "message 6", "message 7"]);
    store.scroll_down(3);
    assert_eq!(contents(store.visible_window(3)), vec!["message 6", "message 7", "message 8"]);
}

#[test]
fn window_has_the_shape_it_should_for_every_offset_in_range() {
    for total in 0usize..12 {
        let mut store = filled(total);
        for height in 0usize..14 {
            let limit = total.saturating_sub(height);
            // walk the offset from 0 up to the limit
            store.clamp_scroll(height);
            while store.scroll_offset() > 0 {
                store.scroll_down(height);
            }
            for offset in 0..=limit {
                assert_eq!(store.scroll_offset(), offset);
                let window = store.visible_window(height);
                assert_eq!(window.len(), height.min(total));
                if total > height && height > 0 {
                    let last = total - 1 - offset;
                    assert_eq!(window[window.len() - 1].content(), format!("message {}", last));
                    let first = last + 1 - height;
                    for (i, m) in window.iter().enumerate() {
                        assert_eq!(m.content(), format!("message {}", first + i));
                    }
                } else {
                    for (i, m) in window.iter().enumerate() {
                        assert_eq!(m.content(), format!("message {}", i));
                    }
                }
                store.scroll_up(height);
            }
            assert_eq!(store.scroll_offset(), limit);
        }
    }
}

#[test]
fn window_reflects_the_latest_message() {
    let mut store = filled(3);
    assert_eq!(contents(store.visible_window(2)), vec!["message 1", "message 2"]);
    store.append(chat(3));
    assert_eq!(contents(store.visible_window(2)), vec!["message 2", "message 3"]);
}

#[test]
fn window_with_an_offset_out_of_range_starts_at_the_oldest() {
    let mut store = filled(10);
    for _ in 0..8 {
        store.scroll_up(2);
    }
    assert_eq!(store.scroll_offset(), 8);
    // the viewport grew: the offset is out of range until it is clamped
    assert_eq!(contents(store.visible_window(5)), vec![
        "message 0", "message 1", "message 2", "message 3", "message 4"
    ]);
    store.clamp_scroll(5);
    assert_eq!(store.scroll_offset(), 5);
    assert_eq!(contents(store.visible_window(5)), vec![
        "message 0", "message 1", "message 2", "message 3", "message 4"
    ]);
}

#[test]
fn clear_empties_the_log_and_resets_the_offset() {
    for n in [0usize, 1, 5, 40] {
        let mut store = filled(n);
        store.scroll_up(2);
        store.clear();
        assert_eq!(store.total(), 0);
        assert_eq!(store.scroll_offset(), 0);
        for height in [0usize, 1, 3, 100] {
            assert!(store.visible_window(height).is_empty());
        }
    }
}

#[test]
fn store_is_usable_after_clear() {
    let mut store = filled(5);
    store.clear();
    store.append(chat(9));
    assert_eq!(contents(store.visible_window(3)), vec!["message 9"]);
}

#[test]
fn scroll_up_stops_at_the_limit() {
    let mut store = filled(5);
    for _ in 0..10 {
        store.scroll_up(3);
    }
    assert_eq!(store.scroll_offset(), 2);
    let mut small = filled(2);
    small.scroll_up(3);
    assert_eq!(small.scroll_offset(), 0);
}

#[test]
fn scroll_down_stops_at_zero() {
    let mut store = filled(5);
    store.scroll_up(3);
    store.scroll_down(3);
    store.scroll_down(3);
    assert_eq!(store.scroll_offset(), 0);
}

#[test]
fn scrolling_uses_the_height_of_the_call() {
    let mut store = filled(10);
    for _ in 0..9 {
        store.scroll_up(1);
    }
    assert_eq!(store.scroll_offset(), 9);
    store.scroll_up(8);
    assert_eq!(store.scroll_offset(), 2);
    let mut other = filled(10);
    for _ in 0..9 {
        other.scroll_up(1);
    }
    other.scroll_down(8);
    assert_eq!(other.scroll_offset(), 2);
    other.scroll_down(1);
    assert_eq!(other.scroll_offset(), 1);
}

#[test]
fn clamp_leaves_an_offset_in_range_alone() {
    let mut store = filled(10);
    store.scroll_up(4);
    store.scroll_up(4);
    store.clamp_scroll(4);
    assert_eq!(store.scroll_offset(), 2);
    store.clamp_scroll(9);
    assert_eq!(store.scroll_offset(), 1);
    store.clamp_scroll(10);
    assert_eq!(store.scroll_offset(), 0);
}

#[test]
fn viewport_state_arithmetic() {
    assert_eq!(ViewportState::limit(10, 3), 7);
    assert_eq!(ViewportState::limit(3, 3), 0);
    assert_eq!(ViewportState::limit(2, 3), 0);
    assert_eq!(ViewportState::limit(0, 0), 0);
    let v = ViewportState { scroll_offset: 2 };
    assert_eq!(v.bounds(10, 3), (5, 8));
    assert_eq!(v.bounds(10, 0), (8, 8));
    assert_eq!(v.bounds(3, 5), (0, 3));
    assert_eq!(ViewportState { scroll_offset: 9 }.bounds(10, 3), (0, 3));
    assert_eq!(ViewportState::new().bounds(usize::MAX, 1), (usize::MAX - 1, usize::MAX));
    assert_eq!(ViewportState::new().bounds(5, usize::MAX), (0, 5));
    let mut w = ViewportState { scroll_offset: usize::MAX };
    w.scroll_up(usize::MAX, 0);
    assert_eq!(w.scroll_offset, usize::MAX);
    w.clamp(4, 1);
    assert_eq!(w.scroll_offset, 3);
    w.scroll_down(4, 1);
    assert_eq!(w.scroll_offset, 2);
    w.scroll_up(4, 1);
    w.scroll_up(4, 1);
    assert_eq!(w.scroll_offset, 3);
}

#[test]
fn viewport_height_leaves_room_for_the_frame() {
    assert_eq!(FRAME_ROWS, 7);
    assert_eq!(viewport_height(24), 17);
    assert_eq!(viewport_height(8), 1);
    assert_eq!(viewport_height(7), 0);
    assert_eq!(viewport_height(3), 0);
    assert_eq!(viewport_height(0), 0);
    assert_eq!(viewport_height(u16::MAX), 65528);
}
