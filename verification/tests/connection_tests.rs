use chat_session::connection::{ConnectionManager, ConnectionState, LinkState, SendStep};
use chat_session::message::ChatMessage;
use chat_session::store::MessageStore;

const URL: &str = "ws://relay.example:9001";

fn manager() -> ConnectionManager {
    ConnectionManager::new(URL.to_string())
}

fn last_content(store: &MessageStore) -> String {
    let window = store.visible_window(1);
    window[window.len() - 1].content().to_string()
}

/// One whole send on a transport with the given answers; counts the connects.
fn send(
    conn: &mut ConnectionManager,
    store: &mut MessageStore,
    delivered: bool,
    connected: bool,
    connects: &mut usize,
) -> bool {
    match conn.after_write(delivered) {
        SendStep::Sent => true,
        SendStep::Dropped => false,
        SendStep::Reconnect(url) => {
            assert_eq!(url, conn.url());
            *connects += 1;
            conn.after_reconnect(connected, store)
        }
    }
}

#[test]
fn new_manager_is_connected_and_has_not_reconnected() {
    let conn = manager();
    assert_eq!(
        conn.state(),
        ConnectionState { link: LinkState::Connected, reconnect_attempted: false }
    );
    assert_eq!(conn.url(), URL);
}

#[test]
fn written_frame_is_sent() {
    let mut conn = manager();
    assert_eq!(conn.after_write(true), SendStep::Sent);
    assert_eq!(
        conn.state(),
        ConnectionState { link: LinkState::Connected, reconnect_attempted: false }
    );
}

#[test]
fn lost_frame_asks_for_one_reconnect_to_the_last_address() {
    let mut conn = manager();
    assert_eq!(conn.after_write(false), SendStep::Reconnect(URL.to_string()));
    assert_eq!(
        conn.state(),
        ConnectionState { link: LinkState::Disconnected, reconnect_attempted: false }
    );
}

#[test]
fn reconnect_once_then_never_again() {
    let mut conn = manager();
    let mut store = MessageStore::new();
    let mut connects = 0;
    assert!(send(&mut conn, &mut store, false, true, &mut connects));
    assert_eq!(connects, 1);
    assert!(conn.state().reconnect_attempted);
    assert_eq!(conn.state().link, LinkState::Connected);
    assert_eq!(store.total(), 1);
    assert_eq!(store.visible_window(1)[0], ChatMessage::reconnected());

    assert!(!send(&mut conn, &mut store, false, true, &mut connects));
    assert_eq!(connects, 1);
    assert!(conn.state().reconnect_attempted);
    assert_eq!(conn.state().link, LinkState::Disconnected);
    assert_eq!(store.total(), 1);
    assert_eq!(conn.after_write(false), SendStep::Dropped);
}

#[test]
fn failed_reconnect_posts_a_notice_and_may_be_tried_again() {
    let mut conn = manager();
    let mut store = MessageStore::new();
    let mut connects = 0;
    assert!(!send(&mut conn, &mut store, false, false, &mut connects));
    assert_eq!(connects, 1);
    assert!(!conn.state().reconnect_attempted);
    assert_eq!(last_content(&store), format!("Failed to connect to {}. Try again.", URL));
    assert_eq!(store.visible_window(1)[0], ChatMessage::connect_failed(URL));
    // the flag is set only by a reconnect that succeeds
    assert!(send(&mut conn, &mut store, false, true, &mut connects));
    assert_eq!(connects, 2);
    assert!(conn.state().reconnect_attempted);
    assert_eq!(store.total(), 2);
}

#[test]
fn sends_that_succeed_never_connect() {
    let mut conn = manager();
    let mut store = MessageStore::new();
    let mut connects = 0;
    for _ in 0..5 {
        assert!(send(&mut conn, &mut store, true, false, &mut connects));
    }
    assert_eq!(connects, 0);
    assert_eq!(store.total(), 0);
}

#[test]
fn switch_that_succeeds_takes_the_new_address() {
    let mut conn = manager();
    let mut store = MessageStore::new();
    conn.close();
    assert_eq!(conn.state().link, LinkState::Disconnected);
    conn.after_switch("ws://other:1".to_string(), true, &mut store);
    assert_eq!(conn.url(), "ws://other:1");
    assert_eq!(conn.state().link, LinkState::Connected);
    assert_eq!(last_content(&store), "Connected to ws://other:1.");
    assert_eq!(conn.after_write(false), SendStep::Reconnect("ws://other:1".to_string()));
}

#[test]
fn switch_that_fails_keeps_the_old_address() {
    let mut conn = manager();
    let mut store = MessageStore::new();
    conn.close();
    conn.after_switch("ws://other:1".to_string(), false, &mut store);
    assert_eq!(conn.url(), URL);
    assert_eq!(conn.state().link, LinkState::Disconnected);
    assert_eq!(last_content(&store), "Failed to connect to ws://other:1. Try again.");
}

#[test]
fn switch_does_not_reset_the_reconnect_flag() {
    let mut conn = manager();
    let mut store = MessageStore::new();
    let mut connects = 0;
    assert!(send(&mut conn, &mut store, false, true, &mut connects));
    conn.close();
    conn.after_switch("ws://other:1".to_string(), true, &mut store);
    assert!(conn.state().reconnect_attempted);
    assert!(!send(&mut conn, &mut store, false, true, &mut connects));
    assert_eq!(connects, 1);
}
