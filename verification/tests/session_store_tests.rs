use tokio::sync::mpsc::channel;
use webtui::session_store::AppState;

#[test]
fn a_registered_identifier_has_its_handle() {
    let mut store = AppState::new();
    let (tx, _rx) = channel::<String>(10);
    let (other_tx, _other_rx) = channel::<String>(10);
    store.register(7, tx.clone());
    let found = store.get_delivery_channel(7).unwrap();
    assert!(found.same_channel(&tx));
    assert!(!found.same_channel(&other_tx));
    assert!(store.is_registered(7));
}

#[test]
fn an_unregistered_identifier_has_no_handle() {
    let mut store = AppState::new();
    let (tx, _rx) = channel::<String>(10);
    store.register(7, tx);
    store.unregister(7);
    assert!(store.get_delivery_channel(7).is_none());
    assert!(!store.is_registered(7));
}

#[test]
fn an_unknown_identifier_is_blank_and_harmless() {
    let mut store = AppState::new();
    assert!(store.get_delivery_channel(1).is_none());
    assert!(!store.is_close_requested(1));
    assert_eq!(store.get_dimensions(1), None);
    store.set_dimensions(1, 80, 24);
    store.request_close(1);
    store.unregister(1);
    assert!(!store.is_registered(1));
    assert!(!store.is_close_requested(1));
    assert_eq!(store.get_dimensions(1), None);
}

#[test]
fn a_close_request_stays_until_unregistration() {
    let mut store = AppState::new();
    let (tx, _rx) = channel::<String>(10);
    let (again, _again_rx) = channel::<String>(10);
    let (other, _other_rx) = channel::<String>(10);
    store.register(3, tx);
    assert!(!store.is_close_requested(3));
    store.request_close(3);
    assert!(store.is_close_requested(3));
    store.set_dimensions(3, 10, 10);
    store.register(4, other);
    store.request_close(3);
    store.register(3, again);
    store.unregister(4);
    assert!(store.is_close_requested(3));
    store.unregister(3);
    assert!(!store.is_close_requested(3));
}

#[test]
fn registering_again_swaps_the_handle_only() {
    let mut store = AppState::new();
    let (first, _first_rx) = channel::<String>(10);
    let (second, _second_rx) = channel::<String>(10);
    store.register(3, first);
    store.set_dimensions(3, 80, 24);
    store.register(3, second.clone());
    assert!(store.get_delivery_channel(3).unwrap().same_channel(&second));
    assert_eq!(store.get_dimensions(3), Some((80, 24)));
}

#[test]
fn dimensions_are_recorded_and_renegotiated() {
    let mut store = AppState::new();
    let (tx, _rx) = channel::<String>(10);
    store.register(9, tx);
    assert_eq!(store.get_dimensions(9), None);
    store.set_dimensions(9, 80, 24);
    assert_eq!(store.get_dimensions(9), Some((80, 24)));
    store.set_dimensions(9, 132, 43);
    assert_eq!(store.get_dimensions(9), Some((132, 43)));
    store.unregister(9);
    assert_eq!(store.get_dimensions(9), None);
}

#[test]
fn sessions_do_not_touch_each_other() {
    let mut store = AppState::new();
    let (a, _a_rx) = channel::<String>(10);
    let (b, _b_rx) = channel::<String>(10);
    store.register(1, a.clone());
    store.register(2, b.clone());
    store.set_dimensions(1, 80, 24);
    store.request_close(1);
    assert!(store.get_delivery_channel(2).unwrap().same_channel(&b));
    assert_eq!(store.get_dimensions(2), None);
    assert!(!store.is_close_requested(2));
    store.unregister(1);
    assert!(store.get_delivery_channel(2).unwrap().same_channel(&b));
    assert!(store.get_delivery_channel(1).is_none());
}
