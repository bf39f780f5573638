use webtui::rendezvous::{key_record, location, pending_keys, Slot};
use webtui::tui::{App, WorkerAction};

#[test]
fn a_fresh_worker_renders_first() {
    let app = App::init("c0ffee".to_string());
    assert_eq!(app.counter(), 0);
    assert!(!app.exit());
    assert_eq!(app.uuid(), "c0ffee");
    assert_eq!(app.next_action(), WorkerAction::Render);
}

#[test]
fn arrow_keys_move_the_counter_by_one() {
    let mut app = App::init(String::new());
    app.handle_web_key_event("ArrowRight");
    app.handle_web_key_event("ArrowRight");
    assert_eq!(app.counter(), 2);
    app.handle_web_key_event("ArrowLeft");
    assert_eq!(app.counter(), 1);
}

#[test]
fn other_keys_leave_the_counter() {
    let mut app = App::init(String::new());
    app.increment_counter();
    for key in ["", "q", "arrowright", "ArrowRight ", "ArrowUp", "ArrowLeftArrowLeft"] {
        app.handle_web_key_event(key);
        assert_eq!(app.counter(), 1);
    }
}

#[test]
fn the_counter_stops_at_its_bounds() {
    let mut app = App::init(String::new());
    app.decrement_counter();
    assert_eq!(app.counter(), 0);
    app.handle_web_key_event("ArrowLeft");
    assert_eq!(app.counter(), 0);
    for _ in 0..300 {
        app.increment_counter();
    }
    assert_eq!(app.counter(), 255);
    app.handle_web_key_event("ArrowRight");
    assert_eq!(app.counter(), 255);
    app.decrement_counter();
    assert_eq!(app.counter(), 254);
}

#[test]
fn a_close_signal_is_never_forgotten() {
    let mut app = App::init(String::new());
    app.check_exit(false);
    assert!(!app.exit());
    app.check_exit(true);
    assert!(app.exit());
    app.check_exit(false);
    assert!(app.exit());
    assert_eq!(app.next_action(), WorkerAction::Stop);
    assert_eq!(app.advance(Some("ArrowRight"), false), WorkerAction::Stop);
}

#[test]
fn advance_takes_the_key_then_the_signal() {
    let mut app = App::init("id".to_string());
    assert_eq!(app.advance(None, false), WorkerAction::Render);
    assert_eq!(app.counter(), 0);
    assert_eq!(app.advance(Some("ArrowRight"), false), WorkerAction::Render);
    assert_eq!(app.counter(), 1);
    assert_eq!(app.advance(Some("ArrowRight"), true), WorkerAction::Stop);
    assert_eq!(app.counter(), 2);
    assert_eq!(app.uuid(), "id");
}

#[test]
fn slots_are_named_after_their_session() {
    let uuid = "67e55044-10b1-426f-9247-bb680e5fe0c8";
    assert_eq!(location(Slot::Output, uuid), "temp/67e55044-10b1-426f-9247-bb680e5fe0c8.output");
    assert_eq!(location(Slot::Key, uuid), "temp/67e55044-10b1-426f-9247-bb680e5fe0c8.kl");
    assert_eq!(location(Slot::Remove, uuid), "temp/67e55044-10b1-426f-9247-bb680e5fe0c8.remove");
    assert_eq!(location(Slot::Key, ""), "temp/.kl");
}

#[test]
fn slots_of_different_sessions_differ() {
    let slots = [Slot::Output, Slot::Key, Slot::Remove];
    let ids = ["a", "b", "a.output", "a.kl", "a.remove", ""];
    let mut names = Vec::new();
    for slot in slots {
        for id in ids {
            names.push(location(slot, id));
        }
    }
    for i in 0..names.len() {
        for j in 0..names.len() {
            assert_eq!(names[i] == names[j], i == j);
        }
    }
}

#[test]
fn advance_all_takes_every_pending_key_in_order() {
    let mut app = App::init("id".to_string());
    let keys = vec!["ArrowRight".to_string(), "ArrowRight".to_string()];
    assert_eq!(app.advance_all(&keys, false), WorkerAction::Render);
    assert_eq!(app.counter(), 2);
    let keys = vec!["ArrowLeft".to_string(), "ArrowLeft".to_string(), "ArrowLeft".to_string(), "ArrowRight".to_string()];
    assert_eq!(app.advance_all(&keys, false), WorkerAction::Render);
    assert_eq!(app.counter(), 1);
    assert_eq!(app.advance_all(&Vec::new(), false), WorkerAction::Render);
    assert_eq!(app.counter(), 1);
    let keys = vec!["q".to_string(), "ArrowRight".to_string()];
    assert_eq!(app.advance_all(&keys, true), WorkerAction::Stop);
    assert_eq!(app.counter(), 2);
    assert!(app.exit());
    assert_eq!(app.uuid(), "id");
}

#[test]
fn advance_all_saturates_along_the_way() {
    let mut app = App::init(String::new());
    for _ in 0..254 {
        app.increment_counter();
    }
    let keys = vec!["ArrowRight".to_string(), "ArrowRight".to_string(), "ArrowLeft".to_string()];
    app.advance_all(&keys, false);
    assert_eq!(app.counter(), 254);
}

#[test]
fn a_worker_stops_in_the_pass_that_finds_the_signal() {
    let mut app = App::init(String::new());
    let mut actions = Vec::new();
    for signal in [false, false, true, false] {
        actions.push(app.advance(None, signal));
    }
    assert_eq!(
        actions,
        vec![WorkerAction::Render, WorkerAction::Render, WorkerAction::Stop, WorkerAction::Stop]
    );
}

#[test]
fn queued_keys_come_back_in_order() {
    let mut slot = String::new();
    assert_eq!(key_record("ArrowRight"), "ArrowRight\n");
    for key in ["ArrowRight", "ArrowLeft", "q"] {
        slot.push_str(&key_record(key));
    }
    assert_eq!(pending_keys(&slot), vec!["ArrowRight", "ArrowLeft", "q"]);
    assert!(pending_keys("").is_empty());
    assert!(pending_keys("\n\n").is_empty());
    assert_eq!(pending_keys("ArrowRight"), vec!["ArrowRight"]);
    assert_eq!(pending_keys("a\n\nb"), vec!["a", "b"]);
}
