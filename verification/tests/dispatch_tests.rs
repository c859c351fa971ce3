use tally_core::event::DispatchAction;
use tally_core::event::PlatformEvent;
use tally_core::event::dispatch;
use tally_core::store::CounterStore;

#[test]
fn message_event_increments_author_count() {
    let mut store = CounterStore::new();
    let action = dispatch(&mut store, PlatformEvent::MessageReceived { author_key: 77 });
    assert!(matches!(action, DispatchAction::Handled));
    assert_eq!(store.read_count(77), Ok(1));
    assert_eq!(store.read_aggregate(), Ok(1));
}

#[test]
fn member_join_leaves_store_alone_and_asks_for_role() {
    let mut store = CounterStore::new();
    let action = dispatch(&mut store, PlatformEvent::MemberJoined { member_ref: 5 });
    match action {
        DispatchAction::AssignRole { member_ref } => assert_eq!(member_ref, 5),
        _ => panic!("expected a role assignment"),
    }
    assert_eq!(store.read_aggregate(), Ok(0));
}

#[test]
fn command_comes_back_as_reply_action() {
    let mut store = CounterStore::new();
    let action = dispatch(
        &mut store,
        PlatformEvent::CommandInvoked { name: String::from("github"), reply_channel: 9 },
    );
    match action {
        DispatchAction::ReplyToCommand { name, reply_channel } => {
            assert_eq!(name, "github");
            assert_eq!(reply_channel, 9);
        }
        _ => panic!("expected a reply action"),
    }
    assert_eq!(store.read_aggregate(), Ok(0));
}

#[test]
fn failed_increment_never_stops_event_processing() {
    let mut store = CounterStore::new();
    store.mark_poisoned();
    // the increment fails inside, the event is still handled quietly
    let action = dispatch(&mut store, PlatformEvent::MessageReceived { author_key: 1 });
    assert!(matches!(action, DispatchAction::Handled));
    // and later events keep flowing
    let next = dispatch(&mut store, PlatformEvent::MemberJoined { member_ref: 2 });
    assert!(matches!(next, DispatchAction::AssignRole { member_ref: 2 }));
}
