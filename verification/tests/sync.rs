use effektio::channel::Refusal;
use effektio::client::Client;
use effektio::cross_signing::{CrossSigningEvent, ToDeviceEvent, ToDeviceKind};
use effektio::cross_signing::{TimelineEvent, TimelineKind};
use effektio::handlers::{
    handle_any_sync_event, handle_to_device_event, settle, Delivery, JoinedRoom,
};
use effektio::state::{ClientState, LoopCtrl};
use effektio::sync::{SyncAction, SyncLoop, SyncState, SyncUpdate};
use futures::channel::mpsc;
use futures::StreamExt;
use futures_signals::signal::SignalExt;

fn done_json(transaction_id: &str) -> String {
    format!(
        r#"{{"type": "m.key.verification.done", "sender": "@alice:example.org",
            "content": {{"transaction_id": "{}"}}}}"#,
        transaction_id
    )
}

fn room_done_json(event_id: &str) -> String {
    format!(
        r#"{{"type": "m.key.verification.done", "sender": "@alice:example.org",
            "event_id": "{}", "origin_server_ts": 1,
            "content": {{"m.relates_to": {{"rel_type": "m.reference", "event_id": "$r"}}}}}}"#,
        event_id
    )
}

fn empty() -> SyncUpdate {
    SyncUpdate { to_device: vec![], joined: vec![] }
}

fn to_device(transaction_id: &str) -> ToDeviceEvent {
    ToDeviceEvent {
        kind: ToDeviceKind::KeyVerificationKey,
        sender: "@alice:example.org".to_owned(),
        transaction_id: transaction_id.to_owned(),
    }
}

#[test]
fn a_step_waits_in_the_queue() {
    let (mut tx, mut rx) = mpsc::channel::<CrossSigningEvent>(10);
    assert!(matches!(handle_to_device_event(&to_device("t1"), &mut tx), Delivery::Queued));
    let event = rx.try_recv().unwrap();
    assert_eq!(event.get_event_name(), "AnyToDeviceEvent::KeyVerificationKey");
    assert_eq!(event.get_event_id(), "t1");
    assert_eq!(event.get_sender(), "@alice:example.org");
    assert!(rx.try_recv().is_err());
}

#[test]
fn a_step_of_a_room_waits_in_the_queue() {
    let (mut tx, mut rx) = mpsc::channel::<CrossSigningEvent>(10);
    let mut event = TimelineEvent {
        kind: TimelineKind::KeyVerificationCancel,
        sender: "@alice:example.org".to_owned(),
        event_id: "$e".to_owned(),
    };
    assert!(matches!(handle_any_sync_event(&event, &mut tx), Delivery::Queued));
    let step = rx.try_recv().unwrap();
    assert_eq!(step.get_event_name(), "AnySyncMessageLikeEvent::KeyVerificationReady");
    assert_eq!(step.get_event_id(), "$e");
    event.kind = TimelineKind::Other;
    assert!(matches!(handle_any_sync_event(&event, &mut tx), Delivery::Ignored));
    assert!(rx.try_recv().is_err());
}

#[test]
fn what_a_full_queue_cannot_take_is_dropped() {
    let (mut tx, mut rx) = mpsc::channel::<CrossSigningEvent>(10);
    for i in 0..11 {
        let event = to_device(&format!("t{}", i));
        assert!(matches!(handle_to_device_event(&event, &mut tx), Delivery::Queued));
    }
    match handle_to_device_event(&to_device("late"), &mut tx) {
        Delivery::Dropped { event_id, refusal } => {
            assert_eq!(event_id, "late");
            assert_eq!(refusal, Refusal::Full);
            assert_eq!(refusal.message(), "send failed because channel is full");
            let event = CrossSigningEvent::new(String::new(), String::new(), String::new());
            assert_eq!(refusal.message(), tx.try_send(event).unwrap_err().to_string());
        }
        other => panic!("{:?}", other),
    }
    for i in 0..11 {
        assert_eq!(rx.try_recv().unwrap().get_event_id(), format!("t{}", i));
    }
    assert!(rx.try_recv().is_err());
}

#[test]
fn without_a_reader_steps_are_dropped() {
    let (mut tx, rx) = mpsc::channel::<CrossSigningEvent>(10);
    drop(rx);
    match handle_to_device_event(&to_device("t"), &mut tx) {
        Delivery::Dropped { event_id, refusal } => {
            assert_eq!(event_id, "t");
            assert_eq!(refusal, Refusal::Disconnected);
            assert_eq!(refusal.message(), "send failed because receiver is gone");
            let event = CrossSigningEvent::new(String::new(), String::new(), String::new());
            assert_eq!(refusal.message(), tx.try_send(event).unwrap_err().to_string());
        }
        other => panic!("{:?}", other),
    }
}

#[test]
fn fates_follow_refusals() {
    assert!(matches!(settle("a".to_owned(), None), Delivery::Queued));
    assert!(matches!(
        settle("a".to_owned(), Some(Refusal::Full)),
        Delivery::Dropped { event_id, refusal: Refusal::Full } if event_id == "a"
    ));
}

#[test]
fn rooms_are_passed_over_in_the_first_response() {
    let mut client = Client::new(ClientState::default());
    let (mut writer, mut reader) = client.start_sync();
    let mut to_device_rx = reader.get_to_device_rx().unwrap();
    let mut rooms_rx = reader.get_sync_msg_like_rx().unwrap();

    let update = SyncUpdate {
        to_device: vec![done_json("t1"), "no json".to_owned(), done_json("t2")],
        joined: vec![
            JoinedRoom { timeline: vec![room_done_json("$a")] },
            JoinedRoom { timeline: vec!["no json".to_owned(), room_done_json("$b")] },
        ],
    };
    let (report, action) = writer.on_response(client.state_mut(), &update);
    assert_eq!(action, SyncAction::NameInvites);
    assert!(matches!(
        report.to_device[..],
        [Delivery::Queued, Delivery::Ignored, Delivery::Queued]
    ));
    assert!(report.timeline.is_empty());
    assert_eq!(to_device_rx.try_recv().unwrap().get_event_id(), "t1");
    assert_eq!(to_device_rx.try_recv().unwrap().get_event_id(), "t2");
    assert!(to_device_rx.try_recv().is_err());
    assert!(rooms_rx.try_recv().is_err());
    assert!(client.has_first_synced());
    assert!(!client.is_syncing());
    assert_eq!(client.state_mut().finish_response(), LoopCtrl::Continue);
    assert!(client.is_syncing());

    let (report, action) = writer.on_response(client.state_mut(), &update);
    assert_eq!(action, SyncAction::Finish(LoopCtrl::Continue));
    assert!(matches!(
        report.timeline[..],
        [Delivery::Queued, Delivery::Ignored, Delivery::Queued]
    ));
    assert_eq!(rooms_rx.try_recv().unwrap().get_event_id(), "$a");
    assert_eq!(rooms_rx.try_recv().unwrap().get_event_id(), "$b");
    assert_eq!(to_device_rx.try_recv().unwrap().get_event_id(), "t1");
}

#[test]
fn each_response_has_a_place_of_its_own() {
    let mut client = Client::new(ClientState::default());
    let (mut writer, mut reader) = client.start_sync();
    let mut rx = reader.get_to_device_rx().unwrap();
    let many: Vec<String> = (0..20).map(|i| done_json(&format!("t{}", i))).collect();
    let update = SyncUpdate { to_device: many, joined: vec![] };
    let (report, _) = writer.on_response(client.state_mut(), &update);
    let queued = report.to_device.iter().filter(|d| matches!(d, Delivery::Queued)).count();
    assert_eq!(queued, 11);
    assert!(matches!(report.to_device[11], Delivery::Dropped { refusal: Refusal::Full, .. }));

    // Nobody has read, and yet the next response can leave one more.
    let update = SyncUpdate { to_device: vec![done_json("x"), done_json("y")], joined: vec![] };
    let (report, _) = writer.on_response(client.state_mut(), &update);
    assert!(matches!(report.to_device[0], Delivery::Queued));
    assert!(matches!(report.to_device[1], Delivery::Dropped { refusal: Refusal::Full, .. }));
    for i in 0..11 {
        assert_eq!(rx.try_recv().unwrap().get_event_id(), format!("t{}", i));
    }
    assert_eq!(rx.try_recv().unwrap().get_event_id(), "x");
}

#[test]
fn the_buffer_is_filled_before_steps_are_dropped() {
    let mut client = Client::new(ClientState::default());
    let (mut writer, mut reader) = client.start_sync();
    let mut rx = reader.get_to_device_rx().unwrap();
    for (first, last) in [(0, 6), (6, 11)] {
        let to_device = (first..last).map(|i| done_json(&format!("t{}", i))).collect();
        let update = SyncUpdate { to_device, joined: vec![] };
        let (report, _) = writer.on_response(client.state_mut(), &update);
        assert_eq!(report.to_device.len(), last - first);
        assert!(report.to_device.iter().all(|d| matches!(d, Delivery::Queued)));
    }
    for i in 0..11 {
        assert_eq!(rx.try_recv().unwrap().get_event_id(), format!("t{}", i));
    }
    assert!(rx.try_recv().is_err());
}

#[test]
fn later_steps_stand_behind_earlier_ones() {
    let mut client = Client::new(ClientState::default());
    let (mut writer, mut reader) = client.start_sync();
    let mut rx = reader.get_to_device_rx().unwrap();
    let steps = |first: usize, last: usize| SyncUpdate {
        to_device: (first..last).map(|i| done_json(&format!("t{}", i))).collect(),
        joined: vec![],
    };
    // One step too many: it is the new one that is lost.
    writer.on_response(client.state_mut(), &steps(0, 12));
    for i in 0..5 {
        assert_eq!(rx.try_recv().unwrap().get_event_id(), format!("t{}", i));
    }
    // Room was made, though more than the buffer were taken in all.
    let (report, _) = writer.on_response(client.state_mut(), &steps(20, 25));
    assert!(report.to_device.iter().all(|d| matches!(d, Delivery::Queued)));
    for i in (5..11).chain(20..25) {
        assert_eq!(rx.try_recv().unwrap().get_event_id(), format!("t{}", i));
    }
    assert!(rx.try_recv().is_err());
}

#[test]
fn a_step_is_queued_while_the_buffer_has_room() {
    let (mut tx, mut rx) = mpsc::channel::<CrossSigningEvent>(10);
    let mut waiting = 0;
    for round in 0..200 {
        // Between the offers now none, now one, now two steps are read.
        for _ in 0..(round * 7 / 3) % 3 {
            if rx.try_recv().is_ok() {
                waiting -= 1;
            }
        }
        match handle_to_device_event(&to_device(&format!("t{}", round)), &mut tx) {
            Delivery::Queued => {
                assert!(waiting <= 10);
                waiting += 1;
            }
            Delivery::Dropped { refusal, .. } => {
                assert_eq!(refusal, Refusal::Full);
                assert_eq!(waiting, 11);
            }
            Delivery::Ignored => unreachable!(),
        }
    }
    // Fill it, make room for one, and fill it again.
    while matches!(handle_to_device_event(&to_device("more"), &mut tx), Delivery::Queued) {}
    for _ in 0..5 {
        rx.try_recv().unwrap();
        assert!(matches!(handle_to_device_event(&to_device("one"), &mut tx), Delivery::Queued));
        assert!(matches!(
            handle_to_device_event(&to_device("two"), &mut tx),
            Delivery::Dropped { refusal: Refusal::Full, .. }
        ));
    }
}

#[test]
fn the_queues_do_not_share_their_room() {
    let mut client = Client::new(ClientState::default());
    let (mut writer, mut reader) = client.start_sync();
    let _to_device_rx = reader.get_to_device_rx().unwrap();
    let _rooms_rx = reader.get_sync_msg_like_rx().unwrap();
    writer.on_response(client.state_mut(), &empty());
    let to_device = (0..20).map(|i| done_json(&format!("t{}", i))).collect();
    let timeline = (0..11).map(|i| room_done_json(&format!("$e{}", i))).collect();
    let update = SyncUpdate { to_device, joined: vec![JoinedRoom { timeline }] };
    let (report, _) = writer.on_response(client.state_mut(), &update);
    assert!(matches!(report.to_device[11], Delivery::Dropped { refusal: Refusal::Full, .. }));
    assert!(report.timeline.iter().all(|d| matches!(d, Delivery::Queued)));
}

#[test]
fn a_response_leaves_the_invitations_as_they_are() {
    let mut state = ClientState::default();
    state.record_cached_invitation("!r:example.org".to_owned(), "Room".to_owned());
    let mut client = Client::new(state);
    let (mut writer, _reader) = client.start_sync();
    let (_, action) = writer.on_response(client.state_mut(), &empty());
    assert_eq!(action, SyncAction::NameInvites);
    client.state_mut().finish_response();
    let (_, action) = writer.on_response(client.state_mut(), &empty());
    assert_eq!(action, SyncAction::Finish(LoopCtrl::Continue));
    assert_eq!(client.pending_invitations().len(), 1);
    assert_eq!(client.pending_invitations()[0].get_room_id(), "!r:example.org");
}

#[test]
fn the_sync_ends_when_asked() {
    let mut client = Client::new(ClientState::default());
    let (mut writer, _reader) = SyncLoop::open();
    writer.on_response(client.state_mut(), &empty());
    client.state_mut().should_stop_syncing = true;
    assert_eq!(client.state_mut().finish_response(), LoopCtrl::Break);
    assert!(!client.is_syncing());
    client.state_mut().should_stop_syncing = false;
    let (_, action) = writer.on_response(client.state_mut(), &empty());
    assert_eq!(action, SyncAction::Finish(LoopCtrl::Continue));
    assert!(client.is_syncing());
    client.state_mut().should_stop_syncing = true;
    let (_, action) = writer.on_response(client.state_mut(), &empty());
    assert_eq!(action, SyncAction::Finish(LoopCtrl::Break));
    assert!(!client.is_syncing());
    assert!(client.has_first_synced());
}

#[test]
fn the_signal_tells_of_the_first_sync() {
    let client = Client::new(ClientState::default());
    let (mut writer, mut reader) = client.start_sync();
    let mut stream = reader.get_first_synced_rx().unwrap().to_stream();
    assert_eq!(futures::executor::block_on(stream.next()), Some(false));
    let mut state = ClientState::default();
    writer.on_response(&mut state, &empty());
    assert_eq!(futures::executor::block_on(stream.next()), Some(true));
    drop(writer);
    assert_eq!(futures::executor::block_on(stream.next()), None);
}

#[test]
fn each_end_is_taken_once() {
    let (_writer, mut reader) = SyncLoop::open();
    assert!(reader.get_to_device_rx().is_some());
    assert!(reader.get_to_device_rx().is_none());
    assert!(reader.get_first_synced_rx().is_some());
    assert!(reader.get_first_synced_rx().is_none());
    assert!(reader.get_sync_msg_like_rx().is_some());
    assert!(reader.get_sync_msg_like_rx().is_none());

    let (_tx1, rx1) = mpsc::channel::<CrossSigningEvent>(1);
    let (mut tx2, rx2) = mpsc::channel::<CrossSigningEvent>(1);
    let (_tx3, rx3) = futures_signals::signal::channel(false);
    let mut reader = SyncState::new(rx1, rx2, rx3);
    handle_to_device_event(&to_device("second"), &mut tx2);
    let mut second = reader.get_sync_msg_like_rx().unwrap();
    assert_eq!(second.try_recv().unwrap().get_event_id(), "second");
    assert!(reader.get_to_device_rx().unwrap().try_recv().is_err());
}
