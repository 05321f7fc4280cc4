use token_relay::{
    AppError, BroadcastMessage, Hub, PumpData, RecvOutcome, Timestamp, TokenCreatedEvent,
    TokenInfo, HUB_CAPACITY,
};

fn event(sig: &str) -> BroadcastMessage {
    BroadcastMessage::TokenCreated(TokenCreatedEvent {
        event_type: "token_created".to_string(),
        timestamp: Timestamp { secs: 1, nanos: 0 },
        transaction_signature: sig.to_string(),
        token: TokenInfo {
            mint_address: String::new(),
            name: String::new(),
            symbol: String::new(),
            creator: String::new(),
            supply: 0,
            decimals: 0,
        },
        pump_data: PumpData {
            bonding_curve: String::new(),
            virtual_sol_reserves: 0,
            virtual_token_reserves: 0,
        },
    })
}

#[test]
fn publish_without_subscribers_fails() {
    let mut hub = Hub::new();
    assert_eq!(hub.publish(event("a")), Err(AppError::Broadcast));
    let mut sub = hub.subscribe();
    assert_eq!(hub.recv(&mut sub), RecvOutcome::Empty);
}

#[test]
fn every_subscriber_reads_all_in_order() {
    let mut hub = Hub::new();
    let mut subs = vec![hub.subscribe(), hub.subscribe(), hub.subscribe()];
    for i in 0..10 {
        assert_eq!(hub.publish(event(&format!("e{}", i))), Ok(()));
    }
    for sub in subs.iter_mut() {
        for i in 0..10 {
            assert_eq!(hub.recv(sub), RecvOutcome::Event(event(&format!("e{}", i))));
        }
        assert_eq!(hub.recv(sub), RecvOutcome::Empty);
    }
}

#[test]
fn late_subscriber_sees_no_history() {
    let mut hub = Hub::new();
    let _early = hub.subscribe();
    hub.publish(event("old")).unwrap();
    let mut late = hub.subscribe();
    assert_eq!(late.position(), 1);
    assert_eq!(hub.recv(&mut late), RecvOutcome::Empty);
    hub.publish(event("new")).unwrap();
    assert_eq!(hub.recv(&mut late), RecvOutcome::Event(event("new")));
}

#[test]
fn overflow_reports_lag_then_resumes() {
    let mut hub = Hub::new();
    let mut sub = hub.subscribe();
    for i in 0..(HUB_CAPACITY + 3) {
        hub.publish(event(&format!("e{}", i))).unwrap();
    }
    assert_eq!(hub.recv(&mut sub), RecvOutcome::Lagged(3));
    assert_eq!(hub.recv(&mut sub), RecvOutcome::Event(event("e3")));
    assert_eq!(hub.next_seq(), (HUB_CAPACITY + 3) as u64);
}

#[test]
fn exactly_capacity_keeps_everything() {
    let mut hub = Hub::new();
    let mut sub = hub.subscribe();
    for i in 0..HUB_CAPACITY {
        hub.publish(event(&format!("e{}", i))).unwrap();
    }
    assert_eq!(hub.recv(&mut sub), RecvOutcome::Event(event("e0")));
}

#[test]
fn two_open_sessions_get_same_event_third_waits() {
    let mut hub = Hub::new();
    let mut a = hub.subscribe();
    let mut b = hub.subscribe();
    hub.publish(event("one")).unwrap();
    let mut c = hub.subscribe();
    let ra = hub.recv(&mut a);
    let rb = hub.recv(&mut b);
    assert_eq!(ra, RecvOutcome::Event(event("one")));
    assert_eq!(ra, rb);
    assert_eq!(hub.recv(&mut c), RecvOutcome::Empty);
    hub.publish(event("two")).unwrap();
    assert_eq!(hub.recv(&mut c), RecvOutcome::Event(event("two")));
}

#[test]
fn unsubscribe_closes_the_hub() {
    let mut hub = Hub::new();
    let sub = hub.subscribe();
    assert_eq!(hub.receiver_count(), 1);
    hub.unsubscribe(sub);
    assert_eq!(hub.receiver_count(), 0);
    assert_eq!(hub.publish(event("x")), Err(AppError::Broadcast));
}

#[test]
fn duplicate_is_equal() {
    let e = event("dup");
    assert_eq!(e.duplicate(), e);
}
