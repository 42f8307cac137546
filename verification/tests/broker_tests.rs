use send_broker::{transport_outcome, BrokerError, Finder, Registrar, SendBroker};

#[test]
fn register_then_find_returns_endpoint() {
    let mut broker: SendBroker<u64> = SendBroker::new();
    assert_eq!(broker.reg_sender(7, 10), Ok(None));
    assert_eq!(broker.find_sender(7), Ok(&10));
}

#[test]
fn find_before_registration_fails() {
    let broker: SendBroker<u64> = SendBroker::new();
    assert_eq!(broker.find_sender(3), Err(BrokerError::NotFound));
}

#[test]
fn find_before_registration_of_that_id_fails() {
    let mut broker: SendBroker<u64> = SendBroker::new();
    assert_eq!(broker.reg_sender(1, 10), Ok(None));
    assert_eq!(broker.reg_sender(2, 20), Ok(None));
    assert_eq!(broker.unreg_sender(2), Ok(Some(20)));
    assert_eq!(broker.find_sender(3), Err(BrokerError::NotFound));
}

#[test]
fn register_overwrite_reports_prior_and_last_write_wins() {
    let mut broker: SendBroker<u64> = SendBroker::new();
    assert_eq!(broker.reg_sender(1, 11), Ok(None));
    assert_eq!(broker.reg_sender(1, 22), Ok(Some(11)));
    assert_eq!(broker.find_sender(1), Ok(&22));
}

#[test]
fn unregister_absent_fails_and_present_removes() {
    let mut broker: SendBroker<u64> = SendBroker::new();
    assert_eq!(broker.unreg_sender(5), Err(BrokerError::NotFound));
    assert_eq!(broker.reg_sender(5, 50), Ok(None));
    assert_eq!(broker.unreg_sender(5), Ok(Some(50)));
    assert_eq!(broker.find_sender(5), Err(BrokerError::NotFound));
    assert_eq!(broker.unreg_sender(5), Err(BrokerError::NotFound));
}

#[test]
fn lookup_leaves_registration_in_place() {
    let mut broker: SendBroker<u64> = SendBroker::new();
    assert_eq!(broker.reg_sender(9, 90), Ok(None));
    assert_eq!(broker.find_sender(9), Ok(&90));
    assert_eq!(broker.find_sender(9), Ok(&90));
    assert_eq!(broker.unreg_sender(9), Ok(Some(90)));
}

#[test]
fn scenario_register_find_overwrite_unregister() {
    let mut broker: SendBroker<u64> = SendBroker::new();
    let id_a: u64 = 1;
    let e1: u64 = 100;
    let e2: u64 = 200;
    assert_eq!(broker.reg_sender(id_a, e1), Ok(None));
    assert_eq!(broker.find_sender(id_a), Ok(&e1));
    assert_eq!(broker.reg_sender(id_a, e2), Ok(Some(e1)));
    assert_eq!(broker.unreg_sender(id_a), Ok(Some(e2)));
    assert_eq!(broker.find_sender(id_a), Err(BrokerError::NotFound));
}

#[test]
fn table_holds_exactly_the_registered_ids() {
    let mut broker: SendBroker<u64> = SendBroker::new();
    for id in 0u64..8 {
        assert_eq!(broker.reg_sender(id, id * 10), Ok(None));
    }
    for id in 0u64..4 {
        assert_eq!(broker.unreg_sender(id), Ok(Some(id * 10)));
    }
    for id in 0u64..4 {
        assert_eq!(broker.find_sender(id), Err(BrokerError::NotFound));
    }
    for id in 4u64..8 {
        assert_eq!(broker.find_sender(id), Ok(&(id * 10)));
    }
}

#[test]
fn error_kinds_are_distinct_values() {
    assert_eq!(BrokerError::NotFound, BrokerError::NotFound);
    assert_eq!(BrokerError::ConnectionBroken, BrokerError::ConnectionBroken);
    assert_ne!(BrokerError::NotFound, BrokerError::ConnectionBroken);
}

#[test]
fn missing_reply_means_connection_broken() {
    assert_eq!(transport_outcome::<u64>(None), Err(BrokerError::ConnectionBroken));
    assert_eq!(transport_outcome(Some(Ok(Some(5u64)))), Ok(Some(5)));
    assert_eq!(
        transport_outcome::<u64>(Some(Err(BrokerError::NotFound))),
        Err(BrokerError::NotFound)
    );
}

#[test]
fn found_endpoint_delivers_messages() {
    let (tx, rx) = std::sync::mpsc::channel::<i32>();
    let mut broker: SendBroker<std::sync::mpsc::Sender<i32>> = SendBroker::new();
    assert!(broker.reg_sender(42, tx).is_ok());
    let found = broker.find_sender(42).expect("endpoint was registered").clone();
    found.send(99).expect("receiver is alive");
    assert_eq!(rx.recv(), Ok(99));
    // The registration is unaffected by the lookup: a second resolve still works.
    let again = broker.find_sender(42).expect("endpoint is still registered").clone();
    again.send(7).expect("receiver is alive");
    assert_eq!(rx.recv(), Ok(7));
}

#[test]
fn displaced_endpoint_is_handed_back_intact() {
    let (tx1, rx1) = std::sync::mpsc::channel::<i32>();
    let (tx2, rx2) = std::sync::mpsc::channel::<i32>();
    let mut broker: SendBroker<std::sync::mpsc::Sender<i32>> = SendBroker::new();
    assert!(broker.reg_sender(1, tx1).is_ok());
    let displaced = broker
        .reg_sender(1, tx2)
        .expect("registration never fails")
        .expect("a prior endpoint was displaced");
    displaced.send(1).expect("first receiver is alive");
    assert_eq!(rx1.recv(), Ok(1));
    let current = broker.find_sender(1).expect("second endpoint is registered").clone();
    current.send(2).expect("second receiver is alive");
    assert_eq!(rx2.recv(), Ok(2));
}
