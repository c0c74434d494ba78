use ibkrust::catalog::{InboundMessages, OutboundMessages};
use ibkrust::client::{ConnectionState, EClient, SessionError};
use ibkrust::codec::{split_tokens, Event};
use ibkrust::dispatch::{DispatchError, Dispatcher, Route};
use ibkrust::field::IBField;
use ibkrust::frame::read_frame;

fn payload(tokens: &[&str]) -> Vec<u8> {
    let mut p = Vec::new();
    for t in tokens {
        p.extend_from_slice(t.as_bytes());
        p.push(0);
    }
    p
}

fn ready_client() -> EClient {
    let mut c = EClient::new(String::from("localhost"), 4001, 100);
    c.connect().unwrap();
    c.on_tcp_up().unwrap();
    c.on_handshake_reply(&payload(&["157", "123456789"])).unwrap();
    c.start_api().unwrap();
    c
}

#[test]
fn test_connect_to_tws() {
    let mut test_client = EClient::new(String::from("localhost"), 4001, 100);
    assert_eq!(test_client.connect().is_ok(), true);
    test_client.on_tcp_up().unwrap();
    test_client.on_handshake_reply(&payload(&["157", "20240101 10:00:00 EST"])).unwrap();
    assert_eq!(test_client.start_api().is_ok(), true);
}

#[test]
fn handshake_bytes_and_version_negotiation() {
    let mut c = EClient::new(String::from("localhost"), 4001, 100);
    assert_eq!(c.connection_state(), ConnectionState::Disconnected);
    c.connect().unwrap();
    assert_eq!(c.host(), String::from("localhost"));
    assert_eq!(c.port(), 4001);
    assert_eq!(c.connection_state(), ConnectionState::Connecting);
    let hs = c.on_tcp_up().unwrap();
    assert_eq!(
        hs,
        vec![0x41, 0x50, 0x49, 0x00, 0x00, 0x00, 0x00, 0x09, 0x76, 0x31, 0x30, 0x30, 0x2E, 0x2E, 0x31, 0x35, 0x37]
    );
    assert_eq!(c.connection_state(), ConnectionState::HandshakeSent);
    let reply = vec![
        0x00, 0x00, 0x00, 0x0E, 0x31, 0x35, 0x37, 0x00, 0x31, 0x32, 0x33, 0x34, 0x35, 0x36, 0x37, 0x38,
        0x39, 0x00,
    ];
    let p = read_frame(&reply, 1024).unwrap();
    c.on_handshake_reply(&p).unwrap();
    assert_eq!(c.connection_state(), ConnectionState::VersionNegotiated);
    assert_eq!(c.server_version(), Some(157));
    assert_eq!(c.connection_time(), Some(String::from("123456789")));
}

#[test]
fn handshake_carries_connection_options() {
    let mut c = EClient::new(String::from("localhost"), 4001, 100);
    c.set_connection_options(String::from("+PACEAPI"));
    c.connect().unwrap();
    let hs = c.on_tcp_up().unwrap();
    let mut expect = b"API\0".to_vec();
    expect.extend_from_slice(&[0, 0, 0, 18]);
    expect.extend_from_slice(b"v100..157 +PACEAPI");
    assert_eq!(hs, expect);
    c.on_handshake_reply(&payload(&["157", "t"])).unwrap();
    let f = c.start_api().unwrap();
    let p = read_frame(&f, 1024).unwrap();
    assert_eq!(p, payload(&["71", "2", "100", "+PACEAPI"]));
}

#[test]
fn start_api_frame() {
    let mut c = EClient::new(String::from("localhost"), 4001, 100);
    c.connect().unwrap();
    c.on_tcp_up().unwrap();
    c.on_handshake_reply(&payload(&["157", "123456789"])).unwrap();
    let f = c.start_api().unwrap();
    assert_eq!(c.connection_state(), ConnectionState::Ready);
    let p = read_frame(&f, 1024).unwrap();
    let tokens = split_tokens(&p).unwrap();
    assert_eq!(tokens, vec![b"71".to_vec(), b"2".to_vec(), b"100".to_vec(), Vec::new()]);
}

#[test]
fn version_outside_range_fails_session() {
    let mut c = EClient::new(String::from("localhost"), 4001, 100);
    c.connect().unwrap();
    c.on_tcp_up().unwrap();
    assert_eq!(c.on_handshake_reply(&payload(&["99", "t"])), Err(SessionError::VersionMismatch));
    assert_eq!(c.connection_state(), ConnectionState::Failed);
    assert_eq!(c.server_version(), None);
    let mut c = EClient::new(String::from("localhost"), 4001, 100);
    c.connect().unwrap();
    c.on_tcp_up().unwrap();
    assert_eq!(c.on_handshake_reply(&payload(&["158", "t"])), Err(SessionError::VersionMismatch));
    let mut c = EClient::new(String::from("localhost"), 4001, 100);
    c.connect().unwrap();
    c.on_tcp_up().unwrap();
    assert_eq!(c.on_handshake_reply(&payload(&["157"])), Err(SessionError::Protocol));
    assert_eq!(c.connection_state(), ConnectionState::Failed);
    let mut c = EClient::new(String::from("localhost"), 4001, 100);
    c.connect().unwrap();
    c.on_tcp_up().unwrap();
    assert_eq!(c.on_handshake_reply(&payload(&["157", "t", "extra"])), Err(SessionError::Protocol));
    assert_eq!(c.connection_state(), ConnectionState::Failed);
}

#[test]
fn connect_twice_is_already_active() {
    let mut c = EClient::new(String::from("localhost"), 4001, 100);
    c.connect().unwrap();
    assert_eq!(c.connect(), Err(SessionError::AlreadyActive));
    let mut r = ready_client();
    assert_eq!(r.connect(), Err(SessionError::AlreadyActive));
    r.fail();
    assert_eq!(r.connection_state(), ConnectionState::Failed);
    assert_eq!(r.connect(), Ok(()));
    assert_eq!(r.connection_state(), ConnectionState::Connecting);
    assert_eq!(r.server_version(), Some(157));
    r.fail();
    assert_eq!(r.server_version(), Some(157));
}

#[test]
fn submit_before_ready_is_refused() {
    let mut c = EClient::new(String::from("localhost"), 4001, 100);
    assert_eq!(c.submit(OutboundMessages::ReqCurrentTime, &[]).err(), Some(SessionError::SessionClosed));
    c.connect().unwrap();
    assert_eq!(c.submit(OutboundMessages::ReqCurrentTime, &[]).err(), Some(SessionError::NotReady));
    assert_eq!(c.start_api().err(), Some(SessionError::NotReady));
}

#[test]
fn invalid_field_is_malformed() {
    let mut c = ready_client();
    let bad = [IBField::IBString(String::from("a\0b"))];
    assert_eq!(c.submit(OutboundMessages::ReqContractData, &bad).err(), Some(SessionError::Malformed));
    assert!(!c.is_live(1));
}

#[test]
fn tick_routed_to_its_subscription_only() {
    let mut c = ready_client();
    for expected in 1..=8i64 {
        let (id, _) = c.submit(OutboundMessages::ReqMarketData, &[]).unwrap();
        assert_eq!(id, Some(expected));
    }
    assert!(c.is_live(7) && c.is_live(8));
    let (ev, route) = c.on_frame(&payload(&["1", "8", "4", "101.5", "3", "1"])).unwrap();
    assert_eq!(route, Route::Deliver { id: 8, last: false });
    assert!(matches!(ev, Event::Message { kind: InboundMessages::TickPrice, req_id: Some(8), .. }));
    assert!(c.is_live(7) && c.is_live(8));
}

#[test]
fn end_sentinel_frees_the_subscription() {
    let mut c = ready_client();
    for _ in 0..11 {
        c.submit(OutboundMessages::ReqMarketData, &[]).unwrap();
    }
    let (id, frame) = c
        .submit(OutboundMessages::ReqContractData, &[IBField::IBString(String::from("AAPL"))])
        .unwrap();
    assert_eq!(id, Some(12));
    assert_eq!(read_frame(&frame, 1024).unwrap(), payload(&["9", "8", "12", "AAPL"]));
    for _ in 0..3 {
        let (_, route) = c
            .on_frame(&payload(&["10", "12", "AAPL", "STK", "SMART", "USD", "265598", "0.01", "NMS"]))
            .unwrap();
        assert_eq!(route, Route::Deliver { id: 12, last: false });
        assert!(c.is_live(12));
    }
    let (_, route) = c.on_frame(&payload(&["52", "12"])).unwrap();
    assert_eq!(route, Route::Deliver { id: 12, last: true });
    assert!(!c.is_live(12));
    let (_, route) = c.on_frame(&payload(&["10", "12", "X", "STK", "SMART", "USD", "1", "0.01", "N"])).unwrap();
    assert_eq!(route, Route::Unsolicited);
    let (id, _) = c.submit(OutboundMessages::ReqContractData, &[]).unwrap();
    assert_eq!(id, Some(13));
}

#[test]
fn session_notice_goes_to_unsolicited_sink() {
    let mut c = ready_client();
    c.submit(OutboundMessages::ReqMarketData, &[]).unwrap();
    let (ev, route) = c
        .on_frame(&payload(&["4", "-1", "2104", "Market data farm connection is OK"]))
        .unwrap();
    assert_eq!(route, Route::Unsolicited);
    match ev {
        Event::Message { kind, req_id, fields } => {
            assert_eq!(kind, InboundMessages::ErrMsg);
            assert_eq!(req_id, Some(-1));
            assert_eq!(fields[1], IBField::IBInteger(2104));
            assert_eq!(fields[2], IBField::IBString(String::from("Market data farm connection is OK")));
        }
        other => panic!("unexpected {:?}", other),
    }
    assert!(c.is_live(1));
}

#[test]
fn error_naming_a_request_ends_it() {
    let mut c = ready_client();
    c.submit(OutboundMessages::ReqMarketData, &[]).unwrap();
    let (_, route) = c.on_frame(&payload(&["4", "1", "200", "No security definition"])).unwrap();
    assert_eq!(route, Route::Deliver { id: 1, last: true });
    assert!(!c.is_live(1));
}

#[test]
fn malformed_frame_keeps_session_ready() {
    let mut c = ready_client();
    c.submit(OutboundMessages::ReqMarketData, &[]).unwrap();
    let (ev, route) = c.on_frame(&[0x31, 0x00, 0x41, 0x00]).unwrap();
    assert!(matches!(ev, Event::Malformed { ref raw } if raw == &vec![0x31, 0x00, 0x41, 0x00]));
    assert_eq!(route, Route::Unsolicited);
    assert_eq!(c.connection_state(), ConnectionState::Ready);
    let (_, route) = c.on_frame(&payload(&["2", "1", "0", "100"])).unwrap();
    assert_eq!(route, Route::Deliver { id: 1, last: false });
}

#[test]
fn single_reply_slot_and_managed_accounts() {
    let mut c = ready_client();
    let (id, f) = c.submit(OutboundMessages::ReqCurrentTime, &[]).unwrap();
    assert_eq!(id, None);
    assert_eq!(read_frame(&f, 1024).unwrap(), payload(&["49", "1"]));
    let (_, route) = c.on_frame(&payload(&["49", "1700000000"])).unwrap();
    assert_eq!(route, Route::DeliverSlot { kind: InboundMessages::CurrentTime });
    let (_, route) = c.on_frame(&payload(&["49", "1700000001"])).unwrap();
    assert_eq!(route, Route::Unsolicited);
    let (_, route) = c.on_frame(&payload(&["15", "DU123,DU456"])).unwrap();
    assert_eq!(route, Route::Unsolicited);
    assert_eq!(c.managed_accounts(), Some(String::from("DU123,DU456")));
}

#[test]
fn cancel_waits_for_end_sentinel() {
    let mut c = ready_client();
    c.submit(OutboundMessages::ReqAccountSummary, &[]).unwrap();
    let f = c.cancel(1).unwrap();
    assert_eq!(read_frame(&f, 1024).unwrap(), payload(&["63", "1", "1"]));
    assert!(c.is_live(1));
    let (_, route) = c.on_frame(&payload(&["63", "1", "DU1", "NetLiquidation", "100", "USD"])).unwrap();
    assert_eq!(route, Route::Deliver { id: 1, last: false });
    let (_, route) = c.on_frame(&payload(&["64", "1"])).unwrap();
    assert_eq!(route, Route::Deliver { id: 1, last: true });
    assert!(!c.is_live(1));
    c.submit(OutboundMessages::ReqMarketData, &[]).unwrap();
    let f = c.cancel(2).unwrap();
    assert_eq!(read_frame(&f, 1024).unwrap(), payload(&["2", "2", "2"]));
    assert!(!c.is_live(2));
    assert_eq!(c.cancel(2).err(), Some(SessionError::Dispatch(DispatchError::UnknownId)));
}

#[test]
fn close_fails_every_live_subscription() {
    let mut c = ready_client();
    c.submit(OutboundMessages::ReqMarketData, &[]).unwrap();
    c.submit(OutboundMessages::ReqContractData, &[]).unwrap();
    let ids = c.close().unwrap();
    assert_eq!(ids, vec![1, 2]);
    assert_eq!(c.connection_state(), ConnectionState::Draining);
    assert!(!c.is_live(1) && !c.is_live(2));
    assert_eq!(c.submit(OutboundMessages::ReqMarketData, &[]).err(), Some(SessionError::SessionClosed));
    assert!(c.on_drained());
    assert_eq!(c.connection_state(), ConnectionState::Closed);
    assert_eq!(c.close().err(), Some(SessionError::SessionClosed));
}

#[test]
fn redirect_reconnects_with_same_client_id() {
    let mut c = ready_client();
    c.submit(OutboundMessages::ReqMarketData, &[]).unwrap();
    let ids = c.redirect(String::from("gw2"), 4002).unwrap();
    assert_eq!(ids, vec![1]);
    assert_eq!(c.connection_state(), ConnectionState::Connecting);
    assert_eq!(c.client_id(), 100);
    assert_eq!(c.host(), String::from("gw2"));
    assert_eq!(c.port(), 4002);
    assert_eq!(c.server_version(), None);
    let mut d = EClient::new(String::from("h"), 1, 1);
    assert_eq!(d.redirect(String::from("x"), 2).err(), Some(SessionError::Protocol));
}

#[test]
fn lifecycle_states_move_forward() {
    let mut c = EClient::new(String::from("localhost"), 4001, 100);
    let mut seen = vec![c.connection_state()];
    c.connect().unwrap();
    seen.push(c.connection_state());
    c.on_tcp_up().unwrap();
    seen.push(c.connection_state());
    c.on_handshake_reply(&payload(&["157", "t"])).unwrap();
    seen.push(c.connection_state());
    c.start_api().unwrap();
    seen.push(c.connection_state());
    c.close().unwrap();
    seen.push(c.connection_state());
    c.on_drained();
    seen.push(c.connection_state());
    assert_eq!(
        seen,
        vec![
            ConnectionState::Disconnected,
            ConnectionState::Connecting,
            ConnectionState::HandshakeSent,
            ConnectionState::VersionNegotiated,
            ConnectionState::Ready,
            ConnectionState::Draining,
            ConnectionState::Closed,
        ]
    );
}

#[test]
fn dispatcher_ids_are_unique_and_monotonic() {
    let mut d = Dispatcher::new();
    assert_eq!(d.register(OutboundMessages::ReqMarketData), Ok(1));
    assert_eq!(d.register(OutboundMessages::ReqContractData), Ok(2));
    assert_eq!(d.register(OutboundMessages::ReqCurrentTime), Err(DispatchError::NotCorrelated));
    assert_eq!(d.route(InboundMessages::ContractDataEnd, Some(2)), Route::Deliver { id: 2, last: true });
    assert_eq!(d.register(OutboundMessages::ReqContractData), Ok(3));
    assert_eq!(d.live_count(), 2);
    assert_eq!(d.next_id(), 4);
    assert_eq!(d.register_slot(OutboundMessages::ReqManagedAccounts), Ok(true));
    assert_eq!(d.register_slot(OutboundMessages::ReqManagedAccounts), Ok(false));
    assert_eq!(d.register_slot(OutboundMessages::ReqMarketData), Err(DispatchError::NotCorrelated));
    assert_eq!(d.cancel(3), Err(DispatchError::NotCancellable));
    assert_eq!(d.terminate_all(), vec![1, 3]);
    assert_eq!(d.live_count(), 0);
}

#[test]
fn delivery_order_is_wire_order_with_end_last() {
    let mut d = Dispatcher::new();
    d.register(OutboundMessages::ReqContractData).unwrap();
    let wire = [
        (InboundMessages::ContractData, Some(1)),
        (InboundMessages::ContractData, Some(1)),
        (InboundMessages::ContractDataEnd, Some(1)),
        (InboundMessages::ContractData, Some(1)),
    ];
    let mut delivered = Vec::new();
    for (k, id) in wire {
        if let Route::Deliver { id: 1, .. } = d.route(k, id) {
            delivered.push(k);
        }
    }
    assert_eq!(
        delivered,
        vec![InboundMessages::ContractData, InboundMessages::ContractData, InboundMessages::ContractDataEnd]
    );
}

#[test]
fn handshake_timeout_fails_session() {
    let mut c = EClient::new(String::from("localhost"), 4001, 100);
    assert_eq!(c.on_handshake_timeout(), None);
    c.connect().unwrap();
    c.on_tcp_up().unwrap();
    assert_eq!(c.on_handshake_timeout(), Some(vec![]));
    assert_eq!(c.connection_state(), ConnectionState::Failed);
    let mut r = ready_client();
    assert_eq!(r.on_handshake_timeout(), None);
    assert_eq!(r.connection_state(), ConnectionState::Ready);
}
