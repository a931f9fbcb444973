use kucoin_api::negotiate::NegotiateError;
use kucoin_api::router::{Decoded, MsgKind};
use kucoin_api::session::{frame_of, Action, InboundFrame, Phase, RequestError, Session, SessionError};
use kucoin_api::websocket::{InstanceServer, InstanceServers, WSTopic};

fn server(endpoint: &str) -> InstanceServer {
    InstanceServer {
        ping_interval: 1000,
        endpoint: endpoint.to_string(),
        protocol: String::from("websocket"),
        encrypt: true,
        ping_timeout: 500,
    }
}

fn answer(endpoints: &[&str]) -> InstanceServers {
    InstanceServers {
        instance_servers: endpoints.iter().map(|e| server(e)).collect(),
        token: String::from("T"),
    }
}

fn active_at(now: u64) -> Session {
    let mut s = Session::new();
    assert!(s.start(false));
    s.on_negotiated(answer(&["wss://x"])).unwrap();
    s.on_open(now);
    let r = s.on_frame(InboundFrame::Welcome { id: String::from("0") }, now);
    assert_eq!(r, Action::Nothing);
    s
}

#[test]
fn negotiate_then_welcome_reaches_active() {
    let mut s = Session::new();
    assert_eq!(s.phase, Phase::Idle);
    assert!(s.start(false));
    assert_eq!(s.phase, Phase::Negotiating);
    let url = s.on_negotiated(answer(&["wss://x"])).unwrap();
    assert_eq!(url, "wss://x?token=T&connectId=1");
    assert_eq!(s.phase, Phase::Connecting);
    s.on_open(0);
    assert_eq!(s.phase, Phase::AwaitingWelcome);
    s.on_frame(InboundFrame::Welcome { id: String::from("0") }, 0);
    assert_eq!(s.phase, Phase::Active);
    assert_eq!(s.wake_at(), Some(1000));
}

#[test]
fn empty_negotiation_fails() {
    let mut s = Session::new();
    s.start(true);
    assert_eq!(s.on_negotiated(answer(&[])), None);
    assert_eq!(s.phase, Phase::Failed);
    assert_eq!(s.failure, Some(SessionError::NoEndpoint));
    let mut s = Session::new();
    s.start(true);
    s.on_negotiation_failed(NegotiateError::MissingCredentials);
    assert_eq!(s.failure, Some(SessionError::CouldNotAuthenticate));
}

#[test]
fn connect_falls_through_endpoints() {
    let mut s = Session::new();
    s.start(false);
    s.on_negotiated(answer(&["wss://a", "wss://b"])).unwrap();
    assert_eq!(s.on_connect_failed(), Some(String::from("wss://b?token=T&connectId=1")));
    assert_eq!(s.on_connect_failed(), None);
    assert_eq!(s.failure, Some(SessionError::Unreachable));
}

#[test]
fn welcome_timeout_and_unexpected_frame_fail() {
    let mut s = Session::new();
    s.start(false);
    s.on_negotiated(answer(&["wss://x"])).unwrap();
    s.on_open(100);
    assert_eq!(s.tick(100 + 9999), Action::Nothing);
    assert_eq!(s.tick(100 + 10000), Action::Fail(SessionError::WelcomeTimeout));
    let mut s = Session::new();
    s.start(false);
    s.on_negotiated(answer(&["wss://x"])).unwrap();
    s.on_open(0);
    let r = s.on_frame(InboundFrame::Pong { id: String::from("1") }, 1);
    assert_eq!(r, Action::Fail(SessionError::UnexpectedFrame));
    assert_eq!(s.phase, Phase::Failed);
}

#[test]
fn subscribe_ticker_frame_and_ack() {
    let mut s = active_at(0);
    let f = s.subscribe(&WSTopic::Ticker(vec![String::from("BTC-USD")]), false, true).unwrap();
    assert_eq!(f.topic, "ticker:BTC-USD");
    assert_eq!(f.msg_type, "subscribe");
    assert!(!f.private_channel);
    assert!(f.response);
    assert!(!s.is_active("ticker:BTC-USD"));
    s.on_frame(InboundFrame::Ack { id: String::from("999") }, 1);
    assert!(!s.is_active("ticker:BTC-USD"));
    assert_eq!(s.pending.len(), 1);
    s.on_frame(InboundFrame::Ack { id: f.id.clone() }, 2);
    assert!(s.is_active("ticker:BTC-USD"));
    assert_eq!(s.pending.len(), 0);
    let u = s.unsubscribe(&WSTopic::Ticker(vec![String::from("BTC-USD")]), false, false).unwrap();
    assert_eq!(u.msg_type, "unsubscribe");
    assert!(!s.is_active("ticker:BTC-USD"));
}

#[test]
fn subscribe_without_response_is_active_at_once() {
    let mut s = active_at(0);
    let f = s.subscribe(&WSTopic::AllTicker, false, false).unwrap();
    assert_ne!(f.id, String::new());
    assert!(s.is_active("allTicker"));
    assert_eq!(s.pending.len(), 0);
}

#[test]
fn subscribe_refused_when_not_active() {
    let mut s = Session::new();
    assert_eq!(s.subscribe(&WSTopic::AllTicker, false, true), Err(RequestError::NotActive));
}

#[test]
fn ping_without_pong_fails_at_timeout() {
    let mut s = active_at(0);
    assert_eq!(s.tick(999), Action::Nothing);
    match s.tick(1000) {
        Action::SendPing(m) => assert_eq!(m.msg_type, "ping"),
        other => panic!("expected a ping, got {:?}", other),
    }
    assert_eq!(s.wake_at(), Some(1500));
    assert_eq!(s.tick(1499), Action::Nothing);
    assert_eq!(s.phase, Phase::Active);
    assert_eq!(s.tick(1500), Action::Fail(SessionError::KeepaliveTimeout));
    assert_eq!(s.phase, Phase::Failed);
}

#[test]
fn pong_in_time_reschedules_next_ping() {
    let mut s = active_at(0);
    assert_eq!(s.tick(999), Action::Nothing);
    let id = match s.tick(1000) {
        Action::SendPing(m) => m.id,
        other => panic!("expected a ping, got {:?}", other),
    };
    s.on_frame(InboundFrame::Pong { id: String::from("12345") }, 1300);
    assert_eq!(s.wake_at(), Some(1500));
    s.on_frame(InboundFrame::Pong { id }, 1400);
    assert_eq!(s.phase, Phase::Active);
    assert_eq!(s.wake_at(), Some(2000));
    assert_eq!(s.tick(1500), Action::Nothing);
    assert_eq!(s.phase, Phase::Active);
}

#[test]
fn unknown_data_frame_is_reported_not_fatal() {
    let mut s = active_at(0);
    let r = s.on_frame(
        InboundFrame::Message {
            topic: String::from("mystery:X"),
            subject: String::from("odd"),
            data: String::from("{}"),
        },
        5,
    );
    assert_eq!(
        r,
        Action::Emit(Decoded::Unrecognized {
            topic: String::from("mystery:X"),
            subject: String::from("odd"),
            data: String::from("{}"),
        })
    );
    assert_eq!(s.phase, Phase::Active);
    let r = s.on_frame(
        InboundFrame::Message {
            topic: String::from("ticker:BTC-USDT"),
            subject: String::from("trade.ticker"),
            data: String::from("{}"),
        },
        6,
    );
    match r {
        Action::Emit(Decoded::Routed { kind, .. }) => assert_eq!(kind, MsgKind::Ticker),
        other => panic!("expected an event, got {:?}", other),
    }
}

#[test]
fn server_ping_is_answered() {
    let mut s = active_at(0);
    match s.on_frame(InboundFrame::Ping { id: String::from("77") }, 1) {
        Action::SendPong(m) => {
            assert_eq!(m.id, "77");
            assert_eq!(m.msg_type, "pong");
        }
        other => panic!("expected a pong, got {:?}", other),
    }
}

#[test]
fn close_cancels_pending() {
    let mut s = active_at(0);
    s.subscribe(&WSTopic::Balances, true, true).unwrap();
    s.subscribe(&WSTopic::DebtRatio, true, false).unwrap();
    let cancelled = s.close();
    assert_eq!(cancelled.len(), 1);
    assert_eq!(cancelled[0].topic, "balances");
    assert_eq!(s.phase, Phase::Closed);
    assert!(!s.is_active("debtRatio"));
    assert_eq!(s.close().len(), 0);
    assert_eq!(s.on_transport_error().len(), 0);
    assert_eq!(s.phase, Phase::Closed);
}

#[test]
fn transport_error_fails_session() {
    let mut s = active_at(0);
    s.on_transport_error();
    assert_eq!(s.failure, Some(SessionError::ConnectionLost));
    let mut s = active_at(0);
    s.on_transport_closed();
    assert_eq!(s.phase, Phase::Closed);
}

#[test]
fn frames_are_classified_by_type() {
    let e = String::new;
    assert_eq!(frame_of(String::from("welcome"), String::from("0"), e(), e(), e()), InboundFrame::Welcome { id: String::from("0") });
    assert_eq!(frame_of(String::from("ack"), String::from("5"), e(), e(), e()), InboundFrame::Ack { id: String::from("5") });
    assert_eq!(frame_of(String::from("ping"), String::from("6"), e(), e(), e()), InboundFrame::Ping { id: String::from("6") });
    assert_eq!(frame_of(String::from("pong"), String::from("7"), e(), e(), e()), InboundFrame::Pong { id: String::from("7") });
    assert_eq!(
        frame_of(String::from("message"), e(), String::from("ticker:A"), String::from("trade.ticker"), String::from("{}")),
        InboundFrame::Message { topic: String::from("ticker:A"), subject: String::from("trade.ticker"), data: String::from("{}") }
    );
    assert_eq!(frame_of(String::from("error"), e(), e(), e(), e()), InboundFrame::Other { msg_type: String::from("error") });
}
