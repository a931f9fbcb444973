use kucoin_api::keepalive::{Beat, Keepalive};

#[test]
fn ping_then_expiry_at_interval_plus_timeout() {
    let mut k = Keepalive::armed(1000, 500, 0);
    assert_eq!(k.wake_at(), 1000);
    assert_eq!(k.tick(999, 7), Beat::Wait);
    assert_eq!(k.tick(1000, 7), Beat::Ping);
    assert_eq!(k.ping_id, 7);
    assert_eq!(k.wake_at(), 1500);
    assert_eq!(k.tick(1499, 8), Beat::Wait);
    assert_eq!(k.tick(1500, 8), Beat::Expired);
}

#[test]
fn pong_answers_only_its_ping() {
    let mut k = Keepalive::armed(1000, 500, 0);
    assert_eq!(k.tick(1000, 3), Beat::Ping);
    k.pong(4, 1100);
    assert!(k.awaiting);
    k.pong(3, 1400);
    assert!(!k.awaiting);
    assert_eq!(k.wake_at(), 2000);
    let mut late = Keepalive::armed(1000, 500, 0);
    late.tick(1000, 3);
    late.pong(3, 1500);
    assert!(late.awaiting);
}

#[test]
fn times_saturate_at_the_largest_value() {
    let k = Keepalive::armed(1000, 500, u64::MAX - 10);
    assert_eq!(k.wake_at(), u64::MAX);
}

fn due_at_zero() -> Keepalive {
    Keepalive { interval: 1000, timeout: 500, next_ping_at: 0, awaiting: false, ping_id: 0, sent_at: 0, deadline: 0 }
}

#[test]
fn ping_at_zero_without_pong_expires_at_500() {
    let mut k = due_at_zero();
    assert_eq!(k.tick(0, 1), Beat::Ping);
    assert_eq!(k.tick(499, 2), Beat::Wait);
    assert_eq!(k.tick(500, 2), Beat::Expired);
}

#[test]
fn pong_at_400_schedules_ping_at_1000() {
    let mut k = due_at_zero();
    assert_eq!(k.tick(0, 1), Beat::Ping);
    k.pong(1, 400);
    assert_eq!(k.wake_at(), 1000);
    assert_eq!(k.tick(500, 2), Beat::Wait);
    assert_eq!(k.tick(999, 2), Beat::Wait);
    assert_eq!(k.tick(1000, 2), Beat::Ping);
}
