use gcs_afv::link::{FrameAction, FrameBuffer, FrameKind, LinkMonitor, LinkStatus, TIMEOUT_BUDGET};

#[test]
fn frame_collects_until_cleared() {
    let mut f = FrameBuffer::new();
    f.push_byte(1);
    f.push_byte(2);
    assert_eq!(f.data, vec![1, 2]);
    f.clear();
    assert!(f.data.is_empty());
}

#[test]
fn heartbeat_is_answered_and_not_delivered() {
    let mut m = LinkMonitor::new();
    m.receive(Some(4));
    assert!(matches!(m.decoded(None), FrameAction::KeepReading));
    assert_eq!(m.frame.data, vec![4]);
    m.receive(Some(0));
    assert!(matches!(m.decoded(Some(FrameKind::Heart)), FrameAction::ReplyBeat));
    assert!(m.frame.data.is_empty());
    m.receive(Some(1));
    assert!(matches!(m.decoded(Some(FrameKind::Beat)), FrameAction::Ignore));
    m.receive(Some(5));
    assert!(matches!(m.decoded(Some(FrameKind::Other)), FrameAction::Deliver));
    assert!(m.running());
}

#[test]
fn link_closes_after_budget_of_timeouts() {
    let mut m = LinkMonitor::new();
    for _ in 0..TIMEOUT_BUDGET {
        assert!(m.running());
        m.timeout(true);
    }
    assert_eq!(m.budget, 0);
    assert!(!m.running());
    m.close();
    assert!(matches!(m.status, LinkStatus::Stale));
}

#[test]
fn traffic_restores_budget() {
    let mut m = LinkMonitor::new();
    m.timeout(true);
    m.timeout(true);
    assert_eq!(m.budget, TIMEOUT_BUDGET - 2);
    m.receive(Some(9));
    m.decoded(Some(FrameKind::Other));
    assert_eq!(m.budget, TIMEOUT_BUDGET);
}

#[test]
fn failures_stop_the_link() {
    let mut m = LinkMonitor::new();
    m.timeout(false);
    assert!(matches!(m.status, LinkStatus::SendFailed));
    assert!(!m.running());
    m.close();
    assert!(matches!(m.status, LinkStatus::SendFailed));

    let mut m = LinkMonitor::new();
    m.receive(None);
    assert!(matches!(m.status, LinkStatus::ReceiveFailed));
    assert!(!m.running());

    let mut m = LinkMonitor::new();
    m.beat_sent(true);
    assert!(m.running());
    m.beat_sent(false);
    assert!(matches!(m.status, LinkStatus::SendFailed));
}
