use gcs_afv::messages::{
    answer_poll, AfvCtlMessage, AfvFlirStream, AfvRoster, BridgeFilter, FlirViewer, LocalMessages,
    NetworkMessages, TargetingState, ViewerAction, FLIR_TIME_MS,
};

fn net(m: NetworkMessages) -> AfvCtlMessage {
    AfvCtlMessage::Network(m)
}

#[test]
fn bridge_lets_only_network_messages_through() {
    let f = BridgeFilter::new();
    assert!(f.forwards(&net(NetworkMessages::PollAfvUuid)));
    assert!(f.forwards(&net(NetworkMessages::FlirStream(3))));
    assert!(!f.forwards(&AfvCtlMessage::Local(LocalMessages::SelectedAfv(3))));
}

#[test]
fn bridge_filters_by_known_peer() {
    let mut f = BridgeFilter::new();
    f.received(&net(NetworkMessages::FlirStream(9)));
    assert_eq!(f.afv_uuid, None);
    f.received(&net(NetworkMessages::AfvUuid(3)));
    assert_eq!(f.afv_uuid, Some(3));
    assert!(f.forwards(&net(NetworkMessages::FlirStream(3))));
    assert!(!f.forwards(&net(NetworkMessages::FlirStream(4))));
    assert!(!f.forwards(&net(NetworkMessages::Distance(4, 0))));
    assert!(!f.forwards(&net(NetworkMessages::AutoTarget(4))));
    assert!(f.forwards(&net(NetworkMessages::NalPacket(vec![1, 2]))));
    assert!(f.forwards(&net(NetworkMessages::AfvUuid(4))));
    assert!(f.forwards(&net(NetworkMessages::PollAfvUuid)));
}

#[test]
fn message_targets() {
    assert_eq!(NetworkMessages::FlirTargetIterations(7, 1).target_afv(), Some(7));
    assert_eq!(NetworkMessages::FlirAngle(2, 0, 0).target_afv(), Some(2));
    assert_eq!(NetworkMessages::PollFiringSolution(9).target_afv(), Some(9));
    assert_eq!(NetworkMessages::AfvUuid(9).target_afv(), None);
    assert_eq!(NetworkMessages::NalPacket(vec![]).target_afv(), None);
}

#[test]
fn poll_is_answered_with_own_id() {
    match answer_poll(12, &net(NetworkMessages::PollAfvUuid)) {
        Some(AfvCtlMessage::Network(NetworkMessages::AfvUuid(12))) => {}
        _ => panic!("wrong answer"),
    }
    assert!(answer_poll(12, &net(NetworkMessages::AfvUuid(5))).is_none());
}

#[test]
fn stream_requests_open_windows() {
    let mut s = AfvFlirStream::new(5, 1000);
    assert_eq!(s.frame_targets(1000), (true, true));
    assert_eq!(s.frame_targets(1001), (false, false));
    assert!(s.on_message(&net(NetworkMessages::FlirStream(6)), 2000).is_none());
    assert_eq!(s.net_deadline, 1000);
    s.on_message(&net(NetworkMessages::FlirStream(5)), 2000);
    assert_eq!(s.net_deadline, 2000 + FLIR_TIME_MS);
    assert_eq!(s.frame_targets(4000), (true, false));
    assert_eq!(s.frame_targets(5001), (false, false));
    s.on_message(&AfvCtlMessage::Local(LocalMessages::FlirStream(5)), 6000);
    assert_eq!(s.local_deadline, 9000);
    assert_eq!(s.frame_targets(8000), (false, true));
    s.on_message(&net(NetworkMessages::FlirStream(5)), u64::MAX - 1);
    assert_eq!(s.net_deadline, 5000);
    match s.on_message(&net(NetworkMessages::PollAfvUuid), 0) {
        Some(AfvCtlMessage::Network(NetworkMessages::AfvUuid(5))) => {}
        _ => panic!("poll not answered"),
    }
}

#[test]
fn roster_records_each_vehicle_once() {
    let mut r = AfvRoster::new();
    r.on_message(&net(NetworkMessages::AfvUuid(4)));
    r.on_message(&net(NetworkMessages::AfvUuid(2)));
    r.on_message(&net(NetworkMessages::AfvUuid(4)));
    r.on_message(&net(NetworkMessages::FlirStream(8)));
    assert_eq!(r.afvs, vec![4, 2]);
    match r.select(2) {
        AfvCtlMessage::Local(LocalMessages::SelectedAfv(2)) => {}
        _ => panic!("wrong selection"),
    }
}

#[test]
fn targeting_follows_selection() {
    let mut t = TargetingState::new(100);
    assert!(t.periodic_request().is_none());
    t.toggle_auto_target();
    t.on_message(&AfvCtlMessage::Local(LocalMessages::SelectedAfv(7)), 200);
    match t.periodic_request() {
        Some(AfvCtlMessage::Network(NetworkMessages::AutoTarget(7))) => {}
        _ => panic!("no request"),
    }
    t.on_message(&net(NetworkMessages::AutoTarget(6)), 300);
    assert_eq!(t.request_deadline, 100);
    t.on_message(&net(NetworkMessages::AutoTarget(7)), 300);
    assert_eq!(t.request_deadline, 3300);
}

#[test]
fn viewer_decodes_its_side_of_the_link() {
    let mut remote = FlirViewer::new(true);
    match remote.on_message(net(NetworkMessages::NalPacket(vec![1]))) {
        ViewerAction::Decode(p) => assert_eq!(p, vec![1]),
        ViewerAction::Nothing => panic!("not decoded"),
    }
    assert!(matches!(
        remote.on_message(AfvCtlMessage::Local(LocalMessages::NalPacket(vec![1]))),
        ViewerAction::Nothing
    ));
    remote.on_message(AfvCtlMessage::Local(LocalMessages::SelectedAfv(3)));
    assert_eq!(remote.afv_uuid, 3);
    assert!(remote.stream_request().is_none());
    remote.streaming = true;
    match remote.stream_request() {
        Some(AfvCtlMessage::Network(NetworkMessages::FlirStream(3))) => {}
        _ => panic!("wrong request"),
    }
    let mut local = FlirViewer::new(false);
    local.streaming = true;
    assert!(matches!(
        local.on_message(AfvCtlMessage::Local(LocalMessages::NalPacket(vec![2]))),
        ViewerAction::Decode(_)
    ));
    match local.stream_request() {
        Some(AfvCtlMessage::Local(LocalMessages::FlirStream(0))) => {}
        _ => panic!("wrong request"),
    }
}
