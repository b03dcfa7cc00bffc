use gcs_afv::net::{
    messages_equal, naming_update, same_bytes, settings_announcement, settings_update, EchoFilter,
    FlirAnalysis, FlirDriverMessage, FlirOperatorMessage, FlirOperatorSettings,
    LidarDriverMessage, NamingOperatorMessage, NetMessage, PumpDriverMessage, TurretDriverMessage,
    AFV_COMM_PORT,
};

fn analysis(x: u32) -> NetMessage {
    NetMessage::FlirOperator(FlirOperatorMessage::Analysis(Some(FlirAnalysis {
        lower_centroid: (1, 2),
        upper_centroid: (3, 4),
        angle_change: (x, 6),
    })))
}

#[test]
fn settings_default() {
    let s = FlirOperatorSettings::default();
    assert_eq!(s.fliter_value, 200);
    assert_eq!(s.interations, 2);
    assert_eq!(AFV_COMM_PORT, 4040);
}

#[test]
fn message_equality() {
    let a = NetMessage::FlirDriver(FlirDriverMessage::NalPacket(vec![1, 2, 3]));
    let b = NetMessage::FlirDriver(FlirDriverMessage::NalPacket(vec![1, 2, 3]));
    let c = NetMessage::FlirDriver(FlirDriverMessage::NalPacket(vec![1, 2]));
    assert!(messages_equal(&a, &b));
    assert!(!messages_equal(&a, &c));
    assert!(messages_equal(&analysis(5), &analysis(5)));
    assert!(!messages_equal(&analysis(5), &analysis(7)));
    let t1 = NetMessage::TurretDriver(TurretDriverMessage::Angle(3, (1, 2)));
    let t2 = NetMessage::TurretDriver(TurretDriverMessage::SetAbsoluteAngle(3, (1, 2)));
    assert!(!messages_equal(&t1, &t2));
    assert!(messages_equal(
        &NetMessage::PumpDriver(PumpDriverMessage::TurnOn),
        &NetMessage::PumpDriver(PumpDriverMessage::TurnOn)
    ));
    assert!(!messages_equal(
        &NetMessage::LidarDriver(LidarDriverMessage::LidarDistanceCm(3)),
        &NetMessage::LidarDriver(LidarDriverMessage::PollLidar)
    ));
    assert!(same_bytes(&vec![], &vec![]));
    assert!(!same_bytes(&vec![1], &vec![2]));
}

#[test]
fn echo_is_suppressed() {
    let mut f = EchoFilter::new();
    assert!(!f.forwards(&NetMessage::NamingOperator(NamingOperatorMessage { id: 0 })));
    assert!(f.forwards(&NetMessage::NamingOperator(NamingOperatorMessage { id: 1 })));
    f.received(analysis(5));
    assert!(!f.forwards(&analysis(5)));
    assert!(f.forwards(&analysis(6)));
    assert!(f.forwards(&NetMessage::NamingOperator(NamingOperatorMessage { id: 0 })));
}

#[test]
fn naming_and_settings_updates() {
    assert_eq!(naming_update(3, &NetMessage::NamingOperator(NamingOperatorMessage { id: 44 })), 44);
    assert_eq!(naming_update(3, &analysis(1)), 3);
    let s = settings_update(
        FlirOperatorSettings::default(),
        &NetMessage::FlirOperator(FlirOperatorMessage::SetSettings(FlirOperatorSettings {
            fliter_value: 90,
            interations: 4,
        })),
    );
    assert_eq!((s.fliter_value, s.interations), (90, 4));
    let s = settings_update(s, &NetMessage::FlirOperator(FlirOperatorMessage::AutoTarget));
    assert_eq!((s.fliter_value, s.interations), (90, 4));
    match settings_announcement(&s) {
        NetMessage::FlirOperator(FlirOperatorMessage::Settings(x)) => {
            assert_eq!((x.fliter_value, x.interations), (90, 4))
        }
        _ => panic!("wrong announcement"),
    }
}

#[test]
fn float_fields_compare_as_floats() {
    let pos_zero = NetMessage::TurretDriver(TurretDriverMessage::Angle(3, (0, 0x3f80_0000)));
    let neg_zero = NetMessage::TurretDriver(TurretDriverMessage::Angle(3, (0x8000_0000, 0x3f80_0000)));
    assert!(messages_equal(&pos_zero, &neg_zero));
    let nan = NetMessage::TurretDriver(TurretDriverMessage::SetAngleChange(3, (0x7fc0_0000, 0)));
    assert!(!messages_equal(&nan, &nan));
    let inf = NetMessage::TurretDriver(TurretDriverMessage::SetAngleChange(3, (0x7f80_0000, 0)));
    assert!(messages_equal(&inf, &inf));
    let mut f = EchoFilter::new();
    f.received(nan.clone());
    assert!(f.forwards(&nan));
    f.received(neg_zero.clone());
    assert!(!f.forwards(&pos_zero));
}
