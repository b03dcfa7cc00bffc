use gcs_afv::control::{
    elapsed_ms, engage_commands, turn_command, AutoTargetAction, CommandLatch, Device, FlirAutoTarget,
    NozzlePhase, NozzleSequence, StepperAction, StepperPhase, StreamGate, TurretStepper,
};
use gcs_afv::net::{
    FlirAnalysis, FlirDriverMessage, FlirOperatorMessage, LidarDriverMessage,
    LightsDriverMessage, NetMessage, NozzleOperatorMessage, PumpDriverMessage,
    TurretDriverMessage,
};

#[test]
fn elapsed_saturates() {
    assert_eq!(elapsed_ms(10, 4), 6);
    assert_eq!(elapsed_ms(4, 10), 0);
}

#[test]
fn pump_runs_while_commanded() {
    let mut l = CommandLatch::new(Device::Pump, 0);
    assert!(l.command(999));
    assert!(!l.command(1000));
    l.on_message(&NetMessage::LightDriver(LightsDriverMessage::TurnOn), 5000);
    assert_eq!(l.last_cmd, 0);
    l.on_message(&NetMessage::PumpDriver(PumpDriverMessage::TurnOn), 5000);
    assert_eq!(l.last_cmd, 5000);
    assert!(l.command(5500));
    assert!(!l.command(6000));
    let mut lights = CommandLatch::new(Device::Lights, 0);
    lights.on_message(&NetMessage::LightDriver(LightsDriverMessage::TurnOn), 7);
    assert_eq!(lights.last_cmd, 7);
}

#[test]
fn stream_gate_window() {
    let mut g = StreamGate::new(true, 0);
    assert!(g.open(2999));
    assert!(!g.open(3000));
    g.on_message(&NetMessage::FlirDriver(FlirDriverMessage::OpenVisualStream), 4000);
    assert!(!g.open(4000));
    g.on_message(&NetMessage::FlirDriver(FlirDriverMessage::OpenIrStream), 4000);
    assert!(g.open(4000));
    let mut v = StreamGate::new(false, 0);
    v.on_message(&NetMessage::FlirDriver(FlirDriverMessage::OpenVisualStream), 9000);
    assert!(v.open(10000));
}

#[test]
fn auto_target_needs_fresh_requests() {
    let mut a = FlirAutoTarget::new(7, 0);
    assert!(a.active(1000));
    assert!(!a.active(1001));
    a.on_message(&NetMessage::FlirOperator(FlirOperatorMessage::AutoTarget), 5000);
    assert!(a.active(5500));
    let an = NetMessage::FlirOperator(FlirOperatorMessage::Analysis(Some(FlirAnalysis {
        lower_centroid: (0, 0),
        upper_centroid: (0, 0),
        angle_change: (11, 12),
    })));
    let act = a.respond(&an);
    assert!(matches!(act, AutoTargetAction::Turn(7, (11, 12))));
    match turn_command(&act) {
        Some(NetMessage::TurretDriver(TurretDriverMessage::SetAngleChange(7, (11, 12)))) => {}
        _ => panic!("wrong command"),
    }
    assert!(matches!(
        a.respond(&NetMessage::FlirOperator(FlirOperatorMessage::Analysis(None))),
        AutoTargetAction::Sweep
    ));
    assert!(turn_command(&AutoTargetAction::Sweep).is_none());
}

#[test]
fn nozzle_sequence() {
    let mut s = NozzleSequence::new(5);
    let lidar = NetMessage::LidarDriver(LidarDriverMessage::LidarDistanceCm(250));
    assert!(s.step(&lidar, true).is_none());
    assert!(matches!(s.phase, NozzlePhase::AwaitOrder));
    s.step(&NetMessage::NozzleOperator(NozzleOperatorMessage::AutoTarget), false);
    assert!(matches!(s.phase, NozzlePhase::AwaitLock));
    let an = NetMessage::FlirOperator(FlirOperatorMessage::Analysis(Some(FlirAnalysis {
        lower_centroid: (0, 0),
        upper_centroid: (0, 0),
        angle_change: (0, 0),
    })));
    s.step(&an, false);
    assert!(matches!(s.phase, NozzlePhase::AwaitLock));
    s.step(&an, true);
    assert!(matches!(s.phase, NozzlePhase::AwaitCameraAngle));
    s.step(&NetMessage::TurretDriver(TurretDriverMessage::Angle(6, (9, 9))), false);
    assert!(matches!(s.phase, NozzlePhase::AwaitCameraAngle));
    s.step(&NetMessage::TurretDriver(TurretDriverMessage::Angle(5, (42, 1))), false);
    assert!(matches!(s.phase, NozzlePhase::AwaitDistance(42)));
    let r = s.step(&lidar, false).unwrap();
    assert_eq!((r.camera_pan, r.distance_cm), (42, 250));
    assert!(matches!(s.phase, NozzlePhase::AwaitOrder));
}

#[test]
fn turret_stepper() {
    let mut t = TurretStepper::new(3);
    // A command for another port changes nothing.
    assert!(matches!(
        t.step(&NetMessage::TurretDriver(TurretDriverMessage::SetAngleChange(4, (1, 1)))),
        StepperAction::Nothing
    ));
    assert!(matches!(t.phase, StepperPhase::Idle));
    // An absolute turn is carried out at once while no turn is held.
    let abs = NetMessage::TurretDriver(TurretDriverMessage::SetAbsoluteAngle(3, (8, 9)));
    assert!(matches!(t.step(&abs), StepperAction::SetAbsolute((8, 9))));
    assert!(matches!(t.phase, StepperPhase::Idle));
    assert!(matches!(t.step(&abs), StepperAction::SetAbsolute((8, 9))));
    t.step(&NetMessage::TurretDriver(TurretDriverMessage::SetAngleChange(3, (5, 6))));
    assert!(matches!(t.phase, StepperPhase::AwaitAngle((5, 6))));
    assert!(matches!(
        t.step(&NetMessage::TurretDriver(TurretDriverMessage::Angle(4, (1, 1)))),
        StepperAction::Nothing
    ));
    match t.step(&NetMessage::TurretDriver(TurretDriverMessage::Angle(3, (10, 20)))) {
        StepperAction::SetRelative { current, change } => {
            assert_eq!(current, (10, 20));
            assert_eq!(change, (5, 6));
        }
        _ => panic!("no move"),
    }
    assert!(matches!(t.phase, StepperPhase::Idle));
    // While a relative turn waits for the angle report, nothing else is
    // taken: not an absolute turn, not a newer change.
    t.step(&NetMessage::TurretDriver(TurretDriverMessage::SetAngleChange(3, (5, 6))));
    assert!(matches!(t.step(&abs), StepperAction::Nothing));
    t.step(&NetMessage::TurretDriver(TurretDriverMessage::SetAngleChange(3, (7, 7))));
    assert!(matches!(t.phase, StepperPhase::AwaitAngle((5, 6))));
    match t.step(&NetMessage::TurretDriver(TurretDriverMessage::Angle(3, (1, 2)))) {
        StepperAction::SetRelative { current, change } => {
            assert_eq!(current, (1, 2));
            assert_eq!(change, (5, 6));
        }
        _ => panic!("no move"),
    }
    assert!(matches!(t.phase, StepperPhase::Idle));
}

#[test]
fn turret_change_after_angle_report() {
    let one = 0x3f80_0000u32;
    let mut t = TurretStepper::new(1);
    assert!(matches!(
        t.step(&NetMessage::TurretDriver(TurretDriverMessage::Angle(1, (0, 0)))),
        StepperAction::Nothing
    ));
    t.step(&NetMessage::TurretDriver(TurretDriverMessage::SetAngleChange(1, (one, one))));
    match t.step(&NetMessage::TurretDriver(TurretDriverMessage::Angle(1, (0, 0)))) {
        StepperAction::SetRelative { current, change } => {
            assert_eq!(current, (0, 0));
            assert_eq!(change, (one, one));
        }
        _ => panic!("change dropped"),
    }
}

#[test]
fn engaging_turns_the_pump_on_after_aiming() {
    let cmds = engage_commands(7, (1, 2));
    assert_eq!(cmds.len(), 2);
    assert!(matches!(
        cmds[0],
        NetMessage::TurretDriver(TurretDriverMessage::SetAbsoluteAngle(7, (1, 2)))
    ));
    assert!(matches!(cmds[1], NetMessage::PumpDriver(PumpDriverMessage::TurnOn)));
}
