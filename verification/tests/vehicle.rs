use gcs_afv::vehicle::{
    board_command, BoardCommand, DistanceSensor, GuiSystem, Local, MainCtlMsg, NozzleTurret,
    TurretAxes, TurretCode, TurretMsg,
};

#[test]
fn turret_codes() {
    assert_eq!(TurretCode::top_flir(), TurretCode(1));
    assert_eq!(TurretCode::nozzle(), TurretCode(2));
    assert_ne!(GuiSystem::Flir, GuiSystem::Turret);
    let _d: DistanceSensor<Local> = DistanceSensor::new();
    let _n: NozzleTurret<Local> = NozzleTurret::new();
}

#[test]
fn link_tracks_its_own_turret() {
    let mut a = TurretAxes::new(TurretCode::nozzle());
    a.link_update(&TurretMsg::SetAltitude(TurretCode::top_flir(), 5));
    assert_eq!(a.altitude, 0);
    a.link_update(&TurretMsg::SetAltitude(TurretCode::nozzle(), 5));
    a.link_update(&TurretMsg::SetAzimuth(TurretCode::nozzle(), 6));
    assert_eq!((a.altitude, a.azimuth), (5, 6));
}

#[test]
fn simulator_answers_and_obeys() {
    let mut a = TurretAxes::new(TurretCode::top_flir());
    a.altitude = 3;
    match a.simulator_respond(&TurretMsg::GetAltitude(TurretCode::nozzle())) {
        Some(TurretMsg::SetAltitude(c, 3)) => assert_eq!(c, TurretCode::top_flir()),
        _ => panic!("no answer"),
    }
    assert!(matches!(
        a.simulator_respond(&TurretMsg::GetAzimuth(TurretCode::top_flir())),
        Some(TurretMsg::SetAzimuth(_, 0))
    ));
    assert!(a.simulator_respond(&TurretMsg::SetAzimuth(TurretCode::top_flir(), 9)).is_none());
    assert_eq!(a.tgt_azimuth, 9);
    a.simulator_respond(&TurretMsg::SetAltitude(TurretCode::nozzle(), 9));
    assert_eq!(a.tgt_altitude, 0);
}

#[test]
fn board_commands() {
    assert!(matches!(board_command(&MainCtlMsg::Ping), BoardCommand::Ping));
    assert!(matches!(board_command(&MainCtlMsg::PumpState(true)), BoardCommand::SetPump(true)));
}
