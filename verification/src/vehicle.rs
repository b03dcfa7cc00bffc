//! The vehicle's subsystems as the ground station and the vehicle see them:
//! turret links and simulators, the main controller's messages, and the
//! markers that tell simulated from actuated and local from networked parts.
use vstd::prelude::*;
use core::marker::PhantomData;

verus! {

/// The subsystems of a vehicle that the ground station can show.
#[derive(Debug, PartialEq, Eq, Structural)]
pub enum GuiSystem {
    Flir,
    Turret,
    MainCtl,
}

/// A vehicle whose hardware is simulated.
pub struct Simulated;

/// A vehicle that drives real hardware.
pub struct Actuated;

/// A part that runs on this machine.
pub struct Local;

/// A part that runs on another machine and is reached over the network.
pub struct Network;

/// The distance sensor of a vehicle.
pub struct DistanceSensor<NetType> {
    _net: PhantomData<NetType>,
}

impl<T> DistanceSensor<T> {
    pub fn new() -> (s: DistanceSensor<T>) {
        DistanceSensor { _net: PhantomData }
    }
}

/// The nozzle turret of a vehicle.
pub struct NozzleTurret<NetType> {
    _net: PhantomData<NetType>,
}

impl<T> NozzleTurret<T> {
    pub fn new() -> (s: NozzleTurret<T>) {
        NozzleTurret { _net: PhantomData }
    }
}

/// Which turret a turret message is about.
#[derive(Debug, Clone, Copy, PartialEq, Eq, Structural)]
pub struct TurretCode(pub u32);

impl TurretCode {
    /// The turret that carries the top camera.
    pub fn top_flir() -> (c: TurretCode)
        ensures
            c.0 == 1,
    {
        TurretCode(1)
    }

    /// The turret that carries the nozzle.
    pub fn nozzle() -> (c: TurretCode)
        ensures
            c.0 == 2,
    {
        TurretCode(2)
    }
}

/// Messages about a turret's altitude and azimuth. Angles are the bit
/// patterns of 32-bit floats, in radians.
pub enum TurretMsg {
    GetAltitude(TurretCode),
    GetAzimuth(TurretCode),
    SetAltitude(TurretCode, u32),
    SetAzimuth(TurretCode, u32),
}

/// The angles that one end of a turret link keeps.
pub struct TurretAxes {
    pub code: TurretCode,
    pub altitude: u32,
    pub azimuth: u32,
    pub tgt_altitude: u32,
    pub tgt_azimuth: u32,
}

impl TurretAxes {
    /// A turret at rest, with every angle zero.
    pub fn new(code: TurretCode) -> (a: TurretAxes)
        ensures
            a.code == code,
            a.altitude == 0 && a.azimuth == 0 && a.tgt_altitude == 0 && a.tgt_azimuth == 0,
    {
        TurretAxes { code, altitude: 0, azimuth: 0, tgt_altitude: 0, tgt_azimuth: 0 }
    }

    /// The ground station's side of a turret link: an angle report for this
    /// turret updates the angle shown.
    pub fn link_update(&mut self, m: &TurretMsg)
        ensures
            final(self).code == old(self).code,
            final(self).tgt_altitude == old(self).tgt_altitude,
            final(self).tgt_azimuth == old(self).tgt_azimuth,
            final(self).altitude == (match *m {
                TurretMsg::SetAltitude(c, a) => if c == old(self).code {
                    a
                } else {
                    old(self).altitude
                },
                _ => old(self).altitude,
            }),
            final(self).azimuth == (match *m {
                TurretMsg::SetAzimuth(c, a) => if c == old(self).code {
                    a
                } else {
                    old(self).azimuth
                },
                _ => old(self).azimuth,
            }),
    {
        match m {
            TurretMsg::SetAltitude(c, a) => {
                if c.0 == self.code.0 {
                    self.altitude = *a;
                }
            },
            TurretMsg::SetAzimuth(c, a) => {
                if c.0 == self.code.0 {
                    self.azimuth = *a;
                }
            },
            _ => {},
        }
    }

    /// The simulated turret's side: a request for an angle is answered with
    /// this turret's angle; an order for this turret sets its target.
    pub fn simulator_respond(&mut self, m: &TurretMsg) -> (r: Option<TurretMsg>)
        ensures
            final(self).code == old(self).code,
            final(self).altitude == old(self).altitude,
            final(self).azimuth == old(self).azimuth,
            r == (match *m {
                TurretMsg::GetAltitude(_) => Some(
                    TurretMsg::SetAltitude(old(self).code, old(self).altitude),
                ),
                TurretMsg::GetAzimuth(_) => Some(
                    TurretMsg::SetAzimuth(old(self).code, old(self).azimuth),
                ),
                _ => None,
            }),
            final(self).tgt_altitude == (match *m {
                TurretMsg::SetAltitude(c, a) => if c == old(self).code {
                    a
                } else {
                    old(self).tgt_altitude
                },
                _ => old(self).tgt_altitude,
            }),
            final(self).tgt_azimuth == (match *m {
                TurretMsg::SetAzimuth(c, a) => if c == old(self).code {
                    a
                } else {
                    old(self).tgt_azimuth
                },
                _ => old(self).tgt_azimuth,
            }),
    {
        match m {
            TurretMsg::GetAltitude(_) => Some(TurretMsg::SetAltitude(self.code, self.altitude)),
            TurretMsg::GetAzimuth(_) => Some(TurretMsg::SetAzimuth(self.code, self.azimuth)),
            TurretMsg::SetAltitude(c, a) => {
                if c.0 == self.code.0 {
                    self.tgt_altitude = *a;
                }
                None
            },
            TurretMsg::SetAzimuth(c, a) => {
                if c.0 == self.code.0 {
                    self.tgt_azimuth = *a;
                }
                None
            },
        }
    }
}

/// Messages between the ground station and the vehicle's main controller.
pub enum MainCtlMsg {
    Ping,
    PumpState(bool),
}

/// What the vehicle's main controller tells its board.
pub enum BoardCommand {
    Ping,
    SetPump(bool),
}

/// The board command for a message from the ground station: a ping is
/// passed on, and so is the pump state.
pub fn board_command(m: &MainCtlMsg) -> (c: BoardCommand)
    ensures
        c == (match *m {
            MainCtlMsg::Ping => BoardCommand::Ping,
            MainCtlMsg::PumpState(s) => BoardCommand::SetPump(s),
        }),
{
    match m {
        MainCtlMsg::Ping => BoardCommand::Ping,
        MainCtlMsg::PumpState(s) => BoardCommand::SetPump(*s),
    }
}

/// A stateless placeholder naming the link traffic logger; the logging
/// itself is done by the program around this library.
pub struct NetworkLogger {}

/// A stateless placeholder naming the bus bridge; the bridging is done by
/// the program around this library, with `net::EchoFilter` deciding what
/// crosses.
pub struct AfvBridge {}

/// A stateless placeholder naming the ground station's user interface,
/// which this library does not hold.
pub struct GcsUi {}

/// A placeholder for the ground station's command-line arguments; it has
/// none.
pub struct GcsArgs {}

/// A marker trait with no methods, for the arguments with which a user
/// interface is launched.
pub trait GuiArgs {}

/// A stateless placeholder naming the operator that announces a vehicle's
/// identifier; the announcing is done by the program around this library.
pub struct NamingOperator {}

} // verus!
