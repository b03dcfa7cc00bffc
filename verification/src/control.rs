//! The decisions of the vehicle's drivers and operators: when the pump,
//! lights and siren run, when the camera streams, when auto-targeting is on,
//! and the sequences by which the turrets are commanded.
//!
//! Times are milliseconds on a clock of the caller's choosing. Angles are
//! bit patterns of 32-bit floats that are handed back to the caller for the
//! arithmetic.
use vstd::prelude::*;
use crate::net::{
    FloatPair, FlirDriverMessage, FlirOperatorMessage, LidarDriverMessage, LightsDriverMessage,
    NetMessage, NozzleOperatorMessage, PumpDriverMessage, SirenDriverMessage, TurretDriverMessage,
};

verus! {

/// How long a turn-on command keeps the pump, lights or siren running.
pub const COMMAND_INTERVAL_MS: u64 = 1000;

/// How long a stream request keeps the camera stream on the bus.
pub const STREAM_WINDOW_MS: u64 = 3000;

/// How long an auto-target request keeps the camera operator targeting.
pub const AUTO_TARGET_REQUEST_INTERVAL_MS: u64 = 1000;

/// Time passed from `since` to `now`; zero when `since` lies ahead.
pub open spec fn elapsed(now: u64, since: u64) -> u64 {
    if now >= since {
        (now - since) as u64
    } else {
        0
    }
}

/// Time passed from `since` to `now`, as `elapsed` states.
pub fn elapsed_ms(now: u64, since: u64) -> (r: u64)
    ensures
        r == elapsed(now, since),
{
    if now >= since {
        now - since
    } else {
        0
    }
}

/// A device that runs only while it keeps being told to.
#[derive(Clone, Copy, Debug)]
pub enum Device {
    Pump,
    Lights,
    Siren,
}

/// Whether `m` tells `d` to turn on.
pub open spec fn is_turn_on(d: Device, m: NetMessage) -> bool {
    match d {
        Device::Pump => m matches NetMessage::PumpDriver(PumpDriverMessage::TurnOn),
        Device::Lights => m matches NetMessage::LightDriver(LightsDriverMessage::TurnOn),
        Device::Siren => m matches NetMessage::SirenDriver(SirenDriverMessage::TurnOn),
    }
}

/// The driver of a pump, lights or siren: the device runs while a turn-on
/// command arrived less than `COMMAND_INTERVAL_MS` ago.
pub struct CommandLatch {
    pub device: Device,
    /// When the last turn-on command arrived.
    pub last_cmd: u64,
}

impl CommandLatch {
    /// The latch after a message that arrived at time `now`: a turn-on
    /// command for its device resets the time of the last command.
    pub open spec fn after_message(self, m: NetMessage, now: u64) -> CommandLatch {
        CommandLatch {
            device: self.device,
            last_cmd: if is_turn_on(self.device, m) {
                now
            } else {
                self.last_cmd
            },
        }
    }

    /// Whether the device is told to run at time `now`.
    pub open spec fn runs_at(self, now: u64) -> bool {
        elapsed(now, self.last_cmd) < COMMAND_INTERVAL_MS
    }

    /// A driver started at time `now`.
    pub fn new(device: Device, now: u64) -> (l: CommandLatch)
        ensures
            l.device == device,
            l.last_cmd == now,
    {
        CommandLatch { device, last_cmd: now }
    }

    /// Handles a message from the bus at time `now`.
    pub fn on_message(&mut self, m: &NetMessage, now: u64)
        ensures
            *final(self) == old(self).after_message(*m, now),
    {
        let on = match self.device {
            Device::Pump => matches!(m, NetMessage::PumpDriver(PumpDriverMessage::TurnOn)),
            Device::Lights => matches!(m, NetMessage::LightDriver(LightsDriverMessage::TurnOn)),
            Device::Siren => matches!(m, NetMessage::SirenDriver(SirenDriverMessage::TurnOn)),
        };
        if on {
            self.last_cmd = now;
        }
    }

    /// Whether the device is told to run at time `now` (otherwise it is
    /// told to stop).
    pub fn command(&self, now: u64) -> (on: bool)
        ensures
            on == self.runs_at(now),
    {
        elapsed_ms(now, self.last_cmd) < COMMAND_INTERVAL_MS
    }
}

/// Decides when one camera stream is put on the bus: while the last request
/// for it is younger than `STREAM_WINDOW_MS`.
pub struct StreamGate {
    /// Whether this is the infra-red stream (else the visual one).
    pub infra_red: bool,
    /// When the last request arrived.
    pub last_poll: u64,
}

/// Whether `m` requests the infra-red stream (`ir`) or the visual one.
pub open spec fn is_stream_request(ir: bool, m: NetMessage) -> bool {
    if ir {
        m matches NetMessage::FlirDriver(FlirDriverMessage::OpenIrStream)
    } else {
        m matches NetMessage::FlirDriver(FlirDriverMessage::OpenVisualStream)
    }
}

impl StreamGate {
    /// A stream gate after a message that arrived at time `now`: asking for its
    /// stream resets the time of the last poll.
    pub open spec fn after_message(self, m: NetMessage, now: u64) -> StreamGate {
        StreamGate {
            infra_red: self.infra_red,
            last_poll: if is_stream_request(self.infra_red, m) {
                now
            } else {
                self.last_poll
            },
        }
    }

    /// Whether frames go on the bus at time `now`.
    pub open spec fn open_at(self, now: u64) -> bool {
        elapsed(now, self.last_poll) < STREAM_WINDOW_MS
    }

    /// A gate opened at time `now`.
    pub fn new(infra_red: bool, now: u64) -> (g: StreamGate)
        ensures
            g.infra_red == infra_red,
            g.last_poll == now,
    {
        StreamGate { infra_red, last_poll: now }
    }

    /// Handles a message from the bus at time `now`.
    pub fn on_message(&mut self, m: &NetMessage, now: u64)
        ensures
            *final(self) == old(self).after_message(*m, now),
    {
        let req = if self.infra_red {
            matches!(m, NetMessage::FlirDriver(FlirDriverMessage::OpenIrStream))
        } else {
            matches!(m, NetMessage::FlirDriver(FlirDriverMessage::OpenVisualStream))
        };
        if req {
            self.last_poll = now;
        }
    }

    /// Whether frames go on the bus at time `now`.
    pub fn open(&self, now: u64) -> (r: bool)
        ensures
            r == self.open_at(now),
    {
        elapsed_ms(now, self.last_poll) < STREAM_WINDOW_MS
    }
}

/// What the camera operator does with a message while auto-targeting.
#[derive(Clone, Copy, Debug)]
pub enum AutoTargetAction {
    Nothing,
    /// Turn the camera turret on this port by this much.
    Turn(u16, FloatPair),
    /// No fire in sight: sweep the camera turret.
    Sweep,
}

/// The auto-targeting of the camera operator: it is on while requests keep
/// arriving, at most `AUTO_TARGET_REQUEST_INTERVAL_MS` apart.
pub struct FlirAutoTarget {
    /// The port of the camera turret.
    pub turret_port: u16,
    /// When the last request arrived.
    pub last_request: u64,
}

impl FlirAutoTarget {
    /// The operator after a message that arrived at time `now`: an
    /// auto-target request resets the time of the last request.
    pub open spec fn after_message(self, m: NetMessage, now: u64) -> FlirAutoTarget {
        FlirAutoTarget {
            turret_port: self.turret_port,
            last_request: if m matches NetMessage::FlirOperator(FlirOperatorMessage::AutoTarget) {
                now
            } else {
                self.last_request
            },
        }
    }

    /// Whether auto-targeting is on at time `now`.
    pub open spec fn active_at(self, now: u64) -> bool {
        elapsed(now, self.last_request) <= AUTO_TARGET_REQUEST_INTERVAL_MS
    }

    /// An operator started at time `now`.
    pub fn new(turret_port: u16, now: u64) -> (a: FlirAutoTarget)
        ensures
            a.turret_port == turret_port,
            a.last_request == now,
    {
        FlirAutoTarget { turret_port, last_request: now }
    }

    /// Records a request that arrived at time `now`, if `m` is one.
    pub fn on_message(&mut self, m: &NetMessage, now: u64)
        ensures
            *final(self) == old(self).after_message(*m, now),
    {
        if let NetMessage::FlirOperator(FlirOperatorMessage::AutoTarget) = m {
            self.last_request = now;
        }
    }

    /// Whether auto-targeting is on at time `now`.
    pub fn active(&self, now: u64) -> (r: bool)
        ensures
            r == self.active_at(now),
    {
        elapsed_ms(now, self.last_request) <= AUTO_TARGET_REQUEST_INTERVAL_MS
    }

    /// The response to a message while auto-targeting is on: an analysis
    /// that found a fire turns the turret by the analysis's angle; one that
    /// found none makes the turret sweep.
    pub fn respond(&self, m: &NetMessage) -> (a: AutoTargetAction)
        ensures
            a == (match *m {
                NetMessage::FlirOperator(FlirOperatorMessage::Analysis(Some(an))) => AutoTargetAction::Turn(
                    self.turret_port,
                    an.angle_change,
                ),
                NetMessage::FlirOperator(FlirOperatorMessage::Analysis(None)) => AutoTargetAction::Sweep,
                _ => AutoTargetAction::Nothing,
            }),
    {
        match m {
            NetMessage::FlirOperator(FlirOperatorMessage::Analysis(Some(an))) => AutoTargetAction::Turn(
                self.turret_port,
                an.angle_change,
            ),
            NetMessage::FlirOperator(FlirOperatorMessage::Analysis(None)) => AutoTargetAction::Sweep,
            _ => AutoTargetAction::Nothing,
        }
    }
}

/// The turn command for the camera turret.
pub fn turn_command(a: &AutoTargetAction) -> (m: Option<NetMessage>)
    ensures
        m == (match *a {
            AutoTargetAction::Turn(p, c) => Some(
                NetMessage::TurretDriver(TurretDriverMessage::SetAngleChange(p, c)),
            ),
            _ => None,
        }),
{
    match a {
        AutoTargetAction::Turn(p, c) => Some(
            NetMessage::TurretDriver(TurretDriverMessage::SetAngleChange(*p, *c)),
        ),
        _ => None,
    }
}

/// A turn-on command arriving at `now` keeps the pump, lights or siren
/// running at every later time less than `COMMAND_INTERVAL_MS` after it, and
/// from then on the device is told to stop until another command comes;
/// any other message leaves the driver as it was.
pub proof fn lemma_command_window(l: CommandLatch, m: NetMessage, now: u64, later: u64)
    requires
        now <= later,
    ensures
        is_turn_on(l.device, m) ==> (l.after_message(m, now).runs_at(later) <==> later - now
            < COMMAND_INTERVAL_MS),
        !is_turn_on(l.device, m) ==> l.after_message(m, now) == l,
{
}

/// A poll for a camera stream arriving at `now` keeps that stream on the
/// bus at every later time less than `STREAM_WINDOW_MS` after it, and then
/// stops it until another poll comes; a poll of the other stream, or any
/// other message, changes nothing.
pub proof fn lemma_stream_window(g: StreamGate, m: NetMessage, now: u64, later: u64)
    requires
        now <= later,
    ensures
        is_stream_request(g.infra_red, m) ==> (g.after_message(m, now).open_at(later) <==> later
            - now < STREAM_WINDOW_MS),
        !is_stream_request(g.infra_red, m) ==> g.after_message(m, now) == g,
{
}

/// An auto-target request arriving at `now` keeps auto-targeting on up to
/// and including `AUTO_TARGET_REQUEST_INTERVAL_MS` after it, and then off
/// until another request comes; any other message changes nothing.
pub proof fn lemma_auto_target_window(a: FlirAutoTarget, m: NetMessage, now: u64, later: u64)
    requires
        now <= later,
    ensures
        (m matches NetMessage::FlirOperator(FlirOperatorMessage::AutoTarget)) ==> (a.after_message(
            m,
            now,
        ).active_at(later) <==> later - now <= AUTO_TARGET_REQUEST_INTERVAL_MS),
        !(m matches NetMessage::FlirOperator(FlirOperatorMessage::AutoTarget)) ==> a.after_message(
            m,
            now,
        ) == a,
{
}

/// Where the nozzle operator is in its engagement sequence.
pub enum NozzlePhase {
    /// Waiting for an order to engage.
    AwaitOrder,
    /// Waiting for the camera to lock on to the fire.
    AwaitLock,
    /// Waiting for the pan angle of the camera turret.
    AwaitCameraAngle,
    /// Waiting for the distance to the fire, with the camera's pan angle.
    AwaitDistance(u32),
}

/// A firing solution is due: aim the nozzle from the camera's pan angle and
/// the distance to the fire.
#[derive(Clone, Copy, Debug)]
pub struct FiringRequest {
    pub camera_pan: u32,
    pub distance_cm: u32,
}

/// The nozzle operator: on an order to engage, it waits for the camera to
/// lock on, then reads the camera turret's pan angle and the lidar distance,
/// and asks for a firing solution.
pub struct NozzleSequence {
    pub camera_turret_port: u16,
    pub phase: NozzlePhase,
}

/// The phase and request after one message. `locked` says whether the
/// analysis that the message carries counts as locked on.
pub open spec fn nozzle_step(port: u16, phase: NozzlePhase, m: NetMessage, locked: bool) -> (
    NozzlePhase,
    Option<FiringRequest>,
) {
    match phase {
        NozzlePhase::AwaitOrder => if m matches NetMessage::NozzleOperator(
            NozzleOperatorMessage::AutoTarget,
        ) {
            (NozzlePhase::AwaitLock, None)
        } else {
            (phase, None)
        },
        NozzlePhase::AwaitLock => if (m matches NetMessage::FlirOperator(
            FlirOperatorMessage::Analysis(Some(_)),
        )) && locked {
            (NozzlePhase::AwaitCameraAngle, None)
        } else {
            (phase, None)
        },
        NozzlePhase::AwaitCameraAngle => match m {
            NetMessage::TurretDriver(TurretDriverMessage::Angle(p, a)) => if p == port {
                (NozzlePhase::AwaitDistance(a.0), None)
            } else {
                (phase, None)
            },
            _ => (phase, None),
        },
        NozzlePhase::AwaitDistance(pan) => match m {
            NetMessage::LidarDriver(LidarDriverMessage::LidarDistanceCm(d)) => (
                NozzlePhase::AwaitOrder,
                Some(FiringRequest { camera_pan: pan, distance_cm: d }),
            ),
            _ => (phase, None),
        },
    }
}

impl NozzleSequence {
    /// An operator waiting for an order.
    pub fn new(camera_turret_port: u16) -> (s: NozzleSequence)
        ensures
            s.camera_turret_port == camera_turret_port,
            s.phase is AwaitOrder,
    {
        NozzleSequence { camera_turret_port, phase: NozzlePhase::AwaitOrder }
    }

    /// Handles a message from the bus. `locked` says whether the analysis in
    /// the message, if it carries one, is locked on to the fire. Returns the
    /// firing request that completes a sequence, if this message does.
    pub fn step(&mut self, m: &NetMessage, locked: bool) -> (r: Option<FiringRequest>)
        ensures
            final(self).camera_turret_port == old(self).camera_turret_port,
            (final(self).phase, r) == nozzle_step(
                old(self).camera_turret_port,
                old(self).phase,
                *m,
                locked,
            ),
    {
        match self.phase {
            NozzlePhase::AwaitOrder => {
                if let NetMessage::NozzleOperator(NozzleOperatorMessage::AutoTarget) = m {
                    self.phase = NozzlePhase::AwaitLock;
                }
                None
            },
            NozzlePhase::AwaitLock => {
                if let NetMessage::FlirOperator(FlirOperatorMessage::Analysis(Some(_))) = m {
                    if locked {
                        self.phase = NozzlePhase::AwaitCameraAngle;
                    }
                }
                None
            },
            NozzlePhase::AwaitCameraAngle => {
                if let NetMessage::TurretDriver(TurretDriverMessage::Angle(p, a)) = m {
                    if *p == self.camera_turret_port {
                        self.phase = NozzlePhase::AwaitDistance(a.0);
                    }
                }
                None
            },
            NozzlePhase::AwaitDistance(pan) => {
                if let NetMessage::LidarDriver(LidarDriverMessage::LidarDistanceCm(d)) = m {
                    self.phase = NozzlePhase::AwaitOrder;
                    Some(FiringRequest { camera_pan: pan, distance_cm: *d })
                } else {
                    None
                }
            },
        }
    }
}

/// The messages that engage the fire once a firing request has been turned
/// into angles for the nozzle turret on `nozzle_port`: first the turret is
/// sent to those angles, then the pump is turned on.
pub fn engage_commands(nozzle_port: u16, angles: FloatPair) -> (r: Vec<NetMessage>)
    ensures
        r@ == seq![
            NetMessage::TurretDriver(TurretDriverMessage::SetAbsoluteAngle(nozzle_port, angles)),
            NetMessage::PumpDriver(PumpDriverMessage::TurnOn),
        ],
{
    let mut r: Vec<NetMessage> = Vec::new();
    r.push(NetMessage::TurretDriver(TurretDriverMessage::SetAbsoluteAngle(nozzle_port, angles)));
    r.push(NetMessage::PumpDriver(PumpDriverMessage::TurnOn));
    r
}

/// Each step of the nozzle sequence moves on only on its own message and
/// ignores every other: an order to engage while waiting for one; an
/// analysis that found a fire and is locked on while waiting for the lock;
/// an angle report of the camera turret, whose pan is recorded, while
/// waiting for the camera's angle (a turn command for that turret is not
/// one); and a lidar distance while waiting for it, which makes the firing
/// request from the recorded pan and that distance.
pub proof fn lemma_nozzle_phases_advance_only_on_their_message(
    port: u16,
    m: NetMessage,
    locked: bool,
    pan: u32,
)
    ensures
        !(m matches NetMessage::NozzleOperator(NozzleOperatorMessage::AutoTarget))
            ==> nozzle_step(port, NozzlePhase::AwaitOrder, m, locked) == (
            NozzlePhase::AwaitOrder,
            None::<FiringRequest>,
        ),
        (m matches NetMessage::NozzleOperator(NozzleOperatorMessage::AutoTarget)) ==> nozzle_step(
            port,
            NozzlePhase::AwaitOrder,
            m,
            locked,
        ) == (NozzlePhase::AwaitLock, None::<FiringRequest>),
        !((m matches NetMessage::FlirOperator(FlirOperatorMessage::Analysis(Some(_)))) && locked)
            ==> nozzle_step(port, NozzlePhase::AwaitLock, m, locked) == (
            NozzlePhase::AwaitLock,
            None::<FiringRequest>,
        ),
        ((m matches NetMessage::FlirOperator(FlirOperatorMessage::Analysis(Some(_)))) && locked)
            ==> nozzle_step(port, NozzlePhase::AwaitLock, m, locked) == (
            NozzlePhase::AwaitCameraAngle,
            None::<FiringRequest>,
        ),
        !(m matches NetMessage::TurretDriver(TurretDriverMessage::Angle(p, _)) && p == port)
            ==> nozzle_step(port, NozzlePhase::AwaitCameraAngle, m, locked) == (
            NozzlePhase::AwaitCameraAngle,
            None::<FiringRequest>,
        ),
        forall|a: FloatPair|
            nozzle_step(
                port,
                NozzlePhase::AwaitCameraAngle,
                NetMessage::TurretDriver(TurretDriverMessage::Angle(port, a)),
                locked,
            ) == (NozzlePhase::AwaitDistance(a.0), None::<FiringRequest>),
        !(m matches NetMessage::LidarDriver(LidarDriverMessage::LidarDistanceCm(_))) ==> nozzle_step(
            port,
            NozzlePhase::AwaitDistance(pan),
            m,
            locked,
        ) == (NozzlePhase::AwaitDistance(pan), None::<FiringRequest>),
        forall|d: u32|
            nozzle_step(
                port,
                NozzlePhase::AwaitDistance(pan),
                NetMessage::LidarDriver(LidarDriverMessage::LidarDistanceCm(d)),
                locked,
            ) == (NozzlePhase::AwaitOrder, Some(FiringRequest { camera_pan: pan, distance_cm: d })),
{
}

/// A firing request is only ever made at the end of a sequence, after which
/// the operator waits for a new order.
pub proof fn lemma_firing_request_ends_sequence(
    port: u16,
    phase: NozzlePhase,
    m: NetMessage,
    locked: bool,
)
    requires
        nozzle_step(port, phase, m, locked).1 is Some,
    ensures
        phase is AwaitDistance,
        nozzle_step(port, phase, m, locked).0 is AwaitOrder,
        m matches NetMessage::LidarDriver(LidarDriverMessage::LidarDistanceCm(d)) && nozzle_step(
            port,
            phase,
            m,
            locked,
        ).1 == Some(FiringRequest { camera_pan: phase->0, distance_cm: d }),
{
}

/// Where a turret driver is in handling angle commands.
pub enum StepperPhase {
    /// No relative turn is pending.
    Idle,
    /// A relative turn by this much waits for the turret's current angle.
    AwaitAngle(FloatPair),
}

/// What a turret driver sends to its turret.
#[derive(Clone, Copy, Debug)]
pub enum StepperAction {
    Nothing,
    /// Go to this angle.
    SetAbsolute(FloatPair),
    /// Go to the current angle plus the change; then listen afresh.
    SetRelative { current: FloatPair, change: FloatPair },
}

/// The phase and action of a turret driver after one message. While no
/// relative turn is pending, every command for the driver's port is taken:
/// an absolute turn is sent at once, and a relative turn is held until the
/// turret next reports its angle. While a relative turn is held, the driver
/// waits for that report alone: the report for its port carries out the
/// turn from the reported angle, and every other message is let pass.
pub open spec fn stepper_step(port: u16, phase: StepperPhase, m: NetMessage) -> (
    StepperPhase,
    StepperAction,
) {
    match phase {
        StepperPhase::Idle => match m {
            NetMessage::TurretDriver(TurretDriverMessage::SetAbsoluteAngle(p, a)) if p == port => (
                StepperPhase::Idle,
                StepperAction::SetAbsolute(a),
            ),
            NetMessage::TurretDriver(TurretDriverMessage::SetAngleChange(p, c)) if p == port => (
                StepperPhase::AwaitAngle(c),
                StepperAction::Nothing,
            ),
            _ => (phase, StepperAction::Nothing),
        },
        StepperPhase::AwaitAngle(c) => match m {
            NetMessage::TurretDriver(TurretDriverMessage::Angle(p, a)) if p == port => (
                StepperPhase::Idle,
                StepperAction::SetRelative { current: a, change: c },
            ),
            _ => (phase, StepperAction::Nothing),
        },
    }
}

/// The command handling of the driver of the turret on `port`.
pub struct TurretStepper {
    pub port: u16,
    pub phase: StepperPhase,
}

impl TurretStepper {
    /// A driver that has just started.
    pub fn new(port: u16) -> (s: TurretStepper)
        ensures
            s.port == port,
            s.phase is Idle,
    {
        TurretStepper { port, phase: StepperPhase::Idle }
    }

    /// Handles a message from the bus.
    pub fn step(&mut self, m: &NetMessage) -> (a: StepperAction)
        ensures
            final(self).port == old(self).port,
            (final(self).phase, a) == stepper_step(old(self).port, old(self).phase, *m),
    {
        match self.phase {
            StepperPhase::Idle => match m {
                NetMessage::TurretDriver(TurretDriverMessage::SetAbsoluteAngle(p, a)) => {
                    if *p == self.port {
                        return StepperAction::SetAbsolute(*a);
                    }
                    StepperAction::Nothing
                },
                NetMessage::TurretDriver(TurretDriverMessage::SetAngleChange(p, c)) => {
                    if *p == self.port {
                        self.phase = StepperPhase::AwaitAngle(*c);
                    }
                    StepperAction::Nothing
                },
                _ => StepperAction::Nothing,
            },
            StepperPhase::AwaitAngle(c) => {
                if let NetMessage::TurretDriver(TurretDriverMessage::Angle(p, a)) = m {
                    if *p == self.port {
                        self.phase = StepperPhase::Idle;
                        return StepperAction::SetRelative { current: *a, change: c };
                    }
                }
                StepperAction::Nothing
            },
        }
    }
}

/// An idle turret driver takes every command for its own port: an absolute
/// turn is sent at once, and a relative turn is held. A held relative turn
/// is carried out, exactly once, at the next angle report for the port,
/// from the reported angle; until then nothing is sent and nothing else is
/// taken.
pub proof fn lemma_stepper_takes_every_command(
    port: u16,
    a: FloatPair,
    c: FloatPair,
    current: FloatPair,
    m: NetMessage,
)
    ensures
        stepper_step(port, StepperPhase::Idle, NetMessage::TurretDriver(TurretDriverMessage::SetAbsoluteAngle(port, a)))
            == (StepperPhase::Idle, StepperAction::SetAbsolute(a)),
        stepper_step(port, StepperPhase::Idle, NetMessage::TurretDriver(TurretDriverMessage::SetAngleChange(port, c)))
            == (StepperPhase::AwaitAngle(c), StepperAction::Nothing),
        stepper_step(
            port,
            StepperPhase::AwaitAngle(c),
            NetMessage::TurretDriver(TurretDriverMessage::Angle(port, current)),
        ) == (StepperPhase::Idle, StepperAction::SetRelative { current, change: c }),
        !(m matches NetMessage::TurretDriver(TurretDriverMessage::Angle(p, _)) && p == port)
            ==> stepper_step(port, StepperPhase::AwaitAngle(c), m) == (
            StepperPhase::AwaitAngle(c),
            StepperAction::Nothing,
        ),
{
}

/// A turret driver only ever moves its turret in answer to a command or
/// angle report for its own port, and it moves it to the commanded angle or
/// by the commanded change.
pub proof fn lemma_stepper_moves_only_own_turret(port: u16, phase: StepperPhase, m: NetMessage)
    requires
        !(stepper_step(port, phase, m).1 is Nothing),
    ensures
        match stepper_step(port, phase, m).1 {
            StepperAction::SetAbsolute(a) => m == NetMessage::TurretDriver(
                TurretDriverMessage::SetAbsoluteAngle(port, a),
            ),
            StepperAction::SetRelative { current, change } => phase == StepperPhase::AwaitAngle(
                change,
            ) && m == NetMessage::TurretDriver(TurretDriverMessage::Angle(port, current)),
            StepperAction::Nothing => false,
        },
{
}

} // verus!
