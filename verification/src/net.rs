//! Messages of the vehicle's main bus, shared across machines by bridges.
//!
//! Angles are carried as the bit patterns of 32-bit floats: this library
//! passes them on and compares them, but never computes with them.
use vstd::prelude::*;

verus! {

/// The port on which vehicles and ground stations bridge their buses.
pub const AFV_COMM_PORT: u16 = 4040;

/// A pair of 32-bit float bit patterns: pan and tilt, or column and row.
pub type FloatPair = (u32, u32);

#[derive(Clone, Debug)]
pub enum FlirDriverMessage {
    OpenIrStream,
    OpenVisualStream,
    NalPacket(Vec<u8>),
}

#[derive(Clone, Copy, Debug)]
pub enum TurretDriverMessage {
    /// Turn the turret on this port by this much.
    SetAngleChange(u16, FloatPair),
    /// The turret on this port is at this angle.
    Angle(u16, FloatPair),
    /// Turn the turret on this port to this angle.
    SetAbsoluteAngle(u16, FloatPair),
}

#[derive(Clone, Copy, Debug)]
pub enum LidarDriverMessage {
    PollLidar,
    LidarDistanceCm(u32),
}

#[derive(Clone, Copy, Debug)]
pub enum LightsDriverMessage {
    TurnOn,
}

#[derive(Clone, Copy, Debug)]
pub enum PumpDriverMessage {
    TurnOn,
}

#[derive(Clone, Copy, Debug)]
pub enum SirenDriverMessage {
    TurnOn,
}

/// The tunable parameters of the fire detection.
#[derive(Clone, Copy, Debug)]
pub struct FlirOperatorSettings {
    /// A pixel belongs to the fire when its red channel exceeds this.
    pub fliter_value: u8,
    /// How many times the upper half of the signature is narrowed.
    pub interations: u8,
}

impl Default for FlirOperatorSettings {
    /// A threshold of 200 and two narrowings.
    fn default() -> (s: FlirOperatorSettings)
        ensures
            s.fliter_value == 200,
            s.interations == 2,
    {
        FlirOperatorSettings { fliter_value: 200, interations: 2 }
    }
}

/// The result of analysing one infra-red frame.
#[derive(Clone, Copy, Debug)]
pub struct FlirAnalysis {
    pub lower_centroid: FloatPair,
    pub upper_centroid: FloatPair,
    /// How far to turn the camera turret to face the fire.
    pub angle_change: FloatPair,
}

#[derive(Clone, Debug)]
pub enum FlirOperatorMessage {
    Settings(FlirOperatorSettings),
    SetSettings(FlirOperatorSettings),
    Analysis(Option<FlirAnalysis>),
    AutoTarget,
}

#[derive(Clone, Copy, Debug)]
pub enum NozzleOperatorMessage {
    AutoTarget,
}

/// A vehicle's announcement of its identifier.
#[derive(Clone, Copy, Debug)]
pub struct NamingOperatorMessage {
    pub id: u64,
}

/// A message on the vehicle's main bus, by the system it concerns.
#[derive(Clone, Debug)]
pub enum NetMessage {
    FlirDriver(FlirDriverMessage),
    TurretDriver(TurretDriverMessage),
    LidarDriver(LidarDriverMessage),
    PumpDriver(PumpDriverMessage),
    SirenDriver(SirenDriverMessage),
    LightDriver(LightsDriverMessage),
    FlirOperator(FlirOperatorMessage),
    NozzleOperator(NozzleOperatorMessage),
    NamingOperator(NamingOperatorMessage),
}

/// Whether the bit pattern `a` is a NaN of a 32-bit float: all exponent
/// bits set and a fraction that is not zero.
pub open spec fn is_nan_bits(a: u32) -> bool {
    (a & 0x7f80_0000u32) == 0x7f80_0000u32 && (a & 0x007f_ffffu32) != 0u32
}

/// Whether two 32-bit floats, given by their bit patterns, compare equal as
/// floats do: neither is a NaN, and they are the same number, where the two
/// zeros count as one.
pub open spec fn float_eq(a: u32, b: u32) -> bool {
    !is_nan_bits(a) && !is_nan_bits(b) && (a == b || ((a & 0x7fff_ffffu32) == 0u32 && (b
        & 0x7fff_ffffu32) == 0u32))
}

/// Whether two pairs of floats compare equal, component by component.
pub open spec fn pair_eq(a: FloatPair, b: FloatPair) -> bool {
    float_eq(a.0, b.0) && float_eq(a.1, b.1)
}

/// Whether a pair holds a NaN.
pub open spec fn pair_has_nan(a: FloatPair) -> bool {
    is_nan_bits(a.0) || is_nan_bits(a.1)
}

/// Two analyses are the same when all their fields compare equal.
pub open spec fn same_analysis(a: FlirAnalysis, b: FlirAnalysis) -> bool {
    pair_eq(a.lower_centroid, b.lower_centroid) && pair_eq(a.upper_centroid, b.upper_centroid)
        && pair_eq(a.angle_change, b.angle_change)
}

/// Whether a message carries a NaN angle or coordinate; such a message
/// compares unequal even to itself.
pub open spec fn message_has_nan(m: NetMessage) -> bool {
    match m {
        NetMessage::TurretDriver(TurretDriverMessage::SetAngleChange(_, a)) => pair_has_nan(a),
        NetMessage::TurretDriver(TurretDriverMessage::Angle(_, a)) => pair_has_nan(a),
        NetMessage::TurretDriver(TurretDriverMessage::SetAbsoluteAngle(_, a)) => pair_has_nan(a),
        NetMessage::FlirOperator(FlirOperatorMessage::Analysis(Some(a))) => pair_has_nan(
            a.lower_centroid,
        ) || pair_has_nan(a.upper_centroid) || pair_has_nan(a.angle_change),
        _ => false,
    }
}

/// Two settings are the same when both their fields are.
pub open spec fn same_settings(a: FlirOperatorSettings, b: FlirOperatorSettings) -> bool {
    a.fliter_value == b.fliter_value && a.interations == b.interations
}

/// Two messages are the same: same kind, and the same contents, where a
/// byte buffer counts by the bytes it holds.
pub open spec fn same_message(a: NetMessage, b: NetMessage) -> bool {
    match (a, b) {
        (NetMessage::FlirDriver(x), NetMessage::FlirDriver(y)) => match (x, y) {
            (FlirDriverMessage::OpenIrStream, FlirDriverMessage::OpenIrStream) => true,
            (FlirDriverMessage::OpenVisualStream, FlirDriverMessage::OpenVisualStream) => true,
            (FlirDriverMessage::NalPacket(p), FlirDriverMessage::NalPacket(q)) => p@ == q@,
            _ => false,
        },
        (NetMessage::TurretDriver(x), NetMessage::TurretDriver(y)) => match (x, y) {
            (
                TurretDriverMessage::SetAngleChange(p, a),
                TurretDriverMessage::SetAngleChange(q, b),
            ) => p == q && pair_eq(a, b),
            (TurretDriverMessage::Angle(p, a), TurretDriverMessage::Angle(q, b)) => p == q
                && pair_eq(a, b),
            (
                TurretDriverMessage::SetAbsoluteAngle(p, a),
                TurretDriverMessage::SetAbsoluteAngle(q, b),
            ) => p == q && pair_eq(a, b),
            _ => false,
        },
        (NetMessage::LidarDriver(x), NetMessage::LidarDriver(y)) => match (x, y) {
            (LidarDriverMessage::PollLidar, LidarDriverMessage::PollLidar) => true,
            (LidarDriverMessage::LidarDistanceCm(p), LidarDriverMessage::LidarDistanceCm(q)) => p
                == q,
            _ => false,
        },
        (NetMessage::PumpDriver(_), NetMessage::PumpDriver(_)) => true,
        (NetMessage::SirenDriver(_), NetMessage::SirenDriver(_)) => true,
        (NetMessage::LightDriver(_), NetMessage::LightDriver(_)) => true,
        (NetMessage::FlirOperator(x), NetMessage::FlirOperator(y)) => match (x, y) {
            (FlirOperatorMessage::Settings(p), FlirOperatorMessage::Settings(q)) => same_settings(
                p,
                q,
            ),
            (FlirOperatorMessage::SetSettings(p), FlirOperatorMessage::SetSettings(q)) => same_settings(
                p,
                q,
            ),
            (FlirOperatorMessage::Analysis(p), FlirOperatorMessage::Analysis(q)) => match (p, q) {
                (None, None) => true,
                (Some(a), Some(b)) => same_analysis(a, b),
                _ => false,
            },
            (FlirOperatorMessage::AutoTarget, FlirOperatorMessage::AutoTarget) => true,
            _ => false,
        },
        (NetMessage::NozzleOperator(_), NetMessage::NozzleOperator(_)) => true,
        (NetMessage::NamingOperator(x), NetMessage::NamingOperator(y)) => x.id == y.id,
        _ => false,
    }
}

/// Whether two byte buffers hold the same bytes.
pub fn same_bytes(a: &Vec<u8>, b: &Vec<u8>) -> (r: bool)
    ensures
        r == (a@ == b@),
{
    if a.len() != b.len() {
        return false;
    }
    let mut i: usize = 0;
    while i < a.len()
        invariant
            i <= a.len(),
            a.len() == b.len(),
            forall|j: int| 0 <= j < i ==> a@[j] == b@[j],
        decreases a.len() - i,
    {
        if a[i] != b[i] {
            return false;
        }
        i += 1;
    }
    assert(a@ =~= b@);
    true
}

fn float_bits_eq(a: u32, b: u32) -> (r: bool)
    ensures
        r == float_eq(a, b),
{
    let a_nan = (a & 0x7f80_0000u32) == 0x7f80_0000u32 && (a & 0x007f_ffffu32) != 0u32;
    let b_nan = (b & 0x7f80_0000u32) == 0x7f80_0000u32 && (b & 0x007f_ffffu32) != 0u32;
    !a_nan && !b_nan && (a == b || ((a & 0x7fff_ffffu32) == 0u32 && (b & 0x7fff_ffffu32) == 0u32))
}

fn same_pair(a: FloatPair, b: FloatPair) -> (r: bool)
    ensures
        r == pair_eq(a, b),
{
    float_bits_eq(a.0, b.0) && float_bits_eq(a.1, b.1)
}

fn settings_equal(a: &FlirOperatorSettings, b: &FlirOperatorSettings) -> (r: bool)
    ensures
        r == same_settings(*a, *b),
{
    a.fliter_value == b.fliter_value && a.interations == b.interations
}

fn analysis_equal(a: &FlirAnalysis, b: &FlirAnalysis) -> (r: bool)
    ensures
        r == same_analysis(*a, *b),
{
    same_pair(a.lower_centroid, b.lower_centroid) && same_pair(a.upper_centroid, b.upper_centroid)
        && same_pair(a.angle_change, b.angle_change)
}

/// Whether two messages are the same, as `same_message` states.
pub fn messages_equal(a: &NetMessage, b: &NetMessage) -> (r: bool)
    ensures
        r == same_message(*a, *b),
{
    match (a, b) {
        (NetMessage::FlirDriver(x), NetMessage::FlirDriver(y)) => match (x, y) {
            (FlirDriverMessage::OpenIrStream, FlirDriverMessage::OpenIrStream) => true,
            (FlirDriverMessage::OpenVisualStream, FlirDriverMessage::OpenVisualStream) => true,
            (FlirDriverMessage::NalPacket(p), FlirDriverMessage::NalPacket(q)) => same_bytes(p, q),
            _ => false,
        },
        (NetMessage::TurretDriver(x), NetMessage::TurretDriver(y)) => match (x, y) {
            (
                TurretDriverMessage::SetAngleChange(p, a),
                TurretDriverMessage::SetAngleChange(q, b),
            ) => *p == *q && same_pair(*a, *b),
            (TurretDriverMessage::Angle(p, a), TurretDriverMessage::Angle(q, b)) => *p == *q
                && same_pair(*a, *b),
            (
                TurretDriverMessage::SetAbsoluteAngle(p, a),
                TurretDriverMessage::SetAbsoluteAngle(q, b),
            ) => *p == *q && same_pair(*a, *b),
            _ => false,
        },
        (NetMessage::LidarDriver(x), NetMessage::LidarDriver(y)) => match (x, y) {
            (LidarDriverMessage::PollLidar, LidarDriverMessage::PollLidar) => true,
            (LidarDriverMessage::LidarDistanceCm(p), LidarDriverMessage::LidarDistanceCm(q)) => *p
                == *q,
            _ => false,
        },
        (NetMessage::PumpDriver(_), NetMessage::PumpDriver(_)) => true,
        (NetMessage::SirenDriver(_), NetMessage::SirenDriver(_)) => true,
        (NetMessage::LightDriver(_), NetMessage::LightDriver(_)) => true,
        (NetMessage::FlirOperator(x), NetMessage::FlirOperator(y)) => match (x, y) {
            (FlirOperatorMessage::Settings(p), FlirOperatorMessage::Settings(q)) => settings_equal(
                p,
                q,
            ),
            (FlirOperatorMessage::SetSettings(p), FlirOperatorMessage::SetSettings(q)) => settings_equal(
                p,
                q,
            ),
            (FlirOperatorMessage::Analysis(p), FlirOperatorMessage::Analysis(q)) => match (p, q) {
                (None, None) => true,
                (Some(a), Some(b)) => analysis_equal(a, b),
                _ => false,
            },
            (FlirOperatorMessage::AutoTarget, FlirOperatorMessage::AutoTarget) => true,
            _ => false,
        },
        (NetMessage::NozzleOperator(_), NetMessage::NozzleOperator(_)) => true,
        (NetMessage::NamingOperator(x), NetMessage::NamingOperator(y)) => x.id == y.id,
        _ => false,
    }
}

/// Whether a pair holds a zero of either sign.
pub open spec fn pair_has_zero(a: FloatPair) -> bool {
    (a.0 & 0x7fff_ffffu32) == 0u32 || (a.1 & 0x7fff_ffffu32) == 0u32
}

/// Whether a message carries an angle or coordinate that is a zero of
/// either sign; the two zeros compare equal though their bits differ.
pub open spec fn message_has_zero(m: NetMessage) -> bool {
    match m {
        NetMessage::TurretDriver(TurretDriverMessage::SetAngleChange(_, a)) => pair_has_zero(a),
        NetMessage::TurretDriver(TurretDriverMessage::Angle(_, a)) => pair_has_zero(a),
        NetMessage::TurretDriver(TurretDriverMessage::SetAbsoluteAngle(_, a)) => pair_has_zero(a),
        NetMessage::FlirOperator(FlirOperatorMessage::Analysis(Some(a))) => pair_has_zero(
            a.lower_centroid,
        ) || pair_has_zero(a.upper_centroid) || pair_has_zero(a.angle_change),
        _ => false,
    }
}

/// Two messages compare equal only when they are the same message: same
/// kind and the same contents, field by field. The exceptions are the
/// ones that floats and byte buffers bring: a zero angle equals the zero of
/// the other sign, and video packets compare by the bytes they hold.
pub proof fn lemma_same_message_is_equality(a: NetMessage, b: NetMessage)
    ensures
        same_message(a, b) && !message_has_zero(a) && !(a matches NetMessage::FlirDriver(
            FlirDriverMessage::NalPacket(_),
        )) ==> a == b,
        a matches NetMessage::FlirDriver(FlirDriverMessage::NalPacket(p)) ==> (same_message(a, b)
            <==> (b matches NetMessage::FlirDriver(FlirDriverMessage::NalPacket(q)) && p@ == q@)),
{
}

/// `same_message` is symmetric, and reflexive on messages without a NaN.
pub proof fn lemma_same_message_equivalence(a: NetMessage, b: NetMessage)
    ensures
        !message_has_nan(a) ==> same_message(a, a),
        same_message(a, b) == same_message(b, a),
{
}

/// Whether a bridge whose last message from the other side was `last`
/// sends `m` across: it does unless `m` compares equal to `last`.
pub open spec fn echo_forwards(last: NetMessage, m: NetMessage) -> bool {
    !same_message(m, last)
}

/// The echo suppression of a bus bridge: the message that last came in from
/// the other side is not sent back to it.
#[derive(Clone, Debug)]
pub struct EchoFilter {
    /// The message that last came in across the bridge.
    pub last_received: NetMessage,
}

impl EchoFilter {
    /// A bridge that has received nothing yet; it starts out as if it had
    /// received the announcement of vehicle 0.
    pub fn new() -> (f: EchoFilter)
        ensures
            f.last_received == NetMessage::NamingOperator(NamingOperatorMessage { id: 0 }),
    {
        EchoFilter { last_received: NetMessage::NamingOperator(NamingOperatorMessage { id: 0 }) }
    }

    /// A message came in across the bridge.
    pub fn received(&mut self, m: NetMessage)
        ensures
            final(self).last_received == m,
    {
        self.last_received = m;
    }

    /// Whether a message from the local bus is sent across: it is, unless it
    /// compares equal to the message that last came in.
    pub fn forwards(&self, m: &NetMessage) -> (r: bool)
        ensures
            r == echo_forwards(self.last_received, *m),
    {
        !messages_equal(m, &self.last_received)
    }
}

/// A message that has just come in across a bridge is not sent back to the
/// side it came from, as long as it holds no NaN (a NaN compares unequal to
/// itself, so such a message goes back).
pub proof fn lemma_no_echo(m: NetMessage)
    requires
        !message_has_nan(m),
    ensures
        !echo_forwards(m, m),
{
}

/// The identifier that a ground station believes a vehicle has, after
/// seeing a message: announcements replace it, other messages leave it.
pub fn naming_update(current: u64, m: &NetMessage) -> (r: u64)
    ensures
        r == (match *m {
            NetMessage::NamingOperator(n) => n.id,
            _ => current,
        }),
{
    match m {
        NetMessage::NamingOperator(n) => n.id,
        _ => current,
    }
}

/// The settings that the fire detection adopts after seeing a message:
/// an order to change settings replaces them.
pub fn settings_update(current: FlirOperatorSettings, m: &NetMessage) -> (r: FlirOperatorSettings)
    ensures
        r == (match *m {
            NetMessage::FlirOperator(FlirOperatorMessage::SetSettings(s)) => s,
            _ => current,
        }),
{
    match m {
        NetMessage::FlirOperator(FlirOperatorMessage::SetSettings(s)) => FlirOperatorSettings {
            fliter_value: s.fliter_value,
            interations: s.interations,
        },
        _ => current,
    }
}

/// The settings announcement that the fire detection sends on the bus.
pub fn settings_announcement(s: &FlirOperatorSettings) -> (m: NetMessage)
    ensures
        m == NetMessage::FlirOperator(FlirOperatorMessage::Settings(*s)),
{
    NetMessage::FlirOperator(
        FlirOperatorMessage::Settings(
            FlirOperatorSettings { fliter_value: s.fliter_value, interations: s.interations },
        ),
    )
}

} // verus!
