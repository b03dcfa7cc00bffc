//! Messages of the shared control bus, and the decisions that the elements
//! on it make about them: which messages a network bridge lets through,
//! which vehicles a ground station knows of, and when a vehicle streams its
//! infra-red camera.
//!
//! Times are milliseconds on a clock of the caller's choosing.
use vstd::prelude::*;

verus! {

/// The identifier of a vehicle.
pub type AfvUuid = u16;

/// How long a request for the camera stream keeps the stream open.
pub const FLIR_TIME_MS: u64 = 3000;

/// How long an auto-target request from the ground station stays valid.
pub const AUTO_TARGET_REQUEST_MS: u64 = 3000;

/// Messages that travel between machines. Angles and distances are carried
/// as the bit patterns of 32-bit floats.
#[derive(Clone, Debug)]
pub enum NetworkMessages {
    PollAfvUuid,
    AfvUuid(AfvUuid),
    FlirStream(AfvUuid),
    NalPacket(Vec<u8>),
    FlirFilterLevel(AfvUuid, u8),
    FlirTargetIterations(AfvUuid, u32),
    PollFlirAngle(AfvUuid),
    PollDistance(AfvUuid),
    FlirAngle(AfvUuid, u32, u32),
    Distance(AfvUuid, u32),
    PollFiringSolution(AfvUuid),
    /// Only the ground station sends this.
    AutoTarget(AfvUuid),
}

/// Messages that stay on one machine.
#[derive(Clone, Debug)]
pub enum LocalMessages {
    SelectedAfv(AfvUuid),
    FlirStream(AfvUuid),
    NalPacket(Vec<u8>),
    FlirFilterLevel(AfvUuid, u8),
    FlirTargetIterations(AfvUuid, u32),
}

/// A message on the control bus.
#[derive(Clone, Debug)]
pub enum AfvCtlMessage {
    Network(NetworkMessages),
    Local(LocalMessages),
}

/// The vehicle that a network message is addressed to, if it is addressed
/// to one.
pub open spec fn target_afv(m: NetworkMessages) -> Option<AfvUuid> {
    match m {
        NetworkMessages::FlirStream(u) => Some(u),
        NetworkMessages::FlirFilterLevel(u, _) => Some(u),
        NetworkMessages::FlirTargetIterations(u, _) => Some(u),
        NetworkMessages::PollFlirAngle(u) => Some(u),
        NetworkMessages::PollDistance(u) => Some(u),
        NetworkMessages::FlirAngle(u, _, _) => Some(u),
        NetworkMessages::Distance(u, _) => Some(u),
        NetworkMessages::PollFiringSolution(u) => Some(u),
        NetworkMessages::AutoTarget(u) => Some(u),
        NetworkMessages::PollAfvUuid => None,
        NetworkMessages::AfvUuid(_) => None,
        NetworkMessages::NalPacket(_) => None,
    }
}

impl NetworkMessages {
    /// The vehicle that this message is addressed to, if any.
    pub fn target_afv(&self) -> (r: Option<AfvUuid>)
        ensures
            r == target_afv(*self),
    {
        match self {
            NetworkMessages::FlirStream(u) => Some(*u),
            NetworkMessages::FlirFilterLevel(u, _) => Some(*u),
            NetworkMessages::FlirTargetIterations(u, _) => Some(*u),
            NetworkMessages::PollFlirAngle(u) => Some(*u),
            NetworkMessages::PollDistance(u) => Some(*u),
            NetworkMessages::FlirAngle(u, _, _) => Some(*u),
            NetworkMessages::Distance(u, _) => Some(*u),
            NetworkMessages::PollFiringSolution(u) => Some(*u),
            NetworkMessages::AutoTarget(u) => Some(*u),
            NetworkMessages::PollAfvUuid => None,
            NetworkMessages::AfvUuid(_) => None,
            NetworkMessages::NalPacket(_) => None,
        }
    }
}

/// Whether a bridge that knows its peer is `peer` sends `m` across: only
/// network messages cross, and once the peer is known, a message addressed
/// to another vehicle does not.
pub open spec fn bridge_forwards(peer: Option<AfvUuid>, m: AfvCtlMessage) -> bool {
    match m {
        AfvCtlMessage::Network(n) => match (peer, target_afv(n)) {
            (Some(p), Some(t)) => p == t,
            _ => true,
        },
        AfvCtlMessage::Local(_) => false,
    }
}

/// What a network bridge knows about the vehicle at its other end.
pub struct BridgeFilter {
    /// The vehicle at the other end, once it has announced itself.
    pub afv_uuid: Option<AfvUuid>,
}

impl BridgeFilter {
    /// A bridge that does not know its peer yet.
    pub fn new() -> (f: BridgeFilter)
        ensures
            f.afv_uuid is None,
    {
        BridgeFilter { afv_uuid: None }
    }

    /// Whether a message from the local bus is sent across the bridge.
    pub fn forwards(&self, m: &AfvCtlMessage) -> (r: bool)
        ensures
            r == bridge_forwards(self.afv_uuid, *m),
    {
        match m {
            AfvCtlMessage::Network(n) => match (self.afv_uuid, n.target_afv()) {
                (Some(p), Some(t)) => p == t,
                _ => true,
            },
            AfvCtlMessage::Local(_) => false,
        }
    }

    /// A message arrived across the bridge: a vehicle that announces itself
    /// becomes the known peer.
    pub fn received(&mut self, m: &AfvCtlMessage)
        ensures
            final(self).afv_uuid == (match *m {
                AfvCtlMessage::Network(NetworkMessages::AfvUuid(u)) => Some(u),
                _ => old(self).afv_uuid,
            }),
    {
        if let AfvCtlMessage::Network(NetworkMessages::AfvUuid(u)) = m {
            self.afv_uuid = Some(*u);
        }
    }
}

/// A vehicle's answer to a poll for vehicles: its own identifier. Nothing
/// else gets an answer.
pub fn answer_poll(afv_uuid: AfvUuid, m: &AfvCtlMessage) -> (r: Option<AfvCtlMessage>)
    ensures
        r == (match *m {
            AfvCtlMessage::Network(NetworkMessages::PollAfvUuid) => Some(
                AfvCtlMessage::Network(NetworkMessages::AfvUuid(afv_uuid)),
            ),
            _ => None,
        }),
{
    match m {
        AfvCtlMessage::Network(NetworkMessages::PollAfvUuid) => Some(
            AfvCtlMessage::Network(NetworkMessages::AfvUuid(afv_uuid)),
        ),
        _ => None,
    }
}

/// `now` plus `span`, or `None` when the clock would overflow.
pub open spec fn deadline_after(now: u64, span: u64) -> Option<u64> {
    if now + span <= u64::MAX {
        Some((now + span) as u64)
    } else {
        None
    }
}

/// When a vehicle sends its camera frames: to the network, to its own bus,
/// both, or neither.
pub struct AfvFlirStream {
    pub afv_uuid: AfvUuid,
    /// Frames go to the network until this time.
    pub net_deadline: u64,
    /// Frames go to the local bus until this time.
    pub local_deadline: u64,
}

impl AfvFlirStream {
    /// The stream after a message that arrived at time `now`: a request for
    /// this vehicle's stream, from the network or from its own bus, moves
    /// that side's deadline to `FLIR_TIME_MS` after `now`, when the clock has
    /// room for it.
    pub open spec fn after_message(self, m: AfvCtlMessage, now: u64) -> AfvFlirStream {
        match m {
            AfvCtlMessage::Network(NetworkMessages::FlirStream(u)) => if u == self.afv_uuid
                && deadline_after(now, FLIR_TIME_MS) is Some {
                AfvFlirStream { net_deadline: deadline_after(now, FLIR_TIME_MS)->0, ..self }
            } else {
                self
            },
            AfvCtlMessage::Local(LocalMessages::FlirStream(u)) => if u == self.afv_uuid
                && deadline_after(now, FLIR_TIME_MS) is Some {
                AfvFlirStream { local_deadline: deadline_after(now, FLIR_TIME_MS)->0, ..self }
            } else {
                self
            },
            _ => self,
        }
    }

    /// Whether a frame captured at time `now` goes to the network.
    pub open spec fn to_network_at(self, now: u64) -> bool {
        now <= self.net_deadline
    }

    /// Whether a frame captured at time `now` goes to the local bus.
    pub open spec fn to_local_at(self, now: u64) -> bool {
        now <= self.local_deadline
    }

    /// A vehicle that has just started; both deadlines are now.
    pub fn new(afv_uuid: AfvUuid, now: u64) -> (s: AfvFlirStream)
        ensures
            s.afv_uuid == afv_uuid,
            s.net_deadline == now,
            s.local_deadline == now,
    {
        AfvFlirStream { afv_uuid, net_deadline: now, local_deadline: now }
    }

    /// Handles a message from the bus at time `now`; returns the answer to
    /// send, if any. A stream request for this vehicle keeps the stream
    /// open for `FLIR_TIME_MS` more; a poll is answered with the vehicle's
    /// identifier.
    pub fn on_message(&mut self, m: &AfvCtlMessage, now: u64) -> (r: Option<AfvCtlMessage>)
        ensures
            *final(self) == old(self).after_message(*m, now),
            r == (match *m {
                AfvCtlMessage::Network(NetworkMessages::PollAfvUuid) => Some(
                    AfvCtlMessage::Network(NetworkMessages::AfvUuid(old(self).afv_uuid)),
                ),
                _ => None,
            }),
    {
        match m {
            AfvCtlMessage::Network(NetworkMessages::PollAfvUuid) => {
                return Some(AfvCtlMessage::Network(NetworkMessages::AfvUuid(self.afv_uuid)));
            },
            AfvCtlMessage::Network(NetworkMessages::FlirStream(u)) => {
                if *u == self.afv_uuid {
                    if let Some(d) = now.checked_add(FLIR_TIME_MS) {
                        self.net_deadline = d;
                    }
                }
            },
            AfvCtlMessage::Local(LocalMessages::FlirStream(u)) => {
                if *u == self.afv_uuid {
                    if let Some(d) = now.checked_add(FLIR_TIME_MS) {
                        self.local_deadline = d;
                    }
                }
            },
            _ => {},
        }
        None
    }

    /// Where a frame captured at time `now` goes: to the network, and to the
    /// local bus, each while its deadline has not passed.
    pub fn frame_targets(&self, now: u64) -> (r: (bool, bool))
        ensures
            r == (self.to_network_at(now), self.to_local_at(now)),
    {
        (now <= self.net_deadline, now <= self.local_deadline)
    }
}

/// The vehicles that a ground station has heard of, each once, in the order
/// in which they announced themselves.
pub struct AfvRoster {
    pub afvs: Vec<AfvUuid>,
}

impl AfvRoster {
    pub open spec fn wf(&self) -> bool {
        self.afvs@.no_duplicates()
    }

    /// No vehicles known.
    pub fn new() -> (r: AfvRoster)
        ensures
            r.wf(),
            r.afvs@ == Seq::<AfvUuid>::empty(),
    {
        AfvRoster { afvs: Vec::new() }
    }

    /// Handles a message from the bus: a vehicle that announces itself is
    /// added, unless it is known already.
    pub fn on_message(&mut self, m: &AfvCtlMessage)
        requires
            old(self).wf(),
        ensures
            final(self).wf(),
            final(self).afvs@ == (match *m {
                AfvCtlMessage::Network(NetworkMessages::AfvUuid(u)) => if old(
                    self,
                ).afvs@.contains(u) {
                    old(self).afvs@
                } else {
                    old(self).afvs@.push(u)
                },
                _ => old(self).afvs@,
            }),
    {
        if let AfvCtlMessage::Network(NetworkMessages::AfvUuid(u)) = m {
            let mut i: usize = 0;
            while i < self.afvs.len()
                invariant
                    i <= self.afvs.len(),
                    self.afvs@ == old(self).afvs@,
                    self.wf(),
                    *m == AfvCtlMessage::Network(NetworkMessages::AfvUuid(*u)),
                    forall|j: int| 0 <= j < i ==> self.afvs@[j] != *u,
                decreases self.afvs.len() - i,
            {
                if self.afvs[i] == *u {
                    assert(self.afvs@[i as int] == *u);
                    assert(old(self).afvs@.contains(*u));
                    return;
                }
                i += 1;
            }
            self.afvs.push(*u);
        }
    }

    /// The message that tells the local bus which vehicle was picked.
    pub fn select(&self, u: AfvUuid) -> (m: AfvCtlMessage)
        ensures
            m == AfvCtlMessage::Local(LocalMessages::SelectedAfv(u)),
    {
        AfvCtlMessage::Local(LocalMessages::SelectedAfv(u))
    }
}

/// The ground station's targeting computer: while auto-targeting is on, it
/// keeps asking the selected vehicle to target; a vehicle keeps a request
/// alive for `AUTO_TARGET_REQUEST_MS`.
pub struct TargetingState {
    pub afv_uuid: AfvUuid,
    pub auto_target: bool,
    pub request_deadline: u64,
}

impl TargetingState {
    /// Auto-targeting off, vehicle 0 selected, the request deadline now.
    pub fn new(now: u64) -> (s: TargetingState)
        ensures
            s.afv_uuid == 0,
            !s.auto_target,
            s.request_deadline == now,
    {
        TargetingState { afv_uuid: 0, auto_target: false, request_deadline: now }
    }

    /// Switches auto-targeting on or off.
    pub fn toggle_auto_target(&mut self)
        ensures
            final(self).auto_target == !old(self).auto_target,
            final(self).afv_uuid == old(self).afv_uuid,
            final(self).request_deadline == old(self).request_deadline,
    {
        self.auto_target = !self.auto_target;
    }

    /// Handles a message from the bus at time `now`: a selection changes
    /// the vehicle; an auto-target request for the selected vehicle renews
    /// the request.
    pub fn on_message(&mut self, m: &AfvCtlMessage, now: u64)
        ensures
            final(self).auto_target == old(self).auto_target,
            final(self).afv_uuid == (match *m {
                AfvCtlMessage::Local(LocalMessages::SelectedAfv(u)) => u,
                _ => old(self).afv_uuid,
            }),
            final(self).request_deadline == (match *m {
                AfvCtlMessage::Network(NetworkMessages::AutoTarget(u)) => if u == old(
                    self,
                ).afv_uuid && deadline_after(now, AUTO_TARGET_REQUEST_MS) is Some {
                    deadline_after(now, AUTO_TARGET_REQUEST_MS)->0
                } else {
                    old(self).request_deadline
                },
                _ => old(self).request_deadline,
            }),
    {
        match m {
            AfvCtlMessage::Network(NetworkMessages::AutoTarget(u)) => {
                if *u == self.afv_uuid {
                    if let Some(d) = now.checked_add(AUTO_TARGET_REQUEST_MS) {
                        self.request_deadline = d;
                    }
                }
            },
            AfvCtlMessage::Local(LocalMessages::SelectedAfv(u)) => {
                self.afv_uuid = *u;
            },
            _ => {},
        }
    }

    /// What the computer sends each period: an auto-target request for the
    /// selected vehicle while auto-targeting is on.
    pub fn periodic_request(&self) -> (r: Option<AfvCtlMessage>)
        ensures
            r == (if self.auto_target {
                Some(AfvCtlMessage::Network(NetworkMessages::AutoTarget(self.afv_uuid)))
            } else {
                None
            }),
    {
        if self.auto_target {
            Some(AfvCtlMessage::Network(NetworkMessages::AutoTarget(self.afv_uuid)))
        } else {
            None
        }
    }
}

/// What a camera viewer does with a message from the bus.
pub enum ViewerAction {
    Nothing,
    /// Decode this packet of the video stream.
    Decode(Vec<u8>),
}

/// A camera viewer on a ground station (`remote`) or on the vehicle itself.
pub struct FlirViewer {
    pub afv_uuid: AfvUuid,
    pub remote: bool,
    /// Whether the viewer is decoding a stream.
    pub streaming: bool,
}

impl FlirViewer {
    /// A viewer for vehicle 0 that is not streaming.
    pub fn new(remote: bool) -> (v: FlirViewer)
        ensures
            v.afv_uuid == 0,
            v.remote == remote,
            !v.streaming,
    {
        FlirViewer { afv_uuid: 0, remote, streaming: false }
    }

    /// Handles a message from the bus: a selection changes the vehicle; a
    /// video packet from the viewer's side of the link is decoded.
    pub fn on_message(&mut self, m: AfvCtlMessage) -> (a: ViewerAction)
        ensures
            final(self).remote == old(self).remote,
            final(self).streaming == old(self).streaming,
            final(self).afv_uuid == (match m {
                AfvCtlMessage::Local(LocalMessages::SelectedAfv(u)) => u,
                _ => old(self).afv_uuid,
            }),
            a == (match m {
                AfvCtlMessage::Network(NetworkMessages::NalPacket(p)) => if old(self).remote {
                    ViewerAction::Decode(p)
                } else {
                    ViewerAction::Nothing
                },
                AfvCtlMessage::Local(LocalMessages::NalPacket(p)) => if old(self).remote {
                    ViewerAction::Nothing
                } else {
                    ViewerAction::Decode(p)
                },
                _ => ViewerAction::Nothing,
            }),
    {
        match m {
            AfvCtlMessage::Network(NetworkMessages::NalPacket(p)) => {
                if self.remote {
                    ViewerAction::Decode(p)
                } else {
                    ViewerAction::Nothing
                }
            },
            AfvCtlMessage::Local(LocalMessages::NalPacket(p)) => {
                if self.remote {
                    ViewerAction::Nothing
                } else {
                    ViewerAction::Decode(p)
                }
            },
            AfvCtlMessage::Local(LocalMessages::SelectedAfv(u)) => {
                self.afv_uuid = u;
                ViewerAction::Nothing
            },
            _ => ViewerAction::Nothing,
        }
    }

    /// The request that keeps the selected vehicle streaming, sent each
    /// second while the viewer is decoding.
    pub fn stream_request(&self) -> (r: Option<AfvCtlMessage>)
        ensures
            r == (if !self.streaming {
                None
            } else if self.remote {
                Some(AfvCtlMessage::Network(NetworkMessages::FlirStream(self.afv_uuid)))
            } else {
                Some(AfvCtlMessage::Local(LocalMessages::FlirStream(self.afv_uuid)))
            }),
    {
        if !self.streaming {
            None
        } else if self.remote {
            Some(AfvCtlMessage::Network(NetworkMessages::FlirStream(self.afv_uuid)))
        } else {
            Some(AfvCtlMessage::Local(LocalMessages::FlirStream(self.afv_uuid)))
        }
    }
}

/// A bridge never sends local messages across, and never sends a message
/// addressed to another vehicle than its known peer.
pub proof fn lemma_bridge_isolates_vehicles(peer: AfvUuid, m: AfvCtlMessage)
    requires
        bridge_forwards(Some(peer), m),
    ensures
        m is Network,
        m matches AfvCtlMessage::Network(n) ==> (target_afv(n) matches Some(t) ==> t == peer),
{
}

/// A request for a vehicle's stream from the network, arriving at `now`,
/// sends the vehicle's frames to the network at every later time up to
/// `FLIR_TIME_MS` after it and at no time beyond, and leaves the local side
/// as it was; a request for another vehicle changes nothing. This holds
/// while the clock has room for the deadline.
pub proof fn lemma_stream_request_opens_window(
    s: AfvFlirStream,
    u: AfvUuid,
    now: u64,
    later: u64,
)
    requires
        now <= later,
        now + FLIR_TIME_MS <= u64::MAX,
    ensures
        u == s.afv_uuid ==> (s.after_message(
            AfvCtlMessage::Network(NetworkMessages::FlirStream(u)),
            now,
        ).to_network_at(later) <==> later <= now + FLIR_TIME_MS),
        s.after_message(AfvCtlMessage::Network(NetworkMessages::FlirStream(u)), now).to_local_at(
            later,
        ) == s.to_local_at(later),
        u != s.afv_uuid ==> s.after_message(
            AfvCtlMessage::Network(NetworkMessages::FlirStream(u)),
            now,
        ) == s,
{
}

/// A request for a vehicle's stream from its own bus, arriving at `now`,
/// sends the vehicle's frames to the local bus at every later time up to
/// `FLIR_TIME_MS` after it and at no time beyond, and leaves the network
/// side as it was; a local request for another vehicle changes nothing.
/// This holds while the clock has room for the deadline.
pub proof fn lemma_local_stream_request_opens_window(
    s: AfvFlirStream,
    u: AfvUuid,
    now: u64,
    later: u64,
)
    requires
        now <= later,
        now + FLIR_TIME_MS <= u64::MAX,
    ensures
        u == s.afv_uuid ==> (s.after_message(
            AfvCtlMessage::Local(LocalMessages::FlirStream(u)),
            now,
        ).to_local_at(later) <==> later <= now + FLIR_TIME_MS),
        s.after_message(AfvCtlMessage::Local(LocalMessages::FlirStream(u)), now).to_network_at(
            later,
        ) == s.to_network_at(later),
        u != s.afv_uuid ==> s.after_message(
            AfvCtlMessage::Local(LocalMessages::FlirStream(u)),
            now,
        ) == s,
{
}

/// A bridge that knows its peer `p` sends a message addressed to a vehicle
/// across exactly when that vehicle is `p`, whatever the rest of the
/// message holds; messages addressed to no vehicle always cross, and local
/// messages never do.
pub proof fn lemma_addressed_messages_reach_only_their_vehicle(
    p: AfvUuid,
    u: AfvUuid,
    level: u8,
    iterations: u32,
    x: u32,
    y: u32,
    packet: Vec<u8>,
    local: LocalMessages,
)
    ensures
        bridge_forwards(Some(p), AfvCtlMessage::Network(NetworkMessages::FlirStream(u))) <==> u
            == p,
        bridge_forwards(Some(p), AfvCtlMessage::Network(NetworkMessages::FlirFilterLevel(u, level)))
            <==> u == p,
        bridge_forwards(
            Some(p),
            AfvCtlMessage::Network(NetworkMessages::FlirTargetIterations(u, iterations)),
        ) <==> u == p,
        bridge_forwards(Some(p), AfvCtlMessage::Network(NetworkMessages::PollFlirAngle(u))) <==> u
            == p,
        bridge_forwards(Some(p), AfvCtlMessage::Network(NetworkMessages::PollDistance(u))) <==> u
            == p,
        bridge_forwards(Some(p), AfvCtlMessage::Network(NetworkMessages::FlirAngle(u, x, y)))
            <==> u == p,
        bridge_forwards(Some(p), AfvCtlMessage::Network(NetworkMessages::Distance(u, x))) <==> u
            == p,
        bridge_forwards(Some(p), AfvCtlMessage::Network(NetworkMessages::PollFiringSolution(u)))
            <==> u == p,
        bridge_forwards(Some(p), AfvCtlMessage::Network(NetworkMessages::AutoTarget(u))) <==> u
            == p,
        bridge_forwards(Some(p), AfvCtlMessage::Network(NetworkMessages::PollAfvUuid)),
        bridge_forwards(Some(p), AfvCtlMessage::Network(NetworkMessages::AfvUuid(u))),
        bridge_forwards(Some(p), AfvCtlMessage::Network(NetworkMessages::NalPacket(packet))),
        !bridge_forwards(Some(p), AfvCtlMessage::Local(local)),
{
}

} // verus!
