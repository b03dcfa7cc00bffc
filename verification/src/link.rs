//! The receiving side of a point-to-point link.
//!
//! Bytes arrive one at a time and are gathered into a frame until the frame
//! decodes as a whole message; the frame then starts afresh. A link that sees
//! no traffic for a while sends a heartbeat; one that times out too often in a
//! row closes. A heartbeat received is answered, and heartbeat traffic is
//! never handed to the link's listeners.
use vstd::prelude::*;

verus! {

/// How many times in a row a link may time out before it closes.
pub const TIMEOUT_BUDGET: u8 = 10;

/// How long a link waits for traffic before it times out, in milliseconds.
pub const TIMEOUT_TIME_MS: u64 = 5000;

/// The bytes of a message that has not yet arrived in full.
pub struct FrameBuffer {
    pub data: Vec<u8>,
}

impl FrameBuffer {
    /// An empty frame.
    pub fn new() -> (f: FrameBuffer)
        ensures
            f.data@ == Seq::<u8>::empty(),
    {
        FrameBuffer { data: Vec::new() }
    }

    /// Appends a received byte.
    pub fn push_byte(&mut self, b: u8)
        ensures
            final(self).data@ == old(self).data@.push(b),
    {
        self.data.push(b);
    }

    /// Starts a new frame.
    pub fn clear(&mut self)
        ensures
            final(self).data@ == Seq::<u8>::empty(),
    {
        self.data.clear();
    }
}

/// The three kinds of message that the link itself tells apart.
pub enum FrameKind {
    /// The other side asks whether this side is alive.
    Heart,
    /// The answer to a heartbeat.
    Beat,
    /// Anything else: it is for the listeners.
    Other,
}

/// The state of a link, as its users see it.
pub enum LinkStatus {
    Active,
    /// Reading from the link failed.
    ReceiveFailed,
    /// Writing to the link failed.
    SendFailed,
    /// The link closed without an error.
    Stale,
}

/// What the receiving loop does with a frame that was just checked.
pub enum FrameAction {
    /// The frame is not a whole message yet: keep reading.
    KeepReading,
    /// A heartbeat arrived: answer it.
    ReplyBeat,
    /// An answer to a heartbeat arrived: nothing more to do.
    Ignore,
    /// A message for the listeners arrived: hand it on.
    Deliver,
}

/// The receiving loop of a link.
pub struct LinkMonitor {
    /// Timeouts left before the link closes.
    pub budget: u8,
    pub frame: FrameBuffer,
    pub status: LinkStatus,
}

/// The monitor after a timeout: when the heartbeat could be sent, one unit of
/// budget is spent; otherwise the link has failed.
pub open spec fn after_timeout(m: LinkMonitor, heart_sent: bool) -> LinkMonitor {
    if heart_sent {
        LinkMonitor { budget: (m.budget - 1) as u8, ..m }
    } else {
        LinkMonitor { status: LinkStatus::SendFailed, ..m }
    }
}

/// The monitor after `k` timeouts in a row, each with its heartbeat sent.
pub open spec fn after_timeouts(m: LinkMonitor, k: nat) -> LinkMonitor
    decreases k,
{
    if k == 0 {
        m
    } else {
        after_timeout(after_timeouts(m, (k - 1) as nat), true)
    }
}

impl LinkMonitor {
    /// The budget never exceeds its initial value.
    pub open spec fn wf(&self) -> bool {
        self.budget <= TIMEOUT_BUDGET
    }

    /// Whether the receiving loop goes on.
    pub open spec fn spec_running(&self) -> bool {
        self.status is Active && self.budget > 0
    }

    /// A fresh link: full budget, empty frame, active.
    pub fn new() -> (m: LinkMonitor)
        ensures
            m.wf(),
            m.budget == TIMEOUT_BUDGET,
            m.frame.data@ == Seq::<u8>::empty(),
            m.status is Active,
    {
        LinkMonitor { budget: TIMEOUT_BUDGET, frame: FrameBuffer::new(), status: LinkStatus::Active }
    }

    /// Whether the receiving loop goes on: the link is active and has budget
    /// left.
    pub fn running(&self) -> (r: bool)
        ensures
            r == self.spec_running(),
    {
        match self.status {
            LinkStatus::Active => self.budget > 0,
            _ => false,
        }
    }

    /// The link timed out while running, and a heartbeat was sent, with the
    /// given outcome.
    pub fn timeout(&mut self, heart_sent: bool)
        requires
            old(self).wf(),
            old(self).spec_running(),
        ensures
            final(self).wf(),
            final(self).budget == after_timeout(*old(self), heart_sent).budget,
            final(self).status == after_timeout(*old(self), heart_sent).status,
            final(self).frame == old(self).frame,
    {
        if heart_sent {
            self.budget = self.budget - 1;
        } else {
            self.status = LinkStatus::SendFailed;
        }
    }

    /// A byte was read from the link, or reading failed.
    pub fn receive(&mut self, byte: Option<u8>)
        requires
            old(self).wf(),
        ensures
            final(self).wf(),
            final(self).budget == old(self).budget,
            match byte {
                Some(b) => final(self).frame.data@ == old(self).frame.data@.push(b)
                    && final(self).status == old(self).status,
                None => final(self).frame.data@ == old(self).frame.data@
                    && final(self).status is ReceiveFailed,
            },
    {
        match byte {
            Some(b) => self.frame.push_byte(b),
            None => {
                self.status = LinkStatus::ReceiveFailed;
            },
        }
    }

    /// The frame was checked: `kind` is the kind of message that it decodes
    /// to, or `None` when it does not decode yet. A decoded message restores
    /// the full budget and starts a new frame.
    pub fn decoded(&mut self, kind: Option<FrameKind>) -> (a: FrameAction)
        requires
            old(self).wf(),
        ensures
            final(self).wf(),
            final(self).status == old(self).status,
            match kind {
                None => a is KeepReading && final(self).budget == old(self).budget
                    && final(self).frame == old(self).frame,
                Some(k) => final(self).budget == TIMEOUT_BUDGET && final(self).frame.data@
                    == Seq::<u8>::empty() && match k {
                    FrameKind::Heart => a is ReplyBeat,
                    FrameKind::Beat => a is Ignore,
                    FrameKind::Other => a is Deliver,
                },
            },
    {
        match kind {
            None => FrameAction::KeepReading,
            Some(k) => {
                self.budget = TIMEOUT_BUDGET;
                self.frame.clear();
                match k {
                    FrameKind::Heart => FrameAction::ReplyBeat,
                    FrameKind::Beat => FrameAction::Ignore,
                    FrameKind::Other => FrameAction::Deliver,
                }
            },
        }
    }

    /// The answer to a heartbeat was sent, with the given outcome.
    pub fn beat_sent(&mut self, ok: bool)
        requires
            old(self).wf(),
        ensures
            final(self).wf(),
            final(self).budget == old(self).budget,
            final(self).frame == old(self).frame,
            final(self).status == (if ok {
                old(self).status
            } else {
                LinkStatus::SendFailed
            }),
    {
        if !ok {
            self.status = LinkStatus::SendFailed;
        }
    }

    /// The receiving loop ended: a link that ended without an error goes
    /// stale.
    pub fn close(&mut self)
        ensures
            final(self).budget == old(self).budget,
            final(self).frame == old(self).frame,
            final(self).status == (if old(self).status is Active {
                LinkStatus::Stale
            } else {
                old(self).status
            }),
    {
        if let LinkStatus::Active = self.status {
            self.status = LinkStatus::Stale;
        }
    }
}

/// A fresh link survives `TIMEOUT_BUDGET - 1` timeouts in a row whose
/// heartbeats were sent, with one unit of budget spent on each, and stops
/// at the `TIMEOUT_BUDGET`-th.
pub proof fn lemma_timeouts_close_link(m: LinkMonitor, k: nat)
    requires
        m.budget == TIMEOUT_BUDGET,
        m.status is Active,
        k <= TIMEOUT_BUDGET,
    ensures
        after_timeouts(m, k).budget == TIMEOUT_BUDGET - k,
        after_timeouts(m, k).status is Active,
        after_timeouts(m, k).spec_running() <==> k < TIMEOUT_BUDGET,
    decreases k,
{
    if k > 0 {
        lemma_timeouts_close_link(m, (k - 1) as nat);
    }
}

/// Each timeout with its heartbeat sent spends exactly one unit of budget.
pub proof fn lemma_timeout_spends_one(m: LinkMonitor)
    requires
        m.spec_running(),
    ensures
        after_timeout(m, true).budget == m.budget - 1,
        after_timeout(m, true).status == m.status,
        !after_timeout(m, false).spec_running(),
{
}

} // verus!
