use vstd::prelude::*;

use crate::gate::{BusyGate, CancelSignal};
use crate::node::Node;
use crate::queue::Queue;

verus! {

/// Seconds added to a track's length before its playback is taken as over.
pub const GRACE_SECS: u64 = 1;

/// Milliseconds between two polls of a cancel signal.
pub const SKIP_POLL_MILLIS: u64 = 100;

/// How long a playback attempt waits for its track: the track's length and
/// the grace margin, capped at the largest number of seconds.
pub fn playback_wait_secs(duration_secs: u64) -> (r: u64)
    ensures
        r == if duration_secs + GRACE_SECS <= u64::MAX {
            duration_secs + GRACE_SECS
        } else {
            u64::MAX as int
        },
{
    duration_secs.saturating_add(GRACE_SECS)
}

/// The three subsystems that run at most once at a time.
#[derive(Debug, Clone, Copy, PartialEq, Eq, Structural)]
pub enum GateKind {
    Playing,
    Tracking,
    Looping,
}

/// The cancellation request polled by each subsystem's loop.
#[derive(Debug, Clone, Copy, PartialEq, Eq, Structural)]
pub enum SignalKind {
    SkipPlayer,
    SkipTracker,
    SkipLoop,
}

/// Evidence that the holder took a busy flag. Only `Handler::try_acquire`
/// makes one, and releasing a flag consumes it, so every release is paired
/// with the acquisition that preceded it, on the handler that issued it.
pub struct GatePermit {
    kind: GateKind,
    owner: Ghost<nat>,
}

impl GatePermit {
    pub closed spec fn gate(&self) -> GateKind {
        self.kind
    }

    /// The identity of the handler that issued this permit.
    pub closed spec fn owner(&self) -> nat {
        self.owner@
    }

    /// Which busy flag this permit was issued for.
    pub fn kind(&self) -> (r: GateKind)
        ensures
            r == self.gate(),
    {
        self.kind
    }
}

/// The abstract state of the engine.
pub struct EngineView {
    /// The handler's identity, which its permits carry.
    pub id: nat,
    pub queue: Seq<Node>,
    pub playing: bool,
    pub tracking: bool,
    pub looping: bool,
    pub skip_player: bool,
    pub skip_tracker: bool,
    pub skip_loop: bool,
}

impl EngineView {
    /// Queue playback and repeat mode never run together.
    pub open spec fn wf(self) -> bool {
        !(self.playing && self.looping)
    }

    pub open spec fn gate(self, g: GateKind) -> bool {
        match g {
            GateKind::Playing => self.playing,
            GateKind::Tracking => self.tracking,
            GateKind::Looping => self.looping,
        }
    }

    pub open spec fn signal(self, s: SignalKind) -> bool {
        match s {
            SignalKind::SkipPlayer => self.skip_player,
            SignalKind::SkipTracker => self.skip_tracker,
            SignalKind::SkipLoop => self.skip_loop,
        }
    }

    /// Whether `g` can be taken now: it is free, and taking it does not put
    /// queue playback and repeat mode side by side.
    pub open spec fn may_acquire(self, g: GateKind) -> bool {
        !self.gate(g) && match g {
            GateKind::Playing => !self.looping,
            GateKind::Looping => !self.playing,
            GateKind::Tracking => true,
        }
    }

    pub open spec fn with_gate(self, g: GateKind, v: bool) -> EngineView {
        match g {
            GateKind::Playing => EngineView { playing: v, ..self },
            GateKind::Tracking => EngineView { tracking: v, ..self },
            GateKind::Looping => EngineView { looping: v, ..self },
        }
    }

    pub open spec fn with_signal(self, s: SignalKind, v: bool) -> EngineView {
        match s {
            SignalKind::SkipPlayer => EngineView { skip_player: v, ..self },
            SignalKind::SkipTracker => EngineView { skip_tracker: v, ..self },
            SignalKind::SkipLoop => EngineView { skip_loop: v, ..self },
        }
    }

    /// The state after a skip request: each signal whose subsystem is
    /// active is raised; nothing else changes.
    pub open spec fn after_skip(self) -> EngineView {
        EngineView {
            skip_player: self.skip_player || self.playing,
            skip_tracker: self.skip_tracker || self.tracking,
            skip_loop: self.skip_loop || self.looping,
            ..self
        }
    }
}

/// Taking a free busy flag and then releasing it leaves the engine as it
/// was: an acquisition and the release that consumes its permit come in
/// pairs and undo each other.
pub proof fn lemma_acquire_release_restores(v: EngineView, g: GateKind)
    requires
        v.may_acquire(g),
    ensures
        v.with_gate(g, true).gate(g),
        v.with_gate(g, true).with_gate(g, false) == v,
{
}

/// What the queue-drain loop does next.
pub enum DrainStep {
    /// Nothing is queued: the loop ends.
    QueueEmpty,
    /// Another instance holds playback (or repeat mode runs): the loop ends
    /// and leaves the queue to that instance.
    Busy,
    /// This instance took the Playing gate and the front request.
    Play(Node, GatePermit),
}

/// Why a repeat request was turned down.
#[derive(Debug, Clone, Copy, PartialEq, Eq, Structural)]
pub enum LoopRefusal {
    /// Queue playback is active.
    QueueBusy,
    /// Another repeat is already running.
    AlreadyLooping,
}

impl LoopRefusal {
    /// The reply shown to the user.
    pub fn message(&self) -> (r: String)
        ensures
            r@ == match self {
                LoopRefusal::QueueBusy => "not loopin til queue done"@,
                LoopRefusal::AlreadyLooping => "already loopin"@,
            },
    {
        match self {
            LoopRefusal::QueueBusy => {
                String::from_str("not loopin til queue done")
            },
            LoopRefusal::AlreadyLooping => {
                String::from_str("already loopin")
            },
        }
    }
}

/// Which signals a skip request raised.
#[derive(Debug, Clone, Copy, PartialEq, Eq, Structural)]
pub struct SkipOutcome {
    pub player: bool,
    pub tracker: bool,
    pub looper: bool,
}

/// The state shared by the drain loop, the tracker, the repeat loop and the
/// skip command of one playback scope.
pub struct Handler {
    id: Ghost<nat>,
    queue: Queue,
    playing: BusyGate,
    tracking: BusyGate,
    looping: BusyGate,
    skip_player: CancelSignal,
    skip_tracker: CancelSignal,
    skip_loop: CancelSignal,
}

impl View for Handler {
    type V = EngineView;

    closed spec fn view(&self) -> EngineView {
        EngineView {
            id: self.id@,
            queue: self.queue@,
            playing: self.playing@,
            tracking: self.tracking@,
            looping: self.looping@,
            skip_player: self.skip_player@,
            skip_tracker: self.skip_tracker@,
            skip_loop: self.skip_loop@,
        }
    }
}

impl Default for Handler {
    fn default() -> (r: Self)
        ensures
            r@.wf(),
            r@.queue.len() == 0,
            !r@.playing && !r@.tracking && !r@.looping,
            !r@.skip_player && !r@.skip_tracker && !r@.skip_loop,
    {
        Handler::new()
    }
}

impl Handler {
    /// An idle engine with an empty queue.
    pub fn new() -> (r: Self)
        ensures
            r@.wf(),
            r@.queue.len() == 0,
            !r@.playing && !r@.tracking && !r@.looping,
            !r@.skip_player && !r@.skip_tracker && !r@.skip_loop,
    {
        Handler {
            id: Ghost(arbitrary()),
            queue: Queue::new(),
            playing: BusyGate::new(),
            tracking: BusyGate::new(),
            looping: BusyGate::new(),
            skip_player: CancelSignal::new(),
            skip_tracker: CancelSignal::new(),
            skip_loop: CancelSignal::new(),
        }
    }

    /// Whether gate `g` is held, without changing anything.
    pub fn is_active(&self, g: GateKind) -> (r: bool)
        ensures
            r == self@.gate(g),
    {
        match g {
            GateKind::Playing => self.playing.is_active(),
            GateKind::Tracking => self.tracking.is_active(),
            GateKind::Looping => self.looping.is_active(),
        }
    }

    /// Whether signal `s` is raised, without consuming it.
    pub fn is_raised(&self, s: SignalKind) -> (r: bool)
        ensures
            r == self@.signal(s),
    {
        match s {
            SignalKind::SkipPlayer => self.skip_player.is_raised(),
            SignalKind::SkipTracker => self.skip_tracker.is_raised(),
            SignalKind::SkipLoop => self.skip_loop.is_raised(),
        }
    }

    /// The number of queued requests.
    pub fn queue_len(&self) -> (r: usize)
        ensures
            r == self@.queue.len(),
    {
        self.queue.len()
    }

    /// The length of the front request, if any, without removing it.
    pub fn front_duration(&self) -> (r: Option<u64>)
        ensures
            self@.queue.len() == 0 ==> r is None,
            self@.queue.len() > 0 ==> r == Some(self@.queue[0].duration_secs),
    {
        self.queue.peek_front_duration()
    }

    /// The references of the queued requests, front first.
    pub fn queued_urls(&self) -> (r: Vec<String>)
        ensures
            r@.len() == self@.queue.len(),
            forall|i: int| 0 <= i < r@.len() ==> (#[trigger] r@[i])@ == self@.queue[i].url@,
    {
        self.queue.urls()
    }

    /// Whether a new request may join the queue: not while repeat mode runs.
    pub fn enqueue_allowed(&self) -> (r: bool)
        ensures
            r == !self@.looping,
    {
        !self.looping.is_active()
    }

    /// Appends a request at the back of the queue; never fails.
    pub fn enqueue(&mut self, item: Node)
        requires
            old(self)@.wf(),
        ensures
            final(self)@ == (EngineView { queue: old(self)@.queue.push(item), ..old(self)@ }),
            final(self)@.wf(),
    {
        self.queue.enqueue(item);
    }

    /// Removes every queued request.
    pub fn clear_queue(&mut self)
        requires
            old(self)@.wf(),
        ensures
            final(self)@ == (EngineView { queue: Seq::empty(), ..old(self)@ }),
            final(self)@.wf(),
    {
        self.queue.clear();
    }

    /// Takes gate `g` if it is free and taking it keeps queue playback and
    /// repeat mode apart; otherwise changes nothing and fails at once.
    pub fn try_acquire(&mut self, g: GateKind) -> (r: Option<GatePermit>)
        requires
            old(self)@.wf(),
        ensures
            r is Some <==> old(self)@.may_acquire(g),
            r is Some ==> r->0.gate() == g && r->0.owner() == old(self)@.id && final(self)@ == old(
                self,
            )@.with_gate(g, true),
            r is None ==> final(self)@ == old(self)@,
            old(self)@.gate(g) ==> r is None,
            final(self)@.wf(),
    {
        let ok = match g {
            GateKind::Playing => {
                if self.looping.is_active() {
                    false
                } else {
                    self.playing.try_acquire()
                }
            },
            GateKind::Tracking => self.tracking.try_acquire(),
            GateKind::Looping => {
                if self.playing.is_active() {
                    false
                } else {
                    self.looping.try_acquire()
                }
            },
        };
        if ok {
            Some(GatePermit { kind: g, owner: Ghost(self.id@) })
        } else {
            None
        }
    }

    /// Frees the busy flag that `permit` was issued for, which is held.
    pub fn release(&mut self, permit: GatePermit)
        requires
            old(self)@.wf(),
            permit.owner() == old(self)@.id,
            old(self)@.gate(permit.gate()),
        ensures
            final(self)@ == old(self)@.with_gate(permit.gate(), false),
            final(self)@.wf(),
    {
        match permit.kind {
            GateKind::Playing => self.playing.release(),
            GateKind::Tracking => self.tracking.release(),
            GateKind::Looping => self.looping.release(),
        }
    }

    /// Observes signal `s` and clears it in one step: returns whether it
    /// was raised.
    pub fn take_signal(&mut self, s: SignalKind) -> (r: bool)
        requires
            old(self)@.wf(),
        ensures
            r == old(self)@.signal(s),
            final(self)@ == old(self)@.with_signal(s, false),
            final(self)@.wf(),
    {
        match s {
            SignalKind::SkipPlayer => self.skip_player.take(),
            SignalKind::SkipTracker => self.skip_tracker.take(),
            SignalKind::SkipLoop => self.skip_loop.take(),
        }
    }

    /// Asks every active subsystem to stop: raises the signal of each gate
    /// that is held, and no other. Reports which were raised by this call.
    pub fn request_skip(&mut self) -> (r: SkipOutcome)
        requires
            old(self)@.wf(),
        ensures
            final(self)@ == old(self)@.after_skip(),
            r == (SkipOutcome {
                player: old(self)@.playing,
                tracker: old(self)@.tracking,
                looper: old(self)@.looping,
            }),
            final(self)@.wf(),
    {
        let player = self.playing.is_active();
        let tracker = self.tracking.is_active();
        let looper = self.looping.is_active();
        if player {
            self.skip_player.raise();
        }
        if tracker {
            self.skip_tracker.raise();
        }
        if looper {
            self.skip_loop.raise();
        }
        SkipOutcome { player, tracker, looper }
    }

    /// One turn of the queue-drain loop: if a request is queued and
    /// playback can be taken, takes the Playing gate and the front request.
    pub fn start_next(&mut self) -> (r: DrainStep)
        requires
            old(self)@.wf(),
        ensures
            old(self)@.queue.len() == 0 ==> r is QueueEmpty,
            old(self)@.queue.len() > 0 && !old(self)@.may_acquire(GateKind::Playing) ==> r is Busy,
            old(self)@.queue.len() > 0 && old(self)@.may_acquire(GateKind::Playing) ==> r is Play,
            r is QueueEmpty || r is Busy ==> final(self)@ == old(self)@,
            r is Play ==> {
                &&& old(self)@.queue.len() > 0
                &&& old(self)@.may_acquire(GateKind::Playing)
                &&& r->Play_0 == old(self)@.queue[0]
                &&& r->Play_1.gate() == GateKind::Playing
                &&& r->Play_1.owner() == old(self)@.id
                &&& final(self)@ == (EngineView {
                    queue: old(self)@.queue.drop_first(),
                    playing: true,
                    ..old(self)@
                })
            },
            final(self)@.wf(),
    {
        if self.queue.is_empty() {
            return DrainStep::QueueEmpty;
        }
        match self.try_acquire(GateKind::Playing) {
            None => DrainStep::Busy,
            Some(permit) => {
                match self.queue.pop_front() {
                    Some(item) => DrainStep::Play(item, permit),
                    None => {
                        self.release(permit);
                        DrainStep::QueueEmpty
                    },
                }
            },
        }
    }

    /// Ends one playback attempt: frees the Playing gate. When the attempt
    /// ended by a skip and a tracker is still running, that tracker is asked
    /// to stop too.
    pub fn finish_playback(&mut self, permit: GatePermit, skipped: bool)
        requires
            old(self)@.wf(),
            permit.gate() == GateKind::Playing,
            permit.owner() == old(self)@.id,
            old(self)@.playing,
        ensures
            final(self)@ == (EngineView {
                playing: false,
                skip_tracker: old(self)@.skip_tracker || (skipped && old(self)@.tracking),
                ..old(self)@
            }),
            final(self)@.wf(),
    {
        self.release(permit);
        if skipped && self.tracking.is_active() {
            self.skip_tracker.raise();
        }
    }

    /// Admits a repeat request: takes the Looping gate unless queue
    /// playback or another repeat is active, in which case nothing changes.
    pub fn start_loop(&mut self) -> (r: Result<GatePermit, LoopRefusal>)
        requires
            old(self)@.wf(),
        ensures
            old(self)@.playing ==> r == Err::<GatePermit, LoopRefusal>(LoopRefusal::QueueBusy),
            !old(self)@.playing && old(self)@.looping ==> r == Err::<GatePermit, LoopRefusal>(
                LoopRefusal::AlreadyLooping,
            ),
            !old(self)@.playing && !old(self)@.looping ==> r is Ok,
            r is Err ==> final(self)@ == old(self)@,
            r is Ok ==> !old(self)@.playing && !old(self)@.looping && r->Ok_0.gate()
                == GateKind::Looping && r->Ok_0.owner() == old(self)@.id
                && final(self)@ == old(self)@.with_gate(
                GateKind::Looping,
                true,
            ),
            final(self)@.wf(),
    {
        if self.playing.is_active() {
            return Err(LoopRefusal::QueueBusy);
        }
        match self.try_acquire(GateKind::Looping) {
            Some(permit) => Ok(permit),
            None => Err(LoopRefusal::AlreadyLooping),
        }
    }
}

} // verus!
