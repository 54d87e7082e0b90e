//! Card display state machine: at most one card is shown at a time and
//! animated through reveal, hold, zoom and retire phases; cards that arrive
//! while one is showing wait in a queue.

use crate::clock::TimeTick;
use crate::relative_roi::UNIT;
use std::collections::VecDeque;
use vstd::prelude::*;

verus! {

/// A queued card: the identifier the compositor needs to fetch its image.
#[derive(Debug, PartialEq, Eq)]
pub struct CardRef {
    pub name: String,
    pub pitch: Option<u32>,
}

impl Clone for CardRef {
    fn clone(&self) -> (res: CardRef)
        ensures
            res == *self,
    {
        CardRef { name: self.name.clone(), pitch: self.pitch }
    }
}

/// The phases a displayed card moves through.  `Idle` is both the initial
/// and the terminal state: no card is showing and the card-back placeholder
/// is rendered.
#[derive(Clone, Copy, Debug, PartialEq, Eq, Structural)]
pub enum CardDisplayPhase {
    Idle,
    CardBackRotatingOut,
    CardFrontRotatingIn,
    Displaying,
    ExtendedDisplaying,
    ZoomingIn,
    ZoomDisplaying,
    ZoomingOut,
    PostZoom,
    CardFrontRotatingOut,
    CardBackRotatingIn,
}

/// Whether the phase belongs to the zoom animation; a zoom request during
/// these phases is a no-op.
pub open spec fn zoom_phase(p: CardDisplayPhase) -> bool {
    p is ZoomingIn || p is ZoomDisplaying || p is ZoomingOut || p is PostZoom
}

/// How long each timed phase lasts, in microseconds.
#[derive(Clone, Copy, Debug, PartialEq, Eq, Structural)]
pub struct PhaseDurations {
    pub rotate: u64,
    pub display: u64,
    pub extended: u64,
    pub zoom: u64,
    pub zoom_hold: u64,
    pub post_zoom: u64,
}

/// Longest phase duration the configuration admits: one hour.
pub const MAX_PHASE_MICROS: u64 = 3_600_000_000;

impl PhaseDurations {
    /// Every duration is positive and bounded by an hour.
    pub open spec fn wf(self) -> bool {
        &&& 1 <= self.rotate <= MAX_PHASE_MICROS
        &&& 1 <= self.display <= MAX_PHASE_MICROS
        &&& 1 <= self.extended <= MAX_PHASE_MICROS
        &&& 1 <= self.zoom <= MAX_PHASE_MICROS
        &&& 1 <= self.zoom_hold <= MAX_PHASE_MICROS
        &&& 1 <= self.post_zoom <= MAX_PHASE_MICROS
    }

    /// The stock configuration: rotate 0.75 s, display 6 s, extended 12 s,
    /// zoom in/out 2 s, zoom hold 3 s, post-zoom 1 s.
    pub fn standard() -> (r: PhaseDurations)
        ensures
            r.wf(),
            r == (PhaseDurations {
                rotate: 750_000u64,
                display: 6_000_000u64,
                extended: 12_000_000u64,
                zoom: 2_000_000u64,
                zoom_hold: 3_000_000u64,
                post_zoom: 1_000_000u64,
            }),
    {
        PhaseDurations {
            rotate: 750_000,
            display: 6_000_000,
            extended: 12_000_000,
            zoom: 2_000_000,
            zoom_hold: 3_000_000,
            post_zoom: 1_000_000,
        }
    }
}

/// The time limit of a timed phase.  `Idle` has none; it is listed here
/// only to make the function total.
pub open spec fn phase_limit(d: PhaseDurations, p: CardDisplayPhase) -> int {
    match p {
        CardDisplayPhase::Idle => 0,
        CardDisplayPhase::CardBackRotatingOut => d.rotate as int,
        CardDisplayPhase::CardFrontRotatingIn => d.rotate as int,
        CardDisplayPhase::Displaying => d.display as int,
        CardDisplayPhase::ExtendedDisplaying => d.extended as int,
        CardDisplayPhase::ZoomingIn => d.zoom as int,
        CardDisplayPhase::ZoomDisplaying => d.zoom_hold as int,
        CardDisplayPhase::ZoomingOut => d.zoom as int,
        CardDisplayPhase::PostZoom => d.post_zoom as int,
        CardDisplayPhase::CardFrontRotatingOut => d.rotate as int,
        CardDisplayPhase::CardBackRotatingIn => d.rotate as int,
    }
}

/// The session state as the transition relation sees it: phase, pending
/// queue, current card, phase timer in microseconds, pending zoom flag.
pub type SessionState = (CardDisplayPhase, Seq<CardRef>, Option<CardRef>, int, bool);

/// Whether the session is due to advance out of its current phase at clock
/// `now_us`.
pub open spec fn session_due(s: SessionState, now_us: int, d: PhaseDurations) -> bool {
    let (phase, queue, current, timer_us, zoom) = s;
    let elapsed = now_us - timer_us;
    match phase {
        CardDisplayPhase::Idle => queue.len() > 0,
        CardDisplayPhase::Displaying => zoom || elapsed >= d.display,
        CardDisplayPhase::ExtendedDisplaying => queue.len() > 0 || elapsed >= d.extended,
        _ => elapsed >= phase_limit(d, phase),
    }
}

/// One phase advance, taken when `session_due` holds: the transition table
/// of the state machine.  Loading a card pops the queue's front into the
/// current slot and clears any pending zoom; returning to `Idle` releases
/// the current card.
pub open spec fn session_step(s: SessionState, now_us: int, d: PhaseDurations) -> SessionState {
    let (phase, queue, current, timer_us, zoom) = s;
    match phase {
        CardDisplayPhase::Idle => (
            CardDisplayPhase::CardBackRotatingOut,
            queue.drop_first(),
            Some(queue[0]),
            now_us,
            false,
        ),
        CardDisplayPhase::CardBackRotatingOut => (
            CardDisplayPhase::CardFrontRotatingIn,
            queue,
            current,
            now_us,
            zoom,
        ),
        CardDisplayPhase::CardFrontRotatingIn => (
            CardDisplayPhase::Displaying,
            queue,
            current,
            now_us,
            zoom,
        ),
        CardDisplayPhase::Displaying => if zoom {
            (CardDisplayPhase::ZoomingIn, queue, current, now_us, false)
        } else if queue.len() == 0 {
            (CardDisplayPhase::ExtendedDisplaying, queue, current, now_us, false)
        } else {
            (CardDisplayPhase::CardFrontRotatingOut, queue, current, now_us, false)
        },
        CardDisplayPhase::ExtendedDisplaying => (
            CardDisplayPhase::CardFrontRotatingOut,
            queue,
            current,
            now_us,
            zoom,
        ),
        CardDisplayPhase::ZoomingIn => (
            CardDisplayPhase::ZoomDisplaying,
            queue,
            current,
            now_us,
            zoom,
        ),
        CardDisplayPhase::ZoomDisplaying => (
            CardDisplayPhase::ZoomingOut,
            queue,
            current,
            now_us,
            zoom,
        ),
        CardDisplayPhase::ZoomingOut => (CardDisplayPhase::PostZoom, queue, current, now_us, zoom),
        CardDisplayPhase::PostZoom => (
            CardDisplayPhase::CardFrontRotatingOut,
            queue,
            current,
            now_us,
            zoom,
        ),
        CardDisplayPhase::CardFrontRotatingOut => if queue.len() == 0 {
            (CardDisplayPhase::CardBackRotatingIn, queue, current, now_us, zoom)
        } else {
            (
                CardDisplayPhase::CardFrontRotatingIn,
                queue.drop_first(),
                Some(queue[0]),
                now_us,
                false,
            )
        },
        CardDisplayPhase::CardBackRotatingIn => (
            CardDisplayPhase::Idle,
            queue,
            None,
            now_us,
            false,
        ),
    }
}

/// Advances the session while a transition is due, at most `fuel` times:
/// several phases can pass within a single frame, but the chain is bounded
/// so a frame's evaluation always terminates.
pub open spec fn session_settle(
    s: SessionState,
    now_us: int,
    d: PhaseDurations,
    fuel: nat,
) -> SessionState
    decreases fuel,
{
    if fuel == 0 {
        s
    } else if session_due(s, now_us, d) {
        session_settle(session_step(s, now_us, d), now_us, d, (fuel - 1) as nat)
    } else {
        s
    }
}

/// Most phase advances a single frame may perform.
pub const MAX_PHASE_ADVANCES: u64 = 16;

/// What the compositor is asked to draw for one frame.  Progress values are
/// fractions of the phase in `UNIT` parts, capped at `UNIT`.
#[derive(Debug, PartialEq, Eq)]
pub enum RenderDirective {
    /// No card is showing: draw the card-back placeholder.
    Placeholder,
    /// The card back turns away, `progress` through its rotation.
    BackRotatingOut { progress: u32 },
    /// The new card's front turns in.
    FrontRotatingIn { card: CardRef, progress: u32 },
    /// The card rests flat in its region.
    CardFlat { card: CardRef },
    /// The card is enlarged toward the frame center and back: `progress` is
    /// the zoom motion's position, `UNIT` at full enlargement.
    Zooming { card: CardRef, progress: u32 },
    /// The card's front turns away.
    FrontRotatingOut { card: CardRef, progress: u32 },
    /// The card back turns back in.
    BackRotatingIn { progress: u32 },
}

/// The fraction of the phase that has passed, in `UNIT` parts, capped at
/// `UNIT`.
pub open spec fn phase_progress(elapsed: int, limit: int) -> int {
    if elapsed >= limit {
        UNIT as int
    } else {
        elapsed * UNIT / limit
    }
}

/// The directive for a settled session state at clock `now_us`.
pub open spec fn directive_of(s: SessionState, now_us: int, d: PhaseDurations) -> RenderDirective {
    let (phase, queue, current, timer_us, zoom) = s;
    let progress = phase_progress(now_us - timer_us, phase_limit(d, phase));
    match phase {
        CardDisplayPhase::Idle => RenderDirective::Placeholder,
        CardDisplayPhase::CardBackRotatingOut => RenderDirective::BackRotatingOut {
            progress: progress as u32,
        },
        CardDisplayPhase::CardFrontRotatingIn => RenderDirective::FrontRotatingIn {
            card: current->0,
            progress: progress as u32,
        },
        CardDisplayPhase::Displaying => RenderDirective::CardFlat { card: current->0 },
        CardDisplayPhase::ExtendedDisplaying => RenderDirective::CardFlat { card: current->0 },
        CardDisplayPhase::ZoomingIn => RenderDirective::Zooming {
            card: current->0,
            progress: progress as u32,
        },
        CardDisplayPhase::ZoomDisplaying => RenderDirective::Zooming {
            card: current->0,
            progress: UNIT,
        },
        CardDisplayPhase::ZoomingOut => RenderDirective::Zooming {
            card: current->0,
            progress: (UNIT - progress) as u32,
        },
        CardDisplayPhase::PostZoom => RenderDirective::CardFlat { card: current->0 },
        CardDisplayPhase::CardFrontRotatingOut => RenderDirective::FrontRotatingOut {
            card: current->0,
            progress: progress as u32,
        },
        CardDisplayPhase::CardBackRotatingIn => RenderDirective::BackRotatingIn {
            progress: progress as u32,
        },
    }
}

/// Owns the one card being shown: its phase, the queue of cards waiting
/// behind it, the current card, the phase-local timer and the pending zoom
/// request.
pub struct CardDisplayManager {
    pub phase: CardDisplayPhase,
    pub queue: VecDeque<CardRef>,
    pub display_card: Option<CardRef>,
    pub timer: TimeTick,
    pub zoom: bool,
    pub durations: PhaseDurations,
}

impl CardDisplayManager {
    /// The session state the transition relation sees.
    pub open spec fn abs(self) -> SessionState {
        (self.phase, self.queue@, self.display_card, self.timer.as_micros(), self.zoom)
    }

    /// A card is current exactly outside `Idle`, no zoom is pending in
    /// `Idle`, and the configuration and timer are sound.
    pub open spec fn wf(self) -> bool {
        &&& self.durations.wf()
        &&& self.timer.wf()
        &&& (self.phase is Idle <==> self.display_card is None)
        &&& (self.phase is Idle ==> !self.zoom)
    }

    /// A fresh session: idle, nothing queued, timer at the given clock.
    pub fn new(time_tick: &TimeTick, durations: PhaseDurations) -> (r: CardDisplayManager)
        requires
            time_tick.wf(),
            durations.wf(),
        ensures
            r.wf(),
            r.phase is Idle,
            r.queue@ =~= Seq::<CardRef>::empty(),
            r.display_card is None,
            r.timer == *time_tick,
            r.zoom == false,
            r.durations == durations,
    {
        CardDisplayManager {
            phase: CardDisplayPhase::Idle,
            queue: VecDeque::new(),
            display_card: None,
            timer: *time_tick,
            zoom: false,
            durations,
        }
    }

    /// Appends a card to the pending queue.
    pub fn add_card_to_queue(&mut self, card: CardRef)
        requires
            old(self).wf(),
        ensures
            final(self).wf(),
            final(self).queue@ == old(self).queue@.push(card),
            final(self).phase == old(self).phase,
            final(self).display_card == old(self).display_card,
            final(self).timer == old(self).timer,
            final(self).zoom == old(self).zoom,
            final(self).durations == old(self).durations,
    {
        self.queue.push_back(card);
    }

    /// Requests a zoom of the card being shown.  A request while no card is
    /// showing is discarded, and one made during the zoom animation is a
    /// no-op, so at most one zoom is ever pending.
    pub fn queue_zoom(&mut self)
        requires
            old(self).wf(),
        ensures
            final(self).wf(),
            final(self).zoom == (old(self).zoom || (old(self).display_card is Some && !zoom_phase(
                old(self).phase,
            ))),
            final(self).phase == old(self).phase,
            final(self).queue@ == old(self).queue@,
            final(self).display_card == old(self).display_card,
            final(self).timer == old(self).timer,
            final(self).durations == old(self).durations,
    {
        let showing = match &self.display_card {
            Some(_) => true,
            None => false,
        };
        let zooming = match self.phase {
            CardDisplayPhase::ZoomingIn => true,
            CardDisplayPhase::ZoomDisplaying => true,
            CardDisplayPhase::ZoomingOut => true,
            CardDisplayPhase::PostZoom => true,
            _ => false,
        };
        if showing && !zooming {
            self.zoom = true;
        }
    }

    /// Evaluates the state machine for one frame at clock `now`: while the
    /// current phase's time is up (or its other exit condition holds) the
    /// phase advances and the same clock is re-evaluated against the new
    /// phase, up to `MAX_PHASE_ADVANCES` times; the directive for the
    /// settled phase is returned.
    pub fn tick(&mut self, now: TimeTick) -> (r: RenderDirective)
        requires
            old(self).wf(),
            now.wf(),
            old(self).timer.as_micros() <= now.as_micros(),
        ensures
            final(self).wf(),
            final(self).abs() == session_settle(
                old(self).abs(),
                now.as_micros(),
                old(self).durations,
                MAX_PHASE_ADVANCES as nat,
            ),
            r == directive_of(final(self).abs(), now.as_micros(), old(self).durations),
            final(self).durations == old(self).durations,
            final(self).timer.as_micros() <= now.as_micros(),
    {
        let ghost start = self.abs();
        let ghost d = self.durations;
        let ghost now_us = now.as_micros();
        let mut advances: u64 = 0;
        loop
            invariant
                self.wf(),
                self.durations == d,
                now.wf(),
                self.timer.as_micros() <= now.as_micros(),
                advances <= MAX_PHASE_ADVANCES,
                now_us == now.as_micros(),
                session_settle(start, now_us, d, MAX_PHASE_ADVANCES as nat) == session_settle(
                    self.abs(),
                    now_us,
                    d,
                    (MAX_PHASE_ADVANCES - advances) as nat,
                ),
            ensures
                self.wf(),
                self.durations == d,
                self.timer.as_micros() <= now.as_micros(),
                self.abs() == session_settle(start, now_us, d, MAX_PHASE_ADVANCES as nat),
            decreases MAX_PHASE_ADVANCES - advances,
        {
            if advances >= MAX_PHASE_ADVANCES {
                break ;
            }
            let elapsed: u64 = now.total_micros() - self.timer.total_micros();
            let queue_len = self.queue.len();
            let due: bool = match self.phase {
                CardDisplayPhase::Idle => queue_len > 0,
                CardDisplayPhase::CardBackRotatingOut => elapsed >= self.durations.rotate,
                CardDisplayPhase::CardFrontRotatingIn => elapsed >= self.durations.rotate,
                CardDisplayPhase::Displaying => self.zoom || elapsed >= self.durations.display,
                CardDisplayPhase::ExtendedDisplaying => queue_len > 0 || elapsed
                    >= self.durations.extended,
                CardDisplayPhase::ZoomingIn => elapsed >= self.durations.zoom,
                CardDisplayPhase::ZoomDisplaying => elapsed >= self.durations.zoom_hold,
                CardDisplayPhase::ZoomingOut => elapsed >= self.durations.zoom,
                CardDisplayPhase::PostZoom => elapsed >= self.durations.post_zoom,
                CardDisplayPhase::CardFrontRotatingOut => elapsed >= self.durations.rotate,
                CardDisplayPhase::CardBackRotatingIn => elapsed >= self.durations.rotate,
            };
            if !due {
                break ;
            }
            let ghost before = self.abs();
            match self.phase {
                CardDisplayPhase::Idle => {
                    let card = match self.queue.pop_front() {
                        Some(c) => c,
                        None => vstd::pervasive::unreached(),
                    };
                    self.display_card = Some(card);
                    self.phase = CardDisplayPhase::CardBackRotatingOut;
                    self.timer = now;
                    self.zoom = false;
                },
                CardDisplayPhase::CardBackRotatingOut => {
                    self.phase = CardDisplayPhase::CardFrontRotatingIn;
                    self.timer = now;
                },
                CardDisplayPhase::CardFrontRotatingIn => {
                    self.phase = CardDisplayPhase::Displaying;
                    self.timer = now;
                },
                CardDisplayPhase::Displaying => {
                    if self.zoom {
                        self.phase = CardDisplayPhase::ZoomingIn;
                    } else if queue_len == 0 {
                        self.phase = CardDisplayPhase::ExtendedDisplaying;
                    } else {
                        self.phase = CardDisplayPhase::CardFrontRotatingOut;
                    }
                    self.timer = now;
                    self.zoom = false;
                },
                CardDisplayPhase::ExtendedDisplaying => {
                    self.phase = CardDisplayPhase::CardFrontRotatingOut;
                    self.timer = now;
                },
                CardDisplayPhase::ZoomingIn => {
                    self.phase = CardDisplayPhase::ZoomDisplaying;
                    self.timer = now;
                },
                CardDisplayPhase::ZoomDisplaying => {
                    self.phase = CardDisplayPhase::ZoomingOut;
                    self.timer = now;
                },
                CardDisplayPhase::ZoomingOut => {
                    self.phase = CardDisplayPhase::PostZoom;
                    self.timer = now;
                },
                CardDisplayPhase::PostZoom => {
                    self.phase = CardDisplayPhase::CardFrontRotatingOut;
                    self.timer = now;
                },
                CardDisplayPhase::CardFrontRotatingOut => {
                    if queue_len == 0 {
                        self.phase = CardDisplayPhase::CardBackRotatingIn;
                        self.timer = now;
                    } else {
                        let card = match self.queue.pop_front() {
                            Some(c) => c,
                            None => vstd::pervasive::unreached(),
                        };
                        self.display_card = Some(card);
                        self.phase = CardDisplayPhase::CardFrontRotatingIn;
                        self.timer = now;
                        self.zoom = false;
                    }
                },
                CardDisplayPhase::CardBackRotatingIn => {
                    self.phase = CardDisplayPhase::Idle;
                    self.display_card = None;
                    self.timer = now;
                    self.zoom = false;
                },
            }
            proof {
                assert(self.abs() == session_step(before, now_us, d));
            }
            advances = advances + 1;
        }
        let elapsed: u64 = now.total_micros() - self.timer.total_micros();
        let limit: u64 = match self.phase {
            CardDisplayPhase::Idle => 1,
            CardDisplayPhase::CardBackRotatingOut => self.durations.rotate,
            CardDisplayPhase::CardFrontRotatingIn => self.durations.rotate,
            CardDisplayPhase::Displaying => self.durations.display,
            CardDisplayPhase::ExtendedDisplaying => self.durations.extended,
            CardDisplayPhase::ZoomingIn => self.durations.zoom,
            CardDisplayPhase::ZoomDisplaying => self.durations.zoom_hold,
            CardDisplayPhase::ZoomingOut => self.durations.zoom,
            CardDisplayPhase::PostZoom => self.durations.post_zoom,
            CardDisplayPhase::CardFrontRotatingOut => self.durations.rotate,
            CardDisplayPhase::CardBackRotatingIn => self.durations.rotate,
        };
        let progress: u32 = if elapsed >= limit {
            UNIT
        } else {
            proof {
                progress_in_unit(elapsed as int, limit as int);
            }
            ((elapsed * (UNIT as u64)) / limit) as u32
        };
        match self.phase {
            CardDisplayPhase::Idle => RenderDirective::Placeholder,
            CardDisplayPhase::CardBackRotatingOut => RenderDirective::BackRotatingOut { progress },
            CardDisplayPhase::CardFrontRotatingIn => {
                let card = self.current_card_clone();
                RenderDirective::FrontRotatingIn { card, progress }
            },
            CardDisplayPhase::Displaying => {
                let card = self.current_card_clone();
                RenderDirective::CardFlat { card }
            },
            CardDisplayPhase::ExtendedDisplaying => {
                let card = self.current_card_clone();
                RenderDirective::CardFlat { card }
            },
            CardDisplayPhase::ZoomingIn => {
                let card = self.current_card_clone();
                RenderDirective::Zooming { card, progress }
            },
            CardDisplayPhase::ZoomDisplaying => {
                let card = self.current_card_clone();
                RenderDirective::Zooming { card, progress: UNIT }
            },
            CardDisplayPhase::ZoomingOut => {
                let card = self.current_card_clone();
                RenderDirective::Zooming { card, progress: UNIT - progress }
            },
            CardDisplayPhase::PostZoom => {
                let card = self.current_card_clone();
                RenderDirective::CardFlat { card }
            },
            CardDisplayPhase::CardFrontRotatingOut => {
                let card = self.current_card_clone();
                RenderDirective::FrontRotatingOut { card, progress }
            },
            CardDisplayPhase::CardBackRotatingIn => RenderDirective::BackRotatingIn { progress },
        }
    }

    /// A copy of the card being shown.
    fn current_card_clone(&self) -> (r: CardRef)
        requires
            self.display_card is Some,
        ensures
            r == self.display_card->0,
    {
        match &self.display_card {
            Some(card) => card.clone(),
            None => vstd::pervasive::unreached(),
        }
    }
}

/// A zoom request while the session is idle is discarded outright: by
/// `queue_zoom`'s contract it sets no pending flag, and an idle session
/// with an empty queue is a fixed point of the frame evaluation, so the
/// next tick leaves the state unchanged.
pub proof fn lemma_idle_session_is_fixed(m: CardDisplayManager, now_us: int, fuel: nat)
    requires
        m.wf(),
        m.phase is Idle,
        m.queue@.len() == 0,
    ensures
        session_settle(m.abs(), now_us, m.durations, fuel) == m.abs(),
{
    assert(!session_due(m.abs(), now_us, m.durations));
}

/// An uncompleted phase's progress fraction stays below `UNIT`.
proof fn progress_in_unit(elapsed: int, limit: int)
    requires
        0 <= elapsed < limit,
    ensures
        0 <= elapsed * UNIT / (limit as int) < UNIT,
        elapsed * UNIT == elapsed * (UNIT as int),
{
    vstd::arithmetic::mul::lemma_mul_nonnegative(elapsed, UNIT as int);
    vstd::arithmetic::div_mod::lemma_div_pos_is_pos(elapsed * UNIT, limit);
    vstd::arithmetic::mul::lemma_mul_strict_inequality(elapsed, limit, UNIT as int);
    vstd::arithmetic::mul::lemma_mul_is_commutative(limit, UNIT as int);
    vstd::arithmetic::div_mod::lemma_multiply_divide_lt(elapsed * UNIT, limit, UNIT as int);
}

} // verus!
