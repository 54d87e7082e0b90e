//! The per-frame orchestrator: advances the clock, drains due timeline
//! events into the subsystems, ticks the life trackers, evaluates the card
//! display and reports what the compositor should draw.

use crate::card_display::{
    directive_of, session_settle, zoom_phase, CardDisplayManager, CardRef, PhaseDurations,
    RenderDirective, MAX_PHASE_ADVANCES,
};
use crate::clock::{TimeTick, MAX_CLOCK_SECONDS, MICROS_PER_SECOND};
use crate::digits::{dec_rep_signed, dec_val, signed_val, valid_signed_literal};
use crate::events::{EventKind, EventTimeline, GameEvent, ParseError, PlayerId};
use crate::life_tracker::{applied_update, op_of_char, stepped_toward, valid_update, LifeTracker};
use vstd::prelude::*;

verus! {

/// How often the displayed life totals move one unit: every quarter second.
pub const LIFE_TICK_MICROS: u64 = 250_000;

/// Whose turn it is; `Nobody` until the first turn change.
#[derive(Clone, Copy, Debug, PartialEq, Eq, Structural)]
pub enum TurnPlayer {
    Nobody,
    One,
    Two,
}

/// The turn holder after one turn change: the players alternate, and the
/// very first change hands the turn to `default`.
pub open spec fn swapped(tp: TurnPlayer, default: TurnPlayer) -> TurnPlayer {
    match tp {
        TurnPlayer::One => TurnPlayer::Two,
        TurnPlayer::Two => TurnPlayer::One,
        TurnPlayer::Nobody => default,
    }
}

/// The turn holder after `n` turn changes.
pub open spec fn turn_player_after(tp: TurnPlayer, default: TurnPlayer, n: int) -> TurnPlayer
    decreases n,
{
    if n <= 0 {
        tp
    } else {
        swapped(turn_player_after(tp, default, n - 1), default)
    }
}

impl TurnPlayer {
    /// Flips the turn to the other player; the first flip of the match goes
    /// to `default`.
    pub fn swap_update(&mut self, default: &TurnPlayer)
        ensures
            *final(self) == swapped(*old(self), *default),
    {
        match &self {
            TurnPlayer::One => {
                *self = TurnPlayer::Two;
            },
            TurnPlayer::Two => {
                *self = TurnPlayer::One;
            },
            TurnPlayer::Nobody => {
                *self = *default;
            },
        }
    }
}

/// The cards played by a run of events, in order.
pub open spec fn cards_of(events: Seq<GameEvent>) -> Seq<CardRef>
    decreases events.len(),
{
    if events.len() == 0 {
        Seq::<CardRef>::empty()
    } else {
        let rest = cards_of(events.drop_last());
        match events.last().kind {
            EventKind::CardPlayed { name, pitch } => rest.push(CardRef { name, pitch }),
            _ => rest,
        }
    }
}

/// Whether a run of events requests a zoom.
pub open spec fn has_zoom(events: Seq<GameEvent>) -> bool
    decreases events.len(),
{
    if events.len() == 0 {
        false
    } else {
        events.last().kind is Zoom || has_zoom(events.drop_last())
    }
}

/// How many turn changes a run of events holds.
pub open spec fn turn_count_of(events: Seq<GameEvent>) -> nat
    decreases events.len(),
{
    if events.len() == 0 {
        0
    } else {
        turn_count_of(events.drop_last()) + if events.last().kind is TurnChanged {
            1nat
        } else {
            0nat
        }
    }
}

/// The recorded winner after a run of events: the last `Won` event decides.
pub open spec fn winner_after(w: Option<PlayerId>, events: Seq<GameEvent>) -> Option<PlayerId>
    decreases events.len(),
{
    if events.len() == 0 {
        w
    } else {
        match events.last().kind {
            EventKind::Won { player } => Some(player),
            _ => winner_after(w, events.drop_last()),
        }
    }
}

/// The life target after a run of events applies its updates for `player`,
/// or `None` as soon as one update token is malformed.
pub open spec fn life_target_after(t: int, events: Seq<GameEvent>, player: PlayerId) -> Option<int>
    decreases events.len(),
{
    if events.len() == 0 {
        Some(t)
    } else {
        match life_target_after(t, events.drop_last(), player) {
            Option::None => Option::<int>::None,
            Some(cur) => match events.last().kind {
                EventKind::LifeChanged { player: p, update } => if p == player {
                    if valid_update(update@) {
                        Some(
                            applied_update(
                                cur,
                                op_of_char(update@[0])->0,
                                dec_val(update@.skip(1)),
                            ),
                        )
                    } else {
                        Option::<int>::None
                    }
                } else {
                    Some(cur)
                },
                _ => Some(cur),
            },
        }
    }
}

/// A `u32` sum held at the type's ceiling.
pub open spec fn sat_u32(x: int) -> u32 {
    if x > u32::MAX {
        u32::MAX as u32
    } else {
        x as u32
    }
}

/// How many events at the front of a sorted queue are due at `now_us`.
pub open spec fn due_prefix_len(events: Seq<GameEvent>, now_us: int) -> nat
    decreases events.len(),
{
    if events.len() == 0 {
        0
    } else if events[0].timestamp.as_micros() <= now_us {
        1 + due_prefix_len(events.drop_first(), now_us)
    } else {
        0
    }
}

/// What one frame hands to the compositor.
#[derive(Debug, PartialEq, Eq)]
pub struct FrameOutput {
    /// How to draw the card panel.
    pub directive: RenderDirective,
    /// Player one's displayed life total as text.
    pub life1: String,
    /// Player two's displayed life total as text.
    pub life2: String,
    /// How many turns have passed; zero hides the turn marker.
    pub turn_counter: u32,
    /// Whose turn it is.
    pub turn_player: TurnPlayer,
    /// The winner, if the match has been decided.
    pub winner: Option<PlayerId>,
}

/// The orchestrator's whole mutable state: the clock, the pending timeline,
/// the card display, both life trackers and the scoreboard facts.
pub struct OverlayState {
    pub clock: TimeTick,
    pub timeline: EventTimeline,
    pub session: CardDisplayManager,
    pub player1_life: LifeTracker,
    pub player2_life: LifeTracker,
    pub turn_counter: u32,
    pub turn_player: TurnPlayer,
    pub first_turn_player: TurnPlayer,
    pub winner: Option<PlayerId>,
    pub player1_name: String,
    pub player2_name: String,
}

/// The first four timeline rows: the two hero-init rows in either order,
/// then the two life rows that establish whose life column appears first.
pub open spec fn header_ok(s: Seq<GameEvent>) -> bool {
    &&& s.len() >= 4
    &&& ((s[0].kind is Hero1Init && s[1].kind is Hero2Init) || (s[0].kind is Hero2Init
        && s[1].kind is Hero1Init))
    &&& s[2].kind is LifeChanged
    &&& s[3].kind is LifeChanged
}

/// Player one's hero name in a well-formed header.
pub open spec fn hero1_name_of(s: Seq<GameEvent>) -> Seq<char> {
    if s[0].kind is Hero1Init {
        s[0].kind->Hero1Init_name@
    } else {
        s[1].kind->Hero1Init_name@
    }
}

/// Player one's starting life token in a well-formed header.
pub open spec fn hero1_life_of(s: Seq<GameEvent>) -> Seq<char> {
    if s[0].kind is Hero1Init {
        s[0].kind->Hero1Init_life@
    } else {
        s[1].kind->Hero1Init_life@
    }
}

/// Player two's hero name in a well-formed header.
pub open spec fn hero2_name_of(s: Seq<GameEvent>) -> Seq<char> {
    if s[0].kind is Hero2Init {
        s[0].kind->Hero2Init_name@
    } else {
        s[1].kind->Hero2Init_name@
    }
}

/// Player two's starting life token in a well-formed header.
pub open spec fn hero2_life_of(s: Seq<GameEvent>) -> Seq<char> {
    if s[0].kind is Hero2Init {
        s[0].kind->Hero2Init_life@
    } else {
        s[1].kind->Hero2Init_life@
    }
}

/// A starting life token is a number an `i32` can hold.
pub open spec fn life_token_ok(t: Seq<char>) -> bool {
    valid_signed_literal(t) && i32::MIN <= signed_val(t) <= i32::MAX
}

/// The player whose life column appears in the header's first life row:
/// that player takes the first turn.
pub open spec fn first_turn_of(s: Seq<GameEvent>) -> TurnPlayer {
    if s[2].kind->LifeChanged_player is One {
        TurnPlayer::One
    } else {
        TurnPlayer::Two
    }
}

impl OverlayState {
    /// Everything the per-frame step relies on: normalized clock and
    /// timers, an ordered timeline and sound subsystems.
    pub open spec fn wf(self) -> bool {
        &&& self.clock.wf()
        &&& self.timeline.wf()
        &&& self.session.wf()
        &&& self.session.timer.as_micros() <= self.clock.as_micros()
        &&& self.player1_life.wf()
        &&& self.player2_life.wf()
    }

    /// Builds the render state from the parsed annotation rows: consumes
    /// the four header rows, seeds names, life totals and turn order, and
    /// queues the rest as the pending timeline.
    pub fn build(events: Vec<GameEvent>, increment_us: u64, durations: PhaseDurations) -> (r:
        Result<OverlayState, ParseError>)
        requires
            increment_us >= 1,
            durations.wf(),
        ensures
            r is Ok <==> header_ok(events@) && life_token_ok(hero1_life_of(events@))
                && life_token_ok(hero2_life_of(events@)) && crate::events::events_sorted(
                events@.skip(4),
            ) && crate::events::events_wf(events@.skip(4)),
            !header_ok(events@) ==> r == Err::<OverlayState, ParseError>(ParseError::BadHeader),
            header_ok(events@) && !(life_token_ok(hero1_life_of(events@)) && life_token_ok(
                hero2_life_of(events@),
            )) ==> r == Err::<OverlayState, ParseError>(ParseError::BadLife),
            r is Err && header_ok(events@) && life_token_ok(hero1_life_of(events@))
                && life_token_ok(hero2_life_of(events@)) ==> r == Err::<
                OverlayState,
                ParseError,
            >(ParseError::OutOfOrder),
            r is Ok ==> ({
                let s = r->Ok_0;
                &&& s.wf()
                &&& s.clock.as_micros() == 0
                &&& s.timeline.events@ == events@.skip(4)
                &&& s.player1_name@ == hero1_name_of(events@)
                &&& s.player2_name@ == hero2_name_of(events@)
                &&& s.player1_life.current == signed_val(hero1_life_of(events@))
                &&& s.player1_life.display == s.player1_life.current
                &&& s.player2_life.current == signed_val(hero2_life_of(events@))
                &&& s.player2_life.display == s.player2_life.current
                &&& s.turn_counter == 0
                &&& s.turn_player is Nobody
                &&& s.first_turn_player == first_turn_of(events@)
                &&& s.winner is None
                &&& s.session.phase is Idle
                &&& s.session.queue@ == Seq::<CardRef>::empty()
                &&& s.session.durations == durations
            }),
    {
        if events.len() < 4 {
            return Err(ParseError::BadHeader);
        }
        let first_is_hero1 = match &events[0].kind {
            EventKind::Hero1Init { .. } => true,
            _ => false,
        };
        let (name1, life1, name2, life2): (String, String, String, String) = {
            if first_is_hero1 {
                match (&events[0].kind, &events[1].kind) {
                    (
                        EventKind::Hero1Init { name: n1, life: l1 },
                        EventKind::Hero2Init { name: n2, life: l2 },
                    ) => (n1.clone(), l1.clone(), n2.clone(), l2.clone()),
                    _ => {
                        return Err(ParseError::BadHeader);
                    },
                }
            } else {
                match (&events[0].kind, &events[1].kind) {
                    (
                        EventKind::Hero2Init { name: n2, life: l2 },
                        EventKind::Hero1Init { name: n1, life: l1 },
                    ) => (n1.clone(), l1.clone(), n2.clone(), l2.clone()),
                    _ => {
                        return Err(ParseError::BadHeader);
                    },
                }
            }
        };
        let first_turn_player = match &events[2].kind {
            EventKind::LifeChanged { player: PlayerId::One, .. } => TurnPlayer::One,
            EventKind::LifeChanged { player: PlayerId::Two, .. } => TurnPlayer::Two,
            _ => {
                return Err(ParseError::BadHeader);
            },
        };
        match &events[3].kind {
            EventKind::LifeChanged { .. } => {},
            _ => {
                return Err(ParseError::BadHeader);
            },
        }
        if crate::digits::parse_i32(life1.as_str()).is_none() {
            return Err(ParseError::BadLife);
        }
        if crate::digits::parse_i32(life2.as_str()).is_none() {
            return Err(ParseError::BadLife);
        }
        let player1_life = LifeTracker::build(life1.as_str(), LIFE_TICK_MICROS, increment_us);
        let player2_life = LifeTracker::build(life2.as_str(), LIFE_TICK_MICROS, increment_us);
        let ghost all = events@;
        let mut rest = events;
        let _ = rest.remove(0);
        let _ = rest.remove(0);
        let _ = rest.remove(0);
        let _ = rest.remove(0);
        proof {
            assert(rest@ =~= all.skip(4));
        }
        let timeline = match EventTimeline::build(rest) {
            Ok(t) => t,
            Err(e) => {
                return Err(e);
            },
        };
        let clock = TimeTick::new();
        let session = CardDisplayManager::new(&clock, durations);
        Ok(
            OverlayState {
                clock,
                timeline,
                session,
                player1_life,
                player2_life,
                turn_counter: 0,
                turn_player: TurnPlayer::Nobody,
                first_turn_player,
                winner: None,
                player1_name: name1,
                player2_name: name2,
            },
        )
    }

    /// One frame, evaluated in the deterministic order the render loop
    /// promises: advance the clock, drain every due timeline event into its
    /// subsystem, tick both life trackers, evaluate the card display and
    /// report the frame's drawing facts.  A malformed life-update token
    /// aborts with an error instead of desynchronizing the overlay.
    #[verifier::rlimit(80)]
    pub fn step_frame(&mut self, increment_us: u64) -> (r: Result<FrameOutput, ParseError>)
        requires
            old(self).wf(),
            old(self).clock.as_micros() + increment_us <= MAX_CLOCK_SECONDS * MICROS_PER_SECOND,
        ensures
            final(self).wf(),
            final(self).clock.as_micros() == old(self).clock.as_micros() + increment_us,
            final(self).first_turn_player == old(self).first_turn_player,
            final(self).player1_name == old(self).player1_name,
            final(self).player2_name == old(self).player2_name,
            final(self).session.durations == old(self).session.durations,
            r is Ok ==> ({
                let now_us = old(self).clock.as_micros() + increment_us;
                let k = due_prefix_len(old(self).timeline.events@, now_us);
                let p = old(self).timeline.events@.take(k as int);
                let d = old(self).session.durations;
                let zoomed = old(self).session.zoom || (has_zoom(p)
                    && old(self).session.display_card is Some && !zoom_phase(
                    old(self).session.phase,
                ));
                &&& final(self).timeline.events@ == old(self).timeline.events@.skip(k as int)
                &&& final(self).turn_counter == sat_u32(
                    old(self).turn_counter + turn_count_of(p),
                )
                &&& final(self).turn_player == turn_player_after(
                    old(self).turn_player,
                    old(self).first_turn_player,
                    turn_count_of(p) as int,
                )
                &&& final(self).winner == winner_after(old(self).winner, p)
                &&& Some(final(self).player1_life.current as int) == life_target_after(
                    old(self).player1_life.current as int,
                    p,
                    PlayerId::One,
                )
                &&& Some(final(self).player2_life.current as int) == life_target_after(
                    old(self).player2_life.current as int,
                    p,
                    PlayerId::Two,
                )
                &&& final(self).player1_life.display as int == (if old(self).player1_life.ticker
                    + 1 == old(self).player1_life.ticker_max {
                    stepped_toward(
                        old(self).player1_life.display as int,
                        final(self).player1_life.current as int,
                    )
                } else {
                    old(self).player1_life.display as int
                })
                &&& final(self).player2_life.display as int == (if old(self).player2_life.ticker
                    + 1 == old(self).player2_life.ticker_max {
                    stepped_toward(
                        old(self).player2_life.display as int,
                        final(self).player2_life.current as int,
                    )
                } else {
                    old(self).player2_life.display as int
                })
                &&& final(self).session.abs() == session_settle(
                    (
                        old(self).session.phase,
                        old(self).session.queue@ + cards_of(p),
                        old(self).session.display_card,
                        old(self).session.timer.as_micros(),
                        zoomed,
                    ),
                    now_us,
                    d,
                    MAX_PHASE_ADVANCES as nat,
                )
                &&& r->Ok_0.directive == directive_of(final(self).session.abs(), now_us, d)
                &&& r->Ok_0.life1@ == dec_rep_signed(final(self).player1_life.display as int)
                &&& r->Ok_0.life2@ == dec_rep_signed(final(self).player2_life.display as int)
                &&& r->Ok_0.turn_counter == final(self).turn_counter
                &&& r->Ok_0.turn_player == final(self).turn_player
                &&& r->Ok_0.winner == final(self).winner
            }),
            r is Err ==> r->Err_0 is BadLife,
            r is Err ==> ({
                let now_us = old(self).clock.as_micros() + increment_us;
                let k = due_prefix_len(old(self).timeline.events@, now_us);
                exists|j: int|
                    0 <= j < k && ((#[trigger] life_target_after(
                        old(self).player1_life.current as int,
                        old(self).timeline.events@.take(j + 1),
                        PlayerId::One,
                    )) is None || (#[trigger] life_target_after(
                        old(self).player2_life.current as int,
                        old(self).timeline.events@.take(j + 1),
                        PlayerId::Two,
                    )) is None)
            }),
    {
        self.clock.advance(increment_us);
        let ghost now_us = self.clock.as_micros();
        let ghost pending0 = self.timeline.events@;
        let ghost k = due_prefix_len(pending0, now_us);
        let ghost q0 = self.session.queue@;
        let ghost s0 = *self;
        let ghost mut i: int = 0;
        loop
            invariant
                0 <= i <= pending0.len(),
                s0.clock.as_micros() == old(self).clock.as_micros() + increment_us,
                s0.player1_life == old(self).player1_life,
                s0.player2_life == old(self).player2_life,
                pending0 == old(self).timeline.events@,
                k == due_prefix_len(pending0, now_us),
                s0.player1_name == old(self).player1_name,
                s0.player2_name == old(self).player2_name,
                s0.first_turn_player == old(self).first_turn_player,
                s0.session.durations == old(self).session.durations,
                self.clock == s0.clock,
                self.clock.wf(),
                now_us == self.clock.as_micros(),
                self.timeline.wf(),
                self.timeline.events@ =~= pending0.skip(i),
                k == i + due_prefix_len(self.timeline.events@, now_us),
                i <= k,
                self.session.wf(),
                self.session.phase == s0.session.phase,
                self.session.display_card == s0.session.display_card,
                self.session.timer == s0.session.timer,
                self.session.durations == s0.session.durations,
                self.session.queue@ =~= q0 + cards_of(pending0.take(i)),
                self.session.zoom == (s0.session.zoom || (has_zoom(pending0.take(i))
                    && s0.session.display_card is Some && !zoom_phase(s0.session.phase))),
                self.session.timer.as_micros() <= self.clock.as_micros(),
                self.turn_counter == sat_u32(s0.turn_counter + turn_count_of(pending0.take(i))),
                self.turn_player == turn_player_after(
                    s0.turn_player,
                    s0.first_turn_player,
                    turn_count_of(pending0.take(i)) as int,
                ),
                self.winner == winner_after(s0.winner, pending0.take(i)),
                self.player1_life.wf(),
                self.player2_life.wf(),
                Some(self.player1_life.current as int) == life_target_after(
                    s0.player1_life.current as int,
                    pending0.take(i),
                    PlayerId::One,
                ),
                Some(self.player2_life.current as int) == life_target_after(
                    s0.player2_life.current as int,
                    pending0.take(i),
                    PlayerId::Two,
                ),
                self.player1_life.display == s0.player1_life.display,
                self.player1_life.ticker == s0.player1_life.ticker,
                self.player1_life.ticker_max == s0.player1_life.ticker_max,
                self.player2_life.display == s0.player2_life.display,
                self.player2_life.ticker == s0.player2_life.ticker,
                self.player2_life.ticker_max == s0.player2_life.ticker_max,
                self.first_turn_player == s0.first_turn_player,
                self.player1_name == s0.player1_name,
                self.player2_name == s0.player2_name,
            ensures
                i == k,
                self.timeline.events@ =~= pending0.skip(k as int),
            decreases self.timeline.events@.len(),
        {
            let ghost before = self.timeline.events@;
            let next = self.timeline.pop_due(&self.clock);
            match next {
                Option::None => {
                    proof {
                        assert(due_prefix_len(before, now_us) == 0);
                    }
                    break ;
                },
                Some(e) => {
                    proof {
                        assert(e == pending0[i]);
                        assert(pending0.take(i + 1).drop_last() =~= pending0.take(i));
                        assert(pending0.take(i + 1).last() == pending0[i]);
                        assert(pending0.skip(i).drop_first() =~= pending0.skip(i + 1));
                    }
                    match e.kind {
                        EventKind::CardPlayed { name, pitch } => {
                            self.session.add_card_to_queue(CardRef { name, pitch });
                        },
                        EventKind::Zoom => {
                            self.session.queue_zoom();
                        },
                        EventKind::TurnChanged => {
                            if self.turn_counter < u32::MAX {
                                self.turn_counter = self.turn_counter + 1;
                            }
                            let default = self.first_turn_player;
                            self.turn_player.swap_update(&default);
                        },
                        EventKind::LifeChanged { player, update } => {
                            let outcome = match player {
                                PlayerId::One => self.player1_life.update(update.as_str()),
                                PlayerId::Two => self.player2_life.update(update.as_str()),
                            };
                            if outcome.is_err() {
                                proof {
                                    assert(0 <= i < k);
                                    assert(k == due_prefix_len(
                                        old(self).timeline.events@,
                                        old(self).clock.as_micros() + increment_us,
                                    ));
                                    assert((life_target_after(
                                        old(self).player1_life.current as int,
                                        old(self).timeline.events@.take(i + 1),
                                        PlayerId::One,
                                    )) is None || (life_target_after(
                                        old(self).player2_life.current as int,
                                        old(self).timeline.events@.take(i + 1),
                                        PlayerId::Two,
                                    )) is None);
                                }
                                return Err(ParseError::BadLife);
                            }
                        },
                        EventKind::Won { player } => {
                            self.winner = Some(player);
                        },
                        EventKind::Hero1Init { .. } => {
                            // hero rows belong to setup; a stray one mid-run
                            // changes nothing
                        },
                        EventKind::Hero2Init { .. } => {},
                    }
                    proof {
                        i = i + 1;
                    }
                },
            }
        }
        proof {
            assert(pending0.take(k as int) =~= pending0.take(i));
        }
        self.player1_life.tick_display();
        self.player2_life.tick_display();
        let directive = self.session.tick(self.clock);
        Ok(
            FrameOutput {
                directive,
                life1: self.player1_life.display(),
                life2: self.player2_life.display(),
                turn_counter: self.turn_counter,
                turn_player: self.turn_player,
                winner: self.winner,
            },
        )
    }

    /// Whether the clock has passed an optional whole-second time limit.
    pub fn past_limit(&self, limit_seconds: u64) -> (r: bool)
        requires
            self.wf(),
        ensures
            r == (self.clock.as_micros() > limit_seconds * MICROS_PER_SECOND),
    {
        self.clock.sec > limit_seconds || (self.clock.sec == limit_seconds && self.clock.micro > 0)
    }
}

} // verus!
