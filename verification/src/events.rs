//! The event timeline: parsing tab-separated annotation rows into typed
//! game events, and the ordered queue they are replayed from.

use crate::clock::{TimeTick, MAX_CLOCK_SECONDS, MICROS_PER_SECOND};
use crate::digits::{all_digits, dec_val, parse_u32, valid_unsigned_literal};
use crate::textops::{push_char, str_eq, trim_spaces, trimmed};
use std::collections::VecDeque;
use vstd::prelude::*;
use vstd::string::StrSliceExecFns;

verus! {

/// One of the two players.
#[derive(Clone, Copy, Debug, PartialEq, Eq, Structural)]
pub enum PlayerId {
    One,
    Two,
}

/// Why a timeline row was rejected.  A corrupt annotation file cannot be
/// skipped safely, so any of these aborts the run.
#[derive(Clone, Copy, Debug, PartialEq, Eq, Structural)]
pub enum ParseError {
    /// The row does not have exactly the seven tab-separated columns.
    FieldCount,
    /// The `sec` or `milli` column is not a number the clock can hold.
    BadTimestamp,
    /// The `pitch` column is neither empty nor a number.
    BadPitch,
    /// The `update_type` column names no known kind of event.
    BadUpdateType,
    /// A row that needs a card or hero name has none.
    MissingName,
    /// A row that needs a life column has none (or a `life` row has both).
    MissingLife,
    /// The rows are not in non-decreasing timestamp order.
    OutOfOrder,
    /// The first four rows are not two hero rows followed by two life rows.
    BadHeader,
    /// A starting life total is not a number.
    BadLife,
}

/// What happened at one instant of the match.
#[derive(Debug, PartialEq, Eq)]
pub enum EventKind {
    /// Hero identity and starting life for player one, consumed at setup.
    Hero1Init { name: String, life: String },
    /// Hero identity and starting life for player two, consumed at setup.
    Hero2Init { name: String, life: String },
    /// A card was played: queue it for display.
    CardPlayed { name: String, pitch: Option<u32> },
    /// The turn passed to the other player.
    TurnChanged,
    /// One player's life changed by the given update token.
    LifeChanged { player: PlayerId, update: String },
    /// A zoom of the currently displayed card was requested.
    Zoom,
    /// The given player won; the hero panel keeps the win color from here.
    Won { player: PlayerId },
}

/// A timestamped game event.
#[derive(Debug, PartialEq, Eq)]
pub struct GameEvent {
    pub timestamp: TimeTick,
    pub kind: EventKind,
}

/// The views of a list of field strings.
pub open spec fn views_of(fields: Seq<String>) -> Seq<Seq<char>> {
    fields.map_values(|f: String| f@)
}

/// A line divided at its tab characters: a tab at the end contributes one
/// empty field, and every other character extends the last field.
pub open spec fn split_tabs_spec(s: Seq<char>) -> Seq<Seq<char>>
    decreases s.len(),
{
    if s.len() == 0 {
        seq![Seq::<char>::empty()]
    } else {
        let prev = split_tabs_spec(s.drop_last());
        if s.last() == '\t' {
            prev.push(Seq::<char>::empty())
        } else {
            prev.update(prev.len() - 1, prev.last().push(s.last()))
        }
    }
}

/// Splits a line at its tabs.
pub fn split_tabs(line: &str) -> (r: Vec<String>)
    ensures
        views_of(r@) =~= split_tabs_spec(line@),
        r@.len() >= 1,
{
    let n = line.unicode_len();
    let mut fields: Vec<String> = Vec::new();
    let mut cur = String::new();
    let mut i: usize = 0;
    while i < n
        invariant
            i <= n,
            n == line@.len(),
            split_tabs_spec(line@.take(i as int)) =~= views_of(fields@).push(cur@),
        decreases n - i,
    {
        let c = line.get_char(i);
        let ghost prev_fields = fields@;
        let ghost prev_cur = cur@;
        i = i + 1;
        if c == '\t' {
            fields.push(cur);
            cur = String::new();
        } else {
            push_char(&mut cur, c);
        }
        proof {
            assert(line@.take(i as int).drop_last() =~= line@.take(i - 1));
            assert(line@.take(i as int).last() == c);
            if c == '\t' {
                assert(views_of(fields@).push(cur@) =~= views_of(prev_fields).push(
                    prev_cur,
                ).push(Seq::<char>::empty()));
            } else {
                assert(views_of(fields@).push(cur@) =~= views_of(prev_fields).push(
                    prev_cur,
                ).update(prev_fields.len() as int, prev_cur.push(c)));
            }
        }
    }
    proof {
        assert(line@.take(n as int) =~= line@);
    }
    fields.push(cur);
    fields
}

/// The total microseconds named by a row's `sec` and `milli` columns.
pub open spec fn ts_micros_of(sec: Seq<char>, milli: Seq<char>) -> int {
    dec_val(sec) * (MICROS_PER_SECOND as int) + dec_val(milli) * 1000
}

/// The timestamp columns hold numbers the clock can carry.
pub open spec fn valid_timestamp(sec: Seq<char>, milli: Seq<char>) -> bool {
    &&& valid_unsigned_literal(sec)
    &&& dec_val(sec) <= u32::MAX
    &&& valid_unsigned_literal(milli)
    &&& dec_val(milli) <= u32::MAX
    &&& ts_micros_of(sec, milli) <= MAX_CLOCK_SECONDS * MICROS_PER_SECOND
}

/// The pitch column is empty or a number.
pub open spec fn valid_pitch_field(f: Seq<char>) -> bool {
    f.len() == 0 || (all_digits(f) && dec_val(f) <= u32::MAX)
}

/// The pitch tag a row carries: none when the column is empty.
pub open spec fn pitch_of_field(f: Seq<char>) -> Option<u32> {
    if f.len() == 0 {
        None
    } else {
        Some(dec_val(f) as u32)
    }
}

/// The eight update-type tokens name eight different kinds: each pair
/// differs in length or in some character.
pub proof fn lemma_update_tokens_distinct()
    ensures
        "hero1"@ != "hero2"@,
        "hero1"@ != "card"@,
        "hero1"@ != "turn"@,
        "hero1"@ != "life"@,
        "hero1"@ != "zoom"@,
        "hero1"@ != "win1"@,
        "hero1"@ != "win2"@,
        "hero2"@ != "card"@,
        "hero2"@ != "turn"@,
        "hero2"@ != "life"@,
        "hero2"@ != "zoom"@,
        "hero2"@ != "win1"@,
        "hero2"@ != "win2"@,
        "card"@ != "turn"@,
        "card"@ != "life"@,
        "card"@ != "zoom"@,
        "card"@ != "win1"@,
        "card"@ != "win2"@,
        "turn"@ != "life"@,
        "turn"@ != "zoom"@,
        "turn"@ != "win1"@,
        "turn"@ != "win2"@,
        "life"@ != "zoom"@,
        "life"@ != "win1"@,
        "life"@ != "win2"@,
        "zoom"@ != "win1"@,
        "zoom"@ != "win2"@,
        "win1"@ != "win2"@,
{
    reveal_strlit("hero1");
    reveal_strlit("hero2");
    reveal_strlit("card");
    reveal_strlit("turn");
    reveal_strlit("life");
    reveal_strlit("zoom");
    reveal_strlit("win1");
    reveal_strlit("win2");
    assert("hero1"@.len() == 5);
    assert("hero2"@.len() == 5);
    assert("card"@.len() == 4);
    assert("turn"@.len() == 4);
    assert("life"@.len() == 4);
    assert("zoom"@.len() == 4);
    assert("win1"@.len() == 4);
    assert("win2"@.len() == 4);
    assert("hero1"@[4] == '1');
    assert("hero2"@[4] == '2');
    assert("card"@[0] == 'c');
    assert("turn"@[0] == 't');
    assert("life"@[0] == 'l');
    assert("zoom"@[0] == 'z');
    assert("win1"@[0] == 'w');
    assert("win2"@[0] == 'w');
    assert("win1"@[3] == '1');
    assert("win2"@[3] == '2');
}

/// The update-type tokens the timeline grammar knows.
pub open spec fn known_update_type(u: Seq<char>) -> bool {
    u == "hero1"@ || u == "hero2"@ || u == "card"@ || u == "turn"@ || u == "life"@ || u == "zoom"@
        || u == "win1"@ || u == "win2"@
}

/// A well-formed row: seven columns, a timestamp in range, a valid pitch,
/// a known update type, and the columns that type needs.
pub open spec fn row_fields_ok(fs: Seq<Seq<char>>) -> bool {
    let u = trimmed(fs[6]);
    &&& fs.len() == 7
    &&& valid_timestamp(fs[0], fs[1])
    &&& valid_pitch_field(fs[3])
    &&& known_update_type(u)
    &&& (u == "hero1"@ ==> fs[2].len() > 0 && fs[4].len() > 0)
    &&& (u == "hero2"@ ==> fs[2].len() > 0 && fs[5].len() > 0)
    &&& (u == "card"@ ==> fs[2].len() > 0)
    &&& (u == "life"@ ==> (fs[4].len() > 0 && fs[5].len() == 0) || (fs[4].len() == 0 && fs[5].len()
        > 0))
}

/// The event a well-formed row denotes.
pub open spec fn event_matches_row(e: GameEvent, fs: Seq<Seq<char>>) -> bool {
    let u = trimmed(fs[6]);
    &&& e.timestamp.wf()
    &&& e.timestamp.as_micros() == ts_micros_of(fs[0], fs[1])
    &&& (u == "hero1"@ ==> (e.kind matches EventKind::Hero1Init { name, life } && name@ == fs[2]
        && life@ == fs[4]))
    &&& (u == "hero2"@ ==> (e.kind matches EventKind::Hero2Init { name, life } && name@ == fs[2]
        && life@ == fs[5]))
    &&& (u == "card"@ ==> (e.kind matches EventKind::CardPlayed { name, pitch } && name@ == fs[2]
        && pitch == pitch_of_field(fs[3])))
    &&& (u == "turn"@ ==> e.kind is TurnChanged)
    &&& (u == "life"@ && fs[4].len() > 0 ==> (e.kind matches EventKind::LifeChanged {
        player,
        update,
    } && player is One && update@ == fs[4]))
    &&& (u == "life"@ && fs[4].len() == 0 ==> (e.kind matches EventKind::LifeChanged {
        player,
        update,
    } && player is Two && update@ == fs[5]))
    &&& (u == "zoom"@ ==> e.kind is Zoom)
    &&& (u == "win1"@ ==> (e.kind matches EventKind::Won { player } && player is One))
    &&& (u == "win2"@ ==> (e.kind matches EventKind::Won { player } && player is Two))
}

/// The error a malformed row is rejected with, in the order the checks run.
pub open spec fn row_error(fs: Seq<Seq<char>>) -> ParseError {
    let u = trimmed(fs[6]);
    if fs.len() != 7 {
        ParseError::FieldCount
    } else if !valid_timestamp(fs[0], fs[1]) {
        ParseError::BadTimestamp
    } else if !valid_pitch_field(fs[3]) {
        ParseError::BadPitch
    } else if !known_update_type(u) {
        ParseError::BadUpdateType
    } else if (u == "hero1"@ || u == "hero2"@ || u == "card"@) && fs[2].len() == 0 {
        ParseError::MissingName
    } else if u == "hero1"@ && fs[4].len() == 0 {
        ParseError::MissingLife
    } else if u == "hero2"@ && fs[5].len() == 0 {
        ParseError::MissingLife
    } else {
        ParseError::MissingLife
    }
}

/// Parses one row's columns into a game event; rejects anything
/// `row_fields_ok` refuses, naming the first violated constraint.
pub fn parse_row(fields: &Vec<String>) -> (r: Result<GameEvent, ParseError>)
    ensures
        r is Ok <==> row_fields_ok(views_of(fields@)),
        r is Ok ==> event_matches_row(r->Ok_0, views_of(fields@)),
        r is Err ==> r->Err_0 == row_error(views_of(fields@)),
{
    let ghost fs = views_of(fields@);
    proof {
        reveal_strlit("hero1");
        reveal_strlit("hero2");
        reveal_strlit("card");
        reveal_strlit("turn");
        reveal_strlit("life");
        reveal_strlit("zoom");
        reveal_strlit("win1");
        reveal_strlit("win2");
        lemma_update_tokens_distinct();
        assert forall|k: int| 0 <= k < fields@.len() implies fs[k] == fields@[k]@ by {}
    }
    if fields.len() != 7 {
        return Err(ParseError::FieldCount);
    }
    let sec: u32 = match parse_u32(fields[0].as_str()) {
        Some(v) => v,
        None => {
            return Err(ParseError::BadTimestamp);
        },
    };
    let milli: u32 = match parse_u32(fields[1].as_str()) {
        Some(v) => v,
        None => {
            return Err(ParseError::BadTimestamp);
        },
    };
    let total: u64 = sec as u64 * MICROS_PER_SECOND + milli as u64 * 1000;
    if total > MAX_CLOCK_SECONDS * MICROS_PER_SECOND {
        return Err(ParseError::BadTimestamp);
    }
    let timestamp = TimeTick::build(sec as u64, milli as u64 * 1000);
    let pitch: Option<u32> = if fields[3].as_str().unicode_len() == 0 {
        None
    } else {
        match parse_u32(fields[3].as_str()) {
            Some(v) => Some(v),
            None => {
                return Err(ParseError::BadPitch);
            },
        }
    };
    let has_name = fields[2].as_str().unicode_len() > 0;
    let has_p1 = fields[4].as_str().unicode_len() > 0;
    let has_p2 = fields[5].as_str().unicode_len() > 0;
    let utype = trim_spaces(fields[6].as_str());
    if str_eq(utype, "hero1") {
        if !has_name {
            return Err(ParseError::MissingName);
        }
        if !has_p1 {
            return Err(ParseError::MissingLife);
        }
        Ok(
            GameEvent {
                timestamp,
                kind: EventKind::Hero1Init { name: fields[2].clone(), life: fields[4].clone() },
            },
        )
    } else if str_eq(utype, "hero2") {
        if !has_name {
            return Err(ParseError::MissingName);
        }
        if !has_p2 {
            return Err(ParseError::MissingLife);
        }
        Ok(
            GameEvent {
                timestamp,
                kind: EventKind::Hero2Init { name: fields[2].clone(), life: fields[5].clone() },
            },
        )
    } else if str_eq(utype, "card") {
        if !has_name {
            return Err(ParseError::MissingName);
        }
        Ok(GameEvent { timestamp, kind: EventKind::CardPlayed { name: fields[2].clone(), pitch } })
    } else if str_eq(utype, "turn") {
        Ok(GameEvent { timestamp, kind: EventKind::TurnChanged })
    } else if str_eq(utype, "life") {
        if has_p1 && !has_p2 {
            Ok(
                GameEvent {
                    timestamp,
                    kind: EventKind::LifeChanged { player: PlayerId::One, update: fields[4].clone() },
                },
            )
        } else if has_p2 && !has_p1 {
            Ok(
                GameEvent {
                    timestamp,
                    kind: EventKind::LifeChanged { player: PlayerId::Two, update: fields[5].clone() },
                },
            )
        } else {
            Err(ParseError::MissingLife)
        }
    } else if str_eq(utype, "zoom") {
        Ok(GameEvent { timestamp, kind: EventKind::Zoom })
    } else if str_eq(utype, "win1") {
        Ok(GameEvent { timestamp, kind: EventKind::Won { player: PlayerId::One } })
    } else if str_eq(utype, "win2") {
        Ok(GameEvent { timestamp, kind: EventKind::Won { player: PlayerId::Two } })
    } else {
        Err(ParseError::BadUpdateType)
    }
}

/// Parses one annotation line: splits it at tabs and reads the row.
pub fn parse_line(line: &str) -> (r: Result<GameEvent, ParseError>)
    ensures
        r is Ok <==> row_fields_ok(split_tabs_spec(line@)),
        r is Ok ==> event_matches_row(r->Ok_0, split_tabs_spec(line@)),
        r is Err ==> r->Err_0 == row_error(split_tabs_spec(line@)),
{
    let fields = split_tabs(line);
    parse_row(&fields)
}

/// Timestamps never decrease along the sequence.
pub open spec fn events_sorted(s: Seq<GameEvent>) -> bool {
    forall|i: int|
        0 <= i && i + 1 < s.len() ==> (#[trigger] s[i]).timestamp.as_micros()
            <= s[i + 1].timestamp.as_micros()
}

/// Every event carries a normalized timestamp.
pub open spec fn events_wf(s: Seq<GameEvent>) -> bool {
    forall|i: int| 0 <= i < s.len() ==> (#[trigger] s[i]).timestamp.wf()
}

/// The pre-sorted queue of pending events, consumed front to back as the
/// clock advances.
pub struct EventTimeline {
    pub events: VecDeque<GameEvent>,
}

impl EventTimeline {
    /// Events are ordered and normalized.
    pub open spec fn wf(self) -> bool {
        events_sorted(self.events@) && events_wf(self.events@)
    }

    /// Wraps a list of parsed events, refusing one that is out of order or
    /// carries a denormalized timestamp.
    pub fn build(events: Vec<GameEvent>) -> (r: Result<EventTimeline, ParseError>)
        ensures
            r is Ok <==> events_sorted(events@) && events_wf(events@),
            r is Ok ==> r->Ok_0.events@ == events@ && r->Ok_0.wf(),
            r is Err ==> r->Err_0 is OutOfOrder,
    {
        let n = events.len();
        let mut i: usize = 0;
        while i < n
            invariant
                i <= n,
                n == events@.len(),
                forall|k: int| 0 <= k < i ==> (#[trigger] events@[k]).timestamp.wf(),
                forall|k: int|
                    0 <= k && k + 1 <= i && k + 1 < n ==> (#[trigger] events@[k]).timestamp.as_micros()
                        <= events@[k + 1].timestamp.as_micros(),
            decreases n - i,
        {
            if events[i].timestamp.micro >= MICROS_PER_SECOND || events[i].timestamp.sec
                > MAX_CLOCK_SECONDS {
                return Err(ParseError::OutOfOrder);
            }
            if i + 1 < n {
                let a = &events[i].timestamp;
                let b = &events[i + 1].timestamp;
                if a.sec > b.sec || (a.sec == b.sec && a.micro > b.micro) {
                    proof {
                        if events@[i + 1].timestamp.wf() {
                            assert(events@[i as int].timestamp.as_micros() > events@[i
                                + 1].timestamp.as_micros());
                        }
                    }
                    return Err(ParseError::OutOfOrder);
                }
            }
            i = i + 1;
        }
        let mut queue: VecDeque<GameEvent> = VecDeque::new();
        let mut items = events;
        let ghost all = items@;
        loop
            invariant
                items@.len() <= all.len(),
                queue@ =~= all.skip(items@.len() as int),
                items@ =~= all.take(items@.len() as int),
            ensures
                queue@ =~= all,
            decreases items@.len(),
        {
            let ghost k = items@.len() as int;
            match items.pop() {
                Some(e) => {
                    queue.push_front(e);
                    proof {
                        assert(all.take(k).drop_last() =~= all.take(k - 1));
                        assert(all.take(k).last() == all[k - 1]);
                        assert(seq![all[k - 1]] + all.skip(k) =~= all.skip(k - 1));
                    }
                },
                None => {
                    proof {
                        assert(all.skip(0) =~= all);
                    }
                    break ;
                },
            }
        }
        Ok(EventTimeline { events: queue })
    }

    /// How many events are still pending.
    pub fn remaining(&self) -> (r: usize)
        ensures
            r == self.events@.len(),
    {
        self.events.len()
    }

    /// Pops the front event if its time has come: the front timestamp is at
    /// or before `now`.
    pub fn pop_due(&mut self, now: &TimeTick) -> (r: Option<GameEvent>)
        requires
            old(self).wf(),
            now.wf(),
        ensures
            final(self).wf(),
            old(self).events@.len() > 0 && old(self).events@[0].timestamp.as_micros()
                <= now.as_micros() ==> r == Some(old(self).events@[0]) && final(self).events@ == old(
                self,
            ).events@.drop_first(),
            !(old(self).events@.len() > 0 && old(self).events@[0].timestamp.as_micros()
                <= now.as_micros()) ==> r is None && final(self).events@ == old(self).events@,
    {
        if self.events.len() == 0 {
            return None;
        }
        let due = {
            let front = &self.events[0];
            front.timestamp.le(now)
        };
        if due {
            let e = match self.events.pop_front() {
                Some(e) => e,
                None => vstd::pervasive::unreached(),
            };
            proof {
                assert forall|i: int|
                    0 <= i && i + 1 < self.events@.len() implies (#[trigger] self.events@[i]).timestamp.as_micros()
                    <= self.events@[i + 1].timestamp.as_micros() by {
                    assert(self.events@[i] == old(self).events@[i + 1]);
                    assert(self.events@[i + 1] == old(self).events@[i + 2]);
                }
                assert forall|i: int|
                    0 <= i < self.events@.len() implies (#[trigger] self.events@[i]).timestamp.wf() by {
                    assert(self.events@[i] == old(self).events@[i + 1]);
                }
            }
            Some(e)
        } else {
            None
        }
    }
}

} // verus!
