//! The annotation tool's pure logic: command names, typed record rows and
//! the record keeper that collects them.  The terminal, the player and the
//! clock they are driven by live in the surrounding program.

use crate::autocomplete::Named;
use crate::card::CardData;
use crate::digits::{dec_rep, u64_to_string};
use crate::life_tracker::{valid_update, LifeTracker};
use crate::textops::{has_prefix, push_char, starts_with_str, str_eq};
use vstd::prelude::*;
use vstd::string::StringExecFns;

verus! {

/// The commands the annotation prompt accepts.
#[allow(non_camel_case_types)]
#[derive(Clone, Copy, Debug, PartialEq, Eq, Structural)]
pub enum Command {
    HEALTH,
    TURN,
    QUIT,
    UNDO,
    WIN1,
    WIN2,
}

impl Command {
    /// Every command, in prompt order.
    pub fn get_all() -> (r: Vec<Command>)
        ensures
            r@ =~= seq![
                Command::HEALTH,
                Command::TURN,
                Command::QUIT,
                Command::UNDO,
                Command::WIN1,
                Command::WIN2,
            ],
    {
        let mut all: Vec<Command> = Vec::new();
        all.push(Command::HEALTH);
        all.push(Command::TURN);
        all.push(Command::QUIT);
        all.push(Command::UNDO);
        all.push(Command::WIN1);
        all.push(Command::WIN2);
        all
    }
}

impl Named for Command {
    open spec fn name_spec(&self) -> Seq<char> {
        match self {
            Command::HEALTH => ":h"@,
            Command::TURN => ":t"@,
            Command::QUIT => ":q"@,
            Command::UNDO => ":u"@,
            Command::WIN1 => ":w1"@,
            Command::WIN2 => ":w2"@,
        }
    }

    fn get_name(&self) -> (r: &str) {
        match self {
            Command::HEALTH => ":h",
            Command::TURN => ":t",
            Command::QUIT => ":q",
            Command::UNDO => ":u",
            Command::WIN1 => ":w1",
            Command::WIN2 => ":w2",
        }
    }
}

/// Whether typed text addresses the command prompt.
pub fn is_command(text: &str) -> (r: bool)
    ensures
        r == has_prefix(text@, ":"@),
{
    starts_with_str(text, ":")
}

/// Whether typed text is a life-update command.
pub fn is_life_update(text: &str) -> (r: bool)
    ensures
        r == has_prefix(text@, ":h"@),
{
    starts_with_str(text, ":h")
}

/// The space-separated words of a line, empty pieces dropped.
pub open spec fn words_of(s: Seq<char>) -> Seq<Seq<char>>
    decreases s.len(),
{
    if s.len() == 0 {
        Seq::<Seq<char>>::empty()
    } else {
        let prev = words_of(s.drop_last());
        if s.last() == ' ' {
            prev
        } else if s.len() >= 2 && s[s.len() - 2] != ' ' {
            prev.update(prev.len() - 1, prev.last().push(s.last()))
        } else {
            prev.push(seq![s.last()])
        }
    }
}

/// Splits a line into its space-separated words, dropping empty pieces.
pub fn split_words(line: &str) -> (r: Vec<String>)
    ensures
        crate::events::views_of(r@) =~= words_of(line@),
{
    let n = line.unicode_len();
    let mut words: Vec<String> = Vec::new();
    let mut cur = String::new();
    let mut i: usize = 0;
    while i < n
        invariant
            i <= n,
            n == line@.len(),
            i > 0 && line@[i - 1] != ' ' ==> cur@.len() > 0 && words_of(line@.take(i as int))
                =~= crate::events::views_of(words@).push(cur@),
            (i == 0 || line@[i - 1] == ' ') ==> cur@.len() == 0 && words_of(line@.take(i as int))
                =~= crate::events::views_of(words@),
        decreases n - i,
    {
        let c = line.get_char(i);
        let ghost prev_words = words@;
        let ghost prev_cur = cur@;
        i = i + 1;
        if c == ' ' {
            if cur.unicode_len() > 0 {
                words.push(cur);
                cur = String::new();
            }
        } else {
            push_char(&mut cur, c);
        }
        proof {
            assert(line@.take(i as int).drop_last() =~= line@.take(i - 1));
            assert(line@.take(i as int).last() == c);
            if c != ' ' {
                if i >= 2 && line@[i - 2] != ' ' {
                    assert(crate::events::views_of(words@).push(cur@) =~= crate::events::views_of(
                        prev_words,
                    ).push(prev_cur).update(prev_words.len() as int, prev_cur.push(c)));
                } else {
                    assert(cur@ =~= seq![c]);
                    assert(crate::events::views_of(words@).push(cur@) =~= crate::events::views_of(
                        prev_words,
                    ).push(seq![c]));
                }
            } else {
                if prev_cur.len() > 0 {
                    assert(crate::events::views_of(words@) =~= crate::events::views_of(
                        prev_words,
                    ).push(prev_cur));
                }
            }
        }
    }
    proof {
        assert(line@.take(n as int) =~= line@);
    }
    if cur.unicode_len() > 0 {
        words.push(cur);
    }
    words
}

/// Reads a `:h <player> <update>` command: the player must be `1` or `2`
/// and the update a well-formed life token; anything else yields nothing.
pub fn extract_life_update(text: &str) -> (r: Option<(u8, String)>)
    ensures
        ({
            let ws = words_of(text@);
            let ok = ws.len() >= 3 && ws[0] == ":h"@ && (ws[1] == "1"@ || ws[1] == "2"@)
                && valid_update(ws[2]);
            &&& (r is Some <==> ok)
            &&& (r matches Some(found) ==> found.0 == (if ws[1] == "1"@ {
                1u8
            } else {
                2u8
            }) && found.1@ == ws[2])
        }),
{
    let ws = split_words(text);
    proof {
        assert forall|k: int| 0 <= k < ws@.len() implies crate::events::views_of(ws@)[k]
            == ws@[k]@ by {}
    }
    if ws.len() < 3 {
        return None;
    }
    if !str_eq(ws[0].as_str(), ":h") {
        return None;
    }
    let player: u8 = if str_eq(ws[1].as_str(), "1") {
        1
    } else if str_eq(ws[1].as_str(), "2") {
        2
    } else {
        return None;
    };
    match LifeTracker::parse_update(ws[2].as_str()) {
        Ok(_) => Some((player, ws[2].clone())),
        Err(_) => None,
    }
}

/// The kind of record a row stands for.
#[derive(Clone, Copy, Debug, PartialEq, Eq, Structural)]
pub enum UpdateType {
    Life,
    Card,
    Hero1,
    Hero2,
    Turn,
    Win1,
    Win2,
}

/// The token a record kind writes into the `update_type` column.
pub open spec fn update_type_text(u: UpdateType) -> Seq<char> {
    match u {
        UpdateType::Card => "card"@,
        UpdateType::Life => "life"@,
        UpdateType::Turn => "turn"@,
        UpdateType::Hero1 => "hero1"@,
        UpdateType::Hero2 => "hero2"@,
        UpdateType::Win1 => "win1"@,
        UpdateType::Win2 => "win2"@,
    }
}

impl UpdateType {
    /// The kind's column token.
    pub fn text(&self) -> (r: String)
        ensures
            r@ == update_type_text(*self),
    {
        match self {
            UpdateType::Card => "card".to_owned(),
            UpdateType::Life => "life".to_owned(),
            UpdateType::Turn => "turn".to_owned(),
            UpdateType::Hero1 => "hero1".to_owned(),
            UpdateType::Hero2 => "hero2".to_owned(),
            UpdateType::Win1 => "win1".to_owned(),
            UpdateType::Win2 => "win2".to_owned(),
        }
    }
}

/// An optional column's text: its value, or nothing.
pub open spec fn opt_text(o: Option<String>) -> Seq<char> {
    match o {
        Some(s) => s@,
        Option::None => Seq::<char>::empty(),
    }
}

/// An optional pitch column's text.
pub open spec fn opt_pitch_text(o: Option<u32>) -> Seq<char> {
    match o {
        Some(v) => dec_rep(v as nat),
        Option::None => Seq::<char>::empty(),
    }
}

/// One annotation row before it is written out.
#[derive(Debug)]
pub struct Record {
    pub sec: u64,
    pub milli: u64,
    pub name: Option<String>,
    pub pitch: Option<u32>,
    pub player1_life: Option<String>,
    pub player2_life: Option<String>,
    pub update_type: UpdateType,
}

impl Record {
    /// The annotation file's header row.
    pub fn headers() -> (r: String)
        ensures
            r@ == "sec\tmilli\tname\tpitch\tplayer1_life\tplayer2_life\tupdate_type\n"@,
    {
        "sec\tmilli\tname\tpitch\tplayer1_life\tplayer2_life\tupdate_type\n".to_owned()
    }

    /// The row as one tab-separated line.
    pub fn text(self) -> (r: String)
        ensures
            r@ == dec_rep(self.sec as nat) + "\t"@ + dec_rep(self.milli as nat) + "\t"@ + opt_text(
                self.name,
            ) + "\t"@ + opt_pitch_text(self.pitch) + "\t"@ + opt_text(self.player1_life) + "\t"@
                + opt_text(self.player2_life) + "\t"@ + update_type_text(self.update_type) + "\n"@,
    {
        let mut out = u64_to_string(self.sec);
        out.append("\t");
        let milli_text = u64_to_string(self.milli);
        out.append(milli_text.as_str());
        out.append("\t");
        match &self.name {
            Some(name) => out.append(name.as_str()),
            Option::None => {},
        }
        out.append("\t");
        match self.pitch {
            Some(v) => {
                let pitch_text = u64_to_string(v as u64);
                out.append(pitch_text.as_str());
            },
            Option::None => {},
        }
        out.append("\t");
        match &self.player1_life {
            Some(life) => out.append(life.as_str()),
            Option::None => {},
        }
        out.append("\t");
        match &self.player2_life {
            Some(life) => out.append(life.as_str()),
            Option::None => {},
        }
        out.append("\t");
        let kind_text = self.update_type.text();
        out.append(kind_text.as_str());
        out.append("\n");
        out
    }
}

/// Row order in the written file: by seconds, then milliseconds.
pub open spec fn record_le(a: Record, b: Record) -> bool {
    a.sec < b.sec || (a.sec == b.sec && a.milli <= b.milli)
}

/// A record placed into an already-ordered run: it passes every row at or
/// before its time and lands ahead of the first later one, so rows sharing
/// a timestamp keep their arrival order.
pub open spec fn insert_by_time(r: Record, s: Seq<Record>) -> Seq<Record>
    decreases s.len(),
{
    if s.len() == 0 {
        seq![r]
    } else if record_le(s[0], r) {
        seq![s[0]] + insert_by_time(r, s.drop_first())
    } else {
        seq![r] + s
    }
}

/// The records ordered by time: each row inserted, in arrival order, into
/// the ordered run of the rows before it.
pub open spec fn sorted_by_time(s: Seq<Record>) -> Seq<Record>
    decreases s.len(),
{
    if s.len() == 0 {
        Seq::<Record>::empty()
    } else {
        insert_by_time(s.last(), sorted_by_time(s.drop_last()))
    }
}

/// Inserting into a time-ordered run keeps it ordered.
proof fn lemma_insert_by_time_ordered(r: Record, s: Seq<Record>)
    requires
        forall|i: int|
            0 <= i && i + 1 < s.len() ==> record_le(#[trigger] s[i], s[i + 1]),
    ensures
        insert_by_time(r, s).len() == s.len() + 1,
        forall|i: int|
            0 <= i && i + 1 < insert_by_time(r, s).len() ==> record_le(
                #[trigger] insert_by_time(r, s)[i],
                insert_by_time(r, s)[i + 1],
            ),
    decreases s.len(),
{
    if s.len() > 0 && record_le(s[0], r) {
        assert(forall|i: int|
            0 <= i && i + 1 < s.drop_first().len() ==> record_le(
                #[trigger] s.drop_first()[i],
                s.drop_first()[i + 1],
            ));
        lemma_insert_by_time_ordered(r, s.drop_first());
        let merged = insert_by_time(r, s);
        assert(merged[0] == s[0]);
        assert forall|i: int| 0 <= i && i + 1 < merged.len() implies record_le(
            #[trigger] merged[i],
            merged[i + 1],
        ) by {
            if i > 0 {
                assert(merged[i] == insert_by_time(r, s.drop_first())[i - 1]);
                assert(merged[i + 1] == insert_by_time(r, s.drop_first())[i]);
            } else {
                if s.len() == 1 {
                } else {
                    assert(merged[1] == insert_by_time(r, s.drop_first())[0]);
                    if record_le(s.drop_first()[0], r) {
                        assert(insert_by_time(r, s.drop_first())[0] == s[1]);
                    } else {
                        assert(insert_by_time(r, s.drop_first())[0] == r);
                    }
                }
            }
        }
    } else {
        if s.len() > 0 {
            assert(!record_le(s[0], r));
            assert(record_le(r, s[0]));
        }
    }
}

/// Ordering the records yields a run that never goes back in time.
pub proof fn lemma_sorted_by_time_ordered(s: Seq<Record>)
    ensures
        sorted_by_time(s).len() == s.len(),
        forall|i: int|
            0 <= i && i + 1 < sorted_by_time(s).len() ==> record_le(
                #[trigger] sorted_by_time(s)[i],
                sorted_by_time(s)[i + 1],
            ),
    decreases s.len(),
{
    if s.len() > 0 {
        lemma_sorted_by_time_ordered(s.drop_last());
        lemma_insert_by_time_ordered(s.last(), sorted_by_time(s.drop_last()));
    }
}

/// A record run split at the insertion point equals the recursive insert.
proof fn lemma_insert_by_time_at(r: Record, s: Seq<Record>, p: int)
    requires
        0 <= p <= s.len(),
        forall|i: int| 0 <= i < p ==> record_le(#[trigger] s[i], r),
        p < s.len() ==> !record_le(s[p], r),
    ensures
        insert_by_time(r, s) =~= s.take(p) + seq![r] + s.skip(p),
    decreases p,
{
    if p == 0 {
        if s.len() == 0 {
            assert(insert_by_time(r, s) =~= seq![r]);
        }
        assert(s.take(0) + seq![r] + s.skip(0) =~= seq![r] + s);
    } else {
        assert(record_le(s[0], r));
        lemma_insert_by_time_at(r, s.drop_first(), p - 1);
        assert(seq![s[0]] + (s.drop_first().take(p - 1) + seq![r] + s.drop_first().skip(p - 1))
            =~= s.take(p) + seq![r] + s.skip(p));
    }
}

/// Collects the records of one annotation session.
pub struct RecordKeeper {
    pub records: Vec<Record>,
}

impl RecordKeeper {
    /// A keeper seeded with the two hero rows, each carrying the hero's
    /// name and starting life; the rows land in the same order whichever
    /// player goes first.
    pub fn build(hero1: &CardData, hero2: &CardData, _first: &str) -> (r: RecordKeeper)
        requires
            hero1.life is Some,
            hero2.life is Some,
        ensures
            r.records@.len() == 2,
            r.records@[0].update_type == UpdateType::Hero1,
            opt_text(r.records@[0].name) == hero1.name@,
            opt_text(r.records@[0].player1_life) == dec_rep(hero1.life->0 as nat),
            r.records@[0].player2_life is None,
            r.records@[1].update_type == UpdateType::Hero2,
            opt_text(r.records@[1].name) == hero2.name@,
            opt_text(r.records@[1].player2_life) == dec_rep(hero2.life->0 as nat),
            r.records@[1].player1_life is None,
            r.records@[0].sec == 0 && r.records@[0].milli == 0,
            r.records@[1].sec == 0 && r.records@[1].milli == 0,
    {
        let life1 = match hero1.life {
            Some(v) => v,
            Option::None => vstd::pervasive::unreached(),
        };
        let life2 = match hero2.life {
            Some(v) => v,
            Option::None => vstd::pervasive::unreached(),
        };
        let hero1_record = Record {
            sec: 0,
            milli: 0,
            name: Some(hero1.name.clone()),
            pitch: None,
            player1_life: Some(u64_to_string(life1 as u64)),
            player2_life: None,
            update_type: UpdateType::Hero1,
        };
        let hero2_record = Record {
            sec: 0,
            milli: 0,
            name: Some(hero2.name.clone()),
            pitch: None,
            player1_life: None,
            player2_life: Some(u64_to_string(life2 as u64)),
            update_type: UpdateType::Hero2,
        };
        let mut records: Vec<Record> = Vec::new();
        records.push(hero1_record);
        records.push(hero2_record);
        RecordKeeper { records }
    }

    /// Orders the records by time, keeping the arrival order of rows that
    /// share a timestamp, ready to be written out.
    pub fn sort_records(&mut self)
        ensures
            final(self).records@ == sorted_by_time(old(self).records@),
    {
        let ghost all = self.records@;
        let mut ordered: Vec<Record> = Vec::new();
        let ghost mut taken: int = 0;
        loop
            invariant
                0 <= taken <= all.len(),
                self.records@ =~= all.skip(taken),
                ordered@ == sorted_by_time(all.take(taken)),
                forall|i: int|
                    0 <= i && i + 1 < ordered@.len() ==> record_le(
                        #[trigger] ordered@[i],
                        ordered@[i + 1],
                    ),
            ensures
                ordered@ == sorted_by_time(all),
            decreases self.records@.len(),
        {
            if self.records.len() == 0 {
                proof {
                    assert(all.take(taken) =~= all);
                }
                break ;
            }
            let next = self.records.remove(0);
            proof {
                assert(next == all[taken]);
                assert(all.take(taken + 1).drop_last() =~= all.take(taken));
                assert(all.take(taken + 1).last() == all[taken]);
                assert(all.skip(taken).drop_first() =~= all.skip(taken + 1));
            }
            let mut position: usize = 0;
            loop
                invariant
                    0 <= position <= ordered@.len(),
                    forall|i: int| 0 <= i < position ==> record_le(#[trigger] ordered@[i], next),
                ensures
                    0 <= position <= ordered@.len(),
                    forall|i: int| 0 <= i < position ==> record_le(#[trigger] ordered@[i], next),
                    position < ordered@.len() ==> !record_le(ordered@[position as int], next),
                decreases ordered@.len() - position,
            {
                if position >= ordered.len() {
                    break ;
                }
                let here = &ordered[position];
                let at_or_before = here.sec < next.sec || (here.sec == next.sec && here.milli
                    <= next.milli);
                if !at_or_before {
                    break ;
                }
                position = position + 1;
            }
            let ghost before_insert = ordered@;
            ordered.insert(position, next);
            proof {
                lemma_insert_by_time_at(next, before_insert, position as int);
                assert(ordered@ =~= before_insert.take(position as int) + seq![next]
                    + before_insert.skip(position as int));
                lemma_insert_by_time_ordered(next, before_insert);
                taken = taken + 1;
            }
        }
        self.records = ordered;
    }

    /// Appends a card row at the given media time.
    pub fn add_card_update(&mut self, sec: u64, milli: u64, name: &str, pitch: Option<u32>)
        ensures
            final(self).records@.len() == old(self).records@.len() + 1,
            final(self).records@.take(old(self).records@.len() as int) == old(self).records@,
            ({
                let rec = final(self).records@.last();
                &&& rec.sec == sec && rec.milli == milli
                &&& opt_text(rec.name) == name@
                &&& rec.pitch == pitch
                &&& rec.player1_life is None && rec.player2_life is None
                &&& rec.update_type == UpdateType::Card
            }),
    {
        let ghost before = self.records@;
        self.records.push(
            Record {
                sec,
                milli,
                name: Some(name.to_owned()),
                pitch,
                player1_life: None,
                player2_life: None,
                update_type: UpdateType::Card,
            },
        );
        proof {
            assert(self.records@.take(before.len() as int) =~= before);
        }
    }

    /// Appends a life row for one player at the given media time.
    pub fn add_player_life_update(&mut self, sec: u64, milli: u64, player: u8, update: &str)
        requires
            player == 1 || player == 2,
        ensures
            final(self).records@.len() == old(self).records@.len() + 1,
            final(self).records@.take(old(self).records@.len() as int) == old(self).records@,
            ({
                let rec = final(self).records@.last();
                &&& rec.sec == sec && rec.milli == milli
                &&& rec.name is None && rec.pitch is None
                &&& (player == 1 ==> opt_text(rec.player1_life) == update@ && rec.player2_life
                    is None)
                &&& (player == 2 ==> opt_text(rec.player2_life) == update@ && rec.player1_life
                    is None)
                &&& rec.update_type == UpdateType::Life
            }),
    {
        let ghost before = self.records@;
        let player1_life: Option<String> = if player == 1 {
            Some(update.to_owned())
        } else {
            None
        };
        let player2_life: Option<String> = if player == 2 {
            Some(update.to_owned())
        } else {
            None
        };
        self.records.push(
            Record {
                sec,
                milli,
                name: None,
                pitch: None,
                player1_life,
                player2_life,
                update_type: UpdateType::Life,
            },
        );
        proof {
            assert(self.records@.take(before.len() as int) =~= before);
        }
    }

    /// Appends a turn row at the given media time.
    pub fn add_turn_update(&mut self, sec: u64, milli: u64)
        ensures
            final(self).records@.len() == old(self).records@.len() + 1,
            final(self).records@.take(old(self).records@.len() as int) == old(self).records@,
            ({
                let rec = final(self).records@.last();
                &&& rec.sec == sec && rec.milli == milli
                &&& rec.name is None && rec.pitch is None
                &&& rec.player1_life is None && rec.player2_life is None
                &&& rec.update_type == UpdateType::Turn
            }),
    {
        let ghost before = self.records@;
        self.records.push(
            Record {
                sec,
                milli,
                name: None,
                pitch: None,
                player1_life: None,
                player2_life: None,
                update_type: UpdateType::Turn,
            },
        );
        proof {
            assert(self.records@.take(before.len() as int) =~= before);
        }
    }

    /// Appends a winner row for the given player at the given media time.
    pub fn add_winner_update(&mut self, sec: u64, milli: u64, player: u8)
        requires
            player == 1 || player == 2,
        ensures
            final(self).records@.len() == old(self).records@.len() + 1,
            final(self).records@.take(old(self).records@.len() as int) == old(self).records@,
            ({
                let rec = final(self).records@.last();
                &&& rec.sec == sec && rec.milli == milli
                &&& rec.name is None && rec.pitch is None
                &&& rec.player1_life is None && rec.player2_life is None
                &&& rec.update_type == (if player == 1 {
                    UpdateType::Win1
                } else {
                    UpdateType::Win2
                })
            }),
    {
        let ghost before = self.records@;
        let update_type = if player == 1 {
            UpdateType::Win1
        } else {
            UpdateType::Win2
        };
        self.records.push(
            Record {
                sec,
                milli,
                name: None,
                pitch: None,
                player1_life: None,
                player2_life: None,
                update_type,
            },
        );
        proof {
            assert(self.records@.take(before.len() as int) =~= before);
        }
    }
}

} // verus!
