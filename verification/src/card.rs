//! The card database the overlay looks cards up in: plain records keyed by
//! name and pitch.  Loading the records from disk and fetching card art are
//! the surrounding program's concern.

use crate::autocomplete::Named;
use crate::digits::{dec_rep, u64_to_string};
use crate::textops::str_eq;
use vstd::prelude::*;

verus! {

/// One card's record.
#[derive(Debug)]
pub struct CardData {
    pub name: String,
    pub pitch: Option<u32>,
    pub life: Option<u32>,
    pub display: String,
    pub uuid: String,
    pub types: Vec<String>,
}

impl CardData {
    /// The pitch tag as text: its number, or nothing when untagged.
    pub fn pitch_str(&self) -> (r: String)
        ensures
            self.pitch is Some ==> r@ == dec_rep(self.pitch->0 as nat),
            self.pitch is None ==> r@ == Seq::<char>::empty(),
    {
        match self.pitch {
            Some(v) => u64_to_string(v as u64),
            None => String::new(),
        }
    }

    /// Whether the record is tagged with the given type.
    pub open spec fn has_type(self, t: Seq<char>) -> bool {
        exists|j: int| 0 <= j < self.types@.len() && (#[trigger] self.types@[j])@ == t
    }
}

impl Named for CardData {
    open spec fn name_spec(&self) -> Seq<char> {
        self.name@
    }

    fn get_name(&self) -> (r: &str) {
        self.name.as_str()
    }
}

/// Whether a record answers a lookup by name and pitch.
pub open spec fn card_matches(c: CardData, name: Seq<char>, pitch: Option<u32>) -> bool {
    c.name@ == name && c.pitch == pitch
}

/// The records tagged as heroes, in their original order.
pub open spec fn heroes_of(cards: Seq<CardData>) -> Seq<int>
    decreases cards.len(),
{
    if cards.len() == 0 {
        Seq::<int>::empty()
    } else {
        let rest = heroes_of(cards.drop_last());
        if cards.last().has_type("hero"@) {
            rest.push(cards.len() - 1)
        } else {
            rest
        }
    }
}

/// All card records, in file order.
pub struct CardDB {
    pub cards: Vec<CardData>,
}

impl CardDB {
    /// The records whose types include `hero`.
    pub fn heroes(&self) -> (r: Vec<&CardData>)
        ensures
            r@.len() == heroes_of(self.cards@).len(),
            forall|j: int| 0 <= j < r@.len() ==> *(#[trigger] r@[j]) == self.cards@[heroes_of(
                self.cards@,
            )[j]],
    {
        let n = self.cards.len();
        let mut out: Vec<&CardData> = Vec::new();
        let mut i: usize = 0;
        while i < n
            invariant
                i <= n,
                n == self.cards@.len(),
                out@.len() == heroes_of(self.cards@.take(i as int)).len(),
                forall|j: int| 0 <= j < out@.len() ==> *(#[trigger] out@[j])
                    == self.cards@.take(i as int)[heroes_of(self.cards@.take(i as int))[j]],
                forall|j: int| 0 <= j < heroes_of(self.cards@.take(i as int)).len() ==> 0 <= (
                #[trigger] heroes_of(self.cards@.take(i as int))[j]) < i,
            decreases n - i,
        {
            let card = &self.cards[i];
            let mut is_hero = false;
            let m = card.types.len();
            let mut t: usize = 0;
            while t < m
                invariant
                    t <= m,
                    m == card.types@.len(),
                    is_hero ==> card.has_type("hero"@),
                    !is_hero ==> forall|j: int| 0 <= j < t ==> (#[trigger] card.types@[j])@
                        != "hero"@,
                decreases m - t,
            {
                if str_eq(card.types[t].as_str(), "hero") {
                    is_hero = true;
                }
                t = t + 1;
            }
            if is_hero {
                out.push(card);
            }
            i = i + 1;
            proof {
                assert(self.cards@.take(i as int).drop_last() =~= self.cards@.take(i - 1));
                assert(self.cards@.take(i as int).last() == self.cards@[i - 1]);
                if !is_hero {
                    assert(!self.cards@[i - 1].has_type("hero"@));
                }
            }
        }
        proof {
            assert(self.cards@.take(n as int) =~= self.cards@);
        }
        out
    }

    /// The first record with the given name and pitch, if one exists.
    pub fn find(&self, name: &str, pitch: Option<u32>) -> (r: Option<&CardData>)
        ensures
            r is Some <==> exists|i: int|
                0 <= i < self.cards@.len() && card_matches(#[trigger] self.cards@[i], name@, pitch),
            r matches Some(c) ==> exists|i: int|
                0 <= i < self.cards@.len() && *c == self.cards@[i] && card_matches(
                    self.cards@[i],
                    name@,
                    pitch,
                ) && forall|j: int| 0 <= j < i ==> !card_matches(#[trigger] self.cards@[j], name@, pitch),
    {
        let n = self.cards.len();
        let mut i: usize = 0;
        while i < n
            invariant
                i <= n,
                n == self.cards@.len(),
                forall|j: int| 0 <= j < i ==> !card_matches(#[trigger] self.cards@[j], name@, pitch),
            decreases n - i,
        {
            let card = &self.cards[i];
            let pitch_same = match (&card.pitch, &pitch) {
                (Some(a), Some(b)) => *a == *b,
                (None, None) => true,
                _ => false,
            };
            if pitch_same && str_eq(card.name.as_str(), name) {
                return Some(card);
            }
            i = i + 1;
        }
        None
    }
}

} // verus!
