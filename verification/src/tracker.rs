//! The live game-state tracker's card records and name completion.  Loading
//! the records from the card file is the surrounding program's concern.

use crate::digits::{dec_rep, u64_to_string};
use crate::textops::{has_prefix, lower_of, starts_with_str, to_lowercase_string};
use vstd::prelude::*;

verus! {

/// Whether typed text is a tracker command rather than a card name.
pub fn is_command(text: &str) -> (r: bool)
    ensures
        r == has_prefix(text@, ":"@),
{
    starts_with_str(text, ":")
}

/// Whether typed text is one of the two life-update commands.
pub fn life_update(text: &str) -> (r: bool)
    ensures
        r == (has_prefix(text@, "-1"@) || has_prefix(text@, "-2"@)),
{
    starts_with_str(text, "-1") || starts_with_str(text, "-2")
}

/// One card's record as the tracker sees it.
#[derive(Debug)]
pub struct CardData {
    pub name: String,
    pub pitch: Option<u32>,
    pub display: String,
    pub uuid: String,
}

impl CardData {
    /// The pitch tag as text: its number, or nothing when untagged.
    pub fn pitch_str(&self) -> (r: String)
        ensures
            self.pitch is Some ==> r@ == dec_rep(self.pitch->0 as nat),
            self.pitch is None ==> r@ == Seq::<char>::empty(),
    {
        match self.pitch {
            Some(v) => u64_to_string(v as u64),
            None => String::new(),
        }
    }
}

/// All card records, in file order.
pub struct CardDB {
    pub cards: Vec<CardData>,
}

/// The indices of the records whose display names start with the typed
/// text, both lowercased, ascending.
pub open spec fn display_completions(cards: Seq<CardData>, text: Seq<char>) -> Seq<int>
    decreases cards.len(),
{
    if cards.len() == 0 {
        Seq::<int>::empty()
    } else {
        let rest = display_completions(cards.drop_last(), text);
        if has_prefix(lower_of(cards.last().display@), lower_of(text)) {
            rest.push(cards.len() - 1)
        } else {
            rest
        }
    }
}

/// Lowercasing the empty text leaves it empty, so every display name
/// completes it: empty text offers every record.
proof fn lemma_empty_text_all_displays(cards: Seq<CardData>, text: Seq<char>)
    requires
        lower_of(text).len() == 0,
    ensures
        display_completions(cards, text).len() == cards.len(),
    decreases cards.len(),
{
    if cards.len() > 0 {
        lemma_empty_text_all_displays(cards.drop_last(), text);
        assert(has_prefix(lower_of(cards.last().display@), lower_of(text))) by {
            assert(lower_of(cards.last().display@).take(0) =~= lower_of(text));
        }
    }
}

/// The records whose display names complete the typed text, ignoring case;
/// empty text offers every record.
pub fn autocomplete_card_name<'a>(card_db: &'a CardDB, text: &str) -> (r: Vec<&'a CardData>)
    ensures
        r@.len() == display_completions(card_db.cards@, text@).len(),
        forall|j: int| 0 <= j < r@.len() ==> *(#[trigger] r@[j]) == card_db.cards@[display_completions(
            card_db.cards@,
            text@,
        )[j]],
        text@.len() == 0 ==> r@.len() == card_db.cards@.len(),
{
    let lowered_text = to_lowercase_string(text);
    let n = card_db.cards.len();
    let mut out: Vec<&'a CardData> = Vec::new();
    let mut i: usize = 0;
    while i < n
        invariant
            i <= n,
            n == card_db.cards@.len(),
            lowered_text@ == lower_of(text@),
            text@.len() == 0 ==> lowered_text@.len() == 0,
            out@.len() == display_completions(card_db.cards@.take(i as int), text@).len(),
            forall|j: int| 0 <= j < out@.len() ==> *(#[trigger] out@[j]) == card_db.cards@.take(
                i as int,
            )[display_completions(card_db.cards@.take(i as int), text@)[j]],
            forall|j: int|
                0 <= j < display_completions(card_db.cards@.take(i as int), text@).len() ==> 0 <= (
                #[trigger] display_completions(card_db.cards@.take(i as int), text@)[j]) < i,
        decreases n - i,
    {
        let card = &card_db.cards[i];
        let lowered_display = to_lowercase_string(card.display.as_str());
        if starts_with_str(lowered_display.as_str(), lowered_text.as_str()) {
            out.push(card);
        }
        i = i + 1;
        proof {
            assert(card_db.cards@.take(i as int).drop_last() =~= card_db.cards@.take(i - 1));
            assert(card_db.cards@.take(i as int).last() == card_db.cards@[i - 1]);
        }
    }
    proof {
        assert(card_db.cards@.take(n as int) =~= card_db.cards@);
        if text@.len() == 0 {
            lemma_empty_text_all_displays(card_db.cards@, text@);
        }
    }
    out
}

} // verus!
