//! The interactive tracker's model of a running game: per-player counts,
//! the pitch zone, and the side-by-side text display.

use crate::digits::dec_rep;
use crate::digits::u64_to_string;
use crate::textops::{lower_of, space_string, str_eq, to_lowercase_string, trim_spaces, trimmed};
use vstd::prelude::*;
use vstd::string::StrSliceExecFns;
use vstd::string::StringExecFns;

verus! {

/// A card's pitch color.
#[derive(Clone, Copy, Debug, PartialEq, Eq, Structural)]
pub enum Color {
    Red,
    Yellow,
    Blue,
    Colorless,
}

/// A card in hand or pitch.
#[derive(Debug)]
pub struct Card {
    pub name: String,
    pub color: Color,
}

/// A stack of cards.
pub struct Deck(pub Vec<Card>);

/// The attack currently on the chain.
#[derive(Debug)]
pub struct ActiveLink {
    pub threatening: u32,
    pub defending: u32,
    pub preventing: u32,
}

/// One resolved link of the combat chain.
#[derive(Debug)]
pub struct ChainLink {
    pub hit: bool,
    pub dealt: u32,
}

/// Cards pitched in one turn: either an unknown block of the deck or the
/// concrete cards.
pub enum PitchGroup {
    Unknown(usize),
    Group(Vec<Card>),
}

impl PitchGroup {
    /// A concrete group of pitched cards.
    pub fn build(cards: Vec<Card>) -> (r: PitchGroup)
        ensures
            r matches PitchGroup::Group(v) && v@ == cards@,
    {
        PitchGroup::Group(cards)
    }
}

/// A hero's starting health; most heroes start at forty.
pub open spec fn health_of(hero: Seq<char>) -> u32 {
    if hero == "riptide"@ {
        19
    } else if hero == "riptide, lurker of the deep"@ {
        38
    } else if hero == "dash io"@ {
        36
    } else if hero == "dash database"@ {
        18
    } else {
        40
    }
}

/// A hero's intellect: how many cards they draw up to.
pub open spec fn intellect_of(hero: Seq<char>) -> usize {
    if lower_of(trimmed(hero)) == "datadoll"@ {
        3
    } else {
        4
    }
}

/// Everything tracked about one player.
pub struct PlayerAnalytics {
    pub hero: String,
    pub name: String,
    pub health: u32,
    pub cards_in_deck: usize,
    pub cards_in_hand: usize,
    pub pitch: Vec<Card>,
    pub pitch_stack: Vec<PitchGroup>,
    pub intellect: usize,
}

impl PlayerAnalytics {
    /// The starting health for a hero.
    pub fn get_health(hero: &str) -> (r: u32)
        ensures
            r == health_of(hero@),
    {
        if str_eq(hero, "riptide") {
            19
        } else if str_eq(hero, "riptide, lurker of the deep") {
            38
        } else if str_eq(hero, "dash io") {
            36
        } else if str_eq(hero, "dash database") {
            18
        } else {
            40
        }
    }

    /// The intellect for a hero.
    pub fn get_intellect(hero: &str) -> (r: usize)
        ensures
            r == intellect_of(hero@),
    {
        let lowered = to_lowercase_string(trim_spaces(hero));
        if str_eq(lowered.as_str(), "datadoll") {
            3
        } else {
            4
        }
    }

    /// A player's starting analytics: full health, a fresh hand drawn up to
    /// intellect, and the rest of the deck as one unknown pitch block.
    pub fn build(player: &Player) -> (r: PlayerAnalytics)
        requires
            player.deck_size >= intellect_of(player.hero@),
        ensures
            r.hero@ == player.hero@,
            r.name@ == player.name@,
            r.health == health_of(player.hero@),
            r.intellect == intellect_of(player.hero@),
            r.cards_in_deck == player.deck_size - intellect_of(player.hero@),
            r.cards_in_hand == intellect_of(player.hero@),
            r.pitch@ == Seq::<Card>::empty(),
            r.pitch_stack@.len() == 1,
            r.pitch_stack@[0] matches PitchGroup::Unknown(n) && n == r.cards_in_deck,
    {
        let health = Self::get_health(player.hero.as_str());
        let intellect = Self::get_intellect(player.hero.as_str());
        let cards_in_deck = player.deck_size - intellect;
        PlayerAnalytics {
            hero: player.hero.clone(),
            name: player.name.clone(),
            health,
            cards_in_deck,
            cards_in_hand: intellect,
            pitch: Vec::new(),
            pitch_stack: vec![PitchGroup::Unknown(cards_in_deck)],
            intellect,
        }
    }

    /// Takes one card off the deck.
    pub fn draw(&mut self, _num_cards: usize)
        requires
            old(self).cards_in_deck >= 1,
        ensures
            final(self).cards_in_deck == old(self).cards_in_deck - 1,
            final(self).cards_in_hand == old(self).cards_in_hand,
            final(self).pitch@ == old(self).pitch@,
    {
        self.cards_in_deck = self.cards_in_deck - 1;
    }

    /// The player's stats as display lines.
    pub fn to_display(&self) -> (r: Vec<String>)
        requires
            self.cards_in_deck + self.pitch@.len() <= usize::MAX,
        ensures
            r@.len() == 5,
            r@[0]@ == "Player: "@ + self.name@,
            r@[1]@ == "Hero: "@ + self.hero@,
            r@[2]@ == "Health: "@ + dec_rep(self.health as nat),
            r@[3]@ == "Cards in Hand: "@ + dec_rep(self.cards_in_hand as nat),
            r@[4]@ == "Cards in Deck: "@ + dec_rep((self.cards_in_deck + self.pitch@.len()) as nat),
    {
        let mut display: Vec<String> = Vec::new();
        let mut line = "Player: ".to_owned();
        line.append(self.name.as_str());
        display.push(line);
        let mut line = "Hero: ".to_owned();
        line.append(self.hero.as_str());
        display.push(line);
        let mut line = "Health: ".to_owned();
        let health_text = u64_to_string(self.health as u64);
        line.append(health_text.as_str());
        display.push(line);
        let mut line = "Cards in Hand: ".to_owned();
        let hand_text = u64_to_string(self.cards_in_hand as u64);
        line.append(hand_text.as_str());
        display.push(line);
        let mut line = "Cards in Deck: ".to_owned();
        let deck_text = u64_to_string((self.cards_in_deck + self.pitch.len()) as u64);
        line.append(deck_text.as_str());
        display.push(line);
        display
    }
}

/// A player's identity and deck size at setup.
pub struct Player {
    pub name: String,
    pub hero: String,
    pub deck_size: usize,
}

/// The tracked state of a whole game.
pub struct GameState {
    pub turn_number: u32,
    pub turn_player_1: bool,
    pub chain: Vec<ChainLink>,
    pub active_link: Option<ActiveLink>,
    pub player_1: PlayerAnalytics,
    pub player_2: PlayerAnalytics,
    pub action_points: u32,
    pub resources: u32,
}

impl GameState {
    /// A fresh classic-constructed game.
    pub fn build_cc(player_1: Player, player_2: Player, turn_player_1: bool) -> (r: GameState)
        requires
            player_1.deck_size >= intellect_of(player_1.hero@),
            player_2.deck_size >= intellect_of(player_2.hero@),
        ensures
            r.turn_number == 0,
            r.turn_player_1 == turn_player_1,
            r.chain@ == Seq::<ChainLink>::empty(),
            r.active_link is None,
            r.action_points == 1,
            r.resources == 0,
            ({
                let p = r.player_1;
                &&& p.hero@ == player_1.hero@
                &&& p.name@ == player_1.name@
                &&& p.health == health_of(player_1.hero@)
                &&& p.intellect == intellect_of(player_1.hero@)
                &&& p.cards_in_hand == intellect_of(player_1.hero@)
                &&& p.cards_in_deck == player_1.deck_size - intellect_of(player_1.hero@)
                &&& p.pitch@ == Seq::<Card>::empty()
                &&& p.pitch_stack@.len() == 1
                &&& (p.pitch_stack@[0] matches PitchGroup::Unknown(n) && n == p.cards_in_deck)
            }),
            ({
                let p = r.player_2;
                &&& p.hero@ == player_2.hero@
                &&& p.name@ == player_2.name@
                &&& p.health == health_of(player_2.hero@)
                &&& p.intellect == intellect_of(player_2.hero@)
                &&& p.cards_in_hand == intellect_of(player_2.hero@)
                &&& p.cards_in_deck == player_2.deck_size - intellect_of(player_2.hero@)
                &&& p.pitch@ == Seq::<Card>::empty()
                &&& p.pitch_stack@.len() == 1
                &&& (p.pitch_stack@[0] matches PitchGroup::Unknown(n) && n == p.cards_in_deck)
            }),
    {
        GameState {
            turn_number: 0,
            turn_player_1,
            chain: Vec::new(),
            active_link: None,
            player_1: PlayerAnalytics::build(&player_1),
            player_2: PlayerAnalytics::build(&player_2),
            action_points: 1,
            resources: 0,
        }
    }

    /// Plays one card from the turn player's hand.
    pub fn play_from_hand(&mut self, _card_name: String, _color: Color)
        requires
            old(self).turn_player_1 ==> old(self).player_1.cards_in_hand >= 1,
            !old(self).turn_player_1 ==> old(self).player_2.cards_in_hand >= 1,
        ensures
            old(self).turn_player_1 ==> final(self).player_1.cards_in_hand == old(self).player_1.cards_in_hand
                - 1 && final(self).player_2 == old(self).player_2,
            !old(self).turn_player_1 ==> final(self).player_2.cards_in_hand == old(self).player_2.cards_in_hand
                - 1 && final(self).player_1 == old(self).player_1,
            old(self).turn_player_1 ==> final(self).player_1 == (PlayerAnalytics {
                cards_in_hand: (old(self).player_1.cards_in_hand - 1) as usize,
                ..old(self).player_1
            }),
            !old(self).turn_player_1 ==> final(self).player_2 == (PlayerAnalytics {
                cards_in_hand: (old(self).player_2.cards_in_hand - 1) as usize,
                ..old(self).player_2
            }),
            final(self).turn_player_1 == old(self).turn_player_1,
            final(self).turn_number == old(self).turn_number,
            final(self).chain == old(self).chain,
            final(self).active_link == old(self).active_link,
            final(self).action_points == old(self).action_points,
            final(self).resources == old(self).resources,
    {
        if self.turn_player_1 {
            self.player_1.cards_in_hand = self.player_1.cards_in_hand - 1;
        } else {
            self.player_2.cards_in_hand = self.player_2.cards_in_hand - 1;
        }
    }

    /// Pitches cards from the turn player's hand into their pitch zone.
    pub fn pitch(&mut self, cards: Vec<Card>)
        requires
            old(self).turn_player_1 ==> old(self).player_1.cards_in_hand >= cards@.len(),
            !old(self).turn_player_1 ==> old(self).player_2.cards_in_hand >= cards@.len(),
        ensures
            ({
                let active = if old(self).turn_player_1 {
                    old(self).player_1
                } else {
                    old(self).player_2
                };
                let active_after = if old(self).turn_player_1 {
                    final(self).player_1
                } else {
                    final(self).player_2
                };
                &&& active_after.cards_in_hand == active.cards_in_hand - cards@.len()
                &&& active_after.pitch@ == active.pitch@ + cards@
                &&& active_after.hero == active.hero
                &&& active_after.name == active.name
                &&& active_after.health == active.health
                &&& active_after.cards_in_deck == active.cards_in_deck
                &&& active_after.pitch_stack == active.pitch_stack
                &&& active_after.intellect == active.intellect
            }),
            old(self).turn_player_1 ==> final(self).player_2 == old(self).player_2,
            !old(self).turn_player_1 ==> final(self).player_1 == old(self).player_1,
            final(self).turn_player_1 == old(self).turn_player_1,
            final(self).turn_number == old(self).turn_number,
            final(self).chain == old(self).chain,
            final(self).active_link == old(self).active_link,
            final(self).action_points == old(self).action_points,
            final(self).resources == old(self).resources,
    {
        let mut incoming = cards;
        if self.turn_player_1 {
            self.player_1.cards_in_hand = self.player_1.cards_in_hand - incoming.len();
            self.player_1.pitch.append(&mut incoming);
        } else {
            self.player_2.cards_in_hand = self.player_2.cards_in_hand - incoming.len();
            self.player_2.pitch.append(&mut incoming);
        }
    }

    /// Ends the turn: the turn player's pitch goes to the bottom of their
    /// deck as one group.
    pub fn end_turn(&mut self)
        ensures
            ({
                let active = if old(self).turn_player_1 {
                    old(self).player_1
                } else {
                    old(self).player_2
                };
                let active_after = if old(self).turn_player_1 {
                    final(self).player_1
                } else {
                    final(self).player_2
                };
                &&& active_after.pitch@ == Seq::<Card>::empty()
                &&& active_after.pitch_stack@.len() == active.pitch_stack@.len() + 1
                &&& (active_after.pitch_stack@.last() matches PitchGroup::Group(v) && v@
                    == active.pitch@)
                &&& active_after.cards_in_hand == active.cards_in_hand
                &&& active_after.cards_in_deck == active.cards_in_deck
                &&& active_after.pitch_stack@.take(active.pitch_stack@.len() as int)
                    == active.pitch_stack@
                &&& active_after.hero == active.hero
                &&& active_after.name == active.name
                &&& active_after.health == active.health
                &&& active_after.intellect == active.intellect
            }),
            old(self).turn_player_1 ==> final(self).player_2 == old(self).player_2,
            !old(self).turn_player_1 ==> final(self).player_1 == old(self).player_1,
            final(self).turn_player_1 == old(self).turn_player_1,
            final(self).turn_number == old(self).turn_number,
            final(self).chain == old(self).chain,
            final(self).active_link == old(self).active_link,
            final(self).action_points == old(self).action_points,
            final(self).resources == old(self).resources,
    {
        let mut drained: Vec<Card> = Vec::new();
        if self.turn_player_1 {
            drained.append(&mut self.player_1.pitch);
            self.player_1.pitch_stack.push(PitchGroup::build(drained));
        } else {
            drained.append(&mut self.player_2.pitch);
            self.player_2.pitch_stack.push(PitchGroup::build(drained));
        }
    }
}

/// A line padded with spaces to the display width.
pub open spec fn padded(s: Seq<char>, width: int) -> Seq<char> {
    s + Seq::new((width - s.len()) as nat, |i: int| ' ')
}

/// Pads a line to the display width.
pub fn buffer(text: &str, width: usize) -> (r: String)
    requires
        text@.len() <= width,
    ensures
        r@ == padded(text@, width as int),
{
    let len = text.unicode_len();
    let mut out = text.to_owned();
    let pad = space_string(width - len);
    out.append(pad.as_str());
    proof {
        assert(out@ =~= padded(text@, width as int));
    }
    out
}

/// The longest line length among a display's lines.
pub open spec fn max_line_len(lines: Seq<String>) -> int
    decreases lines.len(),
{
    if lines.len() == 0 {
        0
    } else {
        let rest = max_line_len(lines.drop_last());
        if lines.last()@.len() > rest {
            lines.last()@.len() as int
        } else {
            rest
        }
    }
}

/// No line is longer than the longest.
proof fn lemma_max_line_len_ge(lines: Seq<String>, i: int)
    requires
        0 <= i < lines.len(),
    ensures
        lines[i]@.len() <= max_line_len(lines),
    decreases lines.len(),
{
    if i + 1 < lines.len() {
        lemma_max_line_len_ge(lines.drop_last(), i);
    }
}

/// The two displays merged row by row: each left line padded to the left
/// display's width, a separator, and the right line.
pub open spec fn merged_rows(left: Seq<String>, right: Seq<String>, w: int, k: int) -> Seq<char>
    decreases k,
{
    if k <= 0 {
        Seq::<char>::empty()
    } else {
        merged_rows(left, right, w, k - 1) + padded(left[k - 1]@, w) + " | "@ + right[k - 1]@
            + "\n"@
    }
}

/// Merges two players' display lines side by side, one row per line pair,
/// the left column padded to its widest line.
pub fn merge_displays(left: Vec<String>, right: Vec<String>) -> (r: String)
    requires
        left@.len() > 0,
    ensures
        r@ == merged_rows(
            left@,
            right@,
            max_line_len(left@),
            if left@.len() <= right@.len() {
                left@.len() as int
            } else {
                right@.len() as int
            },
        ),
{
    let mut max_left: usize = 0;
    let n = left.len();
    let mut i: usize = 0;
    while i < n
        invariant
            i <= n,
            n == left@.len(),
            max_left == max_line_len(left@.take(i as int)),
        decreases n - i,
    {
        let len = left[i].as_str().unicode_len();
        if len > max_left {
            max_left = len;
        }
        i = i + 1;
        proof {
            assert(left@.take(i as int).drop_last() =~= left@.take(i - 1));
            assert(left@.take(i as int).last() == left@[i - 1]);
        }
    }
    proof {
        assert(left@.take(n as int) =~= left@);
    }
    let rows: usize = if left.len() <= right.len() {
        left.len()
    } else {
        right.len()
    };
    let mut out = String::new();
    let mut k: usize = 0;
    while k < rows
        invariant
            k <= rows,
            rows <= left@.len(),
            rows <= right@.len(),
            max_left == max_line_len(left@),
            out@ == merged_rows(left@, right@, max_left as int, k as int),
        decreases rows - k,
    {
        proof {
            lemma_max_line_len_ge(left@, k as int);
        }
        let padded_line = buffer(left[k].as_str(), max_left);
        out.append(padded_line.as_str());
        out.append(" | ");
        out.append(right[k].as_str());
        out.append("\n");
        k = k + 1;
    }
    out
}

} // verus!
