//! Decks: a draw pile and a discard pile over the same cards.

use crate::cards::card::Card;
use crate::chance::{fresh_generator, shuffle_in_place};
use crate::error::{DeckKind, GameError};
use crate::models::asset::AssetType;
use crate::models::effects::GameEffect;
use rand::rngs::StdRng;
use vstd::multiset::Multiset;
use vstd::prelude::*;

verus! {

/// The most shuffles that one call makes to get the options spread out.
pub const MAX_SHUFFLE_ATTEMPTS: u32 = 5;

/// How many cards from the top the spread is judged on.
pub const CLUMP_WINDOW: usize = 20;

/// The four groups that the options near the top are counted in.
#[derive(Debug, Clone, Copy, PartialEq, Eq, Structural)]
pub enum Bucket {
    Ridge,
    Land,
    Equipment,
    Other,
}

/// The group of a card: leases are ridges; options on grain, hay or fruit are
/// land; options on a tractor or harvester are equipment; all else is other.
pub open spec fn spec_bucket_of(card: &Card) -> Bucket {
    match card.effect {
        GameEffect::OptionalBuyAsset { asset, .. } => match asset {
            AssetType::Grain | AssetType::Hay | AssetType::Fruit => Bucket::Land,
            AssetType::Tractor | AssetType::Harvester => Bucket::Equipment,
            AssetType::Cows => Bucket::Other,
        },
        GameEffect::LeaseRidge { .. } => Bucket::Ridge,
        _ => Bucket::Other,
    }
}

/// The group of a card.
#[verifier::when_used_as_spec(spec_bucket_of)]
pub fn bucket_of(card: &Card) -> (b: Bucket)
    ensures
        b == spec_bucket_of(card),
{
    match &card.effect {
        GameEffect::OptionalBuyAsset { asset, .. } => match asset {
            AssetType::Grain | AssetType::Hay | AssetType::Fruit => Bucket::Land,
            AssetType::Tractor | AssetType::Harvester => Bucket::Equipment,
            AssetType::Cows => Bucket::Other,
        },
        GameEffect::LeaseRidge { .. } => Bucket::Ridge,
        _ => Bucket::Other,
    }
}

/// How many of the cards are of group `b`.
pub open spec fn count_in_bucket(cards: Seq<Card>, b: Bucket) -> nat
    decreases cards.len(),
{
    if cards.len() == 0 {
        0
    } else {
        count_in_bucket(cards.drop_last(), b) + if spec_bucket_of(&cards.last()) == b {
            1nat
        } else {
            0nat
        }
    }
}

/// Whether the top of a pile is clumped: the pile has at least twenty cards,
/// and among its first twenty are more than nine ridges, more than nine of
/// land, more than seven of equipment, or more than seven others. A pile of
/// fewer cards is never clumped.
pub open spec fn is_clumpy(pile: Seq<Card>) -> bool {
    let top = pile.take(CLUMP_WINDOW as int);
    pile.len() >= CLUMP_WINDOW && (count_in_bucket(top, Bucket::Ridge) > 9 || count_in_bucket(
        top,
        Bucket::Land,
    ) > 9 || count_in_bucket(top, Bucket::Equipment) > 7 || count_in_bucket(top, Bucket::Other)
        > 7)
}

/// Whether a pile is one of options: it has a top card, and that card is an
/// option to buy or a lease.
pub open spec fn is_option_pile(pile: Seq<Card>) -> bool {
    pile.len() > 0 && pile[0].effect.spec_is_option()
}

/// Whether no two cards of the collection share an id.
pub open spec fn ids_unique(cards: Multiset<Card>) -> bool {
    &&& forall|c: Card| cards.count(c) <= 1
    &&& forall|a: Card, b: Card|
        cards.count(a) > 0 && cards.count(b) > 0 && a.id == b.id ==> a == b
}

/// Whether no two cards of the sequence share an id.
pub open spec fn distinct_ids(cards: Seq<Card>) -> bool {
    forall|i: int, j: int|
        0 <= i < j < cards.len() ==> (#[trigger] cards[i]).id != (#[trigger] cards[j]).id
}

/// Whether a card with this id is in the collection.
pub open spec fn holds_id(cards: Multiset<Card>, id: usize) -> bool {
    exists|c: Card| cards.count(c) > 0 && c.id == id
}

/// Whether `r` and `after` are what a draw leaves of the deck `before`:
/// nothing and the same deck where it holds no card; else a card of the
/// deck and the deck without it. The card is the top of the draw pile where
/// that has one, and the rest of the pile stays in its order; where the
/// draw pile is empty, the cards of the discard pile make the new draw
/// pile, in an order that is open, and the card is one of them.
pub open spec fn is_drawn(before: Deck, r: Option<Card>, after: Deck) -> bool {
    if before.size() == 0 {
        r.is_none() && after == before
    } else {
        &&& r matches Some(card) && after.cards().insert(card) == before.cards()
            && before.cards().count(card) > 0 && (before.draw_pile@.len() > 0 ==> card
            == before.draw_pile@[0]) && (before.draw_pile@.len() == 0
            ==> after.draw_pile@.to_multiset().insert(card) == before.discard_pile@.to_multiset())
            && (ids_unique(before.cards()) ==> ids_unique(after.cards()) && !holds_id(
            after.cards(),
            card.id,
        ))
        &&& after.size() + 1 == before.size()
        &&& before.draw_pile@.len() > 0 ==> after.draw_pile@ == before.draw_pile@.remove(0)
            && after.discard_pile@ == before.discard_pile@
        &&& before.draw_pile@.len() == 0 ==> after.discard_pile@.len() == 0
    }
}

/// Whether `r` and `after` are what a draw that must succeed leaves of the
/// deck `before`, which is the one of `kind`: the card and the deck as
/// `is_drawn` says, or the error of an exhausted deck.
pub open spec fn is_draw(before: Deck, kind: DeckKind, r: Result<Card, GameError>, after: Deck) -> bool {
    match r {
        Ok(card) => is_drawn(before, Some(card), after),
        Err(e) => e == (GameError::DeckExhausted { deck: kind }) && is_drawn(before, None, after),
    }
}

/// What one call of `shuffle_reporting` did.
#[derive(Debug, Clone, Copy, PartialEq, Eq, Structural)]
pub struct ShuffleReport {
    /// How many times the pile was shuffled.
    pub attempts: u32,
    /// Whether the top of the pile was found clumped after the last shuffle.
    pub clumpy: bool,
}

/// A deck of cards.
#[derive(Debug, PartialEq)]
pub struct Deck {
    pub draw_pile: Vec<Card>,
    pub discard_pile: Vec<Card>,
}

impl Clone for Deck {
    fn clone(&self) -> (r: Self)
        ensures
            r.draw_pile@ == self.draw_pile@,
            r.discard_pile@ == self.discard_pile@,
            r.cards() == self.cards(),
    {
        let draw_pile = self.draw_pile.clone();
        let discard_pile = self.discard_pile.clone();
        assert(draw_pile@ =~= self.draw_pile@);
        assert(discard_pile@ =~= self.discard_pile@);
        Deck { draw_pile, discard_pile }
    }
}

/// Whether a shuffle of a pile of options is kept, where it is the
/// `attempts`-th in a row: its top is not clumped, or it is the fifth.
pub open spec fn is_kept(pile: Seq<Card>, attempts: int) -> bool {
    !is_clumpy(pile) || attempts >= MAX_SHUFFLE_ATTEMPTS
}

/// Decides on a pile as a shuffle left it whether it is kept or shuffled once
/// more.
pub fn keeps_shuffle(pile: &Vec<Card>, attempts: u32) -> (b: bool)
    ensures
        b == is_kept(pile@, attempts as int),
{
    attempts >= MAX_SHUFFLE_ATTEMPTS || !check_clumpy(pile)
}

/// Whether the top of a pile is clumped.
pub fn check_clumpy(pile: &Vec<Card>) -> (b: bool)
    ensures
        b == is_clumpy(pile@),
{
    if pile.len() < CLUMP_WINDOW {
        return false;
    }
    let mut ridge: usize = 0;
    let mut land: usize = 0;
    let mut equipment: usize = 0;
    let mut other: usize = 0;
    let mut i: usize = 0;
    let ghost top = pile@.take(CLUMP_WINDOW as int);
    while i < CLUMP_WINDOW
        invariant
            i <= CLUMP_WINDOW,
            pile.len() >= CLUMP_WINDOW,
            top == pile@.take(CLUMP_WINDOW as int),
            ridge == count_in_bucket(top.take(i as int), Bucket::Ridge),
            land == count_in_bucket(top.take(i as int), Bucket::Land),
            equipment == count_in_bucket(top.take(i as int), Bucket::Equipment),
            other == count_in_bucket(top.take(i as int), Bucket::Other),
            ridge <= i,
            land <= i,
            equipment <= i,
            other <= i,
        decreases CLUMP_WINDOW - i,
    {
        proof {
            let next = top.take(i + 1);
            assert(next.drop_last() =~= top.take(i as int));
            assert(next.last() == pile@[i as int]);
        }
        match bucket_of(&pile[i]) {
            Bucket::Ridge => {
                ridge += 1;
            },
            Bucket::Land => {
                land += 1;
            },
            Bucket::Equipment => {
                equipment += 1;
            },
            Bucket::Other => {
                other += 1;
            },
        }
        i += 1;
    }
    assert(top.take(CLUMP_WINDOW as int) =~= top);
    ridge > 9 || land > 9 || equipment > 7 || other > 7
}

impl Deck {
    /// All cards of the deck, whichever pile they are in.
    pub open spec fn cards(&self) -> Multiset<Card> {
        self.draw_pile@.to_multiset().add(self.discard_pile@.to_multiset())
    }

    /// How many cards the deck holds.
    pub open spec fn size(&self) -> nat {
        self.draw_pile@.len() + self.discard_pile@.len()
    }

    /// A deck without cards.
    pub fn new() -> (d: Self)
        ensures
            d.draw_pile@ == Seq::<Card>::empty(),
            d.discard_pile@ == Seq::<Card>::empty(),
    {
        Deck { draw_pile: Vec::new(), discard_pile: Vec::new() }
    }

    /// A deck whose draw pile is the catalog, in the catalog's order.
    pub fn from_catalog(catalog: Vec<Card>) -> (d: Self)
        ensures
            d.draw_pile@ == catalog@,
            d.discard_pile@ == Seq::<Card>::empty(),
            d.cards() == catalog@.to_multiset(),
            distinct_ids(catalog@) ==> ids_unique(d.cards()),
    {
        let d = Deck { draw_pile: catalog, discard_pile: Vec::new() };
        proof {
            broadcast use vstd::seq_lib::group_to_multiset_ensures;
            broadcast use vstd::multiset::group_multiset_axioms;

            assert(d.discard_pile@.to_multiset() =~= Multiset::<Card>::empty());
            assert(d.cards() =~= d.draw_pile@.to_multiset());
            if distinct_ids(d.draw_pile@) {
                lemma_distinct_ids_unique(d.draw_pile@);
            }
        }
        d
    }

    /// Moves the discard pile to the empty draw pile and shuffles it.
    fn refill(&mut self, rng: &mut StdRng)
        requires
            old(self).draw_pile@.len() == 0,
        ensures
            final(self).draw_pile@.to_multiset() == old(self).discard_pile@.to_multiset(),
            final(self).draw_pile@.len() == old(self).discard_pile@.len(),
            final(self).discard_pile@.len() == 0,
            final(self).cards() == old(self).cards(),
    {
        broadcast use vstd::seq_lib::group_to_multiset_ensures;
        broadcast use vstd::multiset::group_multiset_axioms;

        self.draw_pile.append(&mut self.discard_pile);
        assert(self.draw_pile@ =~= old(self).discard_pile@);
        assert(old(self).draw_pile@.to_multiset() =~= Multiset::<Card>::empty());
        assert(self.discard_pile@.to_multiset() =~= Multiset::<Card>::empty());
        self.shuffle_with(rng);
        assert(self.cards() =~= old(self).cards());
    }

    /// Takes the top card of the draw pile, where it has one.
    fn draw_top(&mut self) -> (r: Option<Card>)
        ensures
            old(self).draw_pile@.len() == 0 ==> r.is_none() && *final(self) == *old(self),
            old(self).draw_pile@.len() > 0 ==> r == Some(old(self).draw_pile@[0])
                && final(self).draw_pile@ == old(self).draw_pile@.remove(0)
                && final(self).discard_pile@ == old(self).discard_pile@ && final(self).cards().insert(old(self).draw_pile@[0]) == old(self).cards() && old(self).cards().count(old(self).draw_pile@[0]) > 0 && final(self).draw_pile@.to_multiset().insert(old(self).draw_pile@[0]) == old(self).draw_pile@.to_multiset() && (ids_unique(old(self).cards()) ==> ids_unique(
                final(self).cards(),
            ) && !holds_id(final(self).cards(), old(self).draw_pile@[0].id)),
    {
        broadcast use vstd::seq_lib::group_to_multiset_ensures;
        broadcast use vstd::multiset::group_multiset_axioms;

        if self.draw_pile.len() == 0 {
            return None;
        }
        let ghost before = self.draw_pile@;
        let card = self.draw_pile.remove(0);
        proof {
            assert(self.draw_pile@ == before.remove(0));
            assert(before.remove(0).to_multiset() == before.to_multiset().remove(before[0]));
            assert(before.contains(before[0]));
            assert(before.to_multiset().count(card) > 0);
            assert(self.draw_pile@.to_multiset().insert(card) =~= before.to_multiset());
            assert(self.cards().insert(card) =~= old(self).cards());
            if ids_unique(old(self).cards()) {
                lemma_unique_without(self.cards(), card);
            }
        }
        Some(card)
    }

    /// Takes the top card of the draw pile. Where the draw pile is empty, the
    /// discard pile is first moved to it and shuffled with the given
    /// generator. Nothing is returned only where both piles are empty.
    pub fn draw_with(&mut self, rng: &mut StdRng) -> (r: Option<Card>)
        ensures
            is_drawn(*old(self), r, *final(self)),
            old(self).draw_pile@.len() > 0 || old(self).discard_pile@.len() == 0 ==> *final(rng)
                == *old(rng),
    {
        if self.draw_pile.len() == 0 && self.discard_pile.len() > 0 {
            self.refill(rng);
        }
        self.draw_top()
    }

    /// Takes the top card of the draw pile, as `draw_with` does, with a
    /// generator of its own where the discard pile is to be shuffled.
    pub fn draw(&mut self) -> (r: Option<Card>)
        ensures
            is_drawn(*old(self), r, *final(self)),
    {
        if self.draw_pile.len() == 0 && self.discard_pile.len() > 0 {
            let mut rng = fresh_generator();
            self.refill(&mut rng);
        }
        self.draw_top()
    }

    /// Draws a card as `draw_with` does, or fails where the deck, which is
    /// the one of `kind`, holds none.
    pub fn draw_or_fail_with(&mut self, kind: DeckKind, rng: &mut StdRng) -> (r: Result<
        Card,
        GameError,
    >)
        ensures
            is_draw(*old(self), kind, r, *final(self)),
            old(self).draw_pile@.len() > 0 || old(self).discard_pile@.len() == 0 ==> *final(rng)
                == *old(rng),
    {
        match self.draw_with(rng) {
            Some(card) => Ok(card),
            None => Err(GameError::DeckExhausted { deck: kind }),
        }
    }

    /// Draws a card as `draw` does, or fails where the deck, which is the
    /// one of `kind`, holds none.
    pub fn draw_or_fail(&mut self, kind: DeckKind) -> (r: Result<Card, GameError>)
        ensures
            is_draw(*old(self), kind, r, *final(self)),
    {
        match self.draw() {
            Some(card) => Ok(card),
            None => Err(GameError::DeckExhausted { deck: kind }),
        }
    }

    /// Puts `card` on the discard pile.
    pub fn discard(&mut self, card: Card)
        ensures
            final(self).discard_pile@ == old(self).discard_pile@.push(card),
            final(self).draw_pile@ == old(self).draw_pile@,
            final(self).cards() == old(self).cards().insert(card),
            final(self).size() == old(self).size() + 1,
            ids_unique(old(self).cards()) && !holds_id(old(self).cards(), card.id) ==> ids_unique(
                final(self).cards(),
            ),
    {
        broadcast use vstd::seq_lib::group_to_multiset_ensures;
        broadcast use vstd::multiset::group_multiset_axioms;

        self.discard_pile.push(card);
        proof {
            assert(self.cards() =~= old(self).cards().insert(card));
            if ids_unique(old(self).cards()) && !holds_id(old(self).cards(), card.id) {
                lemma_unique_with(old(self).cards(), card);
            }
        }
    }

    /// Shuffles the draw pile with the given generator. A pile of options
    /// is shuffled again, up to five times in all, while its top is clumped.
    pub fn shuffle_with(&mut self, rng: &mut StdRng)
        ensures
            final(self).draw_pile@.to_multiset() == old(self).draw_pile@.to_multiset(),
            final(self).draw_pile@.len() == old(self).draw_pile@.len(),
            final(self).discard_pile@ == old(self).discard_pile@,
            final(self).cards() == old(self).cards(),
            final(self).size() == old(self).size(),
            ids_unique(old(self).cards()) ==> ids_unique(final(self).cards()),
            old(self).draw_pile@.len() == 0 ==> *final(rng) == *old(rng),
    {
        let _ = self.shuffle_reporting_with(rng);
    }

    /// Shuffles the draw pile as `shuffle_with` does, with a generator of
    /// its own, which is made only where the pile holds a card.
    pub fn shuffle(&mut self)
        ensures
            final(self).draw_pile@.to_multiset() == old(self).draw_pile@.to_multiset(),
            final(self).draw_pile@.len() == old(self).draw_pile@.len(),
            final(self).discard_pile@ == old(self).discard_pile@,
            final(self).cards() == old(self).cards(),
            final(self).size() == old(self).size(),
            ids_unique(old(self).cards()) ==> ids_unique(final(self).cards()),
    {
        if self.draw_pile.len() > 0 {
            let mut rng = fresh_generator();
            self.shuffle_with(&mut rng);
        }
    }

    /// Shuffles the draw pile with the given generator and says what it
    /// took. An empty pile is left alone, and so is the generator. A pile of
    /// options of at least twenty cards is shuffled until `keeps_shuffle`
    /// keeps it: each shuffle is put to it as it is made, and the first that
    /// it keeps is the last. Every other pile is shuffled once.
    pub fn shuffle_reporting_with(&mut self, rng: &mut StdRng) -> (report: ShuffleReport)
        ensures
            final(self).draw_pile@.to_multiset() == old(self).draw_pile@.to_multiset(),
            final(self).draw_pile@.len() == old(self).draw_pile@.len(),
            final(self).discard_pile@ == old(self).discard_pile@,
            final(self).cards() == old(self).cards(),
            final(self).size() == old(self).size(),
            ids_unique(old(self).cards()) ==> ids_unique(final(self).cards()),
            old(self).draw_pile@.len() == 0 ==> report.attempts == 0 && !report.clumpy && final(self).draw_pile@ == old(self).draw_pile@ && *final(rng) == *old(rng),
            old(self).draw_pile@.len() > 0 ==> 1 <= report.attempts <= MAX_SHUFFLE_ATTEMPTS,
            old(self).draw_pile@.len() > 0 && !(is_option_pile(old(self).draw_pile@) && old(self).draw_pile@.len() >= CLUMP_WINDOW) ==> report.attempts == 1 && !report.clumpy,
            is_option_pile(old(self).draw_pile@) ==> report.clumpy == is_clumpy(
                final(self).draw_pile@,
            ) && is_kept(final(self).draw_pile@, report.attempts as int),
    {
        broadcast use vstd::seq_lib::group_to_multiset_ensures;

        if self.draw_pile.len() == 0 {
            return ShuffleReport { attempts: 0, clumpy: false };
        }
        let options = self.draw_pile[0].effect.is_option();
        assert(self.draw_pile@.len() == self.draw_pile@.to_multiset().len());
        if options && self.draw_pile.len() >= CLUMP_WINDOW {
            let mut attempts: u32 = 0;
            let mut kept = false;
            while !kept
                invariant
                    attempts <= MAX_SHUFFLE_ATTEMPTS,
                    self.draw_pile@.to_multiset() == old(self).draw_pile@.to_multiset(),
                    self.draw_pile@.len() == old(self).draw_pile@.len(),
                    self.discard_pile@ == old(self).discard_pile@,
                    old(self).draw_pile@.len() >= CLUMP_WINDOW,
                    attempts == 0 ==> !kept,
                    attempts > 0 ==> kept == is_kept(self.draw_pile@, attempts as int),
                decreases MAX_SHUFFLE_ATTEMPTS - attempts,
            {
                attempts += 1;
                let ghost before = self.draw_pile@;
                shuffle_in_place(&mut self.draw_pile, rng);
                proof {
                    vstd::seq_lib::to_multiset_len(before);
                    vstd::seq_lib::to_multiset_len(self.draw_pile@);
                }
                kept = keeps_shuffle(&self.draw_pile, attempts);
            }
            ShuffleReport { attempts, clumpy: check_clumpy(&self.draw_pile) }
        } else {
            shuffle_in_place(&mut self.draw_pile, rng);
            assert(self.draw_pile@.len() == self.draw_pile@.to_multiset().len());
            ShuffleReport { attempts: 1, clumpy: false }
        }
    }

    /// Shuffles the draw pile as `shuffle_reporting_with` does, with a
    /// generator of its own, which is made only where the pile holds a card.
    pub fn shuffle_reporting(&mut self) -> (report: ShuffleReport)
        ensures
            final(self).draw_pile@.to_multiset() == old(self).draw_pile@.to_multiset(),
            final(self).draw_pile@.len() == old(self).draw_pile@.len(),
            final(self).discard_pile@ == old(self).discard_pile@,
            final(self).cards() == old(self).cards(),
            final(self).size() == old(self).size(),
            ids_unique(old(self).cards()) ==> ids_unique(final(self).cards()),
            old(self).draw_pile@.len() == 0 ==> report.attempts == 0 && !report.clumpy && final(self).draw_pile@ == old(self).draw_pile@,
            old(self).draw_pile@.len() > 0 ==> 1 <= report.attempts <= MAX_SHUFFLE_ATTEMPTS,
            old(self).draw_pile@.len() > 0 && !(is_option_pile(old(self).draw_pile@) && old(self).draw_pile@.len() >= CLUMP_WINDOW) ==> report.attempts == 1 && !report.clumpy,
            is_option_pile(old(self).draw_pile@) ==> report.clumpy == is_clumpy(
                final(self).draw_pile@,
            ) && (!is_clumpy(final(self).draw_pile@) || report.attempts == MAX_SHUFFLE_ATTEMPTS),
    {
        if self.draw_pile.len() == 0 {
            return ShuffleReport { attempts: 0, clumpy: false };
        }
        let mut rng = fresh_generator();
        self.shuffle_reporting_with(&mut rng)
    }
}

/// Whether a deck and the cards held outside it go from one state to the
/// next by one step of play: a draw, which moves a card of the deck to the
/// cards held; a discard, which moves a card held to the deck; or a shuffle
/// or a draw that gives nothing, which move no card.
pub open spec fn is_deck_step(
    before: Deck,
    held: Multiset<Card>,
    after: Deck,
    held_after: Multiset<Card>,
) -> bool {
    ||| exists|c: Card| #[trigger]
            after.cards().insert(c) == before.cards() && held_after == held.insert(c)
    ||| exists|c: Card|
        held.count(c) > 0 && after.cards() == #[trigger] before.cards().insert(c) && held_after
            == held.remove(c)
    ||| after.cards() == before.cards() && held_after == held
}

/// All cards of a game with one deck: those of the deck and those held
/// outside it.
pub open spec fn all_cards(deck: Deck, held: Multiset<Card>) -> Multiset<Card> {
    deck.cards().add(held)
}

/// A step of play loses no card and makes none: the cards of the deck and
/// the cards held are together what they were, as many as they were, and
/// with no id twice where none was twice before.
pub proof fn lemma_step_conserves(
    before: Deck,
    held: Multiset<Card>,
    after: Deck,
    held_after: Multiset<Card>,
)
    requires
        is_deck_step(before, held, after, held_after),
    ensures
        all_cards(after, held_after) == all_cards(before, held),
        after.size() + held_after.len() == before.size() + held.len(),
        ids_unique(all_cards(before, held)) ==> ids_unique(all_cards(after, held_after)),
{
    broadcast use vstd::seq_lib::group_to_multiset_ensures;
    broadcast use vstd::multiset::group_multiset_axioms;

    assert(all_cards(after, held_after) =~= all_cards(before, held));
    lemma_size_is_count(before);
    lemma_size_is_count(after);
    assert(all_cards(after, held_after).len() == after.cards().len() + held_after.len());
    assert(all_cards(before, held).len() == before.cards().len() + held.len());
}

/// A deck holds as many cards as its two piles are long.
pub proof fn lemma_size_is_count(deck: Deck)
    ensures
        deck.cards().len() == deck.size(),
{
    broadcast use vstd::seq_lib::group_to_multiset_ensures;
    broadcast use vstd::multiset::group_multiset_axioms;

    assert(deck.draw_pile@.to_multiset().len() == deck.draw_pile@.len());
    assert(deck.discard_pile@.to_multiset().len() == deck.discard_pile@.len());
}

/// Play with a deck loses no card and makes none, however long it goes on:
/// after any number of draws, discards and shuffles, the cards of the deck
/// and the cards held are together what they were at the start, and as
/// many.
pub proof fn lemma_play_conserves(decks: Seq<Deck>, hands: Seq<Multiset<Card>>)
    requires
        decks.len() == hands.len(),
        decks.len() > 0,
        forall|i: int|
            0 <= i < decks.len() - 1 ==> #[trigger] is_deck_step(
                decks[i],
                hands[i],
                decks[i + 1],
                hands[i + 1],
            ),
    ensures
        all_cards(decks.last(), hands.last()) == all_cards(decks[0], hands[0]),
        decks.last().size() + hands.last().len() == decks[0].size() + hands[0].len(),
        ids_unique(all_cards(decks[0], hands[0])) ==> ids_unique(
            all_cards(decks.last(), hands.last()),
        ),
    decreases decks.len(),
{
    if decks.len() > 1 {
        let n = decks.len() as int;
        let shorter_decks = decks.drop_last();
        let shorter_hands = hands.drop_last();
        assert forall|i: int| 0 <= i < shorter_decks.len() - 1 implies #[trigger] is_deck_step(
            shorter_decks[i],
            shorter_hands[i],
            shorter_decks[i + 1],
            shorter_hands[i + 1],
        ) by {
            assert(is_deck_step(decks[i], hands[i], decks[i + 1], hands[i + 1]));
        }
        lemma_play_conserves(shorter_decks, shorter_hands);
        assert(is_deck_step(decks[n - 2], hands[n - 2], decks[n - 2 + 1], hands[n - 2 + 1]));
        lemma_step_conserves(decks[n - 2], hands[n - 2], decks[n - 1], hands[n - 1]);
    }
}

/// Cards that stand in a sequence under ids that are all different make a
/// collection in which no two cards share an id.
pub proof fn lemma_distinct_ids_unique(cards: Seq<Card>)
    requires
        distinct_ids(cards),
    ensures
        ids_unique(cards.to_multiset()),
{
    broadcast use vstd::seq_lib::group_to_multiset_ensures;
    broadcast use vstd::multiset::group_multiset_axioms;

    assert(cards.no_duplicates()) by {
        assert forall|i: int, j: int|
            0 <= i < cards.len() && 0 <= j < cards.len() && i != j implies cards[i]
            != cards[j] by {
            if i < j {
                assert(cards[i].id != cards[j].id);
            } else {
                assert(cards[j].id != cards[i].id);
            }
        }
    }
    cards.lemma_multiset_has_no_duplicates();
    let m = cards.to_multiset();
    assert forall|c: Card| m.count(c) <= 1 by {
        if m.count(c) > 0 {
            assert(m.contains(c));
        }
    }
    assert forall|a: Card, b: Card| m.count(a) > 0 && m.count(b) > 0 && a.id == b.id implies a
        == b by {
        assert(cards.contains(a));
        assert(cards.contains(b));
        let i = choose|i: int| 0 <= i < cards.len() && cards[i] == a;
        let j = choose|j: int| 0 <= j < cards.len() && cards[j] == b;
        if i < j {
            assert(cards[i].id != cards[j].id);
        }
        if j < i {
            assert(cards[j].id != cards[i].id);
        }
    }
}

/// No two cards share an id after one card has left a collection in which
/// none did, and the card that left shares its id with none that stayed.
pub proof fn lemma_unique_without(rest: Multiset<Card>, card: Card)
    requires
        ids_unique(rest.insert(card)),
    ensures
        ids_unique(rest),
        !holds_id(rest, card.id),
{
    broadcast use vstd::multiset::group_multiset_axioms;

    let all = rest.insert(card);
    assert forall|c: Card| rest.count(c) <= 1 by {
        assert(all.count(c) <= 1);
    }
    assert forall|a: Card, b: Card| rest.count(a) > 0 && rest.count(b) > 0 && a.id
        == b.id implies a == b by {
        assert(all.count(a) > 0 && all.count(b) > 0);
    }
    if holds_id(rest, card.id) {
        let c = choose|c: Card| rest.count(c) > 0 && c.id == card.id;
        assert(all.count(c) > 0 && all.count(card) > 0);
        assert(c == card);
        assert(all.count(card) == rest.count(card) + 1);
        assert(all.count(card) <= 1);
    }
}

/// No two cards share an id after a card has joined a collection in which
/// none did and which held no card with its id.
pub proof fn lemma_unique_with(cards: Multiset<Card>, card: Card)
    requires
        ids_unique(cards),
        !holds_id(cards, card.id),
    ensures
        ids_unique(cards.insert(card)),
{
    broadcast use vstd::multiset::group_multiset_axioms;

    let all = cards.insert(card);
    assert(cards.count(card) == 0);
    assert forall|c: Card| all.count(c) <= 1 by {
        assert(cards.count(c) <= 1);
        if c == card {
            assert(all.count(c) == cards.count(c) + 1);
        } else {
            assert(all.count(c) == cards.count(c));
        }
    }
    assert forall|a: Card, b: Card| all.count(a) > 0 && all.count(b) > 0 && a.id
        == b.id implies a == b by {
        if a != card {
            assert(all.count(a) == cards.count(a));
        }
        if b != card {
            assert(all.count(b) == cards.count(b));
        }
    }
}

} // verus!
