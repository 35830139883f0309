//! The colour guessing game: four candidate colours, one of them the
//! target, and a score that counts the guesses that hit in a row.
//!
//! The game has no source of chance of its own. Whoever runs it draws
//! thirteen bytes for each round, each of them uniform over all bytes and
//! independent of the others, and hands them over as a [`Draw`].

use vstd::prelude::*;
use vstd::relations::injective_on;
use vstd::set_lib::{lemma_int_range, lemma_map_size, set_int_range};
use crate::color::Rgb;

verus! {

/// How many colours a round offers.
pub const CANDIDATES: usize = 4;

/// How many bytes of chance a round takes: three for each candidate and one
/// to choose among them.
pub const DRAW_BYTES: usize = 13;

/// What chance contributes to one round.
#[derive(Clone, Copy, PartialEq, Eq, Debug)]
pub struct Draw {
    /// The four candidates.
    pub colors: [Rgb; 4],
    /// The byte that chooses the target among them.
    pub pick: u8,
}

/// The candidate that a byte of chance chooses.
pub open spec fn spec_target_index(pick: u8) -> int {
    pick as int % CANDIDATES as int
}

/// The candidate that a byte of chance chooses.
pub fn target_index(pick: u8) -> (index: usize)
    ensures
        index == spec_target_index(pick),
        index < CANDIDATES,
{
    let low: u8 = pick % 4;
    low as usize
}

/// The bytes of chance that choose the candidate `index`.
pub open spec fn picks_of(index: int) -> Set<u8> {
    Set::new(|pick: u8| spec_target_index(pick) == index)
}

/// Every candidate is chosen by exactly 64 of the 256 bytes: a uniform byte
/// makes a uniform choice among the four.
pub proof fn lemma_target_choice_is_uniform(index: int)
    requires
        0 <= index < CANDIDATES,
    ensures
        picks_of(index).finite(),
        picks_of(index).len() == 64,
        picks_of(index).len() * CANDIDATES == 256,
{
    let quotients = set_int_range(0, 64);
    let pick_of = |quotient: int| (4 * quotient + index) as u8;
    lemma_int_range(0, 64);
    assert(quotients.map(pick_of) =~= picks_of(index)) by {
        assert forall|pick: u8| picks_of(index).contains(pick) implies quotients.map(
            pick_of,
        ).contains(pick) by {
            let quotient = pick as int / 4;
            assert(quotients.contains(quotient));
        }
    }
    lemma_map_size(quotients, picks_of(index), pick_of);
}

impl Draw {
    /// The draw that thirteen bytes of chance make: the first twelve are the
    /// channels of the four candidates, red, green, blue, one candidate
    /// after the other, and the last one chooses the target.
    pub fn from_bytes(bytes: &[u8; 13]) -> (draw: Draw)
        ensures
            draw.colors@.len() == CANDIDATES,
            forall|i: int|
                0 <= i < CANDIDATES ==> #[trigger] draw.colors@[i] == (Rgb {
                    r: bytes@[3 * i],
                    g: bytes@[3 * i + 1],
                    b: bytes@[3 * i + 2],
                }),
            draw.pick == bytes@[12],
    {
        Draw {
            colors: [
                Rgb { r: bytes[0], g: bytes[1], b: bytes[2] },
                Rgb { r: bytes[3], g: bytes[4], b: bytes[5] },
                Rgb { r: bytes[6], g: bytes[7], b: bytes[8] },
                Rgb { r: bytes[9], g: bytes[10], b: bytes[11] },
            ],
            pick: bytes[12],
        }
    }
}

/// What reaches the game from its page.
#[derive(Clone, Copy, PartialEq, Eq, Structural, Debug)]
pub enum GuessMsg {
    /// The button that shows this colour has been clicked.
    Guess(Rgb),
}

impl GuessMsg {
    /// The colour that the message guesses.
    pub open spec fn color(self) -> Rgb {
        match self {
            GuessMsg::Guess(color) => color,
        }
    }
}

/// A round as contracts see it.
pub struct RoundView {
    /// The colours on offer.
    pub candidates: Seq<Rgb>,
    /// Which of them is to be guessed.
    pub target_index: int,
}

impl RoundView {
    /// There are four candidates, and the target is one of them.
    pub open spec fn wf(self) -> bool {
        &&& self.candidates.len() == CANDIDATES
        &&& 0 <= self.target_index < CANDIDATES
    }

    /// The colour to be guessed.
    pub open spec fn target(self) -> Rgb {
        self.candidates[self.target_index]
    }

    /// The round that a draw makes: its four colours are the candidates,
    /// and its last byte chooses the target among them.
    pub open spec fn drawn(draw: Draw) -> RoundView {
        RoundView { candidates: draw.colors@, target_index: spec_target_index(draw.pick) }
    }
}

/// In a round that a draw makes, the target is one of the draw's four
/// colours.
pub proof fn lemma_target_is_a_candidate(draw: Draw)
    ensures
        RoundView::drawn(draw).wf(),
        RoundView::drawn(draw).candidates == draw.colors@,
        RoundView::drawn(draw).candidates.contains(RoundView::drawn(draw).target()),
{
}

/// One round of the game: four candidates, one of them the target.
pub struct GuessRound {
    candidates: [Rgb; 4],
    target_index: usize,
}

impl View for GuessRound {
    type V = RoundView;

    closed spec fn view(&self) -> RoundView {
        RoundView { candidates: self.candidates@, target_index: self.target_index as int }
    }
}

impl GuessRound {
    #[verifier::type_invariant]
    spec fn inv(&self) -> bool {
        self.target_index < CANDIDATES
    }

    /// Starts a round from what chance has drawn.
    pub fn new_round(draw: &Draw) -> (round: GuessRound)
        ensures
            round@ == RoundView::drawn(*draw),
            round@.wf(),
    {
        GuessRound { candidates: draw.colors, target_index: target_index(draw.pick) }
    }

    /// The colours on offer.
    pub fn candidates(&self) -> (candidates: [Rgb; 4])
        ensures
            candidates@ == self@.candidates,
            self@.wf(),
    {
        proof {
            use_type_invariant(self);
        }
        self.candidates
    }

    /// Which of the candidates is to be guessed.
    pub fn target_index(&self) -> (index: usize)
        ensures
            index == self@.target_index,
            self@.wf(),
    {
        proof {
            use_type_invariant(self);
        }
        self.target_index
    }

    /// The colour to be guessed.
    pub fn target(&self) -> (target: Rgb)
        ensures
            target == self@.target(),
            self@.wf(),
    {
        proof {
            use_type_invariant(self);
        }
        self.candidates[self.target_index]
    }
}

/// The game as contracts see it.
pub struct GameView {
    /// The round that awaits a guess.
    pub round: RoundView,
    /// How many guesses have hit since the last miss.
    pub score: nat,
}

impl GameView {
    /// Whether the score can take what a guess of `color` adds to it: a hit
    /// needs room for one more.
    pub open spec fn has_room_for(self, color: Rgb) -> bool {
        color == self.round.target() ==> self.score < u64::MAX
    }

    /// The game after `color` has been guessed and chance has drawn `draw`
    /// for the next round: a hit adds one to the score, a miss sets it back
    /// to nothing, and either way the whole round is replaced.
    pub open spec fn guessed(self, color: Rgb, draw: Draw) -> GameView {
        GameView {
            round: RoundView::drawn(draw),
            score: if color == self.round.target() {
                self.score + 1
            } else {
                0
            },
        }
    }
}

/// The game: the round that awaits a guess, and the score.
pub struct GuessGame {
    round: GuessRound,
    score: u64,
}

impl View for GuessGame {
    type V = GameView;

    closed spec fn view(&self) -> GameView {
        GameView { round: self.round@, score: self.score as nat }
    }
}

impl GuessGame {
    /// A new game: nothing scored, and a first round from what chance has
    /// drawn.
    pub fn new(draw: &Draw) -> (game: GuessGame)
        ensures
            game@ == (GameView { round: RoundView::drawn(*draw), score: 0 }),
            game@.round.wf(),
    {
        GuessGame { round: GuessRound::new_round(draw), score: 0 }
    }

    /// How many guesses have hit since the last miss.
    pub fn score(&self) -> (score: u64)
        ensures
            score == self@.score,
    {
        self.score
    }

    /// The round that awaits a guess.
    pub fn round(&self) -> (round: &GuessRound)
        ensures
            round@ == self@.round,
            self@.round.wf(),
    {
        proof {
            use_type_invariant(&self.round);
        }
        &self.round
    }

    /// The colour to be guessed.
    pub fn target(&self) -> (target: Rgb)
        ensures
            target == self@.round.target(),
    {
        self.round.target()
    }

    /// The colours on offer.
    pub fn candidates(&self) -> (candidates: [Rgb; 4])
        ensures
            candidates@ == self@.round.candidates,
    {
        self.round.candidates()
    }

    /// Replaces the round by one from what chance has drawn; the score
    /// stays.
    pub fn new_round(&mut self, draw: &Draw)
        ensures
            final(self)@ == (GameView { round: RoundView::drawn(*draw), score: old(self)@.score }),
            final(self)@.round.wf(),
    {
        self.round = GuessRound::new_round(draw);
    }

    /// Takes a guess. A guess hits if it is the target, byte for byte; a
    /// hit adds one to the score, a miss sets it back to nothing. Either
    /// way the round is over, and the next one is made from `draw`, the
    /// candidates and the target together. Nothing keeps the colour just
    /// guessed out of the next round. Returns whether the guess hit.
    ///
    /// The score must have room for a hit.
    pub fn submit_guess(&mut self, color: Rgb, draw: &Draw) -> (hit: bool)
        requires
            old(self)@.has_room_for(color),
        ensures
            hit == (color == old(self)@.round.target()),
            final(self)@ == old(self)@.guessed(color, *draw),
            hit ==> final(self)@.score == old(self)@.score + 1,
            !hit ==> final(self)@.score == 0,
            final(self)@.round == RoundView::drawn(*draw),
            final(self)@.round.wf(),
    {
        let hit = color == self.round.target();
        if hit {
            self.score = self.score + 1;
        } else {
            self.score = 0;
        }
        self.new_round(draw);
        hit
    }

    /// A message has arrived: a click on a candidate is a guess of its
    /// colour. The flag that comes back tells the page whether it has to be
    /// laid out again, which it always has: the colours on offer and the
    /// score are to be shown anew.
    ///
    /// The score must have room for a hit.
    pub fn update(&mut self, msg: GuessMsg, draw: &Draw) -> (layout: bool)
        requires
            old(self)@.has_room_for(msg.color()),
        ensures
            layout,
            final(self)@ == old(self)@.guessed(msg.color(), *draw),
            final(self)@.round.wf(),
    {
        match msg {
            GuessMsg::Guess(color) => {
                self.submit_guess(color, draw);
                true
            },
        }
    }
}

} // verus!
