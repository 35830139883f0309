use browser_demos::color::Rgb;
use browser_demos::guess::{
    target_index, Draw, GuessGame, GuessMsg, GuessRound, CANDIDATES, DRAW_BYTES,
};

const RED: Rgb = Rgb { r: 255, g: 0, b: 0 };
const GREEN: Rgb = Rgb { r: 0, g: 255, b: 0 };
const BLUE: Rgb = Rgb { r: 0, g: 0, b: 255 };
const GREY: Rgb = Rgb { r: 128, g: 128, b: 128 };
const WHITE: Rgb = Rgb { r: 255, g: 255, b: 255 };

fn draw(pick: u8) -> Draw {
    Draw { colors: [RED, GREEN, BLUE, GREY], pick }
}

fn shades(base: u8, pick: u8) -> Draw {
    Draw {
        colors: [
            Rgb { r: base, g: 0, b: 0 },
            Rgb { r: base, g: 1, b: 0 },
            Rgb { r: base, g: 2, b: 0 },
            Rgb { r: base, g: 3, b: 0 },
        ],
        pick,
    }
}

#[test]
fn score_sequence_for_match_then_mismatch() {
    let mut game = GuessGame::new(&draw(2));
    let mut scores = vec![game.score()];

    let target = game.target();
    assert!(game.submit_guess(target, &shades(10, 1)));
    scores.push(game.score());

    let miss = WHITE;
    assert_ne!(miss, game.target());
    assert!(!game.submit_guess(miss, &shades(20, 3)));
    scores.push(game.score());

    assert_eq!(scores, vec![0, 1, 0]);
}

#[test]
fn a_hit_adds_exactly_one() {
    let mut game = GuessGame::new(&draw(0));
    for round in 1..=50u64 {
        let target = game.target();
        let pick = (round % 256) as u8;
        assert!(game.submit_guess(target, &shades(pick, pick)));
        assert_eq!(game.score(), round);
    }
}

#[test]
fn a_miss_resets_the_score_whatever_it_was() {
    let mut game = GuessGame::new(&draw(1));
    for _ in 0..7 {
        let target = game.target();
        game.submit_guess(target, &draw(1));
    }
    assert_eq!(game.score(), 7);
    assert_eq!(game.target(), GREEN);
    assert!(!game.submit_guess(RED, &draw(1)));
    assert_eq!(game.score(), 0);
    assert!(!game.submit_guess(RED, &draw(1)));
    assert_eq!(game.score(), 0);
}

#[test]
fn a_guess_must_match_byte_for_byte() {
    let target = Rgb { r: 10, g: 20, b: 30 };
    let near = [
        Rgb { r: 11, g: 20, b: 30 },
        Rgb { r: 10, g: 21, b: 30 },
        Rgb { r: 10, g: 20, b: 31 },
        Rgb { r: 9, g: 20, b: 30 },
        Rgb { r: 30, g: 20, b: 10 },
    ];
    for color in near {
        let mut game = GuessGame::new(&Draw { colors: [target, target, target, target], pick: 0 });
        game.submit_guess(target, &Draw { colors: [target, target, target, target], pick: 0 });
        assert_eq!(game.score(), 1);
        assert!(!game.submit_guess(color, &draw(0)));
        assert_eq!(game.score(), 0);
    }
}

#[test]
fn every_other_colour_of_a_channel_misses() {
    let target = Rgb { r: 77, g: 200, b: 3 };
    let fixed = Draw { colors: [WHITE, target, WHITE, WHITE], pick: 5 };
    for value in 0..=255u8 {
        for color in [
            Rgb { r: value, ..target },
            Rgb { g: value, ..target },
            Rgb { b: value, ..target },
        ] {
            let mut game = GuessGame::new(&fixed);
            game.submit_guess(target, &fixed);
            assert_eq!(game.score(), 1);
            let hit = game.submit_guess(color, &fixed);
            assert_eq!(hit, color == target);
            assert_eq!(game.score(), if color == target { 2 } else { 0 });
        }
    }
}

#[test]
fn every_guess_replaces_candidates_and_target_together() {
    let mut game = GuessGame::new(&draw(0));
    let next = shades(40, 2);
    game.submit_guess(RED, &next);
    assert_eq!(game.candidates(), next.colors);
    assert_eq!(game.target(), next.colors[2]);
    assert_eq!(game.round().target_index(), 2);

    let after_miss = shades(50, 7);
    game.submit_guess(WHITE, &after_miss);
    assert_eq!(game.candidates(), after_miss.colors);
    assert_eq!(game.target(), after_miss.colors[3]);
    assert_eq!(game.round().target_index(), 3);
}

#[test]
fn the_target_is_always_one_of_the_candidates() {
    for pick in 0..=255u8 {
        let round = GuessRound::new_round(&shades(pick, pick));
        let candidates = round.candidates();
        assert!(round.target_index() < CANDIDATES);
        assert_eq!(round.target(), candidates[round.target_index()]);
        assert!(candidates.contains(&round.target()));
    }
}

#[test]
fn the_guessed_colour_may_come_back() {
    let mut game = GuessGame::new(&draw(0));
    assert!(game.submit_guess(RED, &draw(0)));
    assert_eq!(game.target(), RED);
    assert!(game.candidates().contains(&RED));
}

#[test]
fn a_new_round_keeps_the_score() {
    let mut game = GuessGame::new(&draw(3));
    game.submit_guess(GREY, &draw(3));
    game.submit_guess(GREY, &draw(3));
    assert_eq!(game.score(), 2);
    game.new_round(&shades(9, 1));
    assert_eq!(game.score(), 2);
    assert_eq!(game.target(), Rgb { r: 9, g: 1, b: 0 });
}

#[test]
fn a_click_is_a_guess_and_always_shows() {
    let mut game = GuessGame::new(&draw(1));
    assert!(game.update(GuessMsg::Guess(GREEN), &draw(2)));
    assert_eq!(game.score(), 1);
    assert_eq!(game.target(), BLUE);
    assert!(game.update(GuessMsg::Guess(GREEN), &draw(0)));
    assert_eq!(game.score(), 0);
    assert_eq!(game.target(), RED);
    assert_eq!(game.candidates(), [RED, GREEN, BLUE, GREY]);
}

#[test]
fn the_pick_chooses_by_its_remainder() {
    assert_eq!(target_index(0), 0);
    assert_eq!(target_index(1), 1);
    assert_eq!(target_index(2), 2);
    assert_eq!(target_index(3), 3);
    assert_eq!(target_index(4), 0);
    assert_eq!(target_index(7), 3);
    assert_eq!(target_index(254), 2);
    assert_eq!(target_index(255), 3);
}

#[test]
fn every_candidate_is_chosen_by_a_quarter_of_the_bytes() {
    let mut counts = [0usize; 4];
    for pick in 0..=255u8 {
        counts[target_index(pick)] += 1;
    }
    assert_eq!(counts, [64, 64, 64, 64]);
}

#[test]
fn thirteen_bytes_make_a_draw() {
    assert_eq!(DRAW_BYTES, 13);
    let bytes: [u8; 13] = [1, 2, 3, 4, 5, 6, 7, 8, 9, 10, 11, 12, 13];
    let drawn = Draw::from_bytes(&bytes);
    assert_eq!(
        drawn.colors,
        [
            Rgb { r: 1, g: 2, b: 3 },
            Rgb { r: 4, g: 5, b: 6 },
            Rgb { r: 7, g: 8, b: 9 },
            Rgb { r: 10, g: 11, b: 12 },
        ]
    );
    assert_eq!(drawn.pick, 13);
    let round = GuessRound::new_round(&drawn);
    assert_eq!(round.target_index(), 1);
    assert_eq!(round.target(), Rgb { r: 4, g: 5, b: 6 });
}

#[test]
fn colours_are_built_from_their_channels() {
    assert_eq!(Rgb::new(1, 2, 3), Rgb { r: 1, g: 2, b: 3 });
    assert_eq!(Rgb::new(1, 2, 3).to_bytes(), [1, 2, 3]);
}

#[test]
fn targets_are_spread_evenly_over_many_rounds() {
    let trials = 10_000usize;
    let mut state: u64 = 0x2545_F491_4F6C_DD1D;
    let mut counts = [0usize; 4];
    for _ in 0..trials {
        let mut bytes = [0u8; 13];
        for byte in bytes.iter_mut() {
            state = state
                .wrapping_mul(6364136223846793005)
                .wrapping_add(1442695040888963407);
            *byte = (state >> 56) as u8;
        }
        let round = GuessRound::new_round(&Draw::from_bytes(&bytes));
        counts[round.target_index()] += 1;
    }
    assert_eq!(counts.iter().sum::<usize>(), trials);
    for count in counts {
        let share = count as f64 / trials as f64;
        assert!((share - 0.25).abs() <= 0.05, "share {}", share);
    }
}
