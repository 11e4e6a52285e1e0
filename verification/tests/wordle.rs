use wordle_solver::engine::{build_new_word_list, contains_char, pick_guess, word_matches_feedback};
use wordle_solver::errors::GameError;
use wordle_solver::feedback::{
    parse_feedback, str_eq, GuessWithFeedBack, Outcome, SlotFeedback, WireSlot,
};
use wordle_solver::game::{is_winning, Game, GameConfig, GameStatus};

fn words(list: &[&str]) -> Vec<String> {
    list.iter().map(|w| w.to_string()).collect()
}

fn slots(guess: &str, outcomes: &[Outcome]) -> Vec<SlotFeedback> {
    guess
        .chars()
        .zip(outcomes.iter())
        .enumerate()
        .map(|(i, (letter, outcome))| SlotFeedback {
            slot: i,
            letter,
            outcome: *outcome,
        })
        .collect()
}

fn wire(slot: usize, guess: &str, result: &str) -> WireSlot {
    WireSlot {
        slot,
        guess: guess.to_string(),
        result: result.to_string(),
    }
}

#[test]
fn outcome_wire_strings() {
    assert_eq!(Outcome::Absent.as_wire_str(), "absent");
    assert_eq!(Outcome::Correct.as_wire_str(), "correct");
    assert_eq!(Outcome::Present.as_wire_str(), "present");
}

#[test]
fn outcome_from_wire_round_trip() {
    for o in [Outcome::Absent, Outcome::Correct, Outcome::Present] {
        assert_eq!(Outcome::from_wire(o.as_wire_str()), Some(o));
    }
    assert_eq!(Outcome::from_wire("bogus"), None);
    assert_eq!(Outcome::from_wire("Correct"), None);
    assert_eq!(Outcome::from_wire(""), None);
}

#[test]
fn str_eq_basic() {
    assert!(str_eq("apple", "apple"));
    assert!(!str_eq("apple", "apples"));
    assert!(!str_eq("apple", "appze"));
    assert!(str_eq("", ""));
}

#[test]
fn contains_char_basic() {
    assert!(contains_char("robot", 'b'));
    assert!(!contains_char("robot", 'z'));
    assert!(!contains_char("", 'a'));
}

#[test]
fn correct_rule_keeps_matching_position() {
    let fb = slots("apple", &[Outcome::Correct; 5]);
    assert!(word_matches_feedback("apple", "apple", &fb));
    assert!(!word_matches_feedback("angle", "apple", &fb));
}

#[test]
fn present_rule_needs_letter_elsewhere() {
    // 'a' present but not at position 0: a word holding 'a' elsewhere
    // qualifies, a word starting with 'a' (or without 'a') does not.
    let fb = vec![SlotFeedback {
        slot: 0,
        letter: 'a',
        outcome: Outcome::Present,
    }];
    assert!(word_matches_feedback("table", "a", &fb));
    assert!(!word_matches_feedback("apple", "a", &fb));
    assert!(!word_matches_feedback("zzzzz", "a", &fb));
}

#[test]
fn absent_rule_rejects_any_occurrence() {
    let fb = vec![SlotFeedback {
        slot: 0,
        letter: 'a',
        outcome: Outcome::Absent,
    }];
    assert!(!word_matches_feedback("table", "a", &fb));
    assert!(word_matches_feedback("zzzzz", "a", &fb));
}

#[test]
fn elimination_scenario_apple() {
    // Dictionary {"apple","angle","ankle","table"}, guess "apple",
    // feedback [correct, present, absent, absent, absent]: position 1
    // demands a 'p' somewhere other than index 1, which no word can offer
    // once "apple" itself is rejected by it, so the set empties.
    let dict = words(&["apple", "angle", "ankle", "table"]);
    let fb = slots(
        "apple",
        &[
            Outcome::Correct,
            Outcome::Present,
            Outcome::Absent,
            Outcome::Absent,
            Outcome::Absent,
        ],
    );
    let out = build_new_word_list(dict, "apple".to_string(), fb);
    assert!(out.is_empty());
}

#[test]
fn elimination_scenario_robot_all_absent() {
    // Guess "robot", feedback all absent: every candidate containing any
    // letter of {r, o, b, t} is removed; the others survive unchanged.
    let dict = words(&["shade", "crane", "lucky", "torch", "house"]);
    let fb = slots("robot", &[Outcome::Absent; 5]);
    let out = build_new_word_list(dict, "robot".to_string(), fb);
    assert_eq!(out, words(&["shade", "lucky"]));
}

#[test]
fn elimination_never_grows_the_set() {
    let dict = words(&["apple", "angle", "ankle", "table"]);
    let before = dict.len();
    let fb = slots("angle", &[Outcome::Present; 5]);
    let out = build_new_word_list(dict, "angle".to_string(), fb);
    assert!(out.len() <= before);
}

#[test]
fn elimination_is_idempotent_on_repeat_feedback() {
    let dict = words(&["apple", "angle", "ankle", "table", "amble"]);
    let fb = slots(
        "table",
        &[
            Outcome::Absent,
            Outcome::Present,
            Outcome::Absent,
            Outcome::Correct,
            Outcome::Correct,
        ],
    );
    let once = build_new_word_list(dict, "table".to_string(), fb.clone());
    let twice = build_new_word_list(once.clone(), "table".to_string(), fb);
    assert_eq!(once, twice);
}

#[test]
fn pick_guess_reports_empty_set() {
    let empty: Vec<String> = Vec::new();
    assert_eq!(pick_guess(&empty), Err(GameError::NoCandidatesRemaining));
}

#[test]
fn pick_guess_returns_a_member() {
    let single = words(&["apple"]);
    assert_eq!(pick_guess(&single), Ok("apple".to_string()));
    let several = words(&["apple", "angle", "table"]);
    for _ in 0..20 {
        let picked = pick_guess(&several).unwrap();
        assert!(several.contains(&picked));
    }
}

#[test]
fn parse_feedback_accepts_the_expected_shape() {
    let records = vec![
        wire(0, "r", "absent"),
        wire(1, "o", "correct"),
        wire(2, "b", "present"),
        wire(3, "o", "absent"),
        wire(4, "t", "absent"),
    ];
    let pair = parse_feedback("robot", records, 5).unwrap();
    assert_eq!(pair.guess, "robot");
    assert_eq!(pair.feedback.len(), 5);
    assert_eq!(
        pair.feedback[1],
        SlotFeedback {
            slot: 1,
            letter: 'o',
            outcome: Outcome::Correct
        }
    );
    assert_eq!(pair.feedback[2].outcome, Outcome::Present);
}

#[test]
fn parse_feedback_rejects_wrong_length() {
    let records = vec![wire(0, "r", "absent")];
    assert!(matches!(
        parse_feedback("robot", records, 5),
        Err(GameError::Protocol)
    ));
}

#[test]
fn parse_feedback_rejects_unknown_tag() {
    let records = vec![
        wire(0, "r", "absent"),
        wire(1, "o", "maybe"),
        wire(2, "b", "present"),
        wire(3, "o", "absent"),
        wire(4, "t", "absent"),
    ];
    assert!(matches!(
        parse_feedback("robot", records, 5),
        Err(GameError::Protocol)
    ));
}

#[test]
fn parse_feedback_rejects_multi_letter_guess_field() {
    let records = vec![
        wire(0, "ro", "absent"),
        wire(1, "o", "correct"),
        wire(2, "b", "present"),
        wire(3, "o", "absent"),
        wire(4, "t", "absent"),
    ];
    assert!(matches!(
        parse_feedback("robot", records, 5),
        Err(GameError::Protocol)
    ));
}

#[test]
fn describe_feedback_renders_each_slot() {
    let pair = GuessWithFeedBack {
        guess: "apple".to_string(),
        feedback: slots(
            "apple",
            &[
                Outcome::Correct,
                Outcome::Present,
                Outcome::Absent,
                Outcome::Absent,
                Outcome::Absent,
            ],
        ),
    };
    assert_eq!(
        pair.describe_feedback(),
        "a:correct; p:present; p:absent; l:absent; e:absent; "
    );
}

#[test]
fn is_winning_only_on_all_correct() {
    let all = slots("apple", &[Outcome::Correct; 5]);
    assert!(is_winning(&all));
    let mut one_off = slots("apple", &[Outcome::Correct; 5]);
    one_off[4].outcome = Outcome::Present;
    assert!(!is_winning(&one_off));
    let none: Vec<SlotFeedback> = Vec::new();
    assert!(is_winning(&none));
}

#[test]
fn default_config_holds_the_fixed_parameters() {
    let config = GameConfig::default();
    assert_eq!(config.max_turns, 6);
    assert_eq!(config.word_length, 5);
    assert_eq!(config.session_seed, 123);
    assert_eq!(config.endpoint, "https://wordle.votee.dev:8000/random");
}

#[test]
fn game_wins_immediately_on_all_correct_feedback() {
    let mut game = Game::new(GameConfig::default(), words(&["apple", "angle"]));
    let guess = game.start_turn().unwrap();
    let pair = GuessWithFeedBack {
        feedback: slots(&guess, &[Outcome::Correct; 5]),
        guess,
    };
    let expected = pair.guess.clone();
    game.record_feedback(pair);
    match &game.status {
        GameStatus::Won { guess, turns } => {
            assert_eq!(*guess, expected);
            assert_eq!(*turns, 1);
        }
        _ => panic!("expected a win"),
    }
    // A finished game asks the oracle nothing further.
    assert_eq!(game.start_turn(), None);
    assert!(matches!(game.status, GameStatus::Won { .. }));
}

#[test]
fn game_loses_after_max_turns_without_all_correct() {
    // Words with pairwise disjoint letters: an all-absent verdict removes
    // only the guessed word, so a candidate always remains and the game
    // runs through the whole turn budget.
    let dict = words(&[
        "aaaaa", "bbbbb", "ccccc", "ddddd", "eeeee", "fffff", "ggggg",
    ]);
    let mut game = Game::new(GameConfig::default(), dict);
    for _ in 0..6 {
        let guess = game.start_turn().unwrap();
        let pair = GuessWithFeedBack {
            feedback: slots(&guess, &[Outcome::Absent; 5]),
            guess,
        };
        game.record_feedback(pair);
        assert!(matches!(game.status, GameStatus::Playing { .. }));
    }
    assert_eq!(game.start_turn(), None);
    match game.status {
        GameStatus::Lost { turns } => assert_eq!(turns, 6),
        _ => panic!("expected a loss"),
    }
}

#[test]
fn game_fails_when_no_candidates_remain() {
    let mut game = Game::new(GameConfig::default(), Vec::new());
    assert_eq!(game.start_turn(), None);
    match game.status {
        GameStatus::Failed { error } => assert_eq!(error, GameError::NoCandidatesRemaining),
        _ => panic!("expected a failure"),
    }
}

#[test]
fn game_records_oracle_failures() {
    let mut game = Game::new(GameConfig::default(), words(&["apple"]));
    game.record_failure(GameError::Transport);
    match game.status {
        GameStatus::Failed { error } => assert_eq!(error, GameError::Transport),
        _ => panic!("expected a failure"),
    }
    assert_eq!(game.start_turn(), None);
}
