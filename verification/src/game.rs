//! The turn-by-turn game state machine.
//!
//! The game owns the candidate set and drives up to a fixed number of
//! turns.  Each turn the caller asks for a guess, submits it to the oracle
//! outside this library, and hands the checked feedback back; the game then
//! either declares a win, narrows the candidate set, or ends the run.

use vstd::prelude::*;

use crate::engine::{build_new_word_list, kept_words, pick_guess};
use crate::errors::GameError;
use crate::feedback::{GuessWithFeedBack, Outcome, SlotFeedback};

verus! {

/// The game's configuration knobs: the turn limit, the fixed word length,
/// the oracle's session seed, and its endpoint.
pub struct GameConfig {
    pub max_turns: usize,
    pub word_length: usize,
    pub session_seed: usize,
    pub endpoint: String,
}

impl Default for GameConfig {
    /// The fixed parameters of this core: six turns, five-letter words, a
    /// constant session seed, and the public oracle endpoint.
    fn default() -> (c: GameConfig)
        ensures
            c.max_turns == 6,
            c.word_length == 5,
            c.session_seed == 123,
            c.endpoint@ == "https://wordle.votee.dev:8000/random"@,
    {
        GameConfig {
            max_turns: 6,
            word_length: 5,
            session_seed: 123,
            endpoint: String::from_str("https://wordle.votee.dev:8000/random"),
        }
    }
}

/// Where a game run stands: still playing, or in one of the three terminal
/// states.
pub enum GameStatus {
    /// `turns_done` turns are over and `candidates` is the narrowed set.
    Playing { turns_done: usize, candidates: Vec<String> },
    /// The oracle confirmed `guess` on turn `turns`.
    Won { guess: String, turns: usize },
    /// The turn limit passed without an all-correct verdict.
    Lost { turns: usize },
    /// The run was aborted by the given error.
    Failed { error: GameError },
}

/// Whether every slot of the feedback is a `correct` verdict.
pub open spec fn all_correct(fb: Seq<SlotFeedback>) -> bool {
    forall|i: int| 0 <= i < fb.len() ==> (#[trigger] fb[i].outcome) == Outcome::Correct
}

/// Reports whether the oracle confirmed the guessed letter at every
/// position, which wins the game.
pub fn is_winning(feedback: &Vec<SlotFeedback>) -> (r: bool)
    ensures
        r == all_correct(feedback@),
{
    let n = feedback.len();
    let mut i: usize = 0;
    while i < n
        invariant
            n == feedback@.len(),
            i <= n,
            forall|j: int| 0 <= j < i ==> (#[trigger] feedback@[j].outcome) == Outcome::Correct,
        decreases n - i,
    {
        let correct = match feedback[i].outcome {
            Outcome::Correct => true,
            Outcome::Absent => false,
            Outcome::Present => false,
        };
        if !correct {
            proof {
                assert(feedback@[i as int].outcome != Outcome::Correct);
            }
            return false;
        }
        i += 1;
    }
    true
}

/// One game session: the configuration and the evolving status.
pub struct Game {
    pub config: GameConfig,
    pub status: GameStatus,
}

impl Game {
    /// A fresh session over the full dictionary, with no turns played.
    pub fn new(config: GameConfig, initial_candidates: Vec<String>) -> (g: Game)
        ensures
            g.config == config,
            g.status matches GameStatus::Playing { turns_done, candidates } && turns_done == 0
                && candidates@ == initial_candidates@,
    {
        Game { config, status: GameStatus::Playing { turns_done: 0, candidates: initial_candidates } }
    }

    /// Begins a turn: picks a random guess from the candidate set.
    ///
    /// Returns `Some(guess)` exactly when the game is still playing, the
    /// turn limit is not yet reached, and a candidate remains; the guess is
    /// then some member of the set and the status is unchanged.  Otherwise
    /// returns `None`, moving to `Lost` when the turns are exhausted, to
    /// `Failed(NoCandidatesRemaining)` when the set is empty, and leaving a
    /// terminal status untouched.
    pub fn start_turn(&mut self) -> (r: Option<String>)
        ensures
            final(self).config == old(self).config,
            old(self).status matches GameStatus::Playing { turns_done, candidates } ==> {
                &&& turns_done >= old(self).config.max_turns ==> ({
                    &&& r is None
                    &&& final(self).status matches GameStatus::Lost { turns } && turns == turns_done
                })
                &&& turns_done < old(self).config.max_turns && candidates@.len() == 0 ==> r is None
                    && final(self).status == (GameStatus::Failed {
                    error: GameError::NoCandidatesRemaining,
                })
                &&& turns_done < old(self).config.max_turns && candidates@.len() > 0 ==> {
                    &&& final(self).status == old(self).status
                    &&& r matches Some(g) && exists|i: int|
                        0 <= i < candidates@.len() && g == #[trigger] candidates@[i]
                }
            },
            !(old(self).status is Playing) ==> r is None && final(self).status == old(self).status,
    {
        match &self.status {
            GameStatus::Playing { turns_done, candidates } => {
                let turns_done = *turns_done;
                if turns_done >= self.config.max_turns {
                    self.status = GameStatus::Lost { turns: turns_done };
                    return None;
                }
                match pick_guess(candidates) {
                    Ok(guess) => Some(guess),
                    Err(error) => {
                        self.status = GameStatus::Failed { error };
                        None
                    },
                }
            },
            _ => None,
        }
    }

    /// Ends a turn with the oracle's checked feedback for the guess.
    ///
    /// An all-correct verdict wins the game on this turn; any other verdict
    /// spends the turn and narrows the candidate set to exactly the words
    /// consistent with every position of the feedback.
    pub fn record_feedback(&mut self, pair: GuessWithFeedBack)
        requires
            pair.wf(),
            old(self).status matches GameStatus::Playing { turns_done, .. } && turns_done < old(
                self,
            ).config.max_turns,
        ensures
            final(self).config == old(self).config,
            ({
                let turns_done = old(self).status->Playing_turns_done;
                let candidates = old(self).status->Playing_candidates;
                &&& all_correct(pair.feedback@) ==> ({
                    &&& final(self).status matches GameStatus::Won { guess, turns } && guess@
                        == pair.guess@ && turns == turns_done + 1
                })
                &&& !all_correct(pair.feedback@) ==> ({
                    &&& final(self).status matches GameStatus::Playing {
                        turns_done: new_turns,
                        candidates: new_candidates,
                    } && new_turns == turns_done + 1 && new_candidates@ == kept_words(
                        candidates@,
                        pair.guess@,
                        pair.feedback@,
                    )
                })
            }),
    {
        let GuessWithFeedBack { guess, feedback } = pair;
        let mut old_status = GameStatus::Failed { error: GameError::Protocol };
        core::mem::swap(&mut old_status, &mut self.status);
        match old_status {
            GameStatus::Playing { turns_done, candidates } => {
                if is_winning(&feedback) {
                    self.status = GameStatus::Won { guess, turns: turns_done + 1 };
                } else {
                    let narrowed = build_new_word_list(candidates, guess, feedback);
                    self.status = GameStatus::Playing {
                        turns_done: turns_done + 1,
                        candidates: narrowed,
                    };
                }
            },
            _ => {
                proof {
                    assert(false);
                }
            },
        }
    }

    /// Aborts the run with the given error.
    pub fn record_failure(&mut self, error: GameError)
        ensures
            final(self).config == old(self).config,
            final(self).status == (GameStatus::Failed { error }),
    {
        self.status = GameStatus::Failed { error };
    }
}

} // verus!
