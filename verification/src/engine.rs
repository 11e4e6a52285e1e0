//! The elimination engine: the per-position feedback predicates, the
//! candidate-set filter, and random guess selection.
//!
//! The filter follows a deliberately positional reading of the feedback.
//! Each position is judged on its own, and an `absent` verdict eliminates
//! every word containing the guessed letter anywhere.  When a guess repeats
//! a letter that the secret word holds fewer times, this can eliminate words
//! that standard duplicate-letter scoring would keep; that simplification is
//! a documented design choice of this engine, not an accident.

use vstd::prelude::*;

use crate::errors::GameError;
use crate::feedback::{Outcome, SlotFeedback};

verus! {

/// What the verdict at position `i` of the guess demands of a candidate
/// word:
/// - `correct`: the candidate has the guessed letter at position `i`;
/// - `present`: the candidate contains the guessed letter somewhere, but
///   not at position `i`;
/// - `absent`: the candidate does not contain the guessed letter anywhere.
pub open spec fn slot_allows(word: Seq<char>, guess: Seq<char>, i: int, o: Outcome) -> bool {
    match o {
        Outcome::Correct => 0 <= i < word.len() && word[i] == guess[i],
        Outcome::Present => word.contains(guess[i]) && !(0 <= i < word.len() && word[i]
            == guess[i]),
        Outcome::Absent => !word.contains(guess[i]),
    }
}

/// Whether a candidate word satisfies the verdicts of every position of the
/// guess.
pub open spec fn word_consistent(word: Seq<char>, guess: Seq<char>, fb: Seq<SlotFeedback>) -> bool {
    forall|i: int| 0 <= i < guess.len() ==> #[trigger] slot_allows(word, guess, i, fb[i].outcome)
}

/// The words of `words`, in order, that satisfy every verdict of the
/// feedback.
pub open spec fn kept_words(words: Seq<String>, guess: Seq<char>, fb: Seq<SlotFeedback>) -> Seq<
    String,
> {
    words.filter(|w: String| word_consistent(w@, guess, fb))
}

/// Whether `word` contains the character `c`.
pub fn contains_char(word: &str, c: char) -> (r: bool)
    ensures
        r == word@.contains(c),
{
    let n = word.unicode_len();
    let mut i: usize = 0;
    while i < n
        invariant
            n == word@.len(),
            i <= n,
            forall|j: int| 0 <= j < i ==> word@[j] != c,
        decreases n - i,
    {
        if word.get_char(i) == c {
            return true;
        }
        i += 1;
    }
    false
}

/// Whether `word` satisfies every verdict of the feedback for `guess`.
pub fn word_matches_feedback(word: &str, guess: &str, feedback: &Vec<SlotFeedback>) -> (r: bool)
    requires
        feedback@.len() == guess@.len(),
    ensures
        r == word_consistent(word@, guess@, feedback@),
{
    let glen = guess.unicode_len();
    let mut i: usize = 0;
    while i < glen
        invariant
            glen == guess@.len(),
            feedback@.len() == glen,
            i <= glen,
            forall|j: int| 0 <= j < i ==> #[trigger] slot_allows(
                word@,
                guess@,
                j,
                feedback@[j].outcome,
            ),
        decreases glen - i,
    {
        let gc = guess.get_char(i);
        let ok: bool = match feedback[i].outcome {
            Outcome::Correct => i < word.unicode_len() && word.get_char(i) == gc,
            Outcome::Present => contains_char(word, gc) && !(i < word.unicode_len()
                && word.get_char(i) == gc),
            Outcome::Absent => !contains_char(word, gc),
        };
        proof {
            assert(ok == slot_allows(word@, guess@, i as int, feedback@[i as int].outcome));
        }
        if !ok {
            return false;
        }
        i += 1;
    }
    true
}

/// Applies one turn's feedback to the candidate set, retaining exactly the
/// words consistent with every position's verdict, keeping their order.
/// The set never grows.
pub fn build_new_word_list(word_list: Vec<String>, guess: String, feedback: Vec<SlotFeedback>) -> (r:
    Vec<String>)
    requires
        feedback@.len() == guess@.len(),
    ensures
        r@ == kept_words(word_list@, guess@, feedback@),
        r@.len() <= word_list@.len(),
        forall|i: int| 0 <= i < r@.len() ==> word_consistent(#[trigger] r@[i]@, guess@, feedback@),
{
    let ghost pred = |w: String| word_consistent(w@, guess@, feedback@);
    let mut out: Vec<String> = Vec::new();
    let n = word_list.len();
    let mut i: usize = 0;
    while i < n
        invariant
            n == word_list@.len(),
            i <= n,
            feedback@.len() == guess@.len(),
            pred == (|w: String| word_consistent(w@, guess@, feedback@)),
            out@ == word_list@.take(i as int).filter(pred),
        decreases n - i,
    {
        let w = &word_list[i];
        let keep = word_matches_feedback(w.as_str(), guess.as_str(), &feedback);
        if keep {
            out.push(w.clone());
        }
        proof {
            reveal(Seq::filter);
            let prefix = word_list@.take(i + 1);
            assert(prefix.drop_last() =~= word_list@.take(i as int));
            assert(prefix.last() == word_list@[i as int]);
            assert(out@ == word_list@.take(i + 1).filter(pred));
        }
        i += 1;
    }
    proof {
        assert(word_list@.take(n as int) =~= word_list@);
        broadcast use vstd::seq_lib::group_filter_ensures;

    }
    out
}

/// Monotonic shrinkage: applying feedback never grows the candidate set.
pub proof fn lemma_monotonic_shrinkage(words: Seq<String>, guess: Seq<char>, fb: Seq<SlotFeedback>)
    ensures
        kept_words(words, guess, fb).len() <= words.len(),
{
    broadcast use vstd::seq_lib::group_filter_ensures;

}

/// Consistency: after applying feedback, every remaining candidate
/// satisfies the verdict of every position, every candidate that satisfies
/// them all remains, and hence every eliminated candidate failed some
/// verdict.
pub proof fn lemma_feedback_consistency(words: Seq<String>, guess: Seq<char>, fb: Seq<SlotFeedback>)
    ensures
        forall|w: String| kept_words(words, guess, fb).contains(w) ==> word_consistent(
            w@,
            guess,
            fb,
        ),
        forall|i: int|
            0 <= i < words.len() && word_consistent(#[trigger] words[i]@, guess, fb)
                ==> kept_words(words, guess, fb).contains(words[i]),
{
    broadcast use vstd::seq_lib::group_filter_ensures;

    let kept = kept_words(words, guess, fb);
    assert forall|w: String| kept.contains(w) implies word_consistent(w@, guess, fb) by {
        let i = choose|i: int| 0 <= i < kept.len() && kept[i] == w;
        assert(word_consistent(kept[i]@, guess, fb));
    }
}

/// Every word of a sequence of all-consistent words survives the filter
/// unchanged.
proof fn lemma_kept_words_of_consistent(s: Seq<String>, guess: Seq<char>, fb: Seq<SlotFeedback>)
    requires
        forall|i: int| 0 <= i < s.len() ==> word_consistent(#[trigger] s[i]@, guess, fb),
    ensures
        kept_words(s, guess, fb) == s,
    decreases s.len(),
{
    reveal(Seq::filter);
    if s.len() == 0 {
        assert(kept_words(s, guess, fb) =~= s);
    } else {
        assert(forall|i: int|
            0 <= i < s.drop_last().len() ==> word_consistent(
                #[trigger] s.drop_last()[i]@,
                guess,
                fb,
            ));
        lemma_kept_words_of_consistent(s.drop_last(), guess, fb);
        assert(word_consistent(s.last()@, guess, fb));
        assert(kept_words(s, guess, fb) =~= s);
    }
}

/// Idempotence: applying the same guess-feedback pair twice yields the same
/// set as applying it once.
pub proof fn lemma_feedback_idempotent(words: Seq<String>, guess: Seq<char>, fb: Seq<SlotFeedback>)
    ensures
        kept_words(kept_words(words, guess, fb), guess, fb) == kept_words(words, guess, fb),
{
    broadcast use vstd::seq_lib::group_filter_ensures;

    let kept = kept_words(words, guess, fb);
    assert(forall|i: int| 0 <= i < kept.len() ==> word_consistent(#[trigger] kept[i]@, guess, fb));
    lemma_kept_words_of_consistent(kept, guess, fb);
}

/// Relies on `rand::Rng::gen_range` over a `rand::thread_rng` generator:
/// for a non-empty range `0..len` it returns a uniformly drawn value inside
/// the range.  Nothing beyond membership in the range is promised of the
/// result.
#[verifier::external_body]
fn random_index(len: usize) -> (r: usize)
    requires
        len > 0,
    ensures
        r < len,
{
    rand::Rng::gen_range(&mut rand::thread_rng(), 0..len)
}

/// Picks a guess from the candidate set, uniformly at random.
///
/// Returns `NoCandidatesRemaining` exactly when the set is empty; otherwise
/// the guess is some member of the set.
pub fn pick_guess(candidate_set: &Vec<String>) -> (r: Result<String, GameError>)
    ensures
        r is Err <==> candidate_set@.len() == 0,
        r is Err ==> r == Err::<String, GameError>(GameError::NoCandidatesRemaining),
        r is Ok ==> exists|i: int|
            0 <= i < candidate_set@.len() && r.unwrap() == #[trigger] candidate_set@[i],
{
    if candidate_set.len() == 0 {
        return Err(GameError::NoCandidatesRemaining);
    }
    let i = random_index(candidate_set.len());
    let picked = candidate_set[i].clone();
    proof {
        assert(picked == candidate_set@[i as int]);
    }
    Ok(picked)
}

} // verus!
