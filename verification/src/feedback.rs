//! The oracle's per-letter feedback: outcome tags, their wire-string forms,
//! and the decoding of raw response records into a checked feedback sequence.

use vstd::prelude::*;

use crate::errors::GameError;

verus! {

/// The verdict the oracle gives for one letter position of a guess.
#[derive(Clone, Copy, PartialEq, Eq, Structural, Debug)]
pub enum Outcome {
    /// The letter does not occur in the secret word.
    Absent,
    /// The letter matches the secret word at this position.
    Correct,
    /// The letter occurs in the secret word, but not at this position.
    Present,
}

/// The exact character sequence of an outcome's wire tag.
pub open spec fn outcome_chars(o: Outcome) -> Seq<char> {
    match o {
        Outcome::Absent => seq!['a', 'b', 's', 'e', 'n', 't'],
        Outcome::Correct => seq!['c', 'o', 'r', 'r', 'e', 'c', 't'],
        Outcome::Present => seq!['p', 'r', 'e', 's', 'e', 'n', 't'],
    }
}

/// The outcome whose wire tag is `s`, if any.
pub open spec fn wire_outcome(s: Seq<char>) -> Option<Outcome> {
    if s == outcome_chars(Outcome::Absent) {
        Some(Outcome::Absent)
    } else if s == outcome_chars(Outcome::Correct) {
        Some(Outcome::Correct)
    } else if s == outcome_chars(Outcome::Present) {
        Some(Outcome::Present)
    } else {
        None
    }
}

/// Whether two string slices hold the same characters.
pub fn str_eq(a: &str, b: &str) -> (r: bool)
    ensures
        r == (a@ == b@),
{
    let alen = a.unicode_len();
    let blen = b.unicode_len();
    if alen != blen {
        return false;
    }
    let mut i: usize = 0;
    while i < alen
        invariant
            alen == a@.len(),
            blen == b@.len(),
            alen == blen,
            i <= alen,
            forall|j: int| 0 <= j < i ==> a@[j] == b@[j],
        decreases alen - i,
    {
        if a.get_char(i) != b.get_char(i) {
            return false;
        }
        i += 1;
    }
    proof {
        assert(a@ =~= b@);
    }
    true
}

impl Outcome {
    /// The wire-string form of this outcome, as the oracle protocol spells it.
    pub fn as_wire_str(&self) -> (r: &'static str)
        ensures
            r@ == outcome_chars(*self),
    {
        match self {
            Outcome::Absent => {
                proof {
                    reveal_strlit("absent");
                    assert("absent"@ =~= outcome_chars(Outcome::Absent));
                }
                "absent"
            },
            Outcome::Correct => {
                proof {
                    reveal_strlit("correct");
                    assert("correct"@ =~= outcome_chars(Outcome::Correct));
                }
                "correct"
            },
            Outcome::Present => {
                proof {
                    reveal_strlit("present");
                    assert("present"@ =~= outcome_chars(Outcome::Present));
                }
                "present"
            },
        }
    }

    /// Decodes a wire tag into its outcome; `None` on an unknown tag.
    pub fn from_wire(s: &str) -> (r: Option<Outcome>)
        ensures
            r == wire_outcome(s@),
    {
        proof {
            reveal_strlit("absent");
            reveal_strlit("correct");
            reveal_strlit("present");
            assert("absent"@ =~= outcome_chars(Outcome::Absent));
            assert("correct"@ =~= outcome_chars(Outcome::Correct));
            assert("present"@ =~= outcome_chars(Outcome::Present));
        }
        if str_eq(s, "absent") {
            Some(Outcome::Absent)
        } else if str_eq(s, "correct") {
            Some(Outcome::Correct)
        } else if str_eq(s, "present") {
            Some(Outcome::Present)
        } else {
            None
        }
    }
}

/// One checked slot of oracle feedback: the position, the letter guessed
/// there, and the oracle's verdict for it.
#[derive(Clone, Copy, PartialEq, Eq, Structural, Debug)]
pub struct SlotFeedback {
    /// The position index the oracle tagged this verdict with.
    pub slot: usize,
    /// The letter guessed at this position.
    pub letter: char,
    /// The oracle's verdict for this position.
    pub outcome: Outcome,
}

/// One slot record as decoded from the oracle's response body, before any
/// checking.  Field names follow the wire protocol: `slot` is the position
/// index, `guess` the letter guessed there (as a string), `result` the
/// verdict tag.
#[derive(Debug)]
pub struct WireSlot {
    pub slot: usize,
    pub guess: String,
    pub result: String,
}

/// Whether a raw record has the expected shape: a single guessed letter and
/// a known verdict tag.
pub open spec fn valid_wire_slot(w: WireSlot) -> bool {
    &&& w.guess@.len() == 1
    &&& wire_outcome(w.result@) is Some
}

/// The checked slot that a valid raw record decodes to.
pub open spec fn decoded_slot(w: WireSlot) -> SlotFeedback {
    SlotFeedback { slot: w.slot, letter: w.guess@[0], outcome: wire_outcome(w.result@).unwrap() }
}

/// A submitted guess together with the full ordered feedback the oracle
/// returned for it, one entry per letter position.
pub struct GuessWithFeedBack {
    pub guess: String,
    pub feedback: Vec<SlotFeedback>,
}

/// The characters of one slot's human-readable description: the guessed
/// letter, a colon, the verdict's wire tag, a semicolon and a space.
pub open spec fn entry_chars(letter: char, o: Outcome) -> Seq<char> {
    seq![letter, ':'] + outcome_chars(o) + seq![';', ' ']
}

/// The characters of the description of the first `n` slots.
pub open spec fn describe_chars(guess: Seq<char>, fb: Seq<SlotFeedback>, n: int) -> Seq<char>
    decreases n,
{
    if n <= 0 {
        Seq::empty()
    } else {
        describe_chars(guess, fb, n - 1) + entry_chars(guess[n - 1], fb[n - 1].outcome)
    }
}

/// Relies on char's `ToString` (through its `Display` impl): the resulting
/// string holds exactly the one character.
#[verifier::external_body]
fn char_to_string(c: char) -> (r: String)
    ensures
        r@ == seq![c],
{
    c.to_string()
}

impl GuessWithFeedBack {
    /// The feedback sequence covers exactly the letters of the guess.
    pub open spec fn wf(self) -> bool {
        self.feedback@.len() == self.guess@.len()
    }

    /// Renders the feedback as a `letter:verdict; ` sequence, one entry per
    /// letter position of the guess.
    pub fn describe_feedback(&self) -> (r: String)
        requires
            self.wf(),
        ensures
            r@ == describe_chars(self.guess@, self.feedback@, self.feedback@.len() as int),
    {
        let mut re = String::new();
        let n = self.feedback.len();
        let mut i: usize = 0;
        while i < n
            invariant
                self.wf(),
                n == self.feedback@.len(),
                i <= n,
                re@ == describe_chars(self.guess@, self.feedback@, i as int),
            decreases n - i,
        {
            let letter = self.guess.as_str().get_char(i);
            let letter_str = char_to_string(letter);
            re.append(letter_str.as_str());
            re.append(":");
            re.append(self.feedback[i].outcome.as_wire_str());
            re.append("; ");
            proof {
                reveal_strlit(":");
                reveal_strlit("; ");
                assert(re@ =~= describe_chars(self.guess@, self.feedback@, i + 1));
            }
            i += 1;
        }
        re
    }
}

/// Decodes the oracle's raw response records into a checked feedback
/// sequence for `candidate`.
///
/// Succeeds exactly when the response has one record per letter of the
/// candidate and every record carries a single guessed letter and a known
/// verdict tag; anything else is a protocol error.
pub fn parse_feedback(candidate: &str, records: Vec<WireSlot>, word_length: usize) -> (r: Result<
    GuessWithFeedBack,
    GameError,
>)
    requires
        candidate@.len() == word_length,
    ensures
        r is Ok <==> (records@.len() == word_length && forall|i: int|
            0 <= i < records@.len() ==> valid_wire_slot(#[trigger] records@[i])),
        r is Ok ==> {
            let p = r.unwrap();
            &&& p.guess@ == candidate@
            &&& p.wf()
            &&& p.feedback@.len() == records@.len()
            &&& forall|i: int|
                0 <= i < records@.len() ==> #[trigger] p.feedback@[i] == decoded_slot(records@[i])
        },
        r is Err ==> r == Err::<GuessWithFeedBack, GameError>(GameError::Protocol),
{
    if records.len() != word_length {
        return Err(GameError::Protocol);
    }
    let mut feedback: Vec<SlotFeedback> = Vec::new();
    let n = records.len();
    let mut i: usize = 0;
    while i < n
        invariant
            n == records@.len(),
            i <= n,
            feedback@.len() == i,
            forall|j: int| 0 <= j < i ==> valid_wire_slot(#[trigger] records@[j]),
            forall|j: int| 0 <= j < i ==> #[trigger] feedback@[j] == decoded_slot(records@[j]),
        decreases n - i,
    {
        let record = &records[i];
        if record.guess.as_str().unicode_len() != 1 {
            return Err(GameError::Protocol);
        }
        let letter = record.guess.as_str().get_char(0);
        match Outcome::from_wire(record.result.as_str()) {
            Some(outcome) => {
                feedback.push(SlotFeedback { slot: record.slot, letter, outcome });
            },
            None => {
                return Err(GameError::Protocol);
            },
        }
        i += 1;
    }
    Ok(GuessWithFeedBack { guess: candidate.to_owned(), feedback })
}

} // verus!
