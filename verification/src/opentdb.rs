//! Questions as the trivia service hands them out.

use vstd::prelude::*;
use crate::games::difficulty_multiplier;
use crate::text::same_text;

verus! {

/// The service's answer to a request for questions.
#[derive(Clone, Debug, PartialEq, Eq)]
pub struct OTDBResponse {
    pub response_code: u8,
    pub results: Vec<OTDBQuestion>,
}

/// One question with its right answer and the wrong ones.
#[derive(Clone, Debug, PartialEq, Eq)]
pub struct OTDBQuestion {
    pub category: String,
    pub kind: String,
    pub difficulty: String,
    pub question: String,
    pub correct_answer: String,
    pub incorrect_answers: Vec<String>,
}

/// The trivia service.
#[derive(Clone, Copy, Debug, PartialEq, Eq)]
pub struct OpenTriviaDB;

/// The answers that a question is shown with: the right one and three wrong ones.
pub const ANSWERS_SHOWN: usize = 4;

impl OTDBQuestion {
    /// The question can be asked: it has the three wrong answers that are
    /// shown beside the right one.
    pub open spec fn askable(&self) -> bool {
        self.incorrect_answers@.len() >= ANSWERS_SHOWN - 1
    }

    /// Whether the question can be asked.
    pub fn is_askable(&self) -> (usable: bool)
        ensures
            usable == self.askable(),
    {
        self.incorrect_answers.len() >= ANSWERS_SHOWN - 1
    }

    /// What the question is worth, in base amounts: one for an easy one, two
    /// for a medium one, three for a hard one, and one where the difficulty
    /// is none of these.
    pub fn xp_multiplier(&self) -> (multiplier: u32)
        ensures
            multiplier == difficulty_multiplier(self.difficulty@),
    {
        if same_text(self.difficulty.as_str(), "medium") {
            2
        } else if same_text(self.difficulty.as_str(), "hard") {
            3
        } else {
            1
        }
    }
}

impl OpenTriviaDB {
    /// The question that an answer of the service carries: its first.
    pub fn first_question(response: &OTDBResponse) -> (question: Option<&OTDBQuestion>)
        ensures
            response.results@.len() == 0 ==> question is None,
            response.results@.len() > 0 ==> question == Some(&response.results@[0]),
    {
        if response.results.len() > 0 {
            Some(&response.results[0])
        } else {
            None
        }
    }
}

} // verus!
