//! Writing the questions of a quiz: validating them, and the question counts
//! and total point the quiz keeps.
use vstd::prelude::*;
use crate::enums::{Error, Id, QuestionType};
use crate::helpers::QuestionCounts;
use crate::models::{Quiz, QuizQuestionResponse, UpdateQuizRequest};
use crate::validator::{CreateQuizQuestionAnswer, answers_valid_for, validate_answer};
use crate::access::{quiz_question_change_decision, authorize_quiz_question_change};

verus! {

/// A new question for a quiz, with its answer options.
#[derive(Clone, Debug)]
pub struct CreateQuizQuestionRequest {
    pub sample_id: Option<Id>,
    pub question_content: String,
    pub question_type: QuestionType,
    pub index: i32,
    pub point: i32,
    pub explaination: Option<String>,
    pub answers: Vec<CreateQuizQuestionAnswer>,
}

/// Every request's answers follow the rule of its question type.
pub open spec fn all_requests_valid(payloads: Seq<CreateQuizQuestionRequest>) -> bool {
    forall|k: int| 0 <= k < payloads.len() ==>
        answers_valid_for((#[trigger] payloads[k]).question_type, payloads[k].answers@)
}

/// Whether new questions may be written: the caller must be allowed to change
/// the quiz's questions, and every question's answers must be valid; nothing
/// is written otherwise.
pub open spec fn new_questions_decision(caller_id: Id, quiz: Quiz, payloads: Seq<CreateQuizQuestionRequest>) -> Result<(), Error> {
    if quiz_question_change_decision(caller_id, quiz) is Err {
        quiz_question_change_decision(caller_id, quiz)
    } else if !all_requests_valid(payloads) {
        Err(Error::InvalidAnswer)
    } else {
        Ok(())
    }
}

/// Checks the caller's right and every new question before anything is written.
pub fn check_new_quiz_questions(caller_id: Id, quiz: &Quiz, payloads: &Vec<CreateQuizQuestionRequest>) -> (r: Result<(), Error>)
    ensures
        r == new_questions_decision(caller_id, *quiz, payloads@),
{
    let allowed = authorize_quiz_question_change(caller_id, quiz);
    if allowed.is_err() {
        return allowed;
    }
    let mut k: usize = 0;
    while k < payloads.len()
        invariant
            k <= payloads.len(),
            quiz_question_change_decision(caller_id, *quiz) is Ok,
            forall|j: int| 0 <= j < k ==>
                answers_valid_for((#[trigger] payloads@[j]).question_type, payloads@[j].answers@),
        decreases payloads.len() - k,
    {
        let p = &payloads[k];
        if !validate_answer(&p.question_type, p.answers.as_slice()) {
            assert(!answers_valid_for(payloads@[k as int].question_type, payloads@[k as int].answers@));
            assert(!all_requests_valid(payloads@));
            return Err(Error::InvalidAnswer);
        }
        k = k + 1;
    }
    Ok(())
}

/// The number of questions of type `t` among the first `n`.
pub open spec fn type_count(questions: Seq<QuizQuestionResponse>, t: QuestionType, n: nat) -> nat
    decreases n,
{
    if n == 0 {
        0
    } else {
        type_count(questions, t, (n - 1) as nat) + if questions[n - 1].question.question_type == t { 1nat } else { 0nat }
    }
}

/// The sum of the points of the first `n` questions.
pub open spec fn point_sum(questions: Seq<QuizQuestionResponse>, n: nat) -> int
    decreases n,
{
    if n == 0 {
        0
    } else {
        point_sum(questions, (n - 1) as nat) + questions[n - 1].question.point as int
    }
}

/// Every running point sum fits the total-point column.
pub open spec fn point_sums_fit(questions: Seq<QuizQuestionResponse>) -> bool {
    forall|n: nat| n <= questions.len() ==> i32::MIN <= #[trigger] point_sum(questions, n) <= i32::MAX
}

/// The question counts and total point of a quiz holding `questions`.
pub fn tally_quiz_questions(questions: &Vec<QuizQuestionResponse>) -> (tally: (QuestionCounts, i32))
    requires
        questions@.len() <= u64::MAX,
        point_sums_fit(questions@),
    ensures
        tally.0.multiple_choices == type_count(questions@, QuestionType::MultipleChoice, questions@.len()),
        tally.0.check_boxes == type_count(questions@, QuestionType::CheckBoxes, questions@.len()),
        tally.0.text_fill == type_count(questions@, QuestionType::TextFill, questions@.len()),
        tally.1 == point_sum(questions@, questions@.len()),
{
    let mut counts = QuestionCounts { multiple_choices: 0, check_boxes: 0, text_fill: 0 };
    let mut total: i32 = 0;
    let mut k: usize = 0;
    while k < questions.len()
        invariant
            k <= questions.len(),
            questions@.len() <= u64::MAX,
            point_sums_fit(questions@),
            counts.multiple_choices == type_count(questions@, QuestionType::MultipleChoice, k as nat),
            counts.check_boxes == type_count(questions@, QuestionType::CheckBoxes, k as nat),
            counts.text_fill == type_count(questions@, QuestionType::TextFill, k as nat),
            counts.multiple_choices + counts.check_boxes + counts.text_fill == k,
            total == point_sum(questions@, k as nat),
        decreases questions.len() - k,
    {
        let q = &questions[k].question;
        match q.question_type {
            QuestionType::MultipleChoice => counts.multiple_choices = counts.multiple_choices + 1,
            QuestionType::CheckBoxes => counts.check_boxes = counts.check_boxes + 1,
            QuestionType::TextFill => counts.text_fill = counts.text_fill + 1,
        }
        assert(i32::MIN <= point_sum(questions@, (k + 1) as nat) <= i32::MAX);
        total = total + q.point;
        k = k + 1;
    }
    (counts, total)
}

/// The quiz change that records new question counts and total point.
pub fn totals_update(counts: QuestionCounts, total_point: i32) -> (p: UpdateQuizRequest)
    ensures
        p.name is None,
        p.is_public is None,
        p.is_publish is None,
        p.question_counts == Some(counts),
        p.total_point == Some(total_point),
        p.last_question_id is None,
{
    UpdateQuizRequest {
        name: None,
        is_public: None,
        is_publish: None,
        question_counts: Some(counts),
        total_point: Some(total_point),
        last_question_id: None,
    }
}

/// A new answer-option row, tied to the question it was created for.
#[derive(Clone, Debug)]
pub struct NewQuizQuestionAnswer {
    pub quiz_question_id: Id,
    pub content: String,
    pub is_answer: bool,
}

/// The answer-option rows to write for the question created as
/// `quiz_question_id` from a request's answers, in their order.
pub fn answer_rows(quiz_question_id: Id, answers: &Vec<CreateQuizQuestionAnswer>) -> (rows: Vec<NewQuizQuestionAnswer>)
    ensures
        rows@.len() == answers@.len(),
        forall|k: int| 0 <= k < answers@.len() ==> {
            &&& (#[trigger] rows@[k]).quiz_question_id == quiz_question_id
            &&& rows@[k].content@ == answers@[k].content@
            &&& rows@[k].is_answer == answers@[k].is_answer
        },
{
    let mut rows: Vec<NewQuizQuestionAnswer> = Vec::new();
    let mut k: usize = 0;
    while k < answers.len()
        invariant
            k <= answers.len(),
            rows@.len() == k,
            forall|j: int| 0 <= j < k ==> {
                &&& (#[trigger] rows@[j]).quiz_question_id == quiz_question_id
                &&& rows@[j].content@ == answers@[j].content@
                &&& rows@[j].is_answer == answers@[j].is_answer
            },
        decreases answers.len() - k,
    {
        let a = &answers[k];
        rows.push(NewQuizQuestionAnswer {
            quiz_question_id,
            content: a.content.clone(),
            is_answer: a.is_answer,
        });
        k = k + 1;
    }
    rows
}

/// Whether every stored answer of a question is among `checking_answer_ids`.
pub fn all_answers_listed(answer_ids: &Vec<Id>, checking_answer_ids: &Vec<Id>) -> (ok: bool)
    ensures
        ok == forall|i: int| 0 <= i < answer_ids@.len() ==> checking_answer_ids@.contains(#[trigger] answer_ids@[i]),
{
    let mut i: usize = 0;
    while i < answer_ids.len()
        invariant
            i <= answer_ids.len(),
            forall|j: int| 0 <= j < i ==> checking_answer_ids@.contains(#[trigger] answer_ids@[j]),
        decreases answer_ids.len() - i,
    {
        let x = answer_ids[i];
        let mut found = false;
        let mut j: usize = 0;
        while j < checking_answer_ids.len()
            invariant
                j <= checking_answer_ids.len(),
                found == exists|m: int| 0 <= m < j && checking_answer_ids@[m] == x,
            decreases checking_answer_ids.len() - j,
        {
            if checking_answer_ids[j] == x {
                found = true;
            }
            j = j + 1;
        }
        if !found {
            assert(!checking_answer_ids@.contains(answer_ids@[i as int]));
            return false;
        }
        i = i + 1;
    }
    true
}

/// A new quiz-question row.
#[derive(Clone, Debug)]
pub struct NewQuizQuestion {
    pub quiz_id: Id,
    pub sample_id: Option<Id>,
    pub question_content: String,
    pub question_type: QuestionType,
    pub index: i32,
    pub point: i32,
    pub explanation: Option<String>,
}

/// The question rows to write for new questions of `quiz_id`, one per request,
/// in order.
pub fn question_rows(quiz_id: Id, payloads: &Vec<CreateQuizQuestionRequest>) -> (rows: Vec<NewQuizQuestion>)
    ensures
        rows@.len() == payloads@.len(),
        forall|k: int| 0 <= k < payloads@.len() ==> {
            &&& (#[trigger] rows@[k]).quiz_id == quiz_id
            &&& rows@[k].sample_id == payloads@[k].sample_id
            &&& rows@[k].question_content == payloads@[k].question_content
            &&& rows@[k].question_type == payloads@[k].question_type
            &&& rows@[k].index == payloads@[k].index
            &&& rows@[k].point == payloads@[k].point
            &&& rows@[k].explanation == payloads@[k].explaination
        },
{
    let mut rows: Vec<NewQuizQuestion> = Vec::new();
    let mut k: usize = 0;
    while k < payloads.len()
        invariant
            k <= payloads.len(),
            rows@.len() == k,
            forall|j: int| 0 <= j < k ==> {
                &&& (#[trigger] rows@[j]).quiz_id == quiz_id
                &&& rows@[j].sample_id == payloads@[j].sample_id
                &&& rows@[j].question_content == payloads@[j].question_content
                &&& rows@[j].question_type == payloads@[j].question_type
                &&& rows@[j].index == payloads@[j].index
                &&& rows@[j].point == payloads@[j].point
                &&& rows@[j].explanation == payloads@[j].explaination
            },
        decreases payloads.len() - k,
    {
        let p = &payloads[k];
        rows.push(NewQuizQuestion {
            quiz_id,
            sample_id: p.sample_id,
            question_content: p.question_content.clone(),
            question_type: p.question_type,
            index: p.index,
            point: p.point,
            explanation: p.explaination.clone(),
        });
        k = k + 1;
    }
    rows
}

/// A changed answer option of a quiz question, naming the option it replaces.
#[derive(Clone, Debug)]
pub struct UpdateQuizQuestionAnswer {
    pub id: Option<Id>,
    pub content: String,
    pub is_answer: bool,
}

/// A change to a quiz question's wording and answers.
#[derive(Clone, Debug)]
pub struct UpdateQuizQuestionRequest {
    pub question_content: Option<String>,
    pub answers: Option<Vec<UpdateQuizQuestionAnswer>>,
}

/// The question that an update gives back: the new wording, if any. Answers
/// given in the request count as a change but leave the question's own record
/// as it is; a request with neither gives back nothing.
pub open spec fn quiz_question_update(q: crate::models::QuizQuestion, p: UpdateQuizQuestionRequest) -> Option<crate::models::QuizQuestion> {
    if p.question_content is None && p.answers is None {
        None
    } else {
        Some(crate::models::QuizQuestion {
            question_content: match p.question_content {
                Some(c) => c,
                None => q.question_content,
            },
            ..q
        })
    }
}

/// Applies a wording update to a quiz question.
pub fn apply_quiz_question_update(question: crate::models::QuizQuestion, payload: UpdateQuizQuestionRequest) -> (updated: Option<crate::models::QuizQuestion>)
    ensures
        updated == quiz_question_update(question, payload),
{
    let mut q = question;
    let mut changed = false;
    match payload.question_content {
        Some(c) => {
            q.question_content = c;
            changed = true;
        },
        None => {},
    }
    if payload.answers.is_some() {
        changed = true;
    }
    if changed {
        Some(q)
    } else {
        None
    }
}

/// The counts kept for a quiz add up to its number of questions.
pub proof fn law_counts_cover_every_question(questions: Seq<QuizQuestionResponse>, n: nat)
    requires
        n <= questions.len(),
    ensures
        type_count(questions, QuestionType::MultipleChoice, n) + type_count(questions, QuestionType::CheckBoxes, n)
            + type_count(questions, QuestionType::TextFill, n) == n,
    decreases n,
{
    if n > 0 {
        law_counts_cover_every_question(questions, (n - 1) as nat);
    }
}

/// New questions are only written when every one of them is valid: an accepted
/// batch has no question with invalid answers.
pub proof fn law_accepted_questions_are_valid(caller_id: Id, quiz: Quiz, payloads: Seq<CreateQuizQuestionRequest>, k: int)
    requires
        new_questions_decision(caller_id, quiz, payloads) is Ok,
        0 <= k < payloads.len(),
    ensures
        answers_valid_for(payloads[k].question_type, payloads[k].answers@),
        caller_id == quiz.creator_id,
{
}

/// A quiz-question update gives back nothing when it names neither wording nor
/// answers; otherwise the question with the wording named (or its own) and
/// every other field kept.
pub proof fn law_quiz_question_update_sets_wording(q: crate::models::QuizQuestion, p: UpdateQuizQuestionRequest)
    ensures
        quiz_question_update(q, p) is None <==> (p.question_content is None && p.answers is None),
        quiz_question_update(q, p) matches Some(r) ==> {
            &&& (p.question_content matches Some(c) ==> r.question_content == c)
            &&& (p.question_content is None ==> r.question_content == q.question_content)
            &&& r.id == q.id && r.quiz_id == q.quiz_id && r.sample_id == q.sample_id
            &&& r.question_type == q.question_type && r.index == q.index && r.point == q.point
            &&& r.explanation == q.explanation
        },
{
}

} // verus!
