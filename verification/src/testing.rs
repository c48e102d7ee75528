//! The life of a test (an attempt at a quiz): when it may be answered or
//! looked back on, what each step writes, and what a test taker sees.
use vstd::prelude::*;
use chrono::NaiveDateTime;
use crate::enums::{Error, Id, QuestionType, TestStatus};
use crate::helpers::{QuestionCounts, question_total, total_question_count};
use crate::updates::test_update;
use crate::models::{Quiz, QuizQuestion, QuizQuestionAnswer, QuizQuestionResponse, Test, TestAnswer, UpdateTest};

verus! {

/// A test is over once it was submitted or abandoned.
pub open spec fn is_over(status: TestStatus) -> bool {
    status == TestStatus::Submitted || status == TestStatus::Abandoned
}

/// Starting, answering or submitting a test needs a test that is not over.
pub fn ensure_test_open(status: TestStatus) -> (r: Result<(), Error>)
    ensures
        r == if is_over(status) { Err::<(), Error>(Error::TestEnded) } else { Ok(()) },
{
    if status == TestStatus::Submitted || status == TestStatus::Abandoned {
        Err(Error::TestEnded)
    } else {
        Ok(())
    }
}

/// Seeing a test's result or a question's solution needs a test that is over.
pub fn ensure_test_over(status: TestStatus) -> (r: Result<(), Error>)
    ensures
        r == if is_over(status) { Ok::<(), Error>(()) } else { Err(Error::TestNotEnd) },
{
    if status != TestStatus::Submitted && status != TestStatus::Abandoned {
        Err(Error::TestNotEnd)
    } else {
        Ok(())
    }
}

/// At any moment a test can either still be answered or have its result seen, never
/// both and never neither.
pub proof fn law_answer_or_see_result(status: TestStatus)
    ensures
        (if is_over(status) { Err::<(), Error>(Error::TestEnded) } else { Ok(()) }) is Ok
            <==> !((if is_over(status) { Ok::<(), Error>(()) } else { Err(Error::TestNotEnd) }) is Ok),
{
}

/// Whether a test stands at `status`.
pub fn has_status(test: &Test, status: TestStatus) -> (b: bool)
    ensures
        b == (test.status == status),
{
    test.status == status
}

/// The row a new test starts as.
#[derive(Clone, Copy, Debug, PartialEq, Eq, Structural)]
pub struct NewTest {
    pub quiz_id: Id,
    pub user_id: Id,
    pub duration: i32,
    pub current_quiz_question_id: Id,
    pub remaining_time: i32,
    pub total_question: u64,
}

/// A new test of `quiz` for `caller_id`: it starts on the first question, with
/// the quiz's whole duration left and the question total of the quiz's counts.
pub fn plan_new_test(quiz: &Quiz, caller_id: Id, quiz_question_ids: &Vec<Id>, counts: QuestionCounts) -> (t: NewTest)
    requires
        quiz_question_ids@.len() > 0,
        question_total(counts) <= u64::MAX,
    ensures
        t == (NewTest {
            quiz_id: quiz.id,
            user_id: caller_id,
            duration: quiz.duration,
            current_quiz_question_id: quiz_question_ids@[0],
            remaining_time: quiz.duration,
            total_question: question_total(counts) as u64,
        }),
{
    let total = total_question_count(counts);
    NewTest {
        quiz_id: quiz.id,
        user_id: caller_id,
        duration: quiz.duration,
        current_quiz_question_id: quiz_question_ids[0],
        remaining_time: quiz.duration,
        total_question: total,
    }
}

/// A test update that changes nothing.
pub open spec fn no_change() -> UpdateTest {
    UpdateTest {
        started_at: None,
        submitted_at: None,
        current_testing_quiz_question: None,
        remaining_time: None,
        resolved_count: None,
        status: None,
        score: None,
    }
}

/// Starting a test: it is marked in progress, started at `now`.
pub fn start_update(now: NaiveDateTime) -> (p: UpdateTest)
    ensures
        p == (UpdateTest { started_at: Some(now), status: Some(TestStatus::InProgess), ..no_change() }),
{
    UpdateTest {
        started_at: Some(now),
        submitted_at: None,
        current_testing_quiz_question: None,
        remaining_time: None,
        resolved_count: None,
        status: Some(TestStatus::InProgess),
        score: None,
    }
}

/// Answering a question: the test moves to that question, counts one more
/// resolved question and keeps the remaining time the taker reports.
pub fn resolve_update(test: &Test, quiz_question_id: Id, remaining_time: i32) -> (p: UpdateTest)
    requires
        test.completed_questions < i32::MAX,
    ensures
        p == (UpdateTest {
            current_testing_quiz_question: Some(quiz_question_id),
            resolved_count: Some((test.completed_questions + 1) as i32),
            remaining_time: Some(remaining_time),
            ..no_change()
        }),
{
    UpdateTest {
        started_at: None,
        submitted_at: None,
        current_testing_quiz_question: Some(quiz_question_id),
        remaining_time: Some(remaining_time),
        resolved_count: Some(test.completed_questions + 1),
        status: None,
        score: None,
    }
}

/// The update that submits a test at `now` with its score.
pub open spec fn submission_update(now: NaiveDateTime, score: i32) -> UpdateTest {
    UpdateTest {
        submitted_at: Some(now),
        status: Some(TestStatus::Submitted),
        score: Some(score),
        ..no_change()
    }
}

/// Submitting a test: it is marked submitted at `now` with its score.
pub fn submit_update(now: NaiveDateTime, score: i32) -> (p: UpdateTest)
    ensures
        p == submission_update(now, score),
{
    UpdateTest {
        started_at: None,
        submitted_at: Some(now),
        current_testing_quiz_question: None,
        remaining_time: None,
        resolved_count: None,
        status: Some(TestStatus::Submitted),
        score: Some(score),
    }
}

/// A question as a test taker sees it, with the answers they gave so far.
#[derive(Clone, Debug)]
pub struct TestingQuestion {
    pub question: QuizQuestion,
    pub question_type: QuestionType,
    pub answers: Vec<QuizQuestionAnswer>,
    pub user_answers: Vec<TestAnswer>,
}

/// What a test taker sees of a question: the options of a text-fill question
/// are kept, those of a choice question are withheld; the answers already
/// given are attached.
pub fn present_testing_question(q: QuizQuestionResponse, user_answers: Vec<TestAnswer>) -> (t: TestingQuestion)
    ensures
        t.question == q.question,
        t.question_type == q.question.question_type,
        t.answers@ == if q.question.question_type != QuestionType::TextFill { Seq::<QuizQuestionAnswer>::empty() } else { q.answers@ },
        t.user_answers@ == user_answers@,
{
    let question_type = q.question.question_type;
    let mut t = TestingQuestion { question: q.question, question_type, answers: q.answers, user_answers: Vec::new() };
    if t.question_type != QuestionType::TextFill {
        t.answers = Vec::new();
    }
    t.user_answers = user_answers;
    t
}

/// The chosen options among the first `n` answers, in order.
pub open spec fn chosen_upto(given: Seq<TestAnswer>, n: nat) -> Seq<Id>
    decreases n,
{
    if n == 0 {
        seq![]
    } else {
        match given[n - 1].selected_answer_id {
            Some(id) => chosen_upto(given, (n - 1) as nat).push(id),
            None => chosen_upto(given, (n - 1) as nat),
        }
    }
}

/// The last text among the first `n` answers.
pub open spec fn last_text_upto(given: Seq<TestAnswer>, n: nat) -> Option<String>
    decreases n,
{
    if n == 0 {
        None
    } else {
        match given[n - 1].text_answer {
            Some(t) => Some(t),
            None => last_text_upto(given, (n - 1) as nat),
        }
    }
}

/// A taker's answers to one question, summed up beside its solution.
#[derive(Clone, Debug)]
pub struct AnswerSummary {
    pub selected_answer_ids: Vec<Id>,
    pub text_answer: Option<String>,
    pub spent_time: i32,
}

/// Sums up the answers given to a question: the options chosen, in order, the
/// last text given, and the time spent as the last answer records it (zero
/// when there is none).
pub fn summarize_answers(given: Vec<TestAnswer>) -> (s: AnswerSummary)
    ensures
        s.selected_answer_ids@ == chosen_upto(given@, given@.len()),
        s.text_answer == last_text_upto(given@, given@.len()),
        s.spent_time == if given@.len() == 0 { 0 } else { given@.last().spent_time },
{
    let mut selected: Vec<Id> = Vec::new();
    let mut text: Option<String> = None;
    let mut spent: i32 = 0;
    let mut k: usize = 0;
    while k < given.len()
        invariant
            k <= given.len(),
            selected@ == chosen_upto(given@, k as nat),
            text == last_text_upto(given@, k as nat),
            spent == if k == 0 { 0 } else { given@[k - 1].spent_time },
        decreases given.len() - k,
    {
        let a = &given[k];
        if let Some(id) = a.selected_answer_id {
            selected.push(id);
        }
        match &a.text_answer {
            Some(t) => {
                text = Some(t.clone());
            },
            None => {},
        }
        spent = a.spent_time;
        k = k + 1;
    }
    AnswerSummary { selected_answer_ids: selected, text_answer: text, spent_time: spent }
}

/// Answering part of a test and leaving keeps it resumable: the stored test
/// keeps its status and start time, remembers the question reached and the
/// time left, and counts one more resolved question.
pub proof fn law_answering_keeps_test_resumable(test: Test, quiz_question_id: Id, remaining_time: i32)
    requires
        test.completed_questions < i32::MAX,
    ensures
        ({
            let p = UpdateTest {
                current_testing_quiz_question: Some(quiz_question_id),
                resolved_count: Some((test.completed_questions + 1) as i32),
                remaining_time: Some(remaining_time),
                ..no_change()
            };
            &&& test_update(test, p) is Some
            &&& test_update(test, p).unwrap().status == test.status
            &&& test_update(test, p).unwrap().started_at == test.started_at
            &&& test_update(test, p).unwrap().current_quiz_question_id == quiz_question_id
            &&& test_update(test, p).unwrap().remaining_time == remaining_time
            &&& test_update(test, p).unwrap().completed_questions == test.completed_questions + 1
        }),
{
}

/// A submitted test is over and keeps its score: after the submission update,
/// the test can no longer be answered, its result can be seen, and it holds
/// the score it was submitted with.
pub proof fn law_submitted_test_is_over(test: Test, now: NaiveDateTime, score: i32)
    ensures
        ({
            let p = UpdateTest {
                submitted_at: Some(now),
                status: Some(TestStatus::Submitted),
                score: Some(score),
                ..no_change()
            };
            &&& test_update(test, p) is Some
            &&& is_over(test_update(test, p).unwrap().status)
            &&& test_update(test, p).unwrap().submitted_at == Some(now)
            &&& test_update(test, p).unwrap().score == score
        }),
{
}

} // verus!
