//! Grading of a submitted test: which questions were answered correctly and
//! the score they earn.
use vstd::prelude::*;
use crate::enums::{Id, QuestionType};
use std::collections::HashSet;
use chrono::NaiveDateTime;
use crate::enums::{Error, TestStatus};
use crate::models::{QuizQuestionAnswer, QuizQuestionResponse, Test, TestAnswer};
use crate::rows::{TestQuestionResultRow, graded_result_rows};
use crate::testing::{is_over, submission_update, submit_update};
use crate::updates::{apply_test_update, test_update};

verus! {

/// The ids of the options marked correct.
pub open spec fn correct_ids(options: Seq<QuizQuestionAnswer>) -> Set<Id> {
    Set::new(|id: Id| exists|i: int| 0 <= i < options.len() && #[trigger] options[i].is_answer && options[i].id == id)
}

/// The ids of the options a test taker chose.
pub open spec fn selected_ids(given: Seq<TestAnswer>) -> Set<Id> {
    Set::new(|id: Id| exists|i: int| 0 <= i < given.len() && #[trigger] given[i].selected_answer_id == Some(id))
}

/// Every answer given names a chosen option (the answers to a choice question).
pub open spec fn all_chosen(given: Seq<TestAnswer>) -> bool {
    forall|i: int| 0 <= i < given.len() ==> (#[trigger] given[i].selected_answer_id) is Some
}

/// How a question is graded. A choice question is correct exactly when the set
/// of chosen options equals the set of correct options, whatever the order or
/// repetition of the choices. A text-fill question counts as correct when it
/// was given exactly one answer, and is left out of the results otherwise.
pub open spec fn question_outcome(q: QuizQuestionResponse, given: Seq<TestAnswer>) -> Option<bool> {
    if q.question.question_type != QuestionType::TextFill {
        Some(correct_ids(q.answers@) == selected_ids(given))
    } else if given.len() == 1 {
        Some(true)
    } else {
        None
    }
}

/// The answers to every question can be graded without a missing choice.
pub open spec fn gradable(questions: Seq<QuizQuestionResponse>, given: Seq<Vec<TestAnswer>>) -> bool {
    &&& questions.len() == given.len()
    &&& forall|k: int| 0 <= k < questions.len() && (#[trigger] questions[k]).question.question_type != QuestionType::TextFill
            ==> all_chosen(given[k]@)
}

/// The results of the first `n` questions, in question order.
pub open spec fn results_upto(questions: Seq<QuizQuestionResponse>, given: Seq<Vec<TestAnswer>>, n: nat) -> Seq<(Id, bool)>
    decreases n,
{
    if n == 0 {
        seq![]
    } else {
        let before = results_upto(questions, given, (n - 1) as nat);
        match question_outcome(questions[n - 1], given[n - 1]@) {
            Some(c) => before.push((questions[n - 1].question.id, c)),
            None => before,
        }
    }
}

/// The points earned on the first `n` questions.
pub open spec fn score_upto(questions: Seq<QuizQuestionResponse>, given: Seq<Vec<TestAnswer>>, n: nat) -> int
    decreases n,
{
    if n == 0 {
        0
    } else {
        score_upto(questions, given, (n - 1) as nat)
            + if question_outcome(questions[n - 1], given[n - 1]@) == Some(true) {
                questions[n - 1].question.point as int
            } else {
                0
            }
    }
}

/// The sum of the points of the first `n` questions.
pub open spec fn points_upto(questions: Seq<QuizQuestionResponse>, n: nat) -> int
    decreases n,
{
    if n == 0 {
        0
    } else {
        points_upto(questions, (n - 1) as nat) + questions[n - 1].question.point as int
    }
}

/// Every running score fits the score column.
pub open spec fn scores_fit(questions: Seq<QuizQuestionResponse>, given: Seq<Vec<TestAnswer>>) -> bool {
    forall|n: nat| n <= questions.len() ==> i32::MIN <= #[trigger] score_upto(questions, given, n) <= i32::MAX
}

/// The graded outcome of a test.
#[derive(Clone, Debug)]
pub struct Grade {
    /// For each graded question, its id and whether it was answered correctly.
    pub results: Vec<(Id, bool)>,
    pub total_score: i32,
}

fn includes_all(small: &Vec<Id>, big: &HashSet<Id>) -> (r: bool)
    ensures
        r == (forall|x: Id| small@.contains(x) ==> big@.contains(x)),
{
    let mut i: usize = 0;
    while i < small.len()
        invariant
            i <= small.len(),
            forall|j: int| 0 <= j < i ==> big@.contains(#[trigger] small@[j]),
        decreases small.len() - i,
    {
        if !big.contains(&small[i]) {
            assert(small@.contains(small@[i as int]));
            return false;
        }
        i = i + 1;
    }
    assert forall|x: Id| small@.contains(x) implies big@.contains(x) by {
        let j = choose|j: int| 0 <= j < small@.len() && small@[j] == x;
    }
    true
}

/// The correct options of a question, as a list and as a set.
fn correct_option_ids(options: &Vec<QuizQuestionAnswer>) -> (r: (Vec<Id>, HashSet<Id>))
    ensures
        forall|x: Id| r.0@.contains(x) <==> correct_ids(options@).contains(x),
        forall|x: Id| r.1@.contains(x) <==> correct_ids(options@).contains(x),
{
    let mut ids: Vec<Id> = Vec::new();
    let mut set: HashSet<Id> = HashSet::new();
    let mut i: usize = 0;
    while i < options.len()
        invariant
            i <= options.len(),
            forall|x: Id| ids@.contains(x) <==>
                exists|j: int| 0 <= j < i && #[trigger] options@[j].is_answer && options@[j].id == x,
            forall|x: Id| set@.contains(x) <==>
                exists|j: int| 0 <= j < i && #[trigger] options@[j].is_answer && options@[j].id == x,
        decreases options.len() - i,
    {
        let ghost before = ids@;
        let ghost before_set = set@;
        if options[i].is_answer {
            ids.push(options[i].id);
            set.insert(options[i].id);
        }
        assert forall|x: Id| ids@.contains(x) <==>
            exists|j: int| 0 <= j < i + 1 && #[trigger] options@[j].is_answer && options@[j].id == x by {
            if ids@.contains(x) && !before.contains(x) {
                assert(ids@.last() == x);
            }
            if exists|j: int| 0 <= j < i + 1 && #[trigger] options@[j].is_answer && options@[j].id == x {
                let j = choose|j: int| 0 <= j < i + 1 && #[trigger] options@[j].is_answer && options@[j].id == x;
                if j < i {
                    assert(before.contains(x));
                    let k = choose|k: int| 0 <= k < before.len() && before[k] == x;
                    assert(ids@[k] == x);
                } else {
                    assert(ids@[ids@.len() - 1] == x);
                }
            }
        }
        assert forall|x: Id| set@.contains(x) <==>
            exists|j: int| 0 <= j < i + 1 && #[trigger] options@[j].is_answer && options@[j].id == x by {
            if exists|j: int| 0 <= j < i + 1 && #[trigger] options@[j].is_answer && options@[j].id == x {
                let j = choose|j: int| 0 <= j < i + 1 && #[trigger] options@[j].is_answer && options@[j].id == x;
                if j < i {
                    assert(before_set.contains(x));
                }
            }
        }
        i = i + 1;
    }
    (ids, set)
}

/// The chosen options of a question, as a list and as a set.
fn chosen_option_ids(given: &Vec<TestAnswer>) -> (r: (Vec<Id>, HashSet<Id>))
    requires
        all_chosen(given@),
    ensures
        forall|x: Id| r.0@.contains(x) <==> selected_ids(given@).contains(x),
        forall|x: Id| r.1@.contains(x) <==> selected_ids(given@).contains(x),
{
    let mut ids: Vec<Id> = Vec::new();
    let mut set: HashSet<Id> = HashSet::new();
    let mut i: usize = 0;
    while i < given.len()
        invariant
            i <= given.len(),
            all_chosen(given@),
            forall|x: Id| ids@.contains(x) <==>
                exists|j: int| 0 <= j < i && #[trigger] given@[j].selected_answer_id == Some(x),
            forall|x: Id| set@.contains(x) <==>
                exists|j: int| 0 <= j < i && #[trigger] given@[j].selected_answer_id == Some(x),
        decreases given.len() - i,
    {
        let ghost before = ids@;
        let ghost before_set = set@;
        assert(given@[i as int].selected_answer_id is Some);
        let chosen = given[i].selected_answer_id.unwrap();
        ids.push(chosen);
        set.insert(chosen);
        assert forall|x: Id| ids@.contains(x) <==>
            exists|j: int| 0 <= j < i + 1 && #[trigger] given@[j].selected_answer_id == Some(x) by {
            if ids@.contains(x) && !before.contains(x) {
                assert(ids@.last() == x);
                assert(given@[i as int].selected_answer_id == Some(x));
            }
            if exists|j: int| 0 <= j < i + 1 && #[trigger] given@[j].selected_answer_id == Some(x) {
                let j = choose|j: int| 0 <= j < i + 1 && #[trigger] given@[j].selected_answer_id == Some(x);
                if j < i {
                    assert(before.contains(x));
                    let k = choose|k: int| 0 <= k < before.len() && before[k] == x;
                    assert(ids@[k] == x);
                } else {
                    assert(ids@[ids@.len() - 1] == x);
                }
            }
        }
        assert forall|x: Id| set@.contains(x) <==>
            exists|j: int| 0 <= j < i + 1 && #[trigger] given@[j].selected_answer_id == Some(x) by {
            if set@.contains(x) && !before_set.contains(x) {
                assert(x == chosen);
                assert(given@[i as int].selected_answer_id == Some(x));
            }
            if exists|j: int| 0 <= j < i + 1 && #[trigger] given@[j].selected_answer_id == Some(x) {
                let j = choose|j: int| 0 <= j < i + 1 && #[trigger] given@[j].selected_answer_id == Some(x);
                if j < i {
                    assert(before_set.contains(x));
                }
            }
        }
        i = i + 1;
    }
    (ids, set)
}

/// Grades one question against the answers given to it.
pub fn grade_question(q: &QuizQuestionResponse, given: &Vec<TestAnswer>) -> (outcome: Option<bool>)
    requires
        q.question.question_type != QuestionType::TextFill ==> all_chosen(given@),
    ensures
        outcome == question_outcome(*q, given@),
{
    if q.question.question_type != QuestionType::TextFill {
        let (correct, correct_set) = correct_option_ids(&q.answers);
        let (chosen, chosen_set) = chosen_option_ids(given);
        let a = includes_all(&correct, &chosen_set);
        let b = includes_all(&chosen, &correct_set);
        proof {
            if a && b {
                assert forall|x: Id| correct_ids(q.answers@).contains(x) <==> selected_ids(given@).contains(x) by {
                    assert(correct@.contains(x) <==> correct_ids(q.answers@).contains(x));
                    assert(chosen@.contains(x) <==> selected_ids(given@).contains(x));
                    assert(correct_set@.contains(x) <==> correct_ids(q.answers@).contains(x));
                    assert(chosen_set@.contains(x) <==> selected_ids(given@).contains(x));
                }
                assert(correct_ids(q.answers@) =~= selected_ids(given@));
            }
            if correct_ids(q.answers@) == selected_ids(given@) {
                assert forall|x: Id| correct@.contains(x) implies chosen_set@.contains(x) by {
                    assert(correct_ids(q.answers@).contains(x));
                }
                assert forall|x: Id| chosen@.contains(x) implies correct_set@.contains(x) by {
                    assert(selected_ids(given@).contains(x));
                }
            }
        }
        Some(a && b)
    } else if given.len() == 1 {
        Some(true)
    } else {
        None
    }
}

/// Grades a submitted test: `given[k]` holds the answers to `questions[k]`.
/// The results list each graded question in order; the score adds the points
/// of the questions graded correct.
pub fn grade_submission(questions: &Vec<QuizQuestionResponse>, given: &Vec<Vec<TestAnswer>>) -> (grade: Grade)
    requires
        gradable(questions@, given@),
        scores_fit(questions@, given@),
    ensures
        grade.results@ == results_upto(questions@, given@, questions@.len()),
        grade.total_score == score_upto(questions@, given@, questions@.len()),
{
    let mut results: Vec<(Id, bool)> = Vec::new();
    let mut total: i32 = 0;
    let mut k: usize = 0;
    while k < questions.len()
        invariant
            k <= questions.len(),
            gradable(questions@, given@),
            scores_fit(questions@, given@),
            results@ == results_upto(questions@, given@, k as nat),
            total == score_upto(questions@, given@, k as nat),
        decreases questions.len() - k,
    {
        assert(questions@[k as int].question.question_type != QuestionType::TextFill ==> all_chosen(given@[k as int]@));
        let outcome = grade_question(&questions[k], &given[k]);
        assert(i32::MIN <= score_upto(questions@, given@, (k + 1) as nat) <= i32::MAX);
        match outcome {
            Some(c) => {
                results.push((questions[k].question.id, c));
                if c {
                    total = total + questions[k].question.point;
                }
            },
            None => {},
        }
        k = k + 1;
    }
    Grade { results, total_score: total }
}

/// Whether every answer to every choice question names a chosen option, with
/// one list of answers per question.
pub fn check_gradable(questions: &Vec<QuizQuestionResponse>, given: &Vec<Vec<TestAnswer>>) -> (ok: bool)
    ensures
        ok == gradable(questions@, given@),
{
    if questions.len() != given.len() {
        return false;
    }
    let mut k: usize = 0;
    while k < questions.len()
        invariant
            k <= questions.len(),
            questions@.len() == given@.len(),
            forall|j: int| 0 <= j < k && (#[trigger] questions@[j]).question.question_type != QuestionType::TextFill
                ==> all_chosen(given@[j]@),
        decreases questions.len() - k,
    {
        if questions[k].question.question_type != QuestionType::TextFill {
            let answers = &given[k];
            let mut i: usize = 0;
            while i < answers.len()
                invariant
                    i <= answers.len(),
                    k < questions@.len(),
                    questions@.len() == given@.len(),
                    questions@[k as int].question.question_type != QuestionType::TextFill,
                    answers@ == given@[k as int]@,
                    forall|m: int| 0 <= m < i ==> (#[trigger] answers@[m].selected_answer_id) is Some,
                decreases answers.len() - i,
            {
                if answers[i].selected_answer_id.is_none() {
                    assert(!all_chosen(given@[k as int]@));
                    assert(questions@[k as int].question.question_type != QuestionType::TextFill);
                    return false;
                }
                i = i + 1;
            }
        }
        k = k + 1;
    }
    true
}

/// Whether a submission may be graded and stored: the test must not be over,
/// and every answer to a choice question must name a chosen option.
pub open spec fn submission_decision(status: TestStatus, questions: Seq<QuizQuestionResponse>, given: Seq<Vec<TestAnswer>>) -> Result<(), Error> {
    if is_over(status) {
        Err(Error::TestEnded)
    } else if !gradable(questions, given) {
        Err(Error::InvalidAnswer)
    } else {
        Ok(())
    }
}

/// Everything a submission writes, together: the graded result rows and the
/// submitted test.
#[derive(Debug)]
pub struct SubmissionPlan {
    pub results: Vec<TestQuestionResultRow>,
    pub test: Test,
}

/// Plans a submission: checks the test and the answers, grades every question
/// and prepares the result rows and the submitted test (with its score), to be
/// written together. When a check fails nothing is planned, so nothing is
/// written.
pub fn plan_submission(test: Test, questions: &Vec<QuizQuestionResponse>, given: &Vec<Vec<TestAnswer>>, now: NaiveDateTime) -> (r: Result<SubmissionPlan, Error>)
    requires
        scores_fit(questions@, given@),
    ensures
        match submission_decision(test.status, questions@, given@) {
            Err(e) => r == Err::<SubmissionPlan, Error>(e),
            Ok(()) => r matches Ok(plan) && {
                let results = results_upto(questions@, given@, questions@.len());
                let score = score_upto(questions@, given@, questions@.len());
                &&& plan.results@.len() == results.len()
                &&& forall|k: int| 0 <= k < results.len() ==> #[trigger] plan.results@[k] == (TestQuestionResultRow {
                    test_id: test.id,
                    quiz_question_id: results[k].0,
                    is_correct: Some(results[k].1),
                })
                &&& Some(plan.test) == test_update(test, submission_update(now, score as i32))
            },
        },
{
    if test.status == TestStatus::Submitted || test.status == TestStatus::Abandoned {
        return Err(Error::TestEnded);
    }
    if !check_gradable(questions, given) {
        return Err(Error::InvalidAnswer);
    }
    let grade = grade_submission(questions, given);
    let results = graded_result_rows(test.id, &grade.results);
    let update = submit_update(now, grade.total_score);
    let ghost before = test;
    match apply_test_update(test, &update) {
        Some(t) => Ok(SubmissionPlan { results, test: t }),
        None => {
            assert(test_update(before, update) is Some);
            Err(Error::TestEnded)
        },
    }
}

/// A submission with a bad answer (a choice question answered without a
/// chosen option) is refused as a whole: nothing is graded or written.
pub proof fn law_bad_answer_saves_nothing(status: TestStatus, questions: Seq<QuizQuestionResponse>, given: Seq<Vec<TestAnswer>>)
    requires
        !is_over(status),
        !gradable(questions, given),
    ensures
        submission_decision(status, questions, given) == Err::<(), Error>(Error::InvalidAnswer),
{
}

/// The grade of a choice question depends only on the set of options chosen:
/// choosing the same options in another order, or repeating one, changes nothing.
pub proof fn law_choice_grade_ignores_order(q: QuizQuestionResponse, g1: Seq<TestAnswer>, g2: Seq<TestAnswer>)
    requires
        q.question.question_type != QuestionType::TextFill,
        selected_ids(g1) == selected_ids(g2),
    ensures
        question_outcome(q, g1) == question_outcome(q, g2),
{
}

/// A choice question left unanswered is graded wrong when it has a correct option.
pub proof fn law_unanswered_choice_question_is_wrong(q: QuizQuestionResponse, given: Seq<TestAnswer>)
    requires
        q.question.question_type != QuestionType::TextFill,
        given.len() == 0,
        exists|i: int| 0 <= i < q.answers@.len() && #[trigger] q.answers@[i].is_answer,
    ensures
        question_outcome(q, given) == Some(false),
{
    let i = choose|i: int| 0 <= i < q.answers@.len() && #[trigger] q.answers@[i].is_answer;
    assert(correct_ids(q.answers@).contains(q.answers@[i].id));
    assert(!selected_ids(given).contains(q.answers@[i].id));
}

/// Every question answered exactly right: each choice question with exactly its
/// correct options, each text-fill question with one answer.
pub open spec fn answered_exactly(questions: Seq<QuizQuestionResponse>, given: Seq<Vec<TestAnswer>>) -> bool {
    forall|k: int| 0 <= k < questions.len() ==>
        if (#[trigger] questions[k]).question.question_type != QuestionType::TextFill {
            selected_ids(given[k]@) == correct_ids(questions[k].answers@)
        } else {
            given[k]@.len() == 1
        }
}

/// A test answered exactly right has every question in its results, all marked
/// correct, and earns the sum of all points.
pub proof fn law_exact_answers_earn_full_marks(questions: Seq<QuizQuestionResponse>, given: Seq<Vec<TestAnswer>>, n: nat)
    requires
        questions.len() == given.len(),
        answered_exactly(questions, given),
        n <= questions.len(),
    ensures
        results_upto(questions, given, n).len() == n,
        forall|k: int| 0 <= k < n ==> (#[trigger] results_upto(questions, given, n)[k]) == (questions[k].question.id, true),
        score_upto(questions, given, n) == points_upto(questions, n),
    decreases n,
{
    if n > 0 {
        law_exact_answers_earn_full_marks(questions, given, (n - 1) as nat);
        let q = questions[n - 1];
        assert(question_outcome(q, given[n - 1]@) == Some(true));
        let before = results_upto(questions, given, (n - 1) as nat);
        assert forall|k: int| 0 <= k < n implies (#[trigger] results_upto(questions, given, n)[k]) == (questions[k].question.id, true) by {
            if k < n - 1 {
                assert(results_upto(questions, given, n)[k] == before[k]);
            }
        }
    }
}

/// With no negative points, a score lies between zero and the sum of all points.
pub proof fn law_score_within_total(questions: Seq<QuizQuestionResponse>, given: Seq<Vec<TestAnswer>>, n: nat)
    requires
        n <= questions.len(),
        forall|k: int| 0 <= k < questions.len() ==> (#[trigger] questions[k]).question.point >= 0,
    ensures
        0 <= score_upto(questions, given, n) <= points_upto(questions, n),
    decreases n,
{
    if n > 0 {
        law_score_within_total(questions, given, (n - 1) as nat);
        assert(questions[n - 1].question.point >= 0);
    }
}

/// A choice question (multiple choice or check boxes alike) is always graded,
/// and it is graded correct exactly when every option chosen is marked correct
/// and every option marked correct was chosen.
pub proof fn law_choice_graded_by_exact_selection(q: QuizQuestionResponse, given: Seq<TestAnswer>)
    requires
        q.question.question_type != QuestionType::TextFill,
    ensures
        question_outcome(q, given) is Some,
        question_outcome(q, given) == Some(true) <==> {
            &&& forall|i: int| 0 <= i < given.len() && (#[trigger] given[i]).selected_answer_id is Some ==>
                    exists|j: int| 0 <= j < q.answers@.len() && (#[trigger] q.answers@[j]).is_answer
                        && Some(q.answers@[j].id) == given[i].selected_answer_id
            &&& forall|j: int| 0 <= j < q.answers@.len() && (#[trigger] q.answers@[j]).is_answer ==>
                    exists|i: int| 0 <= i < given.len() && (#[trigger] given[i]).selected_answer_id == Some(q.answers@[j].id)
        },
{
    let c = correct_ids(q.answers@);
    let sel = selected_ids(given);
    let left = forall|i: int| 0 <= i < given.len() && (#[trigger] given[i]).selected_answer_id is Some ==>
        exists|j: int| 0 <= j < q.answers@.len() && (#[trigger] q.answers@[j]).is_answer
            && Some(q.answers@[j].id) == given[i].selected_answer_id;
    let right = forall|j: int| 0 <= j < q.answers@.len() && (#[trigger] q.answers@[j]).is_answer ==>
        exists|i: int| 0 <= i < given.len() && (#[trigger] given[i]).selected_answer_id == Some(q.answers@[j].id);
    if c == sel {
        assert forall|i: int| 0 <= i < given.len() && (#[trigger] given[i]).selected_answer_id is Some implies
            exists|j: int| 0 <= j < q.answers@.len() && (#[trigger] q.answers@[j]).is_answer
                && Some(q.answers@[j].id) == given[i].selected_answer_id by {
            let x = given[i].selected_answer_id->0;
            assert(sel.contains(x));
            assert(c.contains(x));
        }
        assert forall|j: int| 0 <= j < q.answers@.len() && (#[trigger] q.answers@[j]).is_answer implies
            exists|i: int| 0 <= i < given.len() && (#[trigger] given[i]).selected_answer_id == Some(q.answers@[j].id) by {
            assert(c.contains(q.answers@[j].id));
            assert(sel.contains(q.answers@[j].id));
        }
    }
    if left && right {
        assert forall|x: Id| c.contains(x) <==> sel.contains(x) by {
            if c.contains(x) {
                let j = choose|j: int| 0 <= j < q.answers@.len() && #[trigger] q.answers@[j].is_answer && q.answers@[j].id == x;
                assert(q.answers@[j].is_answer);
            }
            if sel.contains(x) {
                let i = choose|i: int| 0 <= i < given.len() && #[trigger] given[i].selected_answer_id == Some(x);
                assert(given[i].selected_answer_id is Some);
            }
        }
        assert(c =~= sel);
    }
}

/// Choosing an option that is not marked correct makes a choice question wrong,
/// whatever else was chosen.
pub proof fn law_wrong_option_makes_question_wrong(q: QuizQuestionResponse, given: Seq<TestAnswer>, i: int, x: Id)
    requires
        q.question.question_type != QuestionType::TextFill,
        0 <= i < given.len(),
        given[i].selected_answer_id == Some(x),
        forall|j: int| 0 <= j < q.answers@.len() && (#[trigger] q.answers@[j]).id == x ==> !q.answers@[j].is_answer,
    ensures
        question_outcome(q, given) == Some(false),
{
    law_choice_graded_by_exact_selection(q, given);
    assert(given[i].selected_answer_id is Some);
}

/// Leaving out an option marked correct makes a choice question wrong.
pub proof fn law_missed_option_makes_question_wrong(q: QuizQuestionResponse, given: Seq<TestAnswer>, j: int)
    requires
        q.question.question_type != QuestionType::TextFill,
        0 <= j < q.answers@.len(),
        q.answers@[j].is_answer,
        forall|i: int| 0 <= i < given.len() ==> (#[trigger] given[i]).selected_answer_id != Some(q.answers@[j].id),
    ensures
        question_outcome(q, given) == Some(false),
{
    law_choice_graded_by_exact_selection(q, given);
    assert(q.answers@[j].is_answer);
}

/// A text-fill question counts as correct when it was given exactly one answer,
/// and is not graded otherwise.
pub proof fn law_text_fill_graded_by_answer_count(q: QuizQuestionResponse, given: Seq<TestAnswer>)
    requires
        q.question.question_type == QuestionType::TextFill,
    ensures
        given.len() == 1 ==> question_outcome(q, given) == Some(true),
        given.len() != 1 ==> question_outcome(q, given) is None,
{
}

/// Grading one more question adds its points to the score exactly when it is
/// graded correct, and adds its result after the earlier ones when it is graded.
pub proof fn law_grading_one_more_question(questions: Seq<QuizQuestionResponse>, given: Seq<Vec<TestAnswer>>, n: nat)
    requires
        0 < n <= questions.len(),
    ensures
        question_outcome(questions[n - 1], given[n - 1]@) == Some(true) ==>
            score_upto(questions, given, n) == score_upto(questions, given, (n - 1) as nat) + questions[n - 1].question.point,
        question_outcome(questions[n - 1], given[n - 1]@) != Some(true) ==>
            score_upto(questions, given, n) == score_upto(questions, given, (n - 1) as nat),
        question_outcome(questions[n - 1], given[n - 1]@) matches Some(c) ==>
            results_upto(questions, given, n) == results_upto(questions, given, (n - 1) as nat).push((questions[n - 1].question.id, c)),
        question_outcome(questions[n - 1], given[n - 1]@) is None ==>
            results_upto(questions, given, n) == results_upto(questions, given, (n - 1) as nat),
{
}

/// A submission of a test that is over (submitted or abandoned) is refused as
/// ended; otherwise one whose answers do not match the questions one for one,
/// or that answers a choice question without naming an option, is refused as
/// invalid; anything else is accepted.
pub proof fn law_submission_accepted_when_open_and_well_formed(status: TestStatus, questions: Seq<QuizQuestionResponse>, given: Seq<Vec<TestAnswer>>)
    ensures
        (status == TestStatus::Submitted || status == TestStatus::Abandoned) ==>
            submission_decision(status, questions, given) == Err::<(), Error>(Error::TestEnded),
        !(status == TestStatus::Submitted || status == TestStatus::Abandoned) ==> (
            submission_decision(status, questions, given) == Ok::<(), Error>(()) <==> {
                &&& questions.len() == given.len()
                &&& forall|k: int, i: int| 0 <= k < questions.len() && 0 <= i < given[k]@.len()
                        && (#[trigger] questions[k]).question.question_type != QuestionType::TextFill
                        ==> (#[trigger] given[k]@[i]).selected_answer_id is Some
            }),
        submission_decision(status, questions, given) is Err ==> (
            submission_decision(status, questions, given) == Err::<(), Error>(Error::TestEnded)
            || submission_decision(status, questions, given) == Err::<(), Error>(Error::InvalidAnswer)),
{
    if questions.len() == given.len() {
        if forall|k: int, i: int| 0 <= k < questions.len() && 0 <= i < given[k]@.len()
                && (#[trigger] questions[k]).question.question_type != QuestionType::TextFill
                ==> (#[trigger] given[k]@[i]).selected_answer_id is Some {
            assert forall|k: int| 0 <= k < questions.len() && (#[trigger] questions[k]).question.question_type != QuestionType::TextFill
                implies all_chosen(given[k]@) by {
                assert forall|i: int| 0 <= i < given[k]@.len() implies (#[trigger] given[k]@[i].selected_answer_id) is Some by {
                    assert(given[k]@[i].selected_answer_id is Some);
                }
            }
        }
        if gradable(questions, given) {
            assert forall|k: int, i: int| 0 <= k < questions.len() && 0 <= i < given[k]@.len()
                && (#[trigger] questions[k]).question.question_type != QuestionType::TextFill
                implies (#[trigger] given[k]@[i]).selected_answer_id is Some by {
                assert(all_chosen(given[k]@));
                assert(given[k]@[i].selected_answer_id is Some);
            }
        }
    }
}

/// Submitting marks the test submitted at the submission time with its score,
/// and keeps everything else about the test.
pub proof fn law_submission_marks_test_submitted(test: Test, now: NaiveDateTime, score: i32)
    ensures
        test_update(test, submission_update(now, score)) matches Some(r) && {
            &&& r.status == TestStatus::Submitted
            &&& r.submitted_at == Some(now)
            &&& r.score == score
            &&& r.id == test.id && r.quiz_id == test.quiz_id && r.user_id == test.user_id
            &&& r.started_at == test.started_at
            &&& r.current_quiz_question_id == test.current_quiz_question_id
            &&& r.remaining_time == test.remaining_time
            &&& r.completed_questions == test.completed_questions
            &&& r.duration == test.duration && r.total_question == test.total_question
        },
{
}

} // verus!
