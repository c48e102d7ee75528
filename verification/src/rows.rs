//! The rows written when records are created.
use vstd::prelude::*;
use crate::enums::{Id, QuestionType, Role};
use crate::helpers::QuestionCounts;
use crate::models::{QnAAnswer, User};

verus! {

/// A request to create a quiz.
#[derive(Clone, Debug)]
pub struct CreateQuizRequest {
    pub name: Option<String>,
    pub is_public: bool,
}

/// The row a new quiz starts as.
#[derive(Clone, Debug)]
pub struct NewQuiz {
    pub name: String,
    pub creator_id: Id,
    pub is_public: bool,
    pub question_counts: QuestionCounts,
}

/// The name a quiz gets when its creator gives none.
pub open spec fn untitled_quiz_name() -> Seq<char> {
    "Untitled Quiz"@
}

/// A new quiz of `creator_id`: named as asked or "Untitled Quiz", with no
/// questions counted yet.
pub fn new_quiz_row(payload: CreateQuizRequest, creator_id: Id) -> (row: NewQuiz)
    ensures
        row.name@ == (match payload.name { Some(n) => n@, None => untitled_quiz_name() }),
        row.creator_id == creator_id,
        row.is_public == payload.is_public,
        row.question_counts == (QuestionCounts { multiple_choices: 0, check_boxes: 0, text_fill: 0 }),
{
    let name = match payload.name {
        Some(n) => n,
        None => "Untitled Quiz".to_owned(),
    };
    NewQuiz {
        name,
        creator_id,
        is_public: payload.is_public,
        question_counts: QuestionCounts { multiple_choices: 0, check_boxes: 0, text_fill: 0 },
    }
}

/// The result row of one question of a test: not graded yet (`None`), or
/// graded correct or wrong.
#[derive(Clone, Copy, Debug, PartialEq, Eq, Structural)]
pub struct TestQuestionResultRow {
    pub test_id: Id,
    pub quiz_question_id: Id,
    pub is_correct: Option<bool>,
}

/// The ungraded result rows a new test starts with, one per question, in order.
pub fn blank_result_rows(test_id: Id, quiz_question_ids: &Vec<Id>) -> (rows: Vec<TestQuestionResultRow>)
    ensures
        rows@.len() == quiz_question_ids@.len(),
        forall|k: int| 0 <= k < rows@.len() ==> #[trigger] rows@[k] == (TestQuestionResultRow {
            test_id,
            quiz_question_id: quiz_question_ids@[k],
            is_correct: None,
        }),
{
    let mut rows: Vec<TestQuestionResultRow> = Vec::new();
    let mut k: usize = 0;
    while k < quiz_question_ids.len()
        invariant
            k <= quiz_question_ids.len(),
            rows@.len() == k,
            forall|j: int| 0 <= j < k ==> #[trigger] rows@[j] == (TestQuestionResultRow {
                test_id,
                quiz_question_id: quiz_question_ids@[j],
                is_correct: None,
            }),
        decreases quiz_question_ids.len() - k,
    {
        rows.push(TestQuestionResultRow { test_id, quiz_question_id: quiz_question_ids[k], is_correct: None });
        k = k + 1;
    }
    rows
}

/// The graded result rows of a submitted test, one per graded question, in order.
pub fn graded_result_rows(test_id: Id, results: &Vec<(Id, bool)>) -> (rows: Vec<TestQuestionResultRow>)
    ensures
        rows@.len() == results@.len(),
        forall|k: int| 0 <= k < rows@.len() ==> #[trigger] rows@[k] == (TestQuestionResultRow {
            test_id,
            quiz_question_id: results@[k].0,
            is_correct: Some(results@[k].1),
        }),
{
    let mut rows: Vec<TestQuestionResultRow> = Vec::new();
    let mut k: usize = 0;
    while k < results.len()
        invariant
            k <= results.len(),
            rows@.len() == k,
            forall|j: int| 0 <= j < k ==> #[trigger] rows@[j] == (TestQuestionResultRow {
                test_id,
                quiz_question_id: results@[j].0,
                is_correct: Some(results@[j].1),
            }),
        decreases results.len() - k,
    {
        let (quiz_question_id, correct) = results[k];
        rows.push(TestQuestionResultRow { test_id, quiz_question_id, is_correct: Some(correct) });
        k = k + 1;
    }
    rows
}

/// What others may see of an account: everything but the password hash.
#[derive(Clone, Debug)]
pub struct UserModel {
    pub id: Id,
    pub name: String,
    pub email: String,
    pub role: Role,
    pub avatar_url: Option<String>,
}

/// The public profile of an account.
pub fn public_profile(user: &User) -> (m: UserModel)
    ensures
        m.id == user.id,
        m.name == user.name,
        m.email == user.email,
        m.role == user.role,
        m.avatar_url == user.avatar_url,
{
    UserModel {
        id: user.id,
        name: user.name.clone(),
        email: user.email.clone(),
        role: user.role,
        avatar_url: user.avatar_url.clone(),
    }
}

/// A request to add a flashcard to a set.
#[derive(Clone, Debug)]
pub struct CreateQnARequest {
    pub content: String,
    pub question_type: QuestionType,
    pub set_id: Id,
    pub answers: Vec<QnAAnswer>,
}

/// The flashcard row written for a request, with its answers kept on the card.
#[derive(Clone, Debug)]
pub struct NewQuestion {
    pub content: String,
    pub question_type: QuestionType,
    pub set_id: Id,
    pub creator_id: Id,
    pub answers: Vec<QnAAnswer>,
}

/// The flashcard row of `creator_id` for a request.
pub fn new_question_row(payload: CreateQnARequest, creator_id: Id) -> (row: NewQuestion)
    ensures
        row.content == payload.content,
        row.question_type == payload.question_type,
        row.set_id == payload.set_id,
        row.creator_id == creator_id,
        row.answers == payload.answers,
{
    NewQuestion {
        content: payload.content,
        question_type: payload.question_type,
        set_id: payload.set_id,
        creator_id,
        answers: payload.answers,
    }
}

/// A flashcard answer kept as a row of its own, tied to its question.
#[derive(Clone, Debug)]
pub struct NewAnswer {
    pub question_id: Id,
    pub content: String,
    pub is_correct: bool,
}

/// The answer rows of the flashcard created as `question_id`, in order.
pub fn flashcard_answer_rows(question_id: Id, answers: &Vec<QnAAnswer>) -> (rows: Vec<NewAnswer>)
    ensures
        rows@.len() == answers@.len(),
        forall|k: int| 0 <= k < answers@.len() ==> {
            &&& (#[trigger] rows@[k]).question_id == question_id
            &&& rows@[k].content == answers@[k].content
            &&& rows@[k].is_correct == answers@[k].is_correct
        },
{
    let mut rows: Vec<NewAnswer> = Vec::new();
    let mut k: usize = 0;
    while k < answers.len()
        invariant
            k <= answers.len(),
            rows@.len() == k,
            forall|j: int| 0 <= j < k ==> {
                &&& (#[trigger] rows@[j]).question_id == question_id
                &&& rows@[j].content == answers@[j].content
                &&& rows@[j].is_correct == answers@[j].is_correct
            },
        decreases answers.len() - k,
    {
        rows.push(NewAnswer { question_id, content: answers[k].content.clone(), is_correct: answers[k].is_correct });
        k = k + 1;
    }
    rows
}

} // verus!
