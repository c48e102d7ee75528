//! Plain records of the stored entities and of the requests that change them.
use vstd::prelude::*;
use chrono::NaiveDateTime;
use crate::enums::{Id, QuestionType, Role, TestStatus};
use crate::helpers::QuestionCounts;

verus! {

/// A question of a quiz.
#[derive(Clone, Debug)]
pub struct QuizQuestion {
    pub id: Id,
    pub quiz_id: Id,
    pub sample_id: Option<Id>,
    pub question_content: String,
    pub question_type: QuestionType,
    pub index: i32,
    pub point: i32,
    pub explanation: Option<String>,
}

/// One answer option of a quiz question.
#[derive(Clone, Debug)]
pub struct QuizQuestionAnswer {
    pub id: Id,
    pub quiz_question_id: Id,
    pub content: String,
    pub is_answer: bool,
}

/// A quiz question together with its answer options.
#[derive(Clone, Debug)]
pub struct QuizQuestionResponse {
    pub question: QuizQuestion,
    pub answers: Vec<QuizQuestionAnswer>,
}

/// One answer a test taker gave to a quiz question: a chosen option, a text,
/// and the time spent.
#[derive(Clone, Debug)]
pub struct TestAnswer {
    pub test_id: Id,
    pub quiz_question_id: Id,
    pub selected_answer_id: Option<Id>,
    pub text_answer: Option<String>,
    pub spent_time: i32,
}

/// A quiz built from questions, owned by its creator.
#[derive(Debug)]
pub struct Quiz {
    pub id: Id,
    pub name: String,
    pub creator_id: Id,
    pub is_public: bool,
    pub is_published: bool,
    pub is_deleted: bool,
    pub publish_at: Option<NaiveDateTime>,
    pub question_counts: QuestionCounts,
    pub total_point: i32,
    pub duration: i32,
    pub start_question: Option<Id>,
    pub last_question: Option<Id>,
}

/// A change to a quiz; absent fields stay as they are.
#[derive(Clone, Debug)]
pub struct UpdateQuizRequest {
    pub name: Option<String>,
    pub is_public: Option<bool>,
    pub is_publish: Option<bool>,
    pub question_counts: Option<QuestionCounts>,
    pub total_point: Option<i32>,
    pub last_question_id: Option<Id>,
}

/// One attempt of a user at a quiz.
#[derive(Debug)]
pub struct Test {
    pub id: Id,
    pub quiz_id: Id,
    pub user_id: Id,
    pub status: TestStatus,
    pub started_at: Option<NaiveDateTime>,
    pub submitted_at: Option<NaiveDateTime>,
    pub current_quiz_question_id: Id,
    pub duration: i32,
    pub remaining_time: i32,
    pub completed_questions: i32,
    pub total_question: i32,
    pub score: i32,
}

/// A change to a test; absent fields stay as they are.
#[derive(Debug)]
pub struct UpdateTest {
    pub started_at: Option<NaiveDateTime>,
    pub submitted_at: Option<NaiveDateTime>,
    pub current_testing_quiz_question: Option<Id>,
    pub remaining_time: Option<i32>,
    pub resolved_count: Option<i32>,
    pub status: Option<TestStatus>,
    pub score: Option<i32>,
}

/// A set of flashcards, owned by a user.
#[derive(Debug)]
pub struct StudySet {
    pub id: Id,
    pub name: String,
    pub description: Option<String>,
    pub owner_id: Id,
    pub public_or_not: bool,
    pub is_deleted: bool,
    pub latest_updater_id: Option<Id>,
    pub updated_at: NaiveDateTime,
}

/// A change to a set; absent fields stay as they are.
#[derive(Clone, Debug)]
pub struct UpdateSetRequest {
    pub name: Option<String>,
    pub description: Option<String>,
    pub public_or_not: Option<bool>,
}

/// An account.
#[derive(Debug)]
pub struct User {
    pub id: Id,
    pub name: String,
    pub email: String,
    /// The bcrypt hash of the password.
    pub password: String,
    pub role: Role,
    pub avatar_url: Option<String>,
    pub is_deleted: bool,
    pub updated_at: NaiveDateTime,
}

/// A change to an account; absent fields stay as they are.
#[derive(Clone, Debug)]
pub struct UpdateUserRequest {
    pub name: Option<String>,
    pub email: Option<String>,
    pub password: Option<String>,
    pub role: Option<Role>,
    pub avatar_url: Option<String>,
}

/// One answer of a flashcard.
#[derive(Clone, Debug)]
pub struct QnAAnswer {
    pub content: String,
    pub is_correct: bool,
}

/// A flashcard (question with its answers) in a set.
#[derive(Debug)]
pub struct Question {
    pub id: Id,
    pub set_id: Id,
    pub creator_id: Id,
    pub content: String,
    pub question_type: QuestionType,
    pub answers: Vec<QnAAnswer>,
    pub is_deleted: bool,
    pub updated_at: NaiveDateTime,
}

/// A change to a flashcard; absent fields stay as they are.
#[derive(Clone, Debug)]
pub struct UpdateQuestionRequest {
    pub content: Option<String>,
    pub answers: Option<Vec<QnAAnswer>>,
}

/// A stored answer of a flashcard, kept as a row of its own.
#[derive(Debug)]
pub struct Answer {
    pub id: Id,
    pub question_id: Id,
    pub content: String,
    pub is_correct: bool,
    pub is_deleted: bool,
    pub updated_at: NaiveDateTime,
}

/// A change to a stored answer; absent fields stay as they are.
#[derive(Clone, Debug)]
pub struct UpdateAnswerRequest {
    pub content: Option<String>,
    pub is_correct: Option<bool>,
}

} // verus!
