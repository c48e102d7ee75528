//! Applying partial updates to stored records. Each update sets the fields its
//! request carries and leaves the others; a request that carries nothing
//! writes nothing, which the result reports as `None`.
use vstd::prelude::*;
use chrono::NaiveDateTime;
use crate::enums::{Error, Id};
use crate::models::{Answer, Question, Quiz, StudySet, Test, UpdateAnswerRequest, UpdateQuestionRequest, UpdateQuizRequest, UpdateSetRequest, UpdateTest, UpdateUserRequest, User};

verus! {

pub open spec fn or_keep<T>(new: Option<T>, old: T) -> T {
    match new {
        Some(v) => v,
        None => old,
    }
}

// ---------------------------------------------------------------- quizzes

/// A quiz update: the name, the published flag (set by `is_public`, then by
/// `is_publish`, the later one winning), the question counts and the total
/// point. Any change stamps the quiz as published at `now`.
pub open spec fn quiz_update(quiz: Quiz, p: UpdateQuizRequest, now: NaiveDateTime) -> Option<Quiz> {
    if p.name is None && p.is_public is None && p.is_publish is None && p.question_counts is None
        && p.total_point is None {
        None
    } else {
        Some(Quiz {
            name: or_keep(p.name, quiz.name),
            is_published: or_keep(p.is_publish, or_keep(p.is_public, quiz.is_published)),
            publish_at: Some(now),
            question_counts: or_keep(p.question_counts, quiz.question_counts),
            total_point: or_keep(p.total_point, quiz.total_point),
            ..quiz
        })
    }
}

/// Applies a quiz update to the stored quiz.
pub fn apply_quiz_update(quiz: Quiz, payload: UpdateQuizRequest, now: NaiveDateTime) -> (updated: Option<Quiz>)
    ensures
        updated == quiz_update(quiz, payload, now),
{
    let mut q = quiz;
    let mut changed = false;
    match payload.name {
        Some(n) => {
            q.name = n;
            changed = true;
        },
        None => {},
    }
    match payload.is_public {
        Some(p) => {
            q.is_published = p;
            changed = true;
        },
        None => {},
    }
    match payload.is_publish {
        Some(p) => {
            q.is_published = p;
            q.publish_at = Some(now);
            changed = true;
        },
        None => {},
    }
    match payload.question_counts {
        Some(c) => {
            q.question_counts = c;
            changed = true;
        },
        None => {},
    }
    match payload.total_point {
        Some(t) => {
            q.total_point = t;
            changed = true;
        },
        None => {},
    }
    if changed {
        q.publish_at = Some(now);
        Some(q)
    } else {
        None
    }
}

/// The progress update of a quiz: the published flag (from
/// `is_public`, then `is_publish`), and the last question, which also becomes
/// the start question of a quiz that has none.
pub open spec fn quiz_progress_update(quiz: Quiz, p: UpdateQuizRequest) -> Option<Quiz> {
    if p.is_public is None && p.is_publish is None && p.last_question_id is None {
        None
    } else {
        Some(Quiz {
            is_published: or_keep(p.is_publish, or_keep(p.is_public, quiz.is_published)),
            last_question: match p.last_question_id {
                Some(l) => Some(l),
                None => quiz.last_question,
            },
            start_question: match p.last_question_id {
                Some(l) => if quiz.start_question is None { Some(l) } else { quiz.start_question },
                None => quiz.start_question,
            },
            ..quiz
        })
    }
}

/// Applies a progress update to a quiz.
pub fn apply_quiz_progress_update(quiz: Quiz, payload: &UpdateQuizRequest) -> (updated: Option<Quiz>)
    ensures
        updated == quiz_progress_update(quiz, *payload),
{
    let mut q = quiz;
    let mut changed = false;
    if let Some(p) = payload.is_public {
        q.is_published = p;
        changed = true;
    }
    if let Some(p) = payload.is_publish {
        q.is_published = p;
        changed = true;
    }
    if let Some(l) = payload.last_question_id {
        q.last_question = Some(l);
        if q.start_question.is_none() {
            q.start_question = Some(l);
        }
        changed = true;
    }
    if changed {
        Some(q)
    } else {
        None
    }
}

// ---------------------------------------------------------------- tests

/// A test update: start and submission times, current question, remaining
/// time, number of resolved questions, status and score.
pub open spec fn test_update(test: Test, p: UpdateTest) -> Option<Test> {
    if p.started_at is None && p.submitted_at is None && p.current_testing_quiz_question is None
        && p.remaining_time is None && p.resolved_count is None && p.status is None && p.score is None {
        None
    } else {
        Some(Test {
            started_at: match p.started_at {
                Some(t) => Some(t),
                None => test.started_at,
            },
            submitted_at: match p.submitted_at {
                Some(t) => Some(t),
                None => test.submitted_at,
            },
            current_quiz_question_id: or_keep(p.current_testing_quiz_question, test.current_quiz_question_id),
            remaining_time: or_keep(p.remaining_time, test.remaining_time),
            completed_questions: or_keep(p.resolved_count, test.completed_questions),
            status: or_keep(p.status, test.status),
            score: or_keep(p.score, test.score),
            ..test
        })
    }
}

/// Applies a test update to the stored test.
pub fn apply_test_update(test: Test, payload: &UpdateTest) -> (updated: Option<Test>)
    ensures
        updated == test_update(test, *payload),
{
    let mut t = test;
    let mut changed = false;
    if let Some(v) = payload.started_at {
        t.started_at = Some(v);
        changed = true;
    }
    if let Some(v) = payload.submitted_at {
        t.submitted_at = Some(v);
        changed = true;
    }
    if let Some(v) = payload.current_testing_quiz_question {
        t.current_quiz_question_id = v;
        changed = true;
    }
    if let Some(v) = payload.remaining_time {
        t.remaining_time = v;
        changed = true;
    }
    if let Some(v) = payload.resolved_count {
        t.completed_questions = v;
        changed = true;
    }
    if let Some(v) = payload.status {
        t.status = v;
        changed = true;
    }
    if let Some(v) = payload.score {
        t.score = v;
        changed = true;
    }
    if changed {
        Some(t)
    } else {
        None
    }
}

// ---------------------------------------------------------------- sets

/// A set update: name, description and visibility; any change records the
/// time and the user who made it.
pub open spec fn set_update(set: StudySet, p: UpdateSetRequest, caller_id: Id, now: NaiveDateTime) -> Option<StudySet> {
    if p.name is None && p.description is None && p.public_or_not is None {
        None
    } else {
        Some(StudySet {
            name: or_keep(p.name, set.name),
            description: match p.description {
                Some(d) => Some(d),
                None => set.description,
            },
            public_or_not: or_keep(p.public_or_not, set.public_or_not),
            updated_at: now,
            latest_updater_id: Some(caller_id),
            ..set
        })
    }
}

/// Applies a set update made by `caller_id` at `now`.
pub fn apply_set_update(set: StudySet, payload: UpdateSetRequest, caller_id: Id, now: NaiveDateTime) -> (updated: Option<StudySet>)
    ensures
        updated == set_update(set, payload, caller_id, now),
{
    let mut s = set;
    let mut changed = false;
    match payload.name {
        Some(n) => {
            s.name = n;
            changed = true;
        },
        None => {},
    }
    match payload.description {
        Some(d) => {
            s.description = Some(d);
            changed = true;
        },
        None => {},
    }
    match payload.public_or_not {
        Some(p) => {
            s.public_or_not = p;
            changed = true;
        },
        None => {},
    }
    if changed {
        s.updated_at = now;
        s.latest_updater_id = Some(caller_id);
        Some(s)
    } else {
        None
    }
}

// ---------------------------------------------------------------- accounts

/// An account update. A new email is refused when some live account already
/// uses it (`accounts_with_email` counts them); otherwise name, email,
/// password hash, role and avatar are set as given and the time recorded.
pub open spec fn user_update(user: User, p: UpdateUserRequest, accounts_with_email: u64, now: NaiveDateTime) -> Result<Option<User>, Error> {
    if p.email is Some && accounts_with_email > 0 {
        Err(Error::UserAlreadyExists)
    } else if p.name is None && p.email is None && p.password is None && p.role is None && p.avatar_url is None {
        Ok(None)
    } else {
        Ok(Some(User {
            name: or_keep(p.name, user.name),
            email: or_keep(p.email, user.email),
            password: or_keep(p.password, user.password),
            role: or_keep(p.role, user.role),
            avatar_url: match p.avatar_url {
                Some(a) => Some(a),
                None => user.avatar_url,
            },
            updated_at: now,
            ..user
        }))
    }
}

/// Applies an account update; `accounts_with_email` is the number of live
/// accounts that hold the requested email (read only when one is requested).
pub fn apply_user_update(user: User, payload: UpdateUserRequest, accounts_with_email: u64, now: NaiveDateTime) -> (updated: Result<Option<User>, Error>)
    ensures
        updated == user_update(user, payload, accounts_with_email, now),
{
    let mut u = user;
    let mut changed = false;
    match payload.email {
        Some(e) => {
            if accounts_with_email > 0 {
                return Err(Error::UserAlreadyExists);
            }
            u.email = e;
            changed = true;
        },
        None => {},
    }
    match payload.name {
        Some(n) => {
            u.name = n;
            changed = true;
        },
        None => {},
    }
    match payload.password {
        Some(p) => {
            u.password = p;
            changed = true;
        },
        None => {},
    }
    match payload.role {
        Some(r) => {
            u.role = r;
            changed = true;
        },
        None => {},
    }
    match payload.avatar_url {
        Some(a) => {
            u.avatar_url = Some(a);
            changed = true;
        },
        None => {},
    }
    if changed {
        u.updated_at = now;
        Ok(Some(u))
    } else {
        Ok(None)
    }
}

// ---------------------------------------------------------------- flashcards

/// A flashcard update: content and answers, stamped with the time.
pub open spec fn question_update(q: Question, p: UpdateQuestionRequest, now: NaiveDateTime) -> Option<Question> {
    if p.content is None && p.answers is None {
        None
    } else {
        Some(Question {
            content: or_keep(p.content, q.content),
            answers: or_keep(p.answers, q.answers),
            updated_at: now,
            ..q
        })
    }
}

/// Applies a flashcard update.
pub fn apply_question_update(question: Question, payload: UpdateQuestionRequest, now: NaiveDateTime) -> (updated: Option<Question>)
    ensures
        updated == question_update(question, payload, now),
{
    let mut q = question;
    let mut changed = false;
    match payload.content {
        Some(c) => {
            q.content = c;
            changed = true;
        },
        None => {},
    }
    match payload.answers {
        Some(a) => {
            q.answers = a;
            changed = true;
        },
        None => {},
    }
    if changed {
        q.updated_at = now;
        Some(q)
    } else {
        None
    }
}

/// An update of a stored answer: content and correctness, stamped with the time.
pub open spec fn answer_update(a: Answer, p: UpdateAnswerRequest, now: NaiveDateTime) -> Option<Answer> {
    if p.content is None && p.is_correct is None {
        None
    } else {
        Some(Answer {
            content: or_keep(p.content, a.content),
            is_correct: or_keep(p.is_correct, a.is_correct),
            updated_at: now,
            ..a
        })
    }
}

/// Applies an update of a stored answer.
pub fn apply_answer_update(answer: Answer, payload: UpdateAnswerRequest, now: NaiveDateTime) -> (updated: Option<Answer>)
    ensures
        updated == answer_update(answer, payload, now),
{
    let mut a = answer;
    let mut changed = false;
    match payload.content {
        Some(c) => {
            a.content = c;
            changed = true;
        },
        None => {},
    }
    match payload.is_correct {
        Some(c) => {
            a.is_correct = c;
            changed = true;
        },
        None => {},
    }
    if changed {
        a.updated_at = now;
        Some(a)
    } else {
        None
    }
}

// ---------------------------------------------------------------- laws

/// Applying the same quiz update twice, at the same time, gives what applying
/// it once gave.
pub proof fn law_quiz_update_idempotent(quiz: Quiz, p: UpdateQuizRequest, now: NaiveDateTime)
    requires
        quiz_update(quiz, p, now) is Some,
    ensures
        quiz_update(quiz_update(quiz, p, now).unwrap(), p, now) == quiz_update(quiz, p, now),
{
}

/// Applying the same test update twice gives what applying it once gave.
pub proof fn law_test_update_idempotent(test: Test, p: UpdateTest)
    requires
        test_update(test, p) is Some,
    ensures
        test_update(test_update(test, p).unwrap(), p) == test_update(test, p),
{
}

/// Applying the same set update twice, by the same user at the same time,
/// gives what applying it once gave.
pub proof fn law_set_update_idempotent(set: StudySet, p: UpdateSetRequest, caller_id: Id, now: NaiveDateTime)
    requires
        set_update(set, p, caller_id, now) is Some,
    ensures
        set_update(set_update(set, p, caller_id, now).unwrap(), p, caller_id, now) == set_update(set, p, caller_id, now),
{
}

/// An account update that keeps the email succeeds whatever accounts hold
/// other emails, and applying it twice gives what applying it once gave.
pub proof fn law_user_update_idempotent(user: User, p: UpdateUserRequest, count: u64, now: NaiveDateTime)
    requires
        p.email is None,
        user_update(user, p, count, now) matches Ok(Some(_)),
    ensures
        user_update(user_update(user, p, count, now)->Ok_0.unwrap(), p, count, now) == user_update(user, p, count, now),
{
}

/// An update only changes the fields its request names: a quiz update never
/// touches the owner, the deleted flag or the question range.
pub proof fn law_quiz_update_keeps_ownership(quiz: Quiz, p: UpdateQuizRequest, now: NaiveDateTime)
    requires
        quiz_update(quiz, p, now) is Some,
    ensures
        quiz_update(quiz, p, now).unwrap().id == quiz.id,
        quiz_update(quiz, p, now).unwrap().creator_id == quiz.creator_id,
        quiz_update(quiz, p, now).unwrap().is_deleted == quiz.is_deleted,
        quiz_update(quiz, p, now).unwrap().is_public == quiz.is_public,
{
}

/// A quiz update writes nothing when its request names none of name, public
/// flag, publish flag, question counts and total point. Otherwise it gives the
/// quiz the name, counts and total point named; the published flag becomes the
/// publish flag when one is named, else the public flag when one is named;
/// the quiz is stamped as published now; everything else is kept.
pub proof fn law_quiz_update_sets_named_fields(quiz: Quiz, p: UpdateQuizRequest, now: NaiveDateTime)
    ensures
        quiz_update(quiz, p, now) is None <==> (p.name is None && p.is_public is None && p.is_publish is None
            && p.question_counts is None && p.total_point is None),
        quiz_update(quiz, p, now) matches Some(r) ==> {
            &&& (p.name matches Some(n) ==> r.name == n)
            &&& (p.name is None ==> r.name == quiz.name)
            &&& (p.is_publish matches Some(b) ==> r.is_published == b)
            &&& (p.is_publish is None ==> (p.is_public matches Some(b) ==> r.is_published == b))
            &&& (p.is_publish is None && p.is_public is None ==> r.is_published == quiz.is_published)
            &&& (p.question_counts matches Some(c) ==> r.question_counts == c)
            &&& (p.question_counts is None ==> r.question_counts == quiz.question_counts)
            &&& (p.total_point matches Some(t) ==> r.total_point == t)
            &&& (p.total_point is None ==> r.total_point == quiz.total_point)
            &&& r.publish_at == Some(now)
            &&& r.id == quiz.id && r.creator_id == quiz.creator_id && r.is_public == quiz.is_public
            &&& r.is_deleted == quiz.is_deleted && r.duration == quiz.duration
            &&& r.start_question == quiz.start_question && r.last_question == quiz.last_question
        },
{
}

/// A progress update writes nothing when its request names none of the public
/// flag, the publish flag and the last question. Otherwise the published flag
/// follows the publish flag, else the public flag; a named last question
/// becomes the last question, and the start question when the quiz had none;
/// everything else is kept.
pub proof fn law_quiz_progress_update_sets_named_fields(quiz: Quiz, p: UpdateQuizRequest)
    ensures
        quiz_progress_update(quiz, p) is None <==> (p.is_public is None && p.is_publish is None && p.last_question_id is None),
        quiz_progress_update(quiz, p) matches Some(r) ==> {
            &&& (p.is_publish matches Some(b) ==> r.is_published == b)
            &&& (p.is_publish is None ==> (p.is_public matches Some(b) ==> r.is_published == b))
            &&& (p.is_publish is None && p.is_public is None ==> r.is_published == quiz.is_published)
            &&& (p.last_question_id matches Some(l) ==> r.last_question == Some(l))
            &&& (quiz.start_question is None ==> (p.last_question_id matches Some(l) ==> r.start_question == Some(l)))
            &&& (p.last_question_id is None || quiz.start_question is Some ==> r.start_question == quiz.start_question)
            &&& (p.last_question_id is None ==> r.last_question == quiz.last_question)
            &&& r.id == quiz.id && r.name == quiz.name && r.creator_id == quiz.creator_id
            &&& r.is_public == quiz.is_public && r.is_deleted == quiz.is_deleted && r.publish_at == quiz.publish_at
            &&& r.question_counts == quiz.question_counts && r.total_point == quiz.total_point
            &&& r.duration == quiz.duration
        },
{
}

/// A test update writes nothing when its request names nothing; otherwise each
/// field it names is set and every other field kept.
pub proof fn law_test_update_sets_named_fields(test: Test, p: UpdateTest)
    ensures
        test_update(test, p) is None <==> (p.started_at is None && p.submitted_at is None
            && p.current_testing_quiz_question is None && p.remaining_time is None && p.resolved_count is None
            && p.status is None && p.score is None),
        test_update(test, p) matches Some(r) ==> {
            &&& (p.started_at matches Some(t) ==> r.started_at == Some(t))
            &&& (p.started_at is None ==> r.started_at == test.started_at)
            &&& (p.submitted_at matches Some(t) ==> r.submitted_at == Some(t))
            &&& (p.submitted_at is None ==> r.submitted_at == test.submitted_at)
            &&& (p.current_testing_quiz_question matches Some(c) ==> r.current_quiz_question_id == c)
            &&& (p.current_testing_quiz_question is None ==> r.current_quiz_question_id == test.current_quiz_question_id)
            &&& (p.remaining_time matches Some(t) ==> r.remaining_time == t)
            &&& (p.remaining_time is None ==> r.remaining_time == test.remaining_time)
            &&& (p.resolved_count matches Some(c) ==> r.completed_questions == c)
            &&& (p.resolved_count is None ==> r.completed_questions == test.completed_questions)
            &&& (p.status matches Some(st) ==> r.status == st)
            &&& (p.status is None ==> r.status == test.status)
            &&& (p.score matches Some(sc) ==> r.score == sc)
            &&& (p.score is None ==> r.score == test.score)
            &&& r.id == test.id && r.quiz_id == test.quiz_id && r.user_id == test.user_id
            &&& r.duration == test.duration && r.total_question == test.total_question
        },
{
}

/// A set update writes nothing when its request names none of name,
/// description and visibility. Otherwise it gives the set the name,
/// description and visibility named, keeps the others, and records the time
/// and the user who made the change; owner, id and deleted flag are kept.
pub proof fn law_set_update_sets_named_fields(set: StudySet, p: UpdateSetRequest, caller_id: Id, now: NaiveDateTime)
    ensures
        set_update(set, p, caller_id, now) is None <==> (p.name is None && p.description is None && p.public_or_not is None),
        set_update(set, p, caller_id, now) matches Some(r) ==> {
            &&& (p.name matches Some(n) ==> r.name == n)
            &&& (p.name is None ==> r.name == set.name)
            &&& (p.description matches Some(d) ==> r.description == Some(d))
            &&& (p.description is None ==> r.description == set.description)
            &&& (p.public_or_not matches Some(b) ==> r.public_or_not == b)
            &&& (p.public_or_not is None ==> r.public_or_not == set.public_or_not)
            &&& r.updated_at == now
            &&& r.latest_updater_id == Some(caller_id)
            &&& r.id == set.id && r.owner_id == set.owner_id && r.is_deleted == set.is_deleted
        },
{
}

/// An account update naming a new email is refused when a live account already
/// holds one; otherwise it writes nothing when it names nothing, and else sets
/// each field named, keeps the others and records the time.
pub proof fn law_user_update_sets_named_fields(user: User, p: UpdateUserRequest, accounts_with_email: u64, now: NaiveDateTime)
    ensures
        user_update(user, p, accounts_with_email, now) is Err <==> (p.email is Some && accounts_with_email > 0),
        user_update(user, p, accounts_with_email, now) is Err ==>
            user_update(user, p, accounts_with_email, now) == Err::<Option<User>, Error>(Error::UserAlreadyExists),
        user_update(user, p, accounts_with_email, now) == Ok::<Option<User>, Error>(None) <==> (
            p.name is None && p.email is None && p.password is None && p.role is None && p.avatar_url is None),
        user_update(user, p, accounts_with_email, now) matches Ok(Some(r)) ==> {
            &&& (p.name matches Some(n) ==> r.name == n)
            &&& (p.name is None ==> r.name == user.name)
            &&& (p.email matches Some(e) ==> r.email == e)
            &&& (p.email is None ==> r.email == user.email)
            &&& (p.password matches Some(h) ==> r.password == h)
            &&& (p.password is None ==> r.password == user.password)
            &&& (p.role matches Some(ro) ==> r.role == ro)
            &&& (p.role is None ==> r.role == user.role)
            &&& (p.avatar_url matches Some(a) ==> r.avatar_url == Some(a))
            &&& (p.avatar_url is None ==> r.avatar_url == user.avatar_url)
            &&& r.updated_at == now
            &&& r.id == user.id && r.is_deleted == user.is_deleted
        },
{
}

/// A flashcard update writes nothing when it names neither content nor
/// answers; otherwise it sets those named, keeps the rest and records the time.
pub proof fn law_question_update_sets_named_fields(q: Question, p: UpdateQuestionRequest, now: NaiveDateTime)
    ensures
        question_update(q, p, now) is None <==> (p.content is None && p.answers is None),
        question_update(q, p, now) matches Some(r) ==> {
            &&& (p.content matches Some(c) ==> r.content == c)
            &&& (p.content is None ==> r.content == q.content)
            &&& (p.answers matches Some(a) ==> r.answers == a)
            &&& (p.answers is None ==> r.answers == q.answers)
            &&& r.updated_at == now
            &&& r.id == q.id && r.set_id == q.set_id && r.creator_id == q.creator_id
            &&& r.question_type == q.question_type && r.is_deleted == q.is_deleted
        },
{
}

/// An answer update writes nothing when it names neither content nor
/// correctness; otherwise it sets those named, keeps the rest and records the
/// time.
pub proof fn law_answer_update_sets_named_fields(a: Answer, p: UpdateAnswerRequest, now: NaiveDateTime)
    ensures
        answer_update(a, p, now) is None <==> (p.content is None && p.is_correct is None),
        answer_update(a, p, now) matches Some(r) ==> {
            &&& (p.content matches Some(c) ==> r.content == c)
            &&& (p.content is None ==> r.content == a.content)
            &&& (p.is_correct matches Some(b) ==> r.is_correct == b)
            &&& (p.is_correct is None ==> r.is_correct == a.is_correct)
            &&& r.updated_at == now
            &&& r.id == a.id && r.question_id == a.question_id && r.is_deleted == a.is_deleted
        },
{
}

} // verus!
