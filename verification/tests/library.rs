use flashcard_quiz::queries::{group_sets, page_info, PageInfo, PageRequest, ReachableSet};
use flashcard_quiz::grading::{check_gradable, plan_submission};
use flashcard_quiz::blacklist::{blacklist_file_text, load_blacklist};
use flashcard_quiz::jwt::{decode_jwt, encode_jwt, is_token_expired};
use flashcard_quiz::db::{Database, QuizRepository, QuizServiceImpl};
use flashcard_quiz::queries::{
    question_created_by, quiz_created_by, quiz_shared_with, role_lookup_matches, set_owned_by,
};
use flashcard_quiz::quiz_questions::{
    apply_quiz_question_update, question_rows, UpdateQuizQuestionAnswer, UpdateQuizQuestionRequest,
};
use flashcard_quiz::rows::{flashcard_answer_rows, new_question_row, CreateQnARequest};
use flashcard_quiz::sharing::QuizShareRow;
use flashcard_quiz::testing::has_status;
use std::sync::Arc;
use chrono::NaiveDateTime;
use flashcard_quiz::access::{
    authorize_creator, authorize_qna_create, authorize_qna_update, authorize_quiz_question_change,
    authorize_quiz_question_read, authorize_quiz_share, authorize_quiz_update, authorize_role_change,
    authorize_set_read, authorize_set_share, authorize_set_update, authorize_sets_read,
    has_share_permission,
};
use flashcard_quiz::accounts::{
    authenticate, change_password, decide_login, decide_old_password, prepare_registration,
    LoginGrant, RegisterUserRequest,
};
use flashcard_quiz::enums::{Error, Permission, QuestionType, Role, SortOrder, TestStatus};
use flashcard_quiz::grading::{grade_question, grade_submission};
use flashcard_quiz::helpers::{check_test_status, total_question_count, Claims, QuestionCounts};
use flashcard_quiz::models::{
    Answer, QnAAnswer, Question, Quiz, QuizQuestion, QuizQuestionAnswer, QuizQuestionResponse,
    StudySet, Test, TestAnswer, UpdateAnswerRequest, UpdateQuestionRequest, UpdateQuizRequest,
    UpdateSetRequest, UpdateTest, UpdateUserRequest, User,
};
use flashcard_quiz::queries::{
    plan_question_list, plan_quiz_list, plan_test_list, quiz_readable_by, quiz_visibility,
    resolve_page, set_in_group, set_readable_by, FilterQuizParams, QueryQuestionParams,
    QueryTestParams, QuestionSortColumn, QuizSortColumn, SetGroup, TestSortColumn, Visibility,
};
use flashcard_quiz::quiz_questions::{
    all_answers_listed, answer_rows, check_new_quiz_questions, tally_quiz_questions,
    totals_update, CreateQuizQuestionRequest,
};
use flashcard_quiz::rows::{
    blank_result_rows, graded_result_rows, new_quiz_row, public_profile, CreateQuizRequest,
};
use flashcard_quiz::sharing::{plan_quiz_share, plan_set_share, users_to_unshare, ShareSetForUser};
use flashcard_quiz::testing::{
    ensure_test_open, ensure_test_over, plan_new_test, present_testing_question, resolve_update,
    start_update, submit_update, summarize_answers,
};
use flashcard_quiz::text::{same_text, text_contains};
use flashcard_quiz::updates::{
    apply_answer_update, apply_question_update, apply_quiz_progress_update, apply_quiz_update,
    apply_set_update, apply_test_update, apply_user_update,
};
use flashcard_quiz::validator::{validate_answer, CreateQuizQuestionAnswer};

fn at(secs: i64) -> NaiveDateTime {
    chrono::DateTime::from_timestamp(secs, 0).unwrap().naive_utc()
}

fn opt(content: &str, ok: bool) -> CreateQuizQuestionAnswer {
    CreateQuizQuestionAnswer { content: content.to_string(), is_answer: ok }
}

fn quiz(creator: u128, published: bool) -> Quiz {
    Quiz {
        id: 7,
        name: "Capitals".to_string(),
        creator_id: creator,
        is_public: false,
        is_published: published,
        is_deleted: false,
        publish_at: None,
        question_counts: QuestionCounts { multiple_choices: 0, check_boxes: 0, text_fill: 0 },
        total_point: 0,
        duration: 600,
        start_question: None,
        last_question: None,
    }
}

fn question(id: u128, t: QuestionType, point: i32, answers: Vec<(u128, bool)>) -> QuizQuestionResponse {
    QuizQuestionResponse {
        question: QuizQuestion {
            id,
            quiz_id: 7,
            sample_id: None,
            question_content: format!("q{id}"),
            question_type: t,
            index: 0,
            point,
            explanation: None,
        },
        answers: answers
            .into_iter()
            .map(|(aid, ok)| QuizQuestionAnswer {
                id: aid,
                quiz_question_id: id,
                content: format!("a{aid}"),
                is_answer: ok,
            })
            .collect(),
    }
}

fn chose(ids: &[u128]) -> Vec<TestAnswer> {
    ids.iter()
        .map(|&i| TestAnswer {
            test_id: 1,
            quiz_question_id: 2,
            selected_answer_id: Some(i),
            text_answer: None,
            spent_time: 3,
        })
        .collect()
}

fn wrote(text: &str) -> TestAnswer {
    TestAnswer {
        test_id: 1,
        quiz_question_id: 2,
        selected_answer_id: None,
        text_answer: Some(text.to_string()),
        spent_time: 9,
    }
}

fn user(password_hash: &str) -> User {
    User {
        id: 42,
        name: "Ann".to_string(),
        email: "ann@example.com".to_string(),
        password: password_hash.to_string(),
        role: Role::User,
        avatar_url: None,
        is_deleted: false,
        updated_at: at(0),
    }
}

fn test_row(status: TestStatus) -> Test {
    Test {
        id: 5,
        quiz_id: 7,
        user_id: 42,
        status,
        started_at: None,
        submitted_at: None,
        current_quiz_question_id: 100,
        duration: 600,
        remaining_time: 600,
        completed_questions: 2,
        total_question: 3,
        score: 0,
    }
}

fn study_set(owner: u128, public: bool) -> StudySet {
    StudySet {
        id: 3,
        name: "Verbs".to_string(),
        description: None,
        owner_id: owner,
        public_or_not: public,
        is_deleted: false,
        latest_updater_id: None,
        updated_at: at(0),
    }
}

// ------------------------------------------------------------ validation

#[test]
fn validate_multiple_choice_needs_exactly_one_correct() {
    assert!(validate_answer(&QuestionType::MultipleChoice, &[opt("a", true), opt("b", false)]));
    assert!(!validate_answer(&QuestionType::MultipleChoice, &[opt("a", true), opt("b", true)]));
    assert!(!validate_answer(&QuestionType::MultipleChoice, &[opt("a", false)]));
    assert!(!validate_answer(&QuestionType::MultipleChoice, &[]));
}

#[test]
fn validate_checkboxes_needs_a_correct_one() {
    assert!(validate_answer(&QuestionType::CheckBoxes, &[opt("a", true), opt("b", true)]));
    assert!(validate_answer(&QuestionType::CheckBoxes, &[opt("a", false), opt("b", true)]));
    assert!(!validate_answer(&QuestionType::CheckBoxes, &[opt("a", false)]));
    assert!(!validate_answer(&QuestionType::CheckBoxes, &[]));
}

#[test]
fn validation_ignores_order_and_text() {
    for t in [QuestionType::CheckBoxes, QuestionType::MultipleChoice, QuestionType::TextFill] {
        let a = vec![opt("a", true), opt("b", false)];
        let reordered = vec![opt("b", false), opt("a", true)];
        let renamed = vec![opt("x", true), opt("y", false)];
        assert_eq!(validate_answer(&t, &a), validate_answer(&t, &reordered));
        assert_eq!(validate_answer(&t, &a), validate_answer(&t, &renamed));
    }
}

#[test]
fn validate_text_fill_needs_one_correct_answer() {
    assert!(validate_answer(&QuestionType::TextFill, &[opt("Paris", true)]));
    assert!(!validate_answer(&QuestionType::TextFill, &[opt("Paris", false)]));
    assert!(!validate_answer(&QuestionType::TextFill, &[opt("Paris", true), opt("Lyon", true)]));
}

#[test]
fn valid_answers_always_hold_a_correct_one() {
    for t in [QuestionType::CheckBoxes, QuestionType::MultipleChoice, QuestionType::TextFill] {
        let lists = vec![
            vec![opt("a", true)],
            vec![opt("a", false), opt("b", true)],
            vec![opt("a", false)],
            vec![],
        ];
        for l in lists {
            if validate_answer(&t, &l) {
                assert!(l.iter().any(|a| a.is_answer));
            }
        }
    }
}

// ------------------------------------------------------------ helpers

#[test]
fn total_question_count_doubles_check_boxes() {
    let counts = QuestionCounts { multiple_choices: 5, check_boxes: 2, text_fill: 3 };
    assert_eq!(total_question_count(counts), 7);
}

#[test]
fn test_status_labels() {
    assert_eq!(check_test_status(None, None), "Not Started");
    assert_eq!(check_test_status(Some(at(10)), None), "In Progess");
    assert_eq!(check_test_status(Some(at(10)), Some(at(20))), "Completed");
    assert_eq!(check_test_status(None, Some(at(20))), "Completed");
}

#[test]
fn display_strings_of_enums() {
    assert_eq!(Permission::View.to_display_string(), "View");
    assert_eq!(Permission::Comment.to_display_string(), "Comment");
    assert_eq!(Permission::Edit.to_display_string(), "Edit");
    assert_eq!(QuestionType::MultipleChoice.to_display_string(), "MultipleChoice");
    assert_eq!(QuestionType::CheckBoxes.to_display_string(), "CheckBoxes");
    assert_eq!(QuestionType::TextFill.to_display_string(), "TextFill");
    assert_eq!(Role::Staff.to_display_string(), "Staff");
    assert_eq!(Role::User.to_display_string(), "User");
}

#[test]
fn claims_expire_after_one_day() {
    let c = Claims::for_user(42, "User".to_string(), 1_700_000_000);
    assert_eq!(c.id, 42);
    assert_eq!(c.role, "User");
    assert_eq!(c.exp, 1_700_086_400);
}

#[test]
fn permission_order() {
    assert!(Permission::Edit.includes(Permission::View));
    assert!(Permission::Comment.includes(Permission::Comment));
    assert!(!Permission::View.includes(Permission::Edit));
    assert_eq!(Permission::View.rank(), 0);
    assert_eq!(Permission::Edit.rank(), 2);
}

// ------------------------------------------------------------ grading

#[test]
fn grading_compares_sets_of_options() {
    let q = question(1, QuestionType::MultipleChoice, 2, vec![(10, true), (11, false), (12, true)]);
    assert_eq!(grade_question(&q, &chose(&[12, 10])), Some(true));
    assert_eq!(grade_question(&q, &chose(&[10, 12, 10])), Some(true));
    assert_eq!(grade_question(&q, &chose(&[10])), Some(false));
    assert_eq!(grade_question(&q, &chose(&[10, 11, 12])), Some(false));
    assert_eq!(grade_question(&q, &chose(&[])), Some(false));
}

#[test]
fn grading_text_fill_needs_one_answer() {
    let q = question(2, QuestionType::TextFill, 3, vec![(20, true)]);
    assert_eq!(grade_question(&q, &vec![wrote("Paris")]), Some(true));
    assert_eq!(grade_question(&q, &vec![]), None);
    assert_eq!(grade_question(&q, &vec![wrote("a"), wrote("b")]), None);
}

#[test]
fn grading_a_submission() {
    let questions = vec![
        question(1, QuestionType::CheckBoxes, 2, vec![(10, true), (11, false)]),
        question(2, QuestionType::TextFill, 3, vec![(20, true)]),
        question(3, QuestionType::MultipleChoice, 5, vec![(30, true), (31, true)]),
        question(4, QuestionType::TextFill, 7, vec![(40, true)]),
    ];
    let given = vec![chose(&[10]), vec![wrote("x")], chose(&[30]), vec![]];
    let grade = grade_submission(&questions, &given);
    assert_eq!(grade.results, vec![(1, true), (2, true), (3, false)]);
    assert_eq!(grade.total_score, 5);
}

#[test]
fn exact_answers_earn_full_marks() {
    let questions = vec![
        question(1, QuestionType::CheckBoxes, 2, vec![(10, true), (11, false)]),
        question(2, QuestionType::TextFill, 3, vec![(20, true)]),
        question(3, QuestionType::MultipleChoice, 5, vec![(30, true), (31, true)]),
    ];
    let given = vec![chose(&[10]), vec![wrote("x")], chose(&[31, 30])];
    let grade = grade_submission(&questions, &given);
    assert_eq!(grade.results, vec![(1, true), (2, true), (3, true)]);
    assert_eq!(grade.total_score, 10);
}

#[test]
fn empty_submission_scores_zero() {
    let grade = grade_submission(&vec![], &vec![]);
    assert!(grade.results.is_empty());
    assert_eq!(grade.total_score, 0);
}

// ------------------------------------------------------------ sharing

#[test]
fn unshare_drops_only_missing_users() {
    assert_eq!(users_to_unshare(&vec![1, 2, 3, 4], &vec![2, 4, 9]), vec![1, 3]);
    assert_eq!(users_to_unshare(&vec![1, 2], &vec![1, 2]), Vec::<u128>::new());
    assert_eq!(users_to_unshare(&vec![], &vec![5]), Vec::<u128>::new());
    assert_eq!(users_to_unshare(&vec![5, 6], &vec![]), vec![5, 6]);
}

#[test]
fn quiz_share_plan_replaces_audience() {
    let plan = plan_quiz_share(7, &vec![1, 2, 3], &vec![3, 4]);
    assert_eq!(plan.unshare, vec![1, 2]);
    assert_eq!(plan.rows.len(), 2);
    assert_eq!(plan.rows[0].quiz_id, 7);
    assert_eq!(plan.rows[0].user_id, 3);
    assert_eq!(plan.rows[1].user_id, 4);
    let mut after: Vec<u128> = vec![1u128, 2, 3].into_iter().filter(|u| !plan.unshare.contains(u)).collect();
    for r in &plan.rows {
        if !after.contains(&r.user_id) {
            after.push(r.user_id);
        }
    }
    after.sort();
    assert_eq!(after, vec![3, 4]);
}

#[test]
fn set_share_plan_keeps_permissions() {
    let users = vec![
        ShareSetForUser { user_id: 8, permission: Some(Permission::Edit) },
        ShareSetForUser { user_id: 9, permission: None },
    ];
    let plan = plan_set_share(3, &vec![8, 10], &users);
    assert_eq!(plan.unshare, vec![10]);
    assert_eq!(plan.rows.len(), 2);
    assert_eq!(plan.rows[0].set_id, 3);
    assert_eq!(plan.rows[0].permission, Some(Permission::Edit));
    assert_eq!(plan.rows[1].user_id, 9);
    assert_eq!(plan.rows[1].permission, None);
}

// ------------------------------------------------------------ access

#[test]
fn quiz_update_rules() {
    assert_eq!(authorize_quiz_update(1, &quiz(1, false)), Ok(()));
    assert_eq!(authorize_quiz_update(2, &quiz(1, false)), Err(Error::PermissionDenied));
    assert_eq!(authorize_quiz_update(1, &quiz(1, true)), Err(Error::Published));
    assert_eq!(authorize_quiz_update(2, &quiz(1, true)), Err(Error::PermissionDenied));
}

#[test]
fn quiz_share_and_question_rules() {
    assert_eq!(authorize_quiz_share(1, &quiz(1, true)), Ok(()));
    assert_eq!(authorize_quiz_share(2, &quiz(1, false)), Err(Error::AccessDenied));
    assert_eq!(authorize_quiz_question_change(1, &quiz(1, false)), Ok(()));
    assert_eq!(authorize_quiz_question_change(1, &quiz(1, true)), Err(Error::PermissionDenied));
    assert_eq!(authorize_quiz_question_change(2, &quiz(1, false)), Err(Error::PermissionDenied));
    assert_eq!(authorize_quiz_question_read(true, true), Ok(()));
    assert_eq!(authorize_quiz_question_read(true, false), Ok(()));
    assert_eq!(authorize_quiz_question_read(false, true), Ok(()));
    assert_eq!(authorize_quiz_question_read(false, false), Err(Error::PermissionDenied));
}

#[test]
fn creator_and_role_rules() {
    assert_eq!(authorize_creator(true), Ok(()));
    assert_eq!(authorize_creator(false), Err(Error::PermissionDenied));
    assert_eq!(authorize_role_change(true), Ok(()));
    assert_eq!(authorize_role_change(false), Err(Error::PermissionDenied));
}

#[test]
fn set_rules() {
    assert_eq!(authorize_set_update(true, true), Ok(()));
    assert_eq!(authorize_set_update(true, false), Ok(()));
    assert_eq!(authorize_set_update(false, true), Ok(()));
    assert_eq!(authorize_set_update(false, false), Err(Error::PermissionDenied));
    assert_eq!(authorize_set_share(true), Ok(()));
    assert_eq!(authorize_set_share(false), Err(Error::PermissionDenied));
    assert!(has_share_permission(&vec![Permission::View, Permission::Edit], Permission::Comment));
    assert!(!has_share_permission(&vec![Permission::View], Permission::Comment));
    assert!(!has_share_permission(&vec![], Permission::View));
}

#[test]
fn flashcard_rules() {
    assert_eq!(authorize_qna_create(true, false), Ok(()));
    assert_eq!(authorize_qna_create(false, true), Ok(()));
    assert_eq!(authorize_qna_create(false, false), Err(Error::PermissionDenied));
    assert_eq!(authorize_qna_update(true, false, false), Ok(()));
    assert_eq!(authorize_qna_update(false, false, true), Ok(()));
    assert_eq!(authorize_qna_update(false, false, false), Err(Error::PermissionDenied));
    assert_eq!(authorize_set_read(true), Ok(()));
    assert_eq!(authorize_set_read(false), Err(Error::AccessDenied));
    assert_eq!(authorize_sets_read(&vec![true, true]), Ok(()));
    assert_eq!(authorize_sets_read(&vec![true, false]), Err(Error::AccessDenied));
    assert_eq!(authorize_sets_read(&vec![]), Ok(()));
}

#[test]
fn qna_creators_may_edit() {
    for set_creator in [false, true] {
        for editor in [false, true] {
            if authorize_qna_create(set_creator, editor).is_ok() {
                assert!(authorize_qna_update(false, set_creator, editor).is_ok());
            }
        }
    }
}

// ------------------------------------------------------------ quiz questions

fn new_question(t: QuestionType, point: i32, answers: Vec<CreateQuizQuestionAnswer>) -> CreateQuizQuestionRequest {
    CreateQuizQuestionRequest {
        sample_id: None,
        question_content: "q".to_string(),
        question_type: t,
        index: 0,
        point,
        explaination: None,
        answers,
    }
}

#[test]
fn new_questions_are_checked_before_writing() {
    let good = vec![
        new_question(QuestionType::TextFill, 1, vec![opt("x", true)]),
        new_question(QuestionType::CheckBoxes, 1, vec![opt("a", true), opt("b", false)]),
    ];
    assert_eq!(check_new_quiz_questions(1, &quiz(1, false), &good), Ok(()));
    let mut bad = good.clone();
    bad.push(new_question(QuestionType::MultipleChoice, 1, vec![opt("a", false)]));
    assert_eq!(check_new_quiz_questions(1, &quiz(1, false), &bad), Err(Error::InvalidAnswer));
    assert_eq!(check_new_quiz_questions(2, &quiz(1, false), &good), Err(Error::PermissionDenied));
    assert_eq!(check_new_quiz_questions(1, &quiz(1, true), &good), Err(Error::PermissionDenied));
}

#[test]
fn tally_counts_and_points() {
    let questions = vec![
        question(1, QuestionType::CheckBoxes, 2, vec![]),
        question(2, QuestionType::TextFill, 3, vec![]),
        question(3, QuestionType::CheckBoxes, 5, vec![]),
        question(4, QuestionType::MultipleChoice, 1, vec![]),
    ];
    let (counts, total) = tally_quiz_questions(&questions);
    assert_eq!(counts, QuestionCounts { multiple_choices: 1, check_boxes: 2, text_fill: 1 });
    assert_eq!(counts.multiple_choices + counts.check_boxes + counts.text_fill, 4);
    assert_eq!(total, 11);
    let p = totals_update(counts, total);
    assert_eq!(p.question_counts, Some(counts));
    assert_eq!(p.total_point, Some(11));
    assert!(p.name.is_none() && p.is_public.is_none() && p.is_publish.is_none());
}

#[test]
fn answer_rows_follow_the_request() {
    let rows = answer_rows(77, &vec![opt("a", true), opt("b", false)]);
    assert_eq!(rows.len(), 2);
    assert_eq!(rows[0].quiz_question_id, 77);
    assert_eq!(rows[0].content, "a");
    assert!(rows[0].is_answer);
    assert!(!rows[1].is_answer);
}

#[test]
fn answers_listed_check() {
    assert!(all_answers_listed(&vec![1, 2], &vec![2, 1, 3]));
    assert!(!all_answers_listed(&vec![1, 4], &vec![2, 1, 3]));
    assert!(all_answers_listed(&vec![], &vec![]));
}

// ------------------------------------------------------------ tests (attempts)

#[test]
fn test_open_or_over() {
    assert_eq!(ensure_test_open(TestStatus::NotStarted), Ok(()));
    assert_eq!(ensure_test_open(TestStatus::InProgess), Ok(()));
    assert_eq!(ensure_test_open(TestStatus::Submitted), Err(Error::TestEnded));
    assert_eq!(ensure_test_open(TestStatus::Abandoned), Err(Error::TestEnded));
    assert_eq!(ensure_test_over(TestStatus::Submitted), Ok(()));
    assert_eq!(ensure_test_over(TestStatus::Abandoned), Ok(()));
    assert_eq!(ensure_test_over(TestStatus::InProgess), Err(Error::TestNotEnd));
    for s in [TestStatus::NotStarted, TestStatus::InProgess, TestStatus::Submitted, TestStatus::Abandoned] {
        assert!(ensure_test_open(s).is_ok() != ensure_test_over(s).is_ok());
    }
}

#[test]
fn new_test_starts_on_first_question() {
    let counts = QuestionCounts { multiple_choices: 1, check_boxes: 2, text_fill: 3 };
    let t = plan_new_test(&quiz(1, true), 42, &vec![100, 101], counts);
    assert_eq!(t.quiz_id, 7);
    assert_eq!(t.user_id, 42);
    assert_eq!(t.current_quiz_question_id, 100);
    assert_eq!(t.duration, 600);
    assert_eq!(t.remaining_time, 600);
    assert_eq!(t.total_question, 7);
}

#[test]
fn test_step_updates() {
    let s = start_update(at(5));
    assert_eq!(s.started_at, Some(at(5)));
    assert_eq!(s.status, Some(TestStatus::InProgess));
    assert!(s.submitted_at.is_none() && s.score.is_none());
    let r = resolve_update(&test_row(TestStatus::InProgess), 101, 300);
    assert_eq!(r.current_testing_quiz_question, Some(101));
    assert_eq!(r.resolved_count, Some(3));
    assert_eq!(r.remaining_time, Some(300));
    let f = submit_update(at(9), 12);
    assert_eq!(f.status, Some(TestStatus::Submitted));
    assert_eq!(f.score, Some(12));
    assert_eq!(f.submitted_at, Some(at(9)));
}

#[test]
fn testing_question_hides_choice_options() {
    let q = question(1, QuestionType::CheckBoxes, 2, vec![(10, true), (11, false)]);
    let t = present_testing_question(q, chose(&[10]));
    assert!(t.answers.is_empty());
    assert_eq!(t.user_answers.len(), 1);
    let q = question(2, QuestionType::TextFill, 2, vec![(20, true)]);
    let t = present_testing_question(q, vec![]);
    assert_eq!(t.answers.len(), 1);
    assert_eq!(t.question_type, QuestionType::TextFill);
}

#[test]
fn summary_of_answers() {
    let mut given = chose(&[10, 11]);
    given.push(wrote("first"));
    given.push(wrote("second"));
    let s = summarize_answers(given);
    assert_eq!(s.selected_answer_ids, vec![10, 11]);
    assert_eq!(s.text_answer, Some("second".to_string()));
    assert_eq!(s.spent_time, 9);
    let s = summarize_answers(vec![]);
    assert!(s.selected_answer_ids.is_empty());
    assert_eq!(s.text_answer, None);
    assert_eq!(s.spent_time, 0);
}

// ------------------------------------------------------------ updates

#[test]
fn quiz_update_sets_given_fields() {
    let p = UpdateQuizRequest {
        name: Some("Rivers".to_string()),
        is_public: None,
        is_publish: Some(true),
        question_counts: None,
        total_point: Some(20),
        last_question_id: None,
    };
    let q = apply_quiz_update(quiz(1, false), p.clone(), at(50)).unwrap();
    assert_eq!(q.name, "Rivers");
    assert!(q.is_published);
    assert_eq!(q.total_point, 20);
    assert_eq!(q.publish_at, Some(at(50)));
    assert_eq!(q.creator_id, 1);
    let again = apply_quiz_update(q, p, at(50)).unwrap();
    assert_eq!(again.name, "Rivers");
    assert_eq!(again.total_point, 20);
    let empty = UpdateQuizRequest {
        name: None,
        is_public: None,
        is_publish: None,
        question_counts: None,
        total_point: None,
        last_question_id: None,
    };
    assert!(apply_quiz_update(quiz(1, false), empty, at(50)).is_none());
}

#[test]
fn quiz_is_public_sets_published_flag() {
    let p = UpdateQuizRequest {
        name: None,
        is_public: Some(true),
        is_publish: None,
        question_counts: None,
        total_point: None,
        last_question_id: None,
    };
    let q = apply_quiz_update(quiz(1, false), p, at(1)).unwrap();
    assert!(q.is_published);
    assert!(!q.is_public);
}

#[test]
fn quiz_progress_update_sets_start_once() {
    let p = UpdateQuizRequest {
        name: None,
        is_public: None,
        is_publish: None,
        question_counts: None,
        total_point: None,
        last_question_id: Some(300),
    };
    let q = apply_quiz_progress_update(quiz(1, false), &p).unwrap();
    assert_eq!(q.start_question, Some(300));
    assert_eq!(q.last_question, Some(300));
    let p2 = UpdateQuizRequest { last_question_id: Some(301), ..p };
    let q2 = apply_quiz_progress_update(q, &p2).unwrap();
    assert_eq!(q2.start_question, Some(300));
    assert_eq!(q2.last_question, Some(301));
}

#[test]
fn test_update_stores_score() {
    let p = UpdateTest {
        started_at: None,
        submitted_at: Some(at(9)),
        current_testing_quiz_question: None,
        remaining_time: None,
        resolved_count: None,
        status: Some(TestStatus::Submitted),
        score: Some(99),
    };
    let t = apply_test_update(test_row(TestStatus::InProgess), &p).unwrap();
    assert_eq!(t.status, TestStatus::Submitted);
    assert_eq!(t.submitted_at, Some(at(9)));
    assert_eq!(t.score, 99);
    let only_score = UpdateTest {
        started_at: None,
        submitted_at: None,
        current_testing_quiz_question: None,
        remaining_time: None,
        resolved_count: None,
        status: None,
        score: Some(99),
    };
    assert_eq!(apply_test_update(test_row(TestStatus::InProgess), &only_score).unwrap().score, 99);
}

#[test]
fn set_update_records_updater() {
    let p = UpdateSetRequest { name: None, description: Some("d".to_string()), public_or_not: Some(true) };
    let s = apply_set_update(study_set(1, false), p, 9, at(77)).unwrap();
    assert_eq!(s.description, Some("d".to_string()));
    assert!(s.public_or_not);
    assert_eq!(s.latest_updater_id, Some(9));
    assert_eq!(s.updated_at, at(77));
    assert_eq!(s.name, "Verbs");
    let none = UpdateSetRequest { name: None, description: None, public_or_not: None };
    assert!(apply_set_update(study_set(1, false), none, 9, at(77)).is_none());
}

#[test]
fn user_update_refuses_taken_email() {
    let p = UpdateUserRequest {
        name: Some("Bo".to_string()),
        email: Some("bo@example.com".to_string()),
        password: None,
        role: None,
        avatar_url: None,
    };
    assert!(matches!(
        apply_user_update(user("h"), p.clone(), 1, at(3)),
        Err(Error::UserAlreadyExists)
    ));
    let u = apply_user_update(user("h"), p, 0, at(3)).unwrap().unwrap();
    assert_eq!(u.name, "Bo");
    assert_eq!(u.email, "bo@example.com");
    assert_eq!(u.updated_at, at(3));
    let role_only = UpdateUserRequest { name: None, email: None, password: None, role: Some(Role::Staff), avatar_url: None };
    let u = apply_user_update(user("h"), role_only, 5, at(3)).unwrap().unwrap();
    assert_eq!(u.role, Role::Staff);
    let nothing = UpdateUserRequest { name: None, email: None, password: None, role: None, avatar_url: None };
    assert!(apply_user_update(user("h"), nothing, 0, at(3)).unwrap().is_none());
}

#[test]
fn question_and_answer_updates() {
    let q = Question {
        id: 1,
        set_id: 3,
        creator_id: 4,
        content: "Capital of France?".to_string(),
        question_type: QuestionType::TextFill,
        answers: vec![QnAAnswer { content: "Paris".to_string(), is_correct: true }],
        is_deleted: false,
        updated_at: at(0),
    };
    let p = UpdateQuestionRequest { content: Some("Capital of Italy?".to_string()), answers: None };
    let q = apply_question_update(q, p, at(4)).unwrap();
    assert_eq!(q.content, "Capital of Italy?");
    assert_eq!(q.answers.len(), 1);
    assert_eq!(q.updated_at, at(4));
    let a = Answer {
        id: 2,
        question_id: 1,
        content: "Paris".to_string(),
        is_correct: true,
        is_deleted: false,
        updated_at: at(0),
    };
    let a = apply_answer_update(a, UpdateAnswerRequest { content: None, is_correct: Some(false) }, at(6)).unwrap();
    assert!(!a.is_correct);
    assert_eq!(a.content, "Paris");
    let a2 = Answer { id: 2, question_id: 1, content: "x".to_string(), is_correct: true, is_deleted: false, updated_at: at(0) };
    assert!(apply_answer_update(a2, UpdateAnswerRequest { content: None, is_correct: None }, at(6)).is_none());
}

// ------------------------------------------------------------ queries

#[test]
fn pages_default_to_first() {
    let p = resolve_page(None, None, 10);
    assert_eq!((p.page, p.page_size, p.page_index), (1, 10, 0));
    let p = resolve_page(Some(3), Some(25), 10);
    assert_eq!((p.page, p.page_size, p.page_index), (3, 25, 2));
}

fn quiz_params(vis: Option<Vec<&str>>, creator: Option<u128>, sort_by: Option<&str>, dir: Option<&str>) -> FilterQuizParams {
    FilterQuizParams {
        visibility: vis.map(|v| v.into_iter().map(|s| s.to_string()).collect()),
        creator_id: creator,
        page: None,
        page_size: None,
        sort_by: sort_by.map(|s| s.to_string()),
        sort_direction: dir.map(|s| s.to_string()),
    }
}

#[test]
fn quiz_listing_plan() {
    let plan = plan_quiz_list(&quiz_params(Some(vec!["shared", "publish", "bogus"]), None, Some("name"), Some("asc")));
    assert_eq!(plan.visibility, vec![Visibility::Publish, Visibility::Shared]);
    assert_eq!(plan.sort_column, QuizSortColumn::Name);
    assert_eq!(plan.order, SortOrder::Asc);
    assert_eq!(plan.page.page_size, 10);
    let plan = plan_quiz_list(&quiz_params(None, Some(1), Some("published_at"), Some("desc")));
    assert!(plan.visibility.is_empty());
    assert_eq!(plan.sort_column, QuizSortColumn::PublishAt);
    assert_eq!(plan.order, SortOrder::Asc);
    let plan = plan_quiz_list(&quiz_params(None, None, None, None));
    assert_eq!(plan.sort_column, QuizSortColumn::CreatedAt);
    assert_eq!(plan.order, SortOrder::Desc);
}

#[test]
fn quiz_listing_admits_rows() {
    let plan = plan_quiz_list(&quiz_params(Some(vec!["owned", "shared"]), None, None, None));
    assert!(plan.admits(1, &quiz(1, false), &vec![99]));
    assert!(plan.admits(2, &quiz(1, false), &vec![2]));
    assert!(!plan.admits(2, &quiz(1, true), &vec![99]));
    let mut deleted = quiz(1, false);
    deleted.is_deleted = true;
    assert!(!plan.admits(1, &deleted, &vec![1]));
    let by_creator = plan_quiz_list(&quiz_params(None, Some(1), None, None));
    assert!(by_creator.admits(5, &quiz(1, false), &vec![99]));
    assert!(!by_creator.admits(5, &quiz(2, false), &vec![]));
    let nothing = plan_quiz_list(&quiz_params(None, None, None, None));
    assert!(!nothing.admits(1, &quiz(1, true), &vec![1]));
}

#[test]
fn quiz_visibility_tags() {
    let mut q = quiz(1, true);
    q.is_public = true;
    assert_eq!(
        quiz_visibility(&q, 1, &vec![7]),
        vec![Visibility::Publish, Visibility::Public, Visibility::Owned, Visibility::Shared]
    );
    assert!(quiz_visibility(&quiz(1, false), 2, &vec![8]).is_empty());
    assert_eq!(Visibility::Shared.label(), "shared");
    assert_eq!(Visibility::Publish.label(), "publish");
}

#[test]
fn quiz_readable_rules() {
    assert!(quiz_readable_by(&quiz(1, false), 1, &vec![]));
    assert!(quiz_readable_by(&quiz(1, false), 2, &vec![5, 2]));
    assert!(!quiz_readable_by(&quiz(1, false), 2, &vec![3]));
    let mut q = quiz(1, false);
    q.is_public = true;
    assert!(quiz_readable_by(&q, 2, &vec![]));
}

fn card(content: &str, answers: Vec<&str>, t: QuestionType) -> Question {
    Question {
        id: 1,
        set_id: 3,
        creator_id: 4,
        content: content.to_string(),
        question_type: t,
        answers: answers.into_iter().map(|a| QnAAnswer { content: a.to_string(), is_correct: true }).collect(),
        is_deleted: false,
        updated_at: at(0),
    }
}

#[test]
fn flashcard_listing_defaults() {
    let plan = plan_question_list(QueryQuestionParams {
        content: None,
        question_type: None,
        set_id: Some(3),
        user_id: None,
        page: None,
        page_size: None,
        sort_by: None,
        sort_direction: None,
    });
    assert_eq!(plan.page.page_size, 50);
    assert_eq!(plan.page.page, 1);
    assert_eq!(plan.sort_column, QuestionSortColumn::CreatedAt);
    assert_eq!(plan.order, SortOrder::Asc);
    let plan = plan_question_list(QueryQuestionParams {
        content: None,
        question_type: None,
        set_id: None,
        user_id: None,
        page: Some(2),
        page_size: Some(5),
        sort_by: Some("title".to_string()),
        sort_direction: Some("desc".to_string()),
    });
    assert_eq!(plan.sort_column, QuestionSortColumn::Content);
    assert_eq!(plan.order, SortOrder::Desc);
    assert_eq!(plan.page.page_index, 1);
}

#[test]
fn flashcard_listing_filters() {
    let plan = plan_question_list(QueryQuestionParams {
        content: Some("Paris".to_string()),
        question_type: Some(QuestionType::TextFill),
        set_id: Some(3),
        user_id: None,
        page: None,
        page_size: None,
        sort_by: Some("type".to_string()),
        sort_direction: None,
    });
    assert_eq!(plan.sort_column, QuestionSortColumn::Type);
    assert!(plan.admits(&card("Capital of France?", vec!["Paris"], QuestionType::TextFill)));
    assert!(plan.admits(&card("Is Paris big?", vec![], QuestionType::TextFill)));
    assert!(!plan.admits(&card("Capital of Italy?", vec!["Rome"], QuestionType::TextFill)));
    assert!(!plan.admits(&card("Paris?", vec![], QuestionType::CheckBoxes)));
}

#[test]
fn text_helpers() {
    assert!(text_contains("Capital of France", "of F"));
    assert!(text_contains("abc", ""));
    assert!(!text_contains("abc", "abcd"));
    assert!(!text_contains("abc", "ac"));
    assert!(same_text("asc", "asc"));
    assert!(!same_text("asc", "as"));
}

#[test]
fn test_listing_plan() {
    let plan = plan_test_list(42, &QueryTestParams { page: Some(2), sort_by: Some("score".to_string()), sort_order: Some("desc".to_string()) });
    assert_eq!(plan.sort_column, TestSortColumn::Score);
    assert_eq!(plan.order, SortOrder::Asc);
    assert_eq!(plan.page.page_size, 10);
    assert_eq!(plan.page.page_index, 1);
    assert!(plan.admits(&test_row(TestStatus::InProgess)));
    let plan = plan_test_list(1, &QueryTestParams { page: None, sort_by: None, sort_order: None });
    assert_eq!(plan.sort_column, TestSortColumn::CreatedAt);
    assert_eq!(plan.order, SortOrder::Desc);
    assert!(!plan.admits(&test_row(TestStatus::InProgess)));
}

#[test]
fn set_groups_and_reading() {
    assert!(set_in_group(SetGroup::Own, &study_set(1, false), &vec![], 1));
    assert!(!set_in_group(SetGroup::PublicOfOthers, &study_set(1, true), &vec![], 1));
    assert!(set_in_group(SetGroup::PublicOfOthers, &study_set(2, true), &vec![], 1));
    assert!(set_in_group(SetGroup::SharedWithMe, &study_set(2, false), &vec![4, 1], 1));
    assert!(!set_in_group(SetGroup::SharedWithMe, &study_set(2, true), &vec![1], 1));
    assert!(set_readable_by(&study_set(1, false), 1, &vec![]));
    assert!(set_readable_by(&study_set(2, false), 1, &vec![5, 1]));
    assert!(!set_readable_by(&study_set(2, false), 1, &vec![5]));
    assert!(set_readable_by(&study_set(2, true), 1, &vec![]));
}

// ------------------------------------------------------------ rows

#[test]
fn new_quiz_gets_default_name() {
    let row = new_quiz_row(CreateQuizRequest { name: None, is_public: true }, 4);
    assert_eq!(row.name, "Untitled Quiz");
    assert_eq!(row.creator_id, 4);
    assert!(row.is_public);
    assert_eq!(row.question_counts, QuestionCounts { multiple_choices: 0, check_boxes: 0, text_fill: 0 });
    let row = new_quiz_row(CreateQuizRequest { name: Some("Mine".to_string()), is_public: false }, 4);
    assert_eq!(row.name, "Mine");
}

#[test]
fn result_rows() {
    let blank = blank_result_rows(5, &vec![100, 101]);
    assert_eq!(blank.len(), 2);
    assert_eq!(blank[1].quiz_question_id, 101);
    assert_eq!(blank[0].is_correct, None);
    let graded = graded_result_rows(5, &vec![(100, true), (101, false)]);
    assert_eq!(graded[0].is_correct, Some(true));
    assert_eq!(graded[1].is_correct, Some(false));
    assert_eq!(graded[1].test_id, 5);
}

#[test]
fn profile_hides_password() {
    let m = public_profile(&user("secret-hash"));
    assert_eq!(m.id, 42);
    assert_eq!(m.email, "ann@example.com");
    assert_eq!(m.role, Role::User);
}

// ------------------------------------------------------------ accounts

const PASSWORD_HASH: &str = "$2a$04$UuTkLRZZ6QofpDOlMz32MuuxEHA43WOemOYHPz6.SjsVsyO1tDU96";

#[test]
fn login_with_right_and_wrong_password() {
    let u = Some(user(PASSWORD_HASH));
    assert_eq!(authenticate(&u, "password"), Ok(LoginGrant { user_id: 42, role: Role::User }));
    assert_eq!(authenticate(&u, "hunter2"), Err(Error::LoginFailed));
    assert_eq!(authenticate(&None, "password"), Err(Error::LoginFailed));
    assert_eq!(authenticate(&Some(user("not a hash")), "password"), Err(Error::VerifyPasswordFailed));
}

#[test]
fn login_decisions() {
    let u = Some(user("h"));
    assert_eq!(decide_login(&u, Some(true)), Ok(LoginGrant { user_id: 42, role: Role::User }));
    assert_eq!(decide_login(&u, Some(false)), Err(Error::LoginFailed));
    assert_eq!(decide_login(&u, None), Err(Error::VerifyPasswordFailed));
    assert_eq!(decide_login(&None, Some(true)), Err(Error::LoginFailed));
    assert_eq!(decide_old_password(false, Some(true)), Err(Error::RecordNotFound));
    assert_eq!(decide_old_password(true, Some(false)), Err(Error::VerifyPasswordFailed));
    assert_eq!(decide_old_password(true, None), Err(Error::VerifyPasswordFailed));
    assert_eq!(decide_old_password(true, Some(true)), Ok(()));
}

#[test]
fn registration_hashes_password_that_then_logs_in() {
    let req = RegisterUserRequest {
        email: "c@example.com".to_string(),
        password: "correct horse".to_string(),
        name: "C".to_string(),
        role: Role::User,
        avatar_url: None,
    };
    let prepared = prepare_registration(req).unwrap();
    assert_ne!(prepared.password, "correct horse");
    assert_eq!(prepared.email, "c@example.com");
    let stored = Some(user(&prepared.password));
    assert!(authenticate(&stored, "correct horse").is_ok());
    assert_eq!(authenticate(&stored, "wrong horse"), Err(Error::LoginFailed));
}

#[test]
fn password_change_checks_old_password() {
    let u = Some(user(PASSWORD_HASH));
    assert!(matches!(change_password(&u, "wrong", "new"), Err(Error::VerifyPasswordFailed)));
    assert!(matches!(change_password(&None, "password", "new"), Err(Error::RecordNotFound)));
    let p = change_password(&u, "password", "fresh").unwrap();
    assert!(p.name.is_none() && p.email.is_none() && p.role.is_none());
    let h = p.password.unwrap();
    assert!(authenticate(&Some(user(&h)), "fresh").is_ok());
}

// ------------------------------------------------------------ more rows and lookups

#[test]
fn question_rows_follow_requests() {
    let reqs = vec![
        new_question(QuestionType::TextFill, 4, vec![opt("x", true)]),
        new_question(QuestionType::CheckBoxes, 6, vec![opt("a", true)]),
    ];
    let rows = question_rows(7, &reqs);
    assert_eq!(rows.len(), 2);
    assert_eq!(rows[0].quiz_id, 7);
    assert_eq!(rows[0].point, 4);
    assert_eq!(rows[1].question_type, QuestionType::CheckBoxes);
}

#[test]
fn quiz_question_wording_update() {
    let q = question(1, QuestionType::TextFill, 2, vec![]).question;
    let updated = apply_quiz_question_update(
        q.clone(),
        UpdateQuizQuestionRequest { question_content: Some("new".to_string()), answers: None },
    )
    .unwrap();
    assert_eq!(updated.question_content, "new");
    let kept = apply_quiz_question_update(
        q.clone(),
        UpdateQuizQuestionRequest {
            question_content: None,
            answers: Some(vec![UpdateQuizQuestionAnswer { id: Some(5), content: "a".to_string(), is_answer: true }]),
        },
    )
    .unwrap();
    assert_eq!(kept.question_content, "q1");
    assert!(apply_quiz_question_update(q, UpdateQuizQuestionRequest { question_content: None, answers: None }).is_none());
}

#[test]
fn flashcard_rows() {
    let answers = vec![QnAAnswer { content: "Paris".to_string(), is_correct: true }];
    let row = new_question_row(
        CreateQnARequest {
            content: "Capital?".to_string(),
            question_type: QuestionType::TextFill,
            set_id: 3,
            answers: answers.clone(),
        },
        9,
    );
    assert_eq!(row.creator_id, 9);
    assert_eq!(row.set_id, 3);
    assert_eq!(row.answers.len(), 1);
    let rows = flashcard_answer_rows(11, &answers);
    assert_eq!(rows[0].question_id, 11);
    assert_eq!(rows[0].content, "Paris");
    assert!(rows[0].is_correct);
}

#[test]
fn ownership_lookups() {
    assert!(quiz_created_by(&quiz(1, false), 1));
    assert!(!quiz_created_by(&quiz(1, false), 2));
    assert!(set_owned_by(&study_set(1, false), 1));
    let mut gone = study_set(1, false);
    gone.is_deleted = true;
    assert!(!set_owned_by(&gone, 1));
    assert!(question_created_by(&card("x", vec![], QuestionType::TextFill), 4));
    let shares = vec![QuizShareRow { quiz_id: 7, user_id: 2 }];
    assert!(quiz_shared_with(&shares, 7, 2));
    assert!(!quiz_shared_with(&shares, 7, 3));
    let mut staff = user("h");
    staff.role = Role::Staff;
    assert!(!role_lookup_matches(&staff, Role::Staff));
    staff.is_deleted = true;
    assert!(role_lookup_matches(&staff, Role::Staff));
}

#[test]
fn test_status_lookup() {
    assert!(has_status(&test_row(TestStatus::Submitted), TestStatus::Submitted));
    assert!(!has_status(&test_row(TestStatus::Submitted), TestStatus::Abandoned));
}

#[test]
fn owned_quizzes_are_listed() {
    let plan = plan_quiz_list(&quiz_params(Some(vec!["owned"]), None, None, None));
    assert!(plan.admits(1, &quiz(1, true), &vec![]));
    assert!(!plan.admits(2, &quiz(1, true), &vec![]));
}

#[test]
fn database_handles_are_kept() {
    let db = Arc::new(Database::new(sea_orm::DatabaseConnection::default()));
    let repo = Arc::new(QuizRepository::new(Arc::clone(&db)));
    assert!(Arc::ptr_eq(repo.database(), &db));
    let service = QuizServiceImpl::new(Arc::clone(&repo));
    assert!(Arc::ptr_eq(service.quiz_repository(), &repo));
}

// ------------------------------------------------------------ submissions and blacklist

#[test]
fn submission_is_planned_whole() {
    let questions = vec![
        question(1, QuestionType::CheckBoxes, 2, vec![(10, true), (11, false)]),
        question(2, QuestionType::TextFill, 3, vec![(20, true)]),
    ];
    let given = vec![chose(&[10]), vec![wrote("x")]];
    assert!(check_gradable(&questions, &given));
    let plan = plan_submission(test_row(TestStatus::InProgess), &questions, &given, at(90)).unwrap();
    assert_eq!(plan.results.len(), 2);
    assert_eq!(plan.results[0].is_correct, Some(true));
    assert_eq!(plan.results[1].quiz_question_id, 2);
    assert_eq!(plan.test.score, 5);
    assert_eq!(plan.test.status, TestStatus::Submitted);
    assert_eq!(plan.test.submitted_at, Some(at(90)));

    let bad = vec![vec![wrote("no option")], vec![wrote("x")]];
    assert!(!check_gradable(&questions, &bad));
    assert!(matches!(
        plan_submission(test_row(TestStatus::InProgess), &questions, &bad, at(90)),
        Err(Error::InvalidAnswer)
    ));
    assert!(matches!(
        plan_submission(test_row(TestStatus::Submitted), &questions, &given, at(90)),
        Err(Error::TestEnded)
    ));
    assert!(!check_gradable(&questions, &vec![]));
}

#[test]
fn blacklist_file_round_trip() {
    let tokens = vec!["a.b.c".to_string(), "with \"quote\"".to_string()];
    let text = blacklist_file_text(&tokens);
    assert!(text.contains("a.b.c"));
    assert_eq!(load_blacklist(&text).unwrap(), tokens);
    assert_eq!(load_blacklist("[\"x\", \"y\"]").unwrap(), vec!["x".to_string(), "y".to_string()]);
    assert_eq!(load_blacklist("{not json"), Err(Error::InvalidTokenList));
    assert_eq!(load_blacklist("[1, 2]"), Err(Error::InvalidTokenList));
}

#[test]
fn login_token_reads_back_until_it_expires() {
    let now = 1_700_000_000i64;
    let token = encode_jwt(42, "Staff".to_string(), now, b"secret");
    assert_eq!(token.split('.').count(), 3);
    let claims = decode_jwt(token.clone(), b"secret", now).unwrap();
    assert_eq!(claims.id, 42);
    assert_eq!(claims.role, "Staff");
    assert_eq!(claims.exp as i64, now + 86400);
    assert!(decode_jwt(token.clone(), b"secret", now + 86400 + 60).is_ok());
    assert!(matches!(decode_jwt(token.clone(), b"secret", now + 86400 + 61), Err(Error::DecodeJwtFailed)));
    assert!(matches!(decode_jwt(token.clone(), b"another secret", now), Err(Error::DecodeJwtFailed)));
    assert!(matches!(decode_jwt("not a token".to_string(), b"secret", now), Err(Error::DecodeJwtFailed)));
}

#[test]
fn login_token_payload_keeps_claim_order() {
    let token = encode_jwt(1, "User".to_string(), 0, b"k");
    let payload = token.split('.').nth(1).unwrap().to_string();
    // {"id":"00000000-0000-0000-0000-000000000001","role":"User","exp":86400} in unpadded base64url
    assert_eq!(payload, "eyJpZCI6IjAwMDAwMDAwLTAwMDAtMDAwMC0wMDAwLTAwMDAwMDAwMDAwMSIsInJvbGUiOiJVc2VyIiwiZXhwIjo4NjQwMH0");
}

#[test]
fn token_expiry_counts_the_leeway() {
    assert!(!is_token_expired(1000, 1060));
    assert!(is_token_expired(1000, 1061));
    assert!(!is_token_expired(0, -5));
    assert!(!is_token_expired(0, 59));
}

#[test]
fn sets_are_grouped_with_share_permissions() {
    let mut deleted = study_set(7, false);
    deleted.is_deleted = true;
    let reachable = vec![
        // an own private set shared with its owner: in both groups
        ReachableSet { set: study_set(1, false), shares: vec![(1, Permission::Edit), (3, Permission::View)] },
        // someone else's private set shared with the caller twice
        ReachableSet { set: study_set(2, false), shares: vec![(1, Permission::View), (1, Permission::Comment)] },
        // someone else's public set, shared too: only public
        ReachableSet { set: study_set(2, true), shares: vec![(1, Permission::Edit)] },
        // the caller's public set
        ReachableSet { set: study_set(1, true), shares: vec![] },
        // a deleted private set shared with the caller: nowhere
        ReachableSet { set: deleted, shares: vec![(1, Permission::Edit)] },
    ];
    let g = group_sets(&reachable, 1);
    assert_eq!(g.own_sets, vec![0, 3]);
    assert_eq!(g.shared_sets, vec![(0, Permission::Edit), (1, Permission::View), (1, Permission::Comment)]);
    assert_eq!(g.public_sets, vec![2]);
    let empty = group_sets(&vec![], 1);
    assert!(empty.own_sets.is_empty() && empty.shared_sets.is_empty() && empty.public_sets.is_empty());
}

#[test]
fn page_totals_round_up() {
    let page = PageRequest { page: 2, page_size: 10, page_index: 1 };
    assert_eq!(page_info(Some(0), page), PageInfo { total_pages: 0, current_page: 2, page_size: 10 });
    assert_eq!(page_info(Some(10), page).total_pages, 1);
    assert_eq!(page_info(Some(11), page).total_pages, 2);
    assert_eq!(page_info(None, page).total_pages, 1);
    let single = PageRequest { page: 1, page_size: 1, page_index: 0 };
    assert_eq!(page_info(Some(u64::MAX), single).total_pages, u64::MAX);
    let big = PageRequest { page: 1, page_size: 2, page_index: 0 };
    assert_eq!(page_info(Some(u64::MAX), big).total_pages, u64::MAX / 2 + 1);
}
