//! Planning the listings: which rows a listing admits, in which order, and
//! which page of them it returns.
use vstd::prelude::*;
use crate::enums::{Id, Permission, QuestionType, SortOrder};
use crate::models::{QnAAnswer, Question, Quiz, StudySet, Test};
use crate::text::{occurs_in, same_text, text_contains};
use vstd::string::*;

verus! {

/// One page of a listing: the page number asked for (from 1), the page size,
/// and the index of the page to fetch (from 0).
#[derive(Clone, Copy, Debug, PartialEq, Eq, Structural)]
pub struct PageRequest {
    pub page: u64,
    pub page_size: u64,
    pub page_index: u64,
}

/// The page asked for, page 1 by default, with the page size asked for or the
/// listing's default.
pub fn resolve_page(page: Option<u64>, page_size: Option<u64>, default_size: u64) -> (p: PageRequest)
    requires
        page != Some(0u64),
    ensures
        p.page == (match page { Some(n) => n, None => 1 }),
        p.page_size == (match page_size { Some(n) => n, None => default_size }),
        p.page_index == p.page - 1,
{
    let number = match page {
        Some(n) => n,
        None => 1,
    };
    let size = match page_size {
        Some(n) => n,
        None => default_size,
    };
    PageRequest { page: number, page_size: size, page_index: number - 1 }
}

/// The page totals of a listing: how many pages it has, the page returned and
/// the page size.
#[derive(Clone, Copy, Debug, PartialEq, Eq, Structural)]
pub struct PageInfo {
    pub total_pages: u64,
    pub current_page: u64,
    pub page_size: u64,
}

/// The number of pages that `items` rows fill, `page_size` to a page.
pub open spec fn page_count(items: u64, page_size: u64) -> int {
    items / page_size + if items % page_size > 0 { 1int } else { 0int }
}

/// The page totals of a listing whose rows were counted as `num_items`; where
/// counting failed the listing reports a single page.
pub fn page_info(num_items: Option<u64>, page: PageRequest) -> (info: PageInfo)
    requires
        page.page_size > 0,
    ensures
        info.total_pages == (match num_items {
            Some(n) => page_count(n, page.page_size),
            None => 1,
        }),
        info.current_page == page.page,
        info.page_size == page.page_size,
{
    let size = page.page_size;
    let total: u64 = match num_items {
        Some(n) => {
            let whole: u64 = n / size;
            if n % size > 0 {
                assert(whole < u64::MAX) by (nonlinear_arith)
                    requires
                        n % size > 0,
                        size > 0,
                        whole == n / size,
                        n <= u64::MAX,
                {
                    assert(whole * size + n % size == n);
                    assert(size >= 2);
                    assert(whole * 2 <= whole * size);
                }
                whole + 1
            } else {
                whole
            }
        },
        None => 1,
    };
    PageInfo { total_pages: total, current_page: page.page, page_size: size }
}

pub open spec fn text_is(s: Option<String>, label: Seq<char>) -> bool {
    match s {
        Some(t) => t@ == label,
        None => false,
    }
}

fn option_text_is(s: &Option<String>, label: &str) -> (b: bool)
    ensures
        b == text_is(*s, label@),
{
    match s {
        Some(t) => same_text(t.as_str(), label),
        None => false,
    }
}

// ---------------------------------------------------------------- quizzes

/// The ways a quiz can be visible to a user.
#[derive(Clone, Copy, Debug, PartialEq, Eq, Structural)]
pub enum Visibility {
    Publish,
    Public,
    Owned,
    Shared,
}

pub open spec fn visibility_label(v: Visibility) -> Seq<char> {
    match v {
        Visibility::Publish => "publish"@,
        Visibility::Public => "public"@,
        Visibility::Owned => "owned"@,
        Visibility::Shared => "shared"@,
    }
}

impl Visibility {
    /// The name of the visibility in requests and responses.
    pub fn label(&self) -> (s: String)
        ensures
            s@ == visibility_label(*self),
    {
        match self {
            Visibility::Publish => "publish".to_owned(),
            Visibility::Public => "public".to_owned(),
            Visibility::Owned => "owned".to_owned(),
            Visibility::Shared => "shared".to_owned(),
        }
    }
}

/// The columns a quiz listing can be ordered by.
#[derive(Clone, Copy, Debug, PartialEq, Eq, Structural)]
pub enum QuizSortColumn {
    Name,
    TotalPoint,
    CreatedAt,
    UpdatedAt,
    PublishAt,
}

/// What a user asks of a quiz listing.
#[derive(Clone, Debug)]
pub struct FilterQuizParams {
    pub visibility: Option<Vec<String>>,
    pub creator_id: Option<Id>,
    pub page: Option<u64>,
    pub page_size: Option<u64>,
    pub sort_by: Option<String>,
    pub sort_direction: Option<String>,
}

/// How a quiz listing is run.
#[derive(Clone, Debug)]
pub struct QuizListPlan {
    /// A row is admitted when it has one of these visibilities ...
    pub visibility: Vec<Visibility>,
    /// ... or, when given, when this user created the quiz.
    pub creator_id: Option<Id>,
    pub sort_column: QuizSortColumn,
    pub order: SortOrder,
    pub page: PageRequest,
}

pub open spec fn label_requested(labels: Seq<String>, label: Seq<char>) -> bool {
    exists|i: int| 0 <= i < labels.len() && (#[trigger] labels[i])@ == label
}

pub open spec fn push_if(s: Seq<Visibility>, b: bool, v: Visibility) -> Seq<Visibility> {
    if b { s.push(v) } else { s }
}

/// The visibilities a listing asks for, in the fixed order publish, public,
/// owned, shared; none when the request names none.
pub open spec fn requested_visibility(labels: Option<Vec<String>>) -> Seq<Visibility> {
    match labels {
        None => seq![],
        Some(l) => push_if(
            push_if(
                push_if(
                    push_if(seq![], label_requested(l@, "publish"@), Visibility::Publish),
                    label_requested(l@, "public"@),
                    Visibility::Public,
                ),
                label_requested(l@, "owned"@),
                Visibility::Owned,
            ),
            label_requested(l@, "shared"@),
            Visibility::Shared,
        ),
    }
}

fn has_label(labels: &Vec<String>, label: &str) -> (b: bool)
    ensures
        b == label_requested(labels@, label@),
{
    let mut i: usize = 0;
    while i < labels.len()
        invariant
            i <= labels.len(),
            forall|j: int| 0 <= j < i ==> (#[trigger] labels@[j])@ != label@,
        decreases labels.len() - i,
    {
        if same_text(labels[i].as_str(), label) {
            return true;
        }
        i = i + 1;
    }
    false
}

pub open spec fn quiz_sort_column(sort_by: Option<String>) -> QuizSortColumn {
    if text_is(sort_by, "name"@) {
        QuizSortColumn::Name
    } else if text_is(sort_by, "total_point"@) {
        QuizSortColumn::TotalPoint
    } else if text_is(sort_by, "updated_at"@) {
        QuizSortColumn::UpdatedAt
    } else if text_is(sort_by, "published_at"@) {
        QuizSortColumn::PublishAt
    } else {
        QuizSortColumn::CreatedAt
    }
}

/// The order of quiz and test listings: "asc" and "desc" both give ascending
/// order; anything else, or nothing, descending.
pub open spec fn listing_order(direction: Option<String>) -> SortOrder {
    if text_is(direction, "asc"@) || text_is(direction, "desc"@) {
        SortOrder::Asc
    } else {
        SortOrder::Desc
    }
}

fn resolve_listing_order(direction: &Option<String>) -> (o: SortOrder)
    ensures
        o == listing_order(*direction),
{
    if option_text_is(direction, "asc") || option_text_is(direction, "desc") {
        SortOrder::Asc
    } else {
        SortOrder::Desc
    }
}

/// Plans a quiz listing: the visibilities asked for, the creator filter, the
/// order (by created time unless another known column is named) and the page
/// (page 1 and 10 rows by default).
pub fn plan_quiz_list(params: &FilterQuizParams) -> (plan: QuizListPlan)
    requires
        params.page != Some(0u64),
    ensures
        plan.visibility@ == requested_visibility(params.visibility),
        plan.creator_id == params.creator_id,
        plan.sort_column == quiz_sort_column(params.sort_by),
        plan.order == listing_order(params.sort_direction),
        plan.page.page == (match params.page { Some(n) => n, None => 1 }),
        plan.page.page_size == (match params.page_size { Some(n) => n, None => 10 }),
        plan.page.page_index == plan.page.page - 1,
{
    let mut visibility: Vec<Visibility> = Vec::new();
    match &params.visibility {
        Some(labels) => {
            if has_label(labels, "publish") {
                visibility.push(Visibility::Publish);
            }
            if has_label(labels, "public") {
                visibility.push(Visibility::Public);
            }
            if has_label(labels, "owned") {
                visibility.push(Visibility::Owned);
            }
            if has_label(labels, "shared") {
                visibility.push(Visibility::Shared);
            }
        },
        None => {},
    }
    let sort_column = if option_text_is(&params.sort_by, "name") {
        QuizSortColumn::Name
    } else if option_text_is(&params.sort_by, "total_point") {
        QuizSortColumn::TotalPoint
    } else if option_text_is(&params.sort_by, "updated_at") {
        QuizSortColumn::UpdatedAt
    } else if option_text_is(&params.sort_by, "published_at") {
        QuizSortColumn::PublishAt
    } else {
        QuizSortColumn::CreatedAt
    };
    let order = resolve_listing_order(&params.sort_direction);
    let page = resolve_page(params.page, params.page_size, 10);
    QuizListPlan { visibility, creator_id: params.creator_id, sort_column, order, page }
}

/// Whether a quiz has visibility `v` for `caller_id`, given the users it is
/// shared with.
pub open spec fn has_visibility(v: Visibility, quiz: Quiz, caller_id: Id, shared_with: Seq<Id>) -> bool {
    match v {
        Visibility::Publish => quiz.is_published,
        Visibility::Public => quiz.is_public,
        Visibility::Owned => quiz.creator_id == caller_id,
        Visibility::Shared => shared_with.contains(caller_id),
    }
}

/// Whether a listing admits a quiz, given the users it is shared with: the
/// quiz is not deleted, and it has one of the requested visibilities or, when a
/// creator is named, was created by that user.
pub open spec fn quiz_listed(plan: QuizListPlan, caller_id: Id, quiz: Quiz, shared_with: Seq<Id>) -> bool {
    let visible = exists|i: int| 0 <= i < plan.visibility@.len()
        && has_visibility(#[trigger] plan.visibility@[i], quiz, caller_id, shared_with);
    !quiz.is_deleted && match plan.creator_id {
        Some(c) => quiz.creator_id == c || visible,
        None => visible,
    }
}

fn ids_contain(ids: &Vec<Id>, x: Id) -> (b: bool)
    ensures
        b == ids@.contains(x),
{
    let mut i: usize = 0;
    while i < ids.len()
        invariant
            i <= ids.len(),
            forall|j: int| 0 <= j < i ==> ids@[j] != x,
        decreases ids.len() - i,
    {
        if ids[i] == x {
            assert(ids@[i as int] == x);
            return true;
        }
        i = i + 1;
    }
    false
}

fn check_visibility(v: Visibility, quiz: &Quiz, caller_id: Id, shared_with: &Vec<Id>) -> (b: bool)
    ensures
        b == has_visibility(v, *quiz, caller_id, shared_with@),
{
    match v {
        Visibility::Publish => quiz.is_published,
        Visibility::Public => quiz.is_public,
        Visibility::Owned => quiz.creator_id == caller_id,
        Visibility::Shared => ids_contain(shared_with, caller_id),
    }
}

impl QuizListPlan {
    /// Whether the listing admits a quiz shared with the users `shared_with`.
    pub fn admits(&self, caller_id: Id, quiz: &Quiz, shared_with: &Vec<Id>) -> (b: bool)
        ensures
            b == quiz_listed(*self, caller_id, *quiz, shared_with@),
    {
        if quiz.is_deleted {
            return false;
        }
        let mut visible = false;
        let mut i: usize = 0;
        while i < self.visibility.len()
            invariant
                i <= self.visibility@.len(),
                visible == exists|j: int| 0 <= j < i
                    && has_visibility(#[trigger] self.visibility@[j], *quiz, caller_id, shared_with@),
            decreases self.visibility.len() - i,
        {
            if check_visibility(self.visibility[i], quiz, caller_id, shared_with) {
                visible = true;
            }
            i = i + 1;
        }
        match self.creator_id {
            Some(c) => quiz.creator_id == c || visible,
            None => visible,
        }
    }
}

/// The visibilities a listed quiz is shown with, in the order publish, public,
/// owned, shared (shared when the quiz is among the caller's shared quizzes).
pub open spec fn visibility_tags(quiz: Quiz, caller_id: Id, shared_quiz_ids: Seq<Id>) -> Seq<Visibility> {
    push_if(
        push_if(
            push_if(push_if(seq![], quiz.is_published, Visibility::Publish), quiz.is_public, Visibility::Public),
            quiz.creator_id == caller_id,
            Visibility::Owned,
        ),
        shared_quiz_ids.contains(quiz.id),
        Visibility::Shared,
    )
}

/// Tags a listed quiz with the ways it is visible to the caller.
pub fn quiz_visibility(quiz: &Quiz, caller_id: Id, shared_quiz_ids: &Vec<Id>) -> (tags: Vec<Visibility>)
    ensures
        tags@ == visibility_tags(*quiz, caller_id, shared_quiz_ids@),
{
    let mut tags: Vec<Visibility> = Vec::new();
    if quiz.is_published {
        tags.push(Visibility::Publish);
    }
    if quiz.is_public {
        tags.push(Visibility::Public);
    }
    if quiz.creator_id == caller_id {
        tags.push(Visibility::Owned);
    }
    let mut shared = false;
    let mut i: usize = 0;
    while i < shared_quiz_ids.len()
        invariant
            i <= shared_quiz_ids.len(),
            shared == exists|j: int| 0 <= j < i && shared_quiz_ids@[j] == quiz.id,
        decreases shared_quiz_ids.len() - i,
    {
        if shared_quiz_ids[i] == quiz.id {
            shared = true;
        }
        i = i + 1;
    }
    if shared {
        tags.push(Visibility::Shared);
    }
    tags
}

/// Whether `caller_id` may read a quiz shared with the users `shared_with`:
/// it is not deleted, and the caller created it, it is shared with them, or it
/// is public.
pub open spec fn quiz_readable(quiz: Quiz, caller_id: Id, shared_with: Seq<Id>) -> bool {
    !quiz.is_deleted && (quiz.creator_id == caller_id || shared_with.contains(caller_id) || quiz.is_public)
}

pub fn quiz_readable_by(quiz: &Quiz, caller_id: Id, shared_with: &Vec<Id>) -> (b: bool)
    ensures
        b == quiz_readable(*quiz, caller_id, shared_with@),
{
    !quiz.is_deleted && (quiz.creator_id == caller_id || ids_contain(shared_with, caller_id) || quiz.is_public)
}

/// A quiz admitted by a listing without a creator filter is shown with at least
/// one of the visibilities asked for (the caller's shared quizzes being those
/// shared with them).
pub proof fn law_listed_quiz_shows_a_requested_visibility(
    plan: QuizListPlan,
    caller_id: Id,
    quiz: Quiz,
    shared_with: Seq<Id>,
    shared_quiz_ids: Seq<Id>,
)
    requires
        plan.creator_id is None,
        quiz_listed(plan, caller_id, quiz, shared_with),
        shared_with.contains(caller_id) ==> shared_quiz_ids.contains(quiz.id),
    ensures
        exists|i: int| 0 <= i < plan.visibility@.len()
            && visibility_tags(quiz, caller_id, shared_quiz_ids).contains(#[trigger] plan.visibility@[i]),
{
    let i = choose|i: int| 0 <= i < plan.visibility@.len()
        && has_visibility(#[trigger] plan.visibility@[i], quiz, caller_id, shared_with);
    let v = plan.visibility@[i];
    let t0 = push_if(seq![], quiz.is_published, Visibility::Publish);
    let t1 = push_if(t0, quiz.is_public, Visibility::Public);
    let t2 = push_if(t1, quiz.creator_id == caller_id, Visibility::Owned);
    let tags = push_if(t2, shared_quiz_ids.contains(quiz.id), Visibility::Shared);
    assert(tags == visibility_tags(quiz, caller_id, shared_quiz_ids));
    lemma_push_if(seq![], quiz.is_published, Visibility::Publish, v);
    lemma_push_if(t0, quiz.is_public, Visibility::Public, v);
    lemma_push_if(t1, quiz.creator_id == caller_id, Visibility::Owned, v);
    lemma_push_if(t2, shared_quiz_ids.contains(quiz.id), Visibility::Shared, v);
}

proof fn lemma_push_if(s: Seq<Visibility>, b: bool, v: Visibility, x: Visibility)
    ensures
        s.contains(x) ==> push_if(s, b, v).contains(x),
        b ==> push_if(s, b, v).contains(v),
{
    if b {
        assert(push_if(s, b, v)[s.len() as int] == v);
        if s.contains(x) {
            let k = choose|k: int| 0 <= k < s.len() && s[k] == x;
            assert(push_if(s, b, v)[k] == x);
        }
    }
}

/// A listing that asks for owned quizzes admits every live quiz the caller
/// created, whoever it is shared with.
pub proof fn law_owned_quizzes_listed(plan: QuizListPlan, caller_id: Id, quiz: Quiz, shared_with: Seq<Id>)
    requires
        plan.visibility@.contains(Visibility::Owned),
        quiz.creator_id == caller_id,
        !quiz.is_deleted,
    ensures
        quiz_listed(plan, caller_id, quiz, shared_with),
{
    let i = choose|i: int| 0 <= i < plan.visibility@.len() && plan.visibility@[i] == Visibility::Owned;
    assert(has_visibility(plan.visibility@[i], quiz, caller_id, shared_with));
}

// ---------------------------------------------------------------- flashcards

/// The columns a flashcard listing can be ordered by.
#[derive(Clone, Copy, Debug, PartialEq, Eq, Structural)]
pub enum QuestionSortColumn {
    Content,
    Type,
    CreatedAt,
}

/// What a user asks of a flashcard listing.
#[derive(Clone, Debug)]
pub struct QueryQuestionParams {
    pub content: Option<String>,
    pub question_type: Option<QuestionType>,
    pub set_id: Option<Id>,
    pub user_id: Option<Id>,
    pub page: Option<u64>,
    pub page_size: Option<u64>,
    pub sort_by: Option<String>,
    pub sort_direction: Option<String>,
}

/// How a flashcard listing is run.
#[derive(Clone, Debug)]
pub struct QuestionListPlan {
    pub keyword: Option<String>,
    pub question_type: Option<QuestionType>,
    pub set_id: Option<Id>,
    pub creator_id: Option<Id>,
    pub sort_column: QuestionSortColumn,
    pub order: SortOrder,
    pub page: PageRequest,
}

/// The default page size of a flashcard listing.
pub const QUESTION_PAGE_SIZE: u64 = 50;

/// Flashcards sort by their title (content) when asked for "title" or
/// "content", by type for "type", else by creation time.
pub open spec fn question_sort_column(sort_by: Option<String>) -> QuestionSortColumn {
    if text_is(sort_by, "title"@) || text_is(sort_by, "content"@) {
        QuestionSortColumn::Content
    } else if text_is(sort_by, "type"@) {
        QuestionSortColumn::Type
    } else {
        QuestionSortColumn::CreatedAt
    }
}

/// Flashcards come in ascending order unless "desc" is asked for.
pub open spec fn question_order(direction: Option<String>) -> SortOrder {
    if text_is(direction, "desc"@) {
        SortOrder::Desc
    } else {
        SortOrder::Asc
    }
}

/// Plans a flashcard listing: keyword, type, set and creator filters, the
/// order (by creation time, ascending, by default) and the page (page 1 and 50
/// cards by default).
pub fn plan_question_list(params: QueryQuestionParams) -> (plan: QuestionListPlan)
    requires
        params.page != Some(0u64),
    ensures
        plan.keyword == params.content,
        plan.question_type == params.question_type,
        plan.set_id == params.set_id,
        plan.creator_id == params.user_id,
        plan.sort_column == question_sort_column(params.sort_by),
        plan.order == question_order(params.sort_direction),
        plan.page.page == (match params.page { Some(n) => n, None => 1 }),
        plan.page.page_size == (match params.page_size { Some(n) => n, None => QUESTION_PAGE_SIZE }),
        plan.page.page_index == plan.page.page - 1,
{
    let sort_column = if option_text_is(&params.sort_by, "title") || option_text_is(&params.sort_by, "content") {
        QuestionSortColumn::Content
    } else if option_text_is(&params.sort_by, "type") {
        QuestionSortColumn::Type
    } else {
        QuestionSortColumn::CreatedAt
    };
    let order = if option_text_is(&params.sort_direction, "desc") {
        SortOrder::Desc
    } else {
        SortOrder::Asc
    };
    let page = resolve_page(params.page, params.page_size, QUESTION_PAGE_SIZE);
    QuestionListPlan {
        keyword: params.content,
        question_type: params.question_type,
        set_id: params.set_id,
        creator_id: params.user_id,
        sort_column,
        order,
        page,
    }
}

/// A keyword matches a flashcard found in its title (content) or in the
/// content of one of its answers.
pub open spec fn keyword_matches(keyword: Seq<char>, q: Question) -> bool {
    occurs_in(keyword, q.content@) || exists|i: int| 0 <= i < q.answers@.len()
        && occurs_in(keyword, (#[trigger] q.answers@[i]).content@)
}

/// Whether a listing admits a flashcard: not deleted, and passing every filter given.
pub open spec fn question_listed(plan: QuestionListPlan, q: Question) -> bool {
    &&& !q.is_deleted
    &&& (plan.keyword matches Some(k) ==> keyword_matches(k@, q))
    &&& (plan.question_type matches Some(t) ==> q.question_type == t)
    &&& (plan.set_id matches Some(s) ==> q.set_id == s)
    &&& (plan.creator_id matches Some(c) ==> q.creator_id == c)
}

fn answers_mention(answers: &Vec<QnAAnswer>, keyword: &str) -> (b: bool)
    ensures
        b == exists|i: int| 0 <= i < answers@.len() && occurs_in(keyword@, (#[trigger] answers@[i]).content@),
{
    let mut i: usize = 0;
    while i < answers.len()
        invariant
            i <= answers.len(),
            forall|j: int| 0 <= j < i ==> !occurs_in(keyword@, (#[trigger] answers@[j]).content@),
        decreases answers.len() - i,
    {
        if text_contains(answers[i].content.as_str(), keyword) {
            return true;
        }
        i = i + 1;
    }
    false
}

impl QuestionListPlan {
    /// Whether the listing admits the flashcard `q`.
    pub fn admits(&self, q: &Question) -> (b: bool)
        ensures
            b == question_listed(*self, *q),
    {
        if q.is_deleted {
            return false;
        }
        match &self.keyword {
            Some(k) => {
                if !text_contains(q.content.as_str(), k.as_str()) && !answers_mention(&q.answers, k.as_str()) {
                    return false;
                }
            },
            None => {},
        }
        match self.question_type {
            Some(t) => {
                if q.question_type != t {
                    return false;
                }
            },
            None => {},
        }
        match self.set_id {
            Some(s) => {
                if q.set_id != s {
                    return false;
                }
            },
            None => {},
        }
        match self.creator_id {
            Some(c) => {
                if q.creator_id != c {
                    return false;
                }
            },
            None => {},
        }
        true
    }
}

// ---------------------------------------------------------------- tests

/// The columns a test listing can be ordered by.
#[derive(Clone, Copy, Debug, PartialEq, Eq, Structural)]
pub enum TestSortColumn {
    Score,
    StartedAt,
    SubmittedAt,
    Duration,
    Status,
    CreatedAt,
}

/// What a user asks of the listing of their tests.
#[derive(Clone, Debug)]
pub struct QueryTestParams {
    pub page: Option<u64>,
    pub sort_by: Option<String>,
    pub sort_order: Option<String>,
}

/// How a test listing is run.
#[derive(Clone, Copy, Debug, PartialEq, Eq, Structural)]
pub struct TestListPlan {
    pub user_id: Id,
    pub sort_column: TestSortColumn,
    pub order: SortOrder,
    pub page: PageRequest,
}

/// Tests always come ten to a page.
pub const TEST_PAGE_SIZE: u64 = 10;

pub open spec fn test_sort_column(sort_by: Option<String>) -> TestSortColumn {
    if text_is(sort_by, "score"@) {
        TestSortColumn::Score
    } else if text_is(sort_by, "started_at"@) {
        TestSortColumn::StartedAt
    } else if text_is(sort_by, "submitted_at"@) {
        TestSortColumn::SubmittedAt
    } else if text_is(sort_by, "duration"@) {
        TestSortColumn::Duration
    } else if text_is(sort_by, "status"@) {
        TestSortColumn::Status
    } else {
        TestSortColumn::CreatedAt
    }
}

/// Plans the listing of the caller's own tests.
pub fn plan_test_list(caller_id: Id, params: &QueryTestParams) -> (plan: TestListPlan)
    requires
        params.page != Some(0u64),
    ensures
        plan.user_id == caller_id,
        plan.sort_column == test_sort_column(params.sort_by),
        plan.order == listing_order(params.sort_order),
        plan.page.page == (match params.page { Some(n) => n, None => 1 }),
        plan.page.page_size == TEST_PAGE_SIZE,
        plan.page.page_index == plan.page.page - 1,
{
    let sort_column = if option_text_is(&params.sort_by, "score") {
        TestSortColumn::Score
    } else if option_text_is(&params.sort_by, "started_at") {
        TestSortColumn::StartedAt
    } else if option_text_is(&params.sort_by, "submitted_at") {
        TestSortColumn::SubmittedAt
    } else if option_text_is(&params.sort_by, "duration") {
        TestSortColumn::Duration
    } else if option_text_is(&params.sort_by, "status") {
        TestSortColumn::Status
    } else {
        TestSortColumn::CreatedAt
    };
    let order = resolve_listing_order(&params.sort_order);
    let page = resolve_page(params.page, Some(TEST_PAGE_SIZE), TEST_PAGE_SIZE);
    TestListPlan { user_id: caller_id, sort_column, order, page }
}

impl TestListPlan {
    /// A test is listed for its own taker only.
    pub fn admits(&self, test: &Test) -> (b: bool)
        ensures
            b == (test.user_id == self.user_id),
    {
        test.user_id == self.user_id
    }
}

// ---------------------------------------------------------------- sets

/// A set the caller owns and has not deleted.
pub open spec fn own_set(set: StudySet, caller_id: Id) -> bool {
    set.owner_id == caller_id && !set.is_deleted
}

/// A private set shared with the caller, given the users it is shared with.
pub open spec fn shared_private_set(set: StudySet, shared_with: Seq<Id>, caller_id: Id) -> bool {
    shared_with.contains(caller_id) && !set.public_or_not && !set.is_deleted
}

/// A public set of someone else.
pub open spec fn public_foreign_set(set: StudySet, caller_id: Id) -> bool {
    set.owner_id != caller_id && set.public_or_not && !set.is_deleted
}

/// The three groups of the sets a user can reach.
#[derive(Clone, Copy, Debug, PartialEq, Eq, Structural)]
pub enum SetGroup {
    Own,
    SharedWithMe,
    PublicOfOthers,
}

/// Whether `set`, shared with the users `shared_with`, falls into `group` for
/// the caller.
pub open spec fn in_group(group: SetGroup, set: StudySet, shared_with: Seq<Id>, caller_id: Id) -> bool {
    match group {
        SetGroup::Own => own_set(set, caller_id),
        SetGroup::SharedWithMe => shared_private_set(set, shared_with, caller_id),
        SetGroup::PublicOfOthers => public_foreign_set(set, caller_id),
    }
}

/// Whether a set belongs to a group of the caller's sets.
pub fn set_in_group(group: SetGroup, set: &StudySet, shared_with: &Vec<Id>, caller_id: Id) -> (b: bool)
    ensures
        b == in_group(group, *set, shared_with@, caller_id),
{
    match group {
        SetGroup::Own => set.owner_id == caller_id && !set.is_deleted,
        SetGroup::SharedWithMe => ids_contain(shared_with, caller_id) && !set.public_or_not && !set.is_deleted,
        SetGroup::PublicOfOthers => set.owner_id != caller_id && set.public_or_not && !set.is_deleted,
    }
}

/// A set the caller can reach, with its share rows: each the user it is
/// shared with and the permission granted.
#[derive(Debug)]
pub struct ReachableSet {
    pub set: StudySet,
    pub shares: Vec<(Id, Permission)>,
}

/// The caller's sets in their three groups, as positions in the list of
/// reachable sets: the sets they own, the private sets shared with them (one
/// entry per share row, with its permission), and the public sets of others.
#[derive(Clone, Debug)]
pub struct SetGroups {
    pub own_sets: Vec<usize>,
    pub shared_sets: Vec<(usize, Permission)>,
    pub public_sets: Vec<usize>,
}

/// The positions, in order, of the first `n` sets that the caller owns.
pub open spec fn own_positions(sets: Seq<ReachableSet>, caller_id: Id, n: nat) -> Seq<usize>
    decreases n,
{
    if n == 0 {
        Seq::empty()
    } else {
        let rest = own_positions(sets, caller_id, (n - 1) as nat);
        if own_set(sets[n - 1].set, caller_id) { rest.push((n - 1) as usize) } else { rest }
    }
}

/// The positions, in order, of the first `n` sets that are public sets of others.
pub open spec fn public_positions(sets: Seq<ReachableSet>, caller_id: Id, n: nat) -> Seq<usize>
    decreases n,
{
    if n == 0 {
        Seq::empty()
    } else {
        let rest = public_positions(sets, caller_id, (n - 1) as nat);
        if public_foreign_set(sets[n - 1].set, caller_id) { rest.push((n - 1) as usize) } else { rest }
    }
}

/// The permissions, in order, that the first `m` share rows grant the caller,
/// each tagged with the position `at` of the set.
pub open spec fn grants_to(shares: Seq<(Id, Permission)>, caller_id: Id, at: usize, m: nat) -> Seq<(usize, Permission)>
    decreases m,
{
    if m == 0 {
        Seq::empty()
    } else {
        let rest = grants_to(shares, caller_id, at, (m - 1) as nat);
        if shares[m - 1].0 == caller_id { rest.push((at, shares[m - 1].1)) } else { rest }
    }
}

/// A live private set, which the shared group may hold.
pub open spec fn live_private_set(set: StudySet) -> bool {
    !set.public_or_not && !set.is_deleted
}

/// The entries of the shared group among the first `n` sets: for each live
/// private set, the permissions its share rows grant the caller.
pub open spec fn shared_entries(sets: Seq<ReachableSet>, caller_id: Id, n: nat) -> Seq<(usize, Permission)>
    decreases n,
{
    if n == 0 {
        Seq::empty()
    } else {
        let rest = shared_entries(sets, caller_id, (n - 1) as nat);
        let s = sets[n - 1];
        if live_private_set(s.set) { rest + grants_to(s.shares@, caller_id, (n - 1) as usize, s.shares@.len()) } else { rest }
    }
}

/// Sorts the sets a user can reach into the user's three groups: owned sets,
/// live private sets shared with the user (with each share's permission), and
/// live public sets of others. A private set shared with its own owner is in
/// both of the first two groups.
pub fn group_sets(sets: &Vec<ReachableSet>, caller_id: Id) -> (g: SetGroups)
    ensures
        g.own_sets@ == own_positions(sets@, caller_id, sets@.len()),
        g.shared_sets@ == shared_entries(sets@, caller_id, sets@.len()),
        g.public_sets@ == public_positions(sets@, caller_id, sets@.len()),
{
    let mut own: Vec<usize> = Vec::new();
    let mut shared: Vec<(usize, Permission)> = Vec::new();
    let mut public: Vec<usize> = Vec::new();
    let mut i: usize = 0;
    while i < sets.len()
        invariant
            i <= sets@.len(),
            own@ == own_positions(sets@, caller_id, i as nat),
            shared@ == shared_entries(sets@, caller_id, i as nat),
            public@ == public_positions(sets@, caller_id, i as nat),
        decreases sets@.len() - i,
    {
        let entry = &sets[i];
        if entry.set.owner_id == caller_id && !entry.set.is_deleted {
            own.push(i);
        }
        if entry.set.owner_id != caller_id && entry.set.public_or_not && !entry.set.is_deleted {
            public.push(i);
        }
        if !entry.set.public_or_not && !entry.set.is_deleted {
            let ghost before = shared@;
            let mut k: usize = 0;
            while k < entry.shares.len()
                invariant
                    i < sets@.len(),
                    *entry == sets@[i as int],
                    k <= entry.shares@.len(),
                    shared@ == before + grants_to(entry.shares@, caller_id, i, k as nat),
                decreases entry.shares@.len() - k,
            {
                let (user, permission) = entry.shares[k];
                if user == caller_id {
                    shared.push((i, permission));
                    assert(shared@ =~= before + grants_to(entry.shares@, caller_id, i, (k + 1) as nat));
                }
                k = k + 1;
            }
        }
        i = i + 1;
    }
    SetGroups { own_sets: own, shared_sets: shared, public_sets: public }
}

proof fn lemma_grant_listed(shares: Seq<(Id, Permission)>, caller_id: Id, at: usize, m: nat, k: int)
    requires
        0 <= k < m <= shares.len(),
        shares[k].0 == caller_id,
    ensures
        grants_to(shares, caller_id, at, m).contains((at, shares[k].1)),
    decreases m,
{
    let g = grants_to(shares, caller_id, at, m);
    if k == m - 1 {
        assert(g[g.len() - 1] == (at, shares[k].1));
    } else {
        lemma_grant_listed(shares, caller_id, at, (m - 1) as nat, k);
        let rest = grants_to(shares, caller_id, at, (m - 1) as nat);
        let j = choose|j: int| 0 <= j < rest.len() && rest[j] == (at, shares[k].1);
        assert(g[j] == rest[j]);
    }
}

proof fn lemma_shared_entries_grow(sets: Seq<ReachableSet>, caller_id: Id, n: nat, m: nat, e: (usize, Permission))
    requires
        n <= m <= sets.len(),
        shared_entries(sets, caller_id, n).contains(e),
    ensures
        shared_entries(sets, caller_id, m).contains(e),
    decreases m - n,
{
    if n < m {
        lemma_shared_entries_grow(sets, caller_id, n, (m - 1) as nat, e);
        let rest = shared_entries(sets, caller_id, (m - 1) as nat);
        let j = choose|j: int| 0 <= j < rest.len() && rest[j] == e;
        assert(shared_entries(sets, caller_id, m)[j] == rest[j]);
    }
}

/// Every live private set shared with the caller appears in the shared group,
/// with the permission of its share row.
pub proof fn law_shared_set_listed_with_its_permission(sets: Seq<ReachableSet>, caller_id: Id, i: int, k: int)
    requires
        0 <= i < sets.len(),
        i <= usize::MAX,
        0 <= k < sets[i].shares@.len(),
        sets[i].shares@[k].0 == caller_id,
        live_private_set(sets[i].set),
    ensures
        shared_entries(sets, caller_id, sets.len()).contains((i as usize, sets[i].shares@[k].1)),
{
    let s = sets[i];
    let e = (i as usize, s.shares@[k].1);
    lemma_grant_listed(s.shares@, caller_id, i as usize, s.shares@.len(), k);
    let rest = shared_entries(sets, caller_id, i as nat);
    let g = grants_to(s.shares@, caller_id, i as usize, s.shares@.len());
    let j = choose|j: int| 0 <= j < g.len() && g[j] == e;
    assert(shared_entries(sets, caller_id, (i + 1) as nat)[rest.len() + j] == e);
    lemma_shared_entries_grow(sets, caller_id, (i + 1) as nat, sets.len(), e);
}

proof fn lemma_own_positions_grow(sets: Seq<ReachableSet>, caller_id: Id, n: nat, m: nat, x: usize)
    requires
        n <= m <= sets.len(),
        own_positions(sets, caller_id, n).contains(x),
    ensures
        own_positions(sets, caller_id, m).contains(x),
    decreases m - n,
{
    if n < m {
        lemma_own_positions_grow(sets, caller_id, n, (m - 1) as nat, x);
        let rest = own_positions(sets, caller_id, (m - 1) as nat);
        let j = choose|j: int| 0 <= j < rest.len() && rest[j] == x;
        assert(own_positions(sets, caller_id, m)[j] == rest[j]);
    }
}

/// Every live set the caller owns appears in the group of their own sets.
pub proof fn law_owned_set_listed(sets: Seq<ReachableSet>, caller_id: Id, i: int)
    requires
        0 <= i < sets.len(),
        i <= usize::MAX,
        own_set(sets[i].set, caller_id),
    ensures
        own_positions(sets, caller_id, sets.len()).contains(i as usize),
{
    let p = own_positions(sets, caller_id, (i + 1) as nat);
    assert(p[p.len() - 1] == i as usize);
    lemma_own_positions_grow(sets, caller_id, (i + 1) as nat, sets.len(), i as usize);
}

proof fn lemma_own_positions_sound(sets: Seq<ReachableSet>, caller_id: Id, n: nat, x: usize)
    requires
        sets.len() <= usize::MAX,
        n <= sets.len(),
        own_positions(sets, caller_id, n).contains(x),
    ensures
        x < n,
        sets[x as int].set.owner_id == caller_id,
        !sets[x as int].set.is_deleted,
    decreases n,
{
    if n > 0 {
        let rest = own_positions(sets, caller_id, (n - 1) as nat);
        let all = own_positions(sets, caller_id, n);
        let j = choose|j: int| 0 <= j < all.len() && all[j] == x;
        if j < rest.len() {
            assert(rest[j] == x);
            lemma_own_positions_sound(sets, caller_id, (n - 1) as nat, x);
        } else {
            assert(x as int == n - 1);
        }
    }
}

proof fn lemma_public_positions_sound(sets: Seq<ReachableSet>, caller_id: Id, n: nat, x: usize)
    requires
        sets.len() <= usize::MAX,
        n <= sets.len(),
        public_positions(sets, caller_id, n).contains(x),
    ensures
        x < n,
        sets[x as int].set.owner_id != caller_id,
        sets[x as int].set.public_or_not,
        !sets[x as int].set.is_deleted,
    decreases n,
{
    if n > 0 {
        let rest = public_positions(sets, caller_id, (n - 1) as nat);
        let all = public_positions(sets, caller_id, n);
        let j = choose|j: int| 0 <= j < all.len() && all[j] == x;
        if j < rest.len() {
            assert(rest[j] == x);
            lemma_public_positions_sound(sets, caller_id, (n - 1) as nat, x);
        } else {
            assert(x as int == n - 1);
        }
    }
}

proof fn lemma_public_positions_grow(sets: Seq<ReachableSet>, caller_id: Id, n: nat, m: nat, x: usize)
    requires
        n <= m <= sets.len(),
        public_positions(sets, caller_id, n).contains(x),
    ensures
        public_positions(sets, caller_id, m).contains(x),
    decreases m - n,
{
    if n < m {
        lemma_public_positions_grow(sets, caller_id, n, (m - 1) as nat, x);
        let rest = public_positions(sets, caller_id, (m - 1) as nat);
        let j = choose|j: int| 0 <= j < rest.len() && rest[j] == x;
        assert(public_positions(sets, caller_id, m)[j] == rest[j]);
    }
}

proof fn lemma_grants_sound(shares: Seq<(Id, Permission)>, caller_id: Id, at: usize, m: nat, e: (usize, Permission))
    requires
        m <= shares.len(),
        grants_to(shares, caller_id, at, m).contains(e),
    ensures
        e.0 == at,
        exists|k: int| 0 <= k < m && (#[trigger] shares[k]) == (caller_id, e.1),
    decreases m,
{
    if m > 0 {
        let rest = grants_to(shares, caller_id, at, (m - 1) as nat);
        let all = grants_to(shares, caller_id, at, m);
        let j = choose|j: int| 0 <= j < all.len() && all[j] == e;
        if j < rest.len() {
            assert(rest[j] == e);
            lemma_grants_sound(shares, caller_id, at, (m - 1) as nat, e);
        } else {
            assert(shares[m - 1] == (caller_id, e.1));
        }
    }
}

proof fn lemma_shared_entries_sound(sets: Seq<ReachableSet>, caller_id: Id, n: nat, e: (usize, Permission))
    requires
        sets.len() <= usize::MAX,
        n <= sets.len(),
        shared_entries(sets, caller_id, n).contains(e),
    ensures
        e.0 < n,
        !sets[e.0 as int].set.public_or_not,
        !sets[e.0 as int].set.is_deleted,
        exists|k: int| 0 <= k < sets[e.0 as int].shares@.len() && (#[trigger] sets[e.0 as int].shares@[k]) == (caller_id, e.1),
    decreases n,
{
    if n > 0 {
        let rest = shared_entries(sets, caller_id, (n - 1) as nat);
        let all = shared_entries(sets, caller_id, n);
        let j = choose|j: int| 0 <= j < all.len() && all[j] == e;
        if j < rest.len() {
            assert(rest[j] == e);
            lemma_shared_entries_sound(sets, caller_id, (n - 1) as nat, e);
        } else {
            let s = sets[n - 1];
            let g = grants_to(s.shares@, caller_id, (n - 1) as usize, s.shares@.len());
            assert(live_private_set(s.set));
            assert(all == rest + g);
            assert(g[j - rest.len()] == e);
            lemma_grants_sound(s.shares@, caller_id, (n - 1) as usize, s.shares@.len(), e);
        }
    }
}

/// The group of the caller's own sets holds exactly the positions of the live
/// sets the caller owns.
pub proof fn law_own_group_is_exact(sets: Seq<ReachableSet>, caller_id: Id, x: usize)
    requires
        sets.len() <= usize::MAX,
    ensures
        own_positions(sets, caller_id, sets.len()).contains(x) <==> {
            &&& x < sets.len()
            &&& sets[x as int].set.owner_id == caller_id
            &&& !sets[x as int].set.is_deleted
        },
{
    if own_positions(sets, caller_id, sets.len()).contains(x) {
        lemma_own_positions_sound(sets, caller_id, sets.len(), x);
    }
    if x < sets.len() && sets[x as int].set.owner_id == caller_id && !sets[x as int].set.is_deleted {
        law_owned_set_listed(sets, caller_id, x as int);
    }
}

/// The group of public sets holds exactly the positions of the live public
/// sets that someone other than the caller owns.
pub proof fn law_public_group_is_exact(sets: Seq<ReachableSet>, caller_id: Id, x: usize)
    requires
        sets.len() <= usize::MAX,
    ensures
        public_positions(sets, caller_id, sets.len()).contains(x) <==> {
            &&& x < sets.len()
            &&& sets[x as int].set.owner_id != caller_id
            &&& sets[x as int].set.public_or_not
            &&& !sets[x as int].set.is_deleted
        },
{
    if public_positions(sets, caller_id, sets.len()).contains(x) {
        lemma_public_positions_sound(sets, caller_id, sets.len(), x);
    }
    if x < sets.len() && sets[x as int].set.owner_id != caller_id && sets[x as int].set.public_or_not
        && !sets[x as int].set.is_deleted {
        let p = public_positions(sets, caller_id, (x + 1) as nat);
        assert(p[p.len() - 1] == x);
        lemma_public_positions_grow(sets, caller_id, (x + 1) as nat, sets.len(), x);
    }
}

/// The shared group holds exactly, for each live private set, one entry per
/// share row granted to the caller, with the permission of that row.
pub proof fn law_shared_group_is_exact(sets: Seq<ReachableSet>, caller_id: Id, x: usize, p: Permission)
    requires
        sets.len() <= usize::MAX,
    ensures
        shared_entries(sets, caller_id, sets.len()).contains((x, p)) <==> {
            &&& x < sets.len()
            &&& !sets[x as int].set.public_or_not
            &&& !sets[x as int].set.is_deleted
            &&& exists|k: int| 0 <= k < sets[x as int].shares@.len() && (#[trigger] sets[x as int].shares@[k]) == (caller_id, p)
        },
{
    if shared_entries(sets, caller_id, sets.len()).contains((x, p)) {
        lemma_shared_entries_sound(sets, caller_id, sets.len(), (x, p));
    }
    if x < sets.len() && !sets[x as int].set.public_or_not && !sets[x as int].set.is_deleted
        && exists|k: int| 0 <= k < sets[x as int].shares@.len() && (#[trigger] sets[x as int].shares@[k]) == (caller_id, p) {
        let k = choose|k: int| 0 <= k < sets[x as int].shares@.len() && (#[trigger] sets[x as int].shares@[k]) == (caller_id, p);
        law_shared_set_listed_with_its_permission(sets, caller_id, x as int, k);
    }
}

/// Whether the caller may read a set: not deleted, and they own it, it is
/// shared with them, or it is public.
pub open spec fn set_readable(set: StudySet, caller_id: Id, shared_with: Seq<Id>) -> bool {
    !set.is_deleted && (set.owner_id == caller_id || shared_with.contains(caller_id) || set.public_or_not)
}

pub fn set_readable_by(set: &StudySet, caller_id: Id, shared_with: &Vec<Id>) -> (b: bool)
    ensures
        b == set_readable(*set, caller_id, shared_with@),
{
    !set.is_deleted && (set.owner_id == caller_id || ids_contain(shared_with, caller_id) || set.public_or_not)
}

/// The caller's own sets and the public sets of others never overlap, nor do
/// the private sets shared with the caller and the public sets of others.
pub proof fn law_set_groups_disjoint(set: StudySet, shared_with: Seq<Id>, caller_id: Id)
    ensures
        !(in_group(SetGroup::Own, set, shared_with, caller_id) && in_group(SetGroup::PublicOfOthers, set, shared_with, caller_id)),
        !(in_group(SetGroup::SharedWithMe, set, shared_with, caller_id) && in_group(SetGroup::PublicOfOthers, set, shared_with, caller_id)),
{
}

/// Every set the caller can reach through the listing of their sets can be
/// read by them: owners and the users a set is shared with are authorised.
pub proof fn law_grouped_sets_are_readable(group: SetGroup, set: StudySet, caller_id: Id, shared_with: Seq<Id>)
    requires
        in_group(group, set, shared_with, caller_id),
    ensures
        set_readable(set, caller_id, shared_with),
{
}

/// The owner of a set and every user it is shared with may read it while it is
/// not deleted.
pub proof fn law_owner_and_shared_users_read_set(set: StudySet, caller_id: Id, shared_with: Seq<Id>)
    requires
        !set.is_deleted,
        set.owner_id == caller_id || shared_with.contains(caller_id),
    ensures
        set_readable(set, caller_id, shared_with),
{
}

// ---------------------------------------------------------------- ownership lookups

/// Whether `user_id` created the quiz and it is not deleted.
pub fn quiz_created_by(quiz: &Quiz, user_id: Id) -> (b: bool)
    ensures
        b == (quiz.creator_id == user_id && !quiz.is_deleted),
{
    quiz.creator_id == user_id && !quiz.is_deleted
}

/// Whether `user_id` owns the set and it is not deleted.
pub fn set_owned_by(set: &StudySet, user_id: Id) -> (b: bool)
    ensures
        b == (set.owner_id == user_id && !set.is_deleted),
{
    set.owner_id == user_id && !set.is_deleted
}

/// Whether `user_id` created the flashcard and it is not deleted.
pub fn question_created_by(q: &Question, user_id: Id) -> (b: bool)
    ensures
        b == (q.creator_id == user_id && !q.is_deleted),
{
    q.creator_id == user_id && !q.is_deleted
}

/// Whether some share row of `quiz_id` is held by `user_id`.
pub fn quiz_shared_with(shares: &Vec<crate::sharing::QuizShareRow>, quiz_id: Id, user_id: Id) -> (b: bool)
    ensures
        b == exists|i: int| 0 <= i < shares@.len() && (#[trigger] shares@[i]) == (crate::sharing::QuizShareRow { quiz_id, user_id }),
{
    let mut i: usize = 0;
    while i < shares.len()
        invariant
            i <= shares.len(),
            forall|j: int| 0 <= j < i ==> (#[trigger] shares@[j]) != (crate::sharing::QuizShareRow { quiz_id, user_id }),
        decreases shares.len() - i,
    {
        let s = shares[i];
        if s.quiz_id == quiz_id && s.user_id == user_id {
            return true;
        }
        i = i + 1;
    }
    false
}

/// The account lookup of the role check: it matches an account with the role
/// that is marked deleted.
pub fn role_lookup_matches(user: &crate::models::User, role: crate::enums::Role) -> (b: bool)
    ensures
        b == (user.role == role && user.is_deleted),
{
    user.role == role && user.is_deleted
}

// ---------------------------------------------------------------- laws of the listings

proof fn lemma_push_if_contains(s: Seq<Visibility>, b: bool, v: Visibility, x: Visibility)
    ensures
        push_if(s, b, v).contains(x) <==> (s.contains(x) || (b && x == v)),
{
    lemma_push_if(s, b, v, x);
    if push_if(s, b, v).contains(x) && b {
        let k = choose|k: int| 0 <= k < push_if(s, b, v).len() && push_if(s, b, v)[k] == x;
        if k < s.len() {
            assert(s[k] == x);
        }
    }
}

/// Each label a quiz listing request names (publish, public, owned, shared)
/// puts its visibility in the plan, and no visibility is there that was not
/// named; a request naming no labels asks for none.
pub proof fn law_named_labels_are_the_requested_visibilities(labels: Vec<String>)
    ensures
        requested_visibility(None).len() == 0,
        requested_visibility(Some(labels)).contains(Visibility::Publish)
            <==> exists|i: int| 0 <= i < labels@.len() && (#[trigger] labels@[i])@ == "publish"@,
        requested_visibility(Some(labels)).contains(Visibility::Public)
            <==> exists|i: int| 0 <= i < labels@.len() && (#[trigger] labels@[i])@ == "public"@,
        requested_visibility(Some(labels)).contains(Visibility::Owned)
            <==> exists|i: int| 0 <= i < labels@.len() && (#[trigger] labels@[i])@ == "owned"@,
        requested_visibility(Some(labels)).contains(Visibility::Shared)
            <==> exists|i: int| 0 <= i < labels@.len() && (#[trigger] labels@[i])@ == "shared"@,
{
    let l = labels@;
    let s0 = push_if(seq![], label_requested(l, "publish"@), Visibility::Publish);
    let s1 = push_if(s0, label_requested(l, "public"@), Visibility::Public);
    let s2 = push_if(s1, label_requested(l, "owned"@), Visibility::Owned);
    let s3 = push_if(s2, label_requested(l, "shared"@), Visibility::Shared);
    assert(requested_visibility(Some(labels)) == s3);
    assert forall|x: Visibility| #![auto] s3.contains(x) <==> {
        ||| (label_requested(l, "publish"@) && x == Visibility::Publish)
        ||| (label_requested(l, "public"@) && x == Visibility::Public)
        ||| (label_requested(l, "owned"@) && x == Visibility::Owned)
        ||| (label_requested(l, "shared"@) && x == Visibility::Shared)
    } by {
        let e: Seq<Visibility> = seq![];
        assert(!e.contains(x));
        lemma_push_if_contains(e, label_requested(l, "publish"@), Visibility::Publish, x);
        lemma_push_if_contains(s0, label_requested(l, "public"@), Visibility::Public, x);
        lemma_push_if_contains(s1, label_requested(l, "owned"@), Visibility::Owned, x);
        lemma_push_if_contains(s2, label_requested(l, "shared"@), Visibility::Shared, x);
    }
}

/// A quiz listing admits a quiz exactly when the quiz is not deleted and
/// either the listing names its creator, or it asks for a visibility the quiz
/// has: published, public, created by the caller, or shared with the caller.
pub proof fn law_quiz_listing_admission(plan: QuizListPlan, caller_id: Id, quiz: Quiz, shared_with: Seq<Id>)
    ensures
        quiz_listed(plan, caller_id, quiz, shared_with) <==> {
            &&& !quiz.is_deleted
            &&& {
                ||| plan.creator_id == Some(quiz.creator_id)
                ||| (plan.visibility@.contains(Visibility::Publish) && quiz.is_published)
                ||| (plan.visibility@.contains(Visibility::Public) && quiz.is_public)
                ||| (plan.visibility@.contains(Visibility::Owned) && quiz.creator_id == caller_id)
                ||| (plan.visibility@.contains(Visibility::Shared) && shared_with.contains(caller_id))
            }
        },
{
    let v = plan.visibility@;
    let visible = exists|i: int| 0 <= i < v.len() && has_visibility(#[trigger] v[i], quiz, caller_id, shared_with);
    if visible {
        let i = choose|i: int| 0 <= i < v.len() && has_visibility(#[trigger] v[i], quiz, caller_id, shared_with);
        assert(v.contains(v[i]));
    }
    assert forall|x: Visibility| #[trigger] v.contains(x) && has_visibility(x, quiz, caller_id, shared_with) implies visible by {
        let i = choose|i: int| 0 <= i < v.len() && v[i] == x;
        assert(has_visibility(v[i], quiz, caller_id, shared_with));
    }
    assert(has_visibility(Visibility::Publish, quiz, caller_id, shared_with) == quiz.is_published);
    assert(has_visibility(Visibility::Public, quiz, caller_id, shared_with) == quiz.is_public);
    assert(has_visibility(Visibility::Owned, quiz, caller_id, shared_with) == (quiz.creator_id == caller_id));
    assert(has_visibility(Visibility::Shared, quiz, caller_id, shared_with) == shared_with.contains(caller_id));
}

/// A listing that asks for public quizzes admits every live public quiz.
pub proof fn law_public_label_lists_public_quizzes(
    params: FilterQuizParams,
    labels: Vec<String>,
    plan: QuizListPlan,
    caller_id: Id,
    quiz: Quiz,
    shared_with: Seq<Id>,
)
    requires
        params.visibility == Some(labels),
        exists|i: int| 0 <= i < labels@.len() && (#[trigger] labels@[i])@ == "public"@,
        plan.visibility@ == requested_visibility(params.visibility),
        quiz.is_public,
        !quiz.is_deleted,
    ensures
        plan.visibility@.contains(Visibility::Public),
        quiz_listed(plan, caller_id, quiz, shared_with),
{
    law_named_labels_are_the_requested_visibilities(labels);
    law_quiz_listing_admission(plan, caller_id, quiz, shared_with);
}

/// The sort keys of a quiz listing: "name", "total_point", "updated_at" and
/// "published_at" pick their columns, anything else the creation time; "asc"
/// and "desc" give ascending order, anything else descending.
pub proof fn law_quiz_listing_order(sort_by: Option<String>, direction: Option<String>)
    ensures
        sort_by matches Some(s) && s@ == "name"@ ==> quiz_sort_column(sort_by) == QuizSortColumn::Name,
        sort_by matches Some(s) && s@ == "total_point"@ ==> quiz_sort_column(sort_by) == QuizSortColumn::TotalPoint,
        sort_by matches Some(s) && s@ == "updated_at"@ ==> quiz_sort_column(sort_by) == QuizSortColumn::UpdatedAt,
        sort_by matches Some(s) && s@ == "published_at"@ ==> quiz_sort_column(sort_by) == QuizSortColumn::PublishAt,
        sort_by is None ==> quiz_sort_column(sort_by) == QuizSortColumn::CreatedAt,
        direction matches Some(d) && (d@ == "asc"@ || d@ == "desc"@) ==> listing_order(direction) == SortOrder::Asc,
        direction is None ==> listing_order(direction) == SortOrder::Desc,
{
    reveal_strlit("name");
    reveal_strlit("total_point");
    reveal_strlit("updated_at");
    reveal_strlit("published_at");
    assert("name"@ != "total_point"@) by { assert("name"@.len() != "total_point"@.len() || "name"@[0] != "total_point"@[0]); }
    assert("name"@ != "updated_at"@) by { assert("name"@.len() != "updated_at"@.len() || "name"@[0] != "updated_at"@[0]); }
    assert("name"@ != "published_at"@) by { assert("name"@.len() != "published_at"@.len() || "name"@[0] != "published_at"@[0]); }
    assert("total_point"@ != "updated_at"@) by { assert("total_point"@.len() != "updated_at"@.len() || "total_point"@[0] != "updated_at"@[0]); }
    assert("total_point"@ != "published_at"@) by { assert("total_point"@.len() != "published_at"@.len() || "total_point"@[0] != "published_at"@[0]); }
    assert("updated_at"@ != "published_at"@) by { assert("updated_at"@.len() != "published_at"@.len() || "updated_at"@[0] != "published_at"@[0]); }
}

/// A flashcard listing admits a flashcard exactly when it is not deleted and
/// passes every filter the plan names: the keyword occurs in its title or in
/// one of its answers, and its type, set and creator are the ones named.
pub proof fn law_flashcard_listing_admission(plan: QuestionListPlan, q: Question)
    ensures
        question_listed(plan, q) <==> {
            &&& !q.is_deleted
            &&& (plan.keyword matches Some(k) ==> {
                ||| exists|i: int| 0 <= i && i + k@.len() <= q.content@.len()
                        && #[trigger] q.content@.subrange(i, i + k@.len()) == k@
                ||| exists|j: int, i: int| 0 <= j < q.answers@.len() && 0 <= i
                        && i + k@.len() <= q.answers@[j].content@.len()
                        && #[trigger] q.answers@[j].content@.subrange(i, i + k@.len()) == k@
            })
            &&& (plan.question_type matches Some(t) ==> q.question_type == t)
            &&& (plan.set_id matches Some(s) ==> q.set_id == s)
            &&& (plan.creator_id matches Some(c) ==> q.creator_id == c)
        },
{
    if plan.keyword is Some {
        let k = plan.keyword->0;
        if exists|j: int| 0 <= j < q.answers@.len() && occurs_in(k@, (#[trigger] q.answers@[j]).content@) {
            let j = choose|j: int| 0 <= j < q.answers@.len() && occurs_in(k@, (#[trigger] q.answers@[j]).content@);
            let i = choose|i: int| 0 <= i && i + k@.len() <= q.answers@[j].content@.len()
                && #[trigger] q.answers@[j].content@.subrange(i, i + k@.len()) == k@;
            assert(q.answers@[j].content@.subrange(i, i + k@.len()) == k@);
        }
        if exists|j: int, i: int| 0 <= j < q.answers@.len() && 0 <= i
            && i + k@.len() <= q.answers@[j].content@.len()
            && #[trigger] q.answers@[j].content@.subrange(i, i + k@.len()) == k@ {
            let (j, i) = choose|j: int, i: int| 0 <= j < q.answers@.len() && 0 <= i
                && i + k@.len() <= q.answers@[j].content@.len()
                && #[trigger] q.answers@[j].content@.subrange(i, i + k@.len()) == k@;
            assert(occurs_in(k@, q.answers@[j].content@));
        }
    }
}

/// A listing of one set's flashcards admits only flashcards of that set.
pub proof fn law_set_listing_keeps_to_its_set(params: QueryQuestionParams, plan: QuestionListPlan, s: Id, q: Question)
    requires
        params.set_id == Some(s),
        plan.set_id == params.set_id,
        question_listed(plan, q),
    ensures
        q.set_id == s,
        !q.is_deleted,
{
    law_flashcard_listing_admission(plan, q);
}

/// The sort keys of a flashcard listing: "title" and "content" sort by the
/// title, "type" by type, anything else by creation time; "desc" gives
/// descending order, anything else ascending.
pub proof fn law_flashcard_listing_order(sort_by: Option<String>, direction: Option<String>)
    ensures
        sort_by matches Some(s) && (s@ == "title"@ || s@ == "content"@) ==> question_sort_column(sort_by) == QuestionSortColumn::Content,
        sort_by matches Some(s) && s@ == "type"@ ==> question_sort_column(sort_by) == QuestionSortColumn::Type,
        sort_by is None ==> question_sort_column(sort_by) == QuestionSortColumn::CreatedAt,
        direction matches Some(d) && d@ == "desc"@ ==> question_order(direction) == SortOrder::Desc,
        direction is None ==> question_order(direction) == SortOrder::Asc,
{
    reveal_strlit("title");
    reveal_strlit("content");
    reveal_strlit("type");
    assert("title"@ != "content"@) by { assert("title"@.len() != "content"@.len() || "title"@[0] != "content"@[0]); }
    assert("title"@ != "type"@) by { assert("title"@.len() != "type"@.len() || "title"@[0] != "type"@[0]); }
    assert("content"@ != "type"@) by { assert("content"@.len() != "type"@.len() || "content"@[0] != "type"@[0]); }
}

/// The sort keys of a test listing: "score", "started_at", "submitted_at",
/// "duration" and "status" pick their columns, anything else the creation time.
pub proof fn law_test_listing_order(sort_by: Option<String>)
    ensures
        sort_by matches Some(s) && s@ == "score"@ ==> test_sort_column(sort_by) == TestSortColumn::Score,
        sort_by matches Some(s) && s@ == "started_at"@ ==> test_sort_column(sort_by) == TestSortColumn::StartedAt,
        sort_by matches Some(s) && s@ == "submitted_at"@ ==> test_sort_column(sort_by) == TestSortColumn::SubmittedAt,
        sort_by matches Some(s) && s@ == "duration"@ ==> test_sort_column(sort_by) == TestSortColumn::Duration,
        sort_by matches Some(s) && s@ == "status"@ ==> test_sort_column(sort_by) == TestSortColumn::Status,
        sort_by is None ==> test_sort_column(sort_by) == TestSortColumn::CreatedAt,
{
    reveal_strlit("score");
    reveal_strlit("started_at");
    reveal_strlit("submitted_at");
    reveal_strlit("duration");
    reveal_strlit("status");
    assert("score"@ != "started_at"@) by { assert("score"@.len() != "started_at"@.len() || "score"@[0] != "started_at"@[0]); }
    assert("score"@ != "submitted_at"@) by { assert("score"@.len() != "submitted_at"@.len() || "score"@[0] != "submitted_at"@[0]); }
    assert("score"@ != "duration"@) by { assert("score"@.len() != "duration"@.len() || "score"@[0] != "duration"@[0]); }
    assert("score"@ != "status"@) by { assert("score"@.len() != "status"@.len() || "score"@[0] != "status"@[0]); }
    assert("started_at"@ != "submitted_at"@) by { assert("started_at"@.len() != "submitted_at"@.len() || "started_at"@[0] != "submitted_at"@[0]); }
    assert("started_at"@ != "duration"@) by { assert("started_at"@.len() != "duration"@.len() || "started_at"@[0] != "duration"@[0]); }
    assert("started_at"@ != "status"@) by { assert("started_at"@.len() != "status"@.len() || "started_at"@[0] != "status"@[0]); }
    assert("submitted_at"@ != "duration"@) by { assert("submitted_at"@.len() != "duration"@.len() || "submitted_at"@[0] != "duration"@[0]); }
    assert("submitted_at"@ != "status"@) by { assert("submitted_at"@.len() != "status"@.len() || "submitted_at"@[0] != "status"@[0]); }
    assert("duration"@ != "status"@) by { assert("duration"@.len() != "status"@.len() || "duration"@[0] != "status"@[0]); }
}

/// A page holds `page_size` rows: the page count is the least number of pages
/// that hold every row.
pub proof fn law_page_count_holds_every_row(items: u64, page_size: u64)
    requires
        page_size > 0,
    ensures
        page_count(items, page_size) * page_size >= items,
        page_count(items, page_size) == 0 || (page_count(items, page_size) - 1) * page_size < items,
{
    let q = items / page_size;
    let r = items % page_size;
    assert(q * page_size + r == items && 0 <= r < page_size) by (nonlinear_arith)
        requires
            page_size > 0,
            q == items / page_size,
            r == items % page_size;
    if r > 0 {
        assert((q + 1) * page_size == q * page_size + page_size) by (nonlinear_arith);
    } else if q > 0 {
        assert((q - 1) * page_size == q * page_size - page_size) by (nonlinear_arith);
    }
}

} // verus!
