use vstd::prelude::*;
use crate::enums::QuestionType;

verus! {

/// One proposed answer of a quiz question, as a creator submits it.
#[derive(Clone, Debug)]
pub struct CreateQuizQuestionAnswer {
    pub content: String,
    pub is_answer: bool,
}

/// How many of `answers` are marked correct.
pub open spec fn correct_count(answers: Seq<CreateQuizQuestionAnswer>) -> nat
    decreases answers.len(),
{
    if answers.len() == 0 {
        0
    } else {
        correct_count(answers.drop_last()) + if answers.last().is_answer { 1nat } else { 0nat }
    }
}

/// Whether some answer of `answers` is marked correct.
pub open spec fn has_correct(answers: Seq<CreateQuizQuestionAnswer>) -> bool {
    exists|i: int| 0 <= i < answers.len() && #[trigger] answers[i].is_answer
}

/// The rule a list of answers must follow for its question type: a
/// multiple-choice question has exactly one correct answer, a check-box
/// question one or more, and a text fill exactly one answer, which is correct.
pub open spec fn answers_valid_for(question_type: QuestionType, answers: Seq<CreateQuizQuestionAnswer>) -> bool {
    match question_type {
        QuestionType::MultipleChoice => answers.len() > 0 && correct_count(answers) == 1,
        QuestionType::CheckBoxes => answers.len() > 0 && has_correct(answers),
        QuestionType::TextFill => answers.len() == 1 && answers[0].is_answer,
    }
}

/// A list with a positive correct count has a correct answer, and conversely.
pub proof fn lemma_correct_count_positive(answers: Seq<CreateQuizQuestionAnswer>)
    ensures
        correct_count(answers) > 0 <==> has_correct(answers),
    decreases answers.len(),
{
    if answers.len() > 0 {
        let init = answers.drop_last();
        lemma_correct_count_positive(init);
        if has_correct(init) {
            let i = choose|i: int| 0 <= i < init.len() && #[trigger] init[i].is_answer;
            assert(answers[i].is_answer);
        }
        if has_correct(answers) && !answers.last().is_answer {
            let i = choose|i: int| 0 <= i < answers.len() && #[trigger] answers[i].is_answer;
            assert(init[i].is_answer);
        }
    }
}

/// Checks the answers of a quiz question against the rule of its type.
pub fn validate_answer(question_type: &QuestionType, answers: &[CreateQuizQuestionAnswer]) -> (valid: bool)
    ensures
        valid == answers_valid_for(*question_type, answers@),
{
    match question_type {
        QuestionType::MultipleChoice => {
            let mut count: usize = 0;
            let mut i: usize = 0;
            while i < answers.len()
                invariant
                    i <= answers.len(),
                    count == correct_count(answers@.subrange(0, i as int)),
                    count <= i,
                decreases answers.len() - i,
            {
                assert(answers@.subrange(0, i as int) =~= answers@.subrange(0, (i + 1) as int).drop_last());
                if answers[i].is_answer {
                    count = count + 1;
                }
                i = i + 1;
            }
            assert(answers@.subrange(0, answers.len() as int) =~= answers@);
            answers.len() > 0 && count == 1
        },
        QuestionType::CheckBoxes => {
            let mut found = false;
            let mut i: usize = 0;
            while i < answers.len()
                invariant
                    i <= answers.len(),
                    found == exists|j: int| 0 <= j < i && #[trigger] answers@[j].is_answer,
                decreases answers.len() - i,
            {
                if answers[i].is_answer {
                    found = true;
                }
                i = i + 1;
            }
            answers.len() > 0 && found
        },
        QuestionType::TextFill => answers.len() == 1 && answers[0].is_answer,
    }
}

/// Every list of answers that passes validation, whatever its type, holds a
/// correct answer.
pub proof fn law_valid_answers_have_a_correct_one(question_type: QuestionType, answers: Seq<CreateQuizQuestionAnswer>)
    requires
        answers_valid_for(question_type, answers),
    ensures
        has_correct(answers),
{
    lemma_correct_count_positive(answers);
    if question_type == QuestionType::TextFill {
        assert(answers[0].is_answer);
    }
}

/// The correct-answer flags of a list of answers, in order.
pub open spec fn answer_flags(answers: Seq<CreateQuizQuestionAnswer>) -> Seq<bool> {
    answers.map_values(|a: CreateQuizQuestionAnswer| a.is_answer)
}

/// The number of correct answers is the number of `true` flags.
pub proof fn lemma_correct_count_is_flag_count(answers: Seq<CreateQuizQuestionAnswer>)
    ensures
        correct_count(answers) == answer_flags(answers).to_multiset().count(true),
    decreases answers.len(),
{
    broadcast use vstd::seq_lib::group_to_multiset_ensures;
    if answers.len() == 0 {
        assert(answer_flags(answers) =~= Seq::<bool>::empty());
    } else {
        let init = answers.drop_last();
        lemma_correct_count_is_flag_count(init);
        assert(answer_flags(answers) =~= answer_flags(init).push(answers.last().is_answer));
        vstd::seq_lib::to_multiset_build(answer_flags(init), answers.last().is_answer);
    }
}

/// The rule of a question type, read on the number of answers and the
/// number of correct ones.
proof fn lemma_rule_by_counts(question_type: QuestionType, answers: Seq<CreateQuizQuestionAnswer>)
    ensures
        answers_valid_for(question_type, answers) == match question_type {
            QuestionType::MultipleChoice => answers.len() > 0 && correct_count(answers) == 1,
            QuestionType::CheckBoxes => answers.len() > 0 && correct_count(answers) > 0,
            QuestionType::TextFill => answers.len() == 1 && correct_count(answers) == 1,
        },
{
    lemma_correct_count_positive(answers);
    if answers.len() == 1 {
        assert(answers.drop_last().len() == 0);
        assert(correct_count(answers.drop_last()) == 0);
        assert(answers.last() == answers[0]);
        assert(correct_count(answers) == if answers[0].is_answer { 1nat } else { 0nat });
    }
}

/// Validation looks only at how many answers there are and which are marked
/// correct: reordering the answers, or changing their texts while keeping
/// their flags, never changes the verdict.
pub proof fn law_validation_ignores_order_and_text(
    question_type: QuestionType,
    answers: Seq<CreateQuizQuestionAnswer>,
    other: Seq<CreateQuizQuestionAnswer>,
)
    requires
        answer_flags(other).to_multiset() == answer_flags(answers).to_multiset(),
    ensures
        answers_valid_for(question_type, other) == answers_valid_for(question_type, answers),
{
    broadcast use vstd::seq_lib::group_to_multiset_ensures;
    lemma_correct_count_is_flag_count(answers);
    lemma_correct_count_is_flag_count(other);
    lemma_rule_by_counts(question_type, answers);
    lemma_rule_by_counts(question_type, other);
    vstd::seq_lib::to_multiset_len(answer_flags(answers));
    vstd::seq_lib::to_multiset_len(answer_flags(other));
    assert(answer_flags(answers).len() == answers.len());
    assert(answer_flags(other).len() == other.len());
    assert(other.len() == answers.len());
    assert(correct_count(other) == correct_count(answers));
}

} // verus!
