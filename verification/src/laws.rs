//! The general laws of the question builder, stated over the spec
//! functions that the builders' contracts use, and proved once for all
//! inputs.

use vstd::prelude::*;
use crate::questions::answer_option_matches;
use crate::questions::contains_verb;
use crate::questions::entry_answer_texts;
use crate::questions::entry_prompts;
use crate::questions::feedback_text;
use crate::questions::question_matches;
use crate::questions::tense_template;
use crate::questions::verb_answer_texts;
use crate::questions::verb_prompts;
use crate::questions::Question;
use crate::text::lemma_split_commas_len;
use crate::text::remove_i_spec;
use crate::text::split_commas_spec;
use crate::text::trim_spec;

verus! {

/// Law: a non-verb entry produces exactly one question; its prompt is the
/// source text unmodified, and it carries one answer option per
/// comma-separated segment of the meaning text — at least one, even when
/// the meaning text is empty.
pub proof fn lemma_non_verb_shape(greek: Seq<char>, part_of_speech: Seq<char>, english: Seq<char>)
    requires
        !contains_verb(part_of_speech),
    ensures
        entry_prompts(greek, part_of_speech).len() == 1,
        entry_prompts(greek, part_of_speech)[0] == greek,
        entry_answer_texts(part_of_speech, english, 0).len() == split_commas_spec(english).len(),
        entry_answer_texts(part_of_speech, english, 0).len() >= 1,
{
    lemma_split_commas_len(english);
}

/// Law: a verb entry produces as many questions as the source text, after
/// removal of every `"I "`, has comma-separated segments, capped at four —
/// and never zero.
pub proof fn lemma_verb_count(greek: Seq<char>)
    ensures
        split_commas_spec(remove_i_spec(greek)).len() <= 4 ==> verb_prompts(greek).len()
            == split_commas_spec(remove_i_spec(greek)).len(),
        split_commas_spec(remove_i_spec(greek)).len() > 4 ==> verb_prompts(greek).len() == 4,
        verb_prompts(greek).len() >= 1,
{
    lemma_split_commas_len(remove_i_spec(greek));
}

/// Law: in the question of tense slot `slot` of a verb entry, the answer
/// texts are the slot's template applied to each trimmed synonym of the
/// meaning text, in synonym order.
pub proof fn lemma_verb_templates(english: Seq<char>, slot: int)
    ensures
        verb_answer_texts(english, slot).len() == split_commas_spec(english).len(),
        forall|i: int|
            0 <= i < split_commas_spec(english).len() ==> verb_answer_texts(english, slot)[i]
                == tense_template(slot, trim_spec(#[trigger] split_commas_spec(english)[i])),
{
}

/// Law: the builder is deterministic — any two questions that meet the
/// same prompt-and-texts description agree in prompt, option count, and
/// in every option's credit, answer text and feedback. Two runs on
/// identical inputs therefore produce structurally identical output.
pub proof fn lemma_builder_deterministic(
    q1: Question,
    q2: Question,
    prompt: Seq<char>,
    texts: Seq<Seq<char>>,
)
    requires
        question_matches(q1, prompt, texts),
        question_matches(q2, prompt, texts),
    ensures
        q1.greek@ == q2.greek@,
        q1.answers@.len() == q2.answers@.len(),
        forall|i: int|
            0 <= i < q1.answers@.len() ==> #[trigger] q1.answers@[i].mark == q2.answers@[i].mark
                && q1.answers@[i].answer@ == q2.answers@[i].answer@
                && q1.answers@[i].feedback@ == q2.answers@[i].feedback@,
{
}

/// Law: every answer option of a produced question carries full credit
/// (100) and the fixed feedback text, whatever the entry was.
pub proof fn lemma_full_credit(q: Question, prompt: Seq<char>, texts: Seq<Seq<char>>)
    requires
        question_matches(q, prompt, texts),
    ensures
        forall|i: int|
            0 <= i < q.answers@.len() ==> (#[trigger] q.answers@[i]).mark == 100
                && q.answers@[i].feedback@ == feedback_text(),
{
    assert forall|i: int| 0 <= i < q.answers@.len() implies (#[trigger] q.answers@[i]).mark == 100
        && q.answers@[i].feedback@ == feedback_text() by {
        assert(answer_option_matches(q.answers@[i], texts[i]));
    }
}

} // verus!
