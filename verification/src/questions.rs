//! The question builder: turns one vocabulary entry into quiz question
//! records. An entry whose part-of-speech label contains `"verb"` expands
//! into up to four tense-specific questions; any other entry expands into
//! one question with one answer option per comma-separated synonym.

use vstd::prelude::*;
use vstd::string::StringExecFns;
use crate::text::lemma_split_commas_len;
use crate::text::remove_i;
use crate::text::remove_i_spec;
use crate::text::split_commas;
use crate::text::split_commas_spec;
use crate::text::trim_spec;
use crate::text::trim_str;

verus! {

/// One acceptable answer for a question: the credit awarded (a
/// percentage), the accepted text, and the feedback shown on a match.
pub struct AnswerOption {
    pub mark: u8,
    pub answer: String,
    pub feedback: String,
}

/// One quiz question: the Greek prompt and its acceptable answers.
pub struct Question {
    pub greek: String,
    pub answers: Vec<AnswerOption>,
}

/// One vocabulary entry: Greek text, part-of-speech label, and English
/// meaning text (one or more comma-separated synonyms).
pub struct Record {
    pub greek: String,
    pub part_of_speech: String,
    pub english: String,
}

/// The feedback text every produced answer option carries.
pub open spec fn feedback_text() -> Seq<char> {
    "Well done!"@
}

/// What one produced answer option must look like: full credit, the given
/// text, and the fixed feedback.
pub open spec fn answer_option_matches(o: AnswerOption, text: Seq<char>) -> bool {
    &&& o.mark == 100
    &&& o.answer@ == text
    &&& o.feedback@ == feedback_text()
}

/// What one produced question must look like: the given prompt and one
/// answer option per given text, in order.
pub open spec fn question_matches(q: Question, prompt: Seq<char>, texts: Seq<Seq<char>>) -> bool {
    &&& q.greek@ == prompt
    &&& q.answers@.len() == texts.len()
    &&& forall|i: int|
        0 <= i < texts.len() ==> answer_option_matches(#[trigger] q.answers@[i], texts[i])
}

/// The trimmed comma-separated segments of the meaning text: the answer
/// texts of a non-verb entry, and the synonyms a verb entry's templates
/// are applied to.
pub open spec fn non_verb_answer_texts(english: Seq<char>) -> Seq<Seq<char>> {
    split_commas_spec(english).map_values(|p: Seq<char>| trim_spec(p))
}

/// The answer-text template of one tense slot applied to one trimmed
/// synonym: present, future, aorist, and aorist passive.
pub open spec fn tense_template(slot: int, w: Seq<char>) -> Seq<char> {
    if slot == 0 {
        "I "@ + w
    } else if slot == 1 {
        "I'll "@ + w
    } else if slot == 2 {
        "I "@ + w + "ed"@
    } else {
        "I was "@ + w + "ed"@
    }
}

/// The prompts of a verb entry: the comma-separated segments of the
/// source text after removal of every `"I "`, trimmed, the first four at
/// most.
pub open spec fn verb_prompts(greek: Seq<char>) -> Seq<Seq<char>> {
    let parts = split_commas_spec(remove_i_spec(greek));
    let n: int = if parts.len() <= 4 {
        parts.len() as int
    } else {
        4
    };
    Seq::new(n as nat, |slot: int| trim_spec(parts[slot]))
}

/// The answer texts of one tense slot of a verb entry: the slot's
/// template applied to each trimmed synonym, in synonym order.
pub open spec fn verb_answer_texts(english: Seq<char>, slot: int) -> Seq<Seq<char>> {
    non_verb_answer_texts(english).map_values(|w: Seq<char>| tense_template(slot, w))
}

/// The substring `"verb"` stands at position `i` of the label.
pub open spec fn verb_at(s: Seq<char>, i: int) -> bool {
    &&& 0 <= i
    &&& i + 4 <= s.len()
    &&& s[i] == 'v'
    &&& s[i + 1] == 'e'
    &&& s[i + 2] == 'r'
    &&& s[i + 3] == 'b'
}

/// The label contains the substring `"verb"` (case-sensitive).
pub open spec fn contains_verb(s: Seq<char>) -> bool {
    exists|i: int| verb_at(s, i)
}

/// The two-way classification of a part-of-speech label.
pub enum PartKind {
    Verb,
    Other,
}

/// Classifies a free-text part-of-speech label: `Verb` exactly when the
/// label contains the substring `"verb"`.
pub fn classify(part_of_speech: &str) -> (kind: PartKind)
    ensures
        kind == PartKind::Verb <==> contains_verb(part_of_speech@),
{
    let n = part_of_speech.unicode_len();
    if n < 4 {
        return PartKind::Other;
    }
    let mut i: usize = 0;
    while i <= n - 4
        invariant
            4 <= n == part_of_speech@.len(),
            i <= n - 3,
            forall|j: int| 0 <= j < i ==> !verb_at(part_of_speech@, j),
        decreases n - i,
    {
        if part_of_speech.get_char(i) == 'v' && part_of_speech.get_char(i + 1) == 'e'
            && part_of_speech.get_char(i + 2) == 'r' && part_of_speech.get_char(i + 3) == 'b' {
            proof {
                assert(verb_at(part_of_speech@, i as int));
            }
            return PartKind::Verb;
        }
        i = i + 1;
    }
    PartKind::Other
}

/// One answer option with full credit and the fixed feedback.
fn make_option(answer: String) -> (o: AnswerOption)
    ensures
        answer_option_matches(o, answer@),
{
    AnswerOption { mark: 100, answer, feedback: String::from_str("Well done!") }
}

/// Builds the single question of a non-verb entry — prompt the source
/// text unmodified, one option per trimmed comma-separated synonym — and
/// appends it to the caller's list.
pub fn build_non_verb(questions: &mut Vec<Question>, greek: String, english: String)
    ensures
        final(questions)@.len() == old(questions)@.len() + 1,
        forall|i: int|
            0 <= i < old(questions)@.len() ==> final(questions)@[i] == old(questions)@[i],
        question_matches(
            final(questions)@[old(questions)@.len() as int],
            greek@,
            non_verb_answer_texts(english@),
        ),
{
    let parts = split_commas(english.as_str());
    let mut answers: Vec<AnswerOption> = Vec::new();
    let mut k: usize = 0;
    while k < parts.len()
        invariant
            k <= parts.len(),
            parts.deep_view() == split_commas_spec(english@),
            answers@.len() == k,
            forall|i: int|
                0 <= i < k ==> answer_option_matches(
                    #[trigger] answers@[i],
                    non_verb_answer_texts(english@)[i],
                ),
        decreases parts.len() - k,
    {
        let t = trim_str(parts[k].as_str());
        proof {
            assert(parts.deep_view()[k as int] == parts@[k as int]@);
            assert(non_verb_answer_texts(english@)[k as int] == trim_spec(
                split_commas_spec(english@)[k as int],
            ));
        }
        answers.push(make_option(t));
        k = k + 1;
    }
    questions.push(Question { greek, answers });
}

/// The answer options of one tense slot: the slot's template applied to
/// each trimmed synonym, in order.
fn tense_options(terms: &Vec<String>, slot: usize) -> (answers: Vec<AnswerOption>)
    requires
        slot < 4,
    ensures
        answers@.len() == terms.deep_view().len(),
        forall|i: int|
            0 <= i < answers@.len() ==> answer_option_matches(
                #[trigger] answers@[i],
                tense_template(slot as int, trim_spec(terms.deep_view()[i])),
            ),
{
    let mut answers: Vec<AnswerOption> = Vec::new();
    let mut k: usize = 0;
    while k < terms.len()
        invariant
            slot < 4,
            k <= terms.len(),
            terms.deep_view().len() == terms@.len(),
            answers@.len() == k,
            forall|i: int|
                0 <= i < k ==> answer_option_matches(
                    #[trigger] answers@[i],
                    tense_template(slot as int, trim_spec(terms.deep_view()[i])),
                ),
        decreases terms.len() - k,
    {
        let w = trim_str(terms[k].as_str());
        let answer = tense_answer(w.as_str(), slot);
        proof {
            assert(terms.deep_view()[k as int] == terms@[k as int]@);
        }
        answers.push(make_option(answer));
        k = k + 1;
    }
    answers
}

/// One tense-transformed answer text.
fn tense_answer(w: &str, slot: usize) -> (r: String)
    requires
        slot < 4,
    ensures
        r@ == tense_template(slot as int, w@),
{
    if slot == 0 {
        String::from_str("I ").concat(w)
    } else if slot == 1 {
        String::from_str("I'll ").concat(w)
    } else if slot == 2 {
        String::from_str("I ").concat(w).concat("ed")
    } else {
        String::from_str("I was ").concat(w).concat("ed")
    }
}

/// Builds the tense-specific questions of a verb entry — one per
/// comma-separated segment of the source text after removal of `"I "`,
/// four at most, in slot order — and appends them to the caller's list.
pub fn build_verb(questions: &mut Vec<Question>, greek: String, english: String)
    ensures
        final(questions)@.len() == old(questions)@.len() + verb_prompts(greek@).len(),
        forall|i: int|
            0 <= i < old(questions)@.len() ==> final(questions)@[i] == old(questions)@[i],
        forall|slot: int|
            0 <= slot < verb_prompts(greek@).len() ==> question_matches(
                #[trigger] final(questions)@[old(questions)@.len() + slot],
                verb_prompts(greek@)[slot],
                verb_answer_texts(english@, slot),
            ),
{
    let terms = split_commas(english.as_str());
    let cleaned = remove_i(greek.as_str());
    let parts = split_commas(cleaned.as_str());
    proof {
        lemma_split_commas_len(remove_i_spec(greek@));
        assert(parts.deep_view() == split_commas_spec(remove_i_spec(greek@)));
    }
    let prompt = trim_str(parts[0].as_str());
    let answers = tense_options(&terms, 0);
    proof {
        assert(parts.deep_view()[0] == parts@[0]@);
        assert(verb_prompts(greek@)[0] == trim_spec(parts.deep_view()[0]));
        lemma_texts_agree(english@, terms.deep_view(), 0);
    }
    questions.push(Question { greek: prompt, answers });
    if parts.len() > 1 {
        let prompt = trim_str(parts[1].as_str());
        let answers = tense_options(&terms, 1);
        proof {
            assert(parts.deep_view()[1] == parts@[1]@);
            lemma_texts_agree(english@, terms.deep_view(), 1);
        }
        questions.push(Question { greek: prompt, answers });
    }
    if parts.len() > 2 {
        let prompt = trim_str(parts[2].as_str());
        let answers = tense_options(&terms, 2);
        proof {
            assert(parts.deep_view()[2] == parts@[2]@);
            lemma_texts_agree(english@, terms.deep_view(), 2);
        }
        questions.push(Question { greek: prompt, answers });
    }
    if parts.len() > 3 {
        let prompt = trim_str(parts[3].as_str());
        let answers = tense_options(&terms, 3);
        proof {
            assert(parts.deep_view()[3] == parts@[3]@);
            lemma_texts_agree(english@, terms.deep_view(), 3);
        }
        questions.push(Question { greek: prompt, answers });
    }
}

/// For segments that came from splitting the meaning text, the per-slot
/// option description used while building agrees with `verb_answer_texts`.
proof fn lemma_texts_agree(english: Seq<char>, terms: Seq<Seq<char>>, slot: int)
    requires
        terms == split_commas_spec(english),
    ensures
        verb_answer_texts(english, slot).len() == terms.len(),
        forall|i: int|
            0 <= i < terms.len() ==> verb_answer_texts(english, slot)[i] == tense_template(
                slot,
                trim_spec(terms[i]),
            ),
{
}

/// The prompts of the questions one entry produces: for a verb label the
/// tense prompts, otherwise the source text alone.
pub open spec fn entry_prompts(greek: Seq<char>, part_of_speech: Seq<char>) -> Seq<Seq<char>> {
    if contains_verb(part_of_speech) {
        verb_prompts(greek)
    } else {
        seq![greek]
    }
}

/// The answer texts of the question at `slot` of one entry.
pub open spec fn entry_answer_texts(
    part_of_speech: Seq<char>,
    english: Seq<char>,
    slot: int,
) -> Seq<Seq<char>> {
    if contains_verb(part_of_speech) {
        verb_answer_texts(english, slot)
    } else {
        non_verb_answer_texts(english)
    }
}

/// Builds the questions of one vocabulary entry and appends them, in
/// order, to the caller's accumulating list.
pub fn build_questions(questions: &mut Vec<Question>, record: Record)
    ensures
        final(questions)@.len() == old(questions)@.len() + entry_prompts(
            record.greek@,
            record.part_of_speech@,
        ).len(),
        forall|i: int|
            0 <= i < old(questions)@.len() ==> final(questions)@[i] == old(questions)@[i],
        forall|slot: int|
            0 <= slot < entry_prompts(record.greek@, record.part_of_speech@).len()
                ==> question_matches(
                #[trigger] final(questions)@[old(questions)@.len() + slot],
                entry_prompts(record.greek@, record.part_of_speech@)[slot],
                entry_answer_texts(record.part_of_speech@, record.english@, slot),
            ),
{
    let Record { greek, part_of_speech, english } = record;
    match classify(part_of_speech.as_str()) {
        PartKind::Verb => build_verb(questions, greek, english),
        PartKind::Other => build_non_verb(questions, greek, english),
    }
}

} // verus!
