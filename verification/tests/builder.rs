use greek_vocab_test_maker::build_non_verb;
use greek_vocab_test_maker::build_questions;
use greek_vocab_test_maker::build_verb;
use greek_vocab_test_maker::classify;
use greek_vocab_test_maker::PartKind;
use greek_vocab_test_maker::Question;
use greek_vocab_test_maker::Record;

fn record(greek: &str, pos: &str, english: &str) -> Record {
    Record {
        greek: greek.to_string(),
        part_of_speech: pos.to_string(),
        english: english.to_string(),
    }
}

fn answer_texts(q: &Question) -> Vec<&str> {
    q.answers.iter().map(|o| o.answer.as_str()).collect()
}

#[test]
fn noun_single_meaning() {
    let mut qs: Vec<Question> = Vec::new();
    build_questions(&mut qs, record("σκύλος", "noun", "dog"));
    assert_eq!(qs.len(), 1);
    assert_eq!(qs[0].greek, "σκύλος");
    assert_eq!(answer_texts(&qs[0]), vec!["dog"]);
}

#[test]
fn noun_two_synonyms() {
    let mut qs: Vec<Question> = Vec::new();
    build_questions(&mut qs, record("σκύλος", "noun", "dog, hound"));
    assert_eq!(qs.len(), 1);
    assert_eq!(answer_texts(&qs[0]), vec!["dog", "hound"]);
}

#[test]
fn verb_two_tenses() {
    let mut qs: Vec<Question> = Vec::new();
    build_questions(&mut qs, record("Τρώω, Θα φάω", "verb", "eat"));
    assert_eq!(qs.len(), 2);
    assert_eq!(qs[0].greek, "Τρώω");
    assert_eq!(answer_texts(&qs[0]), vec!["I eat"]);
    assert_eq!(qs[1].greek, "Θα φάω");
    assert_eq!(answer_texts(&qs[1]), vec!["I'll eat"]);
}

#[test]
fn verb_first_person_marker_removed() {
    let mut qs: Vec<Question> = Vec::new();
    build_questions(&mut qs, record("I Τρώω", "verb", "eat, consume"));
    assert_eq!(qs.len(), 1);
    assert_eq!(qs[0].greek, "Τρώω");
    assert_eq!(answer_texts(&qs[0]), vec!["I eat", "I consume"]);
}

#[test]
fn verb_fifth_segment_ignored() {
    let mut qs: Vec<Question> = Vec::new();
    build_questions(&mut qs, record("a, b, c, d, e", "verb", "go"));
    assert_eq!(qs.len(), 4);
    assert_eq!(qs[0].greek, "a");
    assert_eq!(qs[1].greek, "b");
    assert_eq!(qs[2].greek, "c");
    assert_eq!(qs[3].greek, "d");
    assert_eq!(answer_texts(&qs[0]), vec!["I go"]);
    assert_eq!(answer_texts(&qs[1]), vec!["I'll go"]);
    assert_eq!(answer_texts(&qs[2]), vec!["I goed"]);
    assert_eq!(answer_texts(&qs[3]), vec!["I was goed"]);
}

#[test]
fn builder_is_idempotent() {
    let mut first: Vec<Question> = Vec::new();
    let mut second: Vec<Question> = Vec::new();
    for qs in [&mut first, &mut second] {
        build_questions(qs, record("Τρώω, Θα φάω, έφαγα", "verb", "eat, consume"));
        build_questions(qs, record("σκύλος", "noun", "dog, hound"));
    }
    assert_eq!(first.len(), second.len());
    for (a, b) in first.iter().zip(second.iter()) {
        assert_eq!(a.greek, b.greek);
        assert_eq!(a.answers.len(), b.answers.len());
        for (x, y) in a.answers.iter().zip(b.answers.iter()) {
            assert_eq!(x.mark, y.mark);
            assert_eq!(x.answer, y.answer);
            assert_eq!(x.feedback, y.feedback);
        }
    }
}

#[test]
fn full_credit_and_fixed_feedback() {
    let mut qs: Vec<Question> = Vec::new();
    build_questions(&mut qs, record("Τρώω, Θα φάω", "verb", "eat, consume"));
    build_questions(&mut qs, record("σκύλος", "noun", "dog, hound, mutt"));
    for q in &qs {
        for o in &q.answers {
            assert_eq!(o.mark, 100);
            assert_eq!(o.feedback, "Well done!");
        }
    }
}

#[test]
fn non_verb_question_and_option_counts() {
    let mut qs: Vec<Question> = Vec::new();
    build_non_verb(&mut qs, "x".to_string(), "a,b,c".to_string());
    assert_eq!(qs.len(), 1);
    assert_eq!(qs[0].answers.len(), 3);
}

#[test]
fn non_verb_empty_meaning_keeps_one_empty_option() {
    let mut qs: Vec<Question> = Vec::new();
    build_non_verb(&mut qs, "x".to_string(), "".to_string());
    assert_eq!(qs.len(), 1);
    assert_eq!(answer_texts(&qs[0]), vec![""]);
}

#[test]
fn non_verb_prompt_is_unmodified() {
    let mut qs: Vec<Question> = Vec::new();
    build_non_verb(&mut qs, "  σκύλος  ".to_string(), " dog ".to_string());
    assert_eq!(qs[0].greek, "  σκύλος  ");
    assert_eq!(answer_texts(&qs[0]), vec!["dog"]);
}

#[test]
fn verb_count_is_capped_segment_count() {
    for (greek, expected) in [("a", 1), ("a,b", 2), ("a,b,c", 3), ("a,b,c,d", 4), ("a,b,c,d,e,f", 4)]
    {
        let mut qs: Vec<Question> = Vec::new();
        build_verb(&mut qs, greek.to_string(), "go".to_string());
        assert_eq!(qs.len(), expected);
    }
}

#[test]
fn verb_empty_source_still_one_question() {
    let mut qs: Vec<Question> = Vec::new();
    build_verb(&mut qs, "".to_string(), "go".to_string());
    assert_eq!(qs.len(), 1);
    assert_eq!(qs[0].greek, "");
    assert_eq!(answer_texts(&qs[0]), vec!["I go"]);
}

#[test]
fn verb_empty_meaning_applies_template_to_empty_synonym() {
    let mut qs: Vec<Question> = Vec::new();
    build_verb(&mut qs, "a,b".to_string(), "".to_string());
    assert_eq!(qs.len(), 2);
    assert_eq!(answer_texts(&qs[0]), vec!["I "]);
    assert_eq!(answer_texts(&qs[1]), vec!["I'll "]);
}

#[test]
fn verb_marker_removed_everywhere() {
    let mut qs: Vec<Question> = Vec::new();
    build_verb(&mut qs, "I a,I b".to_string(), "go".to_string());
    assert_eq!(qs.len(), 2);
    assert_eq!(qs[0].greek, "a");
    assert_eq!(qs[1].greek, "b");
    let mut qs2: Vec<Question> = Vec::new();
    build_verb(&mut qs2, "I I x".to_string(), "go".to_string());
    assert_eq!(qs2[0].greek, "x");
}

#[test]
fn verb_synonyms_trimmed_before_template() {
    let mut qs: Vec<Question> = Vec::new();
    build_verb(&mut qs, " a , b ".to_string(), " eat ,  consume ".to_string());
    assert_eq!(qs.len(), 2);
    assert_eq!(qs[0].greek, "a");
    assert_eq!(qs[1].greek, "b");
    assert_eq!(answer_texts(&qs[0]), vec!["I eat", "I consume"]);
    assert_eq!(answer_texts(&qs[1]), vec!["I'll eat", "I'll consume"]);
}

#[test]
fn classification_is_by_substring() {
    assert!(matches!(classify("verb"), PartKind::Verb));
    assert!(matches!(classify("transitive verb"), PartKind::Verb));
    assert!(matches!(classify("adverb"), PartKind::Verb));
    assert!(matches!(classify("noun"), PartKind::Other));
    assert!(matches!(classify("Verb"), PartKind::Other));
    assert!(matches!(classify(""), PartKind::Other));
    assert!(matches!(classify("ver"), PartKind::Other));
}

#[test]
fn adverb_expands_as_verb() {
    let mut qs: Vec<Question> = Vec::new();
    build_questions(&mut qs, record("γρήγορα, αύριο", "adverb", "quickly"));
    assert_eq!(qs.len(), 2);
    assert_eq!(answer_texts(&qs[0]), vec!["I quickly"]);
    assert_eq!(answer_texts(&qs[1]), vec!["I'll quickly"]);
}

#[test]
fn questions_accumulate_in_entry_order() {
    let mut qs: Vec<Question> = Vec::new();
    build_questions(&mut qs, record("σκύλος", "noun", "dog"));
    build_questions(&mut qs, record("Τρώω, Θα φάω", "verb", "eat"));
    build_questions(&mut qs, record("γάτα", "noun", "cat"));
    assert_eq!(qs.len(), 4);
    assert_eq!(qs[0].greek, "σκύλος");
    assert_eq!(qs[1].greek, "Τρώω");
    assert_eq!(qs[2].greek, "Θα φάω");
    assert_eq!(qs[3].greek, "γάτα");
}
