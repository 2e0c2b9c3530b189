use anki_exporter::batch::{card_from_responses, example_prompt, render_batch, translation_prompt};
use anki_exporter::card::{BuildError, Card};
use anki_exporter::reading::reading_field;

const TANGO_PARSE: &str = "単語\t名詞,一般,*,*,*,*,単語,タンゴ,タンゴ\nEOS\n";

#[test]
fn empty_vocab_gives_no_card() {
    let r = Card::new().example("例").translation("Example").construct(TANGO_PARSE);
    assert_eq!(r.unwrap_err(), BuildError::MissingField);
}

#[test]
fn empty_translation_gives_no_card() {
    let r = Card::new().vocab("単語").example("例").construct(TANGO_PARSE);
    assert_eq!(r.unwrap_err(), BuildError::MissingField);
}

#[test]
fn both_parts_give_non_empty_card() {
    let card = Card::new().vocab("単語").translation("Vocabulary").construct(TANGO_PARSE).unwrap();
    assert!(!card.front().is_empty());
    assert!(!card.back().is_empty());
    // An empty example keeps the line break on the front.
    assert_eq!(card.front(), "「単語」<br>");
}

#[test]
fn setters_append() {
    let card = Card::new()
        .vocab("単")
        .vocab("語")
        .translation("Vocab")
        .translation("ulary")
        .example("a")
        .example("b")
        .construct(TANGO_PARSE)
        .unwrap();
    assert_eq!(card.front(), "「単語」<br>ab");
    assert_eq!(card.back(), "<ruby>単語<rt>たんご</rt></ruby><br>Vocabulary");
}

#[test]
fn format_joins_front_and_back() {
    let card = Card::new().vocab("単語").example("E").translation("B").construct(TANGO_PARSE).unwrap();
    let expected = format!("{};{}", card.front(), card.back());
    assert_eq!(card.format_anki(), expected);
    assert_eq!(card.format_anki(), "「単語」<br>E;<ruby>単語<rt>たんご</rt></ruby><br>B");
}

#[test]
fn literal_vocabulary_scenario() {
    let card = Card::new()
        .vocab("単語")
        .example("彼は新しい単語を覚えた。")
        .translation("Vocabulary")
        .construct(TANGO_PARSE)
        .unwrap();
    assert!(card.front().contains("単語"));
    assert!(card.front().contains("彼は新しい単語を覚えた。"));
    assert!(card.back().contains("<ruby>単語<rt>たんご</rt></ruby>"));
    assert!(card.back().contains("Vocabulary"));
}

#[test]
fn parse_without_comma_is_malformed() {
    let r = Card::new().vocab("単語").translation("Vocabulary").construct("単語\tEOS\n");
    assert_eq!(r.unwrap_err(), BuildError::MalformedReading);
}

#[test]
fn reading_field_positions() {
    assert_eq!(reading_field("a,b,c"), Some("b".to_string()));
    assert_eq!(reading_field("a,b"), Some("a".to_string()));
    assert_eq!(reading_field(",x"), Some(String::new()));
    assert_eq!(reading_field("abc"), None);
    assert_eq!(reading_field(""), None);
}

#[test]
fn prompts_name_the_word() {
    assert_eq!(
        translation_prompt("単語"),
        "Please translate「単語」to english. Provide nothing but the english translation."
    );
    assert_eq!(
        example_prompt("単語"),
        "「単語」の単語を使い、日本語で例文を一つ作ってください。例文以外のものを除きなさい。"
    );
}

#[test]
fn replies_are_trimmed() {
    let card = card_from_responses("単語", "  Vocabulary\n", "\n 彼は単語を覚えた。 \n", TANGO_PARSE).unwrap();
    assert_eq!(card.front(), "「単語」<br>彼は単語を覚えた。");
    assert_eq!(card.back(), "<ruby>単語<rt>たんご</rt></ruby><br>Vocabulary");
}

#[test]
fn blank_translation_reply_gives_no_card() {
    let r = card_from_responses("単語", " \n ", "例", TANGO_PARSE);
    assert_eq!(r.unwrap_err(), BuildError::MissingField);
}

fn sample(word: &str) -> Result<Card, BuildError> {
    card_from_responses(word, "Meaning", "例文。", "x\t名詞,一般,*,*,*,*,x,カナ,カナ\nEOS\n")
}

#[test]
fn batch_of_three_successes() {
    let results = vec![sample("一"), sample("二"), sample("三")];
    let out = render_batch(&results);
    let lines: Vec<&str> = out.lines().collect();
    assert_eq!(lines.len(), 3);
    for line in &lines {
        assert_eq!(line.split(';').count(), 2);
    }
    assert_eq!(lines[0], results[0].as_ref().unwrap().format_anki());
    assert_eq!(lines[2], results[2].as_ref().unwrap().format_anki());
    assert!(out.ends_with('\n'));
}

#[test]
fn batch_with_one_failure() {
    let results = vec![sample("一"), sample(""), sample("三")];
    let out = render_batch(&results);
    let lines: Vec<&str> = out.lines().collect();
    assert_eq!(lines.len(), 2);
    assert!(lines[0].starts_with("「一」"));
    assert!(lines[1].starts_with("「三」"));
}

#[test]
fn empty_batch_is_empty_text() {
    assert_eq!(render_batch(&Vec::new()), "");
}
