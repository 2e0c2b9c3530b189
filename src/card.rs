//! Cards and the builder that assembles them.

use vstd::prelude::*;
use crate::kana::{hiragana_of, katakana_to_hiragana};
use crate::reading::{lemma_no_comma_no_field, reading_field, second_last_field};

verus! {

/// A finished flashcard: the prompt side and the answer side.
#[derive(Debug)]
pub struct Card {
    front: String,
    back: String,
}

/// Collects the parts of one card; `vocab` and `translation` are required.
#[derive(Debug)]
pub struct CardBuilder {
    tango: String,
    example_sentence: String,
    english: String,
}

/// Why no card came out of a builder.
#[derive(Debug, PartialEq, Eq, Structural)]
pub enum BuildError {
    /// The word or its translation is empty.
    MissingField,
    /// The analyzer's output holds no comma, so no reading can be read off it.
    MalformedReading,
}

/// What a card holds: the text of each side.
pub struct CardView {
    pub front: Seq<char>,
    pub back: Seq<char>,
}

/// What a builder has collected so far.
pub struct BuilderView {
    pub vocab: Seq<char>,
    pub example: Seq<char>,
    pub translation: Seq<char>,
}

impl View for Card {
    type V = CardView;

    closed spec fn view(&self) -> CardView {
        CardView { front: self.front@, back: self.back@ }
    }
}

impl View for CardBuilder {
    type V = BuilderView;

    closed spec fn view(&self) -> BuilderView {
        BuilderView {
            vocab: self.tango@,
            example: self.example_sentence@,
            translation: self.english@,
        }
    }
}

/// The word in corner brackets, a line break, then the example sentence.
pub open spec fn front_of(vocab: Seq<char>, example: Seq<char>) -> Seq<char> {
    "「"@ + vocab + "」<br>"@ + example
}

/// The word with its reading as ruby text, a line break, then the translation.
pub open spec fn back_of(vocab: Seq<char>, reading: Seq<char>, translation: Seq<char>) -> Seq<char> {
    "<ruby>"@ + vocab + "<rt>"@ + reading + "</rt></ruby><br>"@ + translation
}

/// One record: front and back joined by a semicolon.
pub open spec fn record_of(c: CardView) -> Seq<char> {
    c.front + ";"@ + c.back
}

pub open spec fn is_missing_field(b: BuilderView) -> bool {
    b.vocab.len() == 0 || b.translation.len() == 0
}

/// What a builder yields when the analyzer renders its word as `analysis`.
pub open spec fn built(b: BuilderView, analysis: Seq<char>) -> Result<CardView, BuildError> {
    if is_missing_field(b) {
        Err(BuildError::MissingField)
    } else {
        match second_last_field(analysis) {
            None => Err(BuildError::MalformedReading),
            Some(reading) => Ok(
                CardView {
                    front: front_of(b.vocab, b.example),
                    back: back_of(b.vocab, hiragana_of(reading), b.translation),
                },
            ),
        }
    }
}

pub open spec fn result_view(r: Result<Card, BuildError>) -> Result<CardView, BuildError> {
    match r {
        Ok(c) => Ok(c@),
        Err(e) => Err(e),
    }
}

impl Default for CardBuilder {
    fn default() -> (r: CardBuilder)
        ensures
            r@.vocab.len() == 0,
            r@.example.len() == 0,
            r@.translation.len() == 0,
    {
        CardBuilder { tango: String::new(), example_sentence: String::new(), english: String::new() }
    }
}

impl CardBuilder {
    /// Must have vocab: appends `tango` to the word.
    pub fn vocab(self, tango: &str) -> (r: CardBuilder)
        ensures
            r@.vocab == self@.vocab + tango@,
            r@.example == self@.example,
            r@.translation == self@.translation,
    {
        let mut b = self;
        b.tango.append(tango);
        b
    }

    /// Example sentence optional: appends `desc` to it.
    pub fn example(self, desc: &str) -> (r: CardBuilder)
        ensures
            r@.vocab == self@.vocab,
            r@.example == self@.example + desc@,
            r@.translation == self@.translation,
    {
        let mut b = self;
        b.example_sentence.append(desc);
        b
    }

    /// Must have translation: appends `english` to it.
    pub fn translation(self, english: &str) -> (r: CardBuilder)
        ensures
            r@.vocab == self@.vocab,
            r@.example == self@.example,
            r@.translation == self@.translation + english@,
    {
        let mut b = self;
        b.english.append(english);
        b
    }

    /// Assembles the card. `analysis` is the morphological analyzer's output
    /// for the word, whose second-to-last comma-separated field is the
    /// word's reading in katakana.
    pub fn construct(self, analysis: &str) -> (r: Result<Card, BuildError>)
        ensures
            result_view(r) == built(self@, analysis@),
    {
        if self.tango.as_str().is_empty() || self.english.as_str().is_empty() {
            return Err(BuildError::MissingField);
        }
        let katakana = match reading_field(analysis) {
            None => {
                return Err(BuildError::MalformedReading);
            },
            Some(f) => f,
        };
        let reading = katakana_to_hiragana(katakana.as_str());

        let mut front = String::new();
        front.append("「");
        front.append(self.tango.as_str());
        front.append("」<br>");
        front.append(self.example_sentence.as_str());

        let mut back = String::new();
        back.append("<ruby>");
        back.append(self.tango.as_str());
        back.append("<rt>");
        back.append(reading.as_str());
        back.append("</rt></ruby><br>");
        back.append(self.english.as_str());

        let card = Card { front, back };
        assert(card@.front =~= front_of(self@.vocab, self@.example));
        assert(card@.back =~= back_of(self@.vocab, hiragana_of(katakana@), self@.translation));
        Ok(card)
    }
}

impl Card {
    /// A fresh builder with every part empty.
    pub fn new() -> (r: CardBuilder)
        ensures
            r@.vocab.len() == 0,
            r@.example.len() == 0,
            r@.translation.len() == 0,
    {
        CardBuilder::default()
    }

    /// The prompt side: the word and the example sentence.
    pub fn front(&self) -> (r: &str)
        ensures
            r@ == self@.front,
    {
        self.front.as_str()
    }

    /// The answer side: the word with its reading, and the translation.
    pub fn back(&self) -> (r: &str)
        ensures
            r@ == self@.back,
    {
        self.back.as_str()
    }

    /// The card as one record: front, a semicolon, back; nothing is escaped.
    pub fn format_anki(&self) -> (r: String)
        ensures
            r@ == record_of(self@),
    {
        let mut r = String::new();
        r.append(self.front.as_str());
        r.append(";");
        r.append(self.back.as_str());
        r
    }
}

/// A builder whose word or translation is empty yields the missing-field
/// error, whatever the analyzer says. With both present, analyzer output
/// without any comma yields the malformed-reading error, and output with a
/// comma yields a card whose front and back are both non-empty.
pub proof fn lemma_construct_presence(b: BuilderView, analysis: Seq<char>)
    ensures
        b.vocab.len() == 0 ==> built(b, analysis) == Err::<CardView, BuildError>(
            BuildError::MissingField,
        ),
        b.translation.len() == 0 ==> built(b, analysis) == Err::<CardView, BuildError>(
            BuildError::MissingField,
        ),
        b.vocab.len() > 0 && b.translation.len() > 0 && !analysis.contains(',') ==> built(
            b,
            analysis,
        ) == Err::<CardView, BuildError>(BuildError::MalformedReading),
        b.vocab.len() > 0 && b.translation.len() > 0 && analysis.contains(',') ==> {
            &&& built(b, analysis) is Ok
            &&& built(b, analysis)->Ok_0.front.len() > 0
            &&& built(b, analysis)->Ok_0.back.len() > 0
        },
{
    reveal_strlit("「");
    reveal_strlit("<ruby>");
    lemma_no_comma_no_field(analysis);
}

} // verus!
