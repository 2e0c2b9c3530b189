//! The per-word generation step and the batch output, without the I/O:
//! the prompts sent to the language model, the card built from its replies,
//! and the text written out for a whole batch.

use vstd::prelude::*;
use crate::card::{built, record_of, result_view, BuildError, BuilderView, Card, CardView};

verus! {

pub open spec fn translation_prompt_of(word: Seq<char>) -> Seq<char> {
    "Please translate「"@ + word + "」to english. Provide nothing but the english translation."@
}

pub open spec fn example_prompt_of(word: Seq<char>) -> Seq<char> {
    "「"@ + word + "」の単語を使い、日本語で例文を一つ作ってください。例文以外のものを除きなさい。"@
}

/// The prompt asking for an English translation of `word`, and nothing else.
pub fn translation_prompt(word: &str) -> (r: String)
    ensures
        r@ == translation_prompt_of(word@),
{
    let mut r = String::new();
    r.append("Please translate「");
    r.append(word);
    r.append("」to english. Provide nothing but the english translation.");
    r
}

/// The prompt asking for one Japanese example sentence that uses `word`.
pub fn example_prompt(word: &str) -> (r: String)
    ensures
        r@ == example_prompt_of(word@),
{
    let mut r = String::new();
    r.append("「");
    r.append(word);
    r.append("」の単語を使い、日本語で例文を一つ作ってください。例文以外のものを除きなさい。");
    r
}

/// `s` without its leading and trailing whitespace.
pub uninterp spec fn trimmed(s: Seq<char>) -> Seq<char>;

/// Relies on str::trim: removes leading and trailing whitespace; the result
/// depends on the text alone.
#[verifier::external_body]
fn trim_text(s: &str) -> (r: &str)
    ensures
        r@ == trimmed(s@),
{
    s.trim()
}

/// The builder fed with `word` and the model's replies, the replies trimmed.
pub open spec fn responses_builder(
    word: Seq<char>,
    translation_reply: Seq<char>,
    example_reply: Seq<char>,
) -> BuilderView {
    BuilderView {
        vocab: word,
        example: trimmed(example_reply),
        translation: trimmed(translation_reply),
    }
}

/// The card for `word` from the model's two replies and the analyzer's
/// output for the word.
pub fn card_from_responses(
    word: &str,
    translation_reply: &str,
    example_reply: &str,
    analysis: &str,
) -> (r: Result<Card, BuildError>)
    ensures
        result_view(r) == built(
            responses_builder(word@, translation_reply@, example_reply@),
            analysis@,
        ),
{
    Card::new().vocab(word).example(trim_text(example_reply)).translation(
        trim_text(translation_reply),
    ).construct(analysis)
}

/// The batch output: each card's record followed by a line break, in the
/// order given; failures leave no trace.
pub open spec fn batch_text(rs: Seq<Result<CardView, BuildError>>) -> Seq<char>
    decreases rs.len(),
{
    if rs.len() == 0 {
        Seq::empty()
    } else {
        let rest = batch_text(rs.drop_last());
        match rs.last() {
            Ok(c) => rest + record_of(c) + seq!['\n'],
            Err(_) => rest,
        }
    }
}

pub open spec fn results_view(rs: Seq<Result<Card, BuildError>>) -> Seq<Result<CardView, BuildError>> {
    rs.map_values(|r: Result<Card, BuildError>| result_view(r))
}

/// The text written for a batch whose tasks ended in `results`.
pub fn render_batch(results: &Vec<Result<Card, BuildError>>) -> (r: String)
    ensures
        r@ == batch_text(results_view(results@)),
{
    let mut out = String::new();
    let mut i: usize = 0;
    while i < results.len()
        invariant
            i <= results@.len(),
            out@ == batch_text(results_view(results@.subrange(0, i as int))),
        decreases results@.len() - i,
    {
        let ghost prev = results@.subrange(0, i as int);
        assert(results_view(results@.subrange(0, i + 1)).drop_last() =~= results_view(prev));
        match &results[i] {
            Ok(card) => {
                let record = card.format_anki();
                out.append(record.as_str());
                out.append("\n");
                proof {
                    reveal_strlit("\n");
                }
            },
            Err(_) => {},
        }
        i = i + 1;
    }
    assert(results@.subrange(0, results@.len() as int) =~= results@);
    out
}

} // verus!
