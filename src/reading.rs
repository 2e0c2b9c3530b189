//! Picking the reading out of the analyzer's text output.
//!
//! The default output schema lists a token's features separated by commas,
//! with the reading as the second field from the end.

use vstd::prelude::*;

verus! {

/// Position of the last comma strictly before `end`, or -1 where there is none.
pub open spec fn last_comma_before(s: Seq<char>, end: int) -> int
    decreases end,
{
    if end <= 0 {
        -1
    } else if s[end - 1] == ',' {
        end - 1
    } else {
        last_comma_before(s, end - 1)
    }
}

/// The second field from the end, counting comma-separated fields; there is
/// one only where the text holds at least one comma.
pub open spec fn second_last_field(s: Seq<char>) -> Option<Seq<char>> {
    let k = last_comma_before(s, s.len() as int);
    if k < 0 {
        None
    } else {
        Some(s.subrange(last_comma_before(s, k) + 1, k))
    }
}

pub proof fn lemma_last_comma_bounds(s: Seq<char>, end: int)
    requires
        0 <= end <= s.len(),
    ensures
        -1 <= last_comma_before(s, end) < end,
        last_comma_before(s, end) >= 0 ==> s[last_comma_before(s, end)] == ',',
    decreases end,
{
    if end > 0 && s[end - 1] != ',' {
        lemma_last_comma_bounds(s, end - 1);
    }
}

/// A reading field exists exactly where the text holds a comma.
pub proof fn lemma_no_comma_no_field(s: Seq<char>)
    ensures
        second_last_field(s) is Some <==> s.contains(','),
{
    lemma_last_comma_bounds(s, s.len() as int);
    if s.contains(',') {
        let i = choose|i: int| 0 <= i < s.len() && s[i] == ',';
        lemma_comma_found(s, s.len() as int, i);
    }
}

proof fn lemma_comma_found(s: Seq<char>, end: int, i: int)
    requires
        0 <= i < end <= s.len(),
        s[i] == ',',
    ensures
        last_comma_before(s, end) >= i,
    decreases end,
{
    if s[end - 1] != ',' {
        lemma_comma_found(s, end - 1, i);
    }
}

fn last_comma_index(s: &str, end: usize) -> (r: Option<usize>)
    requires
        end <= s@.len(),
    ensures
        match r {
            Some(k) => last_comma_before(s@, end as int) == k as int,
            None => last_comma_before(s@, end as int) == -1,
        },
{
    let mut j: usize = end;
    while j > 0
        invariant
            j <= end <= s@.len(),
            last_comma_before(s@, end as int) == last_comma_before(s@, j as int),
        decreases j,
    {
        if s.get_char(j - 1) == ',' {
            return Some(j - 1);
        }
        j = j - 1;
    }
    None
}

/// The second-to-last comma-separated field of `parse`, or `None` where
/// `parse` holds no comma at all.
pub fn reading_field(parse: &str) -> (r: Option<String>)
    ensures
        match r {
            Some(f) => second_last_field(parse@) == Some(f@),
            None => second_last_field(parse@) is None,
        },
{
    let n = parse.unicode_len();
    match last_comma_index(parse, n) {
        None => None,
        Some(k) => {
            proof {
                lemma_last_comma_bounds(parse@, n as int);
                lemma_last_comma_bounds(parse@, k as int);
            }
            let start: usize = match last_comma_index(parse, k) {
                Some(a) => a + 1,
                None => 0,
            };
            let field = parse.substring_char(start, k);
            Some(field.to_string())
        },
    }
}

} // verus!
