//! Post-processing of extracted field text.
//!
//! Each rule is applied uniformly to the raw text a locator yielded:
//! the page count keeps the token before the first space, the
//! publication date keeps what follows the "First published" phrase
//! (or, failing that, "Published"), and the two count fields keep the
//! token before the non-breaking space with thousands separators
//! stripped and the remainder trimmed.

use vstd::prelude::*;
use crate::text::{
    chars_of, find_sub, first_match, strip_commas, strip_commas_chars, string_of, suffix_from,
    token_before, token_before_char, trim_chars, trim_of, lemma_first_match, match_at,
};

verus! {

/// The page-count rule: the token before the first space, absent when
/// that token is empty.
pub open spec fn page_count_of(s: Seq<char>) -> Option<Seq<char>> {
    if token_before(s, ' ').len() == 0 {
        None
    } else {
        Some(token_before(s, ' '))
    }
}

/// Applies [`page_count_of`] to raw text.
pub fn page_count_field(raw: &str) -> (r: Option<String>)
    ensures
        r.deep_view() == page_count_of(raw@),
{
    let v = chars_of(raw);
    let t = token_before_char(&v, ' ');
    if t.len() == 0 {
        None
    } else {
        Some(string_of(&t))
    }
}

/// The publication-date rule: everything after the first "First
/// published", trimmed; failing that, everything after the first
/// "Published", trimmed; absent when neither phrase occurs.
pub open spec fn publish_date_of(s: Seq<char>) -> Option<Seq<char>> {
    match first_match(s, "First published"@) {
        Option::Some(i) => Some(trim_of(s.skip(i + "First published"@.len()))),
        Option::None => match first_match(s, "Published"@) {
            Option::Some(i) => Some(trim_of(s.skip(i + "Published"@.len()))),
            Option::None => None,
        },
    }
}

/// Applies [`publish_date_of`] to raw text.
pub fn publish_date_field(raw: &str) -> (r: Option<String>)
    ensures
        r.deep_view() == publish_date_of(raw@),
{
    let v = chars_of(raw);
    let n = v.len();
    let first_phrase = chars_of("First published");
    match find_sub(&v, &first_phrase) {
        Some(i) => {
            proof {
                lemma_first_match(v@, first_phrase@);
                assert(match_at(v@, first_phrase@, i as int));
                assert(i + first_phrase@.len() <= n);
            }
            let rest = suffix_from(&v, i + first_phrase.len());
            let t = trim_chars(&rest);
            Some(string_of(&t))
        },
        None => {
            let second_phrase = chars_of("Published");
            match find_sub(&v, &second_phrase) {
                Some(i) => {
                    proof {
                        lemma_first_match(v@, second_phrase@);
                        assert(match_at(v@, second_phrase@, i as int));
                        assert(i + second_phrase@.len() <= n);
                    }
                    let rest = suffix_from(&v, i + second_phrase.len());
                    let t = trim_chars(&rest);
                    Some(string_of(&t))
                },
                None => None,
            }
        },
    }
}

/// The count rule for rating and review tallies: the token before the
/// first non-breaking space, with commas stripped and the remainder
/// trimmed.
pub open spec fn count_of(s: Seq<char>) -> Seq<char> {
    trim_of(strip_commas(token_before(s, '\u{a0}')))
}

/// Applies [`count_of`] to raw text.
pub fn count_field(raw: &str) -> (r: String)
    ensures
        r@ == count_of(raw@),
{
    let v = chars_of(raw);
    let t = token_before_char(&v, '\u{a0}');
    let stripped = strip_commas_chars(&t);
    let trimmed = trim_chars(&stripped);
    string_of(&trimmed)
}

} // verus!
