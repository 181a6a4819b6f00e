//! The field extractor, the detail-page parser and the listing parser.
//!
//! [`crate::html::string_selector`] is the field extractor: it yields
//! the first matching node's text or absence, and absence is an
//! expected, recoverable condition, never a failure.  [`extract_all`]
//! is its every-match variant, used for the genre list, which drops
//! the expand-affordance placeholder that is never real genre data.
//! [`parse_book`] runs the extractor over the locator table and
//! accepts a record only when every scalar field is present.
//! [`get_book_urls_from_list`] reads the detail-page links out of one
//! listing page, skipping anchors that lack the reference attribute.

use vstd::prelude::*;
use vstd::string::StringExecFns;
use scraper::Html;
use crate::book::{Book, BookV};
use crate::fields::{count_field, count_of, page_count_field, page_count_of, publish_date_field,
    publish_date_of};
use crate::html::{node_attrs, node_texts, select_attrs, select_texts, string_selector};
use crate::locators::{LocatorTable, LocatorTableV};
use crate::text::{chars_eq, chars_of};

verus! {

/// The text a locator extracts from `doc`: the first matching node's
/// text, or absence when nothing matches.
pub open spec fn extracted(doc: Html, selector: Seq<char>) -> Option<Seq<char>> {
    if node_texts(doc, selector).len() == 0 {
        None
    } else {
        Some(node_texts(doc, selector)[0])
    }
}

/// Whether a genre text is the expand-affordance placeholder rather
/// than a genre.
pub open spec fn is_sentinel(g: Seq<char>) -> bool {
    g == "...more"@ || g == "\u{2026}more"@
}

/// `texts` with every placeholder dropped, in order.
pub open spec fn kept_genres(texts: Seq<Seq<char>>) -> Seq<Seq<char>>
    decreases texts.len(),
{
    if texts.len() == 0 {
        texts
    } else if is_sentinel(texts.last()) {
        kept_genres(texts.drop_last())
    } else {
        kept_genres(texts.drop_last()).push(texts.last())
    }
}

/// Dropping the placeholder leaves a genre list without it untouched:
/// for texts holding no placeholder, [`kept_genres`] is the identity.
pub proof fn lemma_kept_genres_unaffected(texts: Seq<Seq<char>>)
    requires
        forall|i: int| 0 <= i < texts.len() ==> !is_sentinel(#[trigger] texts[i]),
    ensures
        kept_genres(texts) == texts,
    decreases texts.len(),
{
    if texts.len() > 0 {
        lemma_kept_genres_unaffected(texts.drop_last());
        assert(!is_sentinel(texts[texts.len() - 1]));
        assert(texts.drop_last().push(texts.last()) =~= texts);
    }
}

/// Every matching node's text, in document order, minus the
/// expand-affordance placeholder.
pub fn extract_all(html: &Html, selector: &str) -> (r: Vec<String>)
    ensures
        r.deep_view() == kept_genres(node_texts(*html, selector@)),
        forall|i: int| 0 <= i < r.deep_view().len() ==> !is_sentinel(r.deep_view()[i]),
{
    let texts = select_texts(html, selector);
    let dots = chars_of("...more");
    let ellipsis = chars_of("\u{2026}more");
    let mut r: Vec<String> = Vec::new();
    let mut i: usize = 0;
    proof {
        assert(texts.deep_view().take(0) =~= Seq::<Seq<char>>::empty());
        assert(texts.deep_view().len() == texts@.len());
    }
    while i < texts.len()
        invariant
            i <= texts@.len(),
            texts.deep_view().len() == texts@.len(),
            texts.deep_view() == node_texts(*html, selector@),
            dots@ == "...more"@,
            ellipsis@ == "\u{2026}more"@,
            r.deep_view() == kept_genres(texts.deep_view().take(i as int)),
            forall|j: int| 0 <= j < r.deep_view().len() ==> !is_sentinel(r.deep_view()[j]),
        decreases texts@.len() - i,
    {
        let g = chars_of(texts[i].as_str());
        proof {
            assert(g@ == texts.deep_view()[i as int]);
            assert(texts.deep_view().take(i + 1).drop_last() =~= texts.deep_view().take(i as int));
            assert(texts.deep_view().take(i + 1).last() == texts.deep_view()[i as int]);
        }
        if !chars_eq(&g, &dots) && !chars_eq(&g, &ellipsis) {
            r.push(string_of_vec(&texts, i));
            proof {
                assert(r.deep_view() =~= kept_genres(texts.deep_view().take(i + 1)));
            }
        }
        i = i + 1;
    }
    proof {
        assert(texts.deep_view().take(texts@.len() as int) =~= texts.deep_view());
    }
    r
}

/// A copy of entry `i` of `v`.
fn string_of_vec(v: &Vec<String>, i: usize) -> (r: String)
    requires
        i < v@.len(),
    ensures
        r@ == v@[i as int]@,
{
    v[i].clone()
}

/// The parse of one detail page: runs the field extractor over the
/// locator table, applies each field's post-processing rule, and
/// accepts the record only when every scalar field is present.  The
/// genre list never gates acceptance.
pub open spec fn spec_parse_book(doc: Html, locs: LocatorTableV) -> Option<BookV> {
    let title = extracted(doc, locs.title);
    let author = extracted(doc, locs.author);
    let rating = extracted(doc, locs.rating);
    let pages = match extracted(doc, locs.pages) {
        Option::Some(s) => page_count_of(s),
        Option::None => None,
    };
    let date = match extracted(doc, locs.publication) {
        Option::Some(s) => publish_date_of(s),
        Option::None => None,
    };
    let ratings_tally = match extracted(doc, locs.ratings_count) {
        Option::Some(s) => Some(count_of(s)),
        Option::None => None,
    };
    let reviews_tally = match extracted(doc, locs.reviews_count) {
        Option::Some(s) => Some(count_of(s)),
        Option::None => None,
    };
    if title is None || author is None || rating is None || pages is None || date is None
        || ratings_tally is None || reviews_tally is None {
        None
    } else {
        Some(
            BookV {
                title,
                author,
                rating,
                original_publish_date: date,
                number_of_pages: pages,
                number_of_ratings: ratings_tally,
                number_of_reviews: reviews_tally,
                genres: kept_genres(node_texts(doc, locs.genres)),
            },
        )
    }
}

/// Parses one detail page against the locator table, yielding a
/// complete record or absence.  A page missing any scalar field is
/// rejected whole rather than emitted partially.
pub fn parse_book(book_html: &Html, locators: &LocatorTable) -> (r: Option<Book>)
    ensures
        r.deep_view() == spec_parse_book(*book_html, locators@),
{
    let title = string_selector(book_html, locators.title.as_str());
    let author = string_selector(book_html, locators.author.as_str());
    let rating = string_selector(book_html, locators.rating.as_str());
    let number_of_pages = match string_selector(book_html, locators.pages.as_str()) {
        Some(raw) => page_count_field(raw.as_str()),
        None => None,
    };
    let original_publish_date = match string_selector(book_html, locators.publication.as_str()) {
        Some(raw) => publish_date_field(raw.as_str()),
        None => None,
    };
    let number_of_ratings = match string_selector(book_html, locators.ratings_count.as_str()) {
        Some(raw) => Some(count_field(raw.as_str())),
        None => None,
    };
    let number_of_reviews = match string_selector(book_html, locators.reviews_count.as_str()) {
        Some(raw) => Some(count_field(raw.as_str())),
        None => None,
    };
    if title.is_none() || author.is_none() || rating.is_none() || number_of_pages.is_none()
        || original_publish_date.is_none() || number_of_ratings.is_none()
        || number_of_reviews.is_none() {
        None
    } else {
        let genres = extract_all(book_html, locators.genres.as_str());
        let book = Book {
            title,
            author,
            rating,
            original_publish_date,
            number_of_pages,
            number_of_ratings,
            number_of_reviews,
            genres,
        };
        proof {
            assert(Some(book).deep_view() =~~= spec_parse_book(*book_html, locators@));
        }
        Some(book)
    }
}

/// The origin every relative detail-page reference is resolved
/// against.
pub open spec fn base_origin() -> Seq<char> {
    "https://www.goodreads.com"@
}

/// The absolute detail-page addresses derived from the reference
/// attributes of a listing page's title anchors: each present
/// reference is prefixed with the site's origin, in document order;
/// an anchor without the attribute is skipped.
pub open spec fn resolved_links(hrefs: Seq<Option<Seq<char>>>) -> Seq<Seq<char>>
    decreases hrefs.len(),
{
    if hrefs.len() == 0 {
        Seq::empty()
    } else {
        resolved_links(hrefs.drop_last()) + match hrefs.last() {
            Option::Some(h) => seq![base_origin() + h],
            Option::None => Seq::empty(),
        }
    }
}

/// An anchor without its reference attribute never aborts the
/// listing: removing such an entry leaves the resolved links exactly
/// as they were, so every remaining anchor is still resolved.
pub proof fn lemma_resolved_links_skip_missing(hrefs: Seq<Option<Seq<char>>>, i: int)
    requires
        0 <= i < hrefs.len(),
        hrefs[i] is None,
    ensures
        resolved_links(hrefs.remove(i)) == resolved_links(hrefs),
    decreases hrefs.len(),
{
    if i == hrefs.len() - 1 {
        assert(hrefs.remove(i) =~= hrefs.drop_last());
        assert(resolved_links(hrefs.drop_last()) + Seq::<Seq<char>>::empty() =~= resolved_links(
            hrefs.drop_last(),
        ));
    } else {
        let shorter = hrefs.remove(i);
        assert(shorter.drop_last() =~= hrefs.drop_last().remove(i));
        assert(shorter.last() == hrefs.last());
        lemma_resolved_links_skip_missing(hrefs.drop_last(), i);
    }
}

/// The completeness policy of the detail-page parser: a page missing
/// any scalar field parses to absence, and a page with every scalar
/// field present parses to the record whose fields are exactly the
/// post-processed extracted values, the genre list never gating
/// either way.
pub proof fn lemma_parse_completeness(doc: Html, locs: LocatorTableV)
    ensures
        spec_parse_book(doc, locs) is Some <==> {
            &&& extracted(doc, locs.title) is Some
            &&& extracted(doc, locs.author) is Some
            &&& extracted(doc, locs.rating) is Some
            &&& extracted(doc, locs.pages) matches Some(p) && page_count_of(p) is Some
            &&& extracted(doc, locs.publication) matches Some(d) && publish_date_of(d) is Some
            &&& extracted(doc, locs.ratings_count) is Some
            &&& extracted(doc, locs.reviews_count) is Some
        },
        spec_parse_book(doc, locs) matches Some(b) ==> {
            &&& crate::book::spec_complete(b)
            &&& b.title == extracted(doc, locs.title)
            &&& b.author == extracted(doc, locs.author)
            &&& b.rating == extracted(doc, locs.rating)
            &&& extracted(doc, locs.pages) matches Some(p) && b.number_of_pages == page_count_of(
                p,
            )
            &&& extracted(doc, locs.publication) matches Some(d) && b.original_publish_date
                == publish_date_of(d)
            &&& extracted(doc, locs.ratings_count) matches Some(c) && b.number_of_ratings == Some(
                count_of(c),
            )
            &&& extracted(doc, locs.reviews_count) matches Some(c2) && b.number_of_reviews
                == Some(count_of(c2))
            &&& b.genres == kept_genres(node_texts(doc, locs.genres))
        },
{
}

/// Reads the detail-page links of one listing page.  One anchor
/// lacking its reference attribute does not abort the listing: the
/// remaining anchors are still resolved, in document order, and
/// duplicates are kept.
pub fn get_book_urls_from_list(html: Html) -> (r: Vec<String>)
    ensures
        r.deep_view() == resolved_links(node_attrs(html, "a.bookTitle"@, "href"@)),
{
    let hrefs = select_attrs(&html, "a.bookTitle", "href");
    let mut r: Vec<String> = Vec::new();
    let mut i: usize = 0;
    proof {
        assert(hrefs.deep_view().take(0) =~= Seq::<Option<Seq<char>>>::empty());
        assert(hrefs.deep_view().len() == hrefs@.len());
    }
    while i < hrefs.len()
        invariant
            i <= hrefs@.len(),
            hrefs.deep_view().len() == hrefs@.len(),
            hrefs.deep_view() == node_attrs(html, "a.bookTitle"@, "href"@),
            r.deep_view() == resolved_links(hrefs.deep_view().take(i as int)),
        decreases hrefs@.len() - i,
    {
        proof {
            assert(hrefs.deep_view().take(i + 1).drop_last() =~= hrefs.deep_view().take(i as int));
            assert(hrefs.deep_view().take(i + 1).last() == hrefs.deep_view()[i as int]);
        }
        match &hrefs[i] {
            Some(href) => {
                let url = String::from_str("https://www.goodreads.com").concat(href.as_str());
                r.push(url);
                proof {
                    assert(r.deep_view() =~= resolved_links(hrefs.deep_view().take(i + 1)));
                }
            },
            None => {
                proof {
                    assert(r.deep_view() =~= resolved_links(hrefs.deep_view().take(i + 1)));
                }
            },
        }
        i = i + 1;
    }
    proof {
        assert(hrefs.deep_view().take(hrefs@.len() as int) =~= hrefs.deep_view());
    }
    r
}

} // verus!
