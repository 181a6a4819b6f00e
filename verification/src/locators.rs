//! The locator table: the per-field selector strings.
//!
//! The selectors that say where each field of a detail page lives form
//! one read-only configuration value, shared by every parse, so that a
//! change of the site's layout is a data update and not a code change.

use vstd::prelude::*;
use vstd::string::StringExecFns;

verus! {

/// One selector string per extracted field of a detail page.
pub struct LocatorTable {
    pub title: String,
    pub author: String,
    pub rating: String,
    pub ratings_count: String,
    pub pages: String,
    pub publication: String,
    pub reviews_count: String,
    pub genres: String,
}

/// The mathematical value of a [`LocatorTable`].
#[verifier::ext_equal]
pub ghost struct LocatorTableV {
    pub title: Seq<char>,
    pub author: Seq<char>,
    pub rating: Seq<char>,
    pub ratings_count: Seq<char>,
    pub pages: Seq<char>,
    pub publication: Seq<char>,
    pub reviews_count: Seq<char>,
    pub genres: Seq<char>,
}

impl View for LocatorTable {
    type V = LocatorTableV;

    open spec fn view(&self) -> LocatorTableV {
        LocatorTableV {
            title: self.title@,
            author: self.author@,
            rating: self.rating@,
            ratings_count: self.ratings_count@,
            pages: self.pages@,
            publication: self.publication@,
            reviews_count: self.reviews_count@,
            genres: self.genres@,
        }
    }
}

/// The selectors of the site's detail-page layout.
pub open spec fn standard_locators() -> LocatorTableV {
    LocatorTableV {
        title: "h1[data-testid='bookTitle']"@,
        author: "span.ContributorLink__name[data-testid='name']"@,
        rating: "div.RatingStatistics__rating"@,
        ratings_count: "span[data-testid='ratingsCount']"@,
        pages: "div.FeaturedDetails p[data-testid='pagesFormat']"@,
        publication: "div.FeaturedDetails p[data-testid='publicationInfo']"@,
        reviews_count: "span[data-testid='reviewsCount']"@,
        genres: "div.BookPageMetadataSection__genres[data-testid='genresList'] span.Button__labelItem"@,
    }
}

impl LocatorTable {
    /// The table for the site's current detail-page layout.
    pub fn standard() -> (r: LocatorTable)
        ensures
            r@ == standard_locators(),
    {
        let r = LocatorTable {
            title: String::from_str("h1[data-testid='bookTitle']"),
            author: String::from_str("span.ContributorLink__name[data-testid='name']"),
            rating: String::from_str("div.RatingStatistics__rating"),
            ratings_count: String::from_str("span[data-testid='ratingsCount']"),
            pages: String::from_str("div.FeaturedDetails p[data-testid='pagesFormat']"),
            publication: String::from_str("div.FeaturedDetails p[data-testid='publicationInfo']"),
            reviews_count: String::from_str("span[data-testid='reviewsCount']"),
            genres: String::from_str(
                "div.BookPageMetadataSection__genres[data-testid='genresList'] span.Button__labelItem",
            ),
        };
        assert(r@ =~= standard_locators());
        r
    }
}

} // verus!
