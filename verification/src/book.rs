//! The record type of the library and the errors of a run.

use vstd::prelude::*;

verus! {

/// A failure of a run.  Transport failures are fatal to a whole run;
/// they are the only errors the pipeline can produce.
#[derive(Debug)]
pub enum Error {
    /// The listing address could not be read.
    UnableToReadListopiaUrl,
    /// A listing page could not be fetched.
    UnableToRetrieveListopia,
    /// A detail page could not be fetched; carries the page's address.
    UnableToRetrieveBook(String),
}

/// One extracted book record.  Each scalar field holds the
/// post-processed text of one detail-page field, or is absent when the
/// page did not yield it; a record leaves the parser only with every
/// scalar field present.  The genre list may legitimately be empty.
#[derive(Debug)]
pub struct Book {
    pub title: Option<String>,
    pub author: Option<String>,
    pub rating: Option<String>,
    pub original_publish_date: Option<String>,
    pub number_of_pages: Option<String>,
    pub number_of_ratings: Option<String>,
    pub number_of_reviews: Option<String>,
    pub genres: Vec<String>,
}

/// The mathematical value of a [`Book`].
#[verifier::ext_equal]
pub ghost struct BookV {
    pub title: Option<Seq<char>>,
    pub author: Option<Seq<char>>,
    pub rating: Option<Seq<char>>,
    pub original_publish_date: Option<Seq<char>>,
    pub number_of_pages: Option<Seq<char>>,
    pub number_of_ratings: Option<Seq<char>>,
    pub number_of_reviews: Option<Seq<char>>,
    pub genres: Seq<Seq<char>>,
}

impl View for Book {
    type V = BookV;

    open spec fn view(&self) -> BookV {
        BookV {
            title: self.title.deep_view(),
            author: self.author.deep_view(),
            rating: self.rating.deep_view(),
            original_publish_date: self.original_publish_date.deep_view(),
            number_of_pages: self.number_of_pages.deep_view(),
            number_of_ratings: self.number_of_ratings.deep_view(),
            number_of_reviews: self.number_of_reviews.deep_view(),
            genres: self.genres.deep_view(),
        }
    }
}

impl DeepView for Book {
    type V = BookV;

    open spec fn deep_view(&self) -> BookV {
        self.view()
    }
}

/// Whether every scalar field of the record is present.  Only complete
/// records are handed to the sink; the genre list never gates
/// completeness.
pub open spec fn spec_complete(b: BookV) -> bool {
    &&& b.title is Some
    &&& b.author is Some
    &&& b.rating is Some
    &&& b.original_publish_date is Some
    &&& b.number_of_pages is Some
    &&& b.number_of_ratings is Some
    &&& b.number_of_reviews is Some
}

impl Book {
    /// Whether every scalar field of the record is present.
    pub fn is_complete(&self) -> (r: bool)
        ensures
            r == spec_complete(self@),
    {
        self.title.is_some() && self.author.is_some() && self.rating.is_some()
            && self.original_publish_date.is_some() && self.number_of_pages.is_some()
            && self.number_of_ratings.is_some() && self.number_of_reviews.is_some()
    }
}

} // verus!
