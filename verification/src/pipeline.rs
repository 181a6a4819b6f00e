//! The pagination driver.
//!
//! The driver owns every decision of a run — which target to fetch
//! next, what to do with a fetched listing or batch of detail pages,
//! when the run is complete — while the fetching itself is left to the
//! caller.  A run is a state machine: [`Scrape::start`] yields the
//! first action, the caller performs each action and hands the outcome
//! to [`Scrape::on_listing`] or [`Scrape::on_details`], and
//! [`Scrape::finish`] yields the aggregate once the run is done.
//! Pages are traversed strictly in order; within one page every
//! detail fetch is issued as one batch.  A transport failure anywhere
//! is fatal to the whole run, while a detail page that fails to parse
//! is silently dropped.

use vstd::prelude::*;
use vstd::string::StringExecFns;
use scraper::Html;
use crate::book::{Book, BookV};
use crate::html::node_attrs;
use crate::locators::{standard_locators, LocatorTable};
use crate::parser::{get_book_urls_from_list, parse_book, resolved_links, spec_parse_book};
use crate::text::{dec_chars, dec_str, string_of};

verus! {

/// What the caller must do next to advance a run.
#[derive(Debug)]
pub enum Step {
    /// Fetch this listing page and report through
    /// [`Scrape::on_listing`].
    FetchListing(String),
    /// Fetch every one of these detail pages and report the outcomes,
    /// in the same order, through [`Scrape::on_details`].
    FetchDetails(Vec<String>),
    /// The run is over; collect the records with [`Scrape::finish`].
    Finished,
}

/// Which report the driver is waiting for.
#[derive(Debug)]
pub enum Phase {
    Listing,
    Details,
    Done,
}

/// The paginated target for page `page`: the base address with the
/// page number appended as a query parameter.
pub open spec fn page_url(base: Seq<char>, page: u32) -> Seq<char> {
    base + "?page="@ + dec_str(page as nat)
}

/// Builds the paginated target for page `page`.
pub fn paginated_url(base: &str, page: u32) -> (r: String)
    ensures
        r@ == page_url(base@, page),
{
    let mut url = String::from_str(base);
    url.append("?page=");
    let digits = dec_chars(page);
    let digits_str = string_of(&digits);
    url.append(digits_str.as_str());
    url
}

/// The documents of an all-successful batch of fetch outcomes.
pub open spec fn ok_docs(outcomes: Seq<Result<Html, crate::book::Error>>) -> Seq<Html> {
    outcomes.map_values(|outcome: Result<Html, crate::book::Error>| outcome->Ok_0)
}

/// The records a batch of detail documents yields: each document's
/// parse where it is accepted, in order, with rejected documents
/// dropped.
pub open spec fn parsed_batch(docs: Seq<Html>, locs: crate::locators::LocatorTableV) -> Seq<BookV>
    decreases docs.len(),
{
    if docs.len() == 0 {
        Seq::empty()
    } else {
        parsed_batch(docs.drop_last(), locs) + match spec_parse_book(docs.last(), locs) {
            Option::Some(b) => seq![b],
            Option::None => Seq::empty(),
        }
    }
}

/// A record reaches the aggregate only complete: every record of a
/// parsed batch has every scalar field present, whatever the
/// documents held.
pub proof fn lemma_parsed_batch_complete(docs: Seq<Html>, locs: crate::locators::LocatorTableV)
    ensures
        forall|i: int|
            0 <= i < parsed_batch(docs, locs).len() ==> crate::book::spec_complete(
                #[trigger] parsed_batch(docs, locs)[i],
            ),
    decreases docs.len(),
{
    if docs.len() > 0 {
        lemma_parsed_batch_complete(docs.drop_last(), locs);
        crate::parser::lemma_parse_completeness(docs.last(), locs);
        let prefix = parsed_batch(docs.drop_last(), locs);
        assert forall|i: int|
            0 <= i < parsed_batch(docs, locs).len() implies crate::book::spec_complete(
            #[trigger] parsed_batch(docs, locs)[i],
        ) by {
            if i < prefix.len() {
                assert(parsed_batch(docs, locs)[i] == prefix[i]);
            } else {
                match spec_parse_book(docs.last(), locs) {
                    Option::Some(b) => {
                        assert(parsed_batch(docs, locs)[i] == b);
                    },
                    Option::None => {},
                }
            }
        }
    }
}

/// One run of the scrape pipeline over `page_count` listing pages.
pub struct Scrape {
    /// The listing address without a page parameter.
    pub base_url: String,
    /// How many listing pages the run covers.
    pub page_count: u32,
    /// The page the driver is currently on, 1-based.
    pub current_page: u32,
    /// Which report the driver is waiting for.
    pub phase: Phase,
    /// The records accepted so far, in page-then-listing order.
    pub books: Vec<Book>,
    /// The locator table every parse runs against.
    pub locators: LocatorTable,
}

impl Scrape {
    /// The driver's invariant: the locator table is the standard one,
    /// the page cursor stays within the run's page range, and every
    /// aggregated record is complete.
    pub open spec fn wf(self) -> bool {
        &&& self.locators@ == standard_locators()
        &&& 1 <= self.current_page
        &&& !(self.phase is Done) ==> self.current_page <= self.page_count
        &&& forall|i: int|
            0 <= i < self.books.deep_view().len() ==> crate::book::spec_complete(
                #[trigger] self.books.deep_view()[i],
            )
    }

    /// Begins a run.  A page count of zero yields a finished, empty
    /// run rather than a failure; otherwise the first action is to
    /// fetch page 1.
    pub fn start(base_url: String, page_count: u32) -> (r: (Scrape, Step))
        ensures
            r.0.wf(),
            r.0.base_url@ == base_url@,
            r.0.page_count == page_count,
            r.0.books@.len() == 0,
            page_count == 0 ==> r.0.phase is Done && r.1 is Finished,
            page_count >= 1 ==> r.0.phase is Listing && r.0.current_page == 1 && (
            r.1 matches Step::FetchListing(u) && u@ == page_url(base_url@, 1)),
    {
        if page_count == 0 {
            let run = Scrape {
                base_url,
                page_count,
                current_page: 1,
                phase: Phase::Done,
                books: Vec::new(),
                locators: LocatorTable::standard(),
            };
            (run, Step::Finished)
        } else {
            let url = paginated_url(base_url.as_str(), 1);
            let run = Scrape {
                base_url,
                page_count,
                current_page: 1,
                phase: Phase::Listing,
                books: Vec::new(),
                locators: LocatorTable::standard(),
            };
            (run, Step::FetchListing(url))
        }
    }

    /// Takes the outcome of fetching the current listing page.  A
    /// transport failure ends the run with that error untouched; a
    /// fetched listing yields the batch of detail-page targets to
    /// fetch next, in document order.
    pub fn on_listing(&mut self, fetched: Result<Html, crate::book::Error>) -> (r: Result<
        Step,
        crate::book::Error,
    >)
        requires
            old(self).wf(),
            old(self).phase is Listing,
        ensures
            final(self).wf(),
            final(self).base_url == old(self).base_url,
            final(self).page_count == old(self).page_count,
            final(self).current_page == old(self).current_page,
            final(self).books == old(self).books,
            final(self).locators == old(self).locators,
            fetched matches Err(e) ==> r == Err::<Step, crate::book::Error>(e)
                && final(self).phase is Done,
            fetched matches Ok(doc) ==> final(self).phase is Details && (r matches Ok(
                Step::FetchDetails(urls),
            ) && urls.deep_view() == resolved_links(node_attrs(doc, "a.bookTitle"@, "href"@))),
    {
        match fetched {
            Err(e) => {
                self.phase = Phase::Done;
                Err(e)
            },
            Ok(doc) => {
                let urls = get_book_urls_from_list(doc);
                self.phase = Phase::Details;
                Ok(Step::FetchDetails(urls))
            },
        }
    }

    /// Takes the outcomes of the current page's detail fetches, in the
    /// order the targets were handed out.  Any transport failure ends
    /// the run with the first failing outcome's error untouched.
    /// Otherwise every document is parsed, the accepted records are
    /// appended in order, and the run moves to the next page or
    /// finishes after the last one.
    pub fn on_details(&mut self, fetched: Vec<Result<Html, crate::book::Error>>) -> (r: Result<
        Step,
        crate::book::Error,
    >)
        requires
            old(self).wf(),
            old(self).phase is Details,
        ensures
            final(self).wf(),
            final(self).base_url == old(self).base_url,
            final(self).page_count == old(self).page_count,
            (exists|i: int| 0 <= i < fetched@.len() && fetched@[i] is Err) ==> {
                &&& r is Err
                &&& exists|i: int|
                    {
                        &&& 0 <= i < fetched@.len()
                        &&& #[trigger] fetched@[i] == Err::<Html, crate::book::Error>(r->Err_0)
                        &&& forall|j: int| 0 <= j < i ==> fetched@[j] is Ok
                    }
                &&& final(self).phase is Done
                &&& final(self).books == old(self).books
            },
            (forall|i: int| 0 <= i < fetched@.len() ==> fetched@[i] is Ok) ==> {
                &&& r is Ok
                &&& final(self).books.deep_view() == old(self).books.deep_view() + parsed_batch(
                    ok_docs(fetched@),
                    standard_locators(),
                )
                &&& old(self).current_page == old(self).page_count ==> r->Ok_0 is Finished
                    && final(self).phase is Done
                &&& old(self).current_page < old(self).page_count ==> {
                    &&& final(self).phase is Listing
                    &&& final(self).current_page == old(self).current_page + 1
                    &&& r->Ok_0 matches Step::FetchListing(u) && u@ == page_url(
                        final(self).base_url@,
                        final(self).current_page,
                    )
                }
            },
    {
        let ghost original = fetched@;
        let mut remaining = fetched;
        let mut docs: Vec<Html> = Vec::new();
        let total = remaining.len();
        let mut taken: usize = 0;
        while remaining.len() > 0
            invariant
                original == fetched@,
                total == original.len(),
                taken + remaining@.len() == total,
                remaining@ =~= original.skip(taken as int),
                forall|j: int| 0 <= j < taken ==> original[j] is Ok,
                docs@ =~= ok_docs(original.take(taken as int)),
                self.base_url == old(self).base_url,
                self.page_count == old(self).page_count,
                self.current_page == old(self).current_page,
                self.books == old(self).books,
                self.locators == old(self).locators,
                self.phase is Details,
                old(self).wf(),
            decreases remaining@.len(),
        {
            let outcome = remaining.remove(0);
            proof {
                assert(outcome == original[taken as int]);
            }
            match outcome {
                Ok(doc) => {
                    docs.push(doc);
                    taken = taken + 1;
                    proof {
                        assert(remaining@ =~= original.skip(taken as int));
                        assert(docs@ =~= ok_docs(original.take(taken as int)));
                    }
                },
                Err(e) => {
                    self.phase = Phase::Done;
                    proof {
                        assert(fetched@[taken as int] == Err::<Html, crate::book::Error>(e));
                    }
                    return Err(e);
                },
            }
        }
        proof {
            assert(original.take(original.len() as int) =~= original);
            assert(forall|i: int| 0 <= i < original.len() ==> original[i] is Ok);
        }
        let mut idx: usize = 0;
        let ghost books_before = self.books.deep_view();
        proof {
            assert(docs@.take(0) =~= Seq::<Html>::empty());
            assert(books_before + parsed_batch(docs@.take(0), standard_locators())
                =~= books_before);
        }
        while idx < docs.len()
            invariant
                idx <= docs@.len(),
                self.locators@ == standard_locators(),
                self.base_url == old(self).base_url,
                self.page_count == old(self).page_count,
                self.current_page == old(self).current_page,
                self.phase is Details,
                old(self).wf(),
                forall|k: int|
                    0 <= k < self.books.deep_view().len() ==> crate::book::spec_complete(
                        #[trigger] self.books.deep_view()[k],
                    ),
                self.books.deep_view() == books_before + parsed_batch(
                    docs@.take(idx as int),
                    standard_locators(),
                ),
            decreases docs@.len() - idx,
        {
            proof {
                assert(docs@.take(idx + 1).drop_last() =~= docs@.take(idx as int));
                assert(docs@.take(idx + 1).last() == docs@[idx as int]);
            }
            match parse_book(&docs[idx], &self.locators) {
                Some(book) => {
                    proof {
                        assert(Some(book).deep_view() == spec_parse_book(
                            docs@[idx as int],
                            standard_locators(),
                        ));
                        crate::parser::lemma_parse_completeness(
                            docs@[idx as int],
                            standard_locators(),
                        );
                        assert(crate::book::spec_complete(book.deep_view()));
                        assert(parsed_batch(docs@.take(idx + 1), standard_locators())
                            =~= parsed_batch(docs@.take(idx as int), standard_locators()).push(
                            book.deep_view(),
                        ));
                    }
                    let ghost before_push = self.books.deep_view();
                    self.books.push(book);
                    proof {
                        assert(self.books.deep_view() =~= before_push.push(book.deep_view()));
                        assert(self.books.deep_view() =~= books_before + parsed_batch(
                            docs@.take(idx + 1),
                            standard_locators(),
                        ));
                    }
                },
                None => {
                    proof {
                        assert(self.books.deep_view() =~= books_before + parsed_batch(
                            docs@.take(idx + 1),
                            standard_locators(),
                        ));
                    }
                },
            }
            idx = idx + 1;
        }
        proof {
            assert(docs@.take(docs@.len() as int) =~= docs@);
        }
        if self.current_page == self.page_count {
            self.phase = Phase::Done;
            Ok(Step::Finished)
        } else {
            self.current_page = self.current_page + 1;
            self.phase = Phase::Listing;
            let url = paginated_url(self.base_url.as_str(), self.current_page);
            Ok(Step::FetchListing(url))
        }
    }

    /// Hands out the aggregate of a finished run, in page-then-listing
    /// order.  Every record handed out is complete.
    pub fn finish(self) -> (r: Vec<Book>)
        requires
            self.wf(),
            self.phase is Done,
        ensures
            r == self.books,
            forall|i: int|
                0 <= i < r.deep_view().len() ==> crate::book::spec_complete(
                    #[trigger] r.deep_view()[i],
                ),
    {
        self.books
    }
}

} // verus!
