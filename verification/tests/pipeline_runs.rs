use reads_good::book::Error;
use reads_good::input::{validate_filename, validate_listopia_url, validate_page_number};
use reads_good::pipeline::{paginated_url, Scrape, Step};
use scraper::Html;

fn detail_page(title: &str) -> String {
    format!(
        "<html><body><h1 data-testid=\"bookTitle\">{}</h1><span class=\"ContributorLink__name\" data-testid=\"name\">An Author</span><div class=\"RatingStatistics__rating\">4.25</div><span data-testid=\"ratingsCount\">1,234\u{a0}ratings</span><span data-testid=\"reviewsCount\">5\u{a0}reviews</span><div class=\"FeaturedDetails\"><p data-testid=\"pagesFormat\">312 pages</p><p data-testid=\"publicationInfo\">First published March 1, 2001</p></div></body></html>",
        title
    )
}

fn broken_detail_page() -> String {
    String::from("<html><body><p>not a book page</p></body></html>")
}

fn listing_page(page: u32) -> String {
    let mut anchors = String::new();
    for slot in 1..=4u32 {
        anchors.push_str(&format!(
            "<a class=\"bookTitle\" href=\"/book/show/{}-{}\">Book {}-{}</a>",
            page, slot, page, slot
        ));
    }
    format!("<html><body>{}</body></html>", anchors)
}

#[test]
fn paginated_url_appends_the_page_parameter() {
    assert_eq!(
        paginated_url("https://www.goodreads.com/list/show/1", 1),
        String::from("https://www.goodreads.com/list/show/1?page=1")
    );
    assert_eq!(
        paginated_url("https://www.goodreads.com/list/show/1", 10),
        String::from("https://www.goodreads.com/list/show/1?page=10")
    );
}

#[test]
fn two_pages_of_three_valid_and_one_invalid_yield_six_records_in_order() {
    let base = String::from("https://www.goodreads.com/list/show/1");
    let (mut run, mut step) = Scrape::start(base.clone(), 2);
    let mut fetched_listings = 0u32;
    loop {
        match step {
            Step::FetchListing(url) => {
                fetched_listings += 1;
                assert_eq!(url, format!("{}?page={}", base, fetched_listings));
                let doc = Html::parse_document(&listing_page(fetched_listings));
                step = run.on_listing(Ok(doc)).expect("listing fetch succeeded");
            }
            Step::FetchDetails(urls) => {
                assert_eq!(urls.len(), 4);
                let mut outcomes = Vec::new();
                for (slot, url) in urls.iter().enumerate() {
                    assert!(url.starts_with("https://www.goodreads.com/book/show/"));
                    if slot == 1 {
                        outcomes.push(Ok(Html::parse_document(&broken_detail_page())));
                    } else {
                        let title = format!("Title {}-{}", fetched_listings, slot);
                        outcomes.push(Ok(Html::parse_document(&detail_page(&title))));
                    }
                }
                step = run.on_details(outcomes).expect("detail fetches succeeded");
            }
            Step::Finished => break,
        }
    }
    assert_eq!(fetched_listings, 2);
    let books = run.finish();
    assert_eq!(books.len(), 6);
    let titles: Vec<String> = books.into_iter().map(|b| b.title.unwrap()).collect();
    assert_eq!(
        titles,
        vec![
            String::from("Title 1-0"),
            String::from("Title 1-2"),
            String::from("Title 1-3"),
            String::from("Title 2-0"),
            String::from("Title 2-2"),
            String::from("Title 2-3"),
        ]
    );
}

#[test]
fn listing_failure_on_page_two_returns_the_error_untouched() {
    let base = String::from("https://www.goodreads.com/list/show/1");
    let (mut run, step) = Scrape::start(base.clone(), 3);
    let url = match step {
        Step::FetchListing(url) => url,
        _ => panic!("a three-page run starts by fetching a listing"),
    };
    assert_eq!(url, format!("{}?page=1", base));
    let step = run
        .on_listing(Ok(Html::parse_document(&listing_page(1))))
        .expect("page 1 listing succeeded");
    let urls = match step {
        Step::FetchDetails(urls) => urls,
        _ => panic!("a fetched listing yields detail targets"),
    };
    let outcomes = urls
        .iter()
        .map(|_| Ok(Html::parse_document(&detail_page("Kept"))))
        .collect();
    let step = run.on_details(outcomes).expect("page 1 details succeeded");
    match step {
        Step::FetchListing(url) => assert_eq!(url, format!("{}?page=2", base)),
        _ => panic!("after page 1 the run moves to page 2"),
    }
    let err = run
        .on_listing(Err(Error::UnableToRetrieveListopia))
        .expect_err("a transport failure is fatal");
    assert!(matches!(err, Error::UnableToRetrieveListopia));
}

#[test]
fn detail_failure_returns_the_first_failing_outcome() {
    let base = String::from("https://www.goodreads.com/list/show/1");
    let (mut run, _step) = Scrape::start(base, 1);
    let step = run
        .on_listing(Ok(Html::parse_document(&listing_page(1))))
        .expect("listing succeeded");
    let urls = match step {
        Step::FetchDetails(urls) => urls,
        _ => panic!("a fetched listing yields detail targets"),
    };
    assert_eq!(urls.len(), 4);
    let outcomes = vec![
        Ok(Html::parse_document(&detail_page("Kept"))),
        Err(Error::UnableToRetrieveBook(String::from("second"))),
        Err(Error::UnableToRetrieveBook(String::from("third"))),
        Ok(Html::parse_document(&detail_page("Also kept"))),
    ];
    let err = run.on_details(outcomes).expect_err("a transport failure is fatal");
    match err {
        Error::UnableToRetrieveBook(which) => assert_eq!(which, String::from("second")),
        _ => panic!("the detail error carries the page's address"),
    }
    assert_eq!(run.finish().len(), 0);
}

#[test]
fn zero_pages_finish_empty_without_fetching() {
    let (run, step) = Scrape::start(String::from("https://www.goodreads.com/list/show/1"), 0);
    assert!(matches!(step, Step::Finished));
    assert_eq!(run.finish().len(), 0);
}

#[test]
fn listing_url_validation_accepts_a_fresh_listing() {
    assert!(validate_listopia_url("https://www.goodreads.com/list/show/1.Best_Books").is_ok());
}

#[test]
fn listing_url_validation_rejects_empty_paged_and_foreign_addresses() {
    let empty = validate_listopia_url("").expect_err("empty is rejected");
    assert_eq!(empty, String::from("Must provide a goodreads listpopia url"));
    let paged = validate_listopia_url("https://www.goodreads.com/list/show/1?page=3")
        .expect_err("a paged address is rejected");
    assert_eq!(
        paged,
        String::from(
            "Ensure goodreads listopia url starts from first page, there should be no `?page=X` query param"
        )
    );
    let foreign = validate_listopia_url("https://example.com/list/show/1")
        .expect_err("a foreign address is rejected");
    assert_eq!(foreign, String::from("Ensure goodreads listopia url is valid"));
}

#[test]
fn filename_validation_requires_the_extension() {
    assert!(validate_filename("books.csv").is_ok());
    let err = validate_filename("books.txt").expect_err("a foreign extension is rejected");
    assert_eq!(err, String::from("File names must end in `.csv`. e.g. `books.csv`"));
}

#[test]
fn page_number_validation_covers_the_inclusive_range() {
    assert!(validate_page_number(1).is_ok());
    assert!(validate_page_number(10).is_ok());
    assert!(validate_page_number(0).is_err());
    let err = validate_page_number(11).expect_err("eleven pages are rejected");
    assert_eq!(err, String::from("Select a number between 1 and 10"));
}
