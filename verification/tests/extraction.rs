use reads_good::book::Book;
use reads_good::export::{book_row, csv_header, csv_rows, join_genres};
use reads_good::fields::{count_field, page_count_field, publish_date_field};
use reads_good::html::string_selector;
use reads_good::locators::LocatorTable;
use reads_good::parser::{extract_all, get_book_urls_from_list, parse_book};
use scraper::Html;

const TITLE: &str = "<h1 data-testid=\"bookTitle\">The Left Hand of Darkness</h1>";
const AUTHOR: &str =
    "<span class=\"ContributorLink__name\" data-testid=\"name\">Ursula K. Le Guin</span>";
const RATING: &str = "<div class=\"RatingStatistics__rating\">4.25</div>";
const RATINGS_COUNT: &str =
    "<span data-testid=\"ratingsCount\">1,234\u{a0}ratings</span>";
const REVIEWS_COUNT: &str = "<span data-testid=\"reviewsCount\">5,678\u{a0}reviews</span>";
const DETAILS: &str = "<div class=\"FeaturedDetails\"><p data-testid=\"pagesFormat\">312 pages, Hardcover</p><p data-testid=\"publicationInfo\">First published March 1, 2001</p></div>";
const GENRES: &str = "<div class=\"BookPageMetadataSection__genres\" data-testid=\"genresList\"><span class=\"Button__labelItem\">Fantasy</span><span class=\"Button__labelItem\">Fiction</span><span class=\"Button__labelItem\">...more</span></div>";

fn detail_document(parts: &[&str]) -> Html {
    let body: String = parts.concat();
    Html::parse_document(&format!("<html><body>{}</body></html>", body))
}

fn full_detail_document() -> Html {
    detail_document(&[TITLE, AUTHOR, RATING, RATINGS_COUNT, REVIEWS_COUNT, DETAILS, GENRES])
}

#[test]
fn extract_returns_absent_on_zero_matches() {
    let doc = Html::parse_document("<html><body><p>nothing here</p></body></html>");
    assert_eq!(string_selector(&doc, "h1[data-testid='bookTitle']"), None);
    assert_eq!(string_selector(&doc, "div.RatingStatistics__rating"), None);
}

#[test]
fn extract_does_not_fail_on_malformed_markup() {
    let doc = Html::parse_document("<<not <html at >> all");
    assert_eq!(string_selector(&doc, "h1[data-testid='bookTitle']"), None);
}

#[test]
fn extract_takes_first_match_in_document_order() {
    let doc = Html::parse_document(
        "<html><body><h1 data-testid=\"bookTitle\">First</h1><h1 data-testid=\"bookTitle\">Second</h1></body></html>",
    );
    assert_eq!(
        string_selector(&doc, "h1[data-testid='bookTitle']"),
        Some(String::from("First"))
    );
}

#[test]
fn extract_all_filters_the_sentinel() {
    let doc = full_detail_document();
    let genres = extract_all(
        &doc,
        "div.BookPageMetadataSection__genres[data-testid='genresList'] span.Button__labelItem",
    );
    assert_eq!(genres, vec![String::from("Fantasy"), String::from("Fiction")]);
}

#[test]
fn extract_all_without_sentinel_is_unaffected() {
    let doc = detail_document(&[
        "<div class=\"BookPageMetadataSection__genres\" data-testid=\"genresList\"><span class=\"Button__labelItem\">Horror</span><span class=\"Button__labelItem\">Classics</span></div>",
    ]);
    let genres = extract_all(
        &doc,
        "div.BookPageMetadataSection__genres[data-testid='genresList'] span.Button__labelItem",
    );
    assert_eq!(genres, vec![String::from("Horror"), String::from("Classics")]);
}

#[test]
fn parse_book_accepts_a_full_page() {
    let doc = full_detail_document();
    let locators = LocatorTable::standard();
    let book = parse_book(&doc, &locators).expect("a full page must parse");
    assert_eq!(book.title, Some(String::from("The Left Hand of Darkness")));
    assert_eq!(book.author, Some(String::from("Ursula K. Le Guin")));
    assert_eq!(book.rating, Some(String::from("4.25")));
    assert_eq!(book.original_publish_date, Some(String::from("March 1, 2001")));
    assert_eq!(book.number_of_pages, Some(String::from("312")));
    assert_eq!(book.number_of_ratings, Some(String::from("1234")));
    assert_eq!(book.number_of_reviews, Some(String::from("5678")));
    assert_eq!(book.genres, vec![String::from("Fantasy"), String::from("Fiction")]);
}

#[test]
fn parse_book_rejects_a_page_missing_any_scalar_field() {
    let locators = LocatorTable::standard();
    let all = [TITLE, AUTHOR, RATING, RATINGS_COUNT, REVIEWS_COUNT, DETAILS];
    for leave_out in 0..all.len() {
        let mut parts: Vec<&str> = Vec::new();
        for (i, part) in all.iter().enumerate() {
            if i != leave_out {
                parts.push(part);
            }
        }
        parts.push(GENRES);
        let doc = detail_document(&parts);
        assert!(
            parse_book(&doc, &locators).is_none(),
            "page missing part {} must be rejected",
            leave_out
        );
    }
}

#[test]
fn parse_book_accepts_empty_genres() {
    let doc = detail_document(&[TITLE, AUTHOR, RATING, RATINGS_COUNT, REVIEWS_COUNT, DETAILS]);
    let locators = LocatorTable::standard();
    let book = parse_book(&doc, &locators).expect("genres never gate acceptance");
    assert_eq!(book.genres, Vec::<String>::new());
    assert!(book.is_complete());
}

#[test]
fn page_count_drops_the_unit_suffix() {
    assert_eq!(page_count_field("312 pages"), Some(String::from("312")));
    assert_eq!(page_count_field("1 page"), Some(String::from("1")));
}

#[test]
fn page_count_of_empty_input_is_absent() {
    assert_eq!(page_count_field(""), None);
}

#[test]
fn publish_date_takes_what_follows_first_published() {
    assert_eq!(
        publish_date_field("First published March 1, 2001"),
        Some(String::from("March 1, 2001"))
    );
}

#[test]
fn publish_date_falls_back_to_published() {
    assert_eq!(publish_date_field("Published 2020"), Some(String::from("2020")));
}

#[test]
fn publish_date_without_either_phrase_is_absent() {
    assert_eq!(publish_date_field("around 1990"), None);
}

#[test]
fn count_strips_the_unit_and_the_separators() {
    assert_eq!(count_field("1,234\u{a0}ratings"), String::from("1234"));
    assert_eq!(count_field("5,678\u{a0}reviews"), String::from("5678"));
}

#[test]
fn listing_links_resolve_against_the_origin() {
    let doc = Html::parse_document(
        "<html><body><a class=\"bookTitle\" href=\"/book/show/1\">One</a><a class=\"bookTitle\" href=\"/book/show/2\">Two</a></body></html>",
    );
    assert_eq!(
        get_book_urls_from_list(doc),
        vec![
            String::from("https://www.goodreads.com/book/show/1"),
            String::from("https://www.goodreads.com/book/show/2"),
        ]
    );
}

#[test]
fn listing_anchor_without_reference_is_skipped() {
    let doc = Html::parse_document(
        "<html><body><a class=\"bookTitle\" href=\"/book/show/1\">One</a><a class=\"bookTitle\">Missing</a><a class=\"bookTitle\" href=\"/book/show/3\">Three</a></body></html>",
    );
    assert_eq!(
        get_book_urls_from_list(doc),
        vec![
            String::from("https://www.goodreads.com/book/show/1"),
            String::from("https://www.goodreads.com/book/show/3"),
        ]
    );
}

#[test]
fn listing_keeps_duplicates() {
    let doc = Html::parse_document(
        "<html><body><a class=\"bookTitle\" href=\"/book/show/1\">One</a><a class=\"bookTitle\" href=\"/book/show/1\">One again</a></body></html>",
    );
    assert_eq!(get_book_urls_from_list(doc).len(), 2);
}

fn complete_book() -> Book {
    Book {
        title: Some(String::from("A Title")),
        author: Some(String::from("An Author")),
        rating: Some(String::from("4.0")),
        original_publish_date: Some(String::from("May 2, 1999")),
        number_of_pages: Some(String::from("210")),
        number_of_ratings: Some(String::from("99")),
        number_of_reviews: Some(String::from("12")),
        genres: vec![String::from("Fantasy"), String::from("Fiction")],
    }
}

#[test]
fn join_genres_uses_comma_and_space() {
    assert_eq!(join_genres(&vec![]), String::new());
    assert_eq!(join_genres(&vec![String::from("Fantasy")]), String::from("Fantasy"));
    assert_eq!(
        join_genres(&vec![String::from("Fantasy"), String::from("Fiction")]),
        String::from("Fantasy, Fiction")
    );
}

#[test]
fn header_row_has_the_fixed_column_order() {
    assert_eq!(
        csv_header(),
        vec![
            String::from("title"),
            String::from("author"),
            String::from("original_publish_date"),
            String::from("rating"),
            String::from("number_of_ratings"),
            String::from("number_of_pages"),
            String::from("number_of_reviews"),
            String::from("genres"),
        ]
    );
}

#[test]
fn book_row_matches_the_column_order() {
    let row = book_row(&complete_book());
    assert_eq!(
        row,
        vec![
            String::from("A Title"),
            String::from("An Author"),
            String::from("May 2, 1999"),
            String::from("4.0"),
            String::from("99"),
            String::from("210"),
            String::from("12"),
            String::from("Fantasy, Fiction"),
        ]
    );
}

#[test]
fn csv_rows_start_with_the_header() {
    let rows = csv_rows(&vec![complete_book()]);
    assert_eq!(rows.len(), 2);
    assert_eq!(rows[0][0], String::from("title"));
    assert_eq!(rows[1][0], String::from("A Title"));
}

#[test]
fn incomplete_book_is_reported_incomplete() {
    let mut book = complete_book();
    book.rating = None;
    assert!(!book.is_complete());
}
