//! Assembly of the tabular export.
//!
//! The sink takes a fixed header row followed by one row per record,
//! every cell a plain string and the genre list joined into a single
//! cell.  Only the assembly of those rows lives here; opening and
//! writing the file is the caller's business, and happens only once
//! the full record set is known.

use vstd::prelude::*;
use vstd::string::StringExecFns;
use crate::book::{spec_complete, Book, BookV};

verus! {

/// The content of a present field.
pub open spec fn some_of(o: Option<Seq<char>>) -> Seq<char> {
    match o {
        Option::Some(s) => s,
        Option::None => Seq::empty(),
    }
}

/// The genre cell: the genres joined by a comma and a space.
pub open spec fn joined(genres: Seq<Seq<char>>) -> Seq<char>
    decreases genres.len(),
{
    if genres.len() == 0 {
        Seq::empty()
    } else if genres.len() == 1 {
        genres[0]
    } else {
        joined(genres.drop_last()) + ", "@ + genres.last()
    }
}

/// Joins the genre list into one cell.
pub fn join_genres(genres: &Vec<String>) -> (r: String)
    ensures
        r@ == joined(genres.deep_view()),
{
    let mut r = String::new();
    let mut i: usize = 0;
    proof {
        assert(genres.deep_view().take(0) =~= Seq::<Seq<char>>::empty());
        assert(genres.deep_view().len() == genres@.len());
    }
    while i < genres.len()
        invariant
            i <= genres@.len(),
            genres.deep_view().len() == genres@.len(),
            r@ == joined(genres.deep_view().take(i as int)),
        decreases genres@.len() - i,
    {
        proof {
            assert(genres.deep_view().take(i + 1).drop_last() =~= genres.deep_view().take(
                i as int,
            ));
            assert(genres.deep_view().take(i + 1).last() == genres.deep_view()[i as int]);
        }
        if i > 0 {
            r.append(", ");
        }
        r.append(genres[i].as_str());
        i = i + 1;
        proof {
            assert(r@ =~= joined(genres.deep_view().take(i as int)));
        }
    }
    proof {
        assert(genres.deep_view().take(genres@.len() as int) =~= genres.deep_view());
    }
    r
}

/// The cells of one record's row, in the sink's column order: title,
/// author, publication date, rating, rating tally, page count, review
/// tally, joined genres.
pub open spec fn spec_book_row(b: BookV) -> Seq<Seq<char>> {
    seq![
        some_of(b.title),
        some_of(b.author),
        some_of(b.original_publish_date),
        some_of(b.rating),
        some_of(b.number_of_ratings),
        some_of(b.number_of_pages),
        some_of(b.number_of_reviews),
        joined(b.genres),
    ]
}

/// A copy of a present field's content.
fn field_text(field: &Option<String>) -> (r: String)
    requires
        field is Some,
    ensures
        r@ == some_of(field.deep_view()),
{
    let s = field.as_ref().unwrap();
    s.clone()
}

/// Builds one record's row.  The caller only hands complete records to
/// the sink, so every scalar field must be present.
pub fn book_row(book: &Book) -> (r: Vec<String>)
    requires
        spec_complete(book@),
    ensures
        r.deep_view() == spec_book_row(book@),
{
    let mut r: Vec<String> = Vec::new();
    r.push(field_text(&book.title));
    r.push(field_text(&book.author));
    r.push(field_text(&book.original_publish_date));
    r.push(field_text(&book.rating));
    r.push(field_text(&book.number_of_ratings));
    r.push(field_text(&book.number_of_pages));
    r.push(field_text(&book.number_of_reviews));
    r.push(join_genres(&book.genres));
    proof {
        assert(r.deep_view() =~= spec_book_row(book@));
    }
    r
}

/// The header cells, in the sink's column order.
pub open spec fn header_fields() -> Seq<Seq<char>> {
    seq![
        "title"@,
        "author"@,
        "original_publish_date"@,
        "rating"@,
        "number_of_ratings"@,
        "number_of_pages"@,
        "number_of_reviews"@,
        "genres"@,
    ]
}

/// Builds the header row.
pub fn csv_header() -> (r: Vec<String>)
    ensures
        r.deep_view() == header_fields(),
{
    let mut r: Vec<String> = Vec::new();
    r.push(String::from_str("title"));
    r.push(String::from_str("author"));
    r.push(String::from_str("original_publish_date"));
    r.push(String::from_str("rating"));
    r.push(String::from_str("number_of_ratings"));
    r.push(String::from_str("number_of_pages"));
    r.push(String::from_str("number_of_reviews"));
    r.push(String::from_str("genres"));
    proof {
        assert(r.deep_view() =~= header_fields());
    }
    r
}

/// The rows of the records alone, in order.
pub open spec fn rows_of(books: Seq<BookV>) -> Seq<Seq<Seq<char>>>
    decreases books.len(),
{
    if books.len() == 0 {
        Seq::empty()
    } else {
        rows_of(books.drop_last()).push(spec_book_row(books.last()))
    }
}

/// The whole export: the header row followed by one row per record,
/// in the order the records were aggregated.
pub open spec fn spec_rows(books: Seq<BookV>) -> Seq<Seq<Seq<char>>> {
    seq![header_fields()] + rows_of(books)
}

/// Builds every row of the export.
pub fn csv_rows(books: &Vec<Book>) -> (r: Vec<Vec<String>>)
    requires
        forall|i: int|
            0 <= i < books.deep_view().len() ==> spec_complete(#[trigger] books.deep_view()[i]),
    ensures
        r.deep_view() == spec_rows(books.deep_view()),
{
    let mut r: Vec<Vec<String>> = Vec::new();
    r.push(csv_header());
    let mut i: usize = 0;
    proof {
        assert(books.deep_view().len() == books@.len());
        assert(r.deep_view() =~~= seq![header_fields()] + rows_of(books.deep_view().take(0)));
    }
    while i < books.len()
        invariant
            i <= books@.len(),
            books.deep_view().len() == books@.len(),
            forall|k: int|
                0 <= k < books.deep_view().len() ==> spec_complete(
                    #[trigger] books.deep_view()[k],
                ),
            r.deep_view() == seq![header_fields()] + rows_of(books.deep_view().take(i as int)),
        decreases books@.len() - i,
    {
        proof {
            assert(books.deep_view()[i as int] == books@[i as int]@);
            assert(books.deep_view().take(i + 1).drop_last() =~= books.deep_view().take(i as int));
            assert(books.deep_view().take(i + 1).last() == books.deep_view()[i as int]);
        }
        let row = book_row(&books[i]);
        let ghost before_push = r.deep_view();
        r.push(row);
        proof {
            assert(r.deep_view() =~= before_push.push(row.deep_view()));
            assert(rows_of(books.deep_view().take(i + 1)) == rows_of(
                books.deep_view().take(i as int),
            ).push(spec_book_row(books.deep_view()[i as int])));
            assert(r.deep_view() =~~= seq![header_fields()] + rows_of(
                books.deep_view().take(i + 1),
            ));
        }
        i = i + 1;
    }
    proof {
        assert(books.deep_view().take(books@.len() as int) =~= books.deep_view());
    }
    r
}

} // verus!
