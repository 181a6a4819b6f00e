//! Validation of the caller-supplied inputs.
//!
//! The prompts that collect the listing address, the output file name
//! and the page count live outside the library; the decisions about
//! what is acceptable live here, each with the corrective message the
//! prompt shows.

use vstd::prelude::*;
use vstd::string::StringExecFns;
use crate::text::{begins_with, chars_of, ends_with, find_sub, first_match, has_prefix, has_suffix};

verus! {

/// The path prefix every listing address must carry.
pub open spec fn listopia_prefix() -> Seq<char> {
    "https://www.goodreads.com/list/show"@
}

/// The page query parameter a fresh listing address must not carry.
pub open spec fn page_marker() -> Seq<char> {
    "?page="@
}

/// Whether a listing address is acceptable: non-empty, without a page
/// query parameter, and on the site's listing path.
pub open spec fn listopia_url_ok(url: Seq<char>) -> bool {
    url.len() > 0 && first_match(url, page_marker()) is None && has_prefix(url, listopia_prefix())
}

/// Checks a listing address, yielding the corrective message when it
/// is rejected.
pub fn validate_listopia_url(url: &str) -> (r: Result<(), String>)
    ensures
        r is Ok <==> listopia_url_ok(url@),
        url@.len() == 0 ==> (r matches Err(m) && m@ == "Must provide a goodreads listpopia url"@),
        url@.len() > 0 && first_match(url@, page_marker()) is Some ==> (r matches Err(m) && m@
            == "Ensure goodreads listopia url starts from first page, there should be no `?page=X` query param"@),
        url@.len() > 0 && first_match(url@, page_marker()) is None && !has_prefix(
            url@,
            listopia_prefix(),
        ) ==> (r matches Err(m) && m@ == "Ensure goodreads listopia url is valid"@),
{
    let v = chars_of(url);
    if v.len() == 0 {
        Err(String::from_str("Must provide a goodreads listpopia url"))
    } else {
        let marker = chars_of("?page=");
        match find_sub(&v, &marker) {
            Some(_) => Err(
                String::from_str(
                    "Ensure goodreads listopia url starts from first page, there should be no `?page=X` query param",
                ),
            ),
            None => {
                let prefix = chars_of("https://www.goodreads.com/list/show");
                if begins_with(&v, &prefix) {
                    Ok(())
                } else {
                    Err(String::from_str("Ensure goodreads listopia url is valid"))
                }
            },
        }
    }
}

/// Checks an output file name: it must end in the tabular file
/// extension.
pub fn validate_filename(file_name: &str) -> (r: Result<(), String>)
    ensures
        r is Ok <==> has_suffix(file_name@, ".csv"@),
        r matches Err(m) ==> m@ == "File names must end in `.csv`. e.g. `books.csv`"@,
{
    let v = chars_of(file_name);
    let suffix = chars_of(".csv");
    if ends_with(&v, &suffix) {
        Ok(())
    } else {
        Err(String::from_str("File names must end in `.csv`. e.g. `books.csv`"))
    }
}

/// Checks a page count: it must lie in the inclusive range 1 to 10.
pub fn validate_page_number(page_number: u32) -> (r: Result<(), String>)
    ensures
        r is Ok <==> 1 <= page_number <= 10,
        r matches Err(m) ==> m@ == "Select a number between 1 and 10"@,
{
    if 1 <= page_number && page_number <= 10 {
        Ok(())
    } else {
        Err(String::from_str("Select a number between 1 and 10"))
    }
}

} // verus!
