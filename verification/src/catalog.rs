//! The catalogue: pages of books, how a book is shown, searching, and adding
//! books.
use vstd::prelude::*;

use crate::lending::{first_active, has_active, is_first_active};
use crate::model::{manager_permission, Book, Category, Claims, DbError, Record};
use crate::reply::Failure;
use crate::step::indices_where;
use crate::text::{contains_text, lowercase, lowercase_of, matches_keyword};
use crate::time::{date_text, format_date, utc_midnight_of, Timestamp};

verus! {

/// Books on one page of the catalogue.
pub const PAGE_SIZE: usize = 20;

/// The page shown when a request names none.
pub fn default_page() -> (page: usize)
    ensures
        page == 1,
{
    1
}

/// Where page `page` of the catalogue starts, and how many books it holds:
/// page 1 starts at the first book, and page 0 is read as page 1.
pub fn page_window(page: usize) -> (r: (usize, usize))
    requires
        (if page == 0 { 0 } else { page - 1 }) * PAGE_SIZE <= usize::MAX,
    ensures
        r.0 == (if page == 0 { 0 } else { page - 1 }) * PAGE_SIZE,
        r.1 == PAGE_SIZE,
{
    (page.saturating_sub(1) * PAGE_SIZE, PAGE_SIZE)
}

/// The names of the categories that the lookups found, in order.
pub open spec fn found_names(found: Seq<Result<Option<Category>, DbError>>) -> Seq<String>
    decreases found.len(),
{
    if found.len() == 0 {
        Seq::empty()
    } else {
        let rest = found_names(found.drop_last());
        match found.last() {
            Ok(Some(c)) => rest.push(c.name),
            _ => rest,
        }
    }
}

/// The names of a book's categories, from the lookups of its filings: a
/// filing whose category is not found is skipped.
pub fn category_names(found: &Vec<Result<Option<Category>, DbError>>) -> (r: Vec<String>)
    ensures
        r@ == found_names(found@),
{
    let mut r: Vec<String> = Vec::new();
    let mut i: usize = 0;
    while i < found.len()
        invariant
            i <= found.len(),
            r@ == found_names(found@.take(i as int)),
        decreases found.len() - i,
    {
        assert(found@.take(i + 1).drop_last() =~= found@.take(i as int));
        match &found[i] {
            Ok(Some(c)) => r.push(c.name.clone()),
            _ => {},
        }
        i = i + 1;
    }
    assert(found@.take(found.len() as int) =~= found@);
    r
}

/// A book as shown in the catalogue.
#[derive(Debug, PartialEq, Eq)]
pub struct BookInfo {
    pub id: usize,
    pub title: String,
    pub author: String,
    pub category: Vec<String>,
    pub description: Option<String>,
    pub published_date: Option<String>,
    /// Whether the book is out on an active loan.
    pub borrowed: bool,
    /// When the active loan falls due.
    pub expire_date: Option<String>,
}

/// `info` shows `book`, filed under `category`, with `loans` its loans.
pub open spec fn shows_book(info: BookInfo, book: Book, category: Vec<String>, loans: Seq<Record>) -> bool {
    &&& info.id == book.id
    &&& info.title == book.title
    &&& info.author == book.author
    &&& info.category == category
    &&& info.description == book.description
    &&& match (info.published_date, book.published_date) {
        (None, None) => true,
        (Some(s), Some(t)) => s@ == date_text(t@),
        _ => false,
    }
    &&& info.borrowed == has_active(loans)
    &&& match info.expire_date {
        None => !has_active(loans),
        Some(s) => exists|i: int| is_first_active(loans, i) && s@ == date_text(loans[i].expire_date@),
    }
}

/// Shows a book: its categories, and whether and until when it is lent, as
/// its first active loan tells.
pub fn book_info(book: Book, category: Vec<String>, loans: &Vec<Record>) -> (r: BookInfo)
    ensures
        shows_book(r, book, category, loans@),
{
    let (borrowed, expire_date) = match first_active(loans) {
        Some(i) => (true, Some(format_date(&loans[i].expire_date))),
        None => (false, None),
    };
    let published_date = match &book.published_date {
        Some(t) => Some(format_date(t)),
        None => None,
    };
    BookInfo {
        id: book.id,
        title: book.title,
        author: book.author,
        category,
        description: book.description,
        published_date,
        borrowed,
        expire_date,
    }
}

/// The keywords of a book search; the first one given is used.
#[derive(Debug, PartialEq, Eq)]
pub struct BookSearch {
    pub title: Option<String>,
    pub author: Option<String>,
    pub category: Option<String>,
}

/// How a book search selects, with its keyword in lower case.
#[derive(Debug, PartialEq, Eq)]
pub enum SearchMode {
    Title(String),
    Author(String),
    Category(String),
    All,
}

/// The selection a search asks for: by title if a title keyword is given,
/// else by author, else by category, else every book.
pub fn search_mode(search: &BookSearch) -> (r: SearchMode)
    ensures
        search.title matches Some(t) ==> (r matches SearchMode::Title(k) && k@ == lowercase_of(t@)),
        search.title is None ==> (search.author matches Some(a) ==> (r matches SearchMode::Author(k)
            && k@ == lowercase_of(a@))),
        search.title is None && search.author is None ==> (search.category matches Some(c) ==> (
        r matches SearchMode::Category(k) && k@ == lowercase_of(c@))),
        search.title is None && search.author is None && search.category is None ==> r
            == SearchMode::All,
{
    match &search.title {
        Some(t) => SearchMode::Title(lowercase(t.as_str())),
        None => match &search.author {
            Some(a) => SearchMode::Author(lowercase(a.as_str())),
            None => match &search.category {
                Some(c) => SearchMode::Category(lowercase(c.as_str())),
                None => SearchMode::All,
            },
        },
    }
}

/// Whether one of the category names holds the keyword.
pub open spec fn some_name_matches(keyword: Seq<char>, names: Seq<String>) -> bool {
    exists|j: int| 0 <= j < names.len() && matches_keyword(keyword, #[trigger] names[j]@)
}

/// Whether a search selects `book`, whose category names are `names` (`None`
/// where they could not be read, which leaves the book out of a category
/// search).
pub open spec fn book_matches(mode: SearchMode, book: Book, names: Option<Vec<String>>) -> bool {
    match mode {
        SearchMode::Title(k) => matches_keyword(k@, book.title@),
        SearchMode::Author(k) => matches_keyword(k@, book.author@),
        SearchMode::Category(k) => match names {
            Some(ns) => some_name_matches(k@, ns@),
            None => false,
        },
        SearchMode::All => true,
    }
}

fn keyword_in(keyword: &String, text: &String) -> (r: bool)
    ensures
        r == matches_keyword(keyword@, text@),
{
    let lower = lowercase(text.as_str());
    contains_text(lower.as_str(), keyword.as_str())
}

fn keyword_in_any(keyword: &String, names: &Vec<String>) -> (r: bool)
    ensures
        r == some_name_matches(keyword@, names@),
{
    let mut j: usize = 0;
    while j < names.len()
        invariant
            j <= names.len(),
            forall|q: int| 0 <= q < j ==> !matches_keyword(keyword@, #[trigger] names@[q]@),
        decreases names.len() - j,
    {
        if keyword_in(keyword, &names[j]) {
            return true;
        }
        j = j + 1;
    }
    false
}

/// The indices of the books that a search selects, in order.
pub open spec fn selected_books(books: Seq<Book>, mode: SearchMode, names: Seq<Option<Vec<String>>>) -> Seq<usize> {
    indices_where(books.len() as int, |i: int| book_matches(mode, books[i], names[i]))
}

/// The indices of the books a search selects, in order; for a category
/// search `names` holds each book's category names.
pub fn select_books(books: &Vec<Book>, mode: &SearchMode, names: &Vec<Option<Vec<String>>>) -> (r: Vec<usize>)
    requires
        mode is Category ==> names.len() == books.len(),
    ensures
        r@ == indices_where(books.len() as int, |i: int| book_matches(*mode, books@[i], names@[i])),
        r@ == selected_books(books@, *mode, names@),
{
    let ghost keep = |i: int| book_matches(*mode, books@[i], names@[i]);
    let mut r: Vec<usize> = Vec::new();
    let mut i: usize = 0;
    while i < books.len()
        invariant
            i <= books.len(),
            mode is Category ==> names.len() == books.len(),
            keep == (|i: int| book_matches(*mode, books@[i], names@[i])),
            r@ == indices_where(i as int, keep),
        decreases books.len() - i,
    {
        let selected = match mode {
            SearchMode::Title(k) => keyword_in(k, &books[i].title),
            SearchMode::Author(k) => keyword_in(k, &books[i].author),
            SearchMode::Category(k) => match &names[i] {
                Some(ns) => keyword_in_any(k, ns),
                None => false,
            },
            SearchMode::All => true,
        };
        if selected {
            r.push(i);
        }
        i = i + 1;
    }
    r
}

/// Who may add a book, and its publication date: the staff, with the date
/// given as `YYYY-MM-DD` if at all.
pub fn check_new_book(claims: &Claims, published_date: Option<&str>) -> (r: Result<Option<Timestamp>, Failure>)
    ensures
        claims.permission@ != manager_permission() ==> r == Err::<Option<Timestamp>, Failure>(
            Failure::Forbidden,
        ),
        claims.permission@ == manager_permission() && published_date is None ==> r == Ok::<
            Option<Timestamp>,
            Failure,
        >(None),
        claims.permission@ == manager_permission() ==> (published_date matches Some(d) ==> (
        utc_midnight_of(d@) is None <==> r == Err::<Option<Timestamp>, Failure>(Failure::BadDate))),
        claims.permission@ == manager_permission() ==> (published_date matches Some(d) ==> (
        utc_midnight_of(d@) matches Some(n) ==> (r matches Ok(Some(t)) && t@ == n))),
        r matches Ok(Some(t)) ==> (published_date matches Some(d) && utc_midnight_of(d@) == Some(
            t@,
        )),
{
    crate::step::require_manager(claims)?;
    match published_date {
        Some(d) => match crate::step::read_date(d) {
            Ok(t) => Ok(Some(t)),
            Err(f) => Err(f),
        },
        None => Ok(None),
    }
}

/// The category to file a new book under, from the lookup of the category
/// by name: the one found, or `None` where it is to be created.
pub fn existing_category(found: Result<Option<Category>, DbError>) -> (r: Option<usize>)
    ensures
        r == match found {
            Ok(Some(c)) => Some(c.id),
            _ => None::<usize>,
        },
{
    match found {
        Ok(Some(c)) => Some(c.id),
        _ => None,
    }
}

} // verus!
