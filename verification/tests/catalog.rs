use bookshelf::catalog::{book_info, category_names, check_new_book, default_page, existing_category, page_window, search_mode, select_books, BookInfo, BookSearch, SearchMode, PAGE_SIZE};
use bookshelf::model::{Book, Category, Claims, DbError, Record};
use bookshelf::reply::Failure;
use bookshelf::time::Timestamp;

const DAY: i128 = 86_400 * 1_000_000_000;
const BASE: i128 = 1_717_200_000 * 1_000_000_000; // 2024-06-01T00:00:00Z

fn at(nanos: i128) -> Timestamp {
    Timestamp::from_nanosecond(nanos).unwrap()
}

fn book(id: usize, title: &str, author: &str) -> Book {
    Book {
        id,
        title: title.to_string(),
        author: author.to_string(),
        description: Some("d".to_string()),
        published_date: Some(at(BASE)),
    }
}

fn loan(id: usize, expires_day: i128, returned: bool) -> Record {
    Record {
        id,
        borrow_date: at(BASE),
        expire_date: at(BASE + expires_day * DAY),
        return_date: if returned { Some(at(BASE + DAY)) } else { None },
        user_id: 1,
        book_id: 1,
    }
}

fn manager() -> Claims {
    Claims { user_id: 1, permission: "manager".to_string() }
}

fn names(list: &[&str]) -> Vec<String> {
    list.iter().map(|s| s.to_string()).collect()
}

#[test]
fn default_page_is_first() {
    assert_eq!(default_page(), 1);
}

#[test]
fn pages() {
    assert_eq!(page_window(0), (0, PAGE_SIZE));
    assert_eq!(page_window(1), (0, 20));
    assert_eq!(page_window(3), (40, 20));
}

#[test]
fn category_names_skip_missing() {
    let found = vec![
        Ok(Some(Category { id: 1, name: "科幻".to_string() })),
        Ok(None),
        Err(DbError),
        Ok(Some(Category { id: 4, name: "History".to_string() })),
    ];
    assert_eq!(category_names(&found), names(&["科幻", "History"]));
    assert_eq!(category_names(&vec![]), Vec::<String>::new());
}

#[test]
fn book_shown_available() {
    let info = book_info(book(1, "T", "A"), names(&["x"]), &vec![loan(1, 3, true)]);
    assert_eq!(
        info,
        BookInfo {
            id: 1,
            title: "T".to_string(),
            author: "A".to_string(),
            category: names(&["x"]),
            description: Some("d".to_string()),
            published_date: Some("2024-06-01".to_string()),
            borrowed: false,
            expire_date: None,
        }
    );
}

#[test]
fn book_shown_lent_with_first_active_due_date() {
    let loans = vec![loan(1, 3, true), loan(2, 10, false), loan(3, 20, false)];
    let mut b = book(1, "T", "A");
    b.published_date = None;
    let info = book_info(b, vec![], &loans);
    assert!(info.borrowed);
    assert_eq!(info.expire_date, Some("2024-06-11".to_string()));
    assert_eq!(info.published_date, None);
}

fn search(title: Option<&str>, author: Option<&str>, category: Option<&str>) -> BookSearch {
    BookSearch {
        title: title.map(|s| s.to_string()),
        author: author.map(|s| s.to_string()),
        category: category.map(|s| s.to_string()),
    }
}

#[test]
fn search_mode_priority() {
    assert_eq!(search_mode(&search(Some("RUST"), Some("b"), Some("c"))), SearchMode::Title("rust".to_string()));
    assert_eq!(search_mode(&search(None, Some("Bob"), Some("c"))), SearchMode::Author("bob".to_string()));
    assert_eq!(search_mode(&search(None, None, Some("SciFi"))), SearchMode::Category("scifi".to_string()));
    assert_eq!(search_mode(&search(None, None, None)), SearchMode::All);
}

#[test]
fn search_by_title_and_author() {
    let books = vec![book(1, "The Rust Book", "Klabnik"), book(2, "Dune", "Herbert"), book(3, "rusty", "x")];
    let mode = search_mode(&search(Some("RUST"), None, None));
    assert_eq!(select_books(&books, &mode, &vec![]), vec![0, 2]);
    let mode = search_mode(&search(None, Some("her"), None));
    assert_eq!(select_books(&books, &mode, &vec![]), vec![1]);
    assert_eq!(select_books(&books, &SearchMode::All, &vec![]), vec![0, 1, 2]);
}

#[test]
fn search_by_category() {
    let books = vec![book(1, "a", "a"), book(2, "b", "b"), book(3, "c", "c")];
    let cats = vec![Some(names(&["Science Fiction"])), None, Some(names(&["History", "FICTIONAL"]))];
    let mode = search_mode(&search(None, None, Some("fiction")));
    assert_eq!(select_books(&books, &mode, &cats), vec![0, 2]);
}

#[test]
fn new_book_checks() {
    let guest = Claims { user_id: 2, permission: "guest".to_string() };
    assert_eq!(check_new_book(&guest, Some("2024-06-01")), Err(Failure::Forbidden));
    assert_eq!(check_new_book(&manager(), None), Ok(None));
    assert_eq!(check_new_book(&manager(), Some("2024/06/01")), Err(Failure::BadDate));
    assert_eq!(check_new_book(&manager(), Some("2024-06-01")), Ok(Some(at(BASE))));
}

#[test]
fn existing_category_cases() {
    assert_eq!(existing_category(Ok(Some(Category { id: 9, name: "x".to_string() }))), Some(9));
    assert_eq!(existing_category(Ok(None)), None);
    assert_eq!(existing_category(Err(DbError)), None);
}
