use bible_api::canon::{abbreviation, book_name, chapter_count, BOOK_COUNT};
use bible_api::errors::RequestError;
use bible_api::nav::{
    get_next_page, NavAction, NavAnswer, NavQuery, NavStage, Navigator, PageIn, PageOut, PrevNext,
};

fn row(id: i32) -> NavAnswer {
    let i = (id - 1) as usize;
    NavAnswer::Book { name: book_name(i).to_string(), abbreviation: abbreviation(i).to_string() }
}

fn count(id: i32) -> NavAnswer {
    NavAnswer::ChapterCount(chapter_count((id - 1) as usize) as i64)
}

fn answer(q: &NavQuery) -> NavAnswer {
    match q {
        NavQuery::BookIdByName(n) => {
            NavAnswer::BookId((0..BOOK_COUNT).position(|i| book_name(i) == n).unwrap() as i32 + 1)
        }
        NavQuery::BookIdByAbbreviation(a) => {
            NavAnswer::BookId((0..BOOK_COUNT).position(|i| abbreviation(i) == a).unwrap() as i32 + 1)
        }
        NavQuery::BookById(id) => row(*id),
        NavQuery::ChapterCount(id) => count(*id),
    }
}

fn navigate(book: &str, chapter: i64) -> (PrevNext, Vec<NavQuery>) {
    let page = PageIn { book: Some(book.to_string()), abbreviation: None, chapter };
    let (mut nav, first) = get_next_page(&page).unwrap();
    let mut asked = Vec::new();
    let mut pending = first;
    loop {
        let a = answer(&pending);
        assert!(nav.can_advance(&a));
        asked.push(pending);
        match nav.advance(a) {
            NavAction::Query(q) => pending = q,
            NavAction::Reply(r) => {
                assert_eq!(nav.stage, NavStage::Finished);
                return (r, asked);
            }
        }
    }
}

fn out(i: usize, chapter: i64) -> Option<PageOut> {
    Some(PageOut {
        book: book_name(i).to_string(),
        abbreviation: abbreviation(i).to_string(),
        chapter,
    })
}

#[test]
fn page_without_book_is_refused() {
    let page = PageIn { book: None, abbreviation: None, chapter: 3 };
    let err = get_next_page(&page).unwrap_err();
    assert_eq!(err, RequestError::MissingPageBook);
    assert_eq!(err.message(), "Either one of book or abbreviation is required");
}

#[test]
fn book_is_found_by_name_first_then_by_abbreviation() {
    let page = PageIn { book: None, abbreviation: Some("gen".to_string()), chapter: 1 };
    let (nav, q) = get_next_page(&page).unwrap();
    assert_eq!(q, NavQuery::BookIdByAbbreviation("GEN".to_string()));
    assert_eq!(nav.stage, NavStage::FindBook);
    assert_eq!(nav.chapter, 1);
    let page = PageIn { book: Some("Exodus".to_string()), abbreviation: Some("gen".to_string()), chapter: 2 };
    let (_, q) = get_next_page(&page).unwrap();
    assert_eq!(q, NavQuery::BookIdByName("Exodus".to_string()));
}

#[test]
fn first_chapter_of_the_canon() {
    let (r, asked) = navigate("Genesis", 1);
    assert_eq!(r, PrevNext { previous: None, next: out(0, 2) });
    assert_eq!(
        asked,
        vec![
            NavQuery::BookIdByName("Genesis".to_string()),
            NavQuery::ChapterCount(1),
            NavQuery::BookById(1),
        ]
    );
}

#[test]
fn last_chapter_of_the_canon() {
    let (r, asked) = navigate("Revelation", 22);
    assert_eq!(r, PrevNext { previous: out(65, 21), next: None });
    assert_eq!(asked, vec![NavQuery::BookIdByName("Revelation".to_string()), NavQuery::BookById(66)]);
}

#[test]
fn across_a_book_boundary() {
    let (r, asked) = navigate("Genesis", 50);
    assert_eq!(r, PrevNext { previous: out(0, 49), next: out(1, 1) });
    assert_eq!(
        asked,
        vec![
            NavQuery::BookIdByName("Genesis".to_string()),
            NavQuery::BookById(1),
            NavQuery::ChapterCount(1),
            NavQuery::BookById(2),
        ]
    );
    let (r, asked) = navigate("Exodus", 1);
    assert_eq!(r, PrevNext { previous: out(0, 50), next: out(1, 2) });
    assert_eq!(
        asked,
        vec![
            NavQuery::BookIdByName("Exodus".to_string()),
            NavQuery::ChapterCount(1),
            NavQuery::BookById(1),
            NavQuery::ChapterCount(2),
            NavQuery::BookById(2),
        ]
    );
}

#[test]
fn book_pages() {
    let (r, _) = navigate("Genesis", 0);
    assert_eq!(r, PrevNext { previous: None, next: out(1, 0) });
    let (r, asked) = navigate("Ruth", 0);
    assert_eq!(r, PrevNext { previous: out(6, 0), next: out(8, 0) });
    assert_eq!(
        asked,
        vec![NavQuery::BookIdByName("Ruth".to_string()), NavQuery::BookById(7), NavQuery::BookById(9)]
    );
    let (r, _) = navigate("Revelation", 0);
    assert_eq!(r, PrevNext { previous: out(64, 0), next: None });
}

#[test]
fn every_page_round_trips() {
    for i in 0..BOOK_COUNT {
        let name = book_name(i);
        let last = chapter_count(i) as i64;
        for c in 1..=last {
            let (r, _) = navigate(name, c);
            if let Some(next) = &r.next {
                let (back, _) = navigate(&next.book, next.chapter);
                assert_eq!(back.previous, out(i, c));
            } else {
                assert_eq!((i, c), (65, 22));
            }
            if let Some(prev) = &r.previous {
                let (fwd, _) = navigate(&prev.book, prev.chapter);
                assert_eq!(fwd.next, out(i, c));
            } else {
                assert_eq!((i, c), (0, 1));
            }
        }
    }
}

#[test]
fn chapter_beyond_the_book() {
    let (r, _) = navigate("Ruth", 7);
    assert_eq!(r, PrevNext { previous: out(7, 6), next: out(7, 8) });
}

#[test]
fn answers_of_the_wrong_kind_or_that_overflow_are_refused() {
    let page = PageIn { book: Some("Genesis".to_string()), abbreviation: None, chapter: 1 };
    let (nav, _) = get_next_page(&page).unwrap();
    assert!(!nav.can_advance(&NavAnswer::ChapterCount(3)));
    assert!(!nav.can_advance(&row(1)));
    assert!(nav.can_advance(&NavAnswer::BookId(1)));
    assert!(!nav.can_advance(&NavAnswer::BookId(i32::MIN)));
    let page = PageIn { book: Some("Genesis".to_string()), abbreviation: None, chapter: i64::MIN };
    let (mut nav, _) = get_next_page(&page).unwrap();
    assert!(nav.can_advance(&NavAnswer::BookId(1)));
    assert_eq!(nav.advance(NavAnswer::BookId(1)), NavAction::Query(NavQuery::BookById(1)));
    assert!(!nav.can_advance(&row(1)));
    let finished = Navigator { stage: NavStage::Finished, chapter: 1, book_id: 1, previous: None };
    assert!(!finished.can_advance(&NavAnswer::BookId(1)));
}
