use vstd::prelude::*;

use crate::canon::{
    abbreviations, book_names, lemma_canon_distinct, spec_abbreviation, spec_book_name,
    spec_chapter_count,
};
use crate::errors::RequestError;
use crate::text::{to_upper, uppercase};

verus! {

/// The page a reader is on: a book, by name or abbreviation, and a chapter
/// (chapter 0 is the book's own page).
pub struct PageIn {
    pub book: Option<String>,
    pub abbreviation: Option<String>,
    pub chapter: i64,
}

/// A page to go to.
#[derive(Debug, PartialEq, Eq)]
pub struct PageOut {
    pub book: String,
    pub abbreviation: String,
    pub chapter: i64,
}

/// The pages before and after the current one, where there are any.
#[derive(Debug, PartialEq, Eq)]
pub struct PrevNext {
    pub previous: Option<PageOut>,
    pub next: Option<PageOut>,
}

/// The mathematical form of a page.
pub struct Page {
    pub book: Seq<char>,
    pub abbreviation: Seq<char>,
    pub chapter: int,
}

impl View for PageOut {
    type V = Page;

    open spec fn view(&self) -> Page {
        Page { book: self.book@, abbreviation: self.abbreviation@, chapter: self.chapter as int }
    }
}

/// The mathematical form of an optional page.
pub open spec fn page_opt(p: Option<PageOut>) -> Option<Page> {
    match p {
        Some(p) => Some(p@),
        None => None,
    }
}

/// The mathematical form of the pages before and after.
pub struct Neighbours {
    pub previous: Option<Page>,
    pub next: Option<Page>,
}

impl View for PrevNext {
    type V = Neighbours;

    open spec fn view(&self) -> Neighbours {
        Neighbours { previous: page_opt(self.previous), next: page_opt(self.next) }
    }
}

/// What navigation needs to know from the database.
#[derive(Debug, PartialEq, Eq)]
pub enum NavQuery {
    /// The id of the book with this name.
    BookIdByName(String),
    /// The id of the book with this abbreviation.
    BookIdByAbbreviation(String),
    /// The name and abbreviation of the book with this id.
    BookById(i32),
    /// The number of chapters of the book with this id.
    ChapterCount(i32),
}

/// What the database answered.
#[derive(Debug, PartialEq, Eq)]
pub enum NavAnswer {
    BookId(i32),
    Book { name: String, abbreviation: String },
    ChapterCount(i64),
}

/// What navigation does next: ask the database, or answer the client.
#[derive(Debug, PartialEq, Eq)]
pub enum NavAction {
    Query(NavQuery),
    Reply(PrevNext),
}

/// The mathematical form of a query.
pub enum Ask {
    BookIdByName(Seq<char>),
    BookIdByAbbreviation(Seq<char>),
    BookById(int),
    ChapterCount(int),
}

/// The mathematical form of an answer.
pub enum Fact {
    BookId(int),
    Book(Seq<char>, Seq<char>),
    Count(int),
}

/// The mathematical form of an action.
pub enum Outcome {
    Ask(Ask),
    Answer(Neighbours),
}

impl View for NavQuery {
    type V = Ask;

    open spec fn view(&self) -> Ask {
        match self {
            NavQuery::BookIdByName(s) => Ask::BookIdByName(s@),
            NavQuery::BookIdByAbbreviation(s) => Ask::BookIdByAbbreviation(s@),
            NavQuery::BookById(id) => Ask::BookById(*id as int),
            NavQuery::ChapterCount(id) => Ask::ChapterCount(*id as int),
        }
    }
}

impl View for NavAnswer {
    type V = Fact;

    open spec fn view(&self) -> Fact {
        match self {
            NavAnswer::BookId(id) => Fact::BookId(*id as int),
            NavAnswer::Book { name, abbreviation } => Fact::Book(name@, abbreviation@),
            NavAnswer::ChapterCount(c) => Fact::Count(*c as int),
        }
    }
}

impl View for NavAction {
    type V = Outcome;

    open spec fn view(&self) -> Outcome {
        match self {
            NavAction::Query(q) => Outcome::Ask(q@),
            NavAction::Reply(r) => Outcome::Answer(r@),
        }
    }
}

/// Where navigation stands.
#[derive(Clone, Copy, PartialEq, Eq, Debug)]
pub enum NavStage {
    /// Waits for the id of the current book.
    FindBook,
    /// On a book's own page: waits for the book before.
    IntroPrevious,
    /// On a book's own page: waits for the book after.
    IntroNext,
    /// On a first chapter: waits for the chapter count of the book before.
    PreviousCount,
    /// On a first chapter: waits for the book before, whose last chapter this is.
    PreviousLast(i64),
    /// Waits for the current book, for the chapter before.
    PreviousSame,
    /// Waits for the chapter count of the current book.
    CurrentCount,
    /// On a last chapter: waits for the book after.
    NextBook,
    /// Waits for the current book, for the chapter after.
    NextSame,
    /// Has answered.
    Finished,
}

/// Navigation from one page to its neighbours, one database answer at a time.
#[derive(Debug)]
pub struct Navigator {
    pub stage: NavStage,
    pub chapter: i64,
    pub book_id: i32,
    pub previous: Option<PageOut>,
}

/// The mathematical form of a navigator.
pub struct NavState {
    pub stage: NavStage,
    pub chapter: int,
    pub book_id: int,
    pub previous: Option<Page>,
}

impl View for Navigator {
    type V = NavState;

    open spec fn view(&self) -> NavState {
        NavState {
            stage: self.stage,
            chapter: self.chapter as int,
            book_id: self.book_id as int,
            previous: page_opt(self.previous),
        }
    }
}

/// Id of the first book.
pub const FIRST_BOOK_ID: i32 = 1;

/// Id of the last book.
pub const LAST_BOOK_ID: i32 = 66;

/// Number of chapters of the last book.
pub const LAST_BOOK_CHAPTERS: i64 = 22;

/// Whether a stage waits for an answer of the kind of `a`.
pub open spec fn expects(stage: NavStage, a: Fact) -> bool {
    match stage {
        NavStage::FindBook => a is BookId,
        NavStage::PreviousCount | NavStage::CurrentCount => a is Count,
        NavStage::Finished => false,
        _ => a is Book,
    }
}

/// The page of a book's row at a chapter.
pub open spec fn page(book: Seq<char>, abbreviation: Seq<char>, chapter: int) -> Page {
    Page { book, abbreviation, chapter }
}

/// After the page before is known: the last page of the canon has no page
/// after; any other asks for the chapter count of its book.
pub open spec fn toward_next(s: NavState) -> (NavState, Outcome) {
    if s.book_id == LAST_BOOK_ID && s.chapter == LAST_BOOK_CHAPTERS {
        (
            NavState { stage: NavStage::Finished, previous: None, ..s },
            Outcome::Answer(Neighbours { previous: s.previous, next: None }),
        )
    } else {
        (NavState { stage: NavStage::CurrentCount, ..s }, Outcome::Ask(Ask::ChapterCount(s.book_id)))
    }
}

/// On a book's own page, after the page before is known: the last book has
/// no page after; any other asks for the book after.
pub open spec fn toward_next_book(s: NavState) -> (NavState, Outcome) {
    if s.book_id == LAST_BOOK_ID {
        (
            NavState { stage: NavStage::Finished, previous: None, ..s },
            Outcome::Answer(Neighbours { previous: s.previous, next: None }),
        )
    } else {
        (NavState { stage: NavStage::IntroNext, ..s }, Outcome::Ask(Ask::BookById(s.book_id + 1)))
    }
}

/// Once the current book's id is known.
pub open spec fn on_book_id(s: NavState) -> (NavState, Outcome) {
    if s.chapter == 0 {
        if s.book_id == FIRST_BOOK_ID {
            toward_next_book(NavState { previous: None, ..s })
        } else {
            (
                NavState { stage: NavStage::IntroPrevious, ..s },
                Outcome::Ask(Ask::BookById(s.book_id - 1)),
            )
        }
    } else if s.book_id == FIRST_BOOK_ID && s.chapter == 1 {
        toward_next(NavState { previous: None, ..s })
    } else if s.chapter == 1 {
        (
            NavState { stage: NavStage::PreviousCount, ..s },
            Outcome::Ask(Ask::ChapterCount(s.book_id - 1)),
        )
    } else {
        (NavState { stage: NavStage::PreviousSame, ..s }, Outcome::Ask(Ask::BookById(s.book_id)))
    }
}

/// One step of navigation: the next state and action after answer `a`.
pub open spec fn nav_step(s: NavState, a: Fact) -> (NavState, Outcome) {
    match (s.stage, a) {
        (NavStage::FindBook, Fact::BookId(id)) => on_book_id(NavState { book_id: id, ..s }),
        (NavStage::IntroPrevious, Fact::Book(n, ab)) => toward_next_book(
            NavState { previous: Some(page(n, ab, 0)), ..s },
        ),
        (NavStage::IntroNext, Fact::Book(n, ab)) => (
            NavState { stage: NavStage::Finished, previous: None, ..s },
            Outcome::Answer(Neighbours { previous: s.previous, next: Some(page(n, ab, 0)) }),
        ),
        (NavStage::PreviousCount, Fact::Count(c)) => (
            NavState { stage: NavStage::PreviousLast(c as i64), ..s },
            Outcome::Ask(Ask::BookById(s.book_id - 1)),
        ),
        (NavStage::PreviousLast(c), Fact::Book(n, ab)) => toward_next(
            NavState { previous: Some(page(n, ab, c as int)), ..s },
        ),
        (NavStage::PreviousSame, Fact::Book(n, ab)) => toward_next(
            NavState { previous: Some(page(n, ab, s.chapter - 1)), ..s },
        ),
        (NavStage::CurrentCount, Fact::Count(len)) => if s.chapter == len {
            (NavState { stage: NavStage::NextBook, ..s }, Outcome::Ask(Ask::BookById(s.book_id + 1)))
        } else {
            (NavState { stage: NavStage::NextSame, ..s }, Outcome::Ask(Ask::BookById(s.book_id)))
        },
        (NavStage::NextBook, Fact::Book(n, ab)) => (
            NavState { stage: NavStage::Finished, previous: None, ..s },
            Outcome::Answer(Neighbours { previous: s.previous, next: Some(page(n, ab, 1)) }),
        ),
        (NavStage::NextSame, Fact::Book(n, ab)) => (
            NavState { stage: NavStage::Finished, previous: None, ..s },
            Outcome::Answer(Neighbours { previous: s.previous, next: Some(page(n, ab, s.chapter + 1)) }),
        ),
        _ => (s, Outcome::Answer(Neighbours { previous: s.previous, next: None })),
    }
}

/// Whether a value fits an `i32`.
pub open spec fn fits_i32(v: int) -> bool {
    i32::MIN <= v <= i32::MAX
}

/// Whether a value fits an `i64`.
pub open spec fn fits_i64(v: int) -> bool {
    i64::MIN <= v <= i64::MAX
}

/// Whether an optional page's chapter fits an `i64`.
pub open spec fn page_fits(p: Option<Page>) -> bool {
    p matches Some(p) ==> fits_i64(p.chapter)
}

/// Whether the numbers of an outcome fit the machine integers that hold them.
pub open spec fn outcome_fits(o: Outcome) -> bool {
    match o {
        Outcome::Ask(Ask::BookById(id)) => fits_i32(id),
        Outcome::Ask(Ask::ChapterCount(id)) => fits_i32(id),
        Outcome::Ask(_) => true,
        Outcome::Answer(n) => page_fits(n.previous) && page_fits(n.next),
    }
}

/// Whether a step can be taken: the stage waits for an answer of this kind,
/// and no id or chapter it computes overflows (where the computation panics).
pub open spec fn can_step(s: NavState, a: Fact) -> bool {
    expects(s.stage, a) && outcome_fits(nav_step(s, a).1) && page_fits(nav_step(s, a).0.previous)
}

/// The query that finds the current book: by name when one is given, else by
/// upper-cased abbreviation.
pub open spec fn book_lookup(page: PageIn) -> Ask {
    match page.book {
        Some(b) => Ask::BookIdByName(b@),
        None => Ask::BookIdByAbbreviation(uppercase(page.abbreviation->0@)),
    }
}

/// Navigation before the current book's id is known.
pub open spec fn nav_start(chapter: int) -> NavState {
    NavState { stage: NavStage::FindBook, chapter, book_id: 0, previous: None }
}

/// Starts navigation from a page: a page that names no book is refused;
/// otherwise the navigator waits for the answer to the returned query.
pub fn get_next_page(page: &PageIn) -> (res: Result<(Navigator, NavQuery), RequestError>)
    ensures
        res is Err <==> page.book is None && page.abbreviation is None,
        res matches Err(e) ==> e == RequestError::MissingPageBook,
        res matches Ok((nav, q)) ==> nav@ == nav_start(page.chapter as int) && q@ == book_lookup(*page),
{
    let query = match &page.book {
        Some(b) => NavQuery::BookIdByName(b.clone()),
        None => match &page.abbreviation {
            Some(a) => NavQuery::BookIdByAbbreviation(to_upper(a.as_str())),
            None => {
                return Err(RequestError::MissingPageBook);
            },
        },
    };
    let nav = Navigator { stage: NavStage::FindBook, chapter: page.chapter, book_id: 0, previous: None };
    Ok((nav, query))
}

impl Navigator {
    /// Whether `answer` can be taken in the current stage (see `can_step`).
    pub fn can_advance(&self, answer: &NavAnswer) -> (res: bool)
        ensures
            res == can_step(self@, answer@),
    {
        let id = self.book_id;
        let ch = self.chapter;
        match (&self.stage, answer) {
            (NavStage::FindBook, NavAnswer::BookId(b)) => {
                let b = *b;
                if ch == 0 {
                    b == FIRST_BOOK_ID || b > i32::MIN
                } else if b == FIRST_BOOK_ID && ch == 1 {
                    true
                } else if ch == 1 {
                    b > i32::MIN
                } else {
                    true
                }
            },
            (NavStage::IntroPrevious, NavAnswer::Book { .. }) => id == LAST_BOOK_ID || id < i32::MAX,
            (NavStage::IntroNext, NavAnswer::Book { .. }) => true,
            (NavStage::PreviousCount, NavAnswer::ChapterCount(_)) => id > i32::MIN,
            (NavStage::PreviousLast(_), NavAnswer::Book { .. }) => true,
            (NavStage::PreviousSame, NavAnswer::Book { .. }) => ch > i64::MIN,
            (NavStage::CurrentCount, NavAnswer::ChapterCount(len)) => ch != *len || id < i32::MAX,
            (NavStage::NextBook, NavAnswer::Book { .. }) => true,
            (NavStage::NextSame, NavAnswer::Book { .. }) => ch < i64::MAX,
            _ => false,
        }
    }

    /// After the page before is known (see `toward_next`).
    fn next_or_finish(&mut self) -> (res: NavAction)
        ensures
            (final(self)@, res@) == toward_next(old(self)@),
    {
        if self.book_id == LAST_BOOK_ID && self.chapter == LAST_BOOK_CHAPTERS {
            self.stage = NavStage::Finished;
            let previous = self.previous.take();
            NavAction::Reply(PrevNext { previous, next: None })
        } else {
            self.stage = NavStage::CurrentCount;
            NavAction::Query(NavQuery::ChapterCount(self.book_id))
        }
    }

    /// On a book's own page, after the page before is known (see `toward_next_book`).
    fn next_book_or_finish(&mut self) -> (res: NavAction)
        requires
            old(self).book_id != LAST_BOOK_ID ==> old(self).book_id < i32::MAX,
        ensures
            (final(self)@, res@) == toward_next_book(old(self)@),
    {
        if self.book_id == LAST_BOOK_ID {
            self.stage = NavStage::Finished;
            let previous = self.previous.take();
            NavAction::Reply(PrevNext { previous, next: None })
        } else {
            self.stage = NavStage::IntroNext;
            NavAction::Query(NavQuery::BookById(self.book_id + 1))
        }
    }

    /// Takes the database's answer and says what to do next.
    pub fn advance(&mut self, answer: NavAnswer) -> (res: NavAction)
        requires
            can_step(old(self)@, answer@),
        ensures
            (final(self)@, res@) == nav_step(old(self)@, answer@),
    {
        let ghost a = answer@;
        let stage = self.stage;
        match (stage, answer) {
            (NavStage::FindBook, NavAnswer::BookId(b)) => {
                self.book_id = b;
                if self.chapter == 0 {
                    if b == FIRST_BOOK_ID {
                        self.previous = None;
                        self.next_book_or_finish()
                    } else {
                        self.stage = NavStage::IntroPrevious;
                        NavAction::Query(NavQuery::BookById(b - 1))
                    }
                } else if b == FIRST_BOOK_ID && self.chapter == 1 {
                    self.previous = None;
                    self.next_or_finish()
                } else if self.chapter == 1 {
                    self.stage = NavStage::PreviousCount;
                    NavAction::Query(NavQuery::ChapterCount(b - 1))
                } else {
                    self.stage = NavStage::PreviousSame;
                    NavAction::Query(NavQuery::BookById(b))
                }
            },
            (NavStage::IntroPrevious, NavAnswer::Book { name, abbreviation }) => {
                self.previous = Some(PageOut { book: name, abbreviation, chapter: 0 });
                self.next_book_or_finish()
            },
            (NavStage::IntroNext, NavAnswer::Book { name, abbreviation }) => {
                self.stage = NavStage::Finished;
                let previous = self.previous.take();
                NavAction::Reply(
                    PrevNext { previous, next: Some(PageOut { book: name, abbreviation, chapter: 0 }) },
                )
            },
            (NavStage::PreviousCount, NavAnswer::ChapterCount(c)) => {
                self.stage = NavStage::PreviousLast(c);
                NavAction::Query(NavQuery::BookById(self.book_id - 1))
            },
            (NavStage::PreviousLast(c), NavAnswer::Book { name, abbreviation }) => {
                self.previous = Some(PageOut { book: name, abbreviation, chapter: c });
                self.next_or_finish()
            },
            (NavStage::PreviousSame, NavAnswer::Book { name, abbreviation }) => {
                self.previous = Some(
                    PageOut { book: name, abbreviation, chapter: self.chapter - 1 },
                );
                self.next_or_finish()
            },
            (NavStage::CurrentCount, NavAnswer::ChapterCount(len)) => {
                if self.chapter == len {
                    self.stage = NavStage::NextBook;
                    NavAction::Query(NavQuery::BookById(self.book_id + 1))
                } else {
                    self.stage = NavStage::NextSame;
                    NavAction::Query(NavQuery::BookById(self.book_id))
                }
            },
            (NavStage::NextBook, NavAnswer::Book { name, abbreviation }) => {
                self.stage = NavStage::Finished;
                let previous = self.previous.take();
                NavAction::Reply(
                    PrevNext { previous, next: Some(PageOut { book: name, abbreviation, chapter: 1 }) },
                )
            },
            (NavStage::NextSame, NavAnswer::Book { name, abbreviation }) => {
                self.stage = NavStage::Finished;
                let previous = self.previous.take();
                let chapter = self.chapter + 1;
                NavAction::Reply(
                    PrevNext { previous, next: Some(PageOut { book: name, abbreviation, chapter }) },
                )
            },
            _ => {
                proof {
                    assert(false);
                }
                NavAction::Reply(PrevNext { previous: None, next: None })
            },
        }
    }
}

/// The page of book `k` of a database at a chapter.
pub open spec fn page_of(rows: spec_fn(int) -> (Seq<char>, Seq<char>), k: int, chapter: int) -> Page {
    page(rows(k).0, rows(k).1, chapter)
}

/// The neighbours of chapter `chapter` of book `id`, in a database whose book
/// `k` has the row `rows(k)` (name, abbreviation) and `counts(k)` chapters.
/// On a book's own page (chapter 0) they are the own pages of the books before
/// and after; otherwise the chapter before (the last chapter of the book
/// before, on a first chapter) and the chapter after (the first chapter of
/// the book after, on a last chapter). The first page of the canon has no page
/// before, the last no page after.
pub open spec fn expected_nav(
    id: int,
    chapter: int,
    rows: spec_fn(int) -> (Seq<char>, Seq<char>),
    counts: spec_fn(int) -> i64,
) -> Neighbours {
    if chapter == 0 {
        Neighbours {
            previous: if id == FIRST_BOOK_ID {
                None
            } else {
                Some(page_of(rows, id - 1, 0))
            },
            next: if id == LAST_BOOK_ID {
                None
            } else {
                Some(page_of(rows, id + 1, 0))
            },
        }
    } else {
        Neighbours {
            previous: if id == FIRST_BOOK_ID && chapter == 1 {
                None
            } else if chapter == 1 {
                Some(page_of(rows, id - 1, counts(id - 1) as int))
            } else {
                Some(page_of(rows, id, chapter - 1))
            },
            next: if id == LAST_BOOK_ID && chapter == LAST_BOOK_CHAPTERS {
                None
            } else if chapter == counts(id) {
                Some(page_of(rows, id + 1, 1))
            } else {
                Some(page_of(rows, id, chapter + 1))
            },
        }
    }
}

/// A database as navigation sees it: the id of the book with a name, or
/// with an abbreviation; the row (name, abbreviation) of book `k`, and its
/// number of chapters.
pub struct NavDb {
    pub by_name: spec_fn(Seq<char>) -> int,
    pub by_abbreviation: spec_fn(Seq<char>) -> int,
    pub rows: spec_fn(int) -> (Seq<char>, Seq<char>),
    pub counts: spec_fn(int) -> i64,
}

/// What a database answers to a query.
pub open spec fn db_fact(q: Ask, db: NavDb) -> Fact {
    match q {
        Ask::BookIdByName(n) => Fact::BookId((db.by_name)(n)),
        Ask::BookIdByAbbreviation(a) => Fact::BookId((db.by_abbreviation)(a)),
        Ask::BookById(k) => Fact::Book((db.rows)(k).0, (db.rows)(k).1),
        Ask::ChapterCount(k) => Fact::Count((db.counts)(k) as int),
    }
}

/// Runs navigation from state `s`, waiting for the answer to `q`, for at most
/// `fuel` answers of the database; the reply, if one comes.
pub open spec fn drive(s: NavState, q: Ask, db: NavDb, fuel: nat) -> Option<Neighbours>
    decreases fuel,
{
    if fuel == 0 {
        None
    } else {
        let (next, out) = nav_step(s, db_fact(q, db));
        match out {
            Outcome::Answer(n) => Some(n),
            Outcome::Ask(q2) => drive(next, q2, db, (fuel - 1) as nat),
        }
    }
}

/// The id that a database gives for the query that finds the current book.
pub open spec fn found_id(q: Ask, db: NavDb) -> int {
    match q {
        Ask::BookIdByName(n) => (db.by_name)(n),
        Ask::BookIdByAbbreviation(a) => (db.by_abbreviation)(a),
        _ => 0,
    }
}

/// What navigation replies, answered by a database, for chapter `chapter` of
/// the book named `book`.
pub open spec fn nav_by_name(book: Seq<char>, chapter: int, db: NavDb) -> Option<Neighbours> {
    drive(nav_start(chapter), Ask::BookIdByName(book), db, 5)
}

/// Whether an answer is of the kind that a query asks for.
pub open spec fn answers(q: Ask, a: Fact) -> bool {
    match q {
        Ask::BookIdByName(_) | Ask::BookIdByAbbreviation(_) => a is BookId,
        Ask::BookById(_) => a is Book,
        Ask::ChapterCount(_) => a is Count,
    }
}

/// Navigation answers what it should: started on a page and answered by a
/// database, it replies within five answers with the neighbours that
/// `expected_nav` gives for the page's book, as the database finds it.
pub proof fn lemma_navigation_answers(page: PageIn, db: NavDb)
    requires
        page.book is Some || page.abbreviation is Some,
    ensures
        drive(nav_start(page.chapter as int), book_lookup(page), db, 5) == Some(
            expected_nav(found_id(book_lookup(page), db), page.chapter as int, db.rows, db.counts),
        ),
{
    reveal_with_fuel(drive, 6);
}

/// Navigation by book name replies with `expected_nav` for the book with that name.
pub proof fn lemma_nav_by_name(book: Seq<char>, chapter: int, db: NavDb)
    ensures
        nav_by_name(book, chapter, db) == Some(
            expected_nav((db.by_name)(book), chapter, db.rows, db.counts),
        ),
{
    reveal_with_fuel(drive, 6);
}

/// Whether a database holds a canon shaped like the Bible's: books
/// `1..=LAST_BOOK_ID`, each found by its name, each with a chapter, the last
/// with `LAST_BOOK_CHAPTERS`.
pub open spec fn canon_shaped(db: NavDb) -> bool {
    &&& forall|k: int| FIRST_BOOK_ID <= k <= LAST_BOOK_ID ==> #[trigger] (db.by_name)((db.rows)(k).0) == k
    &&& forall|k: int| FIRST_BOOK_ID <= k <= LAST_BOOK_ID ==> #[trigger] (db.counts)(k) >= 1
    &&& (db.counts)(LAST_BOOK_ID as int) == LAST_BOOK_CHAPTERS
}

/// Whether `c` is a page of book `b`: its own page (0) or one of its chapters.
pub open spec fn is_page(db: NavDb, b: int, c: int) -> bool {
    FIRST_BOOK_ID <= b <= LAST_BOOK_ID && (c == 0 || 1 <= c <= (db.counts)(b))
}

/// Going to the page after and asking, by that page's book name, for the page
/// before leads back; so does going back and then forward. This holds for
/// every page of a database shaped like the canon.
pub proof fn lemma_pages_round_trip(b: int, c: int, db: NavDb)
    requires
        canon_shaped(db),
        is_page(db, b, c),
    ensures
        nav_by_name((db.rows)(b).0, c, db) == Some(expected_nav(b, c, db.rows, db.counts)),
        expected_nav(b, c, db.rows, db.counts).next matches Some(q) ==> (nav_by_name(
            q.book,
            q.chapter,
            db,
        ) is Some && nav_by_name(q.book, q.chapter, db)->0.previous == Some(page_of(db.rows, b, c))),
        expected_nav(b, c, db.rows, db.counts).previous matches Some(q) ==> (nav_by_name(
            q.book,
            q.chapter,
            db,
        ) is Some && nav_by_name(q.book, q.chapter, db)->0.next == Some(page_of(db.rows, b, c))),
{
    let rows = db.rows;
    let counts = db.counts;
    lemma_nav_by_name(rows(b).0, c, db);
    assert((db.by_name)(rows(b).0) == b);
    let n = expected_nav(b, c, rows, counts);
    if n.next is Some {
        let q = n.next->0;
        let b2 = if c != 0 && c < counts(b) { b } else { b + 1 };
        assert(q == page_of(rows, b2, q.chapter));
        assert(FIRST_BOOK_ID <= b2 <= LAST_BOOK_ID);
        assert((db.by_name)(rows(b2).0) == b2);
        lemma_nav_by_name(q.book, q.chapter, db);
    }
    if n.previous is Some {
        let q = n.previous->0;
        let b2 = if c == 0 || c == 1 { b - 1 } else { b };
        assert(q == page_of(rows, b2, q.chapter));
        assert(FIRST_BOOK_ID <= b2 <= LAST_BOOK_ID);
        assert((db.by_name)(rows(b2).0) == b2);
        lemma_nav_by_name(q.book, q.chapter, db);
    }
}

/// Every query that navigation asks is one whose answer the new stage waits
/// for, and navigation has finished exactly when it replies.
pub proof fn lemma_asks_what_it_waits_for(s: NavState, a: Fact)
    requires
        expects(s.stage, a),
    ensures
        nav_step(s, a).1 matches Outcome::Ask(q) ==> forall|f: Fact|
            answers(q, f) ==> expects(#[trigger] nav_step(s, a).0.stage, f),
        nav_step(s, a).1 is Answer <==> nav_step(s, a).0.stage is Finished,
{
}

/// The first page of the canon has no page before; the last has no page
/// after; the first book's own page has no page before; the last book's own
/// page no page after.
pub proof fn lemma_canon_ends(
    rows: spec_fn(int) -> (Seq<char>, Seq<char>),
    counts: spec_fn(int) -> i64,
)
    ensures
        expected_nav(FIRST_BOOK_ID as int, 1, rows, counts).previous is None,
        expected_nav(LAST_BOOK_ID as int, LAST_BOOK_CHAPTERS as int, rows, counts).next is None,
        expected_nav(FIRST_BOOK_ID as int, 0, rows, counts).previous is None,
        expected_nav(LAST_BOOK_ID as int, 0, rows, counts).next is None,
{
}

/// Within a book, the page after chapter `c` is chapter `c + 1`, and the page
/// before chapter `c + 1` is chapter `c` again.
pub proof fn lemma_within_book_round_trip(
    id: int,
    c: int,
    rows: spec_fn(int) -> (Seq<char>, Seq<char>),
    counts: spec_fn(int) -> i64,
)
    requires
        1 <= c,
        c + 1 <= counts(id),
        !(id == LAST_BOOK_ID && c == LAST_BOOK_CHAPTERS),
    ensures
        expected_nav(id, c, rows, counts).next == Some(page_of(rows, id, c + 1)),
        expected_nav(id, c + 1, rows, counts).previous == Some(page_of(rows, id, c)),
{
}

/// Across books, the page after the last chapter of book `id` is the first
/// chapter of book `id + 1`, and the page before that first chapter is the
/// last chapter of book `id` again.
pub proof fn lemma_across_books_round_trip(
    id: int,
    rows: spec_fn(int) -> (Seq<char>, Seq<char>),
    counts: spec_fn(int) -> i64,
)
    requires
        counts(id) >= 1,
        id + 1 != FIRST_BOOK_ID,
        !(id == LAST_BOOK_ID && counts(id) == LAST_BOOK_CHAPTERS),
    ensures
        expected_nav(id, counts(id) as int, rows, counts).next == Some(page_of(rows, id + 1, 1)),
        expected_nav(id + 1, 1, rows, counts).previous == Some(
            page_of(rows, id, counts(id) as int),
        ),
{
}

/// On a book's own page, the books before and after are reached on their own
/// pages, and from the book after, the book before it is this one again.
pub proof fn lemma_book_pages_round_trip(
    id: int,
    rows: spec_fn(int) -> (Seq<char>, Seq<char>),
    counts: spec_fn(int) -> i64,
)
    requires
        id != LAST_BOOK_ID,
        id + 1 != FIRST_BOOK_ID,
    ensures
        expected_nav(id, 0, rows, counts).next == Some(page_of(rows, id + 1, 0)),
        expected_nav(id + 1, 0, rows, counts).previous == Some(page_of(rows, id, 0)),
{
}

/// The id (1-based) at which a list of names first holds `n`; 0 for none.
pub open spec fn id_in(names: Seq<Seq<char>>, n: Seq<char>) -> int {
    match names.index_of_first(n) {
        Some(i) => i + 1,
        None => 0,
    }
}

/// A database that holds the canon: book `k` is the `k`-th book of the canon.
pub open spec fn canon_db() -> NavDb {
    NavDb {
        by_name: |n: Seq<char>| id_in(book_names(), n),
        by_abbreviation: |a: Seq<char>| id_in(abbreviations(), a),
        rows: |k: int| (spec_book_name(k - 1), spec_abbreviation(k - 1)),
        counts: |k: int| spec_chapter_count(k - 1) as i64,
    }
}

/// The database of the canon is shaped like the canon.
pub proof fn lemma_canon_db_shaped()
    ensures
        canon_shaped(canon_db()),
{
    let db = canon_db();
    lemma_canon_distinct();
    assert forall|k: int| FIRST_BOOK_ID <= k <= LAST_BOOK_ID implies #[trigger] (db.by_name)(
        (db.rows)(k).0,
    ) == k by {
        let names = book_names();
        assert(names[k - 1] == spec_book_name(k - 1));
        names.index_of_first_ensures(spec_book_name(k - 1));
    }
    assert forall|k: int| FIRST_BOOK_ID <= k <= LAST_BOOK_ID implies #[trigger] (db.counts)(k) >= 1 by {
        assert(spec_chapter_count(k - 1) >= 1);
    }
}

/// On the canon, every page round-trips: forward then back by name, and back
/// then forward by name, lead to the page again.
pub proof fn lemma_canon_pages_round_trip(b: int, c: int)
    requires
        is_page(canon_db(), b, c),
    ensures
        expected_nav(b, c, canon_db().rows, canon_db().counts).next matches Some(q) ==> (nav_by_name(
            q.book,
            q.chapter,
            canon_db(),
        ) is Some && nav_by_name(q.book, q.chapter, canon_db())->0.previous == Some(
            page_of(canon_db().rows, b, c),
        )),
        expected_nav(b, c, canon_db().rows, canon_db().counts).previous matches Some(q) ==> (
        nav_by_name(q.book, q.chapter, canon_db()) is Some && nav_by_name(
            q.book,
            q.chapter,
            canon_db(),
        )->0.next == Some(page_of(canon_db().rows, b, c))),
{
    lemma_canon_db_shaped();
    lemma_pages_round_trip(b, c, canon_db());
}

} // verus!
