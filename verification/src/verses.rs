use vstd::prelude::*;

use crate::canon::{
    book_name, chapter_count, lemma_canon_totals, spec_book_index, spec_book_name,
    spec_chapter_count, spec_verse_count, verse_count, verses_before, BOOK_COUNT,
    OLD_TESTAMENT_COUNT,
};
use crate::errors::RequestError;
use crate::query::{
    has_run, joined_parts, lemma_has_run_back, lemma_has_run_front, lemma_has_run_in_part,
    lemma_has_run_whole, Piece, SqlQuery,
};
use crate::sql::{RANDOM_VERSE_SELECT, VERSES_SELECT};
use crate::text::{to_upper, uppercase};
use rand::Rng;

verus! {

/// Filters of a verse listing. Each filter comes under a long and a short name.
pub struct VerseFilter {
    pub abbreviation: Option<String>,
    pub ab: Option<String>,
    pub book: Option<String>,
    pub b: Option<String>,
    pub ch: Option<i32>,
    pub chapter: Option<i32>,
    pub sch: Option<i32>,
    pub startchapter: Option<i32>,
    pub ech: Option<i32>,
    pub endchapter: Option<i32>,
    pub v: Option<i32>,
    pub verse: Option<i32>,
    pub sv: Option<i32>,
    pub startverse: Option<i32>,
    pub ev: Option<i32>,
    pub endverse: Option<i32>,
    pub tr: Option<String>,
    pub translation: Option<String>,
}

/// Picks a translation by its long or its short name.
pub struct TranslationSelector {
    pub translation: Option<String>,
    pub tr: Option<String>,
}

/// Chapter and verse totals of one book.
#[derive(Debug, PartialEq, Eq, Clone, Copy)]
pub struct Count {
    pub chapters: i64,
    pub verses: i64,
}

/// `sql` followed by the value bound to it, when a value is given.
pub open spec fn text_clause(value: Option<String>, sql: Seq<char>) -> Seq<Piece> {
    match value {
        Some(s) => seq![Piece::Sql(sql), Piece::Text(s@)],
        None => Seq::empty(),
    }
}

/// `sql` followed by the upper-cased value bound to it, when a value is given.
pub open spec fn upper_clause(value: Option<String>, sql: Seq<char>) -> Seq<Piece> {
    match value {
        Some(s) => seq![Piece::Sql(sql), Piece::Text(uppercase(s@))],
        None => Seq::empty(),
    }
}

/// `sql` followed by the integer bound to it, when one is given.
pub open spec fn int_clause(value: Option<i32>, sql: Seq<char>) -> Seq<Piece> {
    match value {
        Some(v) => seq![Piece::Sql(sql), Piece::Int(v as int)],
        None => Seq::empty(),
    }
}

/// `WHERE` before the first condition of a listing, `AND` after it.
pub open spec fn joined(earlier: bool, condition: Seq<char>) -> Seq<char> {
    if earlier {
        " AND "@ + condition
    } else {
        " WHERE "@ + condition
    }
}

/// The verse listing for a filter: book conditions open with `WHERE` (the
/// first one given) or `AND`; chapter, verse and translation conditions always
/// with `AND`; abbreviations and translations are upper-cased; ordered by id.
/// A filter with no book condition thus gives a statement whose first
/// condition opens with `AND` and no `WHERE`, which the database rejects;
/// `get_verses` refuses such a filter before it is built.
pub open spec fn verse_listing(f: VerseFilter) -> Seq<Piece> {
    seq![Piece::Sql(VERSES_SELECT@)] + abbreviation_conditions(f) + book_conditions(f)
        + (int_clause(f.ch, " AND chapter="@) + int_clause(f.chapter, " AND chapter="@))
        + (int_clause(f.sch, " AND chapter>="@) + int_clause(f.startchapter, " AND chapter>="@))
        + (int_clause(f.ech, " AND chapter<="@) + int_clause(f.endchapter, " AND chapter<="@))
        + (int_clause(f.v, " AND verse_number="@) + int_clause(f.verse, " AND verse_number="@))
        + (int_clause(f.sv, " AND verse_number>="@) + int_clause(
        f.startverse,
        " AND verse_number>="@,
    )) + (int_clause(f.ev, " AND verse_number<="@) + int_clause(f.endverse, " AND verse_number<="@))
        + (upper_clause(f.tr, " AND translation="@) + upper_clause(
        f.translation,
        " AND translation="@,
    )) + seq![Piece::Sql(" ORDER BY id"@)]
}

/// The abbreviation conditions of a verse listing.
pub open spec fn abbreviation_conditions(f: VerseFilter) -> Seq<Piece> {
    upper_clause(f.abbreviation, " WHERE abbreviation="@) + upper_clause(
        f.ab,
        joined(f.abbreviation is Some, "abbreviation="@),
    )
}

/// The book conditions of a verse listing.
pub open spec fn book_conditions(f: VerseFilter) -> Seq<Piece> {
    text_clause(f.book, joined(f.abbreviation is Some || f.ab is Some, "book="@)) + text_clause(
        f.b,
        joined(f.abbreviation is Some || f.ab is Some || f.book is Some, "book="@),
    )
}

fn push_text_clause(q: &mut SqlQuery, value: &Option<String>, sql: &str)
    ensures
        final(q)@ == old(q)@ + text_clause(*value, sql@),
{
    if let Some(s) = value {
        q.push(sql);
        q.push_bind_text(s.clone());
    }
    assert(q@ =~= old(q)@ + text_clause(*value, sql@));
}

fn push_upper_clause(q: &mut SqlQuery, value: &Option<String>, sql: &str)
    ensures
        final(q)@ == old(q)@ + upper_clause(*value, sql@),
{
    if let Some(s) = value {
        q.push(sql);
        q.push_bind_text(to_upper(s.as_str()));
    }
    assert(q@ =~= old(q)@ + upper_clause(*value, sql@));
}

fn push_int_clause(q: &mut SqlQuery, value: Option<i32>, sql: &str)
    ensures
        final(q)@ == old(q)@ + int_clause(value, sql@),
{
    if let Some(v) = value {
        q.push(sql);
        q.push_bind_int(v);
    }
    assert(q@ =~= old(q)@ + int_clause(value, sql@));
}

fn push_abbreviation_conditions(q: &mut SqlQuery, f: &VerseFilter)
    ensures
        final(q)@ == old(q)@ + abbreviation_conditions(*f),
{
    push_upper_clause(q, &f.abbreviation, " WHERE abbreviation=");
    proof {
        reveal_strlit(" AND ");
        reveal_strlit(" WHERE ");
        reveal_strlit("abbreviation=");
        reveal_strlit(" WHERE abbreviation=");
        reveal_strlit(" AND abbreviation=");
        assert(joined(f.abbreviation is Some, "abbreviation="@) =~= (if f.abbreviation is Some {
            " AND abbreviation="@
        } else {
            " WHERE abbreviation="@
        }));
    }
    push_upper_clause(
        q,
        &f.ab,
        if f.abbreviation.is_none() {
            " WHERE abbreviation="
        } else {
            " AND abbreviation="
        },
    );
    assert(q@ =~= old(q)@ + abbreviation_conditions(*f));
}

fn push_book_conditions(q: &mut SqlQuery, f: &VerseFilter)
    ensures
        final(q)@ == old(q)@ + book_conditions(*f),
{
    let earlier = f.abbreviation.is_some() || f.ab.is_some();
    proof {
        reveal_strlit(" AND ");
        reveal_strlit(" WHERE ");
        reveal_strlit("book=");
        reveal_strlit(" WHERE book=");
        reveal_strlit(" AND book=");
        assert(joined(earlier, "book="@) =~= (if earlier {
            " AND book="@
        } else {
            " WHERE book="@
        }));
        assert(joined(earlier || f.book is Some, "book="@) =~= (if earlier || f.book is Some {
            " AND book="@
        } else {
            " WHERE book="@
        }));
    }
    push_text_clause(
        q,
        &f.book,
        if earlier {
            " AND book="
        } else {
            " WHERE book="
        },
    );
    push_text_clause(
        q,
        &f.b,
        if earlier || f.book.is_some() {
            " AND book="
        } else {
            " WHERE book="
        },
    );
    assert(q@ =~= old(q)@ + book_conditions(*f));
}

fn push_int_pair(q: &mut SqlQuery, short: Option<i32>, long: Option<i32>, sql: &str)
    ensures
        final(q)@ == old(q)@ + (int_clause(short, sql@) + int_clause(long, sql@)),
{
    push_int_clause(q, short, sql);
    push_int_clause(q, long, sql);
    assert(q@ =~= old(q)@ + (int_clause(short, sql@) + int_clause(long, sql@)));
}

/// The verse listing query for a filter.
pub fn query_verses(f: &VerseFilter) -> (res: SqlQuery)
    ensures
        res@ == verse_listing(*f),
{
    let mut q = SqlQuery::new(VERSES_SELECT);
    push_abbreviation_conditions(&mut q, f);
    push_book_conditions(&mut q, f);
    push_int_pair(&mut q, f.ch, f.chapter, " AND chapter=");
    push_int_pair(&mut q, f.sch, f.startchapter, " AND chapter>=");
    push_int_pair(&mut q, f.ech, f.endchapter, " AND chapter<=");
    push_int_pair(&mut q, f.v, f.verse, " AND verse_number=");
    push_int_pair(&mut q, f.sv, f.startverse, " AND verse_number>=");
    push_int_pair(&mut q, f.ev, f.endverse, " AND verse_number<=");
    let ghost before = q@;
    push_upper_clause(&mut q, &f.tr, " AND translation=");
    push_upper_clause(&mut q, &f.translation, " AND translation=");
    assert(q@ =~= before + (upper_clause(f.tr, " AND translation="@) + upper_clause(
        f.translation,
        " AND translation="@,
    )));
    q.push(" ORDER BY id");
    q
}

/// Whether a filter names a book, by name or by abbreviation.
pub open spec fn names_book(f: VerseFilter) -> bool {
    f.book is Some || f.b is Some || f.abbreviation is Some || f.ab is Some
}

/// The verse listing query, refused when the filter names no book.
pub fn get_verses(f: &VerseFilter) -> (res: Result<SqlQuery, RequestError>)
    ensures
        names_book(*f) <==> res is Ok,
        res matches Ok(q) ==> q@ == verse_listing(*f),
        res matches Err(e) ==> e == RequestError::MissingBookOrAbbreviation,
{
    if f.book.is_none() && f.b.is_none() && f.abbreviation.is_none() && f.ab.is_none() {
        return Err(RequestError::MissingBookOrAbbreviation);
    }
    Ok(query_verses(f))
}

/// Number of verses of the canon; verse ids run from 1 to it.
pub const VERSE_COUNT: i32 = 31102;

/// Calls `rand::rng().random_range(low..=high)`: a value drawn by the
/// thread's generator, which the contract claims lies in `low..=high`; which
/// value comes is left open. `random_range` panics on an empty range, which
/// `requires` leaves out; the thread's generator also panics when the
/// operating system's source of randomness fails, which depends on the
/// machine and no argument can rule out.
#[verifier::external_body]
fn random_in(low: i32, high: i32) -> (res: i32)
    requires
        low <= high,
    ensures
        low <= res <= high,
{
    rand::rng().random_range(low..=high)
}

/// The query for the verse with id `verse_id`, in the selected translation
/// (the long name wins over the short one) when one is selected.
pub open spec fn random_verse_listing(verse_id: int, sel: TranslationSelector) -> Seq<Piece> {
    seq![Piece::Sql(RANDOM_VERSE_SELECT@), Piece::Int(verse_id)] + match sel.translation {
        Some(t) => seq![Piece::Sql(" and t.name="@), Piece::Text(uppercase(t@))],
        None => upper_clause(sel.tr, " and t.name="@),
    }
}

/// The query for the verse with id `verse_id`.
pub fn verse_by_id(verse_id: i32, sel: &TranslationSelector) -> (res: SqlQuery)
    ensures
        res@ == random_verse_listing(verse_id as int, *sel),
{
    let mut q = SqlQuery::new(RANDOM_VERSE_SELECT);
    q.push_bind_int(verse_id);
    if let Some(t) = &sel.translation {
        q.push(" and t.name=");
        q.push_bind_text(to_upper(t.as_str()));
    } else {
        push_upper_clause(&mut q, &sel.tr, " and t.name=");
    }
    assert(q@ =~= random_verse_listing(verse_id as int, *sel));
    q
}

/// The query for a verse drawn at random from all verses, `1..=VERSE_COUNT`.
pub fn get_random_verse(sel: &TranslationSelector) -> (res: SqlQuery)
    ensures
        exists|id: int|
            #![trigger random_verse_listing(id, *sel)]
            1 <= id <= VERSE_COUNT && res@ == random_verse_listing(id, *sel),
{
    let id = random_in(1, VERSE_COUNT);
    let q = verse_by_id(id, sel);
    assert(1 <= (id as int) && (id as int) <= VERSE_COUNT && q@ == random_verse_listing(id as int, *sel));
    q
}

/// Where the list of book names comes from.
#[derive(Debug, PartialEq, Eq)]
pub enum BooksSource {
    /// The canonical names of all books.
    AllBooks,
    /// The names that a translation gives the books; holds the upper-cased
    /// translation name.
    Translation(String),
}

/// The translation that a selector names: the long name wins; none is empty.
pub open spec fn selected_translation(sel: TranslationSelector) -> Seq<char> {
    match sel.translation {
        Some(t) => t@,
        None => match sel.tr {
            Some(t) => t@,
            None => Seq::empty(),
        },
    }
}

/// Where to take the book names from for a selector.
pub fn books_source(sel: &TranslationSelector) -> (res: BooksSource)
    ensures
        res is AllBooks <==> selected_translation(*sel).len() == 0,
        res matches BooksSource::Translation(t) ==> t@ == uppercase(selected_translation(*sel)),
{
    let mut name = String::new();
    if let Some(t) = &sel.translation {
        name = t.clone();
    } else if let Some(t) = &sel.tr {
        name = t.clone();
    }
    if name.as_str().is_empty() {
        BooksSource::AllBooks
    } else {
        BooksSource::Translation(to_upper(name.as_str()))
    }
}

/// Book names split by testament.
#[derive(Debug, PartialEq, Eq)]
pub struct Testaments {
    pub old: Vec<String>,
    pub new: Vec<String>,
}

/// Splits the book names, in canonical order, into the two testaments; a
/// list that does not hold every book is refused.
pub fn get_books(names: Vec<String>) -> (res: Result<Testaments, RequestError>)
    ensures
        res is Ok <==> names@.len() == BOOK_COUNT,
        res matches Ok(t) ==> {
            &&& t.old@ == names@.subrange(0, OLD_TESTAMENT_COUNT as int)
            &&& t.new@ == names@.subrange(OLD_TESTAMENT_COUNT as int, BOOK_COUNT as int)
        },
        res matches Err(e) ==> e == RequestError::IncompleteBookList,
{
    if names.len() != BOOK_COUNT {
        return Err(RequestError::IncompleteBookList);
    }
    let mut old: Vec<String> = Vec::new();
    let mut new: Vec<String> = Vec::new();
    let mut i: usize = 0;
    while i < BOOK_COUNT
        invariant
            names@.len() == BOOK_COUNT,
            i <= BOOK_COUNT,
            i <= OLD_TESTAMENT_COUNT ==> old@ == names@.subrange(0, i as int) && new@.len() == 0,
            i > OLD_TESTAMENT_COUNT ==> old@ == names@.subrange(0, OLD_TESTAMENT_COUNT as int)
                && new@ == names@.subrange(OLD_TESTAMENT_COUNT as int, i as int),
        decreases BOOK_COUNT - i,
    {
        if i < OLD_TESTAMENT_COUNT {
            old.push(names[i].clone());
            assert(old@ =~= names@.subrange(0, i + 1));
        } else {
            new.push(names[i].clone());
            assert(new@ =~= names@.subrange(OLD_TESTAMENT_COUNT as int, i + 1));
        }
        i = i + 1;
    }
    Ok(Testaments { old, new })
}

/// Chapter and verse totals of the book that a path segment names, by full
/// name or by abbreviation in any case; a segment that names no book is refused.
pub fn get_chaptercount_book(book: &str) -> (res: Result<Count, RequestError>)
    ensures
        match spec_book_index(book@) {
            Some(i) => res matches Ok(c) && c.chapters == spec_chapter_count(i)
                && c.verses == spec_verse_count(i),
            None => res matches Err(RequestError::InvalidBook(b)) && b@ == book@,
        },
{
    match crate::canon::book_index(book) {
        Some(i) => Ok(Count { chapters: chapter_count(i) as i64, verses: verse_count(i) as i64 }),
        None => Err(RequestError::InvalidBook(String::from_str(book))),
    }
}

/// Every book with its number of chapters, in canonical order.
pub fn get_chaptercount() -> (res: Vec<(&'static str, i64)>)
    ensures
        res@.len() == BOOK_COUNT,
        forall|i: int|
            0 <= i < BOOK_COUNT ==> (#[trigger] res@[i]).0@ == spec_book_name(i) && res@[i].1
                == spec_chapter_count(i),
{
    let mut res: Vec<(&'static str, i64)> = Vec::new();
    let mut i: usize = 0;
    while i < BOOK_COUNT
        invariant
            i <= BOOK_COUNT,
            res@.len() == i,
            forall|j: int|
                0 <= j < i ==> (#[trigger] res@[j]).0@ == spec_book_name(j) && res@[j].1
                    == spec_chapter_count(j),
        decreases BOOK_COUNT - i,
    {
        res.push((book_name(i), chapter_count(i) as i64));
        i = i + 1;
    }
    res
}

/// The key under which a translation is stored: its name upper-cased.
pub fn translation_key(name: &str) -> (res: String)
    ensures
        res@ == uppercase(name@),
{
    to_upper(name)
}

/// A translation with no books is refused, naming the translation.
pub fn get_translation_books(key: String, book_count: usize) -> (res: Result<(), RequestError>)
    ensures
        res is Ok <==> book_count > 0,
        res matches Err(e) ==> e == RequestError::TranslationNotFound(key),
{
    if book_count == 0 {
        Err(RequestError::TranslationNotFound(key))
    } else {
        Ok(())
    }
}

/// The random draw covers exactly the verses of the canon: its range
/// `1..=VERSE_COUNT` runs from the first verse to the last.
pub proof fn lemma_random_ids_name_verses()
    ensures
        VERSE_COUNT == verses_before(BOOK_COUNT as int),
{
    lemma_canon_totals();
}

/// The two testaments that `get_books` returns, joined, are the list it was given.
pub proof fn lemma_testaments_rejoin(names: Seq<String>)
    requires
        names.len() == BOOK_COUNT,
    ensures
        names.subrange(0, OLD_TESTAMENT_COUNT as int) + names.subrange(
            OLD_TESTAMENT_COUNT as int,
            BOOK_COUNT as int,
        ) == names,
{
    assert(names.subrange(0, OLD_TESTAMENT_COUNT as int) + names.subrange(
        OLD_TESTAMENT_COUNT as int,
        BOOK_COUNT as int,
    ) =~= names);
}

/// Whether the pair `(long2, short2)` holds the values of `(long1, short1)`,
/// either as they are or with the single value given moved to the other name.
pub open spec fn moved_between_names<T>(
    long1: Option<T>,
    short1: Option<T>,
    long2: Option<T>,
    short2: Option<T>,
) -> bool {
    ||| long1 == long2 && short1 == short2
    ||| long1 is Some && short1 is None && long2 is None && short2 == long1
    ||| long1 is None && short1 is Some && long2 == short1 && short2 is None
}

/// Whether `f2` is `f1` with values moved between long and short names.
pub open spec fn same_filter_by_alias(f1: VerseFilter, f2: VerseFilter) -> bool {
    &&& moved_between_names(f1.abbreviation, f1.ab, f2.abbreviation, f2.ab)
    &&& moved_between_names(f1.book, f1.b, f2.book, f2.b)
    &&& moved_between_names(f1.chapter, f1.ch, f2.chapter, f2.ch)
    &&& moved_between_names(f1.startchapter, f1.sch, f2.startchapter, f2.sch)
    &&& moved_between_names(f1.endchapter, f1.ech, f2.endchapter, f2.ech)
    &&& moved_between_names(f1.verse, f1.v, f2.verse, f2.v)
    &&& moved_between_names(f1.startverse, f1.sv, f2.startverse, f2.sv)
    &&& moved_between_names(f1.endverse, f1.ev, f2.endverse, f2.ev)
    &&& moved_between_names(f1.translation, f1.tr, f2.translation, f2.tr)
}

proof fn lemma_int_pair_moved(a1: Option<i32>, b1: Option<i32>, a2: Option<i32>, b2: Option<i32>, sql: Seq<char>)
    requires
        moved_between_names(a1, b1, a2, b2),
    ensures
        int_clause(b1, sql) + int_clause(a1, sql) == int_clause(b2, sql) + int_clause(a2, sql),
{
    assert(int_clause(b1, sql) + int_clause(a1, sql) =~= int_clause(b2, sql) + int_clause(a2, sql));
}

proof fn lemma_text_pairs_moved(f1: VerseFilter, f2: VerseFilter)
    requires
        same_filter_by_alias(f1, f2),
    ensures
        abbreviation_conditions(f1) == abbreviation_conditions(f2),
        book_conditions(f1) == book_conditions(f2),
        upper_clause(f1.tr, " AND translation="@) + upper_clause(f1.translation, " AND translation="@)
            == upper_clause(f2.tr, " AND translation="@) + upper_clause(
            f2.translation,
            " AND translation="@,
        ),
{
    reveal_strlit(" AND ");
    reveal_strlit(" WHERE ");
    reveal_strlit("abbreviation=");
    reveal_strlit(" WHERE abbreviation=");
    assert(joined(false, "abbreviation="@) =~= " WHERE abbreviation="@);
    assert(abbreviation_conditions(f1) =~= abbreviation_conditions(f2));
    assert(book_conditions(f1) =~= book_conditions(f2));
    assert(upper_clause(f1.tr, " AND translation="@) + upper_clause(
        f1.translation,
        " AND translation="@,
    ) =~= upper_clause(f2.tr, " AND translation="@) + upper_clause(
        f2.translation,
        " AND translation="@,
    ));
}

/// Each short name is an exact alias of its long name: a filter with a value
/// moved from one to the other gives the same verse listing.
pub proof fn lemma_verse_listing_aliases(f1: VerseFilter, f2: VerseFilter)
    requires
        same_filter_by_alias(f1, f2),
    ensures
        verse_listing(f1) == verse_listing(f2),
{
    lemma_text_pairs_moved(f1, f2);
    lemma_int_pair_moved(f1.chapter, f1.ch, f2.chapter, f2.ch, " AND chapter="@);
    lemma_int_pair_moved(f1.startchapter, f1.sch, f2.startchapter, f2.sch, " AND chapter>="@);
    lemma_int_pair_moved(f1.endchapter, f1.ech, f2.endchapter, f2.ech, " AND chapter<="@);
    lemma_int_pair_moved(f1.verse, f1.v, f2.verse, f2.v, " AND verse_number="@);
    lemma_int_pair_moved(f1.startverse, f1.sv, f2.startverse, f2.sv, " AND verse_number>="@);
    lemma_int_pair_moved(f1.endverse, f1.ev, f2.endverse, f2.ev, " AND verse_number<="@);
}

/// The upper-cased translation that a selector picks for a verse, if any:
/// the long name wins over the short one.
pub open spec fn picked_translation(sel: TranslationSelector) -> Option<Seq<char>> {
    match sel.translation {
        Some(t) => Some(uppercase(t@)),
        None => match sel.tr {
            Some(t) => Some(uppercase(t@)),
            None => None,
        },
    }
}

/// The query for a verse depends on the selector only through the
/// upper-cased translation it picks.
pub proof fn lemma_verse_query_by_picked_translation(
    id: int,
    s1: TranslationSelector,
    s2: TranslationSelector,
)
    requires
        picked_translation(s1) == picked_translation(s2),
    ensures
        random_verse_listing(id, s1) == random_verse_listing(id, s2),
{
    assert(random_verse_listing(id, s1) =~= random_verse_listing(id, s2));
}

/// For an ASCII translation name `x`: selecting `x` by its long name (with
/// any short name beside it), its lower-case form by its long name, or `x`
/// by its short name asks for the same verse query.
pub proof fn lemma_verse_query_ignores_case_and_alias(
    id: int,
    x: String,
    s1: TranslationSelector,
    s2: TranslationSelector,
    s3: TranslationSelector,
)
    requires
        vstd::utf8::is_ascii_chars(x@),
        s1.translation == Some(x),
        s2.translation matches Some(t) && t@ == crate::text::ascii_lowercase(x@),
        s2.tr is None,
        s3.translation is None,
        s3.tr == Some(x),
    ensures
        random_verse_listing(id, s1) == random_verse_listing(id, s2),
        random_verse_listing(id, s1) == random_verse_listing(id, s3),
{
    crate::text::lemma_uppercase_ignores_ascii_case(x@);
    lemma_verse_query_by_picked_translation(id, s1, s2);
    lemma_verse_query_by_picked_translation(id, s1, s3);
}

/// 1 when a filter is given, 0 when not.
pub open spec fn given<T>(x: Option<T>) -> int {
    if x is Some {
        1
    } else {
        0
    }
}

/// How many filters a verse filter gives.
pub open spec fn given_count(f: VerseFilter) -> int {
    given(f.abbreviation) + given(f.ab) + given(f.book) + given(f.b) + given(f.ch) + given(f.chapter) + given(f.sch) + given(f.startchapter) + given(f.ech) + given(f.endchapter) + given(f.v) + given(f.verse) + given(f.sv) + given(f.startverse) + given(f.ev) + given(f.endverse) + given(f.tr) + given(f.translation)
}

proof fn lemma_int_clause_run(x: Option<i32>, op: Seq<char>)
    ensures
        x matches Some(v) ==> has_run(int_clause(x, op), seq![Piece::Sql(op), Piece::Int(v as int)]),
{
    if let Some(v) = x {
        lemma_has_run_whole(seq![Piece::Sql(op), Piece::Int(v as int)]);
        assert(int_clause(x, op) =~= seq![Piece::Sql(op), Piece::Int(v as int)]);
    }
}

proof fn lemma_upper_clause_run(x: Option<String>, op: Seq<char>)
    ensures
        x matches Some(t) ==> has_run(
            upper_clause(x, op),
            seq![Piece::Sql(op), Piece::Text(uppercase(t@))],
        ),
{
    if let Some(t) = x {
        lemma_has_run_whole(upper_clause(x, op));
    }
}

proof fn lemma_text_clause_run(x: Option<String>, op: Seq<char>)
    ensures
        x matches Some(t) ==> has_run(text_clause(x, op), seq![Piece::Sql(op), Piece::Text(t@)]),
{
    if let Some(t) = x {
        lemma_has_run_whole(text_clause(x, op));
    }
}

/// The parts of a verse listing: its head, its abbreviation and book
/// conditions, the condition pairs of each kind, and its order.
pub open spec fn listing_parts(f: VerseFilter) -> Seq<Seq<Piece>> {
    seq![
        seq![Piece::Sql(VERSES_SELECT@)],
        abbreviation_conditions(f),
        book_conditions(f),
        int_clause(f.ch, " AND chapter="@) + int_clause(f.chapter, " AND chapter="@),
        int_clause(f.sch, " AND chapter>="@) + int_clause(f.startchapter, " AND chapter>="@),
        int_clause(f.ech, " AND chapter<="@) + int_clause(f.endchapter, " AND chapter<="@),
        int_clause(f.v, " AND verse_number="@) + int_clause(f.verse, " AND verse_number="@),
        int_clause(f.sv, " AND verse_number>="@) + int_clause(f.startverse, " AND verse_number>="@),
        int_clause(f.ev, " AND verse_number<="@) + int_clause(f.endverse, " AND verse_number<="@),
        upper_clause(f.tr, " AND translation="@) + upper_clause(f.translation, " AND translation="@),
        seq![Piece::Sql(" ORDER BY id"@)],
    ]
}

proof fn lemma_listing_parts(f: VerseFilter)
    ensures
        verse_listing(f) == joined_parts(listing_parts(f)),
{
    let p = listing_parts(f);
    reveal_with_fuel(joined_parts, 12);
    assert(p.drop_last().drop_last().drop_last().drop_last().drop_last().drop_last().drop_last().drop_last().drop_last().drop_last().drop_last() =~= Seq::<Seq<Piece>>::empty());
    assert(verse_listing(f) =~= joined_parts(p));
}

/// A verse listing holds one condition per filter given and nothing else
/// besides its head and its order.
pub proof fn lemma_verse_listing_shape(f: VerseFilter)
    ensures
        verse_listing(f).len() == 2 + 2 * given_count(f),
        verse_listing(f)[0] == Piece::Sql(VERSES_SELECT@),
        verse_listing(f).last() == Piece::Sql(" ORDER BY id"@),
{
    let l = verse_listing(f);
    assert(abbreviation_conditions(f).len() == 2 * given(f.abbreviation) + 2 * given(f.ab));
    assert(book_conditions(f).len() == 2 * given(f.book) + 2 * given(f.b));
    assert(int_clause(f.ch, " AND chapter="@).len() == 2 * given(f.ch));
    assert(int_clause(f.chapter, " AND chapter="@).len() == 2 * given(f.chapter));
    assert(int_clause(f.sch, " AND chapter>="@).len() == 2 * given(f.sch));
    assert(int_clause(f.startchapter, " AND chapter>="@).len() == 2 * given(f.startchapter));
    assert(int_clause(f.ech, " AND chapter<="@).len() == 2 * given(f.ech));
    assert(int_clause(f.endchapter, " AND chapter<="@).len() == 2 * given(f.endchapter));
    assert(int_clause(f.v, " AND verse_number="@).len() == 2 * given(f.v));
    assert(int_clause(f.verse, " AND verse_number="@).len() == 2 * given(f.verse));
    assert(int_clause(f.sv, " AND verse_number>="@).len() == 2 * given(f.sv));
    assert(int_clause(f.startverse, " AND verse_number>="@).len() == 2 * given(f.startverse));
    assert(int_clause(f.ev, " AND verse_number<="@).len() == 2 * given(f.ev));
    assert(int_clause(f.endverse, " AND verse_number<="@).len() == 2 * given(f.endverse));
    assert(upper_clause(f.tr, " AND translation="@).len() == 2 * given(f.tr));
    assert(upper_clause(f.translation, " AND translation="@).len() == 2 * given(f.translation));
}

proof fn lemma_run_in_listing(f: VerseFilter, k: int, r: Seq<Piece>)
    requires
        0 <= k < listing_parts(f).len(),
        has_run(listing_parts(f)[k], r),
    ensures
        has_run(verse_listing(f), r),
{
    lemma_listing_parts(f);
    lemma_has_run_in_part(listing_parts(f), k, r);
}

proof fn lemma_number_pair_runs(
    f: VerseFilter,
    k: int,
    short: Option<i32>,
    long: Option<i32>,
    op: Seq<char>,
)
    requires
        3 <= k <= 8,
        listing_parts(f).len() == 11,
        listing_parts(f)[k] == int_clause(short, op) + int_clause(long, op),
    ensures
        short matches Some(v) ==> has_run(verse_listing(f), seq![Piece::Sql(op), Piece::Int(v as int)]),
        long matches Some(v) ==> has_run(verse_listing(f), seq![Piece::Sql(op), Piece::Int(v as int)]),
{
    if let Some(v) = short {
        let r = seq![Piece::Sql(op), Piece::Int(v as int)];
        lemma_int_clause_run(short, op);
        lemma_has_run_front(int_clause(short, op), int_clause(long, op), r);
        lemma_run_in_listing(f, k, r);
    }
    if let Some(v) = long {
        let r = seq![Piece::Sql(op), Piece::Int(v as int)];
        lemma_int_clause_run(long, op);
        lemma_has_run_back(int_clause(short, op), int_clause(long, op), r);
        lemma_run_in_listing(f, k, r);
    }
}

/// Every chapter and verse filter given shows in the verse listing as its
/// comparison with the value bound, whatever else the filter holds.
pub proof fn lemma_verse_listing_holds_number_filters(f: VerseFilter)
    ensures
        f.ch matches Some(v) ==> has_run(
            verse_listing(f),
            seq![Piece::Sql(" AND chapter="@), Piece::Int(v as int)],
        ),
        f.chapter matches Some(v) ==> has_run(
            verse_listing(f),
            seq![Piece::Sql(" AND chapter="@), Piece::Int(v as int)],
        ),
        f.sch matches Some(v) ==> has_run(
            verse_listing(f),
            seq![Piece::Sql(" AND chapter>="@), Piece::Int(v as int)],
        ),
        f.startchapter matches Some(v) ==> has_run(
            verse_listing(f),
            seq![Piece::Sql(" AND chapter>="@), Piece::Int(v as int)],
        ),
        f.ech matches Some(v) ==> has_run(
            verse_listing(f),
            seq![Piece::Sql(" AND chapter<="@), Piece::Int(v as int)],
        ),
        f.endchapter matches Some(v) ==> has_run(
            verse_listing(f),
            seq![Piece::Sql(" AND chapter<="@), Piece::Int(v as int)],
        ),
        f.v matches Some(v) ==> has_run(
            verse_listing(f),
            seq![Piece::Sql(" AND verse_number="@), Piece::Int(v as int)],
        ),
        f.verse matches Some(v) ==> has_run(
            verse_listing(f),
            seq![Piece::Sql(" AND verse_number="@), Piece::Int(v as int)],
        ),
        f.sv matches Some(v) ==> has_run(
            verse_listing(f),
            seq![Piece::Sql(" AND verse_number>="@), Piece::Int(v as int)],
        ),
        f.startverse matches Some(v) ==> has_run(
            verse_listing(f),
            seq![Piece::Sql(" AND verse_number>="@), Piece::Int(v as int)],
        ),
        f.ev matches Some(v) ==> has_run(
            verse_listing(f),
            seq![Piece::Sql(" AND verse_number<="@), Piece::Int(v as int)],
        ),
        f.endverse matches Some(v) ==> has_run(
            verse_listing(f),
            seq![Piece::Sql(" AND verse_number<="@), Piece::Int(v as int)],
        ),
{
    lemma_number_pair_runs(f, 3, f.ch, f.chapter, " AND chapter="@);
    lemma_number_pair_runs(f, 4, f.sch, f.startchapter, " AND chapter>="@);
    lemma_number_pair_runs(f, 5, f.ech, f.endchapter, " AND chapter<="@);
    lemma_number_pair_runs(f, 6, f.v, f.verse, " AND verse_number="@);
    lemma_number_pair_runs(f, 7, f.sv, f.startverse, " AND verse_number>="@);
    lemma_number_pair_runs(f, 8, f.ev, f.endverse, " AND verse_number<="@);
}

/// Every book and translation filter given shows in the verse listing as its
/// condition with the value bound; a book condition opens with `WHERE` when it
/// is the first book condition and with `AND` otherwise.
pub proof fn lemma_verse_listing_holds_name_filters(f: VerseFilter)
    ensures
        f.tr matches Some(t) ==> has_run(
            verse_listing(f),
            seq![Piece::Sql(" AND translation="@), Piece::Text(uppercase(t@))],
        ),
        f.translation matches Some(t) ==> has_run(
            verse_listing(f),
            seq![Piece::Sql(" AND translation="@), Piece::Text(uppercase(t@))],
        ),
        f.abbreviation matches Some(a) ==> has_run(
            verse_listing(f),
            seq![Piece::Sql(" WHERE abbreviation="@), Piece::Text(uppercase(a@))],
        ),
        f.ab matches Some(a) ==> has_run(
            verse_listing(f),
            seq![
                Piece::Sql(
                    if f.abbreviation is Some {
                        " AND abbreviation="@
                    } else {
                        " WHERE abbreviation="@
                    },
                ),
                Piece::Text(uppercase(a@)),
            ],
        ),
        f.book matches Some(x) ==> has_run(
            verse_listing(f),
            seq![
                Piece::Sql(
                    if f.abbreviation is Some || f.ab is Some {
                        " AND book="@
                    } else {
                        " WHERE book="@
                    },
                ),
                Piece::Text(x@),
            ],
        ),
        f.b matches Some(x) ==> has_run(
            verse_listing(f),
            seq![
                Piece::Sql(
                    if f.abbreviation is Some || f.ab is Some || f.book is Some {
                        " AND book="@
                    } else {
                        " WHERE book="@
                    },
                ),
                Piece::Text(x@),
            ],
        ),
{
    reveal_strlit(" AND ");
    reveal_strlit(" WHERE ");
    reveal_strlit("abbreviation=");
    reveal_strlit(" WHERE abbreviation=");
    reveal_strlit(" AND abbreviation=");
    reveal_strlit("book=");
    reveal_strlit(" WHERE book=");
    reveal_strlit(" AND book=");
    assert(joined(true, "abbreviation="@) =~= " AND abbreviation="@);
    assert(joined(false, "abbreviation="@) =~= " WHERE abbreviation="@);
    assert(joined(true, "book="@) =~= " AND book="@);
    assert(joined(false, "book="@) =~= " WHERE book="@);
    assert(listing_parts(f).len() == 11);
    let ea = joined(f.abbreviation is Some, "abbreviation="@);
    let eb = joined(f.abbreviation is Some || f.ab is Some, "book="@);
    let ec = joined(f.abbreviation is Some || f.ab is Some || f.book is Some, "book="@);
    if let Some(a) = f.abbreviation {
        let r = seq![Piece::Sql(" WHERE abbreviation="@), Piece::Text(uppercase(a@))];
        lemma_upper_clause_run(f.abbreviation, " WHERE abbreviation="@);
        lemma_has_run_front(upper_clause(f.abbreviation, " WHERE abbreviation="@), upper_clause(f.ab, ea), r);
        lemma_run_in_listing(f, 1, r);
    }
    if let Some(a) = f.ab {
        let r = seq![Piece::Sql(ea), Piece::Text(uppercase(a@))];
        lemma_upper_clause_run(f.ab, ea);
        lemma_has_run_back(upper_clause(f.abbreviation, " WHERE abbreviation="@), upper_clause(f.ab, ea), r);
        lemma_run_in_listing(f, 1, r);
    }
    if let Some(x) = f.book {
        let r = seq![Piece::Sql(eb), Piece::Text(x@)];
        lemma_text_clause_run(f.book, eb);
        lemma_has_run_front(text_clause(f.book, eb), text_clause(f.b, ec), r);
        lemma_run_in_listing(f, 2, r);
    }
    if let Some(x) = f.b {
        let r = seq![Piece::Sql(ec), Piece::Text(x@)];
        lemma_text_clause_run(f.b, ec);
        lemma_has_run_back(text_clause(f.book, eb), text_clause(f.b, ec), r);
        lemma_run_in_listing(f, 2, r);
    }
    if let Some(t) = f.tr {
        let r = seq![Piece::Sql(" AND translation="@), Piece::Text(uppercase(t@))];
        lemma_upper_clause_run(f.tr, " AND translation="@);
        lemma_has_run_front(upper_clause(f.tr, " AND translation="@), upper_clause(f.translation, " AND translation="@), r);
        lemma_run_in_listing(f, 9, r);
    }
    if let Some(t) = f.translation {
        let r = seq![Piece::Sql(" AND translation="@), Piece::Text(uppercase(t@))];
        lemma_upper_clause_run(f.translation, " AND translation="@);
        lemma_has_run_back(upper_clause(f.tr, " AND translation="@), upper_clause(f.translation, " AND translation="@), r);
        lemma_run_in_listing(f, 9, r);
    }
}

/// The query for a verse asks for that verse by its id, and, when the
/// selector picks a translation, for that translation upper-cased; nothing
/// else.
pub proof fn lemma_verse_query_asks_for_its_verse(id: int, sel: TranslationSelector)
    ensures
        random_verse_listing(id, sel).take(2) == seq![
            Piece::Sql(RANDOM_VERSE_SELECT@),
            Piece::Int(id),
        ],
        picked_translation(sel) matches Some(t) ==> random_verse_listing(id, sel) == seq![
            Piece::Sql(RANDOM_VERSE_SELECT@),
            Piece::Int(id),
            Piece::Sql(" and t.name="@),
            Piece::Text(t),
        ],
        picked_translation(sel) is None ==> random_verse_listing(id, sel).len() == 2,
{
    assert(random_verse_listing(id, sel).take(2) =~= seq![
        Piece::Sql(RANDOM_VERSE_SELECT@),
        Piece::Int(id),
    ]);
    if let Some(t) = picked_translation(sel) {
        assert(random_verse_listing(id, sel) =~= seq![
            Piece::Sql(RANDOM_VERSE_SELECT@),
            Piece::Int(id),
            Piece::Sql(" and t.name="@),
            Piece::Text(t),
        ]);
    }
}

} // verus!
