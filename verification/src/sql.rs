use vstd::prelude::*;

verus! {

/// The listing of verses, before any filter.
pub const VERSES_SELECT: &'static str = r#"SELECT translation, book, abbreviation, book_name, chapter, verse_number, verse FROM fulltable"#;

/// One verse by its id, joined with its book and translation names; the id follows.
pub const RANDOM_VERSE_SELECT: &'static str = r#"
        SELECT
            t.name AS translation,
            b.name AS book,
            b.abbreviation AS abbreviation,
            bb.name AS book_name,
            c.chapter_number AS chapter,
            v.verse_number AS verse_number,
            vv.verse AS verse
        FROM "VerseText" vv
        JOIN "Translation" t
            ON t.id = vv.translation_id
        JOIN "Verse" v
            ON v.id = vv.verse_id
        JOIN "Chapter" c
            ON c.id = v.chapter_id
        JOIN "Book" b
            ON b.id = c.book_id
        JOIN "TranslationBookName" bb
            ON bb.book_id = b.id
        AND vv.translation_id = bb.translation_id
        WHERE
            vv.verse_id=
        "#;

/// Opens the search's common table of matching verses; the match operator follows.
pub const SEARCH_BASE_OPEN: &'static str = r#"
        WITH base AS (
            SELECT id, book, chapter, verse_number
            FROM fulltable
            WHERE verse "#;

/// Selects every requested translation of each matching verse; the translations follow.
pub const SEARCH_PARALLEL_SELECT: &'static str = r#"
        SELECT f.translation, f.book, f.abbreviation, f.book_name,
               f.chapter, f.verse_number, f.verse
        FROM fulltable f
        JOIN base b
          ON f.book = b.book
         AND f.chapter = b.chapter
         AND f.verse_number = b.verse_number
        WHERE f.translation IN ("#;

/// Orders by verse, the searched translation first; that translation follows.
pub const SEARCH_ORDER_OPEN: &'static str = r#"
        ORDER BY b.id,
                 CASE f.translation
                    WHEN "#;

} // verus!
