use bible_api::errors::RequestError;
use bible_api::query::{SqlArg, SqlPart};
use bible_api::sql::{RANDOM_VERSE_SELECT, VERSES_SELECT};
use bible_api::verses::{
    books_source, get_books, get_random_verse, get_translation_books, get_verses, query_verses,
    translation_key, verse_by_id, BooksSource, TranslationSelector, VerseFilter, VERSE_COUNT,
};

fn sql(s: &str) -> SqlPart {
    SqlPart::Sql(s.to_string())
}

fn text(s: &str) -> SqlPart {
    SqlPart::Bind(SqlArg::Text(s.to_string()))
}

fn num(v: i32) -> SqlPart {
    SqlPart::Bind(SqlArg::Int(v))
}

fn no_filter() -> VerseFilter {
    VerseFilter {
        abbreviation: None,
        ab: None,
        book: None,
        b: None,
        ch: None,
        chapter: None,
        sch: None,
        startchapter: None,
        ech: None,
        endchapter: None,
        v: None,
        verse: None,
        sv: None,
        startverse: None,
        ev: None,
        endverse: None,
        tr: None,
        translation: None,
    }
}

#[test]
fn verses_by_abbreviation_and_chapter() {
    let mut f = no_filter();
    f.abbreviation = Some("gen".to_string());
    f.ch = Some(1);
    let q = query_verses(&f);
    assert_eq!(
        q.parts,
        vec![
            sql(VERSES_SELECT),
            sql(" WHERE abbreviation="),
            text("GEN"),
            sql(" AND chapter="),
            num(1),
            sql(" ORDER BY id"),
        ]
    );
}

#[test]
fn verses_first_book_condition_opens_with_where() {
    let mut f = no_filter();
    f.ab = Some("jhn".to_string());
    f.b = Some("John".to_string());
    let q = query_verses(&f);
    assert_eq!(
        q.parts,
        vec![
            sql(VERSES_SELECT),
            sql(" WHERE abbreviation="),
            text("JHN"),
            sql(" AND book="),
            text("John"),
            sql(" ORDER BY id"),
        ]
    );
    let mut f = no_filter();
    f.book = Some("John".to_string());
    f.b = Some("Jude".to_string());
    let q = query_verses(&f);
    assert_eq!(
        q.parts,
        vec![
            sql(VERSES_SELECT),
            sql(" WHERE book="),
            text("John"),
            sql(" AND book="),
            text("Jude"),
            sql(" ORDER BY id"),
        ]
    );
    let mut f = no_filter();
    f.b = Some("Ruth".to_string());
    let q = query_verses(&f);
    assert_eq!(q.parts, vec![sql(VERSES_SELECT), sql(" WHERE book="), text("Ruth"), sql(" ORDER BY id")]);
}

#[test]
fn verses_every_filter_in_order() {
    let f = VerseFilter {
        abbreviation: Some("psa".to_string()),
        ab: Some("Psa".to_string()),
        book: Some("Psalms".to_string()),
        b: Some("Psalms".to_string()),
        ch: Some(1),
        chapter: Some(2),
        sch: Some(3),
        startchapter: Some(4),
        ech: Some(5),
        endchapter: Some(6),
        v: Some(7),
        verse: Some(8),
        sv: Some(9),
        startverse: Some(10),
        ev: Some(11),
        endverse: Some(12),
        tr: Some("kjv".to_string()),
        translation: Some("bsb".to_string()),
    };
    let q = query_verses(&f);
    assert_eq!(
        q.parts,
        vec![
            sql(VERSES_SELECT),
            sql(" WHERE abbreviation="),
            text("PSA"),
            sql(" AND abbreviation="),
            text("PSA"),
            sql(" AND book="),
            text("Psalms"),
            sql(" AND book="),
            text("Psalms"),
            sql(" AND chapter="),
            num(1),
            sql(" AND chapter="),
            num(2),
            sql(" AND chapter>="),
            num(3),
            sql(" AND chapter>="),
            num(4),
            sql(" AND chapter<="),
            num(5),
            sql(" AND chapter<="),
            num(6),
            sql(" AND verse_number="),
            num(7),
            sql(" AND verse_number="),
            num(8),
            sql(" AND verse_number>="),
            num(9),
            sql(" AND verse_number>="),
            num(10),
            sql(" AND verse_number<="),
            num(11),
            sql(" AND verse_number<="),
            num(12),
            sql(" AND translation="),
            text("KJV"),
            sql(" AND translation="),
            text("BSB"),
            sql(" ORDER BY id"),
        ]
    );
}

#[test]
fn verses_without_book_are_refused() {
    let mut f = no_filter();
    f.chapter = Some(3);
    let err = get_verses(&f).unwrap_err();
    assert_eq!(err, RequestError::MissingBookOrAbbreviation);
    assert_eq!(err.message(), "Either one of book or abbreviation parameters is required");
    f.b = Some("Mark".to_string());
    let q = get_verses(&f).unwrap();
    assert_eq!(q.parts, query_verses(&f).parts);
}

#[test]
fn verse_by_id_in_a_translation() {
    let sel = TranslationSelector { translation: Some("kjv".to_string()), tr: Some("bsb".to_string()) };
    let q = verse_by_id(5, &sel);
    assert_eq!(q.parts, vec![sql(RANDOM_VERSE_SELECT), num(5), sql(" and t.name="), text("KJV")]);
    let sel = TranslationSelector { translation: None, tr: Some("bsb".to_string()) };
    let q = verse_by_id(31101, &sel);
    assert_eq!(q.parts, vec![sql(RANDOM_VERSE_SELECT), num(31101), sql(" and t.name="), text("BSB")]);
    let sel = TranslationSelector { translation: None, tr: None };
    let q = verse_by_id(1, &sel);
    assert_eq!(q.parts, vec![sql(RANDOM_VERSE_SELECT), num(1)]);
}

#[test]
fn random_verse_ids_stay_in_range() {
    let sel = TranslationSelector { translation: None, tr: Some("web".to_string()) };
    for _ in 0..2000 {
        let q = get_random_verse(&sel);
        assert_eq!(q.parts.len(), 4);
        assert_eq!(q.parts[0], sql(RANDOM_VERSE_SELECT));
        match &q.parts[1] {
            SqlPart::Bind(SqlArg::Int(id)) => assert!(1 <= *id && *id <= VERSE_COUNT),
            other => panic!("unexpected part {:?}", other),
        }
        assert_eq!(q.parts[3], text("WEB"));
    }
}

#[test]
fn books_source_selection() {
    let none = TranslationSelector { translation: None, tr: None };
    assert_eq!(books_source(&none), BooksSource::AllBooks);
    let short = TranslationSelector { translation: None, tr: Some("kjv".to_string()) };
    assert_eq!(books_source(&short), BooksSource::Translation("KJV".to_string()));
    let both = TranslationSelector { translation: Some("bsb".to_string()), tr: Some("kjv".to_string()) };
    assert_eq!(books_source(&both), BooksSource::Translation("BSB".to_string()));
    let empty_long = TranslationSelector { translation: Some(String::new()), tr: Some("kjv".to_string()) };
    assert_eq!(books_source(&empty_long), BooksSource::AllBooks);
}

#[test]
fn books_split_by_testament() {
    let names: Vec<String> = (0..66).map(|i| format!("book {}", i)).collect();
    let t = get_books(names.clone()).unwrap();
    assert_eq!(t.old, names[..39].to_vec());
    assert_eq!(t.new, names[39..].to_vec());
    let mut joined = t.old.clone();
    joined.extend(t.new.clone());
    assert_eq!(joined, names);
}

#[test]
fn incomplete_book_list_is_refused() {
    let names: Vec<String> = (0..65).map(|i| format!("book {}", i)).collect();
    let err = get_books(names).unwrap_err();
    assert_eq!(err, RequestError::IncompleteBookList);
    assert_eq!(err.message(), "Not all books were fetched, check if the translation name is correct");
    assert_eq!(get_books(Vec::new()), Err(RequestError::IncompleteBookList));
    let names: Vec<String> = (0..67).map(|i| format!("book {}", i)).collect();
    assert_eq!(get_books(names), Err(RequestError::IncompleteBookList));
}

#[test]
fn translation_keys_and_missing_translations() {
    assert_eq!(translation_key("kjv"), "KJV");
    assert_eq!(translation_key("Bsb"), "BSB");
    assert_eq!(get_translation_books("KJV".to_string(), 66), Ok(()));
    let err = get_translation_books("XYZ".to_string(), 0).unwrap_err();
    assert_eq!(err, RequestError::TranslationNotFound("XYZ".to_string()));
    assert_eq!(err.message(), "The requested translation XYZ is not found on the server");
}

#[test]
fn short_names_are_aliases_of_long_names() {
    let mut f1 = no_filter();
    f1.abbreviation = Some("gen".to_string());
    f1.chapter = Some(2);
    f1.sv = Some(3);
    f1.tr = Some("kjv".to_string());
    let mut f2 = no_filter();
    f2.ab = Some("gen".to_string());
    f2.ch = Some(2);
    f2.startverse = Some(3);
    f2.translation = Some("kjv".to_string());
    assert_eq!(query_verses(&f1).parts, query_verses(&f2).parts);
    let mut f3 = no_filter();
    f3.book = Some("Genesis".to_string());
    let mut f4 = no_filter();
    f4.b = Some("Genesis".to_string());
    assert_eq!(query_verses(&f3).parts, query_verses(&f4).parts);
}

#[test]
fn last_verse_can_be_asked_for() {
    let sel = TranslationSelector { translation: None, tr: None };
    assert_eq!(verse_by_id(VERSE_COUNT, &sel).parts, vec![sql(RANDOM_VERSE_SELECT), num(31102)]);
    assert_eq!(VERSE_COUNT, 31102);
}

#[test]
fn verse_query_ignores_translation_case_and_alias() {
    let s1 = TranslationSelector { translation: Some("Kjv".to_string()), tr: Some("web".to_string()) };
    let s2 = TranslationSelector { translation: Some("kjv".to_string()), tr: None };
    let s3 = TranslationSelector { translation: None, tr: Some("Kjv".to_string()) };
    let q1 = verse_by_id(77, &s1).parts;
    assert_eq!(q1, verse_by_id(77, &s2).parts);
    assert_eq!(q1, verse_by_id(77, &s3).parts);
    assert_eq!(q1[3], text("KJV"));
}
