use bible_api::canon::{
    abbreviation, book_index, book_name, chapter_count, find_abbreviation, find_book_name,
    testament_books, verse_count, BOOK_COUNT, OLD_TESTAMENT_COUNT,
};
use bible_api::errors::RequestError;
use bible_api::verses::{get_chaptercount, get_chaptercount_book, Count};

#[test]
fn canon_data_lines_up() {
    assert_eq!(book_name(0), "Genesis");
    assert_eq!(abbreviation(0), "GEN");
    assert_eq!(chapter_count(0), 50);
    assert_eq!(verse_count(0), 1533);
    assert_eq!(book_name(18), "Psalms");
    assert_eq!(chapter_count(18), 150);
    assert_eq!(verse_count(18), 2461);
    assert_eq!(book_name(38), "Malachi");
    assert_eq!(book_name(39), "Matthew");
    assert_eq!(book_name(65), "Revelation");
    assert_eq!(abbreviation(65), "REV");
    assert_eq!(chapter_count(65), 22);
}

#[test]
fn canon_totals() {
    let verses: u32 = (0..BOOK_COUNT).map(verse_count).sum();
    let chapters: u32 = (0..BOOK_COUNT).map(chapter_count).sum();
    assert_eq!(verses, 31102);
    assert_eq!(chapters, 1189);
    let ot_verses: u32 = (0..OLD_TESTAMENT_COUNT).map(verse_count).sum();
    let ot_chapters: u32 = (0..OLD_TESTAMENT_COUNT).map(chapter_count).sum();
    assert_eq!(ot_verses, 23145);
    assert_eq!(ot_chapters, 929);
}

#[test]
fn canon_names_and_abbreviations_are_distinct() {
    for i in 0..BOOK_COUNT {
        for j in 0..BOOK_COUNT {
            if i != j {
                assert_ne!(book_name(i), book_name(j));
                assert_ne!(abbreviation(i), abbreviation(j));
            }
        }
    }
}

#[test]
fn every_name_and_abbreviation_finds_its_book() {
    for i in 0..BOOK_COUNT {
        assert_eq!(find_book_name(book_name(i)), Some(i));
        assert_eq!(find_abbreviation(abbreviation(i)), Some(i));
        assert_eq!(book_index(book_name(i)), Some(i));
        assert_eq!(book_index(abbreviation(i)), Some(i));
        assert_eq!(book_index(&abbreviation(i).to_lowercase()), Some(i));
    }
}

#[test]
fn book_index_cases() {
    assert_eq!(book_index("Genesis"), Some(0));
    assert_eq!(book_index("gen"), Some(0));
    assert_eq!(book_index("Gen"), Some(0));
    assert_eq!(book_index("genesis"), None);
    assert_eq!(book_index("GENESIS"), None);
    assert_eq!(book_index("Job"), Some(17));
    assert_eq!(book_index("job"), Some(17));
    assert_eq!(book_index("1 John"), Some(61));
    assert_eq!(book_index("1jn"), Some(61));
    assert_eq!(book_index(""), None);
    assert_eq!(find_book_name("Gen"), None);
    assert_eq!(find_abbreviation("gen"), None);
}

#[test]
fn testament_books_by_name() {
    for t in ["old", "ot", "old_testament"] {
        let books = testament_books(t);
        assert_eq!(books.len(), 39);
        assert_eq!(books[0], "Genesis");
        assert_eq!(books[38], "Malachi");
    }
    for t in ["new", "nt", "new_testament"] {
        let books = testament_books(t);
        assert_eq!(books.len(), 27);
        assert_eq!(books[0], "Matthew");
        assert_eq!(books[26], "Revelation");
    }
    assert!(testament_books("OLD").is_empty());
    assert!(testament_books("apocrypha").is_empty());
    assert!(testament_books("").is_empty());
    let mut all = testament_books("ot");
    all.extend(testament_books("nt"));
    let canon: Vec<String> = (0..BOOK_COUNT).map(|i| book_name(i).to_string()).collect();
    assert_eq!(all, canon);
}

#[test]
fn chaptercount_by_name_or_abbreviation() {
    assert_eq!(get_chaptercount_book("Revelation"), Ok(Count { chapters: 22, verses: 404 }));
    assert_eq!(get_chaptercount_book("rev"), Ok(Count { chapters: 22, verses: 404 }));
    assert_eq!(get_chaptercount_book("Obadiah"), Ok(Count { chapters: 1, verses: 21 }));
    assert_eq!(get_chaptercount_book("2ki"), Ok(Count { chapters: 25, verses: 719 }));
}

#[test]
fn chaptercount_of_unknown_book() {
    let err = get_chaptercount_book("Maccabees").unwrap_err();
    assert_eq!(err, RequestError::InvalidBook("Maccabees".to_string()));
    assert_eq!(err.message(), "Invalid URL parameter: Maccabees");
    assert_eq!(
        get_chaptercount_book("revelation"),
        Err(RequestError::InvalidBook("revelation".to_string()))
    );
}

#[test]
fn chaptercount_of_every_book() {
    let all = get_chaptercount();
    assert_eq!(all.len(), 66);
    assert_eq!(all[0], ("Genesis", 50));
    assert_eq!(all[18], ("Psalms", 150));
    assert_eq!(all[65], ("Revelation", 22));
    for (i, (name, chapters)) in all.iter().enumerate() {
        assert_eq!(*name, book_name(i));
        assert_eq!(*chapters, chapter_count(i) as i64);
    }
}
