use bible_api::canon::book_name;
use bible_api::query::{SqlArg, SqlPart};
use bible_api::search::{search, SearchParameters};
use bible_api::sql::{SEARCH_BASE_OPEN, SEARCH_ORDER_OPEN, SEARCH_PARALLEL_SELECT};

fn sql(s: &str) -> SqlPart {
    SqlPart::Sql(s.to_string())
}

fn text(s: &str) -> SqlPart {
    SqlPart::Bind(SqlArg::Text(s.to_string()))
}

fn params(search_text: &str) -> SearchParameters {
    SearchParameters {
        search_text: search_text.to_string(),
        match_case: None,
        whole_words: None,
        translation: "kjv".to_string(),
        books: None,
        abbreviations: None,
        testament: None,
        parallel_translations: None,
    }
}

fn tail(translations: &[&str]) -> Vec<SqlPart> {
    let mut v = vec![sql(SEARCH_PARALLEL_SELECT)];
    for (i, t) in translations.iter().enumerate() {
        if i > 0 {
            v.push(sql(", "));
        }
        v.push(text(t));
    }
    v.push(sql(")"));
    v.push(sql(SEARCH_ORDER_OPEN));
    v.push(text(translations[0]));
    v.push(sql(" THEN 1 ELSE 2 END"));
    v
}

#[test]
fn short_search_texts_find_nothing() {
    assert!(search(&params("")).is_none());
    assert!(search(&params("ab")).is_none());
    assert!(search(&params("é")).is_none());
    assert!(search(&params("éa")).is_some());
    assert!(search(&params("abc")).is_some());
    assert!(search(&params("   ")).is_some());
}

#[test]
fn substring_search_without_case() {
    let q = search(&params("  love  ")).unwrap();
    let mut expected = vec![
        sql(SEARCH_BASE_OPEN),
        sql("ilike "),
        text("%love%"),
        sql(" AND translation="),
        text("KJV"),
        sql(")"),
    ];
    expected.extend(tail(&["KJV"]));
    assert_eq!(q.parts, expected);
}

#[test]
fn match_modes() {
    let mut p = params("Light");
    p.match_case = Some(true);
    assert_eq!(search(&p).unwrap().parts[1..3], [sql("like "), text("%Light%")]);
    p.whole_words = Some(true);
    assert_eq!(search(&p).unwrap().parts[1..3], [sql("~ "), text("\\mLight\\M")]);
    p.match_case = Some(false);
    assert_eq!(search(&p).unwrap().parts[1..3], [sql("~* "), text("\\mLight\\M")]);
    p.whole_words = Some(false);
    assert_eq!(search(&p).unwrap().parts[1..3], [sql("ilike "), text("%Light%")]);
}

#[test]
fn book_and_abbreviation_filters() {
    let mut p = params("grace");
    p.books = Some(vec!["Romans".to_string(), "Galatians".to_string()]);
    p.abbreviations = Some(vec!["eph".to_string()]);
    p.parallel_translations = Some(vec!["bsb".to_string(), "web".to_string()]);
    let q = search(&p).unwrap();
    let mut expected = vec![
        sql(SEARCH_BASE_OPEN),
        sql("ilike "),
        text("%grace%"),
        sql(" AND translation="),
        text("KJV"),
        sql(" AND book IN ("),
        text("Romans"),
        sql(", "),
        text("Galatians"),
        sql(")"),
        sql(" AND abbreviation IN ("),
        text("EPH"),
        sql(")"),
        sql(")"),
    ];
    expected.extend(tail(&["KJV", "BSB", "WEB"]));
    assert_eq!(q.parts, expected);
}

#[test]
fn empty_lists_add_nothing() {
    let mut p = params("grace");
    p.books = Some(Vec::new());
    p.abbreviations = Some(Vec::new());
    p.parallel_translations = Some(Vec::new());
    p.testament = Some("apocrypha".to_string());
    let q = search(&p).unwrap();
    assert_eq!(q.parts, search(&params("grace")).unwrap().parts);
}

#[test]
fn testament_filter_narrows_the_matches() {
    let mut p = params("faith");
    p.testament = Some("nt".to_string());
    let q = search(&p).unwrap();
    let mut expected = vec![
        sql(SEARCH_BASE_OPEN),
        sql("ilike "),
        text("%faith%"),
        sql(" AND translation="),
        text("KJV"),
        sql(" AND book IN ("),
    ];
    for i in 39..66 {
        if i > 39 {
            expected.push(sql(", "));
        }
        expected.push(text(book_name(i)));
    }
    expected.push(sql(")"));
    expected.push(sql(")"));
    expected.extend(tail(&["KJV"]));
    assert_eq!(q.parts, expected);
}

#[test]
fn search_text_is_trimmed_before_matching() {
    let padded = search(&params(" \t love\u{3000}\u{a0}")).unwrap();
    let plain = search(&params("love")).unwrap();
    assert_eq!(padded.parts, plain.parts);
    assert_eq!(padded.parts[2], text("%love%"));
}

#[test]
fn testament_with_other_filters_stays_inside_the_matches() {
    let mut p = params("peace");
    p.abbreviations = Some(vec!["jhn".to_string()]);
    p.testament = Some("old".to_string());
    let q = search(&p).unwrap();
    assert_eq!(q.parts[5], sql(" AND abbreviation IN ("));
    assert_eq!(q.parts[6], text("JHN"));
    assert_eq!(q.parts[7], sql(")"));
    assert_eq!(q.parts[8], sql(" AND book IN ("));
    assert_eq!(q.parts[9], text("Genesis"));
    let close = 8 + 2 * 39;
    assert_eq!(q.parts[close], sql(")"));
    assert_eq!(q.parts[close + 1], sql(")"));
    assert_eq!(q.parts[close + 2], sql(SEARCH_PARALLEL_SELECT));
}
