use vstd::prelude::*;

use crate::canon::{testament_book_names, testament_books};
use crate::query::{
    has_run, interleaved, joined_parts, lemma_has_run_in_part, lemma_has_run_whole,
    lemma_separated_texts_interleave, separated_texts, Piece, SqlQuery,
};
use crate::sql::{SEARCH_BASE_OPEN, SEARCH_ORDER_OPEN, SEARCH_PARALLEL_SELECT};
use crate::text::{
    lemma_trimmed_idempotent, to_upper, trim, trimmed, upper_all, upper_views, uppercase, views,
};
use vstd::utf8::encode_utf8;

verus! {

/// A text search over one translation, with optional filters and further
/// translations to show beside each match.
pub struct SearchParameters {
    pub search_text: String,
    pub match_case: Option<bool>,
    pub whole_words: Option<bool>,
    pub translation: String,
    pub books: Option<Vec<String>>,
    pub abbreviations: Option<Vec<String>>,
    pub testament: Option<String>,
    pub parallel_translations: Option<Vec<String>>,
}

/// Search texts shorter than this many bytes find nothing.
pub const MIN_SEARCH_BYTES: usize = 3;

/// `open`, then the items bound and separated by `, `, then `)`; nothing for no item.
pub open spec fn in_list(open: Seq<char>, items: Seq<Seq<char>>) -> Seq<Piece> {
    if items.len() > 0 {
        seq![Piece::Sql(open)] + separated_texts(items) + seq![Piece::Sql(")"@)]
    } else {
        Seq::empty()
    }
}

/// The items of an optional list; none for an absent list.
pub open spec fn listed(v: Option<Vec<String>>, upper: bool) -> Seq<Seq<char>> {
    match v {
        Some(items) => if upper {
            upper_views(items@)
        } else {
            views(items@)
        },
        None => Seq::empty(),
    }
}

/// How the search text is matched: as whole words, by regular expression
/// (`~` with case, `~*` without); else as a substring (`like` with case,
/// `ilike` without). The text is trimmed first.
pub open spec fn text_match(p: SearchParameters) -> Seq<Piece> {
    let text = trimmed(p.search_text@);
    let match_case = p.match_case == Some(true);
    if p.whole_words == Some(true) {
        seq![
            Piece::Sql(if match_case { "~ "@ } else { "~* "@ }),
            Piece::Text("\\m"@ + text + "\\M"@),
        ]
    } else {
        seq![
            Piece::Sql(if match_case { "like "@ } else { "ilike "@ }),
            Piece::Text("%"@ + text + "%"@),
        ]
    }
}

/// The search query: the matching verses of the translation, narrowed to the
/// listed books and abbreviations and to the books of the named testament;
/// then every requested translation of each
/// match, ordered by match with the searched translation first. Translation
/// names and abbreviations are upper-cased.
pub open spec fn search_listing(p: SearchParameters) -> Seq<Piece> {
    let translation = uppercase(p.translation@);
    seq![Piece::Sql(SEARCH_BASE_OPEN@)] + text_match(p) + narrowing(p) + seq![
        Piece::Sql(SEARCH_PARALLEL_SELECT@),
    ] + separated_texts(seq![translation] + listed(p.parallel_translations, true)) + seq![
        Piece::Sql(")"@),
        Piece::Sql(SEARCH_ORDER_OPEN@),
        Piece::Text(translation),
        Piece::Sql(" THEN 1 ELSE 2 END"@),
    ]
}

/// `open`, the values separated by `, `, and `)`, when there is a value.
fn push_in_list(q: &mut SqlQuery, open: &str, values: &Vec<String>)
    ensures
        final(q)@ == old(q)@ + in_list(open@, views(values@)),
{
    if values.len() > 0 {
        q.push(open);
        q.push_bind_list(values);
        q.push(")");
    }
    assert(q@ =~= old(q)@ + in_list(open@, views(values@)));
}

/// The search text with the wildcards around it that its matching needs.
fn pattern(text: &str, whole_words: bool) -> (res: String)
    ensures
        res@ == (if whole_words {
            "\\m"@ + text@ + "\\M"@
        } else {
            "%"@ + text@ + "%"@
        }),
{
    if whole_words {
        String::from_str("\\m").concat(text).concat("\\M")
    } else {
        String::from_str("%").concat(text).concat("%")
    }
}

/// Appends how the search text is matched.
fn push_text_match(q: &mut SqlQuery, p: &SearchParameters)
    ensures
        final(q)@ == old(q)@ + text_match(*p),
{
    let match_case = match p.match_case {
        Some(b) => b,
        None => false,
    };
    let whole_words = match p.whole_words {
        Some(b) => b,
        None => false,
    };
    if whole_words {
        q.push(if match_case { "~ " } else { "~* " });
    } else {
        q.push(if match_case { "like " } else { "ilike " });
    }
    q.push_bind_text(pattern(trim(p.search_text.as_str()), whole_words));
    assert(q@ =~= old(q)@ + text_match(*p));
}

/// The conditions that narrow the matches: translation, books,
/// abbreviations, and the testament's books.
pub open spec fn narrowing_conditions(p: SearchParameters) -> Seq<Piece> {
    seq![Piece::Sql(" AND translation="@), Piece::Text(uppercase(p.translation@))] + in_list(
        " AND book IN ("@,
        listed(p.books, false),
    ) + in_list(" AND abbreviation IN ("@, listed(p.abbreviations, true)) + testament_condition(p)
}

/// The condition on the testament's books, when a testament is named.
pub open spec fn testament_condition(p: SearchParameters) -> Seq<Piece> {
    match p.testament {
        Some(t) => in_list(" AND book IN ("@, testament_book_names(t@)),
        None => Seq::empty(),
    }
}

/// The narrowing of the matches: its conditions and the close of the matches.
pub open spec fn narrowing(p: SearchParameters) -> Seq<Piece> {
    narrowing_conditions(p) + seq![Piece::Sql(")"@)]
}

/// Appends the narrowing of the matches.
fn push_narrowing(q: &mut SqlQuery, p: &SearchParameters, translation: &String)
    requires
        translation@ == uppercase(p.translation@),
    ensures
        final(q)@ == old(q)@ + narrowing(*p),
{
    q.push(" AND translation=");
    q.push_bind_text(translation.clone());
    let ghost s1 = q@;
    if let Some(books) = &p.books {
        push_in_list(q, " AND book IN (", books);
    }
    assert(q@ =~= s1 + in_list(" AND book IN ("@, listed(p.books, false)));
    let ghost s2 = q@;
    if let Some(abbreviations) = &p.abbreviations {
        let upper = upper_all(abbreviations);
        push_in_list(q, " AND abbreviation IN (", &upper);
    }
    assert(q@ =~= s2 + in_list(" AND abbreviation IN ("@, listed(p.abbreviations, true)));
    let ghost s3 = q@;
    if let Some(t) = &p.testament {
        let books = testament_books(t.as_str());
        push_in_list(q, " AND book IN (", &books);
    }
    assert(q@ =~= s3 + match p.testament {
        Some(t) => in_list(" AND book IN ("@, testament_book_names(t@)),
        None => Seq::empty(),
    });
    q.push(")");
    assert(q@ =~= old(q)@ + narrowing(*p));
}

/// The searched translation followed by the parallel ones.
fn all_translations(translation: &String, parallels: &Option<Vec<String>>) -> (res: Vec<String>)
    ensures
        views(res@) == seq![translation@] + listed(*parallels, true),
{
    let mut translations: Vec<String> = Vec::new();
    translations.push(translation.clone());
    if let Some(parallels) = parallels {
        let upper = upper_all(parallels);
        let mut i: usize = 0;
        while i < upper.len()
            invariant
                i <= upper@.len(),
                translations@.len() == i + 1,
                views(translations@) == seq![translation@] + views(upper@).take(i as int),
            decreases upper@.len() - i,
        {
            let ghost before = translations@;
            translations.push(upper[i].clone());
            assert forall|k: int| 0 <= k < i + 2 implies views(translations@)[k] == (seq![
                translation@,
            ] + views(upper@).take(i + 1))[k] by {
                if k < i + 1 {
                    assert(translations@[k] == before[k]);
                    assert(views(before)[k] == before[k]@);
                }
            }
            assert(views(translations@) =~= seq![translation@] + views(upper@).take(i + 1));
            i = i + 1;
        }
        assert(views(upper@).take(upper@.len() as int) =~= views(upper@));
    } else {
        assert(views(translations@) =~= seq![translation@] + Seq::<Seq<char>>::empty());
    }
    translations
}

/// The search query, or none for a search text of fewer than three bytes
/// (a search that finds nothing).
pub fn search(p: &SearchParameters) -> (res: Option<SqlQuery>)
    ensures
        res is None <==> (encode_utf8(p.search_text@).len() as usize) < MIN_SEARCH_BYTES,
        res matches Some(q) ==> q@ == search_listing(*p),
{
    if p.search_text.as_str().len() < MIN_SEARCH_BYTES {
        return None;
    }
    let mut q = SqlQuery::new(SEARCH_BASE_OPEN);
    push_text_match(&mut q, p);
    let translation = to_upper(p.translation.as_str());
    push_narrowing(&mut q, p, &translation);
    let ghost s1 = q@;
    q.push(SEARCH_PARALLEL_SELECT);
    let translations = all_translations(&translation, &p.parallel_translations);
    q.push_bind_list(&translations);
    q.push(")");
    q.push(SEARCH_ORDER_OPEN);
    q.push_bind_text(translation);
    q.push(" THEN 1 ELSE 2 END");
    let ghost tr = uppercase(p.translation@);
    assert(q@ =~= s1 + seq![Piece::Sql(SEARCH_PARALLEL_SELECT@)] + separated_texts(
        seq![tr] + listed(p.parallel_translations, true),
    ) + seq![
        Piece::Sql(")"@),
        Piece::Sql(SEARCH_ORDER_OPEN@),
        Piece::Text(tr),
        Piece::Sql(" THEN 1 ELSE 2 END"@),
    ]);
    assert(q@ =~= search_listing(*p));
    Some(q)
}

/// The search text is trimmed before it is matched: a search for the trimmed
/// text asks the same query as a search for the text itself.
pub proof fn lemma_search_trims_its_text(p1: SearchParameters, p2: SearchParameters)
    requires
        p2.search_text@ == trimmed(p1.search_text@),
        p2.match_case == p1.match_case,
        p2.whole_words == p1.whole_words,
        p2.translation == p1.translation,
        p2.books == p1.books,
        p2.abbreviations == p1.abbreviations,
        p2.testament == p1.testament,
        p2.parallel_translations == p1.parallel_translations,
    ensures
        search_listing(p2) == search_listing(p1),
{
    lemma_trimmed_idempotent(p1.search_text@);
    assert(text_match(p2) == text_match(p1));
    assert(narrowing(p2) == narrowing(p1));
}

/// `open`, the values interleaved with `, `, and `)`.
pub open spec fn list_run(open: Seq<char>, items: Seq<Seq<char>>) -> Seq<Piece> {
    seq![Piece::Sql(open)] + interleaved(items) + seq![Piece::Sql(")"@)]
}

/// Whether run `r` lies among the conditions on the matches: before the `)`
/// that closes them, which the selection of the translations follows.
pub open spec fn among_match_conditions(s: Seq<Piece>, r: Seq<Piece>) -> bool {
    exists|k: int|
        1 <= k < s.len() && s[k] == Piece::Sql(SEARCH_PARALLEL_SELECT@) && s[k - 1] == Piece::Sql(
            ")"@,
        ) && #[trigger] has_run(s.take(k - 1), r)
}

/// The condition on the search text, as the match options ask.
pub open spec fn text_condition(p: SearchParameters) -> Seq<Piece> {
    let case = p.match_case == Some(true);
    if p.whole_words == Some(true) {
        seq![
            Piece::Sql(if case { "~ "@ } else { "~* "@ }),
            Piece::Text("\\m"@ + trimmed(p.search_text@) + "\\M"@),
        ]
    } else {
        seq![
            Piece::Sql(if case { "like "@ } else { "ilike "@ }),
            Piece::Text("%"@ + trimmed(p.search_text@) + "%"@),
        ]
    }
}

proof fn lemma_in_list_run(open: Seq<char>, items: Seq<Seq<char>>)
    requires
        items.len() > 0,
    ensures
        has_run(in_list(open, items), list_run(open, items)),
{
    lemma_separated_texts_interleave(items);
    lemma_has_run_whole(in_list(open, items));
}

/// The conditions on the matches, part by part.
pub open spec fn match_parts(p: SearchParameters) -> Seq<Seq<Piece>> {
    seq![
        seq![Piece::Sql(SEARCH_BASE_OPEN@)],
        text_match(p),
        seq![Piece::Sql(" AND translation="@), Piece::Text(uppercase(p.translation@))],
        in_list(" AND book IN ("@, listed(p.books, false)),
        in_list(" AND abbreviation IN ("@, listed(p.abbreviations, true)),
        testament_condition(p),
    ]
}

/// The selection of the translations of each match.
pub open spec fn translation_selection(p: SearchParameters) -> Seq<Piece> {
    seq![Piece::Sql(SEARCH_PARALLEL_SELECT@)] + separated_texts(
        seq![uppercase(p.translation@)] + listed(p.parallel_translations, true),
    ) + seq![Piece::Sql(")"@)]
}

/// The order of the rows.
pub open spec fn row_order(p: SearchParameters) -> Seq<Piece> {
    seq![
        Piece::Sql(SEARCH_ORDER_OPEN@),
        Piece::Text(uppercase(p.translation@)),
        Piece::Sql(" THEN 1 ELSE 2 END"@),
    ]
}

proof fn lemma_search_layout(p: SearchParameters)
    ensures
        search_listing(p) == joined_parts(
            seq![
                joined_parts(match_parts(p)) + seq![Piece::Sql(")"@)],
                translation_selection(p),
                row_order(p),
            ],
        ),
        search_listing(p) == joined_parts(match_parts(p)) + seq![Piece::Sql(")"@)]
            + translation_selection(p) + row_order(p),
{
    let parts = match_parts(p);
    reveal_with_fuel(joined_parts, 7);
    assert(parts.drop_last().drop_last().drop_last().drop_last().drop_last().drop_last()
        =~= Seq::<Seq<Piece>>::empty());
    assert(joined_parts(parts) =~= seq![Piece::Sql(SEARCH_BASE_OPEN@)] + text_match(p)
        + narrowing_conditions(p));
    let outer = seq![
        joined_parts(parts) + seq![Piece::Sql(")"@)],
        translation_selection(p),
        row_order(p),
    ];
    assert(outer.drop_last().drop_last().drop_last() =~= Seq::<Seq<Piece>>::empty());
    assert(search_listing(p) =~= joined_parts(parts) + seq![Piece::Sql(")"@)]
        + translation_selection(p) + row_order(p));
}

proof fn lemma_among_match_conditions(p: SearchParameters, k: int, r: Seq<Piece>)
    requires
        0 <= k < match_parts(p).len(),
        has_run(match_parts(p)[k], r),
    ensures
        among_match_conditions(search_listing(p), r),
{
    lemma_search_layout(p);
    let s = search_listing(p);
    let m = joined_parts(match_parts(p));
    lemma_has_run_in_part(match_parts(p), k, r);
    let j: int = m.len() as int + 1;
    assert(s.take(j - 1) =~= m);
    assert(s[j] == Piece::Sql(SEARCH_PARALLEL_SELECT@));
    assert(s[j - 1] == Piece::Sql(")"@));
    assert(has_run(s.take(j - 1), r));
}

/// The text condition and the translation narrow the matches of every search.
pub proof fn lemma_search_matches_text_and_translation(p: SearchParameters)
    ensures
        among_match_conditions(search_listing(p), text_condition(p)),
        among_match_conditions(
            search_listing(p),
            seq![Piece::Sql(" AND translation="@), Piece::Text(uppercase(p.translation@))],
        ),
{
    assert(text_match(p) == text_condition(p));
    lemma_has_run_whole(text_condition(p));
    lemma_among_match_conditions(p, 1, text_condition(p));
    lemma_has_run_whole(match_parts(p)[2]);
    lemma_among_match_conditions(p, 2, match_parts(p)[2]);
}

/// Every non-empty list of books or of abbreviations, and the books of a named
/// testament, narrow the matches, whatever else the search asks.
pub proof fn lemma_search_keeps_book_filters(p: SearchParameters)
    ensures
        p.books matches Some(bs) ==> (bs.len() > 0 ==> among_match_conditions(
            search_listing(p),
            list_run(" AND book IN ("@, views(bs@)),
        )),
        p.abbreviations matches Some(abbrs) ==> (abbrs.len() > 0 ==> among_match_conditions(
            search_listing(p),
            list_run(" AND abbreviation IN ("@, upper_views(abbrs@)),
        )),
        p.testament matches Some(t) ==> (testament_book_names(t@).len() > 0
            ==> among_match_conditions(
            search_listing(p),
            list_run(" AND book IN ("@, testament_book_names(t@)),
        )),
{
    if let Some(bs) = p.books {
        if bs.len() > 0 {
            lemma_in_list_run(" AND book IN ("@, views(bs@));
            lemma_among_match_conditions(p, 3, list_run(" AND book IN ("@, views(bs@)));
        }
    }
    if let Some(abbrs) = p.abbreviations {
        if abbrs.len() > 0 {
            lemma_in_list_run(" AND abbreviation IN ("@, upper_views(abbrs@));
            lemma_among_match_conditions(
                p,
                4,
                list_run(" AND abbreviation IN ("@, upper_views(abbrs@)),
            );
        }
    }
    if let Some(t) = p.testament {
        if testament_book_names(t@).len() > 0 {
            lemma_in_list_run(" AND book IN ("@, testament_book_names(t@));
            lemma_among_match_conditions(
                p,
                5,
                list_run(" AND book IN ("@, testament_book_names(t@)),
            );
        }
    }
}

/// Every search selects the searched translation and every parallel one.
pub proof fn lemma_search_selects_every_translation(p: SearchParameters)
    ensures
        has_run(
            search_listing(p),
            seq![Piece::Sql(SEARCH_PARALLEL_SELECT@)] + interleaved(
                seq![uppercase(p.translation@)] + listed(p.parallel_translations, true),
            ) + seq![Piece::Sql(")"@)],
        ),
{
    lemma_search_layout(p);
    lemma_separated_texts_interleave(
        seq![uppercase(p.translation@)] + listed(p.parallel_translations, true),
    );
    let outer = seq![
        joined_parts(match_parts(p)) + seq![Piece::Sql(")"@)],
        translation_selection(p),
        row_order(p),
    ];
    lemma_has_run_whole(translation_selection(p));
    lemma_has_run_in_part(outer, 1, translation_selection(p));
}

} // verus!
