use vstd::prelude::*;

verus! {

/// Number of books in the canon.
pub const BOOK_COUNT: usize = 66;

/// Number of books in the Old Testament; they come first.
pub const OLD_TESTAMENT_COUNT: usize = 39;

/// Book names, in canonical order.
pub open spec fn book_names() -> Seq<Seq<char>> {
    Seq::new(BOOK_COUNT as nat, |i: int| spec_book_name(i))
}

/// Upper-case book abbreviations, in canonical order.
pub open spec fn abbreviations() -> Seq<Seq<char>> {
    Seq::new(BOOK_COUNT as nat, |i: int| spec_abbreviation(i))
}

pub open spec fn spec_book_name(i: int) -> Seq<char> {
    if i == 0 {
        "Genesis"@
    } else if i == 1 {
        "Exodus"@
    } else if i == 2 {
        "Leviticus"@
    } else if i == 3 {
        "Numbers"@
    } else if i == 4 {
        "Deuteronomy"@
    } else if i == 5 {
        "Joshua"@
    } else if i == 6 {
        "Judges"@
    } else if i == 7 {
        "Ruth"@
    } else if i == 8 {
        "1 Samuel"@
    } else if i == 9 {
        "2 Samuel"@
    } else if i == 10 {
        "1 Kings"@
    } else if i == 11 {
        "2 Kings"@
    } else if i == 12 {
        "1 Chronicles"@
    } else if i == 13 {
        "2 Chronicles"@
    } else if i == 14 {
        "Ezra"@
    } else if i == 15 {
        "Nehemiah"@
    } else if i == 16 {
        "Esther"@
    } else if i == 17 {
        "Job"@
    } else if i == 18 {
        "Psalms"@
    } else if i == 19 {
        "Proverbs"@
    } else if i == 20 {
        "Ecclesiastes"@
    } else if i == 21 {
        "Song of Solomon"@
    } else if i == 22 {
        "Isaiah"@
    } else if i == 23 {
        "Jeremiah"@
    } else if i == 24 {
        "Lamentations"@
    } else if i == 25 {
        "Ezekiel"@
    } else if i == 26 {
        "Daniel"@
    } else if i == 27 {
        "Hosea"@
    } else if i == 28 {
        "Joel"@
    } else if i == 29 {
        "Amos"@
    } else if i == 30 {
        "Obadiah"@
    } else if i == 31 {
        "Jonah"@
    } else if i == 32 {
        "Micah"@
    } else if i == 33 {
        "Nahum"@
    } else if i == 34 {
        "Habakkuk"@
    } else if i == 35 {
        "Zephaniah"@
    } else if i == 36 {
        "Haggai"@
    } else if i == 37 {
        "Zechariah"@
    } else if i == 38 {
        "Malachi"@
    } else if i == 39 {
        "Matthew"@
    } else if i == 40 {
        "Mark"@
    } else if i == 41 {
        "Luke"@
    } else if i == 42 {
        "John"@
    } else if i == 43 {
        "Acts"@
    } else if i == 44 {
        "Romans"@
    } else if i == 45 {
        "1 Corinthians"@
    } else if i == 46 {
        "2 Corinthians"@
    } else if i == 47 {
        "Galatians"@
    } else if i == 48 {
        "Ephesians"@
    } else if i == 49 {
        "Philippians"@
    } else if i == 50 {
        "Colossians"@
    } else if i == 51 {
        "1 Thessalonians"@
    } else if i == 52 {
        "2 Thessalonians"@
    } else if i == 53 {
        "1 Timothy"@
    } else if i == 54 {
        "2 Timothy"@
    } else if i == 55 {
        "Titus"@
    } else if i == 56 {
        "Philemon"@
    } else if i == 57 {
        "Hebrews"@
    } else if i == 58 {
        "James"@
    } else if i == 59 {
        "1 Peter"@
    } else if i == 60 {
        "2 Peter"@
    } else if i == 61 {
        "1 John"@
    } else if i == 62 {
        "2 John"@
    } else if i == 63 {
        "3 John"@
    } else if i == 64 {
        "Jude"@
    } else if i == 65 {
        "Revelation"@
    } else {
        Seq::empty()
    }
}

pub open spec fn spec_abbreviation(i: int) -> Seq<char> {
    if i == 0 {
        "GEN"@
    } else if i == 1 {
        "EXO"@
    } else if i == 2 {
        "LEV"@
    } else if i == 3 {
        "NUM"@
    } else if i == 4 {
        "DEU"@
    } else if i == 5 {
        "JOS"@
    } else if i == 6 {
        "JDG"@
    } else if i == 7 {
        "RUT"@
    } else if i == 8 {
        "1SA"@
    } else if i == 9 {
        "2SA"@
    } else if i == 10 {
        "1KI"@
    } else if i == 11 {
        "2KI"@
    } else if i == 12 {
        "1CH"@
    } else if i == 13 {
        "2CH"@
    } else if i == 14 {
        "EZR"@
    } else if i == 15 {
        "NEH"@
    } else if i == 16 {
        "EST"@
    } else if i == 17 {
        "JOB"@
    } else if i == 18 {
        "PSA"@
    } else if i == 19 {
        "PRO"@
    } else if i == 20 {
        "ECC"@
    } else if i == 21 {
        "SNG"@
    } else if i == 22 {
        "ISA"@
    } else if i == 23 {
        "JER"@
    } else if i == 24 {
        "LAM"@
    } else if i == 25 {
        "EZK"@
    } else if i == 26 {
        "DAN"@
    } else if i == 27 {
        "HOS"@
    } else if i == 28 {
        "JOL"@
    } else if i == 29 {
        "AMO"@
    } else if i == 30 {
        "OBA"@
    } else if i == 31 {
        "JON"@
    } else if i == 32 {
        "MIC"@
    } else if i == 33 {
        "NAM"@
    } else if i == 34 {
        "HAB"@
    } else if i == 35 {
        "ZEP"@
    } else if i == 36 {
        "HAG"@
    } else if i == 37 {
        "ZEC"@
    } else if i == 38 {
        "MAL"@
    } else if i == 39 {
        "MAT"@
    } else if i == 40 {
        "MRK"@
    } else if i == 41 {
        "LUK"@
    } else if i == 42 {
        "JHN"@
    } else if i == 43 {
        "ACT"@
    } else if i == 44 {
        "ROM"@
    } else if i == 45 {
        "1CO"@
    } else if i == 46 {
        "2CO"@
    } else if i == 47 {
        "GAL"@
    } else if i == 48 {
        "EPH"@
    } else if i == 49 {
        "PHP"@
    } else if i == 50 {
        "COL"@
    } else if i == 51 {
        "1TH"@
    } else if i == 52 {
        "2TH"@
    } else if i == 53 {
        "1TI"@
    } else if i == 54 {
        "2TI"@
    } else if i == 55 {
        "TIT"@
    } else if i == 56 {
        "PHM"@
    } else if i == 57 {
        "HEB"@
    } else if i == 58 {
        "JAS"@
    } else if i == 59 {
        "1PE"@
    } else if i == 60 {
        "2PE"@
    } else if i == 61 {
        "1JN"@
    } else if i == 62 {
        "2JN"@
    } else if i == 63 {
        "3JN"@
    } else if i == 64 {
        "JUD"@
    } else if i == 65 {
        "REV"@
    } else {
        Seq::empty()
    }
}

pub open spec fn spec_chapter_count(i: int) -> int {
    if i == 0 {
        50
    } else if i == 1 {
        40
    } else if i == 2 {
        27
    } else if i == 3 {
        36
    } else if i == 4 {
        34
    } else if i == 5 {
        24
    } else if i == 6 {
        21
    } else if i == 7 {
        4
    } else if i == 8 {
        31
    } else if i == 9 {
        24
    } else if i == 10 {
        22
    } else if i == 11 {
        25
    } else if i == 12 {
        29
    } else if i == 13 {
        36
    } else if i == 14 {
        10
    } else if i == 15 {
        13
    } else if i == 16 {
        10
    } else if i == 17 {
        42
    } else if i == 18 {
        150
    } else if i == 19 {
        31
    } else if i == 20 {
        12
    } else if i == 21 {
        8
    } else if i == 22 {
        66
    } else if i == 23 {
        52
    } else if i == 24 {
        5
    } else if i == 25 {
        48
    } else if i == 26 {
        12
    } else if i == 27 {
        14
    } else if i == 28 {
        3
    } else if i == 29 {
        9
    } else if i == 30 {
        1
    } else if i == 31 {
        4
    } else if i == 32 {
        7
    } else if i == 33 {
        3
    } else if i == 34 {
        3
    } else if i == 35 {
        3
    } else if i == 36 {
        2
    } else if i == 37 {
        14
    } else if i == 38 {
        4
    } else if i == 39 {
        28
    } else if i == 40 {
        16
    } else if i == 41 {
        24
    } else if i == 42 {
        21
    } else if i == 43 {
        28
    } else if i == 44 {
        16
    } else if i == 45 {
        16
    } else if i == 46 {
        13
    } else if i == 47 {
        6
    } else if i == 48 {
        6
    } else if i == 49 {
        4
    } else if i == 50 {
        4
    } else if i == 51 {
        5
    } else if i == 52 {
        3
    } else if i == 53 {
        6
    } else if i == 54 {
        4
    } else if i == 55 {
        3
    } else if i == 56 {
        1
    } else if i == 57 {
        13
    } else if i == 58 {
        5
    } else if i == 59 {
        5
    } else if i == 60 {
        3
    } else if i == 61 {
        5
    } else if i == 62 {
        1
    } else if i == 63 {
        1
    } else if i == 64 {
        1
    } else if i == 65 {
        22
    } else {
        0
    }
}

pub open spec fn spec_verse_count(i: int) -> int {
    if i == 0 {
        1533
    } else if i == 1 {
        1213
    } else if i == 2 {
        859
    } else if i == 3 {
        1288
    } else if i == 4 {
        959
    } else if i == 5 {
        658
    } else if i == 6 {
        618
    } else if i == 7 {
        85
    } else if i == 8 {
        810
    } else if i == 9 {
        695
    } else if i == 10 {
        816
    } else if i == 11 {
        719
    } else if i == 12 {
        942
    } else if i == 13 {
        822
    } else if i == 14 {
        280
    } else if i == 15 {
        406
    } else if i == 16 {
        167
    } else if i == 17 {
        1070
    } else if i == 18 {
        2461
    } else if i == 19 {
        915
    } else if i == 20 {
        222
    } else if i == 21 {
        117
    } else if i == 22 {
        1292
    } else if i == 23 {
        1364
    } else if i == 24 {
        154
    } else if i == 25 {
        1273
    } else if i == 26 {
        357
    } else if i == 27 {
        197
    } else if i == 28 {
        73
    } else if i == 29 {
        146
    } else if i == 30 {
        21
    } else if i == 31 {
        48
    } else if i == 32 {
        105
    } else if i == 33 {
        47
    } else if i == 34 {
        56
    } else if i == 35 {
        53
    } else if i == 36 {
        38
    } else if i == 37 {
        211
    } else if i == 38 {
        55
    } else if i == 39 {
        1071
    } else if i == 40 {
        678
    } else if i == 41 {
        1151
    } else if i == 42 {
        879
    } else if i == 43 {
        1007
    } else if i == 44 {
        433
    } else if i == 45 {
        437
    } else if i == 46 {
        257
    } else if i == 47 {
        149
    } else if i == 48 {
        155
    } else if i == 49 {
        104
    } else if i == 50 {
        95
    } else if i == 51 {
        89
    } else if i == 52 {
        47
    } else if i == 53 {
        113
    } else if i == 54 {
        83
    } else if i == 55 {
        46
    } else if i == 56 {
        25
    } else if i == 57 {
        303
    } else if i == 58 {
        108
    } else if i == 59 {
        105
    } else if i == 60 {
        61
    } else if i == 61 {
        105
    } else if i == 62 {
        13
    } else if i == 63 {
        14
    } else if i == 64 {
        25
    } else if i == 65 {
        404
    } else {
        0
    }
}

pub fn book_name(i: usize) -> (res: &'static str)
    requires
        i < BOOK_COUNT,
    ensures
        res@ == spec_book_name(i as int),
{
    match i {
        0 => "Genesis",
        1 => "Exodus",
        2 => "Leviticus",
        3 => "Numbers",
        4 => "Deuteronomy",
        5 => "Joshua",
        6 => "Judges",
        7 => "Ruth",
        8 => "1 Samuel",
        9 => "2 Samuel",
        10 => "1 Kings",
        11 => "2 Kings",
        12 => "1 Chronicles",
        13 => "2 Chronicles",
        14 => "Ezra",
        15 => "Nehemiah",
        16 => "Esther",
        17 => "Job",
        18 => "Psalms",
        19 => "Proverbs",
        20 => "Ecclesiastes",
        21 => "Song of Solomon",
        22 => "Isaiah",
        23 => "Jeremiah",
        24 => "Lamentations",
        25 => "Ezekiel",
        26 => "Daniel",
        27 => "Hosea",
        28 => "Joel",
        29 => "Amos",
        30 => "Obadiah",
        31 => "Jonah",
        32 => "Micah",
        33 => "Nahum",
        34 => "Habakkuk",
        35 => "Zephaniah",
        36 => "Haggai",
        37 => "Zechariah",
        38 => "Malachi",
        39 => "Matthew",
        40 => "Mark",
        41 => "Luke",
        42 => "John",
        43 => "Acts",
        44 => "Romans",
        45 => "1 Corinthians",
        46 => "2 Corinthians",
        47 => "Galatians",
        48 => "Ephesians",
        49 => "Philippians",
        50 => "Colossians",
        51 => "1 Thessalonians",
        52 => "2 Thessalonians",
        53 => "1 Timothy",
        54 => "2 Timothy",
        55 => "Titus",
        56 => "Philemon",
        57 => "Hebrews",
        58 => "James",
        59 => "1 Peter",
        60 => "2 Peter",
        61 => "1 John",
        62 => "2 John",
        63 => "3 John",
        64 => "Jude",
        _ => "Revelation",
    }
}

pub fn abbreviation(i: usize) -> (res: &'static str)
    requires
        i < BOOK_COUNT,
    ensures
        res@ == spec_abbreviation(i as int),
{
    match i {
        0 => "GEN",
        1 => "EXO",
        2 => "LEV",
        3 => "NUM",
        4 => "DEU",
        5 => "JOS",
        6 => "JDG",
        7 => "RUT",
        8 => "1SA",
        9 => "2SA",
        10 => "1KI",
        11 => "2KI",
        12 => "1CH",
        13 => "2CH",
        14 => "EZR",
        15 => "NEH",
        16 => "EST",
        17 => "JOB",
        18 => "PSA",
        19 => "PRO",
        20 => "ECC",
        21 => "SNG",
        22 => "ISA",
        23 => "JER",
        24 => "LAM",
        25 => "EZK",
        26 => "DAN",
        27 => "HOS",
        28 => "JOL",
        29 => "AMO",
        30 => "OBA",
        31 => "JON",
        32 => "MIC",
        33 => "NAM",
        34 => "HAB",
        35 => "ZEP",
        36 => "HAG",
        37 => "ZEC",
        38 => "MAL",
        39 => "MAT",
        40 => "MRK",
        41 => "LUK",
        42 => "JHN",
        43 => "ACT",
        44 => "ROM",
        45 => "1CO",
        46 => "2CO",
        47 => "GAL",
        48 => "EPH",
        49 => "PHP",
        50 => "COL",
        51 => "1TH",
        52 => "2TH",
        53 => "1TI",
        54 => "2TI",
        55 => "TIT",
        56 => "PHM",
        57 => "HEB",
        58 => "JAS",
        59 => "1PE",
        60 => "2PE",
        61 => "1JN",
        62 => "2JN",
        63 => "3JN",
        64 => "JUD",
        _ => "REV",
    }
}

pub fn chapter_count(i: usize) -> (res: u32)
    requires
        i < BOOK_COUNT,
    ensures
        res == spec_chapter_count(i as int),
{
    match i {
        0 => 50,
        1 => 40,
        2 => 27,
        3 => 36,
        4 => 34,
        5 => 24,
        6 => 21,
        7 => 4,
        8 => 31,
        9 => 24,
        10 => 22,
        11 => 25,
        12 => 29,
        13 => 36,
        14 => 10,
        15 => 13,
        16 => 10,
        17 => 42,
        18 => 150,
        19 => 31,
        20 => 12,
        21 => 8,
        22 => 66,
        23 => 52,
        24 => 5,
        25 => 48,
        26 => 12,
        27 => 14,
        28 => 3,
        29 => 9,
        30 => 1,
        31 => 4,
        32 => 7,
        33 => 3,
        34 => 3,
        35 => 3,
        36 => 2,
        37 => 14,
        38 => 4,
        39 => 28,
        40 => 16,
        41 => 24,
        42 => 21,
        43 => 28,
        44 => 16,
        45 => 16,
        46 => 13,
        47 => 6,
        48 => 6,
        49 => 4,
        50 => 4,
        51 => 5,
        52 => 3,
        53 => 6,
        54 => 4,
        55 => 3,
        56 => 1,
        57 => 13,
        58 => 5,
        59 => 5,
        60 => 3,
        61 => 5,
        62 => 1,
        63 => 1,
        64 => 1,
        _ => 22,
    }
}

pub fn verse_count(i: usize) -> (res: u32)
    requires
        i < BOOK_COUNT,
    ensures
        res == spec_verse_count(i as int),
{
    match i {
        0 => 1533,
        1 => 1213,
        2 => 859,
        3 => 1288,
        4 => 959,
        5 => 658,
        6 => 618,
        7 => 85,
        8 => 810,
        9 => 695,
        10 => 816,
        11 => 719,
        12 => 942,
        13 => 822,
        14 => 280,
        15 => 406,
        16 => 167,
        17 => 1070,
        18 => 2461,
        19 => 915,
        20 => 222,
        21 => 117,
        22 => 1292,
        23 => 1364,
        24 => 154,
        25 => 1273,
        26 => 357,
        27 => 197,
        28 => 73,
        29 => 146,
        30 => 21,
        31 => 48,
        32 => 105,
        33 => 47,
        34 => 56,
        35 => 53,
        36 => 38,
        37 => 211,
        38 => 55,
        39 => 1071,
        40 => 678,
        41 => 1151,
        42 => 879,
        43 => 1007,
        44 => 433,
        45 => 437,
        46 => 257,
        47 => 149,
        48 => 155,
        49 => 104,
        50 => 95,
        51 => 89,
        52 => 47,
        53 => 113,
        54 => 83,
        55 => 46,
        56 => 25,
        57 => 303,
        58 => 108,
        59 => 105,
        60 => 61,
        61 => 105,
        62 => 13,
        63 => 14,
        64 => 25,
        _ => 404,
    }
}


/// An index as a mathematical integer.
pub open spec fn index_int(o: Option<usize>) -> Option<int> {
    match o {
        Some(i) => Some(i as int),
        None => None,
    }
}

/// The first index at which `names` holds `s`, as `Iterator::position` finds it.
fn first_position(s: &str, abbreviated: bool) -> (res: Option<usize>)
    ensures
        index_int(res) == (if abbreviated {
            abbreviations()
        } else {
            book_names()
        }).index_of_first(s@),
{
    let ghost names = if abbreviated {
        abbreviations()
    } else {
        book_names()
    };
    let mut i: usize = 0;
    while i < BOOK_COUNT
        invariant
            i <= BOOK_COUNT,
            names.len() == BOOK_COUNT,
            names == (if abbreviated {
                abbreviations()
            } else {
                book_names()
            }),
            forall|j: int| 0 <= j < i ==> names[j] != s@,
        decreases BOOK_COUNT - i,
    {
        let name = if abbreviated {
            abbreviation(i)
        } else {
            book_name(i)
        };
        if crate::text::same_text(name, s) {
            proof {
                assert(names[i as int] == s@);
                assert(names.contains(s@));
                names.index_of_first_ensures(s@);
                let k = names.index_of_first(s@).unwrap();
                assert(k == i as int) by {
                    if k < i {
                        assert(names[k] != s@);
                    }
                }
            }
            return Some(i);
        }
        i = i + 1;
    }
    proof {
        names.index_of_first_ensures(s@);
        if names.contains(s@) {
            let k = choose|k: int| 0 <= k < names.len() && names[k] == s@;
            assert(names[k] != s@);
        }
    }
    None
}

/// Index of the book named exactly `name`, if any.
pub fn find_book_name(name: &str) -> (res: Option<usize>)
    ensures
        index_int(res) == book_names().index_of_first(name@),
{
    first_position(name, false)
}

/// Index of the book whose abbreviation is exactly `abbr`, if any.
pub fn find_abbreviation(abbr: &str) -> (res: Option<usize>)
    ensures
        index_int(res) == abbreviations().index_of_first(abbr@),
{
    first_position(abbr, true)
}

/// Which book a path segment names: an abbreviation, matched after upper-casing,
/// wins over a book name matched as written.
pub open spec fn spec_book_index(book: Seq<char>) -> Option<int> {
    match abbreviations().index_of_first(crate::text::uppercase(book)) {
        Some(i) => Some(i),
        None => book_names().index_of_first(book),
    }
}

/// The book that `book` names, by full name or by abbreviation in any case.
pub fn book_index(book: &str) -> (res: Option<usize>)
    ensures
        index_int(res) == spec_book_index(book@),
        res matches Some(i) ==> i < BOOK_COUNT,
{
    let by_name = find_book_name(book);
    let upper = crate::text::to_upper(book);
    let by_abbreviation = find_abbreviation(upper.as_str());
    proof {
        abbreviations().index_of_first_ensures(upper@);
        book_names().index_of_first_ensures(book@);
    }
    match by_abbreviation {
        Some(i) => Some(i),
        None => by_name,
    }
}

/// Whether a testament filter asks for the Old Testament.
pub open spec fn names_old_testament(t: Seq<char>) -> bool {
    t == "old"@ || t == "ot"@ || t == "old_testament"@
}

/// Whether a testament filter asks for the New Testament.
pub open spec fn names_new_testament(t: Seq<char>) -> bool {
    t == "new"@ || t == "nt"@ || t == "new_testament"@
}

/// The book names that a testament filter selects: those of the Old
/// Testament for `old`, `ot` or `old_testament`, those of the New Testament
/// for `new`, `nt` or `new_testament`, and none for anything else.
pub open spec fn testament_book_names(t: Seq<char>) -> Seq<Seq<char>> {
    if names_old_testament(t) {
        book_names().take(OLD_TESTAMENT_COUNT as int)
    } else if names_new_testament(t) {
        book_names().skip(OLD_TESTAMENT_COUNT as int)
    } else {
        Seq::empty()
    }
}

/// The book names of `from..to` in canonical order.
fn book_names_between(from: usize, to: usize) -> (res: Vec<String>)
    requires
        from <= to <= BOOK_COUNT,
    ensures
        crate::text::views(res@) == book_names().subrange(from as int, to as int),
{
    let mut res: Vec<String> = Vec::new();
    let mut i: usize = from;
    while i < to
        invariant
            from <= i <= to <= BOOK_COUNT,
            res@.len() == i - from,
            crate::text::views(res@) == book_names().subrange(from as int, i as int),
        decreases to - i,
    {
        let ghost before = res@;
        res.push(String::from_str(book_name(i)));
        assert forall|k: int| 0 <= k < i + 1 - from implies crate::text::views(res@)[k]
            == book_names().subrange(from as int, i + 1)[k] by {
            if k < i - from {
                assert(res@[k] == before[k]);
                assert(crate::text::views(before)[k] == before[k]@);
            }
        }
        assert(crate::text::views(res@) =~= book_names().subrange(from as int, i + 1));
        i = i + 1;
    }
    res
}

/// The book names that a testament filter selects.
pub fn testament_books(t: &str) -> (res: Vec<String>)
    ensures
        crate::text::views(res@) == testament_book_names(t@),
{

    if crate::text::same_text(t, "old") || crate::text::same_text(t, "ot") || crate::text::same_text(t, "old_testament") {
        let res = book_names_between(0, OLD_TESTAMENT_COUNT);
        assert(book_names().subrange(0, OLD_TESTAMENT_COUNT as int) =~= book_names().take(
            OLD_TESTAMENT_COUNT as int,
        ));
        res
    } else if crate::text::same_text(t, "new") || crate::text::same_text(t, "nt") || crate::text::same_text(t, "new_testament") {
        let res = book_names_between(OLD_TESTAMENT_COUNT, BOOK_COUNT);
        assert(book_names().subrange(OLD_TESTAMENT_COUNT as int, BOOK_COUNT as int)
            =~= book_names().skip(OLD_TESTAMENT_COUNT as int));
        res
    } else {
        let res: Vec<String> = Vec::new();
        assert(crate::text::views(res@) =~= Seq::<Seq<char>>::empty());
        res
    }
}

/// The verses of the first `n` books.
pub open spec fn verses_before(n: int) -> int
    decreases n,
{
    if n <= 0 {
        0
    } else {
        verses_before(n - 1) + spec_verse_count(n - 1)
    }
}

/// The chapters of the first `n` books.
pub open spec fn chapters_before(n: int) -> int
    decreases n,
{
    if n <= 0 {
        0
    } else {
        chapters_before(n - 1) + spec_chapter_count(n - 1)
    }
}

/// The canon holds 31102 verses in 1189 chapters; the Old Testament holds
/// 23145 verses in 929 chapters.
pub proof fn lemma_canon_totals()
    ensures
        verses_before(BOOK_COUNT as int) == 31102,
        chapters_before(BOOK_COUNT as int) == 1189,
        verses_before(OLD_TESTAMENT_COUNT as int) == 23145,
        chapters_before(OLD_TESTAMENT_COUNT as int) == 929,
{
    reveal_with_fuel(verses_before, 67);
    reveal_with_fuel(chapters_before, 67);
}

/// The two testaments together are the whole canon, the Old Testament first.
pub proof fn lemma_testaments_partition()
    ensures
        testament_book_names("old"@) + testament_book_names("new"@) == book_names(),
        testament_book_names("old"@).len() == OLD_TESTAMENT_COUNT,
        testament_book_names("new"@).len() == BOOK_COUNT - OLD_TESTAMENT_COUNT,
{
    reveal_strlit("old");
    reveal_strlit("new");
    reveal_strlit("ot");
    reveal_strlit("nt");
    reveal_strlit("old_testament");
    reveal_strlit("new_testament");
    assert(names_old_testament("old"@));
    assert("new"@[0] != "old"@[0]);
    assert("new"@.len() != "ot"@.len());
    assert("new"@.len() != "old_testament"@.len());
    assert(!names_old_testament("new"@));
    assert(names_new_testament("new"@));
    assert(book_names().take(OLD_TESTAMENT_COUNT as int) + book_names().skip(
        OLD_TESTAMENT_COUNT as int,
    ) =~= book_names());
}

/// A number that tells apart the strings of the canon: the length and the
/// first three chars.
spec fn text_key(s: Seq<char>) -> int {
    s.len() * 0x1000000 + (s[0] as int) * 0x10000 + (s[1] as int) * 0x100 + (s[2] as int)
}

/// The key of each abbreviation, by index.
spec fn abbreviation_key_table(i: int) -> int {
    if i == 0 {
        55002446
    } else if i == 1 {
        54876239
    } else if i == 2 {
        55330134
    } else if i == 3 {
        55465293
    } else if i == 4 {
        54805845
    } else if i == 5 {
        55201619
    } else if i == 6 {
        55198791
    } else if i == 7 {
        55727444
    } else if i == 8 {
        53564225
    } else if i == 9 {
        53629761
    } else if i == 10 {
        53562185
    } else if i == 11 {
        53627721
    } else if i == 12 {
        53560136
    } else if i == 13 {
        53625672
    } else if i == 14 {
        54876754
    } else if i == 15 {
        55461192
    } else if i == 16 {
        54874964
    } else if i == 17 {
        55201602
    } else if i == 18 {
        55595841
    } else if i == 19 {
        55595599
    } else if i == 20 {
        54870851
    } else if i == 21 {
        55791175
    } else if i == 22 {
        55137089
    } else if i == 23 {
        55199058
    } else if i == 24 {
        55329101
    } else if i == 25 {
        54876747
    } else if i == 26 {
        54804814
    } else if i == 27 {
        55070547
    } else if i == 28 {
        55201612
    } else if i == 29 {
        54611279
    } else if i == 30 {
        55525953
    } else if i == 31 {
        55201614
    } else if i == 32 {
        55396675
    } else if i == 33 {
        55460173
    } else if i == 34 {
        55066946
    } else if i == 35 {
        56247632
    } else if i == 36 {
        55066951
    } else if i == 37 {
        56247619
    } else if i == 38 {
        55394636
    } else if i == 39 {
        55394644
    } else if i == 40 {
        55398987
    } else if i == 41 {
        55334219
    } else if i == 42 {
        55199822
    } else if i == 43 {
        54608724
    } else if i == 44 {
        55725901
    } else if i == 45 {
        53560143
    } else if i == 46 {
        53625679
    } else if i == 47 {
        55001420
    } else if i == 48 {
        54874184
    } else if i == 49 {
        55593040
    } else if i == 50 {
        54742860
    } else if i == 51 {
        53564488
    } else if i == 52 {
        53630024
    } else if i == 53 {
        53564489
    } else if i == 54 {
        53630025
    } else if i == 55 {
        55855444
    } else if i == 56 {
        55593037
    } else if i == 57 {
        55067970
    } else if i == 58 {
        55198035
    } else if i == 59 {
        53563461
    } else if i == 60 {
        53628997
    } else if i == 61 {
        53561934
    } else if i == 62 {
        53627470
    } else if i == 63 {
        53693006
    } else if i == 64 {
        55203140
    } else if i == 65 {
        55723350
    } else {
        -1
    }
}

/// The index of each abbreviation key.
spec fn abbreviation_key_index(key: int) -> int {
    if key == 55002446 {
        0
    } else if key == 54876239 {
        1
    } else if key == 55330134 {
        2
    } else if key == 55465293 {
        3
    } else if key == 54805845 {
        4
    } else if key == 55201619 {
        5
    } else if key == 55198791 {
        6
    } else if key == 55727444 {
        7
    } else if key == 53564225 {
        8
    } else if key == 53629761 {
        9
    } else if key == 53562185 {
        10
    } else if key == 53627721 {
        11
    } else if key == 53560136 {
        12
    } else if key == 53625672 {
        13
    } else if key == 54876754 {
        14
    } else if key == 55461192 {
        15
    } else if key == 54874964 {
        16
    } else if key == 55201602 {
        17
    } else if key == 55595841 {
        18
    } else if key == 55595599 {
        19
    } else if key == 54870851 {
        20
    } else if key == 55791175 {
        21
    } else if key == 55137089 {
        22
    } else if key == 55199058 {
        23
    } else if key == 55329101 {
        24
    } else if key == 54876747 {
        25
    } else if key == 54804814 {
        26
    } else if key == 55070547 {
        27
    } else if key == 55201612 {
        28
    } else if key == 54611279 {
        29
    } else if key == 55525953 {
        30
    } else if key == 55201614 {
        31
    } else if key == 55396675 {
        32
    } else if key == 55460173 {
        33
    } else if key == 55066946 {
        34
    } else if key == 56247632 {
        35
    } else if key == 55066951 {
        36
    } else if key == 56247619 {
        37
    } else if key == 55394636 {
        38
    } else if key == 55394644 {
        39
    } else if key == 55398987 {
        40
    } else if key == 55334219 {
        41
    } else if key == 55199822 {
        42
    } else if key == 54608724 {
        43
    } else if key == 55725901 {
        44
    } else if key == 53560143 {
        45
    } else if key == 53625679 {
        46
    } else if key == 55001420 {
        47
    } else if key == 54874184 {
        48
    } else if key == 55593040 {
        49
    } else if key == 54742860 {
        50
    } else if key == 53564488 {
        51
    } else if key == 53630024 {
        52
    } else if key == 53564489 {
        53
    } else if key == 53630025 {
        54
    } else if key == 55855444 {
        55
    } else if key == 55593037 {
        56
    } else if key == 55067970 {
        57
    } else if key == 55198035 {
        58
    } else if key == 53563461 {
        59
    } else if key == 53628997 {
        60
    } else if key == 53561934 {
        61
    } else if key == 53627470 {
        62
    } else if key == 53693006 {
        63
    } else if key == 55203140 {
        64
    } else if key == 55723350 {
        65
    } else {
        -1
    }
}

proof fn lemma_abbreviation_key(i: int)
    requires
        0 <= i < BOOK_COUNT,
    ensures
        text_key(spec_abbreviation(i)) == abbreviation_key_table(i),
        abbreviation_key_index(abbreviation_key_table(i)) == i,
{
    if i == 0 {
        reveal_strlit("GEN");
    } else if i == 1 {
        reveal_strlit("EXO");
    } else if i == 2 {
        reveal_strlit("LEV");
    } else if i == 3 {
        reveal_strlit("NUM");
    } else if i == 4 {
        reveal_strlit("DEU");
    } else if i == 5 {
        reveal_strlit("JOS");
    } else if i == 6 {
        reveal_strlit("JDG");
    } else if i == 7 {
        reveal_strlit("RUT");
    } else if i == 8 {
        reveal_strlit("1SA");
    } else if i == 9 {
        reveal_strlit("2SA");
    } else if i == 10 {
        reveal_strlit("1KI");
    } else if i == 11 {
        reveal_strlit("2KI");
    } else if i == 12 {
        reveal_strlit("1CH");
    } else if i == 13 {
        reveal_strlit("2CH");
    } else if i == 14 {
        reveal_strlit("EZR");
    } else if i == 15 {
        reveal_strlit("NEH");
    } else if i == 16 {
        reveal_strlit("EST");
    } else if i == 17 {
        reveal_strlit("JOB");
    } else if i == 18 {
        reveal_strlit("PSA");
    } else if i == 19 {
        reveal_strlit("PRO");
    } else if i == 20 {
        reveal_strlit("ECC");
    } else if i == 21 {
        reveal_strlit("SNG");
    } else if i == 22 {
        reveal_strlit("ISA");
    } else if i == 23 {
        reveal_strlit("JER");
    } else if i == 24 {
        reveal_strlit("LAM");
    } else if i == 25 {
        reveal_strlit("EZK");
    } else if i == 26 {
        reveal_strlit("DAN");
    } else if i == 27 {
        reveal_strlit("HOS");
    } else if i == 28 {
        reveal_strlit("JOL");
    } else if i == 29 {
        reveal_strlit("AMO");
    } else if i == 30 {
        reveal_strlit("OBA");
    } else if i == 31 {
        reveal_strlit("JON");
    } else if i == 32 {
        reveal_strlit("MIC");
    } else if i == 33 {
        reveal_strlit("NAM");
    } else if i == 34 {
        reveal_strlit("HAB");
    } else if i == 35 {
        reveal_strlit("ZEP");
    } else if i == 36 {
        reveal_strlit("HAG");
    } else if i == 37 {
        reveal_strlit("ZEC");
    } else if i == 38 {
        reveal_strlit("MAL");
    } else if i == 39 {
        reveal_strlit("MAT");
    } else if i == 40 {
        reveal_strlit("MRK");
    } else if i == 41 {
        reveal_strlit("LUK");
    } else if i == 42 {
        reveal_strlit("JHN");
    } else if i == 43 {
        reveal_strlit("ACT");
    } else if i == 44 {
        reveal_strlit("ROM");
    } else if i == 45 {
        reveal_strlit("1CO");
    } else if i == 46 {
        reveal_strlit("2CO");
    } else if i == 47 {
        reveal_strlit("GAL");
    } else if i == 48 {
        reveal_strlit("EPH");
    } else if i == 49 {
        reveal_strlit("PHP");
    } else if i == 50 {
        reveal_strlit("COL");
    } else if i == 51 {
        reveal_strlit("1TH");
    } else if i == 52 {
        reveal_strlit("2TH");
    } else if i == 53 {
        reveal_strlit("1TI");
    } else if i == 54 {
        reveal_strlit("2TI");
    } else if i == 55 {
        reveal_strlit("TIT");
    } else if i == 56 {
        reveal_strlit("PHM");
    } else if i == 57 {
        reveal_strlit("HEB");
    } else if i == 58 {
        reveal_strlit("JAS");
    } else if i == 59 {
        reveal_strlit("1PE");
    } else if i == 60 {
        reveal_strlit("2PE");
    } else if i == 61 {
        reveal_strlit("1JN");
    } else if i == 62 {
        reveal_strlit("2JN");
    } else if i == 63 {
        reveal_strlit("3JN");
    } else if i == 64 {
        reveal_strlit("JUD");
    } else if i == 65 {
        reveal_strlit("REV");
    }
}

/// The key of each name, by index.
spec fn name_key_table(i: int) -> int {
    if i == 0 {
        122119534
    } else if i == 1 {
        105216111
    } else if i == 2 {
        156001654
    } else if i == 3 {
        122582381
    } else if i == 4 {
        189031797
    } else if i == 5 {
        105541491
    } else if i == 6 {
        105543012
    } else if i == 7 {
        72512884
    } else if i == 8 {
        137437267
    } else if i == 9 {
        137502803
    } else if i == 10 {
        120660043
    } else if i == 11 {
        120725579
    } else if i == 12 {
        204546115
    } else if i == 13 {
        204611651
    } else if i == 14 {
        71662194
    } else if i == 15 {
        139355496
    } else if i == 16 {
        105214836
    } else if i == 17 {
        55209826
    } else if i == 18 {
        105935713
    } else if i == 19 {
        139489903
    } else if i == 20 {
        205874019
    } else if i == 21 {
        257126254
    } else if i == 22 {
        105476961
    } else if i == 23 {
        139093362
    } else if i == 24 {
        206332269
    } else if i == 25 {
        121993829
    } else if i == 26 {
        105144686
    } else if i == 27 {
        88633203
    } else if i == 28 {
        71987045
    } else if i == 29 {
        71396719
    } else if i == 30 {
        122643041
    } else if i == 31 {
        88764270
    } else if i == 32 {
        88959331
    } else if i == 33 {
        89022824
    } else if i == 34 {
        138961250
    } else if i == 35 {
        156919152
    } else if i == 36 {
        105406823
    } else if i == 37 {
        156919139
    } else if i == 38 {
        122511724
    } else if i == 39 {
        122511732
    } else if i == 40 {
        72180082
    } else if i == 41 {
        72119659
    } else if i == 42 {
        71987048
    } else if i == 43 {
        71394164
    } else if i == 44 {
        106065773
    } else if i == 45 {
        221323331
    } else if i == 46 {
        221388867
    } else if i == 47 {
        155672940
    } else if i == 48 {
        155545704
    } else if i == 49 {
        189818985
    } else if i == 50 {
        172191596
    } else if i == 51 {
        254877780
    } else if i == 52 {
        254943316
    } else if i == 53 {
        154214484
    } else if i == 54 {
        154280020
    } else if i == 55 {
        89418100
    } else if i == 56 {
        139487337
    } else if i == 57 {
        122185058
    } else if i == 58 {
        88760685
    } else if i == 59 {
        120660048
    } else if i == 60 {
        120725584
    } else if i == 61 {
        103882826
    } else if i == 62 {
        103948362
    } else if i == 63 {
        104013898
    } else if i == 64 {
        71988580
    } else if i == 65 {
        173172086
    } else {
        -1
    }
}

/// The index of each name key.
spec fn name_key_index(key: int) -> int {
    if key == 122119534 {
        0
    } else if key == 105216111 {
        1
    } else if key == 156001654 {
        2
    } else if key == 122582381 {
        3
    } else if key == 189031797 {
        4
    } else if key == 105541491 {
        5
    } else if key == 105543012 {
        6
    } else if key == 72512884 {
        7
    } else if key == 137437267 {
        8
    } else if key == 137502803 {
        9
    } else if key == 120660043 {
        10
    } else if key == 120725579 {
        11
    } else if key == 204546115 {
        12
    } else if key == 204611651 {
        13
    } else if key == 71662194 {
        14
    } else if key == 139355496 {
        15
    } else if key == 105214836 {
        16
    } else if key == 55209826 {
        17
    } else if key == 105935713 {
        18
    } else if key == 139489903 {
        19
    } else if key == 205874019 {
        20
    } else if key == 257126254 {
        21
    } else if key == 105476961 {
        22
    } else if key == 139093362 {
        23
    } else if key == 206332269 {
        24
    } else if key == 121993829 {
        25
    } else if key == 105144686 {
        26
    } else if key == 88633203 {
        27
    } else if key == 71987045 {
        28
    } else if key == 71396719 {
        29
    } else if key == 122643041 {
        30
    } else if key == 88764270 {
        31
    } else if key == 88959331 {
        32
    } else if key == 89022824 {
        33
    } else if key == 138961250 {
        34
    } else if key == 156919152 {
        35
    } else if key == 105406823 {
        36
    } else if key == 156919139 {
        37
    } else if key == 122511724 {
        38
    } else if key == 122511732 {
        39
    } else if key == 72180082 {
        40
    } else if key == 72119659 {
        41
    } else if key == 71987048 {
        42
    } else if key == 71394164 {
        43
    } else if key == 106065773 {
        44
    } else if key == 221323331 {
        45
    } else if key == 221388867 {
        46
    } else if key == 155672940 {
        47
    } else if key == 155545704 {
        48
    } else if key == 189818985 {
        49
    } else if key == 172191596 {
        50
    } else if key == 254877780 {
        51
    } else if key == 254943316 {
        52
    } else if key == 154214484 {
        53
    } else if key == 154280020 {
        54
    } else if key == 89418100 {
        55
    } else if key == 139487337 {
        56
    } else if key == 122185058 {
        57
    } else if key == 88760685 {
        58
    } else if key == 120660048 {
        59
    } else if key == 120725584 {
        60
    } else if key == 103882826 {
        61
    } else if key == 103948362 {
        62
    } else if key == 104013898 {
        63
    } else if key == 71988580 {
        64
    } else if key == 173172086 {
        65
    } else {
        -1
    }
}

proof fn lemma_name_key(i: int)
    requires
        0 <= i < BOOK_COUNT,
    ensures
        text_key(spec_book_name(i)) == name_key_table(i),
        name_key_index(name_key_table(i)) == i,
{
    if i == 0 {
        reveal_strlit("Genesis");
    } else if i == 1 {
        reveal_strlit("Exodus");
    } else if i == 2 {
        reveal_strlit("Leviticus");
    } else if i == 3 {
        reveal_strlit("Numbers");
    } else if i == 4 {
        reveal_strlit("Deuteronomy");
    } else if i == 5 {
        reveal_strlit("Joshua");
    } else if i == 6 {
        reveal_strlit("Judges");
    } else if i == 7 {
        reveal_strlit("Ruth");
    } else if i == 8 {
        reveal_strlit("1 Samuel");
    } else if i == 9 {
        reveal_strlit("2 Samuel");
    } else if i == 10 {
        reveal_strlit("1 Kings");
    } else if i == 11 {
        reveal_strlit("2 Kings");
    } else if i == 12 {
        reveal_strlit("1 Chronicles");
    } else if i == 13 {
        reveal_strlit("2 Chronicles");
    } else if i == 14 {
        reveal_strlit("Ezra");
    } else if i == 15 {
        reveal_strlit("Nehemiah");
    } else if i == 16 {
        reveal_strlit("Esther");
    } else if i == 17 {
        reveal_strlit("Job");
    } else if i == 18 {
        reveal_strlit("Psalms");
    } else if i == 19 {
        reveal_strlit("Proverbs");
    } else if i == 20 {
        reveal_strlit("Ecclesiastes");
    } else if i == 21 {
        reveal_strlit("Song of Solomon");
    } else if i == 22 {
        reveal_strlit("Isaiah");
    } else if i == 23 {
        reveal_strlit("Jeremiah");
    } else if i == 24 {
        reveal_strlit("Lamentations");
    } else if i == 25 {
        reveal_strlit("Ezekiel");
    } else if i == 26 {
        reveal_strlit("Daniel");
    } else if i == 27 {
        reveal_strlit("Hosea");
    } else if i == 28 {
        reveal_strlit("Joel");
    } else if i == 29 {
        reveal_strlit("Amos");
    } else if i == 30 {
        reveal_strlit("Obadiah");
    } else if i == 31 {
        reveal_strlit("Jonah");
    } else if i == 32 {
        reveal_strlit("Micah");
    } else if i == 33 {
        reveal_strlit("Nahum");
    } else if i == 34 {
        reveal_strlit("Habakkuk");
    } else if i == 35 {
        reveal_strlit("Zephaniah");
    } else if i == 36 {
        reveal_strlit("Haggai");
    } else if i == 37 {
        reveal_strlit("Zechariah");
    } else if i == 38 {
        reveal_strlit("Malachi");
    } else if i == 39 {
        reveal_strlit("Matthew");
    } else if i == 40 {
        reveal_strlit("Mark");
    } else if i == 41 {
        reveal_strlit("Luke");
    } else if i == 42 {
        reveal_strlit("John");
    } else if i == 43 {
        reveal_strlit("Acts");
    } else if i == 44 {
        reveal_strlit("Romans");
    } else if i == 45 {
        reveal_strlit("1 Corinthians");
    } else if i == 46 {
        reveal_strlit("2 Corinthians");
    } else if i == 47 {
        reveal_strlit("Galatians");
    } else if i == 48 {
        reveal_strlit("Ephesians");
    } else if i == 49 {
        reveal_strlit("Philippians");
    } else if i == 50 {
        reveal_strlit("Colossians");
    } else if i == 51 {
        reveal_strlit("1 Thessalonians");
    } else if i == 52 {
        reveal_strlit("2 Thessalonians");
    } else if i == 53 {
        reveal_strlit("1 Timothy");
    } else if i == 54 {
        reveal_strlit("2 Timothy");
    } else if i == 55 {
        reveal_strlit("Titus");
    } else if i == 56 {
        reveal_strlit("Philemon");
    } else if i == 57 {
        reveal_strlit("Hebrews");
    } else if i == 58 {
        reveal_strlit("James");
    } else if i == 59 {
        reveal_strlit("1 Peter");
    } else if i == 60 {
        reveal_strlit("2 Peter");
    } else if i == 61 {
        reveal_strlit("1 John");
    } else if i == 62 {
        reveal_strlit("2 John");
    } else if i == 63 {
        reveal_strlit("3 John");
    } else if i == 64 {
        reveal_strlit("Jude");
    } else if i == 65 {
        reveal_strlit("Revelation");
    }
}

/// No two books share an abbreviation, and no two share a name.
pub proof fn lemma_canon_distinct()
    ensures
        forall|i: int, j: int|
            0 <= i < BOOK_COUNT && 0 <= j < BOOK_COUNT && i != j ==> spec_abbreviation(i)
                != spec_abbreviation(j),
        forall|i: int, j: int|
            0 <= i < BOOK_COUNT && 0 <= j < BOOK_COUNT && i != j ==> spec_book_name(i)
                != spec_book_name(j),
{
    assert forall|i: int, j: int|
        0 <= i < BOOK_COUNT && 0 <= j < BOOK_COUNT && i != j implies spec_abbreviation(i)
            != spec_abbreviation(j) by {
        lemma_abbreviation_key(i);
        lemma_abbreviation_key(j);
    }
    assert forall|i: int, j: int|
        0 <= i < BOOK_COUNT && 0 <= j < BOOK_COUNT && i != j implies spec_book_name(i)
            != spec_book_name(j) by {
        lemma_name_key(i);
        lemma_name_key(j);
    }
}

/// A path segment whose upper-case form is the abbreviation of book `i`
/// names book `i`.
pub proof fn lemma_abbreviation_names_its_book(book: Seq<char>, i: int)
    requires
        0 <= i < BOOK_COUNT,
        crate::text::uppercase(book) == spec_abbreviation(i),
    ensures
        spec_book_index(book) == Some(i),
{
    lemma_canon_distinct();
    let names = abbreviations();
    assert(names[i] == spec_abbreviation(i));
    names.index_of_first_ensures(spec_abbreviation(i));
}

/// The name of book `i` names book `i`, unless its upper-case form is an
/// abbreviation (which wins).
pub proof fn lemma_name_names_its_book(i: int)
    requires
        0 <= i < BOOK_COUNT,
        !abbreviations().contains(crate::text::uppercase(spec_book_name(i))),
    ensures
        spec_book_index(spec_book_name(i)) == Some(i),
{
    lemma_canon_distinct();
    let names = book_names();
    assert(names[i] == spec_book_name(i));
    names.index_of_first_ensures(spec_book_name(i));
    abbreviations().index_of_first_ensures(crate::text::uppercase(spec_book_name(i)));
}

/// The canon book by book: the names, abbreviations, numbers of chapters
/// and numbers of verses of the 66 books, in order.
pub proof fn lemma_canon_books()
    ensures
        book_names() == seq!["Genesis"@, "Exodus"@, "Leviticus"@, "Numbers"@, "Deuteronomy"@, "Joshua"@, "Judges"@, "Ruth"@, "1 Samuel"@, "2 Samuel"@, "1 Kings"@, "2 Kings"@, "1 Chronicles"@, "2 Chronicles"@, "Ezra"@, "Nehemiah"@, "Esther"@, "Job"@, "Psalms"@, "Proverbs"@, "Ecclesiastes"@, "Song of Solomon"@, "Isaiah"@, "Jeremiah"@, "Lamentations"@, "Ezekiel"@, "Daniel"@, "Hosea"@, "Joel"@, "Amos"@, "Obadiah"@, "Jonah"@, "Micah"@, "Nahum"@, "Habakkuk"@, "Zephaniah"@, "Haggai"@, "Zechariah"@, "Malachi"@, "Matthew"@, "Mark"@, "Luke"@, "John"@, "Acts"@, "Romans"@, "1 Corinthians"@, "2 Corinthians"@, "Galatians"@, "Ephesians"@, "Philippians"@, "Colossians"@, "1 Thessalonians"@, "2 Thessalonians"@, "1 Timothy"@, "2 Timothy"@, "Titus"@, "Philemon"@, "Hebrews"@, "James"@, "1 Peter"@, "2 Peter"@, "1 John"@, "2 John"@, "3 John"@, "Jude"@, "Revelation"@],
        abbreviations() == seq!["GEN"@, "EXO"@, "LEV"@, "NUM"@, "DEU"@, "JOS"@, "JDG"@, "RUT"@, "1SA"@, "2SA"@, "1KI"@, "2KI"@, "1CH"@, "2CH"@, "EZR"@, "NEH"@, "EST"@, "JOB"@, "PSA"@, "PRO"@, "ECC"@, "SNG"@, "ISA"@, "JER"@, "LAM"@, "EZK"@, "DAN"@, "HOS"@, "JOL"@, "AMO"@, "OBA"@, "JON"@, "MIC"@, "NAM"@, "HAB"@, "ZEP"@, "HAG"@, "ZEC"@, "MAL"@, "MAT"@, "MRK"@, "LUK"@, "JHN"@, "ACT"@, "ROM"@, "1CO"@, "2CO"@, "GAL"@, "EPH"@, "PHP"@, "COL"@, "1TH"@, "2TH"@, "1TI"@, "2TI"@, "TIT"@, "PHM"@, "HEB"@, "JAS"@, "1PE"@, "2PE"@, "1JN"@, "2JN"@, "3JN"@, "JUD"@, "REV"@],
        Seq::new(BOOK_COUNT as nat, |i: int| spec_chapter_count(i)) == seq![50int, 40int, 27int, 36int, 34int, 24int, 21int, 4int, 31int, 24int, 22int, 25int, 29int, 36int, 10int, 13int, 10int, 42int, 150int, 31int, 12int, 8int, 66int, 52int, 5int, 48int, 12int, 14int, 3int, 9int, 1int, 4int, 7int, 3int, 3int, 3int, 2int, 14int, 4int, 28int, 16int, 24int, 21int, 28int, 16int, 16int, 13int, 6int, 6int, 4int, 4int, 5int, 3int, 6int, 4int, 3int, 1int, 13int, 5int, 5int, 3int, 5int, 1int, 1int, 1int, 22int],
        Seq::new(BOOK_COUNT as nat, |i: int| spec_verse_count(i)) == seq![1533int, 1213int, 859int, 1288int, 959int, 658int, 618int, 85int, 810int, 695int, 816int, 719int, 942int, 822int, 280int, 406int, 167int, 1070int, 2461int, 915int, 222int, 117int, 1292int, 1364int, 154int, 1273int, 357int, 197int, 73int, 146int, 21int, 48int, 105int, 47int, 56int, 53int, 38int, 211int, 55int, 1071int, 678int, 1151int, 879int, 1007int, 433int, 437int, 257int, 149int, 155int, 104int, 95int, 89int, 47int, 113int, 83int, 46int, 25int, 303int, 108int, 105int, 61int, 105int, 13int, 14int, 25int, 404int],
{
    assert(book_names() =~= seq!["Genesis"@, "Exodus"@, "Leviticus"@, "Numbers"@, "Deuteronomy"@, "Joshua"@, "Judges"@, "Ruth"@, "1 Samuel"@, "2 Samuel"@, "1 Kings"@, "2 Kings"@, "1 Chronicles"@, "2 Chronicles"@, "Ezra"@, "Nehemiah"@, "Esther"@, "Job"@, "Psalms"@, "Proverbs"@, "Ecclesiastes"@, "Song of Solomon"@, "Isaiah"@, "Jeremiah"@, "Lamentations"@, "Ezekiel"@, "Daniel"@, "Hosea"@, "Joel"@, "Amos"@, "Obadiah"@, "Jonah"@, "Micah"@, "Nahum"@, "Habakkuk"@, "Zephaniah"@, "Haggai"@, "Zechariah"@, "Malachi"@, "Matthew"@, "Mark"@, "Luke"@, "John"@, "Acts"@, "Romans"@, "1 Corinthians"@, "2 Corinthians"@, "Galatians"@, "Ephesians"@, "Philippians"@, "Colossians"@, "1 Thessalonians"@, "2 Thessalonians"@, "1 Timothy"@, "2 Timothy"@, "Titus"@, "Philemon"@, "Hebrews"@, "James"@, "1 Peter"@, "2 Peter"@, "1 John"@, "2 John"@, "3 John"@, "Jude"@, "Revelation"@]);
    assert(abbreviations() =~= seq!["GEN"@, "EXO"@, "LEV"@, "NUM"@, "DEU"@, "JOS"@, "JDG"@, "RUT"@, "1SA"@, "2SA"@, "1KI"@, "2KI"@, "1CH"@, "2CH"@, "EZR"@, "NEH"@, "EST"@, "JOB"@, "PSA"@, "PRO"@, "ECC"@, "SNG"@, "ISA"@, "JER"@, "LAM"@, "EZK"@, "DAN"@, "HOS"@, "JOL"@, "AMO"@, "OBA"@, "JON"@, "MIC"@, "NAM"@, "HAB"@, "ZEP"@, "HAG"@, "ZEC"@, "MAL"@, "MAT"@, "MRK"@, "LUK"@, "JHN"@, "ACT"@, "ROM"@, "1CO"@, "2CO"@, "GAL"@, "EPH"@, "PHP"@, "COL"@, "1TH"@, "2TH"@, "1TI"@, "2TI"@, "TIT"@, "PHM"@, "HEB"@, "JAS"@, "1PE"@, "2PE"@, "1JN"@, "2JN"@, "3JN"@, "JUD"@, "REV"@]);
    assert(Seq::new(BOOK_COUNT as nat, |i: int| spec_chapter_count(i)) =~= seq![50int, 40int, 27int, 36int, 34int, 24int, 21int, 4int, 31int, 24int, 22int, 25int, 29int, 36int, 10int, 13int, 10int, 42int, 150int, 31int, 12int, 8int, 66int, 52int, 5int, 48int, 12int, 14int, 3int, 9int, 1int, 4int, 7int, 3int, 3int, 3int, 2int, 14int, 4int, 28int, 16int, 24int, 21int, 28int, 16int, 16int, 13int, 6int, 6int, 4int, 4int, 5int, 3int, 6int, 4int, 3int, 1int, 13int, 5int, 5int, 3int, 5int, 1int, 1int, 1int, 22int]);
    assert(Seq::new(BOOK_COUNT as nat, |i: int| spec_verse_count(i)) =~= seq![1533int, 1213int, 859int, 1288int, 959int, 658int, 618int, 85int, 810int, 695int, 816int, 719int, 942int, 822int, 280int, 406int, 167int, 1070int, 2461int, 915int, 222int, 117int, 1292int, 1364int, 154int, 1273int, 357int, 197int, 73int, 146int, 21int, 48int, 105int, 47int, 56int, 53int, 38int, 211int, 55int, 1071int, 678int, 1151int, 879int, 1007int, 433int, 437int, 257int, 149int, 155int, 104int, 95int, 89int, 47int, 113int, 83int, 46int, 25int, 303int, 108int, 105int, 61int, 105int, 13int, 14int, 25int, 404int]);
}

} // verus!
