use vstd::prelude::*;

verus! {

/// What `str::to_uppercase` makes of a string that holds a non-ASCII char:
/// each char mapped to its Unicode uppercase form (a char may map to several).
pub uninterp spec fn unicode_uppercase(s: Seq<char>) -> Seq<char>;

/// A char with `a`..`z` moved to `A`..`Z`; every other char unchanged.
pub open spec fn ascii_upper_char(c: char) -> char {
    if 'a' <= c && c <= 'z' {
        ((c as int) - 32) as char
    } else {
        c
    }
}

/// A char with `A`..`Z` moved to `a`..`z`; every other char unchanged.
pub open spec fn ascii_lower_char(c: char) -> char {
    if 'A' <= c && c <= 'Z' {
        ((c as int) + 32) as char
    } else {
        c
    }
}

/// The ASCII upper-case form of a string, char by char.
pub open spec fn ascii_uppercase(s: Seq<char>) -> Seq<char> {
    s.map_values(|c: char| ascii_upper_char(c))
}

/// The ASCII lower-case form of a string, char by char.
pub open spec fn ascii_lowercase(s: Seq<char>) -> Seq<char> {
    s.map_values(|c: char| ascii_lower_char(c))
}

/// What `str::to_uppercase` makes of a string: the ASCII upper-case form of a
/// string of ASCII chars (Unicode maps `a`..`z` to `A`..`Z` and leaves the
/// other ASCII chars alone); `unicode_uppercase` of any other string.
pub open spec fn uppercase(s: Seq<char>) -> Seq<char> {
    if vstd::utf8::is_ascii_chars(s) {
        ascii_uppercase(s)
    } else {
        unicode_uppercase(s)
    }
}

/// Calls `str::to_uppercase`. The contract claims that on a string of ASCII
/// chars the result is the ASCII upper-case form, and that on any other string
/// it is `unicode_uppercase` of the argument, a function of the argument
/// alone; nothing more is claimed of non-ASCII strings.
#[verifier::external_body]
pub fn to_upper(s: &str) -> (res: String)
    ensures
        vstd::utf8::is_ascii_chars(s@) ==> res@ == ascii_uppercase(s@),
        !vstd::utf8::is_ascii_chars(s@) ==> res@ == unicode_uppercase(s@),
{
    s.to_uppercase()
}

/// Upper-casing a string of ASCII chars ignores their case: its lower-case
/// form upper-cases to the same string.
pub proof fn lemma_uppercase_ignores_ascii_case(s: Seq<char>)
    requires
        vstd::utf8::is_ascii_chars(s),
    ensures
        uppercase(ascii_lowercase(s)) == uppercase(s),
        vstd::utf8::is_ascii_chars(ascii_lowercase(s)),
{
    let l = ascii_lowercase(s);
    assert forall|i: int| 0 <= i < l.len() implies '\0' <= #[trigger] l[i] <= '\u{7f}' by {
        assert('\0' <= s[i] <= '\u{7f}');
    }
    assert(ascii_uppercase(l) =~= ascii_uppercase(s));
}

/// Whether a char is white space as `char::is_whitespace` has it: the
/// Unicode White_Space property (U+0009..U+000D, U+0020, U+0085, U+00A0,
/// U+1680, U+2000..U+200A, U+2028, U+2029, U+202F, U+205F, U+3000).
pub open spec fn is_white_space(c: char) -> bool {
    ('\u{9}' <= c && c <= '\u{d}') || c == ' ' || c == '\u{85}' || c == '\u{a0}' || c
        == '\u{1680}' || ('\u{2000}' <= c && c <= '\u{200a}') || c == '\u{2028}' || c == '\u{2029}'
        || c == '\u{202f}' || c == '\u{205f}' || c == '\u{3000}'
}

/// A string without its leading white space.
pub open spec fn trim_start(s: Seq<char>) -> Seq<char>
    decreases s.len(),
{
    if s.len() > 0 && is_white_space(s[0]) {
        trim_start(s.drop_first())
    } else {
        s
    }
}

/// A string without its trailing white space.
pub open spec fn trim_end(s: Seq<char>) -> Seq<char>
    decreases s.len(),
{
    if s.len() > 0 && is_white_space(s.last()) {
        trim_end(s.drop_last())
    } else {
        s
    }
}

/// What `str::trim` makes of a string: the string without its leading and
/// trailing white space.
pub open spec fn trimmed(s: Seq<char>) -> Seq<char> {
    trim_end(trim_start(s))
}

/// Calls `str::trim`, which drops the leading and trailing chars for which
/// `char::is_whitespace` holds; the contract claims exactly that.
#[verifier::external_body]
pub fn trim(s: &str) -> (res: &str)
    ensures
        res@ == trimmed(s@),
{
    s.trim()
}

proof fn lemma_trim_start_starts(s: Seq<char>)
    ensures
        trim_start(s).len() == 0 || !is_white_space(trim_start(s)[0]),
    decreases s.len(),
{
    if s.len() > 0 && is_white_space(s[0]) {
        lemma_trim_start_starts(s.drop_first());
    }
}

proof fn lemma_trim_end_ends(s: Seq<char>)
    ensures
        trim_end(s).len() == 0 || !is_white_space(trim_end(s).last()),
    decreases s.len(),
{
    if s.len() > 0 && is_white_space(s.last()) {
        lemma_trim_end_ends(s.drop_last());
    }
}

proof fn lemma_trim_end_keeps_start(s: Seq<char>)
    requires
        s.len() > 0,
        !is_white_space(s[0]),
    ensures
        trim_end(s).len() > 0,
        trim_end(s)[0] == s[0],
    decreases s.len(),
{
    if is_white_space(s.last()) {
        assert(s.len() > 1);
        assert(s.drop_last()[0] == s[0]);
        lemma_trim_end_keeps_start(s.drop_last());
    }
}

/// Trimming a trimmed string changes nothing.
pub proof fn lemma_trimmed_idempotent(s: Seq<char>)
    ensures
        trimmed(trimmed(s)) == trimmed(s),
{
    let t = trim_start(s);
    let u = trim_end(t);
    lemma_trim_start_starts(s);
    lemma_trim_end_ends(t);
    if t.len() > 0 {
        lemma_trim_end_keeps_start(t);
    }
    assert(trim_start(u) == u);
    assert(trim_end(u) == u);
}

/// The views of a list of strings.
pub open spec fn views(v: Seq<String>) -> Seq<Seq<char>> {
    v.map_values(|s: String| s@)
}

/// The upper-cased views of a list of strings.
pub open spec fn upper_views(v: Seq<String>) -> Seq<Seq<char>> {
    v.map_values(|s: String| uppercase(s@))
}

/// Each string of a list upper-cased.
pub fn upper_all(v: &Vec<String>) -> (res: Vec<String>)
    ensures
        views(res@) == upper_views(v@),
{
    let mut res: Vec<String> = Vec::new();
    let mut i: usize = 0;
    while i < v.len()
        invariant
            i <= v@.len(),
            res@.len() == i,
            views(res@) == upper_views(v@).take(i as int),
        decreases v@.len() - i,
    {
        let ghost before = res@;
        let u = to_upper(v[i].as_str());
        res.push(u);
        assert forall|k: int| 0 <= k < i + 1 implies views(res@)[k] == upper_views(v@).take(i + 1)[k] by {
            if k < i {
                assert(res@[k] == before[k]);
                assert(views(before)[k] == before[k]@);
            }
        }
        assert(views(res@) =~= upper_views(v@).take(i + 1));
        i = i + 1;
    }
    assert(upper_views(v@).take(v@.len() as int) =~= upper_views(v@));
    res
}

/// Whether two strings hold the same chars.
pub fn same_text(a: &str, b: &str) -> (res: bool)
    ensures
        res == (a@ == b@),
{
    let n = a.unicode_len();
    if n != b.unicode_len() {
        return false;
    }
    let mut i: usize = 0;
    while i < n
        invariant
            n == a@.len(),
            n == b@.len(),
            i <= n,
            forall|j: int| 0 <= j < i ==> a@[j] == b@[j],
        decreases n - i,
    {
        if a.get_char(i) != b.get_char(i) {
            return false;
        }
        i = i + 1;
    }
    assert(a@ =~= b@);
    true
}

} // verus!
