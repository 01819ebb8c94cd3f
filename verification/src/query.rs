use vstd::prelude::*;

verus! {

/// A value bound to a placeholder of a query.
#[derive(Debug, PartialEq, Eq)]
pub enum SqlArg {
    Text(String),
    Int(i32),
}

/// One piece of a query: SQL text written as is, or a bound value that the
/// database driver sends apart from the text, behind a numbered placeholder.
#[derive(Debug, PartialEq, Eq)]
pub enum SqlPart {
    Sql(String),
    Bind(SqlArg),
}

/// The mathematical form of a query piece.
pub enum Piece {
    Sql(Seq<char>),
    Text(Seq<char>),
    Int(int),
}

impl SqlPart {
    pub open spec fn piece(self) -> Piece {
        match self {
            SqlPart::Sql(s) => Piece::Sql(s@),
            SqlPart::Bind(SqlArg::Text(s)) => Piece::Text(s@),
            SqlPart::Bind(SqlArg::Int(v)) => Piece::Int(v as int),
        }
    }
}

/// A query under construction: its pieces in order. Pushing text appends
/// it to the SQL; pushing a bound value appends a placeholder and the value.
#[derive(Debug)]
pub struct SqlQuery {
    pub parts: Vec<SqlPart>,
}

impl View for SqlQuery {
    type V = Seq<Piece>;

    open spec fn view(&self) -> Seq<Piece> {
        self.parts@.map_values(|p: SqlPart| p.piece())
    }
}

/// Bound text values with `, ` between them, as a separated list writes them.
pub open spec fn separated_texts(items: Seq<Seq<char>>) -> Seq<Piece>
    decreases items.len(),
{
    if items.len() == 0 {
        Seq::empty()
    } else {
        let front = separated_texts(items.drop_last());
        if items.len() == 1 {
            front.push(Piece::Text(items.last()))
        } else {
            front.push(Piece::Sql(", "@)).push(Piece::Text(items.last()))
        }
    }
}

/// Whether `r` occurs in `s` as a run of consecutive pieces.
pub open spec fn has_run(s: Seq<Piece>, r: Seq<Piece>) -> bool {
    exists|i: int| 0 <= i && i + r.len() <= s.len() && #[trigger] s.subrange(i, i + r.len()) == r
}

/// A run of the front part of a query is a run of the whole.
pub broadcast proof fn lemma_has_run_front(s: Seq<Piece>, t: Seq<Piece>, r: Seq<Piece>)
    requires
        has_run(s, r),
    ensures
        #[trigger] has_run(s + t, r),
{
    let i = choose|i: int| 0 <= i && i + r.len() <= s.len() && #[trigger] s.subrange(i, i + r.len()) == r;
    assert((s + t).subrange(i, i + r.len()) =~= s.subrange(i, i + r.len()));
}

/// A run of the back part of a query is a run of the whole.
pub broadcast proof fn lemma_has_run_back(s: Seq<Piece>, t: Seq<Piece>, r: Seq<Piece>)
    requires
        has_run(t, r),
    ensures
        #[trigger] has_run(s + t, r),
{
    let i = choose|i: int| 0 <= i && i + r.len() <= t.len() && #[trigger] t.subrange(i, i + r.len()) == r;
    assert((s + t).subrange(s.len() + i, s.len() + i + r.len()) =~= t.subrange(i, i + r.len()));
}

/// Every sequence is a run of itself.
pub proof fn lemma_has_run_whole(r: Seq<Piece>)
    ensures
        has_run(r, r),
{
    let i: int = 0;
    assert(r.subrange(i, i + r.len()) =~= r);
}

/// The parts of a query, joined in order.
pub open spec fn joined_parts(parts: Seq<Seq<Piece>>) -> Seq<Piece>
    decreases parts.len(),
{
    if parts.len() == 0 {
        Seq::empty()
    } else {
        joined_parts(parts.drop_last()) + parts.last()
    }
}

/// A run of one part is a run of the joined parts.
pub proof fn lemma_has_run_in_part(parts: Seq<Seq<Piece>>, k: int, r: Seq<Piece>)
    requires
        0 <= k < parts.len(),
        has_run(parts[k], r),
    ensures
        has_run(joined_parts(parts), r),
    decreases parts.len(),
{
    if k == parts.len() - 1 {
        lemma_has_run_back(joined_parts(parts.drop_last()), parts.last(), r);
    } else {
        assert(parts.drop_last()[k] == parts[k]);
        lemma_has_run_in_part(parts.drop_last(), k, r);
        lemma_has_run_front(joined_parts(parts.drop_last()), parts.last(), r);
    }
}

/// A list of bound text values as a separated list writes it: the values in
/// order, with `, ` between each two.
pub open spec fn interleaved(items: Seq<Seq<char>>) -> Seq<Piece> {
    Seq::new(
        if items.len() == 0 {
            0
        } else {
            (2 * items.len() - 1) as nat
        },
        |j: int|
            if j % 2 == 0 {
                Piece::Text(items[j / 2])
            } else {
                Piece::Sql(", "@)
            },
    )
}

/// `separated_texts` is the interleaving of the values with `, `.
pub proof fn lemma_separated_texts_interleave(items: Seq<Seq<char>>)
    ensures
        separated_texts(items) == interleaved(items),
    decreases items.len(),
{
    if items.len() > 0 {
        lemma_separated_texts_interleave(items.drop_last());
        let front = items.drop_last();
        assert forall|j: int| 0 <= j < interleaved(items).len() implies #[trigger] separated_texts(
            items,
        )[j] == interleaved(items)[j] by {
            if j < interleaved(front).len() {
                assert(front[j / 2] == items[j / 2]);
            }
        }
        assert(separated_texts(items) =~= interleaved(items));
    }
}

impl SqlQuery {
    /// A query that starts with the SQL text `init`.
    pub fn new(init: &str) -> (res: SqlQuery)
        ensures
            res@ == seq![Piece::Sql(init@)],
    {
        let mut parts: Vec<SqlPart> = Vec::new();
        parts.push(SqlPart::Sql(String::from_str(init)));
        let res = SqlQuery { parts };
        assert(res@ =~= seq![Piece::Sql(init@)]);
        res
    }

    /// Appends SQL text.
    pub fn push(&mut self, sql: &str)
        ensures
            final(self)@ == old(self)@.push(Piece::Sql(sql@)),
    {
        self.parts.push(SqlPart::Sql(String::from_str(sql)));
        assert(self@ =~= old(self)@.push(Piece::Sql(sql@)));
    }

    /// Appends a placeholder bound to a text value.
    pub fn push_bind_text(&mut self, value: String)
        ensures
            final(self)@ == old(self)@.push(Piece::Text(value@)),
    {
        let ghost v = value@;
        self.parts.push(SqlPart::Bind(SqlArg::Text(value)));
        assert(self@ =~= old(self)@.push(Piece::Text(v)));
    }

    /// Appends a placeholder bound to an integer.
    pub fn push_bind_int(&mut self, value: i32)
        ensures
            final(self)@ == old(self)@.push(Piece::Int(value as int)),
    {
        self.parts.push(SqlPart::Bind(SqlArg::Int(value)));
        assert(self@ =~= old(self)@.push(Piece::Int(value as int)));
    }

    /// Appends placeholders bound to `values`, with `, ` between them.
    pub fn push_bind_list(&mut self, values: &Vec<String>)
        ensures
            final(self)@ == old(self)@ + separated_texts(values@.map_values(|v: String| v@)),
    {
        let ghost items = values@.map_values(|v: String| v@);
        let ghost start = self@;
        let n = values.len();
        let mut i: usize = 0;
        assert(items.take(0) =~= Seq::<Seq<char>>::empty());
        while i < n
            invariant
                i <= n,
                n == items.len(),
                items == values@.map_values(|v: String| v@),
                self@ == start + separated_texts(items.take(i as int)),
            decreases n - i,
        {
            let v = values[i].clone();
            if i > 0 {
                self.push(", ");
            }
            self.push_bind_text(v);
            proof {
                let t = items.take(i + 1);
                assert(t.drop_last() =~= items.take(i as int));
                assert(t.last() == items[i as int]);
            }
            i = i + 1;
        }
        assert(items.take(n as int) =~= items);
    }
}

} // verus!
