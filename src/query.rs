//! The staged statement builder and the rendering of a finished statement.

use crate::buffer::{lemma_literal_markers, QueryBuffer};
use crate::expr::{grouped, Connective, Expr};
use crate::text::{
    count_char, count_markers, lemma_ordinals_cover, lemma_render_counts, numbered, ordinal,
    ordinal_taken, render_numbered,
};
use crate::types::Type;
use vstd::prelude::*;

verus! {

/// Stage of a query that has no `WHERE` or `HAVING` part yet.
#[derive(Debug)]
pub struct Raw;

/// Stage of a query whose last part is a `WHERE` condition.
#[derive(Debug)]
pub struct Where;

/// Stage of a query whose last part is a `HAVING` condition.
#[derive(Debug)]
pub struct Having;

/// Stage of a query that has trailing text after its conditions; only more
/// trailing text may follow.
#[derive(Debug)]
pub struct Suffixed;

/// A statement under construction. The stage `S` decides which parts may
/// follow, so that a misplaced clause is a type error.
#[derive(Debug)]
pub struct Query<'a, S> {
    buffer: QueryBuffer<'a>,
    state: S,
}

/// How markers appear in a built statement.
pub enum ArgFormat {
    /// Every marker stays `?`.
    QuestionMark,
    /// Markers become `$1`, `$2`, ... in order of appearance.
    Indexed,
}

/// Starts a statement with the fragment `q`.
pub fn query<'a>(q: QueryBuffer<'a>) -> (r: Query<'a, Raw>)
    requires
        q.wf(),
    ensures
        r.wf(),
        r.text() == q.text(),
        r.args() == q.args(),
{
    Query { buffer: q, state: Raw }
}

impl<'a, S> Query<'a, S> {
    pub closed spec fn text(&self) -> Seq<char> {
        self.buffer.text()
    }

    pub closed spec fn args(&self) -> Seq<Type<'a>> {
        self.buffer.args()
    }

    pub open spec fn wf(&self) -> bool {
        count_markers(self.text()) == self.args().len()
    }

    /// The statement's text and its arguments. With `Indexed` each marker is
    /// numbered; the arguments come in the order of the markers either way.
    pub fn build(self, format: ArgFormat) -> (r: (String, Vec<Type<'a>>))
        requires
            self.wf(),
        ensures
            r.0@ == (match format {
                ArgFormat::QuestionMark => self.text(),
                ArgFormat::Indexed => render_numbered(self.text()),
            }),
            r.1@ == self.args(),
    {
        match format {
            ArgFormat::Indexed => self.build_indexed(),
            ArgFormat::QuestionMark => self.buffer.into_parts(),
        }
    }

    fn build_indexed(self) -> (r: (String, Vec<Type<'a>>))
        ensures
            r.0@ == render_numbered(self.text()),
            r.1@ == self.args(),
    {
        let (text, args) = self.buffer.into_parts();
        (numbered(text.as_str()), args)
    }

    /// The statement's text with its `?` markers.
    pub fn to_string(&self) -> (r: String)
        ensures
            r@ == self.text(),
    {
        self.buffer.text_string()
    }
}

impl<'a> Query<'a, Raw> {
    /// Attaches `q` as the `WHERE` condition.
    pub fn wh(self, q: QueryBuffer<'a>) -> (r: Query<'a, Where>)
        requires
            self.wf(),
            q.wf(),
        ensures
            r.wf(),
            r.text() == self.text() + " WHERE "@ + q.text(),
            r.args() == self.args() + q.args(),
    {
        proof {
            lemma_literal_markers();
        }
        let mut buffer = self.buffer;
        buffer.push(" WHERE ", q);
        Query { buffer, state: Where }
    }

    /// Attaches `q` as the `HAVING` condition.
    pub fn having(self, q: QueryBuffer<'a>) -> (r: Query<'a, Having>)
        requires
            self.wf(),
            q.wf(),
        ensures
            r.wf(),
            r.text() == self.text() + " HAVING "@ + q.text(),
            r.args() == self.args() + q.args(),
    {
        proof {
            lemma_literal_markers();
        }
        let mut buffer = self.buffer;
        buffer.push(" HAVING ", q);
        Query { buffer, state: Having }
    }

    /// Appends `q` after a space; the query stays open for a condition.
    pub fn append(self, q: QueryBuffer<'a>) -> (r: Query<'a, Raw>)
        requires
            self.wf(),
            q.wf(),
        ensures
            r.wf(),
            r.text() == self.text() + " "@ + q.text(),
            r.args() == self.args() + q.args(),
    {
        proof {
            lemma_literal_markers();
        }
        let mut buffer = self.buffer;
        buffer.push(" ", q);
        Query { buffer, state: Raw }
    }
}

impl<'a> Query<'a, Where> {
    /// Adds `q` to the condition with `AND`.
    pub fn and(self, q: QueryBuffer<'a>) -> (r: Query<'a, Where>)
        requires
            self.wf(),
            q.wf(),
        ensures
            r.wf(),
            r.text() == self.text() + " AND "@ + q.text(),
            r.args() == self.args() + q.args(),
    {
        proof {
            lemma_literal_markers();
        }
        let mut buffer = self.buffer;
        buffer.push(" AND ", q);
        Query { buffer, state: Where }
    }

    /// Adds `q` to the condition with `OR`.
    pub fn or(self, q: QueryBuffer<'a>) -> (r: Query<'a, Where>)
        requires
            self.wf(),
            q.wf(),
        ensures
            r.wf(),
            r.text() == self.text() + " OR "@ + q.text(),
            r.args() == self.args() + q.args(),
    {
        proof {
            lemma_literal_markers();
        }
        let mut buffer = self.buffer;
        buffer.push(" OR ", q);
        Query { buffer, state: Where }
    }

    /// Adds the condition `e` with `AND`; `e` is parenthesised only where its
    /// own top-level operator is `OR`.
    pub fn and_expr(self, e: Expr<'a>) -> (r: Query<'a, Where>)
        requires
            self.wf(),
            e.wf(),
        ensures
            r.wf(),
            r.text() == self.text() + " AND "@ + grouped(e.text(), e.connective(), Connective::And),
            r.args() == self.args() + e.args(),
    {
        proof {
            lemma_literal_markers();
        }
        let mut buffer = self.buffer;
        buffer.push(" AND ", e.group(Connective::And));
        Query { buffer, state: Where }
    }

    /// Adds the condition `e` with `OR`; `e` is parenthesised only where its
    /// own top-level operator is `AND`.
    pub fn or_expr(self, e: Expr<'a>) -> (r: Query<'a, Where>)
        requires
            self.wf(),
            e.wf(),
        ensures
            r.wf(),
            r.text() == self.text() + " OR "@ + grouped(e.text(), e.connective(), Connective::Or),
            r.args() == self.args() + e.args(),
    {
        proof {
            lemma_literal_markers();
        }
        let mut buffer = self.buffer;
        buffer.push(" OR ", e.group(Connective::Or));
        Query { buffer, state: Where }
    }

    /// Attaches `q` as the `HAVING` condition after the `WHERE` part.
    pub fn having(self, q: QueryBuffer<'a>) -> (r: Query<'a, Having>)
        requires
            self.wf(),
            q.wf(),
        ensures
            r.wf(),
            r.text() == self.text() + " HAVING "@ + q.text(),
            r.args() == self.args() + q.args(),
    {
        proof {
            lemma_literal_markers();
        }
        let mut buffer = self.buffer;
        buffer.push(" HAVING ", q);
        Query { buffer, state: Having }
    }

    /// Appends trailing text such as `ORDER BY`; no condition may follow.
    pub fn append(self, q: QueryBuffer<'a>) -> (r: Query<'a, Suffixed>)
        requires
            self.wf(),
            q.wf(),
        ensures
            r.wf(),
            r.text() == self.text() + " "@ + q.text(),
            r.args() == self.args() + q.args(),
    {
        proof {
            lemma_literal_markers();
        }
        let mut buffer = self.buffer;
        buffer.push(" ", q);
        Query { buffer, state: Suffixed }
    }
}

impl<'a> Query<'a, Having> {
    /// Appends trailing text such as `ORDER BY`; no condition may follow.
    pub fn append(self, q: QueryBuffer<'a>) -> (r: Query<'a, Suffixed>)
        requires
            self.wf(),
            q.wf(),
        ensures
            r.wf(),
            r.text() == self.text() + " "@ + q.text(),
            r.args() == self.args() + q.args(),
    {
        proof {
            lemma_literal_markers();
        }
        let mut buffer = self.buffer;
        buffer.push(" ", q);
        Query { buffer, state: Suffixed }
    }
}

impl<'a> Query<'a, Suffixed> {
    /// Appends more trailing text.
    pub fn append(self, q: QueryBuffer<'a>) -> (r: Query<'a, Suffixed>)
        requires
            self.wf(),
            q.wf(),
        ensures
            r.wf(),
            r.text() == self.text() + " "@ + q.text(),
            r.args() == self.args() + q.args(),
    {
        proof {
            lemma_literal_markers();
        }
        let mut buffer = self.buffer;
        buffer.push(" ", q);
        Query { buffer, state: Suffixed }
    }
}

/// A built statement has one marker per argument: the `?` text holds as many
/// markers as there are arguments, and in the numbered text each marker takes
/// an ordinal from `$1` to `$n` for `n` arguments, each of which is taken;
/// the numbered text keeps no `?` and adds exactly `n` `$` signs.
pub proof fn lemma_placeholder_alignment<'a, S>(q: Query<'a, S>)
    requires
        q.wf(),
    ensures
        count_markers(q.text()) == q.args().len(),
        forall|i: int|
            0 <= i < q.text().len() && q.text()[i] == '?' ==> 1 <= #[trigger] ordinal(q.text(), i)
                <= q.args().len(),
        forall|j: nat| 1 <= j <= q.args().len() ==> #[trigger] ordinal_taken(q.text(), j),
        count_char(render_numbered(q.text()), '?') == 0,
        count_char(render_numbered(q.text()), '$') == count_char(q.text(), '$') + q.args().len(),
{
    lemma_ordinals_cover(q.text());
    lemma_render_counts(q.text(), 0);
}

} // verus!
