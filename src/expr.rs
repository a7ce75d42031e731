//! Boolean conditions: `AND`, `OR` and `NOT` with the fewest parentheses that
//! keep precedence explicit, and the `IN` list.

use crate::buffer::{lemma_literal_markers, QueryBuffer, TrustedString};
use crate::text::{count_markers, lemma_markers_concat, push_char};
use crate::types::Type;
use vstd::prelude::*;

verus! {

/// The operator that joins the parts of an expression at its top level.
#[derive(PartialEq, Eq, Structural, Clone, Copy, Debug)]
pub enum Connective {
    /// No operator joins parts at the top level: a single condition, a
    /// negation, or a parenthesised group.
    Atomic,
    And,
    Or,
}

/// The separator written for a binary connective.
pub open spec fn op_text(op: Connective) -> Seq<char> {
    if op == Connective::Or {
        " OR "@
    } else {
        " AND "@
    }
}

/// An operand whose own top-level operator is `inner` needs parentheses under
/// `op` exactly when that operator is a different one.
pub open spec fn needs_parens(inner: Connective, op: Connective) -> bool {
    inner != Connective::Atomic && inner != op
}

/// The text of an operand as it stands under `op`.
pub open spec fn grouped(text: Seq<char>, inner: Connective, op: Connective) -> Seq<char> {
    if needs_parens(inner, op) {
        "("@ + text + ")"@
    } else {
        text
    }
}

/// The text of `a op b`, each side parenthesised where its own operator
/// differs from `op`.
pub open spec fn combined(
    op: Connective,
    a: Seq<char>,
    a_op: Connective,
    b: Seq<char>,
    b_op: Connective,
) -> Seq<char> {
    grouped(a, a_op, op) + op_text(op) + grouped(b, b_op, op)
}

/// `n` markers separated by commas: `?,?,...,?`.
pub open spec fn marker_list(n: nat) -> Seq<char>
    decreases n,
{
    if n == 0 {
        Seq::empty()
    } else if n == 1 {
        seq!['?']
    } else {
        marker_list((n - 1) as nat) + seq![',', '?']
    }
}

/// A boolean condition built from fragments with `AND`, `OR` and `NOT`.
pub struct Expr<'a> {
    buffer: QueryBuffer<'a>,
    op: Connective,
}

/// A condition made of the single fragment `q`.
pub fn expr<'a>(q: QueryBuffer<'a>) -> (r: Expr<'a>)
    requires
        q.wf(),
    ensures
        r.wf(),
        r.text() == q.text(),
        r.args() == q.args(),
        r.connective() == Connective::Atomic,
{
    Expr { buffer: q, op: Connective::Atomic }
}

impl<'a> Expr<'a> {
    pub closed spec fn text(&self) -> Seq<char> {
        self.buffer.text()
    }

    pub closed spec fn args(&self) -> Seq<Type<'a>> {
        self.buffer.args()
    }

    pub closed spec fn connective(&self) -> Connective {
        self.op
    }

    pub open spec fn wf(&self) -> bool {
        count_markers(self.text()) == self.args().len()
    }

    /// This condition as an operand of `op`.
    pub(crate) fn group(self, op: Connective) -> (r: QueryBuffer<'a>)
        requires
            self.wf(),
        ensures
            r.wf(),
            r.text() == grouped(self.text(), self.connective(), op),
            r.args() == self.args(),
    {
        proof {
            lemma_literal_markers();
        }
        if self.op != Connective::Atomic && self.op != op {
            self.buffer.wrapped("(", ")")
        } else {
            self.buffer
        }
    }

    fn combine(self, op: Connective, other: Expr<'a>) -> (r: Expr<'a>)
        requires
            self.wf(),
            other.wf(),
            op != Connective::Atomic,
        ensures
            r.wf(),
            r.text() == combined(op, self.text(), self.connective(), other.text(), other.connective()),
            r.args() == self.args() + other.args(),
            r.connective() == op,
    {
        proof {
            lemma_literal_markers();
        }
        let mut left = self.group(op);
        let right = other.group(op);
        if op == Connective::Or {
            left.push(" OR ", right);
        } else {
            left.push(" AND ", right);
        }
        Expr { buffer: left, op }
    }

    /// `self AND other`, with parentheses around a side joined by `OR`.
    pub fn and(self, other: Expr<'a>) -> (r: Expr<'a>)
        requires
            self.wf(),
            other.wf(),
        ensures
            r.wf(),
            r.text() == combined(
                Connective::And,
                self.text(),
                self.connective(),
                other.text(),
                other.connective(),
            ),
            r.args() == self.args() + other.args(),
            r.connective() == Connective::And,
    {
        self.combine(Connective::And, other)
    }

    /// `self OR other`, with parentheses around a side joined by `AND`.
    pub fn or(self, other: Expr<'a>) -> (r: Expr<'a>)
        requires
            self.wf(),
            other.wf(),
        ensures
            r.wf(),
            r.text() == combined(
                Connective::Or,
                self.text(),
                self.connective(),
                other.text(),
                other.connective(),
            ),
            r.args() == self.args() + other.args(),
            r.connective() == Connective::Or,
    {
        self.combine(Connective::Or, other)
    }

    /// `NOT (self)`.
    pub fn not(self) -> (r: Expr<'a>)
        requires
            self.wf(),
        ensures
            r.wf(),
            r.text() == "NOT ("@ + self.text() + ")"@,
            r.args() == self.args(),
            r.connective() == Connective::Atomic,
    {
        proof {
            lemma_literal_markers();
        }
        Expr { buffer: self.buffer.wrapped("NOT (", ")"), op: Connective::Atomic }
    }

    /// The condition as a fragment, in parentheses, ready to stand beside
    /// any other SQL text.
    pub fn into_buffer(self) -> (r: QueryBuffer<'a>)
        requires
            self.wf(),
        ensures
            r.wf(),
            r.text() == "("@ + self.text() + ")"@,
            r.args() == self.args(),
    {
        proof {
            lemma_literal_markers();
        }
        self.buffer.wrapped("(", ")")
    }
}

proof fn lemma_marker_list(n: nat)
    ensures
        count_markers(marker_list(n)) == n,
    decreases n,
{
    reveal_with_fuel(count_markers, 3);
    if n > 1 {
        lemma_marker_list((n - 1) as nat);
        lemma_markers_concat(marker_list((n - 1) as nat), seq![',', '?']);
    }
}

/// `subject IN (?,...,?)` with one marker for each of `values`, which become
/// its arguments after those of `subject`. An empty list of values gives the
/// condition `1=0`, which no row meets, with no arguments at all.
pub fn in_expr<'a>(subject: QueryBuffer<'a>, values: Vec<Type<'a>>) -> (r: QueryBuffer<'a>)
    requires
        subject.wf(),
    ensures
        r.wf(),
        values@.len() == 0 ==> r.text() == "1=0"@ && r.args() == Seq::<Type<'a>>::empty(),
        values@.len() > 0 ==> r.text() == subject.text() + " IN "@ + "("@ + marker_list(
            values@.len(),
        ) + ")"@ && r.args() == subject.args() + values@,
{
    proof {
        lemma_literal_markers();
    }
    let n: usize = values.len();
    if n == 0 {
        return QueryBuffer::from_trusted(TrustedString::from_static("1=0"));
    }
    let mut list = String::new();
    let mut i: usize = 0;
    while i < n
        invariant
            i <= n,
            list@ == marker_list(i as nat),
        decreases n - i,
    {
        if i > 0 {
            push_char(&mut list, ',');
        }
        push_char(&mut list, '?');
        i = i + 1;
        assert(list@ =~= marker_list(i as nat));
    }
    proof {
        lemma_marker_list(n as nat);
    }
    let markers = QueryBuffer::from_parts(list, values).wrapped("(", ")");
    let mut buffer = subject;
    buffer.push(" IN ", markers);
    assert(buffer.text() =~= subject.text() + " IN "@ + "("@ + marker_list(n as nat) + ")"@);
    buffer
}

/// `x OR y` joined by `AND` with `z` keeps `x OR y` in parentheses, while
/// `x AND y` joined by `AND` with `z` needs none.
pub proof fn lemma_grouping(
    x: Seq<char>,
    xo: Connective,
    y: Seq<char>,
    yo: Connective,
    z: Seq<char>,
    zo: Connective,
)
    ensures
        combined(Connective::And, combined(Connective::Or, x, xo, y, yo), Connective::Or, z, zo)
            == "("@ + combined(Connective::Or, x, xo, y, yo) + ")"@ + " AND "@ + grouped(
            z,
            zo,
            Connective::And,
        ),
        combined(Connective::And, combined(Connective::And, x, xo, y, yo), Connective::And, z, zo)
            == combined(Connective::And, x, xo, y, yo) + " AND "@ + grouped(
            z,
            zo,
            Connective::And,
        ),
        combined(
            Connective::And,
            combined(Connective::Or, x, Connective::Atomic, y, Connective::Atomic),
            Connective::Or,
            z,
            Connective::Atomic,
        ) == "("@ + x + " OR "@ + y + ")"@ + " AND "@ + z,
        combined(
            Connective::And,
            combined(Connective::And, x, Connective::Atomic, y, Connective::Atomic),
            Connective::And,
            z,
            Connective::Atomic,
        ) == x + " AND "@ + y + " AND "@ + z,
{
    assert(combined(
        Connective::And,
        combined(Connective::Or, x, Connective::Atomic, y, Connective::Atomic),
        Connective::Or,
        z,
        Connective::Atomic,
    ) =~= "("@ + x + " OR "@ + y + ")"@ + " AND "@ + z);
    assert(combined(
        Connective::And,
        combined(Connective::And, x, Connective::Atomic, y, Connective::Atomic),
        Connective::And,
        z,
        Connective::Atomic,
    ) =~= x + " AND "@ + y + " AND "@ + z);
}

} // verus!
