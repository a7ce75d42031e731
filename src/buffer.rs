//! Trusted SQL text, and fragments that pair such text with the arguments of
//! its markers.

use crate::text::{count_markers, lemma_markers_absent, lemma_markers_concat, marker_count};
use crate::types::Type;
use vstd::prelude::*;

verus! {

/// Text that its author attests to be free of unsanitised input. Only such
/// text can become the SQL of a query; values go in as arguments.
pub struct TrustedString(String);

impl View for TrustedString {
    type V = Seq<char>;

    closed spec fn view(&self) -> Seq<char> {
        self.0@
    }
}

/// Marks `value` as trusted SQL text. The caller attests that it holds no
/// unchecked input: an identifier taken from outside must first pass a
/// whitelist. This is the one place where SQL injection can enter.
pub fn trusted(value: String) -> (r: TrustedString)
    ensures
        r@ == value@,
{
    TrustedString(value)
}

impl TrustedString {
    /// A string literal of the program is trusted as it stands.
    pub fn from_static(value: &'static str) -> (r: TrustedString)
        ensures
            r@ == value@,
    {
        TrustedString(String::from_str(value))
    }

    pub fn to_string(&self) -> (r: String)
        ensures
            r@ == self@,
    {
        self.0.clone()
    }
}

/// SQL text with `?` markers, and the argument bound to each marker in order.
///
/// The count of markers in the text must equal the count of arguments. This
/// is a precondition of the constructors, so verified callers prove it;
/// `checked` tests it at run time for text whose markers are not known
/// statically. Every fragment built from those constructors keeps it.
#[derive(Debug)]
pub struct QueryBuffer<'a> {
    query: String,
    args: Vec<Type<'a>>,
}

impl<'a> QueryBuffer<'a> {
    pub closed spec fn text(&self) -> Seq<char> {
        self.query@
    }

    pub closed spec fn args(&self) -> Seq<Type<'a>> {
        self.args@
    }

    /// Each marker of the text has exactly one argument.
    pub open spec fn wf(&self) -> bool {
        count_markers(self.text()) == self.args().len()
    }

    /// A fragment without arguments. Its text must hold no marker.
    pub fn from_trusted(text: TrustedString) -> (r: QueryBuffer<'a>)
        requires
            count_markers(text@) == 0,
        ensures
            r.wf(),
            r.text() == text@,
            r.args() == Seq::<Type<'a>>::empty(),
    {
        QueryBuffer { query: text.0, args: Vec::new() }
    }

    /// A fragment whose markers take `args`, left to right. The text must
    /// hold exactly as many markers as there are arguments.
    pub fn with_args(text: TrustedString, args: Vec<Type<'a>>) -> (r: QueryBuffer<'a>)
        requires
            count_markers(text@) == args@.len(),
        ensures
            r.wf(),
            r.text() == text@,
            r.args() == args@,
    {
        QueryBuffer { query: text.0, args }
    }

    /// Like `with_args`, but checks the count of markers against the count of
    /// arguments at run time, and gives `None` where they differ.
    pub fn checked(text: TrustedString, args: Vec<Type<'a>>) -> (r: Option<QueryBuffer<'a>>)
        ensures
            r is Some <==> count_markers(text@) == args@.len(),
            r matches Some(b) ==> b.wf() && b.text() == text@ && b.args() == args@,
    {
        if marker_count(text.0.as_str()) == args.len() {
            Some(QueryBuffer { query: text.0, args })
        } else {
            None
        }
    }

    /// Appends `glue` and then `other`: texts are joined, argument lists
    /// are concatenated in the same order.
    pub(crate) fn push(&mut self, glue: &str, other: QueryBuffer<'a>)
        requires
            old(self).wf(),
            other.wf(),
            count_markers(glue@) == 0,
        ensures
            final(self).wf(),
            final(self).text() == old(self).text() + glue@ + other.text(),
            final(self).args() == old(self).args() + other.args(),
    {
        let mut other = other;
        self.query.append(glue);
        self.query.append(other.query.as_str());
        self.args.append(&mut other.args);
        proof {
            lemma_markers_concat(old(self).text(), glue@);
            lemma_markers_concat(old(self).text() + glue@, other.text());
        }
    }

    /// `open`, this fragment's text, then `close`; the arguments stay.
    pub(crate) fn wrapped(self, open: &str, close: &str) -> (r: QueryBuffer<'a>)
        requires
            self.wf(),
            count_markers(open@) == 0,
            count_markers(close@) == 0,
        ensures
            r.wf(),
            r.text() == open@ + self.text() + close@,
            r.args() == self.args(),
    {
        proof {
            lemma_markers_concat(open@, self.text());
            lemma_markers_concat(open@ + self.text(), close@);
        }
        let mut query = String::from_str(open);
        query.append(self.query.as_str());
        query.append(close);
        QueryBuffer { query, args: self.args }
    }

    /// A fragment from its text and arguments, for text that this crate writes.
    pub(crate) fn from_parts(query: String, args: Vec<Type<'a>>) -> (r: QueryBuffer<'a>)
        requires
            count_markers(query@) == args@.len(),
        ensures
            r.wf(),
            r.text() == query@,
            r.args() == args@,
    {
        QueryBuffer { query, args }
    }

    /// The text and the arguments, taken apart.
    pub(crate) fn into_parts(self) -> (r: (String, Vec<Type<'a>>))
        ensures
            r.0@ == self.text(),
            r.1@ == self.args(),
    {
        (self.query, self.args)
    }

    /// A copy of the text.
    pub(crate) fn text_string(&self) -> (r: String)
        ensures
            r@ == self.text(),
    {
        self.query.clone()
    }

    /// The concatenation of two fragments with trusted `glue` between them.
    pub fn concat(self, glue: &TrustedString, other: QueryBuffer<'a>) -> (r: QueryBuffer<'a>)
        requires
            self.wf(),
            other.wf(),
            count_markers(glue@) == 0,
        ensures
            r.wf(),
            r.text() == self.text() + glue@ + other.text(),
            r.args() == self.args() + other.args(),
    {
        let mut r = self;
        r.push(glue.0.as_str(), other);
        r
    }
}

/// None of the keywords and separators that this crate writes into a query
/// holds a marker.
pub(crate) proof fn lemma_literal_markers()
    ensures
        count_markers(" "@) == 0,
        count_markers(" WHERE "@) == 0,
        count_markers(" HAVING "@) == 0,
        count_markers(" AND "@) == 0,
        count_markers(" OR "@) == 0,
        count_markers(" IN "@) == 0,
        count_markers("("@) == 0,
        count_markers(")"@) == 0,
        count_markers("NOT ("@) == 0,
        count_markers("1=0"@) == 0,
{
    reveal_strlit(" ");
    reveal_strlit(" WHERE ");
    reveal_strlit(" HAVING ");
    reveal_strlit(" AND ");
    reveal_strlit(" OR ");
    reveal_strlit(" IN ");
    reveal_strlit("(");
    reveal_strlit(")");
    reveal_strlit("NOT (");
    reveal_strlit("1=0");
    lemma_markers_absent(" "@);
    lemma_markers_absent(" WHERE "@);
    lemma_markers_absent(" HAVING "@);
    lemma_markers_absent(" AND "@);
    lemma_markers_absent(" OR "@);
    lemma_markers_absent(" IN "@);
    lemma_markers_absent("("@);
    lemma_markers_absent(")"@);
    lemma_markers_absent("NOT ("@);
    lemma_markers_absent("1=0"@);
}

/// Concatenating fragments is associative in text and in arguments: joining
/// `a` and `b` with `g` and then `c` with `h` gives what joining `b` and `c`
/// with `h` and then `a` with `g` gives.
pub proof fn lemma_concat_associative<'a>(
    a: QueryBuffer<'a>,
    b: QueryBuffer<'a>,
    c: QueryBuffer<'a>,
    g: Seq<char>,
    h: Seq<char>,
)
    ensures
        (a.text() + g + b.text()) + h + c.text() == a.text() + g + (b.text() + h + c.text()),
        (a.args() + b.args()) + c.args() == a.args() + (b.args() + c.args()),
{
    assert((a.text() + g + b.text()) + h + c.text() =~= a.text() + g + (b.text() + h + c.text()));
    assert((a.args() + b.args()) + c.args() =~= a.args() + (b.args() + c.args()));
}

} // verus!
