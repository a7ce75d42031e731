//! The placeholder model: what counts as a marker in query text, and how the
//! numbered rendering replaces each marker by `$n`.

use vstd::prelude::*;

verus! {

/// Number of placeholder markers in `s`. Every `?` character is a marker,
/// including one inside a quoted SQL literal.
pub open spec fn count_markers(s: Seq<char>) -> nat
    decreases s.len(),
{
    if s.len() == 0 {
        0
    } else {
        count_markers(s.drop_last()) + if s.last() == '?' {
            1nat
        } else {
            0nat
        }
    }
}

/// Number of occurrences of `c` in `s`.
pub open spec fn count_char(s: Seq<char>, c: char) -> nat
    decreases s.len(),
{
    if s.len() == 0 {
        0
    } else {
        count_char(s.drop_last(), c) + if s.last() == c {
            1nat
        } else {
            0nat
        }
    }
}

/// The decimal digit character for `d` (expected below ten).
pub open spec fn digit_char(d: nat) -> char {
    if d == 0 {
        '0'
    } else if d == 1 {
        '1'
    } else if d == 2 {
        '2'
    } else if d == 3 {
        '3'
    } else if d == 4 {
        '4'
    } else if d == 5 {
        '5'
    } else if d == 6 {
        '6'
    } else if d == 7 {
        '7'
    } else if d == 8 {
        '8'
    } else {
        '9'
    }
}

/// The decimal notation of `n`, without leading zeros.
pub open spec fn decimal(n: nat) -> Seq<char>
    decreases n,
{
    if n < 10 {
        seq![digit_char(n)]
    } else {
        decimal(n / 10).push(digit_char(n % 10))
    }
}

/// What a single character of the text becomes in the numbered rendering,
/// given the ordinal `k` that a marker there would receive.
pub open spec fn numbered_piece(c: char, k: nat) -> Seq<char> {
    if c == '?' {
        seq!['$'] + decimal(k)
    } else {
        seq![c]
    }
}

/// The numbered rendering of `s` when `k` markers precede it: every marker
/// becomes `$j`, where `j` is `k` plus its 1-based position among the
/// markers of `s`; every other character stays.
pub open spec fn render_from(s: Seq<char>, k: nat) -> Seq<char>
    decreases s.len(),
{
    if s.len() == 0 {
        Seq::empty()
    } else {
        render_from(s.drop_last(), k) + numbered_piece(s.last(), k + count_markers(s.drop_last()) + 1)
    }
}

/// The numbered rendering of a whole text: markers become `$1`, `$2`, ...
pub open spec fn render_numbered(s: Seq<char>) -> Seq<char> {
    render_from(s, 0)
}

/// Relies on `String::push`: the character is appended at the end.
#[verifier::external_body]
pub(crate) fn push_char(s: &mut String, c: char)
    ensures
        final(s)@ == old(s)@.push(c),
{
    s.push(c);
}

fn digit(d: usize) -> (c: char)
    requires
        d < 10,
    ensures
        c == digit_char(d as nat),
{
    if d == 0 {
        '0'
    } else if d == 1 {
        '1'
    } else if d == 2 {
        '2'
    } else if d == 3 {
        '3'
    } else if d == 4 {
        '4'
    } else if d == 5 {
        '5'
    } else if d == 6 {
        '6'
    } else if d == 7 {
        '7'
    } else if d == 8 {
        '8'
    } else {
        '9'
    }
}

/// Appends the decimal notation of `n` to `out`.
pub fn push_decimal(out: &mut String, n: usize)
    ensures
        final(out)@ == old(out)@ + decimal(n as nat),
    decreases n,
{
    if n >= 10 {
        push_decimal(out, n / 10);
    }
    push_char(out, digit(n % 10));
    assert(out@ =~= old(out)@ + decimal(n as nat));
}

/// Markers of a concatenation are those of its parts.
pub proof fn lemma_markers_concat(a: Seq<char>, b: Seq<char>)
    ensures
        count_markers(a + b) == count_markers(a) + count_markers(b),
    decreases b.len(),
{
    if b.len() > 0 {
        assert((a + b).drop_last() =~= a + b.drop_last());
        lemma_markers_concat(a, b.drop_last());
    }
}

/// A text without any `?` character holds no marker.
pub proof fn lemma_markers_absent(s: Seq<char>)
    requires
        forall|i: int| 0 <= i < s.len() ==> s[i] != '?',
    ensures
        count_markers(s) == 0,
    decreases s.len(),
{
    if s.len() > 0 {
        lemma_markers_absent(s.drop_last());
    }
}

proof fn lemma_markers_bounded(s: Seq<char>)
    ensures
        count_markers(s) <= s.len(),
    decreases s.len(),
{
    if s.len() > 0 {
        lemma_markers_bounded(s.drop_last());
    }
}

/// Renders `text` with every marker replaced by its 1-based ordinal, `$1`,
/// `$2`, ... in left-to-right order.
pub fn numbered(text: &str) -> (r: String)
    ensures
        r@ == render_numbered(text@),
{
    let len: usize = text.unicode_len();
    let mut out = String::new();
    let mut n: usize = 0;
    for c in it: text.chars()
        invariant
            it.seq() == text@,
            len == text@.len(),
            out@ == render_numbered(text@.take(it.index())),
            n == count_markers(text@.take(it.index())),
    {
        let ghost done = text@.take(it.index());
        assert(text@.take(it.index() + 1).drop_last() =~= done);
        proof {
            lemma_markers_bounded(done);
        }
        if c == '?' {
            n = n + 1;
            push_char(&mut out, '$');
            push_decimal(&mut out, n);
        } else {
            push_char(&mut out, c);
        }
        assert(out@ =~= render_numbered(done) + numbered_piece(c, 0 + count_markers(done) + 1));
    }
    assert(text@.take(text@.len() as int) =~= text@);
    out
}

/// Counts the markers in `text`.
pub fn marker_count(text: &str) -> (n: usize)
    ensures
        n == count_markers(text@),
{
    let len: usize = text.unicode_len();
    let mut n: usize = 0;
    for c in it: text.chars()
        invariant
            it.seq() == text@,
            len == text@.len(),
            n == count_markers(text@.take(it.index())),
    {
        let ghost done = text@.take(it.index());
        assert(text@.take(it.index() + 1).drop_last() =~= done);
        proof {
            lemma_markers_bounded(done);
        }
        if c == '?' {
            n = n + 1;
        }
    }
    assert(text@.take(text@.len() as int) =~= text@);
    n
}

/// Rendering a concatenation renders each part; the markers of the right
/// part are numbered on from those of the left part.
pub proof fn lemma_render_concat(a: Seq<char>, b: Seq<char>, k: nat)
    ensures
        render_from(a + b, k) == render_from(a, k) + render_from(b, k + count_markers(a)),
    decreases b.len(),
{
    if b.len() == 0 {
        assert(a + b =~= a);
    } else {
        assert((a + b).drop_last() =~= a + b.drop_last());
        lemma_render_concat(a, b.drop_last(), k);
        lemma_markers_concat(a, b.drop_last());
    }
}

/// The ordinal that the marker at position `i` of `s` takes in the numbered
/// rendering.
pub open spec fn ordinal(s: Seq<char>, i: int) -> nat {
    count_markers(s.take(i)) + 1
}

/// Some marker of `s` takes the ordinal `j`.
pub open spec fn ordinal_taken(s: Seq<char>, j: nat) -> bool {
    exists|i: int| 0 <= i < s.len() && s[i] == '?' && #[trigger] ordinal(s, i) == j
}

/// Numbered rendering keeps source order: the marker at position `i` of `s`
/// becomes `$j`, where `j` is its ordinal, one more than the count of markers
/// before it;
/// the text before it is rendered on its own, and the markers after it are
/// numbered from `j + 1` on.
pub proof fn lemma_numbered_order(s: Seq<char>, i: int)
    requires
        0 <= i < s.len(),
        s[i] == '?',
    ensures
        render_numbered(s) == render_numbered(s.take(i)) + seq!['$'] + decimal(ordinal(s, i))
            + render_from(s.skip(i + 1), ordinal(s, i)),
{
    let pre = s.take(i);
    let one = seq![s[i]];
    let post = s.skip(i + 1);
    assert(s =~= pre + one + post);
    lemma_render_concat(pre + one, post, 0);
    lemma_render_concat(pre, one, 0);
    lemma_markers_concat(pre, one);
    assert(one.drop_last() =~= Seq::<char>::empty());
    assert(one.last() == '?');
    reveal_with_fuel(render_from, 2);
    reveal_with_fuel(count_markers, 2);
    assert(render_from(one, count_markers(pre)) =~= seq!['$'] + decimal(count_markers(pre) + 1));
    assert(count_markers(one) == 1);
}

/// Each marker of `s` takes an ordinal between 1 and the count of markers,
/// and each ordinal in that range is taken by a marker.
pub proof fn lemma_ordinals_cover(s: Seq<char>)
    ensures
        forall|i: int|
            0 <= i < s.len() && s[i] == '?' ==> 1 <= #[trigger] ordinal(s, i) <= count_markers(s),
        forall|j: nat| 1 <= j <= count_markers(s) ==> #[trigger] ordinal_taken(s, j),
    decreases s.len(),
{
    if s.len() > 0 {
        let d = s.drop_last();
        lemma_ordinals_cover(d);
        assert forall|i: int| 0 <= i < s.len() && s[i] == '?' implies #[trigger] ordinal(s, i)
            <= count_markers(s) by {
            if i < d.len() {
                assert(s.take(i) =~= d.take(i));
                assert(d[i] == '?');
                assert(ordinal(d, i) <= count_markers(d));
            } else {
                assert(s.take(i) =~= d);
            }
        }
        assert forall|j: nat| 1 <= j <= count_markers(s) implies #[trigger] ordinal_taken(s, j) by {
            if j <= count_markers(d) {
                assert(ordinal_taken(d, j));
                let i = choose|i: int| 0 <= i < d.len() && d[i] == '?' && #[trigger] ordinal(d, i) == j;
                assert(s.take(i) =~= d.take(i));
                assert(ordinal(s, i) == j);
            } else {
                let i = d.len() as int;
                assert(s.take(i) =~= d);
                assert(ordinal(s, i) == j);
            }
        }
    }
}

proof fn lemma_count_char_concat(a: Seq<char>, b: Seq<char>, c: char)
    ensures
        count_char(a + b, c) == count_char(a, c) + count_char(b, c),
    decreases b.len(),
{
    if b.len() > 0 {
        assert((a + b).drop_last() =~= a + b.drop_last());
        lemma_count_char_concat(a, b.drop_last(), c);
    }
}

proof fn lemma_decimal_counts(n: nat)
    ensures
        count_char(decimal(n), '?') == 0,
        count_char(decimal(n), '$') == 0,
    decreases n,
{
    reveal_with_fuel(count_char, 2);
    if n < 10 {
        assert(seq![digit_char(n)].drop_last() =~= Seq::<char>::empty());
    } else {
        lemma_decimal_counts(n / 10);
        lemma_count_char_concat(decimal(n / 10), seq![digit_char(n % 10)], '?');
        lemma_count_char_concat(decimal(n / 10), seq![digit_char(n % 10)], '$');
        assert(seq![digit_char(n % 10)].drop_last() =~= Seq::<char>::empty());
        assert(decimal(n / 10).push(digit_char(n % 10)) =~= decimal(n / 10) + seq![
            digit_char(n % 10),
        ]);
    }
}

/// The numbered rendering leaves no `?` behind, and writes one `$` for each
/// marker besides those the text already holds.
pub proof fn lemma_render_counts(s: Seq<char>, k: nat)
    ensures
        count_char(render_from(s, k), '?') == 0,
        count_char(render_from(s, k), '$') == count_char(s, '$') + count_markers(s),
    decreases s.len(),
{
    if s.len() > 0 {
        let d = s.drop_last();
        let c = s.last();
        let piece = numbered_piece(c, k + count_markers(d) + 1);
        lemma_render_counts(d, k);
        lemma_count_char_concat(render_from(d, k), piece, '?');
        lemma_count_char_concat(render_from(d, k), piece, '$');
        reveal_with_fuel(count_char, 2);
        if c == '?' {
            lemma_decimal_counts(k + count_markers(d) + 1);
            lemma_count_char_concat(seq!['$'], decimal(k + count_markers(d) + 1), '?');
            lemma_count_char_concat(seq!['$'], decimal(k + count_markers(d) + 1), '$');
            assert(seq!['$'].drop_last() =~= Seq::<char>::empty());
        } else {
            assert(seq![c].drop_last() =~= Seq::<char>::empty());
        }
    }
}

} // verus!
