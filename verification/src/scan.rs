//! Verified text scanning: splitting text into lines, finding a substring,
//! and taking the last whitespace-delimited token of a line.
//!
//! These are the primitives behind the WebView runtime probe, which scans the
//! human-readable output of a registry query tool.

use vstd::prelude::*;
use vstd::string::*;

verus! {

/// Whitespace as the tokenizer understands it: the characters with the
/// Unicode `White_Space` property, the set that splitting on whitespace
/// goes by.
pub open spec fn is_ws(c: char) -> bool {
    ||| c == '\u{09}'
    ||| c == '\u{0A}'
    ||| c == '\u{0B}'
    ||| c == '\u{0C}'
    ||| c == '\u{0D}'
    ||| c == ' '
    ||| c == '\u{85}'
    ||| c == '\u{A0}'
    ||| c == '\u{1680}'
    ||| c == '\u{2000}'
    ||| c == '\u{2001}'
    ||| c == '\u{2002}'
    ||| c == '\u{2003}'
    ||| c == '\u{2004}'
    ||| c == '\u{2005}'
    ||| c == '\u{2006}'
    ||| c == '\u{2007}'
    ||| c == '\u{2008}'
    ||| c == '\u{2009}'
    ||| c == '\u{200A}'
    ||| c == '\u{2028}'
    ||| c == '\u{2029}'
    ||| c == '\u{202F}'
    ||| c == '\u{205F}'
    ||| c == '\u{3000}'
}

/// Index of the first newline in `s`, or `s.len()` if there is none.
pub open spec fn first_newline(s: Seq<char>) -> nat
    decreases s.len(),
{
    if s.len() == 0 {
        0
    } else if s[0] == '\n' {
        0
    } else {
        1 + first_newline(s.skip(1))
    }
}

/// A position with no newline before it and a newline at it (or the end,
/// when there is none) is `first_newline`.
pub proof fn lemma_first_newline_is(s: Seq<char>, i: int)
    requires
        0 <= i <= s.len(),
        forall|k: int| 0 <= k < i ==> s[k] != '\n',
        i < s.len() ==> s[i] == '\n',
    ensures
        first_newline(s) == i,
    decreases s.len(),
{
    if s.len() == 0 {
    } else if s[0] == '\n' {
        assert(i == 0);
    } else {
        assert(i >= 1);
        lemma_first_newline_is(s.skip(1), i - 1);
    }
}

/// A raw line with a trailing carriage return removed.
pub open spec fn strip_cr(l: Seq<char>) -> Seq<char> {
    if l.len() > 0 && l.last() == '\r' {
        l.drop_last()
    } else {
        l
    }
}

/// The lines of `s`, the way `str::lines` cuts text: the text is cut at
/// each newline, a carriage return standing right before a newline is
/// removed with it, a final piece without a newline is kept whole, and a
/// trailing newline leaves no empty final piece.
pub open spec fn spec_lines(s: Seq<char>) -> Seq<Seq<char>>
    decreases s.len(),
{
    if s.len() == 0 {
        seq![]
    } else {
        let i = first_newline(s) as int;
        if i >= s.len() {
            seq![s]
        } else {
            seq![strip_cr(s.take(i))] + spec_lines(s.skip(i + 1))
        }
    }
}

/// Cutting text whose head up to a newline at `i` is known peels off exactly
/// that head as the first line.
proof fn lemma_spec_lines_step(s: Seq<char>, i: int)
    requires
        0 <= i < s.len(),
        forall|k: int| 0 <= k < i ==> s[k] != '\n',
        s[i] == '\n',
    ensures
        spec_lines(s) == seq![strip_cr(s.take(i))] + spec_lines(s.skip(i + 1)),
{
    lemma_first_newline_is(s, i);
}

/// Text without any newline is one whole line (or none, when empty).
proof fn lemma_spec_lines_last(s: Seq<char>)
    requires
        forall|k: int| 0 <= k < s.len() ==> s[k] != '\n',
    ensures
        s.len() == 0 ==> spec_lines(s) == Seq::<Seq<char>>::empty(),
        s.len() > 0 ==> spec_lines(s) == seq![s],
{
    if s.len() > 0 {
        lemma_first_newline_is(s, s.len() as int);
    }
}

/// Whether `c` is tokenizer whitespace.
pub fn char_is_ws(c: char) -> (b: bool)
    ensures
        b == is_ws(c),
{
    match c {
        '\u{09}' | '\u{0A}' | '\u{0B}' | '\u{0C}' | '\u{0D}' | ' ' | '\u{85}' | '\u{A0}'
            | '\u{1680}' | '\u{2000}' | '\u{2001}' | '\u{2002}' | '\u{2003}' | '\u{2004}'
            | '\u{2005}' | '\u{2006}' | '\u{2007}' | '\u{2008}' | '\u{2009}' | '\u{200A}'
            | '\u{2028}' | '\u{2029}' | '\u{202F}' | '\u{205F}' | '\u{3000}' => true,
        _ => false,
    }
}

/// A piece cut at a newline, owned, with a carriage return that stood
/// right before the newline removed.
fn owned_line(piece: &str) -> (r: String)
    ensures
        r@ == strip_cr(piece@),
{
    let m = piece.unicode_len();
    if m > 0 && piece.get_char(m - 1) == '\r' {
        proof {
            assert(piece@.take(m - 1) =~= piece@.drop_last());
        }
        String::from_str(piece.substring_char(0, m - 1))
    } else {
        String::from_str(piece)
    }
}

/// The views of a sequence of owned strings.
pub open spec fn str_views(outs: Seq<String>) -> Seq<Seq<char>> {
    outs.map_values(|s: String| s@)
}

/// Splits `s` into its lines, as `spec_lines` describes them.
pub fn split_lines(s: &str) -> (r: Vec<String>)
    ensures
        str_views(r@) == spec_lines(s@),
{
    let n = s.unicode_len();
    let mut r: Vec<String> = Vec::new();
    let mut start: usize = 0;
    let mut i: usize = 0;
    proof {
        assert(s@.skip(0) =~= s@);
        assert(str_views(r@) + spec_lines(s@) =~= spec_lines(s@));
    }
    while i < n
        invariant
            n == s@.len(),
            0 <= start <= i <= n,
            forall|k: int| start <= k < i ==> s@[k] != '\n',
            spec_lines(s@) == str_views(r@) + spec_lines(s@.skip(start as int)),
        decreases n - i,
    {
        if s.get_char(i) == '\n' {
            let piece = s.substring_char(start, i);
            let line = owned_line(piece);
            proof {
                let sv = s@;
                let rest = sv.skip(start as int);
                assert(rest.len() == n - start);
                assert forall|k: int| 0 <= k < i - start implies rest[k] != '\n' by {
                    assert(rest[k] == sv[start + k]);
                }
                assert(rest[i - start] == sv[i as int]);
                lemma_spec_lines_step(rest, i - start);
                assert(rest.take(i - start) =~= sv.subrange(start as int, i as int));
                assert(rest.skip(i - start + 1) =~= sv.skip(i + 1));
                assert(str_views(r@.push(line)) =~= str_views(r@) + seq![line@]);
                assert(spec_lines(rest) == seq![line@] + spec_lines(sv.skip(i + 1)));
                assert(spec_lines(sv) =~= str_views(r@.push(line)) + spec_lines(
                    sv.skip(i + 1),
                ));
            }
            r.push(line);
            start = i + 1;
        }
        i += 1;
    }
    if start < n {
        let piece = s.substring_char(start, n);
        let line = String::from_str(piece);
        proof {
            let sv = s@;
            let rest = sv.skip(start as int);
            assert forall|k: int| 0 <= k < rest.len() implies rest[k] != '\n' by {
                assert(rest[k] == sv[start + k]);
            }
            lemma_spec_lines_last(rest);
            assert(rest =~= sv.subrange(start as int, n as int));
            assert(str_views(r@.push(line)) =~= str_views(r@) + seq![line@]);
            assert(spec_lines(sv) =~= str_views(r@.push(line)));
        }
        r.push(line);
    } else {
        proof {
            assert(s@.skip(start as int).len() == 0);
            assert(spec_lines(s@) =~= str_views(r@));
        }
    }
    r
}

/// Whether the two-character sequence `pv` occurs in `l`.
pub open spec fn contains_pv(l: Seq<char>) -> bool {
    exists|i: int| 0 <= i && i + 2 <= l.len() && #[trigger] l[i] == 'p' && l[i + 1] == 'v'
}

/// Whether `l` contains the substring `pv`, the registry value name that the
/// WebView runtime probe looks for.
pub fn line_contains_pv(l: &str) -> (b: bool)
    ensures
        b == contains_pv(l@),
{
    let n = l.unicode_len();
    if n < 2 {
        return false;
    }
    let mut i: usize = 0;
    while i + 1 < n
        invariant
            n == l@.len(),
            0 <= i <= n - 1,
            forall|k: int| 0 <= k < i ==> !(#[trigger] l@[k] == 'p' && l@[k + 1] == 'v'),
        decreases n - i,
    {
        if l.get_char(i) == 'p' && l.get_char(i + 1) == 'v' {
            return true;
        }
        i += 1;
    }
    false
}

/// The first of the lines `ls` that contains `pv`, if any.
pub open spec fn first_pv_line(ls: Seq<Seq<char>>) -> Option<Seq<char>>
    decreases ls.len(),
{
    if ls.len() == 0 {
        None
    } else if contains_pv(ls[0]) {
        Some(ls[0])
    } else {
        first_pv_line(ls.skip(1))
    }
}

/// Lines without `pv` contribute nothing: the search continues past them.
pub proof fn lemma_first_pv_line_prefix(ls: Seq<Seq<char>>, m: int)
    requires
        0 <= m <= ls.len(),
        forall|j: int| 0 <= j < m ==> !contains_pv(#[trigger] ls[j]),
    ensures
        first_pv_line(ls) == first_pv_line(ls.skip(m)),
    decreases m,
{
    if m > 0 {
        lemma_first_pv_line_prefix(ls.skip(1), m - 1);
        assert(ls.skip(1).skip(m - 1) =~= ls.skip(m));
        assert forall|j: int| 0 <= j < m - 1 implies !contains_pv(
            #[trigger] ls.skip(1)[j],
        ) by {
            assert(ls.skip(1)[j] == ls[j + 1]);
        }
        assert(first_pv_line(ls.skip(1)) == first_pv_line(ls.skip(1).skip(m - 1)));
    } else {
        assert(ls.skip(0) =~= ls);
    }
}

/// The longest run of non-whitespace characters at the end of `l`.
pub open spec fn nonws_suffix(l: Seq<char>) -> Seq<char>
    decreases l.len(),
{
    if l.len() == 0 || is_ws(l.last()) {
        seq![]
    } else {
        nonws_suffix(l.drop_last()).push(l.last())
    }
}

/// The last whitespace-delimited token of `l`, if any: what splitting on
/// whitespace and taking the last piece yields.
pub open spec fn spec_last_token(l: Seq<char>) -> Option<Seq<char>>
    decreases l.len(),
{
    if l.len() == 0 {
        None
    } else if is_ws(l.last()) {
        spec_last_token(l.drop_last())
    } else {
        Some(nonws_suffix(l))
    }
}

/// Trailing whitespace does not change the last token.
proof fn lemma_last_token_ws_suffix(l: Seq<char>, m: int)
    requires
        0 <= m <= l.len(),
        forall|k: int| m <= k < l.len() ==> is_ws(l[k]),
    ensures
        spec_last_token(l) == spec_last_token(l.take(m)),
    decreases l.len() - m,
{
    if m == l.len() {
        assert(l.take(m) =~= l);
    } else {
        assert(is_ws(l.last()));
        assert(l.drop_last() =~= l.take(l.len() - 1));
        lemma_last_token_ws_suffix(l.take(l.len() - 1), m);
        assert(l.take(l.len() - 1).take(m) =~= l.take(m));
    }
}

/// A run of non-whitespace characters that reaches the end of `l` and is
/// preceded by whitespace (or the start) is the non-whitespace suffix.
proof fn lemma_nonws_suffix_is(l: Seq<char>, i: int)
    requires
        0 <= i <= l.len(),
        forall|k: int| i <= k < l.len() ==> !is_ws(l[k]),
        i > 0 ==> is_ws(l[i - 1]),
    ensures
        nonws_suffix(l) == l.subrange(i, l.len() as int),
    decreases l.len(),
{
    if i == l.len() {
        if l.len() == 0 || is_ws(l.last()) {
            assert(nonws_suffix(l) =~= l.subrange(i, l.len() as int));
        } else {
            assert(i > 0 && !is_ws(l[i - 1]));
        }
    } else {
        assert(!is_ws(l.last()));
        lemma_nonws_suffix_is(l.drop_last(), i);
        assert(l.drop_last() =~= l.take(l.len() - 1));
        assert(l.drop_last().subrange(i, l.len() - 1) =~= l.subrange(i, l.len() - 1));
        assert(nonws_suffix(l) =~= l.subrange(i, l.len() as int));
    }
}

/// A line that contains `pv` always has a last token: `p` and `v` are not
/// whitespace, so the line is not all whitespace.
pub proof fn lemma_pv_line_has_token(l: Seq<char>)
    requires
        contains_pv(l),
    ensures
        spec_last_token(l) is Some,
    decreases l.len(),
{
    let i = choose|i: int|
        0 <= i && i + 2 <= l.len() && #[trigger] l[i] == 'p' && l[i + 1] == 'v';
    if is_ws(l.last()) {
        assert(i + 1 < l.len() - 1);
        assert(l.drop_last()[i] == 'p' && l.drop_last()[i + 1] == 'v');
        assert(contains_pv(l.drop_last()));
        lemma_pv_line_has_token(l.drop_last());
    }
}

/// What `first_pv_line` finds does contain `pv`.
pub proof fn lemma_first_pv_line_contains_pv(ls: Seq<Seq<char>>)
    requires
        first_pv_line(ls) is Some,
    ensures
        contains_pv(first_pv_line(ls)->0),
    decreases ls.len(),
{
    if ls.len() > 0 && !contains_pv(ls[0]) {
        lemma_first_pv_line_contains_pv(ls.skip(1));
    }
}

/// Index just past the last non-whitespace character of `l`, or 0 when `l`
/// is empty or all whitespace.
fn last_nonws_end(l: &str) -> (j: usize)
    ensures
        j <= l@.len(),
        forall|k: int| j <= k < l@.len() ==> is_ws(l@[k]),
        j > 0 ==> !is_ws(l@[j - 1]),
{
    let n = l.unicode_len();
    let mut j: usize = n;
    while j > 0
        invariant
            n == l@.len(),
            j <= n,
            forall|k: int| j <= k < n ==> is_ws(l@[k]),
        decreases j,
    {
        if !char_is_ws(l.get_char(j - 1)) {
            return j;
        }
        j -= 1;
    }
    0
}

/// Start of the run of non-whitespace characters that ends just before `j`.
fn token_start(l: &str, j: usize) -> (i: usize)
    requires
        0 < j <= l@.len(),
        !is_ws(l@[j - 1]),
    ensures
        i < j,
        forall|k: int| i <= k < j ==> !is_ws(l@[k]),
        i > 0 ==> is_ws(l@[i - 1]),
{
    let mut i: usize = j - 1;
    while i > 0
        invariant
            i < j <= l@.len(),
            forall|k: int| i <= k < j ==> !is_ws(l@[k]),
        decreases i,
    {
        if char_is_ws(l.get_char(i - 1)) {
            return i;
        }
        i -= 1;
    }
    0
}

/// The last whitespace-delimited token of `l`, owned; `None` when `l` is
/// empty or all whitespace.
pub fn last_token(l: &str) -> (r: Option<String>)
    ensures
        r is Some <==> spec_last_token(l@) is Some,
        r is Some ==> r->0@ == spec_last_token(l@)->0,
{
    let j = last_nonws_end(l);
    if j == 0 {
        proof {
            lemma_last_token_ws_suffix(l@, 0);
            assert(l@.take(0).len() == 0);
        }
        return None;
    }
    let i = token_start(l, j);
    let tok = String::from_str(l.substring_char(i, j));
    proof {
        lemma_last_token_ws_suffix(l@, j as int);
        let lj = l@.take(j as int);
        assert(lj.len() == j);
        assert forall|k: int| i <= k < lj.len() implies !is_ws(lj[k]) by {
            assert(lj[k] == l@[k]);
        }
        if i > 0 {
            assert(lj[i - 1] == l@[i - 1]);
        }
        assert(!is_ws(lj.last()));
        lemma_nonws_suffix_is(lj, i as int);
        assert(lj.subrange(i as int, j as int) =~= l@.subrange(i as int, j as int));
    }
    Some(tok)
}

} // verus!
