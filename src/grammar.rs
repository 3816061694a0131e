//! The shape of a feed title line:
//! `<type> <number> (<version>) - <title>`, where each of the two separators
//! around the number is an ordinary or a non-breaking space. The number token
//! may be missing or malformed; reading it is left to the caller, so that a bad
//! number costs only that field.
//!
//! The line is searched for the leftmost position at which this shape starts
//! and runs to the end of the text.
use vstd::prelude::*;

verus! {

/// A character that may appear in the bill-type token: an ASCII letter, a period or a space.
pub open spec fn is_type_char(c: char) -> bool {
    ('a' <= c && c <= 'z') || ('A' <= c && c <= 'Z') || c == '.' || c == ' '
}

/// A separator between the type, the number and the version: a space or a non-breaking space.
pub open spec fn is_sep(c: char) -> bool {
    c == ' ' || c == '\u{a0}'
}

/// An ASCII decimal digit.
pub open spec fn is_digit(c: char) -> bool {
    '0' <= c && c <= '9'
}

/// An ASCII word character: an ASCII letter, an ASCII digit or an underscore.
pub open spec fn is_ascii_word(c: char) -> bool {
    ('a' <= c && c <= 'z') || ('A' <= c && c <= 'Z') || is_digit(c) || c == '_'
}

/// Whether `c` is in the Unicode word class of regular expressions (`\w`):
/// the `Alphabetic` and `Join_Control` properties and the `Decimal_Number`,
/// `Mark` and `Connector_Punctuation` categories.
pub uninterp spec fn unicode_word(c: char) -> bool;

/// A character of the version code: a Unicode word character. Among ASCII
/// characters these are exactly the ASCII word characters.
pub open spec fn is_word_char(c: char) -> bool {
    if (c as u32) < 128 {
        is_ascii_word(c)
    } else {
        unicode_word(c)
    }
}

/// A character of the number token: anything but a separator or `(`.
pub open spec fn is_token_char(c: char) -> bool {
    !is_sep(c) && c != '('
}

/// `s` has the line shape starting at `st`: the type token in `[st, a)`, a
/// separator at `a`, the number token in `(a, b)`, a separator at `b`, the
/// version in `[b + 2, c)`, the marker `") - "` at `c` and the title after it.
///
/// The number token may be missing. Then either one separator stands between
/// the type and the version (`b == a`), or two do with nothing between them
/// (`b == a + 1`), the first a non-breaking space; after an ordinary space the
/// space is read as the end of the type token. A number token that is there
/// holds some character that cannot belong to the type token, which is what
/// tells the two apart.
pub open spec fn splits_at(s: Seq<char>, st: int, a: int, b: int, c: int) -> bool {
    &&& 0 <= st < a
    &&& a <= b
    &&& b + 2 < c
    &&& c + 4 <= s.len()
    &&& forall|i: int| st <= i < a ==> is_type_char(#[trigger] s[i])
    &&& is_sep(s[a])
    &&& forall|i: int| a < i < b ==> is_token_char(#[trigger] s[i])
    &&& (a + 1 < b ==> exists|j: int| a < j < b && !is_type_char(#[trigger] s[j]))
    &&& (b == a + 1 ==> s[a] == '\u{a0}')
    &&& is_sep(s[b])
    &&& s[b + 1] == '('
    &&& forall|i: int| b + 2 <= i < c ==> is_word_char(#[trigger] s[i])
    &&& s[c] == ')'
    &&& s[c + 1] == ' '
    &&& s[c + 2] == '-'
    &&& s[c + 3] == ' '
    &&& forall|i: int| c + 4 <= i < s.len() ==> #[trigger] s[i] != '\n'
}

/// The line shape starts at `st`.
pub open spec fn matches_at(s: Seq<char>, st: int) -> bool {
    exists|a: int, b: int, c: int| splits_at(s, st, a, b, c)
}

/// The line shape starts somewhere in `s`.
pub open spec fn line_matches(s: Seq<char>) -> bool {
    exists|st: int| matches_at(s, st)
}

/// The split that starts at the leftmost position where the shape starts.
pub open spec fn is_leftmost_split(s: Seq<char>, st: int, a: int, b: int, c: int) -> bool {
    &&& splits_at(s, st, a, b, c)
    &&& forall|j: int| 0 <= j < st ==> !matches_at(s, j)
}

/// Where the first separator of a split stands, relative to `p`, the first
/// character from `st` on that cannot belong to a type token.
proof fn lemma_first_separator(s: Seq<char>, st: int, a: int, b: int, c: int, p: int)
    requires
        splits_at(s, st, a, b, c),
        st <= p,
        forall|i: int| st <= i < p ==> is_type_char(#[trigger] s[i]),
        p < s.len() ==> !is_type_char(s[p]),
    ensures
        p < s.len(),
        (s[a] == '\u{a0}' && a == p) || (s[a] == ' ' && a < p && forall|i: int|
            a < i < p ==> #[trigger] s[i] != ' '),
        s[a + 1] == '(' ==> b == a,
        s[a + 1] != '(' ==> p < b,
{
    if p >= s.len() || b + 1 < p {
        assert(is_type_char(s[b + 1]));
    }
    if a > p {
        assert(is_type_char(s[p]));
    }
    if a + 1 < b {
        let j = choose|j: int| a < j < b && !is_type_char(#[trigger] s[j]);
        if j < p {
            assert(is_type_char(s[j]));
        }
        if s[a + 1] == '(' {
            assert(is_token_char(s[a + 1]));
        }
    }
    if s[a] == ' ' {
        assert forall|i: int| a < i < p implies #[trigger] s[i] != ' ' by {
            if a + 1 < b {
                let j = choose|j: int| a < j < b && !is_type_char(#[trigger] s[j]);
                assert(is_type_char(s[j]) || p <= j);
                assert(is_token_char(s[i]));
            } else {
                assert(is_type_char(s[a + 1]) || p <= a + 1);
            }
        }
    }
}

/// At a given start, the shape fixes every boundary.
pub proof fn lemma_split_unique(
    s: Seq<char>,
    st: int,
    a: int,
    b: int,
    c: int,
    a2: int,
    b2: int,
    c2: int,
)
    requires
        splits_at(s, st, a, b, c),
        splits_at(s, st, a2, b2, c2),
    ensures
        a == a2 && b == b2 && c == c2,
{
    lemma_first_separator_order(s, st, a, b, c, a2, b2, c2);
    lemma_first_separator_order(s, st, a2, b2, c2, a, b, c);
    if b < b2 {
        if a < b {
            assert(is_token_char(s[b]));
        } else if a + 1 < b2 {
            assert(is_token_char(s[a + 1]));
        }
    } else if b2 < b {
        if a2 < b2 {
            assert(is_token_char(s[b2]));
        } else if a2 + 1 < b {
            assert(is_token_char(s[a2 + 1]));
        }
    }
    if c < c2 {
        assert(is_word_char(s[c]));
    } else if c2 < c {
        assert(is_word_char(s[c2]));
    }
}

proof fn lemma_first_separator_order(
    s: Seq<char>,
    st: int,
    a: int,
    b: int,
    c: int,
    a2: int,
    b2: int,
    c2: int,
)
    requires
        splits_at(s, st, a, b, c),
        splits_at(s, st, a2, b2, c2),
    ensures
        !(a < a2),
{
    if a < a2 {
        assert(is_type_char(s[a]));
        if a == b {
            if a + 1 < a2 {
                assert(is_type_char(s[a + 1]));
            }
        } else if b == a + 1 {
            assert(s[a] == '\u{a0}');
        } else {
            let j = choose|j: int| a < j < b && !is_type_char(#[trigger] s[j]);
            if j < a2 {
                assert(is_type_char(s[j]));
            } else {
                assert(is_token_char(s[a2]));
            }
        }
    }
}

/// The leftmost split is unique.
pub proof fn lemma_leftmost_unique(
    s: Seq<char>,
    st: int,
    a: int,
    b: int,
    c: int,
    st2: int,
    a2: int,
    b2: int,
    c2: int,
)
    requires
        is_leftmost_split(s, st, a, b, c),
        is_leftmost_split(s, st2, a2, b2, c2),
    ensures
        st == st2 && a == a2 && b == b2 && c == c2,
{
    if st < st2 {
        assert(matches_at(s, st));
    } else if st2 < st {
        assert(matches_at(s, st2));
    }
    lemma_split_unique(s, st, a, b, c, a2, b2, c2);
}

fn exec_is_type_char(c: char) -> (r: bool)
    ensures
        r == is_type_char(c),
{
    ('a' <= c && c <= 'z') || ('A' <= c && c <= 'Z') || c == '.' || c == ' '
}

fn exec_is_sep(c: char) -> (r: bool)
    ensures
        r == is_sep(c),
{
    c == ' ' || c == '\u{a0}'
}

/// Relies on `regex_syntax::is_word_character`, the table behind `\w` in
/// regular expressions: whether `c` is a Unicode word character. Its source
/// answers ASCII characters by `[_0-9a-zA-Z]`; with the `unicode-perl`
/// feature, on by default, it does not panic.
#[verifier::external_body]
fn word_character(c: char) -> (r: bool)
    ensures
        r == unicode_word(c),
        (c as u32) < 128 ==> (r == is_ascii_word(c)),
{
    regex_syntax::is_word_character(c)
}

fn exec_is_word_char(c: char) -> (r: bool)
    ensures
        r == is_word_char(c),
{
    if (c as u32) < 128 {
        ('a' <= c && c <= 'z') || ('A' <= c && c <= 'Z') || ('0' <= c && c <= '9') || c == '_'
    } else {
        word_character(c)
    }
}

/// Finds the boundaries of the line shape when it starts at `st`.
pub fn split_from(s: &Vec<char>, st: usize) -> (r: Option<(usize, usize, usize)>)
    requires
        st < s@.len(),
    ensures
        match r {
            Some((a, b, c)) => splits_at(s@, st as int, a as int, b as int, c as int),
            None => !matches_at(s@, st as int),
        },
{
    let n = s.len();
    let mut p: usize = st;
    while p < n && exec_is_type_char(s[p])
        invariant
            st <= p <= n,
            n == s@.len(),
            forall|i: int| st <= i < p ==> is_type_char(#[trigger] s@[i]),
        decreases n - p,
    {
        p = p + 1;
    }
    if p >= n {
        assert forall|a2: int, b2: int, c2: int| !splits_at(s@, st as int, a2, b2, c2) by {
            if splits_at(s@, st as int, a2, b2, c2) {
                lemma_first_separator(s@, st as int, a2, b2, c2, p as int);
            }
        }
        return None;
    }
    // The first separator is the non-breaking space at `p`, or else the last
    // ordinary space before `p`.
    let a: usize;
    if s[p] == '\u{a0}' {
        if p == st {
            assert forall|a2: int, b2: int, c2: int| !splits_at(s@, st as int, a2, b2, c2) by {
                if splits_at(s@, st as int, a2, b2, c2) {
                    lemma_first_separator(s@, st as int, a2, b2, c2, p as int);
                }
            }
            return None;
        }
        a = p;
    } else {
        let mut k: usize = p;
        while k > st + 1 && s[k - 1] != ' '
            invariant
                st <= k <= p < n,
                n == s@.len(),
                forall|i: int| k <= i < p ==> #[trigger] s@[i] != ' ',
            decreases k,
        {
            k = k - 1;
        }
        if k <= st + 1 {
            assert forall|a2: int, b2: int, c2: int| !splits_at(s@, st as int, a2, b2, c2) by {
                if splits_at(s@, st as int, a2, b2, c2) {
                    lemma_first_separator(s@, st as int, a2, b2, c2, p as int);
                    if a2 < p {
                        assert(s@[a2] != ' ');
                    }
                }
            }
            return None;
        }
        a = k - 1;
    }
    assert forall|a2: int, b2: int, c2: int| splits_at(s@, st as int, a2, b2, c2) implies a2
        == a by {
        lemma_first_separator(s@, st as int, a2, b2, c2, p as int);
        if a2 < a {
            assert(s@[a as int] != ' ');
        } else if a < a2 && a2 < p {
            assert(s@[a2] != ' ');
        }
    }
    if n - a <= 2 {
        assert forall|a2: int, b2: int, c2: int| !splits_at(s@, st as int, a2, b2, c2) by {}
        return None;
    }
    let b: usize;
    if s[a + 1] == '(' {
        b = a;
        assert forall|a2: int, b2: int, c2: int| splits_at(s@, st as int, a2, b2, c2) implies b2
            == b by {
            if a < b2 {
                if a + 1 < b2 {
                    assert(is_token_char(s@[a + 1]));
                }
            }
        }
    } else {
        let mut q: usize = a + 1;
        let mut seen: bool = false;
        while q < n && exec_is_sep(s[q]) == false && s[q] != '('
            invariant
                a + 1 <= q <= n,
                n == s@.len(),
                forall|i: int| a < i < q ==> is_token_char(#[trigger] s@[i]),
                seen <==> exists|j: int| a < j < q && !is_type_char(#[trigger] s@[j]),
            decreases n - q,
        {
            if !exec_is_type_char(s[q]) {
                seen = true;
            }
            assert(forall|j: int| a < j < q + 1 && !is_type_char(#[trigger] s@[j]) ==> (a < j < q
                && !is_type_char(s@[j])) || j == q);
            q = q + 1;
        }
        assert forall|a2: int, b2: int, c2: int| splits_at(s@, st as int, a2, b2, c2) implies b2
            == q by {
            if b2 == a {
                assert(s@[a + 1] == '(');
            } else if b2 < q {
                assert(is_token_char(s@[b2]));
            } else if q < b2 {
                assert(is_token_char(s@[q as int]));
            }
        }
        if q >= n || !exec_is_sep(s[q]) || n - q <= 2 || s[q + 1] != '(' || !(seen || (q == a
            + 1 && s[a] == '\u{a0}')) {
            assert forall|a2: int, b2: int, c2: int| !splits_at(s@, st as int, a2, b2, c2) by {}
            return None;
        }
        b = q;
    }
    let mut k: usize = b + 2;
    while k < n && exec_is_word_char(s[k])
        invariant
            b + 2 <= k <= n,
            n == s@.len(),
            forall|i: int| b + 2 <= i < k ==> is_word_char(#[trigger] s@[i]),
        decreases n - k,
    {
        k = k + 1;
    }
    if k == b + 2 || n - k < 4 || s[k] != ')' || s[k + 1] != ' ' || s[k + 2] != '-' || s[k + 3]
        != ' ' {
        assert forall|a2: int, b2: int, c2: int| !splits_at(s@, st as int, a2, b2, c2) by {
            if splits_at(s@, st as int, a2, b2, c2) {
                if c2 < k {
                    assert(is_word_char(s@[c2]));
                } else if k < c2 {
                    assert(is_word_char(s@[k as int]));
                }
            }
        }
        return None;
    }
    let c = k;
    let mut t: usize = c + 4;
    while t < n && s[t] != '\n'
        invariant
            c + 4 <= t <= n,
            n == s@.len(),
            forall|i: int| c + 4 <= i < t ==> #[trigger] s@[i] != '\n',
        decreases n - t,
    {
        t = t + 1;
    }
    if t < n {
        assert forall|a2: int, b2: int, c2: int| !splits_at(s@, st as int, a2, b2, c2) by {
            if splits_at(s@, st as int, a2, b2, c2) {
                if c2 < c {
                    assert(is_word_char(s@[c2]));
                } else if c < c2 {
                    assert(is_word_char(s@[c as int]));
                }
                assert(s@[t as int] != '\n');
            }
        }
        return None;
    }
    if a + 1 < b {
        assert(exists|j: int| a < j < b && !is_type_char(#[trigger] s@[j]));
    }
    Some((a, b, c))
}

/// Finds the leftmost split of the line shape in `s`, if the shape occurs.
pub fn find_split(s: &Vec<char>) -> (r: Option<(usize, usize, usize, usize)>)
    ensures
        match r {
            Some((st, a, b, c)) => is_leftmost_split(s@, st as int, a as int, b as int, c as int),
            None => !line_matches(s@),
        },
{
    let mut st: usize = 0;
    while st < s.len()
        invariant
            st <= s@.len(),
            forall|j: int| 0 <= j < st ==> !matches_at(s@, j),
        decreases s@.len() - st,
    {
        match split_from(s, st) {
            Some((a, b, c)) => {
                return Some((st, a, b, c));
            },
            None => {},
        }
        st = st + 1;
    }
    assert forall|j: int| !matches_at(s@, j) by {
        if 0 <= j < st {
        } else {
            assert forall|a2: int, b2: int, c2: int| !splits_at(s@, j, a2, b2, c2) by {}
        }
    }
    None
}

} // verus!
