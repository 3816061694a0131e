//! General facts about reading feed title lines.
use crate::bills::BillType;
use crate::feed::{
    entry_title,
    feed_item,
    is_decimal,
    lemma_feed_item_of_split,
    lemma_feed_item_unmatched,
    normalize,
    number_of,
    type_of_token,
    unmatched_item,
    BillItemView,
    FeedErrors,
};
use crate::grammar::{
    is_leftmost_split,
    is_sep,
    is_token_char,
    is_type_char,
    is_word_char,
    line_matches,
    matches_at,
    splits_at,
};
use vstd::prelude::*;

verus! {

/// The line `<t><sep1><n><sep2>(<v>) - <title>`.
pub open spec fn compose_line(
    t: Seq<char>,
    sep1: char,
    n: Seq<char>,
    sep2: char,
    v: Seq<char>,
    title: Seq<char>,
) -> Seq<char> {
    t + seq![sep1] + n + seq![sep2, '('] + v + seq![')', ' ', '-', ' '] + title
}

/// The parts of a line are each of the form the line shape asks for. The
/// number token need not be a number: it only has to be told apart from the type token.
pub open spec fn well_formed_parts(
    t: Seq<char>,
    sep1: char,
    n: Seq<char>,
    sep2: char,
    v: Seq<char>,
    title: Seq<char>,
) -> bool {
    &&& t.len() > 0
    &&& forall|i: int| 0 <= i < t.len() ==> is_type_char(#[trigger] t[i])
    &&& is_sep(sep1)
    &&& n.len() > 0
    &&& forall|i: int| 0 <= i < n.len() ==> is_token_char(#[trigger] n[i])
    &&& exists|i: int| 0 <= i < n.len() && !is_type_char(#[trigger] n[i])
    &&& is_sep(sep2)
    &&& v.len() > 0
    &&& forall|i: int| 0 <= i < v.len() ==> is_word_char(#[trigger] v[i])
    &&& forall|i: int| 0 <= i < title.len() ==> #[trigger] title[i] != '\n'
}

/// A line built from well-formed parts is read back into exactly those parts:
/// the type from the type token, the number from the digits, and the version
/// and the title verbatim.
pub proof fn lemma_well_formed_line(
    t: Seq<char>,
    sep1: char,
    n: Seq<char>,
    sep2: char,
    v: Seq<char>,
    title: Seq<char>,
)
    requires
        well_formed_parts(t, sep1, n, sep2, v, title),
    ensures
        feed_item(compose_line(t, sep1, n, sep2, v, title)) == (BillItemView {
            bill_type: type_of_token(t),
            bill_number: number_of(n),
            bill_version: v,
            title: title,
        }),
{
    let s = compose_line(t, sep1, n, sep2, v, title);
    let a = t.len() as int;
    let b = a + 1 + n.len();
    let c = b + 2 + v.len();
    assert(s.len() == c + 4 + title.len());
    assert forall|i: int| 0 <= i < a implies is_type_char(#[trigger] s[i]) by {
        assert(s[i] == t[i]);
    }
    assert(s[a] == sep1);
    assert forall|i: int| a < i < b implies is_token_char(#[trigger] s[i]) by {
        assert(s[i] == n[i - a - 1]);
    }
    let w = choose|i: int| 0 <= i < n.len() && !is_type_char(#[trigger] n[i]);
    assert(s[a + 1 + w] == n[w]);
    assert(!is_type_char(s[a + 1 + w]));
    assert(s[b] == sep2);
    assert(s[b + 1] == '(');
    assert forall|i: int| b + 2 <= i < c implies is_word_char(#[trigger] s[i]) by {
        assert(s[i] == v[i - b - 2]);
    }
    assert(s[c] == ')');
    assert(s[c + 1] == ' ');
    assert(s[c + 2] == '-');
    assert(s[c + 3] == ' ');
    assert forall|i: int| c + 4 <= i < s.len() implies #[trigger] s[i] != '\n' by {
        assert(s[i] == title[i - c - 4]);
    }
    assert(splits_at(s, 0, a, b, c));
    assert(is_leftmost_split(s, 0, a, b, c));
    lemma_feed_item_of_split(s, 0, a, b, c);
    assert(s.subrange(0, a) =~= t);
    assert(s.subrange(a + 1, b) =~= n);
    assert(s.subrange(b + 2, c) =~= v);
    assert(s.subrange(c + 4, s.len() as int) =~= title);
}

/// Whether each separator is an ordinary or a non-breaking space does not
/// change what a well-formed line is read into.
pub proof fn lemma_separator_kind_irrelevant(
    t: Seq<char>,
    n: Seq<char>,
    v: Seq<char>,
    title: Seq<char>,
    sep1: char,
    sep2: char,
    other1: char,
    other2: char,
)
    requires
        well_formed_parts(t, sep1, n, sep2, v, title),
        is_sep(other1),
        is_sep(other2),
    ensures
        feed_item(compose_line(t, sep1, n, sep2, v, title)) == feed_item(
            compose_line(t, other1, n, other2, v, title),
        ),
{
    lemma_well_formed_line(t, sep1, n, sep2, v, title);
    lemma_well_formed_line(t, other1, n, other2, v, title);
}

/// A type token that does not normalize to a known code gives `MatchError`,
/// while the number, the version and the title are still read.
pub proof fn lemma_unknown_type_token(
    t: Seq<char>,
    sep1: char,
    n: Seq<char>,
    sep2: char,
    v: Seq<char>,
    title: Seq<char>,
)
    requires
        well_formed_parts(t, sep1, n, sep2, v, title),
        forall|bt: BillType| normalize(t) != bt.code(),
    ensures
        feed_item(compose_line(t, sep1, n, sep2, v, title)).bill_type == Err::<
            BillType,
            FeedErrors,
        >(FeedErrors::MatchError),
        feed_item(compose_line(t, sep1, n, sep2, v, title)).bill_number == number_of(n),
        feed_item(compose_line(t, sep1, n, sep2, v, title)).bill_version == v,
        feed_item(compose_line(t, sep1, n, sep2, v, title)).title == title,
{
    lemma_well_formed_line(t, sep1, n, sep2, v, title);
    assert(normalize(t) != BillType::HR.code());
    assert(normalize(t) != BillType::S.code());
    assert(normalize(t) != BillType::HRES.code());
    assert(normalize(t) != BillType::SRES.code());
    assert(normalize(t) != BillType::HJRES.code());
    assert(normalize(t) != BillType::SJRES.code());
    assert(normalize(t) != BillType::HCONRES.code());
    assert(normalize(t) != BillType::SCONRES.code());
}

/// A number too large for an `i32` gives `ParseError`, while the type, the
/// version and the title are still read.
pub proof fn lemma_number_too_large(
    t: Seq<char>,
    sep1: char,
    n: Seq<char>,
    sep2: char,
    v: Seq<char>,
    title: Seq<char>,
)
    requires
        well_formed_parts(t, sep1, n, sep2, v, title),
        is_decimal(n),
        crate::feed::digits_value(n) > i32::MAX,
    ensures
        feed_item(compose_line(t, sep1, n, sep2, v, title)).bill_number == Err::<i32, FeedErrors>(
            FeedErrors::ParseError,
        ),
        feed_item(compose_line(t, sep1, n, sep2, v, title)).bill_type == type_of_token(t),
        feed_item(compose_line(t, sep1, n, sep2, v, title)).bill_version == v,
        feed_item(compose_line(t, sep1, n, sep2, v, title)).title == title,
{
    lemma_well_formed_line(t, sep1, n, sep2, v, title);
}

/// A line without the expected shape anywhere gives a record whose type and
/// number both fail, with no version and the whole line as its title.
pub proof fn lemma_unmatched_line(s: Seq<char>)
    requires
        !line_matches(s),
    ensures
        feed_item(s) == unmatched_item(s),
        feed_item(s).bill_type == Err::<BillType, FeedErrors>(FeedErrors::MatchError),
        feed_item(s).bill_number == Err::<i32, FeedErrors>(FeedErrors::ParseError),
{
    lemma_feed_item_unmatched(s);
}

/// Neither the empty line nor a line without a version marker has the expected shape.
pub proof fn lemma_short_lines_unmatched(s: Seq<char>)
    requires
        forall|i: int| 0 <= i < s.len() ==> #[trigger] s[i] != '(',
    ensures
        !line_matches(s),
        feed_item(s) == unmatched_item(s),
{
    assert forall|st: int| !matches_at(s, st) by {
        assert forall|a: int, b: int, c: int| !splits_at(s, st, a, b, c) by {
            if splits_at(s, st, a, b, c) {
                assert(s[b + 1] == '(');
            }
        }
    }
    lemma_unmatched_line(s);
}

proof fn lemma_normalize_of_code(t: Seq<char>)
    requires
        forall|i: int| 0 <= i < t.len() ==> 'A' <= #[trigger] t[i] && t[i] <= 'Z',
    ensures
        normalize(t) == t,
    decreases t.len(),
{
    if t.len() > 0 {
        lemma_normalize_of_code(t.drop_last());
        assert(t.drop_last().push(t.last()) =~= t);
    }
}

/// Rendering a bill type and reading the rendered code back as a type token
/// gives the same bill type.
pub proof fn lemma_type_code_round_trip(bt: BillType)
    ensures
        normalize(bt.code()) == bt.code(),
        type_of_token(bt.code()) == Ok::<BillType, FeedErrors>(bt),
{
    lemma_normalize_of_code(bt.code());
    assert(BillType::HR.code().len() == 2 && BillType::HR.code()[0] == 'H');
    assert(BillType::S.code().len() == 1 && BillType::S.code()[0] == 'S');
    assert(BillType::HJRES.code().len() == 5 && BillType::HJRES.code()[0] == 'H');
    assert(BillType::SJRES.code().len() == 5 && BillType::SJRES.code()[0] == 'S');
    assert(BillType::HCONRES.code().len() == 7 && BillType::HCONRES.code()[0] == 'H');
    assert(BillType::SCONRES.code().len() == 7 && BillType::SCONRES.code()[0] == 'S');
    assert(BillType::HRES.code().len() == 4 && BillType::HRES.code()[0] == 'H');
    assert(BillType::SRES.code().len() == 4 && BillType::SRES.code()[0] == 'S');
}

/// Reading a line depends on its text alone: the same text read twice gives
/// the same record, field for field.
pub proof fn lemma_reading_is_deterministic(s1: Seq<char>, s2: Seq<char>)
    requires
        s1 == s2,
    ensures
        feed_item(s1) == feed_item(s2),
        feed_item(s1).bill_type == feed_item(s2).bill_type,
        feed_item(s1).bill_number == feed_item(s2).bill_number,
        feed_item(s1).bill_version == feed_item(s2).bill_version,
        feed_item(s1).title == feed_item(s2).title,
{
}

/// A number token that is not a run of ASCII digits (letters among digits,
/// digits of another script) gives `ParseError`, while the type, the version
/// and the title are still read.
pub proof fn lemma_number_token_not_decimal(
    t: Seq<char>,
    sep1: char,
    n: Seq<char>,
    sep2: char,
    v: Seq<char>,
    title: Seq<char>,
)
    requires
        well_formed_parts(t, sep1, n, sep2, v, title),
        !is_decimal(n),
    ensures
        feed_item(compose_line(t, sep1, n, sep2, v, title)) == (BillItemView {
            bill_type: type_of_token(t),
            bill_number: Err(FeedErrors::ParseError),
            bill_version: v,
            title: title,
        }),
{
    lemma_well_formed_line(t, sep1, n, sep2, v, title);
}

/// The type token, the version and the title are each of the form the line shape asks for.
pub open spec fn well_formed_frame(t: Seq<char>, v: Seq<char>, title: Seq<char>) -> bool {
    &&& t.len() > 0
    &&& forall|i: int| 0 <= i < t.len() ==> is_type_char(#[trigger] t[i])
    &&& v.len() > 0
    &&& forall|i: int| 0 <= i < v.len() ==> is_word_char(#[trigger] v[i])
    &&& forall|i: int| 0 <= i < title.len() ==> #[trigger] title[i] != '\n'
}

/// The line `<t><sep>(<v>) - <title>`, with no number token.
pub open spec fn compose_line_without_number(
    t: Seq<char>,
    sep: char,
    v: Seq<char>,
    title: Seq<char>,
) -> Seq<char> {
    t + seq![sep, '('] + v + seq![')', ' ', '-', ' '] + title
}

/// A line whose number is missing gives `ParseError`, while the type, the
/// version and the title are still read.
pub proof fn lemma_missing_number(t: Seq<char>, sep: char, v: Seq<char>, title: Seq<char>)
    requires
        well_formed_frame(t, v, title),
        is_sep(sep),
    ensures
        feed_item(compose_line_without_number(t, sep, v, title)) == (BillItemView {
            bill_type: type_of_token(t),
            bill_number: Err(FeedErrors::ParseError),
            bill_version: v,
            title: title,
        }),
{
    let s = compose_line_without_number(t, sep, v, title);
    let a = t.len() as int;
    let c = a + 2 + v.len();
    assert(s.len() == c + 4 + title.len());
    assert forall|i: int| 0 <= i < a implies is_type_char(#[trigger] s[i]) by {
        assert(s[i] == t[i]);
    }
    assert(s[a] == sep);
    assert(s[a + 1] == '(');
    assert forall|i: int| a + 2 <= i < c implies is_word_char(#[trigger] s[i]) by {
        assert(s[i] == v[i - a - 2]);
    }
    assert(s[c] == ')');
    assert(s[c + 1] == ' ');
    assert(s[c + 2] == '-');
    assert(s[c + 3] == ' ');
    assert forall|i: int| c + 4 <= i < s.len() implies #[trigger] s[i] != '\n' by {
        assert(s[i] == title[i - c - 4]);
    }
    assert(splits_at(s, 0, a, a, c));
    assert(is_leftmost_split(s, 0, a, a, c));
    lemma_feed_item_of_split(s, 0, a, a, c);
    assert(s.subrange(0, a) =~= t);
    assert(s.subrange(a + 2, c) =~= v);
    assert(s.subrange(c + 4, s.len() as int) =~= title);
}

/// The title used for an entry without one has no `&` and not the line shape,
/// so such an entry gives the record of failed fields and the feed goes on.
pub proof fn lemma_missing_title_record()
    ensures
        !entry_title(None).contains('&'),
        feed_item(entry_title(None)) == unmatched_item(entry_title(None)),
        feed_item(entry_title(None)).bill_number == Err::<i32, FeedErrors>(FeedErrors::ParseError),
{
    let s = entry_title(None);
    reveal_strlit("No title found for Bill.");
    assert(forall|i: int| 0 <= i < s.len() ==> #[trigger] s[i] != '(');
    assert(forall|i: int| 0 <= i < s.len() ==> #[trigger] s[i] != '&');
    lemma_short_lines_unmatched(s);
}

/// A line with two separators and no number between them gives `ParseError`,
/// while the type, the version and the title are still read, whichever kind
/// of space each separator is.
pub proof fn lemma_missing_number_between_separators(
    t: Seq<char>,
    sep1: char,
    sep2: char,
    v: Seq<char>,
    title: Seq<char>,
)
    requires
        well_formed_frame(t, v, title),
        is_sep(sep1),
        is_sep(sep2),
    ensures
        feed_item(compose_line(t, sep1, Seq::empty(), sep2, v, title)) == (BillItemView {
            bill_type: type_of_token(t),
            bill_number: Err(FeedErrors::ParseError),
            bill_version: v,
            title: title,
        }),
{
    let s = compose_line(t, sep1, Seq::empty(), sep2, v, title);
    let m = t.len() as int;
    let c = m + 3 + v.len();
    assert(s.len() == c + 4 + title.len());
    assert(s[m] == sep1);
    assert(s[m + 1] == sep2);
    assert(s[m + 2] == '(');
    assert forall|i: int| 0 <= i < m implies is_type_char(#[trigger] s[i]) by {
        assert(s[i] == t[i]);
    }
    assert forall|i: int| m + 3 <= i < c implies is_word_char(#[trigger] s[i]) by {
        assert(s[i] == v[i - m - 3]);
    }
    assert(s[c] == ')');
    assert(s[c + 1] == ' ');
    assert(s[c + 2] == '-');
    assert(s[c + 3] == ' ');
    assert forall|i: int| c + 4 <= i < s.len() implies #[trigger] s[i] != '\n' by {
        assert(s[i] == title[i - c - 4]);
    }
    assert(s.subrange(m + 3, c) =~= v);
    assert(s.subrange(c + 4, s.len() as int) =~= title);
    if sep1 == '\u{a0}' {
        assert(splits_at(s, 0, m, m + 1, c));
        assert(is_leftmost_split(s, 0, m, m + 1, c));
        lemma_feed_item_of_split(s, 0, m, m + 1, c);
        assert(s.subrange(0, m) =~= t);
    } else {
        assert(splits_at(s, 0, m + 1, m + 1, c));
        assert(is_leftmost_split(s, 0, m + 1, m + 1, c));
        lemma_feed_item_of_split(s, 0, m + 1, m + 1, c);
        assert(s.subrange(0, m + 1) =~= t.push(' '));
        assert(t.push(' ').drop_last() =~= t);
        assert(normalize(t.push(' ')) == normalize(t));
    }
}

/// Whether each of the two separators around a missing number is an ordinary
/// or a non-breaking space does not change what the line is read into.
pub proof fn lemma_separator_kind_irrelevant_without_number(
    t: Seq<char>,
    v: Seq<char>,
    title: Seq<char>,
    sep1: char,
    sep2: char,
    other1: char,
    other2: char,
)
    requires
        well_formed_frame(t, v, title),
        is_sep(sep1),
        is_sep(sep2),
        is_sep(other1),
        is_sep(other2),
    ensures
        feed_item(compose_line(t, sep1, Seq::empty(), sep2, v, title)) == feed_item(
            compose_line(t, other1, Seq::empty(), other2, v, title),
        ),
{
    lemma_missing_number_between_separators(t, sep1, sep2, v, title);
    lemma_missing_number_between_separators(t, other1, other2, v, title);
}

} // verus!
