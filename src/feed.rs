//! Turning feed entry titles into bill records.
//!
//! Each field of a record is derived on its own: a bill type that is not
//! recognised does not keep the number from being read, and the other way round.
use crate::bills::BillType;
use crate::grammar::{
    find_split,
    is_digit,
    is_leftmost_split,
    lemma_leftmost_unique,
    line_matches,
    matches_at,
};
use vstd::prelude::*;

verus! {

/// Why one field of a record could not be derived.
#[derive(Clone, Copy, Debug, PartialEq, Eq, Structural)]
pub enum FeedErrors {
    /// The bill number is not a valid `i32`, or the line has no number at all.
    ParseError,
    /// The bill-type token is not one of the known codes.
    MatchError,
}

impl FeedErrors {
    /// The message shown for the error.
    pub open spec fn message(self) -> Seq<char> {
        match self {
            FeedErrors::ParseError => "Error parsing Bill Number."@,
            FeedErrors::MatchError => "Error matching Bill Type."@,
        }
    }

    /// Renders the error as its message.
    pub fn to_string(&self) -> (r: String)
        ensures
            r@ == self.message(),
    {
        match self {
            FeedErrors::ParseError => String::from_str("Error parsing Bill Number."),
            FeedErrors::MatchError => String::from_str("Error matching Bill Type."),
        }
    }
}

/// One bill announcement, as read from the title of a feed entry.
#[derive(Debug)]
pub struct BillItem {
    pub bill_type: Result<BillType, FeedErrors>,
    pub bill_number: Result<i32, FeedErrors>,
    /// The version code, verbatim.
    pub bill_version: String,
    /// The rest of the line after the version marker, verbatim.
    pub title: String,
}

impl Clone for BillItem {
    fn clone(&self) -> (r: Self)
        ensures
            r@ == self@,
    {
        BillItem {
            bill_type: self.bill_type,
            bill_number: self.bill_number,
            bill_version: self.bill_version.clone(),
            title: self.title.clone(),
        }
    }
}

/// The bill records of one feed, in the feed's order.
#[derive(Debug)]
pub struct BillItems {
    pub bills: Vec<BillItem>,
}

impl Clone for BillItems {
    fn clone(&self) -> (r: Self)
        ensures
            r.bills@.len() == self.bills@.len(),
            forall|i: int| 0 <= i < r.bills@.len() ==> (#[trigger] r.bills@[i])@ == self.bills@[i]@,
    {
        let mut bills: Vec<BillItem> = Vec::new();
        let mut i: usize = 0;
        while i < self.bills.len()
            invariant
                i <= self.bills@.len(),
                bills@.len() == i,
                forall|j: int| 0 <= j < i ==> (#[trigger] bills@[j])@ == self.bills@[j]@,
            decreases self.bills@.len() - i,
        {
            bills.push(self.bills[i].clone());
            i = i + 1;
        }
        BillItems { bills }
    }
}

/// The mathematical content of a [`BillItem`].
pub struct BillItemView {
    pub bill_type: Result<BillType, FeedErrors>,
    pub bill_number: Result<i32, FeedErrors>,
    pub bill_version: Seq<char>,
    pub title: Seq<char>,
}

impl View for BillItem {
    type V = BillItemView;

    open spec fn view(&self) -> BillItemView {
        BillItemView {
            bill_type: self.bill_type,
            bill_number: self.bill_number,
            bill_version: self.bill_version@,
            title: self.title@,
        }
    }
}

/// The ASCII upper-case form of a character; other characters are kept.
pub open spec fn upper(c: char) -> char {
    if 'a' <= c && c <= 'z' {
        ((c as u32) - 32) as char
    } else {
        c
    }
}

/// The type token with its periods and spaces removed and its letters upper-cased.
pub open spec fn normalize(t: Seq<char>) -> Seq<char>
    decreases t.len(),
{
    if t.len() == 0 {
        Seq::empty()
    } else {
        let rest = normalize(t.drop_last());
        let c = t.last();
        if c == '.' || c == ' ' {
            rest
        } else {
            rest.push(upper(c))
        }
    }
}

/// The bill type whose canonical code is exactly `code`.
pub open spec fn type_of_code(code: Seq<char>) -> Result<BillType, FeedErrors> {
    if code == BillType::HR.code() {
        Ok(BillType::HR)
    } else if code == BillType::S.code() {
        Ok(BillType::S)
    } else if code == BillType::HRES.code() {
        Ok(BillType::HRES)
    } else if code == BillType::SRES.code() {
        Ok(BillType::SRES)
    } else if code == BillType::HJRES.code() {
        Ok(BillType::HJRES)
    } else if code == BillType::SJRES.code() {
        Ok(BillType::SJRES)
    } else if code == BillType::HCONRES.code() {
        Ok(BillType::HCONRES)
    } else if code == BillType::SCONRES.code() {
        Ok(BillType::SCONRES)
    } else {
        Err(FeedErrors::MatchError)
    }
}

/// The bill type that a raw type token such as `"H. Res."` names.
pub open spec fn type_of_token(t: Seq<char>) -> Result<BillType, FeedErrors> {
    type_of_code(normalize(t))
}

/// The value of a run of decimal digits.
pub open spec fn digits_value(d: Seq<char>) -> int
    decreases d.len(),
{
    if d.len() == 0 {
        0
    } else {
        10 * digits_value(d.drop_last()) + ((d.last() as u32) - ('0' as u32))
    }
}

/// A non-empty run of ASCII decimal digits.
pub open spec fn is_decimal(d: Seq<char>) -> bool {
    d.len() > 0 && forall|i: int| 0 <= i < d.len() ==> is_digit(#[trigger] d[i])
}

/// The bill number that a number token gives: its value when the token is a
/// run of ASCII digits whose value fits in an `i32`, and `ParseError` for any
/// other token, an empty one included.
pub open spec fn number_of(d: Seq<char>) -> Result<i32, FeedErrors> {
    if is_decimal(d) && digits_value(d) <= i32::MAX {
        Ok(digits_value(d) as i32)
    } else {
        Err(FeedErrors::ParseError)
    }
}

/// The record for a line that does not have the expected shape at all: both
/// derived fields fail, there is no version, and the whole line is kept as the title.
pub open spec fn unmatched_item(s: Seq<char>) -> BillItemView {
    BillItemView {
        bill_type: Err(FeedErrors::MatchError),
        bill_number: Err(FeedErrors::ParseError),
        bill_version: Seq::empty(),
        title: s,
    }
}

/// The number token between the separators at `a` and `b`; it is empty where
/// one separator serves both.
pub open spec fn number_token(s: Seq<char>, a: int, b: int) -> Seq<char> {
    if a < b {
        s.subrange(a + 1, b)
    } else {
        Seq::empty()
    }
}

/// The record for a line split at the given boundaries.
pub open spec fn item_from_split(s: Seq<char>, st: int, a: int, b: int, c: int) -> BillItemView {
    BillItemView {
        bill_type: type_of_token(s.subrange(st, a)),
        bill_number: number_of(number_token(s, a, b)),
        bill_version: s.subrange(b + 2, c),
        title: s.subrange(c + 4, s.len() as int),
    }
}

/// The record that a feed title line gives.
pub open spec fn feed_item(s: Seq<char>) -> BillItemView {
    if exists|st: int, a: int, b: int, c: int| is_leftmost_split(s, st, a, b, c) {
        let (st, a, b, c) = choose|st: int, a: int, b: int, c: int|
            is_leftmost_split(s, st, a, b, c);
        item_from_split(s, st, a, b, c)
    } else {
        unmatched_item(s)
    }
}

/// The record of a line is the one read from its leftmost split.
pub proof fn lemma_feed_item_of_split(s: Seq<char>, st: int, a: int, b: int, c: int)
    requires
        is_leftmost_split(s, st, a, b, c),
    ensures
        feed_item(s) == item_from_split(s, st, a, b, c),
{
    let (st2, a2, b2, c2) = choose|st2: int, a2: int, b2: int, c2: int|
        is_leftmost_split(s, st2, a2, b2, c2);
    lemma_leftmost_unique(s, st, a, b, c, st2, a2, b2, c2);
}

/// A line without the shape anywhere gives the record of failed fields.
pub proof fn lemma_feed_item_unmatched(s: Seq<char>)
    requires
        !line_matches(s),
    ensures
        feed_item(s) == unmatched_item(s),
{
    assert forall|st: int, a: int, b: int, c: int| !is_leftmost_split(s, st, a, b, c) by {
        if is_leftmost_split(s, st, a, b, c) {
            assert(matches_at(s, st));
        }
    }
}

fn upper_char(c: char) -> (r: char)
    ensures
        r == upper(c),
{
    if 'a' <= c && c <= 'z' {
        ((c as u8) - 32) as char
    } else {
        c
    }
}

/// Normalizes the type token held in `s[from..to]`.
fn normalize_range(s: &Vec<char>, from: usize, to: usize) -> (r: Vec<char>)
    requires
        from <= to <= s@.len(),
    ensures
        r@ == normalize(s@.subrange(from as int, to as int)),
{
    let mut r: Vec<char> = Vec::new();
    let mut i: usize = from;
    assert(s@.subrange(from as int, from as int) =~= Seq::<char>::empty());
    while i < to
        invariant
            from <= i <= to <= s@.len(),
            r@ == normalize(s@.subrange(from as int, i as int)),
        decreases to - i,
    {
        assert(s@.subrange(from as int, i + 1).drop_last() =~= s@.subrange(from as int, i as int));
        let c = s[i];
        if c != '.' && c != ' ' {
            r.push(upper_char(c));
        }
        i = i + 1;
    }
    r
}

fn chars_equal(x: &Vec<char>, y: &Vec<char>) -> (r: bool)
    ensures
        r == (x@ == y@),
{
    if x.len() != y.len() {
        return false;
    }
    let mut i: usize = 0;
    while i < x.len()
        invariant
            x@.len() == y@.len(),
            i <= x@.len(),
            forall|j: int| 0 <= j < i ==> x@[j] == y@[j],
        decreases x@.len() - i,
    {
        if x[i] != y[i] {
            return false;
        }
        i = i + 1;
    }
    assert(x@ =~= y@);
    true
}

impl BillType {
    fn code_chars(&self) -> (r: Vec<char>)
        ensures
            r@ == self.code(),
    {
        let r = match self {
            BillType::HR => vec!['H', 'R'],
            BillType::S => vec!['S'],
            BillType::HJRES => vec!['H', 'J', 'R', 'E', 'S'],
            BillType::SJRES => vec!['S', 'J', 'R', 'E', 'S'],
            BillType::HCONRES => vec!['H', 'C', 'O', 'N', 'R', 'E', 'S'],
            BillType::SCONRES => vec!['S', 'C', 'O', 'N', 'R', 'E', 'S'],
            BillType::HRES => vec!['H', 'R', 'E', 'S'],
            BillType::SRES => vec!['S', 'R', 'E', 'S'],
        };
        assert(r@ =~= self.code());
        r
    }
}

/// Looks up the bill type whose canonical code is `code`.
pub fn bill_type_from_code(code: &Vec<char>) -> (r: Result<BillType, FeedErrors>)
    ensures
        r == type_of_code(code@),
{
    if chars_equal(code, &BillType::HR.code_chars()) {
        Ok(BillType::HR)
    } else if chars_equal(code, &BillType::S.code_chars()) {
        Ok(BillType::S)
    } else if chars_equal(code, &BillType::HRES.code_chars()) {
        Ok(BillType::HRES)
    } else if chars_equal(code, &BillType::SRES.code_chars()) {
        Ok(BillType::SRES)
    } else if chars_equal(code, &BillType::HJRES.code_chars()) {
        Ok(BillType::HJRES)
    } else if chars_equal(code, &BillType::SJRES.code_chars()) {
        Ok(BillType::SJRES)
    } else if chars_equal(code, &BillType::HCONRES.code_chars()) {
        Ok(BillType::HCONRES)
    } else if chars_equal(code, &BillType::SCONRES.code_chars()) {
        Ok(BillType::SCONRES)
    } else {
        Err(FeedErrors::MatchError)
    }
}

/// One more than the largest bill number, where reading a number stops counting.
const NUMBER_CAP: u64 = 2147483648;

proof fn lemma_digits_value_nonneg(d: Seq<char>)
    requires
        forall|i: int| 0 <= i < d.len() ==> is_digit(#[trigger] d[i]),
    ensures
        digits_value(d) >= 0,
    decreases d.len(),
{
    if d.len() > 0 {
        lemma_digits_value_nonneg(d.drop_last());
        assert(is_digit(d[d.len() - 1]));
    }
}

/// Reads the bill number held in the token `s[from..to]`.
fn number_from_range(s: &Vec<char>, from: usize, to: usize) -> (r: Result<i32, FeedErrors>)
    requires
        from <= to <= s@.len(),
    ensures
        r == number_of(s@.subrange(from as int, to as int)),
{
    let ghost d = s@.subrange(from as int, to as int);
    if from == to {
        return Err(FeedErrors::ParseError);
    }
    let mut i: usize = from;
    while i < to
        invariant
            from <= i <= to <= s@.len(),
            forall|j: int| from <= j < i ==> is_digit(#[trigger] s@[j]),
            d == s@.subrange(from as int, to as int),
        decreases to - i,
    {
        if s[i] < '0' || s[i] > '9' {
            assert(!is_digit(d[(i - from) as int]));
            return Err(FeedErrors::ParseError);
        }
        i = i + 1;
    }
    assert forall|j: int| 0 <= j < d.len() implies is_digit(#[trigger] d[j]) by {
        assert(d[j] == s@[from + j]);
    }
    assert(is_decimal(d));
    let mut v: u64 = 0;
    let mut i: usize = from;
    assert(s@.subrange(from as int, from as int) =~= Seq::<char>::empty());
    while i < to
        invariant
            from <= i <= to <= s@.len(),
            forall|j: int| from <= j < to ==> is_digit(#[trigger] s@[j]),
            v <= NUMBER_CAP,
            digits_value(s@.subrange(from as int, i as int)) >= NUMBER_CAP ==> v == NUMBER_CAP,
            digits_value(s@.subrange(from as int, i as int)) < NUMBER_CAP ==> v == digits_value(
                s@.subrange(from as int, i as int),
            ),
        decreases to - i,
    {
        let ghost prev = s@.subrange(from as int, i as int);
        let ghost next = s@.subrange(from as int, i + 1);
        assert(next.drop_last() =~= prev);
        assert(next.last() == s@[i as int]);
        proof {
            lemma_digits_value_nonneg(prev);
        }
        assert(is_digit(s@[i as int]));
        let d = ((s[i] as u32) - ('0' as u32)) as u64;
        let w = 10 * v + d;
        if w > NUMBER_CAP {
            v = NUMBER_CAP;
        } else {
            v = w;
        }
        i = i + 1;
    }
    if v < NUMBER_CAP {
        Ok(v as i32)
    } else {
        Err(FeedErrors::ParseError)
    }
}

/// Reads one feed title line into a bill record.
///
/// The line is expected to read `<type> <number> (<version>) - <title>`. The
/// shape is looked for at the leftmost position where it occurs and runs to the
/// end of the line. A line without that shape gives the record of
/// [`unmatched_item`] rather than failing.
pub fn parse_bill_item(input: &str) -> (r: BillItem)
    ensures
        r@ == feed_item(input@),
{
    let n = input.unicode_len();
    let mut chars: Vec<char> = Vec::new();
    let mut i: usize = 0;
    while i < n
        invariant
            i <= n,
            n == input@.len(),
            chars@ == input@.subrange(0, i as int),
        decreases n - i,
    {
        chars.push(input.get_char(i));
        assert(chars@ =~= input@.subrange(0, i + 1));
        i = i + 1;
    }
    assert(chars@ =~= input@);
    let ghost s = input@;
    match find_split(&chars) {
        None => {
            proof {
                lemma_feed_item_unmatched(s);
            }
            BillItem {
                bill_type: Err(FeedErrors::MatchError),
                bill_number: Err(FeedErrors::ParseError),
                bill_version: String::new(),
                title: String::from_str(input),
            }
        },
        Some((st, a, b, c)) => {
            let bill_type = bill_type_from_code(&normalize_range(&chars, st, a));
            let bill_number = if a < b {
                number_from_range(&chars, a + 1, b)
            } else {
                Err(FeedErrors::ParseError)
            };
            let bill_version = String::from_str(input.substring_char(b + 2, c));
            let title = String::from_str(input.substring_char(c + 4, n));
            let r = BillItem { bill_type, bill_number, bill_version, title };
            proof {
                lemma_feed_item_of_split(s, st as int, a as int, b as int, c as int);
            }
            r
        },
    }
}

/// What the HTML unescaping of htmlize makes of a text.
pub uninterp spec fn html_unescaped(s: Seq<char>) -> Seq<char>;

/// Relies on `htmlize::unescape`: it expands the HTML character references of
/// the text, its result depends on the text alone, and a text without `&` comes
/// back unchanged.
#[verifier::external_body]
fn unescape_html(s: &str) -> (r: String)
    ensures
        r@ == html_unescaped(s@),
        !s@.contains('&') ==> r@ == s@,
{
    htmlize::unescape(s).into_owned()
}

/// The title used for a feed entry that has none.
pub open spec fn entry_title(t: Option<String>) -> Seq<char> {
    match t {
        Some(s) => s@,
        None => "No title found for Bill."@,
    }
}

/// Reads the titles of a feed's entries, in order, into bill records: each
/// title is HTML-unescaped and then parsed. One malformed title gives one
/// record of failed fields and leaves the others alone.
pub fn bill_items_from_titles(titles: &Vec<Option<String>>) -> (r: Vec<BillItem>)
    ensures
        r@.len() == titles@.len(),
        forall|i: int|
            0 <= i < r@.len() ==> (#[trigger] r@[i])@ == feed_item(
                html_unescaped(entry_title(titles@[i])),
            ),
        forall|i: int|
            0 <= i < r@.len() && !entry_title(titles@[i]).contains('&') ==> (#[trigger] r@[i])@
                == feed_item(entry_title(titles@[i])),
{
    let mut r: Vec<BillItem> = Vec::new();
    let mut i: usize = 0;
    while i < titles.len()
        invariant
            i <= titles@.len(),
            r@.len() == i,
            forall|j: int|
                0 <= j < i ==> (#[trigger] r@[j])@ == feed_item(
                    html_unescaped(entry_title(titles@[j])),
                ),
            forall|j: int|
                0 <= j < i && !entry_title(titles@[j]).contains('&') ==> (#[trigger] r@[j])@
                    == feed_item(entry_title(titles@[j])),
        decreases titles@.len() - i,
    {
        let text = match &titles[i] {
            Some(t) => unescape_html(t.as_str()),
            None => unescape_html("No title found for Bill."),
        };
        r.push(parse_bill_item(text.as_str()));
        i = i + 1;
    }
    r
}

} // verus!
