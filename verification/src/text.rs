//! Character-level helpers on strings: equality, substring search,
//! whitespace trimming, quote removal and decimal parsing.

use vstd::prelude::*;

verus! {

/// The characters of `s`, in order.
pub fn chars_of(s: &str) -> (v: Vec<char>)
    ensures
        v@ == s@,
{
    let mut v: Vec<char> = Vec::new();
    for c in it: s.chars()
        invariant
            v@ == it.seq().take(it.index() as int),
            it.seq() == s@,
    {
        v.push(c);
    }
    v
}

/// Whether two character vectors hold the same characters.
pub fn chars_eq(a: &Vec<char>, b: &Vec<char>) -> (r: bool)
    ensures
        r == (a@ == b@),
{
    if a.len() != b.len() {
        return false;
    }
    let mut i: usize = 0;
    while i < a.len()
        invariant
            a.len() == b.len(),
            i <= a.len(),
            forall|k: int| 0 <= k < i ==> a@[k] == b@[k],
        decreases a.len() - i,
    {
        if a[i] != b[i] {
            return false;
        }
        i = i + 1;
    }
    assert(a@ =~= b@);
    true
}

/// Whether two strings hold the same characters.
pub fn str_eq(a: &str, b: &str) -> (r: bool)
    ensures
        r == (a@ == b@),
{
    let va = chars_of(a);
    let vb = chars_of(b);
    chars_eq(&va, &vb)
}

/// `pat` occurs in `s` starting at position `i`.
pub open spec fn occurs_at(s: Seq<char>, pat: Seq<char>, i: int) -> bool {
    0 <= i && i + pat.len() <= s.len() && s.subrange(i, i + pat.len()) == pat
}

/// `pat` occurs somewhere in `s`.
pub open spec fn occurs_in(s: Seq<char>, pat: Seq<char>) -> bool {
    exists|i: int| occurs_at(s, pat, i)
}

/// `s` ends with `suffix`.
pub open spec fn ends_with(s: Seq<char>, suffix: Seq<char>) -> bool {
    suffix.len() <= s.len() && s.subrange(s.len() - suffix.len(), s.len() as int) == suffix
}

/// `s` starts with `prefix`.
pub open spec fn starts_with(s: Seq<char>, prefix: Seq<char>) -> bool {
    prefix.len() <= s.len() && s.subrange(0, prefix.len() as int) == prefix
}

/// A concatenation ends with its last part.
pub proof fn lemma_ends_with_concat(p: Seq<char>, s: Seq<char>)
    ensures
        ends_with(p + s, s),
{
    assert((p + s).subrange(p.len() as int, (p + s).len() as int) =~= s);
}

/// A concatenation starts with its first part.
pub proof fn lemma_starts_with_concat(p: Seq<char>, s: Seq<char>)
    ensures
        starts_with(p + s, p),
{
    assert((p + s).subrange(0, p.len() as int) =~= p);
}

/// Whether `pat` occurs at position `i` of `hay`.
fn matches_at(hay: &Vec<char>, pat: &Vec<char>, i: usize) -> (r: bool)
    requires
        i + pat.len() <= hay.len(),
    ensures
        r == occurs_at(hay@, pat@, i as int),
{
    let mut k: usize = 0;
    while k < pat.len()
        invariant
            i + pat.len() <= hay.len(),
            k <= pat.len(),
            forall|j: int| 0 <= j < k ==> hay@[i + j] == pat@[j],
        decreases pat.len() - k,
    {
        if hay[i + k] != pat[k] {
            assert(hay@.subrange(i as int, i + pat.len())[k as int] != pat@[k as int]);
            return false;
        }
        k = k + 1;
    }
    assert(hay@.subrange(i as int, i + pat.len()) =~= pat@);
    true
}

/// Whether `pat` occurs anywhere in `hay`.
pub fn contains_chars(hay: &Vec<char>, pat: &Vec<char>) -> (r: bool)
    ensures
        r == occurs_in(hay@, pat@),
{
    if pat.len() > hay.len() {
        assert forall|i: int| !occurs_at(hay@, pat@, i) by {}
        return false;
    }
    let last: usize = hay.len() - pat.len();
    let mut i: usize = 0;
    while i <= last
        invariant
            last + pat.len() == hay.len(),
            forall|j: int| 0 <= j < i ==> !occurs_at(hay@, pat@, j),
        decreases last + 1 - i,
    {
        if matches_at(hay, pat, i) {
            return true;
        }
        if i == last {
            assert forall|j: int| !occurs_at(hay@, pat@, j) by {
                if 0 <= j && j + pat.len() <= hay.len() {
                    assert(j <= i);
                }
            }
            return false;
        }
        i = i + 1;
    }
    false
}

/// The Unicode `White_Space` property, which `char::is_whitespace` and
/// `str::trim` go by.
pub open spec fn is_white_space(c: char) -> bool {
    ||| '\u{9}' <= c <= '\u{d}'
    ||| c == ' '
    ||| c == '\u{85}'
    ||| c == '\u{a0}'
    ||| c == '\u{1680}'
    ||| '\u{2000}' <= c <= '\u{200a}'
    ||| c == '\u{2028}'
    ||| c == '\u{2029}'
    ||| c == '\u{202f}'
    ||| c == '\u{205f}'
    ||| c == '\u{3000}'
}

/// Whether `c` has the Unicode `White_Space` property.
pub fn is_whitespace(c: char) -> (r: bool)
    ensures
        r == is_white_space(c),
{
    ('\u{9}' <= c && c <= '\u{d}') || c == ' ' || c == '\u{85}' || c == '\u{a0}' || c
        == '\u{1680}' || ('\u{2000}' <= c && c <= '\u{200a}') || c == '\u{2028}' || c
        == '\u{2029}' || c == '\u{202f}' || c == '\u{205f}' || c == '\u{3000}'
}

/// `s` without its leading whitespace.
pub open spec fn trim_start(s: Seq<char>) -> Seq<char>
    decreases s.len(),
{
    if s.len() > 0 && is_white_space(s[0]) {
        trim_start(s.drop_first())
    } else {
        s
    }
}

/// `s` without its trailing whitespace.
pub open spec fn trim_end(s: Seq<char>) -> Seq<char>
    decreases s.len(),
{
    if s.len() > 0 && is_white_space(s.last()) {
        trim_end(s.drop_last())
    } else {
        s
    }
}

/// `s` without leading and trailing whitespace, as `str::trim` gives it.
pub open spec fn trimmed(s: Seq<char>) -> Seq<char> {
    trim_end(trim_start(s))
}

proof fn lemma_trim_start_shape(s: Seq<char>)
    ensures
        trim_start(s).len() == 0 || !is_white_space(trim_start(s)[0]),
        trim_start(trim_start(s)) == trim_start(s),
    decreases s.len(),
{
    if s.len() > 0 && is_white_space(s[0]) {
        lemma_trim_start_shape(s.drop_first());
    }
}

proof fn lemma_trim_end_shape(s: Seq<char>)
    ensures
        trim_end(s).len() <= s.len(),
        trim_end(s) == s.take(trim_end(s).len() as int),
        trim_end(s).len() == 0 || !is_white_space(trim_end(s).last()),
    decreases s.len(),
{
    if s.len() > 0 && is_white_space(s.last()) {
        lemma_trim_end_shape(s.drop_last());
        let k = trim_end(s.drop_last()).len() as int;
        assert(s.drop_last().take(k) =~= s.take(k));
    } else {
        assert(s.take(s.len() as int) =~= s);
    }
}

proof fn lemma_trim_start_witness(s: Seq<char>) -> (i: int)
    ensures
        0 <= i <= s.len(),
        trim_start(s) == s.skip(i),
        forall|k: int| 0 <= k < i ==> is_white_space(#[trigger] s[k]),
        i == s.len() || !is_white_space(s[i]),
    decreases s.len(),
{
    if s.len() > 0 && is_white_space(s[0]) {
        let j = lemma_trim_start_witness(s.drop_first());
        assert(s.drop_first().skip(j) =~= s.skip(j + 1));
        assert forall|k: int| 0 <= k < j + 1 implies is_white_space(#[trigger] s[k]) by {
            if k > 0 {
                assert(s[k] == s.drop_first()[k - 1]);
            }
        }
        if j + 1 < s.len() {
            assert(s[j + 1] == s.drop_first()[j]);
        }
        j + 1
    } else {
        assert(s.skip(0) =~= s);
        0
    }
}

proof fn lemma_trim_end_witness(s: Seq<char>) -> (j: int)
    ensures
        0 <= j <= s.len(),
        trim_end(s) == s.take(j),
        forall|k: int| j <= k < s.len() ==> is_white_space(#[trigger] s[k]),
        j == 0 || !is_white_space(s[j - 1]),
    decreases s.len(),
{
    if s.len() > 0 && is_white_space(s.last()) {
        let j = lemma_trim_end_witness(s.drop_last());
        assert(s.drop_last().take(j) =~= s.take(j));
        assert forall|k: int| j <= k < s.len() implies is_white_space(#[trigger] s[k]) by {
            if k < s.len() - 1 {
                assert(s[k] == s.drop_last()[k]);
            }
        }
        if j > 0 {
            assert(s[j - 1] == s.drop_last()[j - 1]);
        }
        j
    } else {
        assert(s.take(s.len() as int) =~= s);
        s.len() as int
    }
}

/// `trimmed(s)` is `s[i..j]`, with only whitespace before `i` and from `j`
/// on, and (unless empty) no whitespace at either end.
pub open spec fn trim_bounds(s: Seq<char>, i: int, j: int) -> bool {
    &&& 0 <= i <= j <= s.len()
    &&& trimmed(s) == s.subrange(i, j)
    &&& forall|k: int| 0 <= k < i ==> is_white_space(#[trigger] s[k])
    &&& forall|k: int| j <= k < s.len() ==> is_white_space(#[trigger] s[k])
    &&& i < j ==> !is_white_space(s[i]) && !is_white_space(s[j - 1])
}

/// Trimming takes off exactly the whitespace at both ends: what is left is
/// a stretch of the string, with only whitespace around it and none at
/// either of its ends.
pub proof fn lemma_trim_removes_only_outer_whitespace(s: Seq<char>)
    ensures
        exists|i: int, j: int| trim_bounds(s, i, j),
{
    let i = lemma_trim_start_witness(s);
    let t = s.skip(i);
    let jt = lemma_trim_end_witness(t);
    let j = i + jt;
    assert(t.take(jt) =~= s.subrange(i, j));
    assert forall|k: int| j <= k < s.len() implies is_white_space(#[trigger] s[k]) by {
        assert(s[k] == t[k - i]);
    }
    if i < j {
        assert(s[i] == t[0]);
        assert(s[j - 1] == t[jt - 1]);
    }
    assert(trim_bounds(s, i, j));
}

/// Trimming twice trims no more than trimming once.
pub proof fn lemma_trim_idempotent(s: Seq<char>)
    ensures
        trimmed(trimmed(s)) == trimmed(s),
{
    let t = trim_start(s);
    let u = trim_end(t);
    lemma_trim_start_shape(s);
    lemma_trim_end_shape(t);
    if u.len() > 0 {
        assert(u[0] == t[0]);
        assert(trim_start(u) == u);
    } else {
        assert(trim_start(u) == u);
    }
    assert(trim_end(u) == u);
}

/// `s` without leading and trailing whitespace.
pub fn trim(s: &str) -> (r: &str)
    ensures
        r@ == trimmed(s@),
{
    let v = chars_of(s);
    let mut i: usize = 0;
    assert(v@.skip(0) =~= v@);
    while i < v.len() && is_whitespace(v[i])
        invariant
            v@ == s@,
            i <= v.len(),
            trim_start(v@) == trim_start(v@.skip(i as int)),
        decreases v.len() - i,
    {
        assert(v@.skip(i as int).drop_first() =~= v@.skip(i + 1));
        i = i + 1;
    }
    assert(trim_start(v@) == v@.skip(i as int));
    assert(v@.skip(i as int) =~= v@.subrange(i as int, v.len() as int));
    let mut j: usize = v.len();
    while j > i && is_whitespace(v[j - 1])
        invariant
            v@ == s@,
            i <= j <= v.len(),
            trimmed(v@) == trim_end(v@.subrange(i as int, j as int)),
        decreases j,
    {
        assert(v@.subrange(i as int, j as int).drop_last() =~= v@.subrange(i as int, j - 1));
        j = j - 1;
    }
    assert(trimmed(v@) == v@.subrange(i as int, j as int));
    s.substring_char(i, j)
}

/// `s` with every occurrence of `q` taken out.
pub open spec fn without_char(s: Seq<char>, q: char) -> Seq<char>
    decreases s.len(),
{
    if s.len() == 0 {
        s
    } else if s.last() == q {
        without_char(s.drop_last(), q)
    } else {
        without_char(s.drop_last(), q).push(s.last())
    }
}

/// The characters of `s` other than `q`, in order.
pub fn remove_char(s: &str, q: char) -> (r: Vec<char>)
    ensures
        r@ == without_char(s@, q),
{
    let v = chars_of(s);
    let mut out: Vec<char> = Vec::new();
    let mut i: usize = 0;
    while i < v.len()
        invariant
            v@ == s@,
            i <= v.len(),
            out@ == without_char(v@.take(i as int), q),
        decreases v.len() - i,
    {
        assert(v@.take(i + 1).drop_last() =~= v@.take(i as int));
        if v[i] != q {
            out.push(v[i]);
        }
        i = i + 1;
    }
    assert(v@.take(v.len() as int) =~= v@);
    out
}

/// `c` is an ASCII decimal digit.
pub open spec fn is_digit(c: char) -> bool {
    '0' <= c <= '9'
}

/// Why a string is not a `u32`, as `std::num::IntErrorKind` tells it.
#[derive(Clone, Copy, Debug, PartialEq, Eq, Structural)]
pub enum ParseIntError {
    /// The string is empty.
    Empty,
    /// A character that is not a digit.
    InvalidDigit,
    /// The number does not fit in a `u32`.
    PosOverflow,
}

impl ParseIntError {
    /// The text that the error is displayed with.
    pub fn message(&self) -> (r: &'static str)
        ensures
            r@ == (match self {
                ParseIntError::Empty => "cannot parse integer from empty string"@,
                ParseIntError::InvalidDigit => "invalid digit found in string"@,
                ParseIntError::PosOverflow => "number too large to fit in target type"@,
            }),
    {
        match self {
            ParseIntError::Empty => "cannot parse integer from empty string",
            ParseIntError::InvalidDigit => "invalid digit found in string",
            ParseIntError::PosOverflow => "number too large to fit in target type",
        }
    }
}

/// The digits of an unsigned number: `s` without one leading `+`.
pub open spec fn unsigned_digits(s: Seq<char>) -> Seq<char> {
    if s.len() > 0 && s[0] == '+' {
        s.drop_first()
    } else {
        s
    }
}

/// Reads the digits `d` from left to right after the value `acc`: the first
/// character that is no digit, or the first digit that takes the value past
/// `u32::MAX`, ends the reading with that error.
pub open spec fn scan_u32(d: Seq<char>, acc: int) -> Result<u32, ParseIntError>
    decreases d.len(),
{
    if d.len() == 0 {
        Ok(acc as u32)
    } else if !is_digit(d[0]) {
        Err(ParseIntError::InvalidDigit)
    } else if acc * 10 + (d[0] as int - '0' as int) > u32::MAX {
        Err(ParseIntError::PosOverflow)
    } else {
        scan_u32(d.drop_first(), acc * 10 + (d[0] as int - '0' as int))
    }
}

/// What `str::parse::<u32>` gives for `s`: an optional `+` followed by at
/// least one ASCII digit, of a value that fits in `u32`.
pub open spec fn parsed_u32(s: Seq<char>) -> Result<u32, ParseIntError> {
    if s.len() == 0 {
        Err(ParseIntError::Empty)
    } else if unsigned_digits(s).len() == 0 {
        Err(ParseIntError::InvalidDigit)
    } else {
        scan_u32(unsigned_digits(s), 0)
    }
}

/// Parses `s` as `str::parse::<u32>` does.
pub fn parse_u32(s: &str) -> (r: Result<u32, ParseIntError>)
    ensures
        r == parsed_u32(s@),
{
    let v = chars_of(s);
    if v.len() == 0 {
        return Err(ParseIntError::Empty);
    }
    let mut i: usize = 0;
    if v[0] == '+' {
        i = 1;
    }
    let ghost d = unsigned_digits(s@);
    assert(d =~= v@.skip(i as int));
    if i == v.len() {
        return Err(ParseIntError::InvalidDigit);
    }
    let mut acc: u32 = 0;
    while i < v.len()
        invariant
            v@ == s@,
            s@.len() > 0,
            unsigned_digits(s@).len() > 0,
            i <= v.len(),
            parsed_u32(s@) == scan_u32(v@.skip(i as int), acc as int),
        decreases v.len() - i,
    {
        let c = v[i];
        assert(v@.skip(i as int)[0] == c);
        if !('0' <= c && c <= '9') {
            return Err(ParseIntError::InvalidDigit);
        }
        let dv: u32 = c as u32 - '0' as u32;
        if acc > 429496729 || (acc == 429496729 && dv > 5) {
            return Err(ParseIntError::PosOverflow);
        }
        assert(v@.skip(i as int).drop_first() =~= v@.skip(i + 1));
        acc = acc * 10 + dv;
        i = i + 1;
    }
    assert(v@.skip(i as int).len() == 0);
    Ok(acc)
}

proof fn lemma_scan_push(d: Seq<char>, acc: int, c: char, v: u32)
    requires
        0 <= acc <= u32::MAX,
        scan_u32(d, acc) == Ok::<u32, ParseIntError>(v),
    ensures
        scan_u32(d.push(c), acc) == (if !is_digit(c) {
            Err::<u32, ParseIntError>(ParseIntError::InvalidDigit)
        } else if v * 10 + (c as int - '0' as int) > u32::MAX {
            Err(ParseIntError::PosOverflow)
        } else {
            Ok((v * 10 + (c as int - '0' as int)) as u32)
        }),
    decreases d.len(),
{
    if d.len() == 0 {
        let e = Seq::<char>::empty();
        assert(v == acc);
        assert(seq![c].drop_first() =~= e);
        assert(d.push(c) =~= seq![c]);
        assert(seq![c][0] == c);
        let next = acc * 10 + (c as int - '0' as int);
        assert(scan_u32(e, next) == Ok::<u32, ParseIntError>(next as u32));
    } else {
        let next = acc * 10 + (d[0] as int - '0' as int);
        assert(d.push(c).drop_first() =~= d.drop_first().push(c));
        assert(d.push(c)[0] == d[0]);
        lemma_scan_push(d.drop_first(), next, c, v);
    }
}

/// Reading decimal digits: one more digit multiplies the number read so far
/// by ten and adds the digit, until the number no longer fits in a `u32`;
/// any other character makes the string no number.
pub proof fn lemma_parse_append_digit(d: Seq<char>, c: char, v: u32)
    requires
        parsed_u32(d) == Ok::<u32, ParseIntError>(v),
    ensures
        parsed_u32(d.push(c)) == (if !is_digit(c) {
            Err::<u32, ParseIntError>(ParseIntError::InvalidDigit)
        } else if v * 10 + (c as int - '0' as int) > u32::MAX {
            Err(ParseIntError::PosOverflow)
        } else {
            Ok((v * 10 + (c as int - '0' as int)) as u32)
        }),
{
    assert(d.push(c)[0] == d[0]);
    if d[0] == '+' {
        assert(unsigned_digits(d.push(c)) =~= unsigned_digits(d).push(c));
    } else {
        assert(unsigned_digits(d.push(c)) =~= unsigned_digits(d).push(c));
    }
    lemma_scan_push(unsigned_digits(d), 0, c, v);
}

/// A single digit, with or without a leading `+`, reads as its value.
pub proof fn lemma_parse_one_digit(c: char)
    requires
        is_digit(c),
    ensures
        parsed_u32(seq![c]) == Ok::<u32, ParseIntError>((c as int - '0' as int) as u32),
        parsed_u32(seq!['+', c]) == Ok::<u32, ParseIntError>((c as int - '0' as int) as u32),
{
    let e = Seq::<char>::empty();
    let dig = c as int - '0' as int;
    assert(seq![c].drop_first() =~= e);
    assert(seq!['+', c].drop_first() =~= seq![c]);
    assert(seq![c][0] == c);
    assert(unsigned_digits(seq![c]) == seq![c]);
    assert(scan_u32(e, dig) == Ok::<u32, ParseIntError>(dig as u32));
    assert(scan_u32(seq![c], 0) == scan_u32(e, dig));
}

/// What is no number: the empty string, a `+` alone or doubled, and any
/// string with a character other than a digit after its optional `+`.
pub proof fn lemma_parse_rejects(s: Seq<char>, k: int)
    ensures
        s.len() == 0 ==> parsed_u32(s) == Err::<u32, ParseIntError>(ParseIntError::Empty),
        s == seq!['+'] ==> parsed_u32(s) == Err::<u32, ParseIntError>(ParseIntError::InvalidDigit),
        0 <= k < unsigned_digits(s).len() && !is_digit(unsigned_digits(s)[k]) ==> parsed_u32(
            s,
        ) is Err,
{
    if s == seq!['+'] {
        assert(s.drop_first() =~= Seq::<char>::empty());
    }
    if 0 <= k < unsigned_digits(s).len() && !is_digit(unsigned_digits(s)[k]) {
        lemma_scan_rejects(unsigned_digits(s), 0, k);
    }
}

proof fn lemma_scan_rejects(d: Seq<char>, acc: int, k: int)
    requires
        0 <= k < d.len(),
        !is_digit(d[k]),
    ensures
        scan_u32(d, acc) is Err,
    decreases d.len(),
{
    if k > 0 && is_digit(d[0]) && acc * 10 + (d[0] as int - '0' as int) <= u32::MAX {
        assert(d.drop_first()[k - 1] == d[k]);
        lemma_scan_rejects(d.drop_first(), acc * 10 + (d[0] as int - '0' as int), k - 1);
    }
}

} // verus!
