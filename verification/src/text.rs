//! Text helpers: the handful of string operations every screen needs, each with
//! its meaning stated over the characters of the string.

use vstd::arithmetic::power::pow;
use vstd::prelude::*;
use vstd::string::*;
use vstd::utf8::{encode_scalar, encode_utf8};

verus! {

/// `needle` occurs somewhere in `hay`.
pub open spec fn occurs_in(needle: Seq<char>, hay: Seq<char>) -> bool {
    exists|i: int|
        0 <= i <= hay.len() - needle.len() && #[trigger] hay.subrange(i, i + needle.len())
            == needle
}

/// The lower-case form of a text, as `str::to_lowercase` computes it.
pub uninterp spec fn lowercase_of(s: Seq<char>) -> Seq<char>;

/// The upper-case form of a text, as `str::to_uppercase` computes it.
pub uninterp spec fn uppercase_of(s: Seq<char>) -> Seq<char>;

/// The characters that count as white space: those with the Unicode property
/// `White_Space`.
pub open spec fn white(c: char) -> bool {
    let n = c as u32;
    ||| 0x09 <= n <= 0x0d
    ||| n == 0x20
    ||| n == 0x85
    ||| n == 0xa0
    ||| n == 0x1680
    ||| 0x2000 <= n <= 0x200a
    ||| n == 0x2028
    ||| n == 0x2029
    ||| n == 0x202f
    ||| n == 0x205f
    ||| n == 0x3000
}

/// `str::to_lowercase`: the result depends on the text alone.
#[verifier::external_body]
pub(crate) fn lower(s: &str) -> (r: String)
    ensures
        r@ == lowercase_of(s@),
{
    s.to_lowercase()
}

/// `str::to_uppercase`: the result depends on the text alone.
#[verifier::external_body]
pub(crate) fn upper(s: &str) -> (r: String)
    ensures
        r@ == uppercase_of(s@),
{
    s.to_uppercase()
}

/// Whether a character counts as white space.
pub fn is_white(c: char) -> (r: bool)
    ensures
        r == white(c),
{
    let n: u32 = c as u32;
    (0x09 <= n && n <= 0x0d) || n == 0x20 || n == 0x85 || n == 0xa0 || n == 0x1680 || (0x2000 <= n
        && n <= 0x200a) || n == 0x2028 || n == 0x2029 || n == 0x202f || n == 0x205f || n == 0x3000
}

/// Whether the characters of `hay` from `at` on begin with `needle`.
fn stands_at(hay: &Vec<char>, at: usize, needle: &Vec<char>) -> (r: bool)
    requires
        at + needle.len() <= hay.len(),
    ensures
        r == (hay@.subrange(at as int, at + needle@.len()) == needle@),
{
    for k in 0..needle.len()
        invariant
            at + needle.len() <= hay.len(),
            forall|j: int| 0 <= j < k ==> hay@[at + j] == needle@[j],
    {
        if hay[at + k] != needle[k] {
            assert(hay@.subrange(at as int, at + needle@.len())[k as int] != needle@[k as int]);
            return false;
        }
    }
    assert(hay@.subrange(at as int, at + needle@.len()) =~= needle@);
    true
}

/// Whether two texts are the same.
pub fn same(a: &str, b: &str) -> (r: bool)
    ensures
        r == (a@ == b@),
{
    let (x, y) = (characters(a), characters(b));
    if x.len() != y.len() {
        return false;
    }
    assert(x@.subrange(0, y@.len() as int) =~= x@);
    stands_at(&x, 0, &y)
}

/// Whether the text opens with `prefix`.
pub fn has_prefix(s: &str, prefix: &str) -> (r: bool)
    ensures
        r == prefix@.is_prefix_of(s@),
{
    let (hay, needle) = (characters(s), characters(prefix));
    needle.len() <= hay.len() && stands_at(&hay, 0, &needle)
}

/// Whether `needle` occurs somewhere in the text.
pub fn has_substring(s: &str, needle: &str) -> (r: bool)
    ensures
        r == occurs_in(needle@, s@),
{
    let (hay, part) = (characters(s), characters(needle));
    if part.len() > hay.len() {
        return false;
    }
    let last: usize = hay.len() - part.len();
    for i in 0..last
        invariant
            hay@ == s@,
            part@ == needle@,
            last == hay.len() - part.len(),
            forall|j: int| 0 <= j < i ==> #[trigger] s@.subrange(j, j + needle@.len()) != needle@,
    {
        if stands_at(&hay, i, &part) {
            assert(s@.subrange(i as int, i + needle@.len()) == needle@);
            return true;
        }
    }
    let r = stands_at(&hay, last, &part);
    assert(r == (s@.subrange(last as int, last + needle@.len()) == needle@));
    r
}

/// The text of a single decimal digit.
pub open spec fn digit(d: nat) -> Seq<char> {
    if d == 0 {
        "0"@
    } else if d == 1 {
        "1"@
    } else if d == 2 {
        "2"@
    } else if d == 3 {
        "3"@
    } else if d == 4 {
        "4"@
    } else if d == 5 {
        "5"@
    } else if d == 6 {
        "6"@
    } else if d == 7 {
        "7"@
    } else if d == 8 {
        "8"@
    } else {
        "9"@
    }
}

/// The decimal digits of a number, most significant first, without leading
/// zeros.
pub open spec fn decimal(n: nat) -> Seq<char>
    decreases n,
{
    if n < 10 {
        digit(n)
    } else {
        decimal(n / 10) + digit(n % 10)
    }
}

fn digit_text(d: u64) -> (r: &'static str)
    requires
        d < 10,
    ensures
        r@ == digit(d as nat),
{
    if d == 0 {
        "0"
    } else if d == 1 {
        "1"
    } else if d == 2 {
        "2"
    } else if d == 3 {
        "3"
    } else if d == 4 {
        "4"
    } else if d == 5 {
        "5"
    } else if d == 6 {
        "6"
    } else if d == 7 {
        "7"
    } else if d == 8 {
        "8"
    } else {
        "9"
    }
}

/// The number written out in decimal.
pub fn number(n: u64) -> (r: String)
    ensures
        r@ == decimal(n as nat),
    decreases n,
{
    if n < 10 {
        digit_text(n).to_owned()
    } else {
        let mut s = number(n / 10);
        s.append(digit_text(n % 10));
        s
    }
}

/// A count written out in decimal.
pub fn count(n: usize) -> (r: String)
    ensures
        r@ == decimal(n as nat),
{
    number(n as u64)
}

/// The three texts one after the other.
pub(crate) fn cat3(a: &str, b: &str, c: &str) -> (r: String)
    ensures
        r@ == a@ + b@ + c@,
{
    let mut s = a.to_owned();
    s.append(b);
    s.append(c);
    s
}

/// The texts of `parts` in order, `sep` between each two.
pub open spec fn joined(parts: Seq<Seq<char>>, sep: Seq<char>) -> Seq<char>
    decreases parts.len(),
{
    if parts.len() == 0 {
        Seq::empty()
    } else if parts.len() == 1 {
        parts[0]
    } else {
        joined(parts.drop_last(), sep) + sep + parts.last()
    }
}

/// The texts of `parts` in order, `sep` between each two.
pub fn join(parts: &Vec<String>, sep: &str) -> (r: String)
    ensures
        r@ == joined(texts(parts@), sep@),
{
    if parts.len() == 0 {
        return String::new();
    }
    let ghost all = texts(parts@);
    let mut out = parts[0].clone();
    let mut i: usize = 1;
    proof {
        assert(all.take(1).len() == 1);
    }
    while i < parts.len()
        invariant
            1 <= i <= parts.len(),
            all == texts(parts@),
            out@ == joined(all.take(i as int), sep@),
        decreases parts.len() - i,
    {
        out.append(sep);
        out.append(parts[i].as_str());
        proof {
            assert(all.take(i as int + 1).drop_last() =~= all.take(i as int));
            assert(all.take(i as int + 1).last() == parts@[i as int]@);
        }
        i += 1;
    }
    proof {
        assert(all.take(parts.len() as int) =~= all);
    }
    out
}

/// A text without the white space at either end.
pub open spec fn trimmed(s: Seq<char>) -> Seq<char>
    decreases s.len(),
{
    if s.len() > 0 && white(s[0]) {
        trimmed(s.drop_first())
    } else if s.len() > 0 && white(s.last()) {
        trimmed(s.drop_last())
    } else {
        s
    }
}

/// A text that holds nothing but white space.
pub open spec fn blank(s: Seq<char>) -> bool {
    trimmed(s).len() == 0
}

/// The characters of a text, in order.
pub fn characters(s: &str) -> (r: Vec<char>)
    ensures
        r@ == s@,
{
    let mut out: Vec<char> = Vec::new();
    for c in it: s.chars()
        invariant
            it.seq() == s@,
            out@ == s@.take(it.index()),
    {
        out.push(c);
    }
    out
}

/// `s` without the white space at either end.
pub fn trim(s: &str) -> (r: String)
    ensures
        r@ == trimmed(s@),
{
    let cs = characters(s);
    let (lo, hi) = trim_bounds(&cs, 0, cs.len());
    proof {
        assert(cs@.subrange(0, cs@.len() as int) =~= cs@);
    }
    s.substring_char(lo, hi).to_owned()
}

/// The bounds of what is left of `cs[from..to]` without its outer white space.
fn trim_bounds(cs: &Vec<char>, from: usize, to: usize) -> (r: (usize, usize))
    requires
        from <= to <= cs.len(),
    ensures
        from <= r.0 <= r.1 <= to,
        cs@.subrange(r.0 as int, r.1 as int) == trimmed(cs@.subrange(from as int, to as int)),
{
    let mut lo = from;
    while lo < to && is_white(cs[lo])
        invariant
            from <= lo <= to <= cs.len(),
            trimmed(cs@.subrange(lo as int, to as int)) == trimmed(
                cs@.subrange(from as int, to as int),
            ),
        decreases to - lo,
    {
        proof {
            let whole = cs@.subrange(lo as int, to as int);
            assert(whole.drop_first() =~= cs@.subrange(lo as int + 1, to as int));
        }
        lo += 1;
    }
    let mut hi = to;
    while lo < hi && is_white(cs[hi - 1])
        invariant
            from <= lo <= hi <= to <= cs.len(),
            lo < hi ==> !white(cs@[lo as int]),
            trimmed(cs@.subrange(lo as int, hi as int)) == trimmed(
                cs@.subrange(from as int, to as int),
            ),
        decreases hi - lo,
    {
        proof {
            let whole = cs@.subrange(lo as int, hi as int);
            assert(whole.drop_last() =~= cs@.subrange(lo as int, hi as int - 1));
        }
        hi -= 1;
    }
    (lo, hi)
}

/// What stands before the first line feed.
pub open spec fn first_line(s: Seq<char>) -> Seq<char>
    decreases s.len(),
{
    if s.len() == 0 || s[0] == '\n' {
        Seq::empty()
    } else {
        seq![s[0]] + first_line(s.drop_first())
    }
}

/// The lines of a text, each without its outer white space, those that hold
/// nothing else left out.
pub open spec fn entry_lines(s: Seq<char>) -> Seq<Seq<char>>
    decreases s.len(),
{
    if s.len() == 0 {
        Seq::empty()
    } else {
        let line = first_line(s);
        let rest = if line.len() < s.len() {
            entry_lines(s.skip(line.len() as int + 1))
        } else {
            Seq::empty()
        };
        if blank(line) {
            rest
        } else {
            seq![trimmed(line)] + rest
        }
    }
}

/// The texts of a list of strings.
pub open spec fn texts(v: Seq<String>) -> Seq<Seq<char>> {
    v.map_values(|s: String| s@)
}

proof fn lemma_first_line(s: Seq<char>, n: int)
    requires
        0 <= n <= s.len(),
        forall|k: int| 0 <= k < n ==> s[k] != '\n',
        n < s.len() ==> s[n] == '\n',
    ensures
        first_line(s) == s.take(n),
    decreases n,
{
    if n > 0 {
        lemma_first_line(s.drop_first(), n - 1);
        assert(s.take(n) =~= seq![s[0]] + s.drop_first().take(n - 1));
    } else {
        assert(s.take(0) =~= Seq::empty());
    }
}

/// The lines of a text area, each without its outer white space, blank ones
/// left out.
pub fn parse_lines(s: &str) -> (r: Vec<String>)
    ensures
        texts(r@) == entry_lines(s@),
{
    let cs = characters(s);
    let n = cs.len();
    let mut out: Vec<String> = Vec::new();
    let mut start: usize = 0;
    proof {
        assert(s@.skip(0) =~= s@);
        assert(texts(out@) + entry_lines(s@) =~= entry_lines(s@));
    }
    while start < n
        invariant
            cs@ == s@,
            n == cs.len(),
            start <= n,
            texts(out@) + entry_lines(s@.skip(start as int)) == entry_lines(s@),
        decreases n - start,
    {
        let mut end = start;
        while end < n && cs[end] != '\n'
            invariant
                n == cs.len(),
                start <= end <= n,
                forall|k: int| start <= k < end ==> cs@[k] != '\n',
            decreases n - end,
        {
            end += 1;
        }
        let ghost tail = s@.skip(start as int);
        proof {
            lemma_first_line(tail, end - start);
            assert(first_line(tail) =~= cs@.subrange(start as int, end as int));
        }
        let (lo, hi) = trim_bounds(&cs, start, end);
        let ghost before = out@;
        if lo < hi {
            out.push(s.substring_char(lo, hi).to_owned());
        }
        proof {
            let rest = if end < n {
                entry_lines(tail.skip(end - start + 1))
            } else {
                Seq::empty()
            };
            if lo < hi {
                assert(texts(out@) =~= texts(before).push(trimmed(first_line(tail))));
                assert(texts(before) + (seq![trimmed(first_line(tail))] + rest) =~= texts(out@)
                    + rest);
            }
            if end < n {
                assert(tail.skip(end - start + 1) =~= s@.skip(end + 1));
            } else {
                assert(s@.skip(n as int).len() == 0);
            }
        }
        if end < n {
            start = end + 1;
        } else {
            start = n;
        }
    }
    proof {
        assert(texts(out@) + entry_lines(s@.skip(n as int)) =~= texts(out@));
    }
    out
}

/// The rows of a list editor, each without its outer white space, blank ones
/// left out.
pub open spec fn filled_rows(rows: Seq<Seq<char>>) -> Seq<Seq<char>>
    decreases rows.len(),
{
    if rows.len() == 0 {
        Seq::empty()
    } else if blank(rows.last()) {
        filled_rows(rows.drop_last())
    } else {
        filled_rows(rows.drop_last()).push(trimmed(rows.last()))
    }
}

/// The rows of a list editor, each without its outer white space, blank ones
/// left out.
pub fn to_uris(rows: &Vec<String>) -> (r: Vec<String>)
    ensures
        texts(r@) == filled_rows(texts(rows@)),
{
    let ghost all = texts(rows@);
    let mut out: Vec<String> = Vec::new();
    proof {
        assert(texts(out@) =~= Seq::empty());
        assert(all.take(0) =~= Seq::empty());
    }
    for i in 0..rows.len()
        invariant
            all == texts(rows@),
            texts(out@) == filled_rows(all.take(i as int)),
    {
        proof {
            assert(all.take(i as int + 1).drop_last() =~= all.take(i as int));
            assert(all.take(i as int + 1).last() == rows@[i as int]@);
        }
        let ghost before = out@;
        let row = trim(rows[i].as_str());
        if !row.as_str().is_empty() {
            out.push(row);
            proof {
                assert(texts(out@) =~= texts(before).push(row@));
            }
        }
    }
    proof {
        assert(all.take(all.len() as int) =~= all);
    }
    out
}

/// The text as a list of one line: what is left of it without its outer white
/// space, or nothing if that is all it holds.
pub fn trimmed_or_none(s: &str) -> (r: Option<String>)
    ensures
        blank(s@) <==> r is None,
        r matches Some(t) ==> t@ == trimmed(s@),
{
    let t = trim(s);
    if t.as_str().is_empty() {
        None
    } else {
        Some(t)
    }
}

/// Whether `s` holds nothing but white space.
pub fn is_blank(s: &str) -> (r: bool)
    ensures
        r == blank(s@),
{
    trim(s).as_str().is_empty()
}

/// A case-insensitive search: `needle`, already in lower case, occurs in the
/// lower-case form of `hay`.
pub fn contains_ignore_case(hay: &str, needle_lower: &str) -> (r: bool)
    ensures
        r == occurs_in(needle_lower@, lowercase_of(hay@)),
{
    has_substring(lower(hay).as_str(), needle_lower)
}

/// A copy of a list of strings.
pub(crate) fn copy_strings(v: &Vec<String>) -> (r: Vec<String>)
    ensures
        r@ == v@,
{
    let mut out: Vec<String> = Vec::new();
    for i in 0..v.len()
        invariant
            out@ == v@.take(i as int),
    {
        out.push(v[i].clone());
    }
    proof {
        assert(v@.take(v.len() as int) =~= v@);
    }
    out
}

/// Whether one of the strings is `s`.
pub fn any_same(v: &Vec<String>, s: &str) -> (r: bool)
    ensures
        r == texts(v@).contains(s@),
{
    for i in 0..v.len()
        invariant
            forall|k: int| 0 <= k < i ==> v@[k]@ != s@,
    {
        if same(v[i].as_str(), s) {
            assert(texts(v@)[i as int] == s@);
            return true;
        }
    }
    assert forall|k: int| 0 <= k < v@.len() implies texts(v@)[k] != s@ by {
        assert(v@[k]@ != s@);
    }
    false
}

/// Dictionary order on texts, character by character.
pub open spec fn text_le(a: Seq<char>, b: Seq<char>) -> bool
    decreases a.len(),
{
    if a.len() == 0 {
        true
    } else if b.len() == 0 {
        false
    } else if a[0] == b[0] {
        text_le(a.drop_first(), b.drop_first())
    } else {
        (a[0] as int) < (b[0] as int)
    }
}

/// Dictionary order is total, transitive and antisymmetric.
pub proof fn lemma_text_order(a: Seq<char>, b: Seq<char>, c: Seq<char>)
    ensures
        text_le(a, b) || text_le(b, a),
        text_le(a, b) && text_le(b, c) ==> text_le(a, c),
        text_le(a, b) && text_le(b, a) ==> a == b,
    decreases a.len(),
{
    if a.len() > 0 && b.len() > 0 {
        let rest = if c.len() > 0 {
            c.drop_first()
        } else {
            c
        };
        lemma_text_order(a.drop_first(), b.drop_first(), rest);
        if a[0] == b[0] && text_le(a, b) && text_le(b, a) {
            assert(a =~= seq![a[0]] + a.drop_first());
            assert(b =~= seq![b[0]] + b.drop_first());
        }
    } else if a.len() == 0 && b.len() == 0 {
        assert(a =~= b);
    }
}

/// Whether `a` comes no later than `b` in dictionary order.
pub fn chars_le(a: &Vec<char>, b: &Vec<char>) -> (r: bool)
    ensures
        r == text_le(a@, b@),
{
    let mut i: usize = 0;
    proof {
        assert(a@.skip(0) =~= a@);
        assert(b@.skip(0) =~= b@);
    }
    loop
        invariant
            i <= a.len(),
            i <= b.len(),
            text_le(a@, b@) == text_le(a@.skip(i as int), b@.skip(i as int)),
        decreases a.len() - i,
    {
        if i == a.len() {
            return true;
        }
        if i == b.len() {
            return false;
        }
        if a[i] != b[i] {
            return a[i] < b[i];
        }
        proof {
            assert(a@.skip(i as int).drop_first() =~= a@.skip(i as int + 1));
            assert(b@.skip(i as int).drop_first() =~= b@.skip(i as int + 1));
        }
        i += 1;
    }
}

/// The character is a decimal digit.
pub open spec fn is_digit(c: char) -> bool {
    '0' <= c <= '9'
}

/// The value of a row of decimal digits.
pub open spec fn digits_value(s: Seq<char>) -> nat
    decreases s.len(),
{
    if s.len() == 0 {
        0
    } else {
        10 * digits_value(s.drop_last()) + (s.last() as nat - '0' as nat) as nat
    }
}

/// A text without the plus sign that it may open with.
pub open spec fn unsigned_part(s: Seq<char>) -> Seq<char> {
    if s.len() > 0 && s[0] == '+' {
        s.drop_first()
    } else {
        s
    }
}

/// The number that a text is: decimal digits, after an optional plus sign, and
/// nothing else.
pub open spec fn whole_number(s: Seq<char>) -> Option<nat> {
    let d = unsigned_part(s);
    if d.len() > 0 && forall|k: int| 0 <= k < d.len() ==> is_digit(#[trigger] d[k]) {
        Some(digits_value(d))
    } else {
        None
    }
}

/// The number that a text is, if it is one that fits.
pub open spec fn fitting_number(s: Seq<char>) -> Option<nat> {
    match whole_number(s) {
        Some(n) => if n <= u64::MAX {
            Some(n)
        } else {
            None
        },
        None => None,
    }
}

proof fn lemma_digit(d: nat)
    requires
        d < 10,
    ensures
        digit(d).len() == 1,
        digit(d)[0] as nat == '0' as nat + d,
        is_digit(digit(d)[0]),
{
    reveal_strlit("0");
    reveal_strlit("1");
    reveal_strlit("2");
    reveal_strlit("3");
    reveal_strlit("4");
    reveal_strlit("5");
    reveal_strlit("6");
    reveal_strlit("7");
    reveal_strlit("8");
    reveal_strlit("9");
}

proof fn lemma_decimal_digits(n: nat)
    ensures
        decimal(n).len() > 0,
        forall|k: int| 0 <= k < decimal(n).len() ==> is_digit(#[trigger] decimal(n)[k]),
        digits_value(decimal(n)) == n,
    decreases n,
{
    reveal_with_fuel(digits_value, 2);
    lemma_digit(n % 10);
    if n >= 10 {
        lemma_decimal_digits(n / 10);
        assert(decimal(n).drop_last() =~= decimal(n / 10));
        assert(decimal(n).last() == digit(n % 10)[0]);
        assert forall|k: int| 0 <= k < decimal(n).len() implies is_digit(
            #[trigger] decimal(n)[k],
        ) by {
            if k < decimal(n).len() - 1 {
                assert(decimal(n)[k] == decimal(n / 10)[k]);
            }
        }
    } else {
        assert(digit(n).drop_last() =~= Seq::empty());
    }
}

/// A number that was written out reads back as itself, and has no white space at
/// its ends.
pub proof fn a_written_number_reads_back(n: nat)
    ensures
        whole_number(decimal(n)) == Some(n),
        trimmed(decimal(n)) == decimal(n),
{
    lemma_decimal_digits(n);
    assert(is_digit(decimal(n)[0]));
    assert(is_digit(decimal(n).last()));
    assert(unsigned_part(decimal(n)) == decimal(n));
}

/// Reads a whole number: decimal digits, after an optional plus sign. Nothing
/// for any other text, nor for a number that does not fit.
pub fn parse_number(s: &str) -> (r: Option<u64>)
    ensures
        r is Some <==> fitting_number(s@) is Some,
        r matches Some(n) ==> fitting_number(s@) == Some(n as nat),
{
    let cs = characters(s);
    let start: usize = if cs.len() > 0 && cs[0] == '+' {
        1
    } else {
        0
    };
    let ghost d = unsigned_part(s@);
    proof {
        assert(d =~= cs@.skip(start as int));
    }
    if cs.len() == start {
        return None;
    }
    let mut n: u64 = 0;
    let mut i: usize = start;
    proof {
        assert(d.take(0) =~= Seq::empty());
    }
    let mut fits = true;
    while i < cs.len()
        invariant
            start <= i <= cs.len(),
            cs@ == s@,
            d == unsigned_part(s@),
            d == cs@.skip(start as int),
            d.len() == cs.len() - start,
            forall|k: int| 0 <= k < i - start ==> is_digit(#[trigger] d[k]),
            fits ==> n == digits_value(d.take(i - start)),
            !fits ==> digits_value(d.take(i - start)) > u64::MAX,
        decreases cs.len() - i,
    {
        let c = cs[i];
        proof {
            assert(d[i - start] == c);
            assert(d.take(i - start + 1).drop_last() =~= d.take(i - start));
            assert(d.take(i - start + 1).last() == c);
        }
        if !('0' <= c && c <= '9') {
            proof {
                assert(!is_digit(d[i - start]));
            }
            return None;
        }
        let v: u64 = (c as u32 - '0' as u32) as u64;
        if fits {
            if n > (u64::MAX - v) / 10 {
                fits = false;
            } else {
                n = n * 10 + v;
            }
        }
        i += 1;
    }
    proof {
        assert(d.take(d.len() as int) =~= d);
    }
    if fits {
        Some(n)
    } else {
        None
    }
}

/// Whether the character occurs in the text.
pub fn has_char(s: &str, c: char) -> (r: bool)
    ensures
        r == s@.contains(c),
{
    let cs = characters(s);
    for i in 0..cs.len()
        invariant
            cs@ == s@,
            forall|k: int| 0 <= k < i ==> cs@[k] != c,
    {
        if cs[i] == c {
            assert(s@[i as int] == c);
            return true;
        }
    }
    false
}

/// A search as it is compared: without its outer white space, in lower case.
pub fn search_needle(typed: &str) -> (r: String)
    ensures
        r@ == lowercase_of(trimmed(typed@)),
{
    lower(trim(typed).as_str())
}

/// A text of fewer than two bytes.
pub open spec fn under_two_bytes(s: Seq<char>) -> bool {
    s.len() == 0 || (s.len() == 1 && (s[0] as u32) < 0x80)
}

/// Whether what is left of the text without its outer white space has two bytes
/// or more.
pub fn long_enough(s: &str) -> (r: bool)
    ensures
        r == !under_two_bytes(trimmed(s@)),
{
    let cs = characters(trim(s).as_str());
    !(cs.len() == 0 || (cs.len() == 1 && (cs[0] as u32) < 0x80))
}

/// Dictionary order is decided by the first difference: whatever stands behind it,
/// the text with the lesser character there comes first.
pub proof fn the_first_difference_decides(a: Seq<char>, b: Seq<char>, k: int)
    requires
        0 <= k < a.len(),
        k < b.len(),
        forall|j: int| 0 <= j < k ==> a[j] == b[j],
        (a[k] as int) < (b[k] as int),
    ensures
        text_le(a, b),
        !text_le(b, a),
    decreases k,
{
    if k > 0 {
        assert(a[0] == b[0]);
        assert forall|j: int| 0 <= j < k - 1 implies a.drop_first()[j] == b.drop_first()[j] by {
            assert(a[j + 1] == b[j + 1]);
        }
        the_first_difference_decides(a.drop_first(), b.drop_first(), k - 1);
    }
}

/// A text comes before every longer text that it opens.
pub proof fn an_opening_comes_first(a: Seq<char>, b: Seq<char>)
    requires
        a.len() <= b.len(),
        forall|j: int| 0 <= j < a.len() ==> a[j] == b[j],
    ensures
        text_le(a, b),
        a.len() < b.len() ==> !text_le(b, a),
    decreases a.len(),
{
    if a.len() > 0 {
        assert(a[0] == b[0]);
        assert forall|j: int| 0 <= j < a.len() - 1 implies a.drop_first()[j] == b.drop_first()[j] by {
            assert(a[j + 1] == b[j + 1]);
        }
        an_opening_comes_first(a.drop_first(), b.drop_first());
    }
}

/// Trimming takes white space from both ends and nothing else: what is left is a
/// stretch of the text that neither begins nor ends with white space, and all that
/// stands outside it is white space.
pub proof fn trimming_takes_the_outer_white_space(s: Seq<char>)
    ensures
        exists|lo: int, hi: int| #![trigger s.subrange(lo, hi)]
            0 <= lo <= hi <= s.len() && trimmed(s) == s.subrange(lo, hi) && (forall|k: int|
                0 <= k < lo || hi <= k < s.len() ==> white(#[trigger] s[k])),
        trimmed(s).len() > 0 ==> !white(trimmed(s)[0]) && !white(trimmed(s).last()),
{
    let (lo, hi) = lemma_trim_bounds(s);
    assert(trimmed(s) == s.subrange(lo, hi));
}

proof fn lemma_trim_bounds(s: Seq<char>) -> (r: (int, int))
    ensures
        0 <= r.0 <= r.1 <= s.len(),
        trimmed(s) == s.subrange(r.0, r.1),
        forall|k: int| 0 <= k < r.0 || r.1 <= k < s.len() ==> white(#[trigger] s[k]),
        r.0 < r.1 ==> !white(s[r.0]) && !white(s[r.1 - 1]),
    decreases s.len(),
{
    if s.len() > 0 && white(s[0]) {
        let t = s.drop_first();
        let (lo, hi) = lemma_trim_bounds(t);
        assert(s.subrange(lo + 1, hi + 1) =~= t.subrange(lo, hi));
        assert forall|k: int| 0 <= k < lo + 1 || hi + 1 <= k < s.len() implies white(
            #[trigger] s[k],
        ) by {
            if k > 0 {
                assert(t[k - 1] == s[k]);
            }
        }
        (lo + 1, hi + 1)
    } else if s.len() > 0 && white(s.last()) {
        let t = s.drop_last();
        let (lo, hi) = lemma_trim_bounds(t);
        assert(s.subrange(lo, hi) =~= t.subrange(lo, hi));
        assert forall|k: int| 0 <= k < lo || hi <= k < s.len() implies white(#[trigger] s[k]) by {
            if k < t.len() {
                assert(t[k] == s[k]);
            }
        }
        (lo, hi)
    } else {
        assert(s.subrange(0, s.len() as int) =~= s);
        (0, s.len() as int)
    }
}

/// A text counts as blank exactly if every character of it is white space.
pub proof fn blank_means_nothing_but_white_space(s: Seq<char>)
    ensures
        blank(s) <==> forall|k: int| 0 <= k < s.len() ==> white(#[trigger] s[k]),
{
    let (lo, hi) = lemma_trim_bounds(s);
    if !blank(s) {
        assert(s[lo] == trimmed(s)[0]);
    }
}

proof fn lemma_line_end(a: Seq<char>, b: Seq<char>)
    ensures
        (forall|k: int| 0 <= k < a.len() ==> a[k] != '\n') ==> first_line(a) == a && first_line(
            a + seq!['\n'] + b,
        ) == a,
        (exists|k: int| 0 <= k < a.len() && a[k] == '\n') ==> first_line(a + seq!['\n'] + b)
            == first_line(a) && first_line(a).len() < a.len(),
    decreases a.len(),
{
    let whole = a + seq!['\n'] + b;
    if a.len() == 0 {
        assert(first_line(whole) =~= a);
        assert(first_line(a) =~= a);
    } else if a[0] == '\n' {
        assert(whole[0] == '\n');
    } else {
        let t = a.drop_first();
        lemma_line_end(t, b);
        assert(whole.drop_first() =~= t + seq!['\n'] + b);
        assert(whole[0] == a[0]);
        if forall|k: int| 0 <= k < a.len() ==> a[k] != '\n' {
            assert forall|k: int| 0 <= k < t.len() implies t[k] != '\n' by {
                assert(a[k + 1] != '\n');
            }
            assert(seq![a[0]] + t =~= a);
        } else {
            let k = choose|k: int| 0 <= k < a.len() && a[k] == '\n';
            assert(t[k - 1] == '\n');
        }
    }
}

/// A text without a line end is one entry, without its outer white space; blank, it
/// is none.
pub proof fn a_line_is_one_entry(line: Seq<char>)
    requires
        forall|k: int| 0 <= k < line.len() ==> line[k] != '\n',
    ensures
        entry_lines(line) == if forall|k: int| 0 <= k < line.len() ==> white(#[trigger] line[k]) {
            Seq::<Seq<char>>::empty()
        } else {
            seq![trimmed(line)]
        },
{
    lemma_line_end(line, Seq::empty());
    blank_means_nothing_but_white_space(line);
    if line.len() > 0 {
        assert(seq![trimmed(line)] + Seq::<Seq<char>>::empty() =~= seq![trimmed(line)]);
    }
}

/// The entries of two texts, one below the other, are those of the upper one and
/// then those of the lower one.
pub proof fn entries_stand_line_by_line(a: Seq<char>, b: Seq<char>)
    ensures
        entry_lines(a + seq!['\n'] + b) == entry_lines(a) + entry_lines(b),
    decreases a.len(),
{
    let whole = a + seq!['\n'] + b;
    lemma_line_end(a, b);
    if forall|k: int| 0 <= k < a.len() ==> a[k] != '\n' {
        assert(whole.skip(a.len() as int + 1) =~= b);
        a_line_is_one_entry(a);
        blank_means_nothing_but_white_space(a);
        assert(Seq::<Seq<char>>::empty() + entry_lines(b) =~= entry_lines(b));
    } else {
        let n = first_line(a).len() as int;
        let t = a.skip(n + 1);
        entries_stand_line_by_line(t, b);
        assert(whole.skip(n + 1) =~= t + seq!['\n'] + b);
        assert(seq![trimmed(first_line(a))] + (entry_lines(t) + entry_lines(b)) =~= (seq![
            trimmed(first_line(a)),
        ] + entry_lines(t)) + entry_lines(b));
    }
}

/// Of a list of rows, each row that is not blank is kept, without its outer white
/// space, and the rows of two lists are kept one after the other.
pub proof fn rows_are_kept_one_by_one(row: Seq<char>, a: Seq<Seq<char>>, b: Seq<Seq<char>>)
    ensures
        filled_rows(seq![row]) == if forall|k: int| 0 <= k < row.len() ==> white(#[trigger] row[k]) {
            Seq::<Seq<char>>::empty()
        } else {
            seq![trimmed(row)]
        },
        filled_rows(a + b) == filled_rows(a) + filled_rows(b),
    decreases b.len(),
{
    blank_means_nothing_but_white_space(row);
    assert(seq![row].drop_last() =~= Seq::<Seq<char>>::empty());
    assert(filled_rows(Seq::<Seq<char>>::empty()) =~= Seq::empty());
    assert(Seq::<Seq<char>>::empty().push(trimmed(row)) =~= seq![trimmed(row)]);
    if b.len() == 0 {
        assert(a + b =~= a);
        assert(filled_rows(a) + Seq::<Seq<char>>::empty() =~= filled_rows(a));
    } else {
        rows_are_kept_one_by_one(row, a, b.drop_last());
        assert((a + b).drop_last() =~= a + b.drop_last());
        assert((a + b).last() == b.last());
        assert(filled_rows(a + b) =~= filled_rows(a) + filled_rows(b));
    }
}

/// One text joined is that text; two lists joined are each joined, with the
/// separator once between them.
pub proof fn joining_puts_the_separator_between(
    one: Seq<char>,
    a: Seq<Seq<char>>,
    b: Seq<Seq<char>>,
    sep: Seq<char>,
)
    requires
        a.len() > 0,
        b.len() > 0,
    ensures
        joined(seq![one], sep) == one,
        joined(a + b, sep) == joined(a, sep) + sep + joined(b, sep),
    decreases b.len(),
{
    assert((a + b).drop_last() =~= a + b.drop_last());
    assert((a + b).last() == b.last());
    if b.len() == 1 {
        assert(a + b.drop_last() =~= a);
    } else {
        joining_puts_the_separator_between(one, a, b.drop_last(), sep);
        assert(joined(a + b, sep) =~= joined(a, sep) + sep + joined(b, sep));
    }
}

/// A number is written digit by digit: the digit `k` places from the right is the
/// one that the number has there, and only zero itself begins with a zero.
pub proof fn a_number_is_written_digit_by_digit(n: nat, k: nat)
    requires
        k < decimal(n).len(),
    ensures
        decimal(n)[decimal(n).len() - 1 - k] as int - '0' as int == (n as int / pow(10, k)) % 10,
        n > 0 ==> decimal(n)[0] != '0',
        (n as int) < pow(10, decimal(n).len()),
    decreases n,
{
    reveal_strlit("0");
    reveal_strlit("1");
    reveal_strlit("2");
    reveal_strlit("3");
    reveal_strlit("4");
    reveal_strlit("5");
    reveal_strlit("6");
    reveal_strlit("7");
    reveal_strlit("8");
    reveal_strlit("9");
    reveal(pow);
    vstd::arithmetic::power::lemma_pow0(10);
    if n < 10 {
        vstd::arithmetic::power::lemma_pow1(10);
        assert(n as int / 1 == n);
    } else {
        let m = n / 10;
        let w = decimal(m);
        assert(w.len() > 0) by {
            if m < 10 {
            } else {
            }
        }
        assert(decimal(n) == w + digit(n % 10));
        assert(digit(n % 10).len() == 1);
        a_number_is_written_digit_by_digit(m, (w.len() - 1) as nat);
        assert(pow(10, decimal(n).len()) == 10 * pow(10, w.len()));
        assert(decimal(n)[0] == w[0]);
        if k == 0 {
            assert(n as int / 1 == n);
        } else {
            let j = (k - 1) as nat;
            a_number_is_written_digit_by_digit(m, j);
            assert(pow(10, k) == 10 * pow(10, j));
            vstd::arithmetic::power::lemma_pow_positive(10, j);
            vstd::arithmetic::div_mod::lemma_div_denominator(n as int, 10, pow(10, j));
            assert(decimal(n)[decimal(n).len() - 1 - k] == w[w.len() - 1 - j]);
        }
    }
}

/// A zero in front changes no number, nor does a plus sign; a text with anything
/// but digits behind the sign is no number, and neither is the sign alone.
pub proof fn a_sign_and_leading_zeros_change_nothing(s: Seq<char>)
    ensures
        s.len() > 0 && s[0] != '+' ==> whole_number(seq!['0'] + s) == whole_number(s),
        s.len() > 0 && s[0] != '+' ==> whole_number(seq!['+'] + s) == whole_number(s),
        whole_number(seq!['+']) is None,
        whole_number(Seq::empty()) is None,
        (exists|k: int|
            0 <= k < s.len() && !('0' <= #[trigger] s[k] <= '9') && (k > 0 || s[k] != '+'))
            ==> whole_number(s) is None,
{
    assert((seq!['+'] + s).drop_first() =~= s);
    assert(seq!['+'].drop_first() =~= Seq::empty());
    lemma_leading_zero(s);
    let z = seq!['0'] + s;
    if s.len() > 0 && s[0] != '+' {
        if forall|k: int| 0 <= k < s.len() ==> is_digit(#[trigger] s[k]) {
            assert forall|k: int| 0 <= k < z.len() implies is_digit(#[trigger] z[k]) by {
                if k > 0 {
                    assert(z[k] == s[k - 1]);
                }
            }
        } else {
            let k = choose|k: int| 0 <= k < s.len() && !is_digit(#[trigger] s[k]);
            assert(!is_digit(z[k + 1]));
        }
    }
    if exists|k: int|
        0 <= k < s.len() && !('0' <= #[trigger] s[k] <= '9') && (k > 0 || s[k] != '+') {
        let k = choose|k: int|
            0 <= k < s.len() && !('0' <= #[trigger] s[k] <= '9') && (k > 0 || s[k] != '+');
        if s[0] == '+' {
            assert(!is_digit(s.drop_first()[k - 1]));
        } else {
            assert(!is_digit(s[k]));
        }
    }
}

proof fn lemma_leading_zero(s: Seq<char>)
    ensures
        digits_value(seq!['0'] + s) == digits_value(s),
    decreases s.len(),
{
    if s.len() > 0 {
        lemma_leading_zero(s.drop_last());
        assert((seq!['0'] + s).drop_last() =~= seq!['0'] + s.drop_last());
    } else {
        assert((seq!['0'] + s).drop_last() =~= s);
    }
}

/// A text of fewer than two bytes is one whose UTF-8 form has fewer than two.
pub proof fn two_bytes_are_counted_in_utf8(s: Seq<char>)
    ensures
        under_two_bytes(s) <==> encode_utf8(s).len() < 2,
    decreases s.len(),
{
    if s.len() > 0 {
        let t = s.drop_first();
        assert(encode_utf8(s) == encode_scalar(s[0] as u32) + encode_utf8(t));
        if t.len() > 0 {
            assert(encode_utf8(t) == encode_scalar(t[0] as u32) + encode_utf8(t.drop_first()));
        }
    }
}

/// A text occurs in another one exactly if the other one is that text with
/// something, or nothing, before and behind it.
pub proof fn what_occurs_stands_between(needle: Seq<char>, hay: Seq<char>)
    ensures
        occurs_in(needle, hay) <==> exists|before: Seq<char>, behind: Seq<char>|
            hay == #[trigger] (before + needle + behind),
{
    if occurs_in(needle, hay) {
        let i = choose|i: int|
            0 <= i <= hay.len() - needle.len() && #[trigger] hay.subrange(i, i + needle.len())
                == needle;
        let before = hay.take(i);
        let behind = hay.skip(i + needle.len());
        assert(hay.take(i) + hay.subrange(i, i + needle.len()) + behind =~= hay);
        assert(hay == before + needle + behind);
    }
    if exists|before: Seq<char>, behind: Seq<char>| hay == #[trigger] (before + needle + behind) {
        let (before, behind) = choose|before: Seq<char>, behind: Seq<char>|
            hay == #[trigger] (before + needle + behind);
        let i = before.len() as int;
        assert(hay.subrange(i, i + needle.len()) =~= needle);
    }
}

/// White space is these characters and no others: the tab, the line feed and the
/// three after it, the space, the next line, the no-break space, and the spaces and
/// separators of the other scripts.
pub proof fn white_space_is_these_characters(c: char)
    ensures
        white(c) <==> seq![
            0x09u32,
            0x0au32,
            0x0bu32,
            0x0cu32,
            0x0du32,
            0x20u32,
            0x85u32,
            0xa0u32,
            0x1680u32,
            0x2000u32,
            0x2001u32,
            0x2002u32,
            0x2003u32,
            0x2004u32,
            0x2005u32,
            0x2006u32,
            0x2007u32,
            0x2008u32,
            0x2009u32,
            0x200au32,
            0x2028u32,
            0x2029u32,
            0x202fu32,
            0x205fu32,
            0x3000u32,
        ].contains(c as u32),
{
    let all = seq![
        0x09u32,
        0x0au32,
        0x0bu32,
        0x0cu32,
        0x0du32,
        0x20u32,
        0x85u32,
        0xa0u32,
        0x1680u32,
        0x2000u32,
        0x2001u32,
        0x2002u32,
        0x2003u32,
        0x2004u32,
        0x2005u32,
        0x2006u32,
        0x2007u32,
        0x2008u32,
        0x2009u32,
        0x200au32,
        0x2028u32,
        0x2029u32,
        0x202fu32,
        0x205fu32,
        0x3000u32,
    ];
    assert(all[0] == 0x09);
    assert(all[1] == 0x0a);
    assert(all[2] == 0x0b);
    assert(all[3] == 0x0c);
    assert(all[4] == 0x0d);
    assert(all[5] == 0x20);
    assert(all[6] == 0x85);
    assert(all[7] == 0xa0);
    assert(all[8] == 0x1680);
    assert(all[9] == 0x2000);
    assert(all[10] == 0x2001);
    assert(all[11] == 0x2002);
    assert(all[12] == 0x2003);
    assert(all[13] == 0x2004);
    assert(all[14] == 0x2005);
    assert(all[15] == 0x2006);
    assert(all[16] == 0x2007);
    assert(all[17] == 0x2008);
    assert(all[18] == 0x2009);
    assert(all[19] == 0x200a);
    assert(all[20] == 0x2028);
    assert(all[21] == 0x2029);
    assert(all[22] == 0x202f);
    assert(all[23] == 0x205f);
    assert(all[24] == 0x3000);
    if all.contains(c as u32) {
        let k = choose|k: int| 0 <= k < all.len() && all[k] == c as u32;
        assert(all[k] == c as u32);
    }
}

/// Every number of sixty-four bits is read as itself, and none that is greater is
/// read at all.
pub proof fn numbers_fit_sixty_four_bits(n: nat, s: Seq<char>)
    ensures
        n <= 18_446_744_073_709_551_615 ==> fitting_number(decimal(n)) == Some(n),
        n > 18_446_744_073_709_551_615 ==> fitting_number(decimal(n)) is None,
        fitting_number(s) matches Some(v) ==> whole_number(s) == Some(v),
        whole_number(s) matches Some(v) ==> (v <= 18_446_744_073_709_551_615 ==> fitting_number(s)
            == Some(v)),
{
    a_written_number_reads_back(n);
}

} // verus!
