//! Character-level text helpers shared by the message, locator and metadata
//! parsers of this crate. Strings are modelled by their `Seq<char>` views.
use vstd::prelude::*;

verus! {

broadcast use vstd::string::group_string_axioms;

// ---------------------------------------------------------------------------
// Specifications
// ---------------------------------------------------------------------------

/// ASCII case folding of one character; every other character is unchanged.
pub open spec fn ascii_lower_char(c: char) -> char {
    if 'A' <= c && c <= 'Z' {
        ((c as u32) + 32) as char
    } else {
        c
    }
}

/// ASCII case folding of a whole text, as `str::to_ascii_lowercase` does.
pub open spec fn ascii_lower(s: Seq<char>) -> Seq<char> {
    s.map_values(|c: char| ascii_lower_char(c))
}

/// `needle` occurs in `hay` starting at position `i`.
pub open spec fn occurs_at(hay: Seq<char>, needle: Seq<char>, i: int) -> bool {
    0 <= i && i + needle.len() <= hay.len() && hay.subrange(i, i + needle.len()) == needle
}

/// `needle` occurs somewhere in `hay` (the empty needle occurs everywhere).
pub open spec fn contains_seq(hay: Seq<char>, needle: Seq<char>) -> bool {
    exists|i: int| occurs_at(hay, needle, i)
}

/// Unicode `White_Space`, the set `char::is_whitespace` tests.
pub open spec fn is_whitespace_char(c: char) -> bool {
    ||| c == ' '
    ||| ('\t' <= c && c <= '\r')
    ||| c == '\u{85}'
    ||| c == '\u{a0}'
    ||| c == '\u{1680}'
    ||| ('\u{2000}' <= c && c <= '\u{200a}')
    ||| c == '\u{2028}'
    ||| c == '\u{2029}'
    ||| c == '\u{202f}'
    ||| c == '\u{205f}'
    ||| c == '\u{3000}'
}

/// Number of leading whitespace characters.
pub open spec fn leading_ws(s: Seq<char>) -> nat
    decreases s.len(),
{
    if s.len() > 0 && is_whitespace_char(s[0]) {
        1 + leading_ws(s.drop_first())
    } else {
        0
    }
}

/// Number of trailing whitespace characters.
pub open spec fn trailing_ws(s: Seq<char>) -> nat
    decreases s.len(),
{
    if s.len() > 0 && is_whitespace_char(s.last()) {
        1 + trailing_ws(s.drop_last())
    } else {
        0
    }
}

/// `str::trim_start`.
pub open spec fn trim_start(s: Seq<char>) -> Seq<char> {
    s.subrange(leading_ws(s) as int, s.len() as int)
}

/// `str::trim_end`.
pub open spec fn trim_end(s: Seq<char>) -> Seq<char> {
    s.subrange(0, s.len() - trailing_ws(s))
}

/// `str::trim`: leading and trailing whitespace removed.
pub open spec fn trim(s: Seq<char>) -> Seq<char> {
    trim_end(trim_start(s))
}

/// The ASCII digit for `d < 10`.
pub open spec fn digit_char(d: nat) -> char {
    (('0' as u32) + d) as char
}

/// Shortest decimal spelling of `n`.
pub open spec fn decimal(n: nat) -> Seq<char>
    decreases n,
{
    if n < 10 {
        seq![digit_char(n)]
    } else {
        decimal(n / 10).push(digit_char(n % 10))
    }
}

/// Decimal spelling of a signed integer, with a leading `-` when negative.
pub open spec fn signed_decimal(n: int) -> Seq<char> {
    if n < 0 {
        seq!['-'] + decimal((-n) as nat)
    } else {
        decimal(n as nat)
    }
}

pub open spec fn is_digit(c: char) -> bool {
    '0' <= c && c <= '9'
}

pub open spec fn digit_value(c: char) -> nat {
    ((c as u32) - ('0' as u32)) as nat
}

/// Value of a run of decimal digits, most significant first.
pub open spec fn digits_value(s: Seq<char>) -> nat
    decreases s.len(),
{
    if s.len() == 0 {
        0
    } else {
        digits_value(s.drop_last()) * 10 + digit_value(s.last())
    }
}

pub open spec fn all_digits(s: Seq<char>) -> bool {
    forall|i: int| 0 <= i < s.len() ==> is_digit(#[trigger] s[i])
}

/// The digit run of an unsigned number: the text after an optional `+`.
pub open spec fn unsigned_digits(s: Seq<char>) -> Seq<char> {
    if s.len() > 0 && s[0] == '+' {
        s.drop_first()
    } else {
        s
    }
}

/// What `u64::from_str` accepts: an optional `+`, then one or more ASCII
/// digits whose value fits in 64 bits.
pub open spec fn parse_u64(s: Seq<char>) -> Option<u64> {
    let digits = unsigned_digits(s);
    if digits.len() > 0 && all_digits(digits) && digits_value(digits) <= u64::MAX {
        Some(digits_value(digits) as u64)
    } else {
        None
    }
}

// ---------------------------------------------------------------------------
// Trusted conversions from std
// ---------------------------------------------------------------------------

/// Collects characters into a `String` (`Iterator::collect::<String>` over
/// `chars`); the documented result holds exactly those characters in order.
#[verifier::external_body]
pub(crate) fn string_from_chars(chars: &[char]) -> (s: String)
    ensures
        s@ == chars@,
{
    chars.iter().collect()
}

// ---------------------------------------------------------------------------
// Verified helpers
// ---------------------------------------------------------------------------

/// The characters of `s`, in order.
pub fn str_chars(s: &str) -> (chars: Vec<char>)
    ensures
        chars@ == s@,
{
    let mut chars: Vec<char> = Vec::new();
    for c in it: s.chars()
        invariant
            chars@ == it.seq().take(it.index() as int),
            it.seq() == s@,
    {
        chars.push(c);
    }
    chars
}

/// A copy of `s` as an owned `String`.
pub fn owned(s: &str) -> (r: String)
    ensures
        r@ == s@,
{
    let chars = str_chars(s);
    string_from_chars(chars.as_slice())
}

/// Character-wise equality of two texts.
pub fn chars_eq(a: &[char], b: &[char]) -> (eq: bool)
    ensures
        eq == (a@ == b@),
{
    if a.len() != b.len() {
        return false;
    }
    let mut i: usize = 0;
    while i < a.len()
        invariant
            a@.len() == b@.len(),
            i <= a@.len(),
            forall|j: int| 0 <= j < i ==> a@[j] == b@[j],
        decreases a@.len() - i,
    {
        if a[i] != b[i] {
            return false;
        }
        i = i + 1;
    }
    assert(a@ =~= b@);
    true
}

/// Equality of two string slices by their characters.
pub fn str_eq(a: &str, b: &str) -> (eq: bool)
    ensures
        eq == (a@ == b@),
{
    let ca = str_chars(a);
    let cb = str_chars(b);
    chars_eq(ca.as_slice(), cb.as_slice())
}

/// ASCII case folding of one character.
pub fn lower_char(c: char) -> (r: char)
    ensures
        r == ascii_lower_char(c),
{
    if 'A' <= c && c <= 'Z' {
        let code: u32 = c as u32;
        let lowered: u8 = (code + 32) as u8;
        assert(lowered as u32 == code + 32);
        lowered as char
    } else {
        c
    }
}

/// ASCII case folding of a text.
pub fn lower_chars(s: &[char]) -> (r: Vec<char>)
    ensures
        r@ == ascii_lower(s@),
{
    let mut r: Vec<char> = Vec::new();
    let mut i: usize = 0;
    while i < s.len()
        invariant
            i <= s@.len(),
            r@ == ascii_lower(s@.take(i as int)),
        decreases s@.len() - i,
    {
        let c = lower_char(s[i]);
        r.push(c);
        i = i + 1;
        assert(ascii_lower(s@.take(i as int)) =~= ascii_lower(s@.take(i - 1)).push(c));
    }
    assert(s@.take(s@.len() as int) =~= s@);
    r
}

/// Whether `needle` occurs in `hay` at position `i`.
pub fn chars_occur_at(hay: &[char], needle: &[char], i: usize) -> (b: bool)
    ensures
        b == occurs_at(hay@, needle@, i as int),
{
    if i > hay.len() || needle.len() > hay.len() - i {
        return false;
    }
    let mut j: usize = 0;
    while j < needle.len()
        invariant
            i + needle@.len() <= hay@.len(),
            hay@.len() <= usize::MAX,
            j <= needle@.len(),
            forall|k: int| 0 <= k < j ==> hay@[i + k] == needle@[k],
        decreases needle@.len() - j,
    {
        if hay[i + j] != needle[j] {
            assert(hay@.subrange(i as int, i + needle@.len())[j as int] != needle@[j as int]);
            return false;
        }
        j = j + 1;
    }
    assert(hay@.subrange(i as int, i + needle@.len()) =~= needle@);
    true
}

/// Whether `needle` occurs anywhere in `hay`.
pub fn chars_contain(hay: &[char], needle: &[char]) -> (b: bool)
    ensures
        b == contains_seq(hay@, needle@),
{
    if needle.len() > hay.len() {
        return false;
    }
    let last = hay.len() - needle.len();
    let mut i: usize = 0;
    loop
        invariant
            last == hay@.len() - needle@.len(),
            i <= last,
            forall|k: int| 0 <= k < i ==> !occurs_at(hay@, needle@, k),
        ensures
            forall|k: int| 0 <= k <= last ==> !occurs_at(hay@, needle@, k),
        decreases last - i,
    {
        if chars_occur_at(hay, needle, i) {
            return true;
        }
        if i == last {
            break;
        }
        i = i + 1;
    }
    assert forall|k: int| !occurs_at(hay@, needle@, k) by {
        if 0 <= k <= last {
        }
    }
    false
}

/// Whether `c` is Unicode whitespace.
pub fn is_whitespace(c: char) -> (b: bool)
    ensures
        b == is_whitespace_char(c),
{
    c == ' ' || ('\t' <= c && c <= '\r') || c == '\u{85}' || c == '\u{a0}' || c == '\u{1680}'
        || ('\u{2000}' <= c && c <= '\u{200a}') || c == '\u{2028}' || c == '\u{2029}'
        || c == '\u{202f}' || c == '\u{205f}' || c == '\u{3000}'
}

proof fn lemma_leading_ws(s: Seq<char>, p: int)
    requires
        0 <= p <= s.len(),
        forall|k: int| 0 <= k < p ==> is_whitespace_char(#[trigger] s[k]),
        p == s.len() || !is_whitespace_char(s[p]),
    ensures
        leading_ws(s) == p,
    decreases p,
{
    if p > 0 {
        let t = s.drop_first();
        assert forall|k: int| 0 <= k < p - 1 implies is_whitespace_char(#[trigger] t[k]) by {
            assert(t[k] == s[k + 1]);
        }
        if p < s.len() {
            assert(t[p - 1] == s[p]);
        }
        lemma_leading_ws(t, p - 1);
    }
}

proof fn lemma_trailing_ws(s: Seq<char>, p: int)
    requires
        0 <= p <= s.len(),
        forall|k: int| p <= k < s.len() ==> is_whitespace_char(#[trigger] s[k]),
        p == 0 || !is_whitespace_char(s[p - 1]),
    ensures
        trailing_ws(s) == s.len() - p,
    decreases s.len(),
{
    if p < s.len() {
        let t = s.drop_last();
        assert(is_whitespace_char(s[s.len() - 1]));
        assert forall|k: int| p <= k < t.len() implies is_whitespace_char(#[trigger] t[k]) by {
            assert(t[k] == s[k]);
        }
        if p > 0 {
            assert(t[p - 1] == s[p - 1]);
        }
        lemma_trailing_ws(t, p);
    }
}

/// Bounds `(start, end)` of `trim(s)` inside `s`.
pub fn trim_bounds(s: &[char]) -> (r: (usize, usize))
    ensures
        r.0 <= r.1 <= s@.len(),
        s@.subrange(r.0 as int, r.1 as int) == trim(s@),
{
    let n = s.len();
    let mut start: usize = 0;
    while start < n && is_whitespace(s[start])
        invariant
            n == s@.len(),
            start <= n,
            forall|k: int| 0 <= k < start ==> is_whitespace_char(#[trigger] s@[k]),
        decreases n - start,
    {
        start = start + 1;
    }
    proof {
        lemma_leading_ws(s@, start as int);
    }
    let ghost t = s@.subrange(start as int, n as int);
    assert(t == trim_start(s@));
    let mut end: usize = n;
    while end > start && is_whitespace(s[end - 1])
        invariant
            n == s@.len(),
            start <= end <= n,
            t == s@.subrange(start as int, n as int),
            forall|k: int| end <= k < n ==> is_whitespace_char(#[trigger] s@[k]),
        decreases end - start,
    {
        end = end - 1;
    }
    proof {
        assert forall|k: int| end - start <= k < t.len() implies is_whitespace_char(#[trigger] t[k]) by {
            assert(t[k] == s@[k + start]);
        }
        if end > start {
            assert(t[end - start - 1] == s@[end - 1]);
        }
        lemma_trailing_ws(t, end - start);
    }
    assert(s@.subrange(start as int, end as int) =~= trim_end(t));
    (start, end)
}

/// Appends the decimal spelling of `n` to `out`.
pub fn push_decimal(out: &mut Vec<char>, n: u64)
    ensures
        final(out)@ == old(out)@ + decimal(n as nat),
    decreases n,
{
    if n >= 10 {
        push_decimal(out, n / 10);
    }
    let d: u64 = n % 10;
    let c: char = ((d as u8) + 48) as char;
    assert(c == digit_char(d as nat));
    out.push(c);
    proof {
        let m = n as nat;
        if m >= 10 {
            assert(decimal(m) == decimal(m / 10).push(digit_char(m % 10)));
        }
    }
    assert(out@ =~= old(out)@ + decimal(n as nat));
}

/// Decimal spelling of an unsigned integer.
pub fn decimal_string(n: u64) -> (s: String)
    ensures
        s@ == decimal(n as nat),
{
    let mut out: Vec<char> = Vec::new();
    push_decimal(&mut out, n);
    assert(out@ =~= decimal(n as nat));
    string_from_chars(out.as_slice())
}

/// Appends the characters of `s` to `out`.
pub fn push_str(out: &mut Vec<char>, s: &str)
    ensures
        final(out)@ == old(out)@ + s@,
{
    let chars = str_chars(s);
    let mut i: usize = 0;
    while i < chars.len()
        invariant
            i <= chars@.len(),
            chars@ == s@,
            out@ == old(out)@ + chars@.take(i as int),
        decreases chars@.len() - i,
    {
        out.push(chars[i]);
        i = i + 1;
        assert(out@ =~= old(out)@ + chars@.take(i as int));
    }
    assert(chars@.take(chars@.len() as int) =~= chars@);
}

/// Appends the decimal spelling of a signed integer to `out`.
pub fn push_signed_decimal(out: &mut Vec<char>, n: i64)
    ensures
        final(out)@ == old(out)@ + signed_decimal(n as int),
{
    if n < 0 {
        out.push('-');
        let magnitude: u64 = if n == i64::MIN {
            9223372036854775808u64
        } else {
            (-n) as u64
        };
        push_decimal(out, magnitude);
        assert(out@ =~= old(out)@ + signed_decimal(n as int));
    } else {
        push_decimal(out, n as u64);
    }
}

/// Parses a run of characters as `u64::from_str` does.
pub fn parse_u64_chars(s: &[char]) -> (r: Option<u64>)
    ensures
        r == parse_u64(s@),
{
    let start: usize = if s.len() > 0 && s[0] == '+' { 1 } else { 0 };
    let ghost digits = unsigned_digits(s@);
    assert(digits =~= s@.subrange(start as int, s@.len() as int));
    if start >= s.len() {
        return None;
    }
    let mut value: u64 = 0;
    let mut i: usize = start;
    while i < s.len()
        invariant
            start <= i <= s@.len(),
            digits == unsigned_digits(s@),
            digits == s@.subrange(start as int, s@.len() as int),
            all_digits(s@.subrange(start as int, i as int)),
            value == digits_value(s@.subrange(start as int, i as int)),
        decreases s@.len() - i,
    {
        let c = s[i];
        if !('0' <= c && c <= '9') {
            proof {
                assert(digits[i - start] == c);
                assert(!is_digit(digits[i - start]));
                assert(!all_digits(digits));
                assert(parse_u64(s@) is None);
            }
            return None;
        }
        let d: u64 = ((c as u32) - 48) as u64;
        let ghost prefix = s@.subrange(start as int, i as int);
        let ghost next = s@.subrange(start as int, i + 1);
        assert(next.drop_last() =~= prefix);
        assert(next.last() == c);
        if value > 1844674407370955161 || (value == 1844674407370955161 && d > 5) {
            proof {
                assert(digits_value(next) == value * 10 + d);
                assert(next =~= digits.subrange(0, i + 1 - start));
                lemma_digits_value_grows(digits, (i + 1 - start) as int);
                assert(digits_value(digits) > u64::MAX);
                assert(parse_u64(s@) is None);
            }
            return None;
        }
        value = value * 10 + d;
        i = i + 1;
    }
    assert(s@.subrange(start as int, s@.len() as int) == digits);
    Some(value)
}

/// A run of digits is worth at least any prefix of it.
proof fn lemma_digits_value_grows(s: Seq<char>, k: int)
    requires
        0 <= k <= s.len(),
    ensures
        digits_value(s) >= digits_value(s.subrange(0, k)),
    decreases s.len(),
{
    if s.len() > k {
        lemma_digits_value_grows(s.drop_last(), k);
        assert(s.drop_last().subrange(0, k) =~= s.subrange(0, k));
        assert(digits_value(s) == digits_value(s.drop_last()) * 10 + digit_value(s.last()));
    } else {
        assert(s.subrange(0, k) =~= s);
    }
}

/// A copy of `s[start..end]`.
pub fn chars_slice(s: &[char], start: usize, end: usize) -> (r: Vec<char>)
    requires
        start <= end <= s@.len(),
    ensures
        r@ == s@.subrange(start as int, end as int),
{
    let mut r: Vec<char> = Vec::new();
    let mut i: usize = start;
    while i < end
        invariant
            start <= i <= end,
            end <= s@.len(),
            r@ == s@.subrange(start as int, i as int),
        decreases end - i,
    {
        r.push(s[i]);
        i = i + 1;
        assert(r@ =~= s@.subrange(start as int, i as int));
    }
    r
}

/// Reading a decimal spelling back gives the number.
pub proof fn lemma_decimal_value(n: nat)
    ensures
        digits_value(decimal(n)) == n,
    decreases n,
{
    if n < 10 {
        let c = digit_char(n);
        assert(c as u32 == 48 + n);
        assert(digit_value(c) == n);
        assert(seq![c].drop_last() =~= Seq::<char>::empty());
        assert(seq![c].last() == c);
        assert(digits_value(seq![c]) == digits_value(Seq::<char>::empty()) * 10 + digit_value(c));
    } else {
        lemma_decimal_value(n / 10);
        let c = digit_char(n % 10);
        assert(c as u32 == 48 + n % 10);
        assert(digit_value(c) == n % 10);
        let d = decimal(n);
        assert(d == decimal(n / 10).push(c));
        assert(d.drop_last() =~= decimal(n / 10));
        assert(d.last() == c);
        assert(digits_value(d) == digits_value(d.drop_last()) * 10 + digit_value(d.last()));
        assert((n / 10) * 10 + n % 10 == n) by (nonlinear_arith);
    }
}

/// Different numbers have different decimal spellings.
pub proof fn lemma_decimal_injective(a: nat, b: nat)
    ensures
        decimal(a) == decimal(b) ==> a == b,
{
    lemma_decimal_value(a);
    lemma_decimal_value(b);
}

/// Tokens finished so far and the token being read, splitting at
/// whitespace.
pub open spec fn scan_tokens(s: Seq<char>) -> (Seq<Seq<char>>, Seq<char>)
    decreases s.len(),
{
    if s.len() == 0 {
        (Seq::empty(), Seq::empty())
    } else {
        let (done, current) = scan_tokens(s.drop_last());
        if is_whitespace_char(s.last()) {
            (if current.len() > 0 {
                done.push(current)
            } else {
                done
            }, Seq::empty())
        } else {
            (done, current.push(s.last()))
        }
    }
}

/// `str::split_whitespace`: the non-empty runs between whitespace.
pub open spec fn whitespace_tokens(s: Seq<char>) -> Seq<Seq<char>> {
    let (done, current) = scan_tokens(s);
    if current.len() > 0 {
        done.push(current)
    } else {
        done
    }
}

/// Splits at whitespace, dropping empty tokens.
pub fn split_whitespace_chars(s: &[char]) -> (tokens: Vec<Vec<char>>)
    ensures
        tokens@.map_values(|t: Vec<char>| t@) == whitespace_tokens(s@),
{
    let mut tokens: Vec<Vec<char>> = Vec::new();
    let mut current: Vec<char> = Vec::new();
    let mut i: usize = 0;
    while i < s.len()
        invariant
            i <= s@.len(),
            (tokens@.map_values(|t: Vec<char>| t@), current@) == scan_tokens(s@.take(i as int)),
        decreases s@.len() - i,
    {
        let c = s[i];
        let ghost prefix = s@.take(i as int);
        assert(s@.take(i + 1).drop_last() =~= prefix);
        assert(s@.take(i + 1).last() == c);
        if is_whitespace(c) {
            if current.len() > 0 {
                let ghost before = tokens@.map_values(|t: Vec<char>| t@);
                let finished = current;
                tokens.push(finished);
                assert(tokens@.map_values(|t: Vec<char>| t@) =~= before.push(
                    scan_tokens(prefix).1,
                ));
            }
            current = Vec::new();
            assert(current@ =~= Seq::<char>::empty());
        } else {
            current.push(c);
        }
        i = i + 1;
    }
    assert(s@.take(s@.len() as int) =~= s@);
    if current.len() > 0 {
        let ghost before = tokens@.map_values(|t: Vec<char>| t@);
        tokens.push(current);
        assert(tokens@.map_values(|t: Vec<char>| t@) =~= before.push(scan_tokens(s@).1));
    }
    tokens
}

/// Fields finished so far and the field being read, splitting at `sep`.
pub open spec fn scan_fields(s: Seq<char>, sep: char) -> (Seq<Seq<char>>, Seq<char>)
    decreases s.len(),
{
    if s.len() == 0 {
        (Seq::empty(), Seq::empty())
    } else {
        let (done, current) = scan_fields(s.drop_last(), sep);
        if s.last() == sep {
            (done.push(current), Seq::empty())
        } else {
            (done, current.push(s.last()))
        }
    }
}

/// `str::split(sep)`: every field between separators, empty ones included.
pub open spec fn split_fields(s: Seq<char>, sep: char) -> Seq<Seq<char>> {
    let (done, current) = scan_fields(s, sep);
    done.push(current)
}

/// Splits at every `sep`.
pub fn split_chars(s: &[char], sep: char) -> (fields: Vec<Vec<char>>)
    ensures
        fields@.map_values(|t: Vec<char>| t@) == split_fields(s@, sep),
{
    let mut fields: Vec<Vec<char>> = Vec::new();
    let mut current: Vec<char> = Vec::new();
    let mut i: usize = 0;
    while i < s.len()
        invariant
            i <= s@.len(),
            (fields@.map_values(|t: Vec<char>| t@), current@) == scan_fields(s@.take(i as int), sep),
        decreases s@.len() - i,
    {
        let c = s[i];
        let ghost prefix = s@.take(i as int);
        assert(s@.take(i + 1).drop_last() =~= prefix);
        assert(s@.take(i + 1).last() == c);
        if c == sep {
            let ghost before = fields@.map_values(|t: Vec<char>| t@);
            let finished = current;
            fields.push(finished);
            assert(fields@.map_values(|t: Vec<char>| t@) =~= before.push(
                scan_fields(prefix, sep).1,
            ));
            current = Vec::new();
            assert(current@ =~= Seq::<char>::empty());
        } else {
            current.push(c);
        }
        i = i + 1;
    }
    assert(s@.take(s@.len() as int) =~= s@);
    let ghost before = fields@.map_values(|t: Vec<char>| t@);
    fields.push(current);
    assert(fields@.map_values(|t: Vec<char>| t@) =~= before.push(scan_fields(s@, sep).1));
    fields
}

/// Position of the first `c` in `s`.
pub open spec fn first_index_of(s: Seq<char>, c: char) -> Option<int>
    decreases s.len(),
{
    if s.len() == 0 {
        None
    } else {
        match first_index_of(s.drop_last(), c) {
            Some(i) => Some(i),
            None => if s.last() == c {
                Some(s.len() - 1)
            } else {
                None
            },
        }
    }
}

proof fn lemma_first_index_of(s: Seq<char>, c: char, k: int)
    requires
        0 <= k <= s.len(),
        forall|m: int| 0 <= m < k ==> s[m] != c,
    ensures
        first_index_of(s.take(k), c) is None,
    decreases k,
{
    if k > 0 {
        assert(s.take(k).drop_last() =~= s.take(k - 1));
        lemma_first_index_of(s, c, k - 1);
    }
}

/// Where the first `c` of `s` stands.
pub fn find_char(s: &[char], c: char) -> (r: Option<usize>)
    ensures
        match first_index_of(s@, c) {
            Some(i) => r matches Some(j) && j == i,
            None => r is None,
        },
        r matches Some(j) ==> j < s@.len(),
{
    let mut i: usize = 0;
    while i < s.len()
        invariant
            i <= s@.len(),
            forall|m: int| 0 <= m < i ==> s@[m] != c,
        decreases s@.len() - i,
    {
        if s[i] == c {
            proof {
                lemma_first_index_of(s@, c, i as int);
                assert(s@.take(i + 1).drop_last() =~= s@.take(i as int));
                lemma_first_index_prefix(s@, c, i + 1);
            }
            return Some(i);
        }
        i = i + 1;
    }
    proof {
        lemma_first_index_of(s@, c, s@.len() as int);
        assert(s@.take(s@.len() as int) =~= s@);
    }
    None
}

/// The first `c` of a prefix that holds one is the first of the whole.
proof fn lemma_first_index_prefix(s: Seq<char>, c: char, k: int)
    requires
        0 <= k <= s.len(),
        first_index_of(s.take(k), c) is Some,
    ensures
        first_index_of(s, c) == first_index_of(s.take(k), c),
    decreases s.len() - k,
{
    if k < s.len() {
        assert(s.take(k + 1).drop_last() =~= s.take(k));
        lemma_first_index_prefix(s, c, k + 1);
    } else {
        assert(s.take(k) =~= s);
    }
}

/// `s` ends with `suffix`.
pub open spec fn ends_with(s: Seq<char>, suffix: Seq<char>) -> bool {
    suffix.len() <= s.len() && s.subrange(s.len() - suffix.len(), s.len() as int) == suffix
}

/// Whether `s` ends with `suffix`.
pub fn chars_end_with(s: &[char], suffix: &[char]) -> (b: bool)
    ensures
        b == ends_with(s@, suffix@),
{
    if suffix.len() > s.len() {
        return false;
    }
    let start = s.len() - suffix.len();
    let b = chars_occur_at(s, suffix, start);
    assert(occurs_at(s@, suffix@, start as int) == ends_with(s@, suffix@));
    b
}

} // verus!
