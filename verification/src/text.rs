//! Character-level helpers shared by the parsers: character classes,
//! decimal numbers, and conversions between strings and character vectors.
use vstd::prelude::*;

verus! {

/// The Unicode `White_Space` property (the set matched by `\s` and by
/// `char::is_whitespace`).
pub open spec fn is_white_space(c: char) -> bool {
    let u = c as u32;
    ||| 0x9 <= u <= 0xd
    ||| u == 0x20
    ||| u == 0x85
    ||| u == 0xa0
    ||| u == 0x1680
    ||| 0x2000 <= u <= 0x200a
    ||| u == 0x2028
    ||| u == 0x2029
    ||| u == 0x202f
    ||| u == 0x205f
    ||| u == 0x3000
}

/// Decides the Unicode `White_Space` property.
pub fn white_space(c: char) -> (r: bool)
    ensures
        r == is_white_space(c),
{
    let u = c as u32;
    (0x9 <= u && u <= 0xd) || u == 0x20 || u == 0x85 || u == 0xa0 || u == 0x1680 || (0x2000 <= u
        && u <= 0x200a) || u == 0x2028 || u == 0x2029 || u == 0x202f || u == 0x205f || u == 0x3000
}

/// The Unicode general category `Nd` (decimal numbers, Unicode 16.0), the
/// set matched by the regular-expression class `\d`.
pub open spec fn is_decimal_number(c: char) -> bool {
    let u = c as u32;
    ||| 0x30 <= u <= 0x39
    ||| 0x660 <= u <= 0x669
    ||| 0x6f0 <= u <= 0x6f9
    ||| 0x7c0 <= u <= 0x7c9
    ||| 0x966 <= u <= 0x96f
    ||| 0x9e6 <= u <= 0x9ef
    ||| 0xa66 <= u <= 0xa6f
    ||| 0xae6 <= u <= 0xaef
    ||| 0xb66 <= u <= 0xb6f
    ||| 0xbe6 <= u <= 0xbef
    ||| 0xc66 <= u <= 0xc6f
    ||| 0xce6 <= u <= 0xcef
    ||| 0xd66 <= u <= 0xd6f
    ||| 0xde6 <= u <= 0xdef
    ||| 0xe50 <= u <= 0xe59
    ||| 0xed0 <= u <= 0xed9
    ||| 0xf20 <= u <= 0xf29
    ||| 0x1040 <= u <= 0x1049
    ||| 0x1090 <= u <= 0x1099
    ||| 0x17e0 <= u <= 0x17e9
    ||| 0x1810 <= u <= 0x1819
    ||| 0x1946 <= u <= 0x194f
    ||| 0x19d0 <= u <= 0x19d9
    ||| 0x1a80 <= u <= 0x1a89
    ||| 0x1a90 <= u <= 0x1a99
    ||| 0x1b50 <= u <= 0x1b59
    ||| 0x1bb0 <= u <= 0x1bb9
    ||| 0x1c40 <= u <= 0x1c49
    ||| 0x1c50 <= u <= 0x1c59
    ||| 0xa620 <= u <= 0xa629
    ||| 0xa8d0 <= u <= 0xa8d9
    ||| 0xa900 <= u <= 0xa909
    ||| 0xa9d0 <= u <= 0xa9d9
    ||| 0xa9f0 <= u <= 0xa9f9
    ||| 0xaa50 <= u <= 0xaa59
    ||| 0xabf0 <= u <= 0xabf9
    ||| 0xff10 <= u <= 0xff19
    ||| 0x104a0 <= u <= 0x104a9
    ||| 0x10d30 <= u <= 0x10d39
    ||| 0x10d40 <= u <= 0x10d49
    ||| 0x11066 <= u <= 0x1106f
    ||| 0x110f0 <= u <= 0x110f9
    ||| 0x11136 <= u <= 0x1113f
    ||| 0x111d0 <= u <= 0x111d9
    ||| 0x112f0 <= u <= 0x112f9
    ||| 0x11450 <= u <= 0x11459
    ||| 0x114d0 <= u <= 0x114d9
    ||| 0x11650 <= u <= 0x11659
    ||| 0x116c0 <= u <= 0x116c9
    ||| 0x116d0 <= u <= 0x116e3
    ||| 0x11730 <= u <= 0x11739
    ||| 0x118e0 <= u <= 0x118e9
    ||| 0x11950 <= u <= 0x11959
    ||| 0x11bf0 <= u <= 0x11bf9
    ||| 0x11c50 <= u <= 0x11c59
    ||| 0x11d50 <= u <= 0x11d59
    ||| 0x11da0 <= u <= 0x11da9
    ||| 0x11f50 <= u <= 0x11f59
    ||| 0x16130 <= u <= 0x16139
    ||| 0x16a60 <= u <= 0x16a69
    ||| 0x16ac0 <= u <= 0x16ac9
    ||| 0x16b50 <= u <= 0x16b59
    ||| 0x16d70 <= u <= 0x16d79
    ||| 0x1ccf0 <= u <= 0x1ccf9
    ||| 0x1d7ce <= u <= 0x1d7ff
    ||| 0x1e140 <= u <= 0x1e149
    ||| 0x1e2f0 <= u <= 0x1e2f9
    ||| 0x1e4f0 <= u <= 0x1e4f9
    ||| 0x1e5f1 <= u <= 0x1e5fa
    ||| 0x1e950 <= u <= 0x1e959
    ||| 0x1fbf0 <= u <= 0x1fbf9
}

/// Decides the Unicode general category `Nd`.
pub fn decimal_number(c: char) -> (r: bool)
    ensures
        r == is_decimal_number(c),
{
    let u = c as u32;
    if u < 0x80 {
        return 0x30 <= u && u <= 0x39;
    }
    (0x660 <= u && u <= 0x669) || (0x6f0 <= u && u <= 0x6f9) || (0x7c0 <= u && u <= 0x7c9) || (0x966
        <= u && u <= 0x96f) || (0x9e6 <= u && u <= 0x9ef) || (0xa66 <= u && u <= 0xa6f) || (0xae6 <= u
        && u <= 0xaef) || (0xb66 <= u && u <= 0xb6f) || (0xbe6 <= u && u <= 0xbef) || (0xc66 <= u && u
        <= 0xc6f) || (0xce6 <= u && u <= 0xcef) || (0xd66 <= u && u <= 0xd6f) || (0xde6 <= u && u
        <= 0xdef) || (0xe50 <= u && u <= 0xe59) || (0xed0 <= u && u <= 0xed9) || (0xf20 <= u && u
        <= 0xf29) || (0x1040 <= u && u <= 0x1049) || (0x1090 <= u && u <= 0x1099) || (0x17e0 <= u && u
        <= 0x17e9) || (0x1810 <= u && u <= 0x1819) || (0x1946 <= u && u <= 0x194f) || (0x19d0 <= u
        && u <= 0x19d9) || (0x1a80 <= u && u <= 0x1a89) || (0x1a90 <= u && u <= 0x1a99) || (0x1b50
        <= u && u <= 0x1b59) || (0x1bb0 <= u && u <= 0x1bb9) || (0x1c40 <= u && u <= 0x1c49) || (
    0x1c50 <= u && u <= 0x1c59) || (0xa620 <= u && u <= 0xa629) || (0xa8d0 <= u && u <= 0xa8d9) || (
    0xa900 <= u && u <= 0xa909) || (0xa9d0 <= u && u <= 0xa9d9) || (0xa9f0 <= u && u <= 0xa9f9) || (
    0xaa50 <= u && u <= 0xaa59) || (0xabf0 <= u && u <= 0xabf9) || (0xff10 <= u && u <= 0xff19) || (
    0x104a0 <= u && u <= 0x104a9) || (0x10d30 <= u && u <= 0x10d39) || (0x10d40 <= u && u
        <= 0x10d49) || (0x11066 <= u && u <= 0x1106f) || (0x110f0 <= u && u <= 0x110f9) || (0x11136
        <= u && u <= 0x1113f) || (0x111d0 <= u && u <= 0x111d9) || (0x112f0 <= u && u <= 0x112f9) || (
    0x11450 <= u && u <= 0x11459) || (0x114d0 <= u && u <= 0x114d9) || (0x11650 <= u && u
        <= 0x11659) || (0x116c0 <= u && u <= 0x116c9) || (0x116d0 <= u && u <= 0x116e3) || (0x11730
        <= u && u <= 0x11739) || (0x118e0 <= u && u <= 0x118e9) || (0x11950 <= u && u <= 0x11959) || (
    0x11bf0 <= u && u <= 0x11bf9) || (0x11c50 <= u && u <= 0x11c59) || (0x11d50 <= u && u
        <= 0x11d59) || (0x11da0 <= u && u <= 0x11da9) || (0x11f50 <= u && u <= 0x11f59) || (0x16130
        <= u && u <= 0x16139) || (0x16a60 <= u && u <= 0x16a69) || (0x16ac0 <= u && u <= 0x16ac9) || (
    0x16b50 <= u && u <= 0x16b59) || (0x16d70 <= u && u <= 0x16d79) || (0x1ccf0 <= u && u
        <= 0x1ccf9) || (0x1d7ce <= u && u <= 0x1d7ff) || (0x1e140 <= u && u <= 0x1e149) || (0x1e2f0
        <= u && u <= 0x1e2f9) || (0x1e4f0 <= u && u <= 0x1e4f9) || (0x1e5f1 <= u && u <= 0x1e5fa) || (
    0x1e950 <= u && u <= 0x1e959) || (0x1fbf0 <= u && u <= 0x1fbf9)
}

pub open spec fn is_ascii_digit(c: char) -> bool {
    '0' <= c && c <= '9'
}

pub open spec fn all_ascii_digits(s: Seq<char>) -> bool {
    forall|i: int| 0 <= i < s.len() ==> is_ascii_digit(#[trigger] s[i])
}

/// The number that a string of ASCII digits denotes in base ten.
pub open spec fn digits_value(s: Seq<char>) -> nat
    decreases s.len(),
{
    if s.len() == 0 {
        0
    } else {
        digits_value(s.drop_last()) * 10 + ((s.last() as u32) - ('0' as u32)) as nat
    }
}

/// What std's `from_str` for an unsigned integer type reads from a string,
/// before the range check: an optional `+`, then one or more ASCII digits.
pub open spec fn unsigned_decimal(s: Seq<char>) -> Option<nat> {
    let d = if s.len() > 0 && s[0] == '+' {
        s.drop_first()
    } else {
        s
    };
    if d.len() > 0 && all_ascii_digits(d) {
        Some(digits_value(d))
    } else {
        None
    }
}

/// `unsigned_decimal`, kept only when the number is at most `max`.
pub open spec fn unsigned_decimal_at_most(s: Seq<char>, max: nat) -> Option<nat> {
    match unsigned_decimal(s) {
        Some(n) => if n <= max {
            Some(n)
        } else {
            None
        },
        None => None,
    }
}

/// A string of ASCII digits reads as at least the number its first part
/// reads as.
proof fn lemma_digits_value_prefix(s: Seq<char>, k: int)
    requires
        0 <= k <= s.len(),
        all_ascii_digits(s),
    ensures
        digits_value(s.subrange(0, k)) <= digits_value(s),
    decreases s.len() - k,
{
    if k < s.len() {
        lemma_digits_value_prefix(s.drop_last(), k);
        assert(s.drop_last().subrange(0, k) =~= s.subrange(0, k));
        assert(all_ascii_digits(s.drop_last())) by {
            assert forall|i: int| 0 <= i < s.drop_last().len() implies is_ascii_digit(
                #[trigger] s.drop_last()[i],
            ) by {
                assert(s.drop_last()[i] == s[i]);
            }
        }
    } else {
        assert(s.subrange(0, k) =~= s);
    }
}

/// Reads `unsigned_decimal_at_most(s, max)`, the way std's `from_str` reads
/// an unsigned integer type whose largest value is `max`.
fn parse_unsigned(s: &str, max: u64) -> (r: Option<u64>)
    requires
        max >= 9,
    ensures
        r matches Some(v) ==> unsigned_decimal_at_most(s@, max as nat) == Some(v as nat),
        r is None ==> unsigned_decimal_at_most(s@, max as nat) is None,
{
    let chars = chars_of(s);
    let n = chars.len();
    let start: usize = if n > 0 && chars[0] == '+' {
        1
    } else {
        0
    };
    let ghost d = if chars@.len() > 0 && chars@[0] == '+' {
        chars@.drop_first()
    } else {
        chars@
    };
    assert(d =~= chars@.subrange(start as int, n as int));
    if start == n {
        return None;
    }
    let mut value: u64 = 0;
    let mut i = start;
    assert(chars@.subrange(start as int, start as int) =~= Seq::<char>::empty());
    while i < n
        invariant
            start <= i <= n,
            n == chars@.len(),
            d == chars@.subrange(start as int, n as int),
            chars@ == s@,
            d == if chars@.len() > 0 && chars@[0] == '+' {
                chars@.drop_first()
            } else {
                chars@
            },
            start < n,
            all_ascii_digits(chars@.subrange(start as int, i as int)),
            value == digits_value(chars@.subrange(start as int, i as int)),
            value <= max,
            max >= 9,
        decreases n - i,
    {
        let c = chars[i];
        if !('0' <= c && c <= '9') {
            assert(!is_ascii_digit(d[i - start]));
            return None;
        }
        let digit = (c as u32 - '0' as u32) as u64;
        let ghost next = chars@.subrange(start as int, i + 1);
        assert(next.drop_last() =~= chars@.subrange(start as int, i as int));
        assert(all_ascii_digits(next)) by {
            assert forall|j: int| 0 <= j < next.len() implies is_ascii_digit(#[trigger] next[j]) by {
                if j < next.len() - 1 {
                    assert(next[j] == next.drop_last()[j]);
                }
            }
        }
        if value > (max - digit) / 10 {
            proof {
                assert(value * 10 + digit > max) by (nonlinear_arith)
                    requires
                        value > (max - digit) / 10,
                        digit <= 9,
                        max >= 9,
                ;
                if all_ascii_digits(d) {
                    assert(d.subrange(0, i + 1 - start) =~= next);
                    lemma_digits_value_prefix(d, i + 1 - start);
                }
            }
            return None;
        }
        assert(value * 10 + digit <= max) by (nonlinear_arith)
            requires
                value <= (max - digit) / 10,
                digit <= 9,
                max >= 9,
        ;
        value = value * 10 + digit;
        i = i + 1;
    }
    Some(value)
}

/// Parses a `u8` the way `str::parse::<u8>` does: std documents it as an
/// optional `+` followed only by digits, with a value that fits the type.
pub(crate) fn parse_u8(s: &str) -> (r: Option<u8>)
    ensures
        r matches Some(v) ==> unsigned_decimal_at_most(s@, 255) == Some(v as nat),
        r is None ==> unsigned_decimal_at_most(s@, 255) is None,
{
    match parse_unsigned(s, 255) {
        Some(v) => Some(v as u8),
        None => None,
    }
}

/// Parses a `u16` the way `str::parse::<u16>` does.
pub(crate) fn parse_u16(s: &str) -> (r: Option<u16>)
    ensures
        r matches Some(v) ==> unsigned_decimal_at_most(s@, 65535) == Some(v as nat),
        r is None ==> unsigned_decimal_at_most(s@, 65535) is None,
{
    match parse_unsigned(s, 65535) {
        Some(v) => Some(v as u16),
        None => None,
    }
}

/// Parses a `u64` the way `str::parse::<u64>` does.
pub(crate) fn parse_u64(s: &str) -> (r: Option<u64>)
    ensures
        r matches Some(v) ==> unsigned_decimal_at_most(s@, u64::MAX as nat) == Some(v as nat),
        r is None ==> unsigned_decimal_at_most(s@, u64::MAX as nat) is None,
{
    parse_unsigned(s, u64::MAX)
}

/// The ASCII digit for a value below ten.
pub open spec fn digit_char(d: nat) -> char {
    ((d + ('0' as u32)) as u32) as char
}

/// The shortest base-ten spelling of a natural number.
pub open spec fn decimal(n: nat) -> Seq<char>
    decreases n,
{
    if n < 10 {
        seq![digit_char(n)]
    } else {
        decimal(n / 10).push(digit_char(n % 10))
    }
}

/// The base-ten spelling of an integer, with a leading `-` when negative.
pub open spec fn signed_decimal(n: int) -> Seq<char> {
    if n < 0 {
        seq!['-'] + decimal((-n) as nat)
    } else {
        decimal(n as nat)
    }
}

/// Appends the base-ten spelling of `n`.
fn push_decimal(out: &mut String, n: u64)
    ensures
        final(out)@ == old(out)@ + decimal(n as nat),
    decreases n,
{
    if n >= 10 {
        push_decimal(out, n / 10);
    }
    let ghost before = out@;
    let c = ((n % 10) as u8 + 48u8) as char;
    assert(c == digit_char((n % 10) as nat));
    push_char(out, c);
    assert(out@ =~= old(out)@ + decimal(n as nat)) by {
        if n >= 10 {
            assert(decimal(n as nat) == decimal((n / 10) as nat).push(c));
        }
    }
}

/// Formats an `i64` as its `Display` does: the base-ten spelling, with a
/// leading `-` when negative.
pub(crate) fn i64_to_string(n: i64) -> (r: String)
    ensures
        r@ == signed_decimal(n as int),
{
    let mut out = String::new();
    if n < 0 {
        push_char(&mut out, '-');
        let magnitude = (0i128 - n as i128) as u64;
        push_decimal(&mut out, magnitude);
        assert(out@ =~= seq!['-'] + decimal((-n) as nat));
    } else {
        push_decimal(&mut out, n as u64);
        assert(out@ =~= decimal(n as nat));
    }
    out
}

/// Formats a `u64` as its `Display` does: the base-ten spelling.
pub(crate) fn u64_to_string(n: u64) -> (r: String)
    ensures
        r@ == decimal(n as nat),
{
    let mut out = String::new();
    push_decimal(&mut out, n);
    assert(out@ =~= decimal(n as nat));
    out
}

/// How std's `Debug` writes a string: in double quotes, with quotes,
/// backslashes, control and non-printable characters escaped.
pub uninterp spec fn spec_debug_text(s: Seq<char>) -> Seq<char>;

/// Writes a string as std's `Debug` does (`format!("{:?}")`); the result is
/// named.
#[verifier::external_body]
pub(crate) fn debug_text(s: &str) -> (r: String)
    ensures
        r@ == spec_debug_text(s@),
{
    format!("{:?}", s)
}

/// The characters of a string, collected with `str::chars`.
#[verifier::external_body]
pub(crate) fn chars_of(s: &str) -> (r: Vec<char>)
    ensures
        r@ == s@,
{
    s.chars().collect()
}

/// Appends one character with `String::push`.
#[verifier::external_body]
pub(crate) fn push_char(s: &mut String, c: char)
    ensures
        final(s)@ == old(s)@.push(c),
{
    s.push(c)
}

/// The string made of `chars[lo..hi]`.
pub fn string_from_range(chars: &Vec<char>, lo: usize, hi: usize) -> (r: String)
    requires
        lo <= hi <= chars@.len(),
    ensures
        r@ == chars@.subrange(lo as int, hi as int),
{
    let mut r = String::new();
    let mut i = lo;
    while i < hi
        invariant
            lo <= i <= hi <= chars@.len(),
            r@ == chars@.subrange(lo as int, i as int),
        decreases hi - i,
    {
        push_char(&mut r, chars[i]);
        i = i + 1;
        assert(r@ =~= chars@.subrange(lo as int, i as int));
    }
    r
}

/// Appends `chars[lo..hi]` to `out`.
pub fn push_range(out: &mut String, chars: &Vec<char>, lo: usize, hi: usize)
    requires
        lo <= hi <= chars@.len(),
    ensures
        final(out)@ == old(out)@ + chars@.subrange(lo as int, hi as int),
{
    let mut i = lo;
    while i < hi
        invariant
            lo <= i <= hi <= chars@.len(),
            out@ == old(out)@ + chars@.subrange(lo as int, i as int),
        decreases hi - i,
    {
        push_char(out, chars[i]);
        i = i + 1;
        assert(out@ =~= old(out)@ + chars@.subrange(lo as int, i as int));
    }
}

/// The first index at or after `i` holding `c`, or the length when there is none.
pub open spec fn find_char(s: Seq<char>, i: int, c: char) -> int
    decreases s.len() - i,
{
    if i >= s.len() {
        s.len() as int
    } else if s[i] == c {
        i
    } else {
        find_char(s, i + 1, c)
    }
}

pub proof fn lemma_find_char(s: Seq<char>, i: int, c: char)
    requires
        0 <= i <= s.len(),
    ensures
        i <= find_char(s, i, c) <= s.len(),
        find_char(s, i, c) < s.len() ==> s[find_char(s, i, c)] == c,
        forall|k: int| i <= k < find_char(s, i, c) ==> s[k] != c,
    decreases s.len() - i,
{
    if i < s.len() && s[i] != c {
        lemma_find_char(s, i + 1, c);
    }
}

/// Finds `find_char(chars, i, c)`.
pub fn find_char_from(chars: &Vec<char>, i: usize, c: char) -> (r: usize)
    requires
        i <= chars@.len(),
    ensures
        r == find_char(chars@, i as int, c),
{
    let mut j = i;
    while j < chars.len() && chars[j] != c
        invariant
            i <= j <= chars@.len(),
            find_char(chars@, j as int, c) == find_char(chars@, i as int, c),
        decreases chars@.len() - j,
    {
        j = j + 1;
    }
    j
}

/// The first index at or after `i` holding white space, or the length.
pub open spec fn next_white(s: Seq<char>, i: int) -> int
    decreases s.len() - i,
{
    if i >= s.len() {
        s.len() as int
    } else if is_white_space(s[i]) {
        i
    } else {
        next_white(s, i + 1)
    }
}

pub proof fn lemma_next_white(s: Seq<char>, i: int)
    requires
        0 <= i <= s.len(),
    ensures
        i <= next_white(s, i) <= s.len(),
        next_white(s, i) < s.len() ==> is_white_space(s[next_white(s, i)]),
        forall|k: int| i <= k < next_white(s, i) ==> !is_white_space(#[trigger] s[k]),
    decreases s.len() - i,
{
    if i < s.len() && !is_white_space(s[i]) {
        lemma_next_white(s, i + 1);
    }
}

/// Finds `next_white(chars, i)`.
pub fn next_white_from(chars: &Vec<char>, i: usize) -> (r: usize)
    requires
        i <= chars@.len(),
    ensures
        r == next_white(chars@, i as int),
{
    let mut j = i;
    while j < chars.len() && !white_space(chars[j])
        invariant
            i <= j <= chars@.len(),
            next_white(chars@, j as int) == next_white(chars@, i as int),
        decreases chars@.len() - j,
    {
        j = j + 1;
    }
    j
}

/// The first index at or after `i` not holding white space, or the length.
pub open spec fn skip_white(s: Seq<char>, i: int) -> int
    decreases s.len() - i,
{
    if i >= s.len() {
        s.len() as int
    } else if !is_white_space(s[i]) {
        i
    } else {
        skip_white(s, i + 1)
    }
}

pub proof fn lemma_skip_white(s: Seq<char>, i: int)
    requires
        0 <= i <= s.len(),
    ensures
        i <= skip_white(s, i) <= s.len(),
        skip_white(s, i) < s.len() ==> !is_white_space(s[skip_white(s, i)]),
        forall|k: int| i <= k < skip_white(s, i) ==> is_white_space(#[trigger] s[k]),
    decreases s.len() - i,
{
    if i < s.len() && is_white_space(s[i]) {
        lemma_skip_white(s, i + 1);
    }
}

/// Finds `skip_white(chars, i)`.
pub fn skip_white_from(chars: &Vec<char>, i: usize) -> (r: usize)
    requires
        i <= chars@.len(),
    ensures
        r == skip_white(chars@, i as int),
{
    let mut j = i;
    while j < chars.len() && white_space(chars[j])
        invariant
            i <= j <= chars@.len(),
            skip_white(chars@, j as int) == skip_white(chars@, i as int),
        decreases chars@.len() - j,
    {
        j = j + 1;
    }
    j
}

/// The first index at or after `i` not holding a decimal number, or the length.
pub open spec fn next_non_decimal(s: Seq<char>, i: int) -> int
    decreases s.len() - i,
{
    if i >= s.len() {
        s.len() as int
    } else if !is_decimal_number(s[i]) {
        i
    } else {
        next_non_decimal(s, i + 1)
    }
}

pub proof fn lemma_next_non_decimal(s: Seq<char>, i: int)
    requires
        0 <= i <= s.len(),
    ensures
        i <= next_non_decimal(s, i) <= s.len(),
    decreases s.len() - i,
{
    if i < s.len() && is_decimal_number(s[i]) {
        lemma_next_non_decimal(s, i + 1);
    }
}

/// Finds `next_non_decimal(chars, i)`.
pub fn next_non_decimal_from(chars: &Vec<char>, i: usize) -> (r: usize)
    requires
        i <= chars@.len(),
    ensures
        r == next_non_decimal(chars@, i as int),
{
    let mut j = i;
    while j < chars.len() && decimal_number(chars[j])
        invariant
            i <= j <= chars@.len(),
            next_non_decimal(chars@, j as int) == next_non_decimal(chars@, i as int),
        decreases chars@.len() - j,
    {
        j = j + 1;
    }
    j
}

/// The last index in `[lo, hi)` holding `c`, or `lo - 1` when there is none.
pub open spec fn last_char_in(s: Seq<char>, lo: int, hi: int, c: char) -> int
    decreases hi - lo,
{
    if hi <= lo {
        lo - 1
    } else if s[hi - 1] == c {
        hi - 1
    } else {
        last_char_in(s, lo, hi - 1, c)
    }
}

pub proof fn lemma_last_char_in(s: Seq<char>, lo: int, hi: int, c: char)
    requires
        0 <= lo,
        hi <= s.len(),
    ensures
        lo - 1 <= last_char_in(s, lo, hi, c) < if hi > lo { hi } else { lo },
        last_char_in(s, lo, hi, c) >= lo ==> s[last_char_in(s, lo, hi, c)] == c,
    decreases hi - lo,
{
    if hi > lo && s[hi - 1] != c {
        lemma_last_char_in(s, lo, hi - 1, c);
    }
}

/// Finds `last_char_in(chars, lo, hi, c)`; `None` stands for `lo - 1`.
pub fn last_char_in_range(chars: &Vec<char>, lo: usize, hi: usize, c: char) -> (r: Option<usize>)
    requires
        lo <= hi <= chars@.len(),
    ensures
        r matches Some(k) ==> lo <= k < hi && k == last_char_in(chars@, lo as int, hi as int, c),
        r is None ==> last_char_in(chars@, lo as int, hi as int, c) == lo - 1,
{
    let mut j = hi;
    while j > lo && chars[j - 1] != c
        invariant
            lo <= j <= hi <= chars@.len(),
            last_char_in(chars@, lo as int, j as int, c) == last_char_in(
                chars@,
                lo as int,
                hi as int,
                c,
            ),
        decreases j - lo,
    {
        j = j - 1;
    }
    if j > lo {
        Some(j - 1)
    } else {
        None
    }
}

/// Lexicographic order of texts by code point, from index `i` on.
pub open spec fn text_less_from(a: Seq<char>, b: Seq<char>, i: int) -> bool
    decreases a.len() - i,
{
    if i >= a.len() {
        i < b.len()
    } else if i >= b.len() {
        false
    } else if a[i] != b[i] {
        (a[i] as u32) < (b[i] as u32)
    } else {
        text_less_from(a, b, i + 1)
    }
}

/// Lexicographic order of texts by code point (which is the order of their
/// UTF-8 bytes).
pub open spec fn text_less(a: Seq<char>, b: Seq<char>) -> bool {
    text_less_from(a, b, 0)
}

pub proof fn lemma_text_less_from_irreflexive(a: Seq<char>, i: int)
    requires
        0 <= i,
    ensures
        !text_less_from(a, a, i),
    decreases a.len() - i,
{
    if i < a.len() {
        lemma_text_less_from_irreflexive(a, i + 1);
    }
}

pub proof fn lemma_text_less_from_transitive(a: Seq<char>, b: Seq<char>, c: Seq<char>, i: int)
    requires
        0 <= i,
        text_less_from(a, b, i),
        text_less_from(b, c, i),
    ensures
        text_less_from(a, c, i),
    decreases a.len() - i,
{
    if i < a.len() && i < b.len() && i < c.len() && a[i] == b[i] && b[i] == c[i] {
        lemma_text_less_from_transitive(a, b, c, i + 1);
    }
}

pub proof fn lemma_text_less_from_total(a: Seq<char>, b: Seq<char>, i: int)
    requires
        0 <= i <= a.len(),
        i <= b.len(),
        a.subrange(0, i) == b.subrange(0, i),
        !text_less_from(a, b, i),
        !text_less_from(b, a, i),
    ensures
        a == b,
    decreases a.len() - i,
{
    if i < a.len() && i < b.len() {
        if a[i] != b[i] {
            vstd::utf8::char_u32_cast(a[i], a[i] as u32);
            vstd::utf8::char_u32_cast(b[i], b[i] as u32);
        }
        assert(a[i] == b[i]);
        assert(a.subrange(0, i + 1) =~= a.subrange(0, i).push(a[i]));
        assert(b.subrange(0, i + 1) =~= b.subrange(0, i).push(b[i]));
        lemma_text_less_from_total(a, b, i + 1);
    } else {
        assert(a.len() == i && b.len() == i);
        assert(a =~= a.subrange(0, i));
        assert(b =~= b.subrange(0, i));
    }
}

/// `text_less` is a strict total order.
pub proof fn lemma_text_less_order(a: Seq<char>, b: Seq<char>, c: Seq<char>)
    ensures
        !text_less(a, a),
        text_less(a, b) && text_less(b, c) ==> text_less(a, c),
        a != b ==> text_less(a, b) || text_less(b, a),
{
    lemma_text_less_from_irreflexive(a, 0);
    if text_less(a, b) && text_less(b, c) {
        lemma_text_less_from_transitive(a, b, c, 0);
    }
    if !text_less(a, b) && !text_less(b, a) {
        assert(a.subrange(0, 0) =~= b.subrange(0, 0));
        lemma_text_less_from_total(a, b, 0);
    }
}

/// Decides `text_less`.
pub fn text_less_exec(a: &Vec<char>, b: &Vec<char>) -> (r: bool)
    ensures
        r == text_less(a@, b@),
{
    let mut i: usize = 0;
    while i < a.len() && i < b.len() && a[i] == b[i]
        invariant
            i <= a@.len(),
            i <= b@.len(),
            text_less_from(a@, b@, i as int) == text_less(a@, b@),
        decreases a@.len() - i,
    {
        i = i + 1;
    }
    if i >= a.len() {
        i < b.len()
    } else if i >= b.len() {
        false
    } else {
        (a[i] as u32) < (b[i] as u32)
    }
}

} // verus!
