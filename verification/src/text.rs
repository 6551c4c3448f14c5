//! Character-level text helpers shared by the whole library.
//!
//! Strings are handled as sequences of `char`; every helper states its
//! result over `Seq<char>` so that callers can reason about exact output.
use vstd::prelude::*;

verus! {

// ---------------------------------------------------------------------------
// std wrappers
// ---------------------------------------------------------------------------

/// `String::push`: appends one character at the end of the string.
#[verifier::external_body]
pub(crate) fn push_char(s: &mut String, c: char)
    ensures
        final(s)@ == old(s)@.push(c),
{
    s.push(c);
}

// ---------------------------------------------------------------------------
// conversion between `str` and character vectors
// ---------------------------------------------------------------------------

/// The characters of `s`, in order.
pub fn chars_of(s: &str) -> (v: Vec<char>)
    ensures
        v@ == s@,
{
    let n = s.unicode_len();
    let mut v: Vec<char> = Vec::new();
    let mut i: usize = 0;
    while i < n
        invariant
            n == s@.len(),
            i <= n,
            v@ == s@.subrange(0, i as int),
        decreases n - i,
    {
        v.push(s.get_char(i));
        i = i + 1;
    }
    v
}

/// A `String` holding the characters of `v`, in order.
pub fn string_of(v: &[char]) -> (s: String)
    ensures
        s@ == v@,
{
    let mut s = String::new();
    let mut i: usize = 0;
    while i < v.len()
        invariant
            i <= v.len(),
            s@ == v@.subrange(0, i as int),
        decreases v.len() - i,
    {
        push_char(&mut s, v[i]);
        i = i + 1;
    }
    s
}

/// An owned copy of `s`.
pub fn owned(s: &str) -> (r: String)
    ensures
        r@ == s@,
{
    s.to_owned()
}

/// `a` followed by `b`.
pub fn join2(a: &str, b: &str) -> (r: String)
    ensures
        r@ == a@ + b@,
{
    let mut r = a.to_owned();
    r.append(b);
    r
}

/// `a`, `b` and `c`, one after the other.
pub fn join3(a: &str, b: &str, c: &str) -> (r: String)
    ensures
        r@ == a@ + b@ + c@,
{
    let mut r = a.to_owned();
    r.append(b);
    r.append(c);
    r
}

/// `a`, `b`, `c` and `d`, one after the other.
pub fn join4(a: &str, b: &str, c: &str, d: &str) -> (r: String)
    ensures
        r@ == a@ + b@ + c@ + d@,
{
    let mut r = a.to_owned();
    r.append(b);
    r.append(c);
    r.append(d);
    r
}

/// `c` repeated `n` times.
pub open spec fn repeat_spec(c: char, n: nat) -> Seq<char> {
    Seq::new(n, |i: int| c)
}

/// A string of `n` copies of `c` (as `str::repeat` on a one-character string).
pub fn repeat_char(c: char, n: usize) -> (s: String)
    ensures
        s@ == repeat_spec(c, n as nat),
{
    let mut s = String::new();
    let mut i: usize = 0;
    while i < n
        invariant
            i <= n,
            s@ == repeat_spec(c, i as nat),
        decreases n - i,
    {
        push_char(&mut s, c);
        i = i + 1;
        assert(s@ =~= repeat_spec(c, i as nat));
    }
    s
}

// ---------------------------------------------------------------------------
// white space and trimming
// ---------------------------------------------------------------------------

/// The Unicode `White_Space` property, as used by `char::is_whitespace`.
pub open spec fn is_white_space(c: char) -> bool {
    let u = c as u32;
    ||| 0x09 <= u <= 0x0D
    ||| u == 0x20
    ||| u == 0x85
    ||| u == 0xA0
    ||| u == 0x1680
    ||| 0x2000 <= u <= 0x200A
    ||| u == 0x2028
    ||| u == 0x2029
    ||| u == 0x202F
    ||| u == 0x205F
    ||| u == 0x3000
}

/// Whether `c` is white space (the Unicode `White_Space` property).
pub fn white_space(c: char) -> (r: bool)
    ensures
        r == is_white_space(c),
{
    let u = c as u32;
    (0x09 <= u && u <= 0x0D) || u == 0x20 || u == 0x85 || u == 0xA0 || u == 0x1680 || (0x2000
        <= u && u <= 0x200A) || u == 0x2028 || u == 0x2029 || u == 0x202F || u == 0x205F || u
        == 0x3000
}

/// `s` without its leading characters that satisfy `is_white_space`.
pub open spec fn trim_start(s: Seq<char>) -> Seq<char>
    decreases s.len(),
{
    if s.len() > 0 && is_white_space(s[0]) {
        trim_start(s.drop_first())
    } else {
        s
    }
}

/// `s` without its trailing characters that satisfy `is_white_space`.
pub open spec fn trim_end(s: Seq<char>) -> Seq<char>
    decreases s.len(),
{
    if s.len() > 0 && is_white_space(s.last()) {
        trim_end(s.drop_last())
    } else {
        s
    }
}

/// `s` without leading and trailing white space (`str::trim`).
pub open spec fn trim(s: Seq<char>) -> Seq<char> {
    trim_end(trim_start(s))
}

/// `trim_start` removes exactly the white-space prefix that ends at `i`.
pub proof fn lemma_trim_start_at(s: Seq<char>, i: int)
    requires
        0 <= i <= s.len(),
        forall|k: int| 0 <= k < i ==> is_white_space(#[trigger] s[k]),
        i == s.len() || !is_white_space(s[i]),
    ensures
        trim_start(s) == s.subrange(i, s.len() as int),
    decreases i,
{
    if i > 0 {
        let t = s.drop_first();
        assert forall|k: int| 0 <= k < i - 1 implies is_white_space(#[trigger] t[k]) by {
            assert(t[k] == s[k + 1]);
        }
        lemma_trim_start_at(t, i - 1);
        assert(t.subrange(i - 1, t.len() as int) =~= s.subrange(i, s.len() as int));
    } else {
        assert(s.subrange(0, s.len() as int) =~= s);
    }
}

/// `trim_end` removes exactly the white-space suffix that starts at `j`.
pub proof fn lemma_trim_end_at(s: Seq<char>, j: int)
    requires
        0 <= j <= s.len(),
        forall|k: int| j <= k < s.len() ==> is_white_space(#[trigger] s[k]),
        j == 0 || !is_white_space(s[j - 1]),
    ensures
        trim_end(s) == s.subrange(0, j),
    decreases s.len() - j,
{
    if j < s.len() {
        let t = s.drop_last();
        assert forall|k: int| j <= k < t.len() implies is_white_space(#[trigger] t[k]) by {
            assert(t[k] == s[k]);
        }
        lemma_trim_end_at(t, j);
        assert(t.subrange(0, j) =~= s.subrange(0, j));
    } else {
        assert(s.subrange(0, j) =~= s);
    }
}

/// The characters of `s` without leading and trailing white space.
pub fn trim_chars(s: &[char]) -> (r: Vec<char>)
    ensures
        r@ == trim(s@),
{
    let n = s.len();
    let mut i: usize = 0;
    while i < n && white_space(s[i])
        invariant
            i <= n,
            n == s@.len(),
            forall|k: int| 0 <= k < i ==> is_white_space(#[trigger] s@[k]),
        decreases n - i,
    {
        i = i + 1;
    }
    proof {
        lemma_trim_start_at(s@, i as int);
    }
    let ghost t = s@.subrange(i as int, n as int);
    let mut j: usize = n;
    while j > i && white_space(s[j - 1])
        invariant
            i <= j <= n,
            n == s@.len(),
            t == s@.subrange(i as int, n as int),
            forall|k: int| j <= k < n ==> is_white_space(#[trigger] s@[k]),
        decreases j - i,
    {
        j = j - 1;
    }
    proof {
        assert forall|k: int| j - i <= k < t.len() implies is_white_space(#[trigger] t[k]) by {
            assert(t[k] == s@[k + i]);
        }
        if j > i {
            assert(t[j - i - 1] == s@[j - 1]);
        }
        lemma_trim_end_at(t, j - i);
        assert(t.subrange(0, j - i) =~= s@.subrange(i as int, j as int));
    }
    let mut r: Vec<char> = Vec::new();
    let mut k: usize = i;
    while k < j
        invariant
            i <= k <= j <= n,
            n == s@.len(),
            r@ == s@.subrange(i as int, k as int),
        decreases j - k,
    {
        r.push(s[k]);
        k = k + 1;
    }
    r
}

// ---------------------------------------------------------------------------
// searching
// ---------------------------------------------------------------------------

/// `needle` occurs in `s` starting at position `i`.
pub open spec fn occurs_at(s: Seq<char>, needle: Seq<char>, i: int) -> bool {
    0 <= i && i + needle.len() <= s.len() && s.subrange(i, i + needle.len()) == needle
}

/// `needle` occurs somewhere in `s` (`str::contains`).
pub open spec fn contains_seq(s: Seq<char>, needle: Seq<char>) -> bool {
    exists|i: int| occurs_at(s, needle, i)
}

/// Whether `needle` occurs at position `i` of `s`.
pub fn matches_at(s: &[char], needle: &[char], i: usize) -> (r: bool)
    ensures
        r == occurs_at(s@, needle@, i as int),
{
    if i > s.len() || needle.len() > s.len() - i {
        return false;
    }
    let mut k: usize = 0;
    while k < needle.len()
        invariant
            k <= needle.len(),
            i + needle.len() <= s.len(),
            forall|m: int| 0 <= m < k ==> s@[i + m] == needle@[m],
        decreases needle.len() - k,
    {
        if s[i + k] != needle[k] {
            assert(s@.subrange(i as int, i + needle@.len())[k as int] != needle@[k as int]);
            return false;
        }
        k = k + 1;
    }
    assert(s@.subrange(i as int, i + needle@.len()) =~= needle@);
    true
}

/// Whether `needle` occurs somewhere in `s`.
pub fn contains_chars(s: &[char], needle: &[char]) -> (r: bool)
    ensures
        r == contains_seq(s@, needle@),
{
    let mut i: usize = 0;
    loop
        invariant
            i <= s.len(),
            forall|k: int| 0 <= k < i ==> !occurs_at(s@, needle@, k),
        ensures
            forall|k: int| 0 <= k <= s.len() ==> !occurs_at(s@, needle@, k),
        decreases s.len() - i,
    {
        if matches_at(s, needle, i) {
            return true;
        }
        if i == s.len() {
            break;
        }
        i = i + 1;
    }
    assert forall|k: int| !occurs_at(s@, needle@, k) by {
        if 0 <= k <= s.len() {
        }
    }
    false
}

/// Whether the character `c` occurs in `s`.
pub fn has_char(s: &[char], c: char) -> (r: bool)
    ensures
        r == s@.contains(c),
{
    let mut i: usize = 0;
    while i < s.len()
        invariant
            i <= s.len(),
            forall|k: int| 0 <= k < i ==> s@[k] != c,
        decreases s.len() - i,
    {
        if s[i] == c {
            return true;
        }
        i = i + 1;
    }
    false
}

// ---------------------------------------------------------------------------
// UTF-8 length
// ---------------------------------------------------------------------------

/// Number of bytes in the UTF-8 encoding of `c`.
pub open spec fn utf8_width(c: char) -> nat {
    let u = c as u32;
    if u <= 0x7F {
        1
    } else if u <= 0x7FF {
        2
    } else if u <= 0xFFFF {
        3
    } else {
        4
    }
}

/// Number of bytes in the UTF-8 encoding of `s` (`str::len`).
pub open spec fn utf8_len(s: Seq<char>) -> nat
    decreases s.len(),
{
    if s.len() == 0 {
        0
    } else {
        utf8_width(s[0]) + utf8_len(s.drop_first())
    }
}

/// `utf8_len` is the length of vstd's UTF-8 encoding.
pub proof fn lemma_utf8_len(s: Seq<char>)
    ensures
        utf8_len(s) == vstd::utf8::encode_utf8(s).len(),
    decreases s.len(),
{
    if s.len() > 0 {
        vstd::utf8::char_is_scalar(s[0]);
        lemma_utf8_len(s.drop_first());
    }
}

/// `utf8_len` grows by the width of an appended character.
pub proof fn lemma_utf8_len_push(s: Seq<char>, c: char)
    ensures
        utf8_len(s.push(c)) == utf8_len(s) + utf8_width(c),
    decreases s.len(),
{
    assert(s.push(c)[0] == if s.len() > 0 { s[0] } else { c });
    if s.len() > 0 {
        assert(s.push(c).drop_first() =~= s.drop_first().push(c));
        lemma_utf8_len_push(s.drop_first(), c);
    } else {
        assert(s.push(c).drop_first() =~= Seq::<char>::empty());
        assert(utf8_len(Seq::<char>::empty()) == 0);
    }
}

/// `utf8_len` adds up over concatenation.
pub proof fn lemma_utf8_len_append(a: Seq<char>, b: Seq<char>)
    ensures
        utf8_len(a + b) == utf8_len(a) + utf8_len(b),
    decreases a.len(),
{
    if a.len() > 0 {
        assert((a + b)[0] == a[0]);
        assert((a + b).drop_first() =~= a.drop_first() + b);
        lemma_utf8_len_append(a.drop_first(), b);
    } else {
        assert(a + b =~= b);
    }
}

/// Whether the UTF-8 encoding of the characters `s` is shorter than
/// `limit` bytes.
pub fn utf8_len_below(s: &[char], limit: usize) -> (r: bool)
    requires
        limit <= 0x10000,
    ensures
        r == (utf8_len(s@) < limit),
{
    if limit == 0 {
        return false;
    }
    let mut n: usize = 0;
    let mut i: usize = 0;
    while i < s.len()
        invariant
            i <= s.len(),
            limit <= 0x10000,
            n == utf8_len(s@.subrange(0, i as int)),
            n < limit,
        decreases s.len() - i,
    {
        proof {
            assert(s@.subrange(0, i + 1) =~= s@.subrange(0, i as int).push(s@[i as int]));
            lemma_utf8_len_push(s@.subrange(0, i as int), s@[i as int]);
        }
        let u = s[i] as u32;
        let w: usize = if u <= 0x7F {
            1
        } else if u <= 0x7FF {
            2
        } else if u <= 0xFFFF {
            3
        } else {
            4
        };
        n = n + w;
        i = i + 1;
        if n >= limit {
            proof {
                assert(s@ =~= s@.subrange(0, i as int) + s@.subrange(i as int, s.len() as int));
                lemma_utf8_len_append(s@.subrange(0, i as int), s@.subrange(i as int, s.len() as int));
            }
            return false;
        }
    }
    assert(s@.subrange(0, s.len() as int) =~= s@);
    true
}

// ---------------------------------------------------------------------------
// numbers: formatting
// ---------------------------------------------------------------------------

/// The digit character for `d` (< 16), upper-case letters above 9.
pub open spec fn digit_upper(d: nat) -> char {
    if d < 10 {
        (('0' as u8) + d) as char
    } else {
        (('A' as u8) + (d - 10)) as char
    }
}

/// The digit character for `d` (< 16), lower-case letters above 9.
pub open spec fn digit_lower(d: nat) -> char {
    if d < 10 {
        (('0' as u8) + d) as char
    } else {
        (('a' as u8) + (d - 10)) as char
    }
}

/// `n` written in base `radix` with upper-case digits and no leading zeros
/// (as `{}` and `{:X}` print integers).
pub open spec fn digits_upper(n: nat, radix: nat) -> Seq<char>
    recommends
        2 <= radix <= 16,
    decreases n,
{
    if radix < 2 || n < radix {
        seq![digit_upper(n)]
    } else {
        proof {
            assert(n / radix < n) by (nonlinear_arith)
                requires
                    radix >= 2,
                    n >= radix,
            ;
        }
        digits_upper(n / radix, radix).push(digit_upper(n % radix))
    }
}

fn digit_char_upper(d: u64) -> (c: char)
    requires
        d < 16,
    ensures
        c == digit_upper(d as nat),
{
    if d < 10 {
        ((48u8 + d as u8) as char)
    } else {
        ((65u8 + (d - 10) as u8) as char)
    }
}

/// `n` in base `radix` (2..=16), upper-case digits, no leading zeros.
pub fn format_radix(n: u64, radix: u64) -> (s: String)
    requires
        2 <= radix <= 16,
    ensures
        s@ == digits_upper(n as nat, radix as nat),
    decreases n,
{
    if n < radix {
        let mut s = String::new();
        push_char(&mut s, digit_char_upper(n));
        assert(s@ =~= seq![digit_upper(n as nat)]);
        s
    } else {
        assert(n / radix < n) by (nonlinear_arith)
            requires
                radix >= 2,
                n >= radix,
        ;
        let mut s = format_radix(n / radix, radix);
        push_char(&mut s, digit_char_upper(n % radix));
        s
    }
}

/// `n` in decimal (`{}`).
pub fn decimal(n: u64) -> (s: String)
    ensures
        s@ == digits_upper(n as nat, 10),
{
    format_radix(n, 10)
}

/// `n` in upper-case hexadecimal without prefix (`{:X}`).
pub fn hex_upper(n: u64) -> (s: String)
    ensures
        s@ == digits_upper(n as nat, 16),
{
    format_radix(n, 16)
}

/// The two lower-case hexadecimal digits of `b` (`{:02x}`).
pub open spec fn hex2(b: u8) -> Seq<char> {
    seq![digit_lower((b / 16) as nat), digit_lower((b % 16) as nat)]
}

fn digit_char_lower(d: u8) -> (c: char)
    requires
        d < 16,
    ensures
        c == digit_lower(d as nat),
{
    if d < 10 {
        ((48u8 + d) as char)
    } else {
        ((97u8 + (d - 10)) as char)
    }
}

/// Appends the two lower-case hexadecimal digits of `b` to `s`.
pub fn push_hex2(s: &mut String, b: u8)
    ensures
        final(s)@ == old(s)@ + hex2(b),
{
    push_char(s, digit_char_lower(b / 16));
    push_char(s, digit_char_lower(b % 16));
    assert(final(s)@ =~= old(s)@ + hex2(b));
}

// ---------------------------------------------------------------------------
// numbers: parsing
// ---------------------------------------------------------------------------

/// `c` is one of `0`..=`9`.
pub open spec fn is_ascii_digit(c: char) -> bool {
    '0' <= c <= '9'
}

/// Whether `c` is one of `0`..=`9`.
pub fn ascii_digit(c: char) -> (r: bool)
    ensures
        r == is_ascii_digit(c),
{
    '0' <= c && c <= '9'
}

/// The value of `c` as a digit of base `radix` (2..=36), as
/// `char::to_digit` gives it.
pub open spec fn digit_value(c: char, radix: nat) -> Option<nat> {
    let v: nat = if '0' <= c <= '9' {
        ((c as nat) - ('0' as nat)) as nat
    } else if 'a' <= c <= 'z' {
        ((c as nat) - ('a' as nat) + 10) as nat
    } else if 'A' <= c <= 'Z' {
        ((c as nat) - ('A' as nat) + 10) as nat
    } else {
        36
    };
    if v < radix {
        Some(v)
    } else {
        None
    }
}

/// The value of the digit string `s` in base `radix`, or `None` when a
/// character is not a digit of that base. The empty string has value 0.
pub open spec fn digits_value(s: Seq<char>, radix: nat) -> Option<nat>
    decreases s.len(),
{
    if s.len() == 0 {
        Some(0)
    } else {
        match (digits_value(s.drop_last(), radix), digit_value(s.last(), radix)) {
            (Some(v), Some(d)) => Some(v * radix + d),
            _ => None,
        }
    }
}

/// What `from_str_radix` (and `str::parse`, for base 10) gives for an
/// unsigned integer type whose largest value is `max`: one optional leading
/// `+`, then at least one digit; a value above `max` is an overflow error.
pub open spec fn parse_unsigned(s: Seq<char>, radix: nat, max: nat) -> Option<nat> {
    let body = if s.len() > 0 && s[0] == '+' {
        s.drop_first()
    } else {
        s
    };
    if body.len() == 0 {
        None
    } else {
        match digits_value(body, radix) {
            Some(v) => if v <= max {
                Some(v)
            } else {
                None
            },
            None => None,
        }
    }
}

/// A prefix of a digit string never has a larger value.
pub proof fn lemma_digits_prefix(s: Seq<char>, i: int, radix: nat)
    requires
        0 <= i <= s.len(),
        radix >= 1,
        digits_value(s, radix) is Some,
    ensures
        digits_value(s.subrange(0, i), radix) is Some,
        digits_value(s.subrange(0, i), radix)->0 <= digits_value(s, radix)->0,
    decreases s.len(),
{
    if i == s.len() {
        assert(s.subrange(0, i) =~= s);
    } else {
        let p = s.drop_last();
        assert(p.subrange(0, i) =~= s.subrange(0, i));
        lemma_digits_prefix(p, i, radix);
        let v = digits_value(p, radix)->0;
        assert(v <= v * radix) by (nonlinear_arith)
            requires
                radix >= 1,
        ;
    }
}

fn digit_of(c: char, radix: u32) -> (r: Option<u32>)
    requires
        2 <= radix <= 36,
    ensures
        r matches Some(d) ==> digit_value(c, radix as nat) == Some(d as nat),
        r is None ==> digit_value(c, radix as nat) is None,
{
    let v: u32 = if '0' <= c && c <= '9' {
        (c as u32) - ('0' as u32)
    } else if 'a' <= c && c <= 'z' {
        (c as u32) - ('a' as u32) + 10
    } else if 'A' <= c && c <= 'Z' {
        (c as u32) - ('A' as u32) + 10
    } else {
        36
    };
    if v < radix {
        Some(v)
    } else {
        None
    }
}

/// Parses `s` as an unsigned integer in base `radix`, with `u64::MAX` as
/// the largest accepted value (see `parse_unsigned`).
pub fn parse_u64(s: &[char], radix: u32) -> (r: Option<u64>)
    requires
        2 <= radix <= 36,
    ensures
        r matches Some(v) ==> parse_unsigned(s@, radix as nat, u64::MAX as nat) == Some(v as nat),
        r is None ==> parse_unsigned(s@, radix as nat, u64::MAX as nat) is None,
{
    let start: usize = if s.len() > 0 && s[0] == '+' {
        1
    } else {
        0
    };
    let ghost body = s@.subrange(start as int, s.len() as int);
    assert(body =~= (if s@.len() > 0 && s@[0] == '+' {
        s@.drop_first()
    } else {
        s@
    }));
    if start == s.len() {
        return None;
    }
    let mut v: u64 = 0;
    let mut i: usize = start;
    while i < s.len()
        invariant
            start <= i <= s.len(),
            2 <= radix <= 36,
            body == s@.subrange(start as int, s.len() as int),
            body == (if s@.len() > 0 && s@[0] == '+' {
                s@.drop_first()
            } else {
                s@
            }),
            body.len() > 0,
            digits_value(body.subrange(0, i - start), radix as nat) == Some(v as nat),
        decreases s.len() - i,
    {
        let ghost pre = body.subrange(0, i - start);
        let ghost next = body.subrange(0, i - start + 1);
        assert(next.drop_last() =~= pre);
        assert(next.last() == s@[i as int]);
        match digit_of(s[i], radix) {
            None => {
                proof {
                    assert(digits_value(next, radix as nat) is None);
                    if digits_value(body, radix as nat) is Some {
                        lemma_digits_prefix(body, i - start + 1, radix as nat);
                    }
                }
                return None;
            },
            Some(d) => {
                let m = v.checked_mul(radix as u64);
                let t = match m {
                    Some(m) => m.checked_add(d as u64),
                    None => None,
                };
                match t {
                    None => {
                        proof {
                            assert(digits_value(next, radix as nat) == Some(
                                (v as nat) * (radix as nat) + (d as nat),
                            ));
                            if digits_value(body, radix as nat) is Some {
                                lemma_digits_prefix(body, i - start + 1, radix as nat);
                            }
                        }
                        return None;
                    },
                    Some(t) => {
                        v = t;
                    },
                }
            },
        }
        i = i + 1;
    }
    assert(body.subrange(0, s.len() - start) =~= body);
    Some(v)
}

// ---------------------------------------------------------------------------
// case
// ---------------------------------------------------------------------------

/// What `str::to_lowercase` returns for the given text.
pub uninterp spec fn lowercase(s: Seq<char>) -> Seq<char>;

/// `str::to_lowercase`: the Unicode lower-case form of `s`. The mapping
/// itself (Unicode's tables) is not stated here.
#[verifier::external_body]
pub(crate) fn to_lowercase(s: &str) -> (r: String)
    ensures
        r@ == lowercase(s@),
{
    s.to_lowercase()
}

/// The language-dependent text: `english` when `en`, else `turkish`.
pub open spec fn lang(en: bool, turkish: Seq<char>, english: Seq<char>) -> Seq<char> {
    if en {
        english
    } else {
        turkish
    }
}

// ---------------------------------------------------------------------------
// lines
// ---------------------------------------------------------------------------

/// Position of the first `\n` in `s`, or its length when there is none.
pub open spec fn line_end(s: Seq<char>) -> int
    decreases s.len(),
{
    if s.len() == 0 || s[0] == '\n' {
        0
    } else {
        1 + line_end(s.drop_first())
    }
}

/// Bounds of `line_end`.
pub proof fn lemma_line_end(s: Seq<char>)
    ensures
        0 <= line_end(s) <= s.len(),
        line_end(s) < s.len() ==> s[line_end(s)] == '\n',
        forall|k: int| 0 <= k < line_end(s) ==> s[k] != '\n',
    decreases s.len(),
{
    if s.len() > 0 && s[0] != '\n' {
        lemma_line_end(s.drop_first());
        assert forall|k: int| 0 <= k < line_end(s) implies s[k] != '\n' by {
            if k > 0 {
                assert(s[k] == s.drop_first()[k - 1]);
            }
        }
    }
}

/// `l` without one trailing `\r`.
pub open spec fn strip_cr(l: Seq<char>) -> Seq<char> {
    if l.len() > 0 && l.last() == '\r' {
        l.drop_last()
    } else {
        l
    }
}

/// The lines of `s` (`str::lines`): split at `\n`, a `\r` right before a
/// `\n` dropped, no empty last line after a final `\n`.
pub open spec fn lines_of(s: Seq<char>) -> Seq<Seq<char>>
    decreases s.len(),
{
    if s.len() == 0 {
        Seq::empty()
    } else {
        let n = line_end(s);
        proof {
            lemma_line_end(s);
        }
        if n == s.len() {
            seq![s]
        } else {
            seq![strip_cr(s.subrange(0, n))] + lines_of(s.subrange(n + 1, s.len() as int))
        }
    }
}

/// The parts joined by `sep` (`[String]::join`).
pub open spec fn joined(parts: Seq<Seq<char>>, sep: Seq<char>) -> Seq<char>
    decreases parts.len(),
{
    if parts.len() == 0 {
        Seq::empty()
    } else if parts.len() == 1 {
        parts[0]
    } else {
        joined(parts.drop_last(), sep) + sep + parts.last()
    }
}

/// `parts` joined by `sep`.
pub fn join_all(parts: &Vec<String>, sep: &str) -> (r: String)
    ensures
        r@ == joined(parts@.map_values(|p: String| p@), sep@),
{
    let ghost views = parts@.map_values(|p: String| p@);
    if parts.len() == 0 {
        return String::new();
    }
    let mut r = owned(parts[0].as_str());
    let mut i: usize = 1;
    assert(views.subrange(0, 1).drop_last() =~= Seq::<Seq<char>>::empty());
    while i < parts.len()
        invariant
            1 <= i <= parts.len(),
            views == parts@.map_values(|p: String| p@),
            r@ == joined(views.subrange(0, i as int), sep@),
        decreases parts.len() - i,
    {
        r = join3(r.as_str(), sep, parts[i].as_str());
        assert(views.subrange(0, i + 1).drop_last() =~= views.subrange(0, i as int));
        i = i + 1;
    }
    assert(views.subrange(0, parts.len() as int) =~= views);
    r
}

} // verus!
