//! Recognising power-plan GUIDs in `powercfg` output.
use vstd::prelude::*;

use crate::text::{chars_of, is_white_space, string_of, white_space};

verus! {

/// `c` is an ASCII hexadecimal digit.
pub open spec fn is_hex_digit(c: char) -> bool {
    ('0' <= c <= '9') || ('a' <= c <= 'f') || ('A' <= c <= 'F')
}

/// `w` has the GUID shape 8-4-4-4-12: 36 characters, `-` at positions 8,
/// 13, 18 and 23, ASCII hexadecimal digits everywhere else.
pub open spec fn is_guid_text(w: Seq<char>) -> bool {
    &&& w.len() == 36
    &&& w[8] == '-' && w[13] == '-' && w[18] == '-' && w[23] == '-'
    &&& forall|i: int|
        0 <= i < 36 && i != 8 && i != 13 && i != 18 && i != 23 ==> is_hex_digit(#[trigger] w[i])
}

fn hex_digit(c: char) -> (r: bool)
    ensures
        r == is_hex_digit(c),
{
    ('0' <= c && c <= '9') || ('a' <= c && c <= 'f') || ('A' <= c && c <= 'F')
}

fn guid_chars(w: &[char]) -> (r: bool)
    ensures
        r == is_guid_text(w@),
{
    if w.len() != 36 {
        return false;
    }
    if w[8] != '-' || w[13] != '-' || w[18] != '-' || w[23] != '-' {
        return false;
    }
    let mut i: usize = 0;
    while i < 36
        invariant
            i <= 36,
            w.len() == 36,
            forall|k: int|
                0 <= k < i && k != 8 && k != 13 && k != 18 && k != 23 ==> is_hex_digit(
                    #[trigger] w@[k],
                ),
        decreases 36 - i,
    {
        if i != 8 && i != 13 && i != 18 && i != 23 && !hex_digit(w[i]) {
            return false;
        }
        i = i + 1;
    }
    true
}

/// Whether `w` has the GUID shape (see `is_guid_text`).
pub fn looks_like_guid(w: &str) -> (r: bool)
    ensures
        r == is_guid_text(w@),
{
    let c = chars_of(w);
    guid_chars(&c)
}

/// `c` may belong to a GUID word: an ASCII letter or digit, or `-`.
pub open spec fn is_word_char(c: char) -> bool {
    ('0' <= c <= '9') || ('a' <= c <= 'z') || ('A' <= c <= 'Z') || c == '-'
}

fn word_char(c: char) -> (r: bool)
    ensures
        r == is_word_char(c),
{
    ('0' <= c && c <= '9') || ('a' <= c && c <= 'z') || ('A' <= c && c <= 'Z') || c == '-'
}

/// `w` without leading and trailing characters that cannot belong to a
/// GUID (such as the brackets and `*` around GUIDs in `powercfg -list`).
pub open spec fn strip_word(w: Seq<char>) -> Seq<char> {
    strip_end(strip_start(w))
}

/// `w` without its leading characters that are not `is_word_char`.
pub open spec fn strip_start(w: Seq<char>) -> Seq<char>
    decreases w.len(),
{
    if w.len() > 0 && !is_word_char(w[0]) {
        strip_start(w.drop_first())
    } else {
        w
    }
}

/// `w` without its trailing characters that are not `is_word_char`.
pub open spec fn strip_end(w: Seq<char>) -> Seq<char>
    decreases w.len(),
{
    if w.len() > 0 && !is_word_char(w.last()) {
        strip_end(w.drop_last())
    } else {
        w
    }
}

proof fn lemma_strip_start_at(s: Seq<char>, i: int)
    requires
        0 <= i <= s.len(),
        forall|k: int| 0 <= k < i ==> !is_word_char(#[trigger] s[k]),
        i == s.len() || is_word_char(s[i]),
    ensures
        strip_start(s) == s.subrange(i, s.len() as int),
    decreases i,
{
    if i > 0 {
        let t = s.drop_first();
        assert forall|k: int| 0 <= k < i - 1 implies !is_word_char(#[trigger] t[k]) by {
            assert(t[k] == s[k + 1]);
        }
        lemma_strip_start_at(t, i - 1);
        assert(t.subrange(i - 1, t.len() as int) =~= s.subrange(i, s.len() as int));
    } else {
        assert(s.subrange(0, s.len() as int) =~= s);
    }
}

proof fn lemma_strip_end_at(s: Seq<char>, j: int)
    requires
        0 <= j <= s.len(),
        forall|k: int| j <= k < s.len() ==> !is_word_char(#[trigger] s[k]),
        j == 0 || is_word_char(s[j - 1]),
    ensures
        strip_end(s) == s.subrange(0, j),
    decreases s.len() - j,
{
    if j < s.len() {
        let t = s.drop_last();
        assert forall|k: int| j <= k < t.len() implies !is_word_char(#[trigger] t[k]) by {
            assert(t[k] == s[k]);
        }
        lemma_strip_end_at(t, j);
        assert(t.subrange(0, j) =~= s.subrange(0, j));
    } else {
        assert(s.subrange(0, j) =~= s);
    }
}

/// The characters of `s[from..to]` after `strip_word`.
fn strip_range(s: &[char], from: usize, to: usize) -> (r: Vec<char>)
    requires
        from <= to <= s.len(),
    ensures
        r@ == strip_word(s@.subrange(from as int, to as int)),
{
    let ghost w = s@.subrange(from as int, to as int);
    let mut i = from;
    while i < to && !word_char(s[i])
        invariant
            from <= i <= to <= s.len(),
            w == s@.subrange(from as int, to as int),
            forall|k: int| from <= k < i ==> !is_word_char(#[trigger] s@[k]),
        decreases to - i,
    {
        i = i + 1;
    }
    proof {
        assert forall|k: int| 0 <= k < i - from implies !is_word_char(#[trigger] w[k]) by {
            assert(w[k] == s@[k + from]);
        }
        if i < to {
            assert(w[i - from] == s@[i as int]);
        }
        lemma_strip_start_at(w, i - from);
    }
    let ghost t = w.subrange(i - from, w.len() as int);
    assert(t =~= s@.subrange(i as int, to as int));
    let mut j = to;
    while j > i && !word_char(s[j - 1])
        invariant
            from <= i <= j <= to <= s.len(),
            forall|k: int| j <= k < to ==> !is_word_char(#[trigger] s@[k]),
        decreases j - i,
    {
        j = j - 1;
    }
    proof {
        assert forall|k: int| j - i <= k < t.len() implies !is_word_char(#[trigger] t[k]) by {
            assert(t[k] == s@[k + i]);
        }
        if j > i {
            assert(t[j - i - 1] == s@[j - 1]);
        }
        lemma_strip_end_at(t, j - i);
    }
    let mut r: Vec<char> = Vec::new();
    let mut k = i;
    while k < j
        invariant
            i <= k <= j <= s.len(),
            r@ == s@.subrange(i as int, k as int),
        decreases j - k,
    {
        r.push(s[k]);
        k = k + 1;
    }
    assert(t.subrange(0, j - i) =~= s@.subrange(i as int, j as int));
    r
}

/// The white-space separated words of `s`, in order (`str::split_whitespace`).
pub open spec fn words(s: Seq<char>) -> Seq<Seq<char>>
    decreases s.len(),
{
    if s.len() == 0 {
        Seq::empty()
    } else if is_white_space(s[0]) {
        words(s.drop_first())
    } else {
        let n = word_len(s);
        proof {
            lemma_word_len_bound(s);
        }
        seq![s.subrange(0, n)] + words(s.subrange(n, s.len() as int))
    }
}

/// Length of the leading run of non-white-space characters of `s` (at
/// least 1 when `s` starts with such a character).
pub open spec fn word_len(s: Seq<char>) -> int
    decreases s.len(),
{
    if s.len() == 0 || is_white_space(s[0]) {
        0
    } else {
        1 + word_len(s.drop_first())
    }
}

proof fn lemma_word_len(s: Seq<char>, n: int)
    requires
        0 <= n <= s.len(),
        forall|k: int| 0 <= k < n ==> !is_white_space(#[trigger] s[k]),
        n == s.len() || is_white_space(s[n]),
    ensures
        word_len(s) == n,
    decreases n,
{
    if n > 0 {
        let t = s.drop_first();
        assert forall|k: int| 0 <= k < n - 1 implies !is_white_space(#[trigger] t[k]) by {
            assert(t[k] == s[k + 1]);
        }
        lemma_word_len(t, n - 1);
    }
}

pub proof fn lemma_word_len_bound(s: Seq<char>)
    ensures
        0 <= word_len(s) <= s.len(),
        s.len() > 0 && !is_white_space(s[0]) ==> word_len(s) >= 1,
    decreases s.len(),
{
    if s.len() > 0 && !is_white_space(s[0]) {
        lemma_word_len_bound(s.drop_first());
    }
}

/// The first word of `text` that is a GUID once stripped, stripped.
pub open spec fn first_guid(ws: Seq<Seq<char>>) -> Option<Seq<char>>
    decreases ws.len(),
{
    if ws.len() == 0 {
        None
    } else if is_guid_text(strip_word(ws[0])) {
        Some(strip_word(ws[0]))
    } else {
        first_guid(ws.drop_first())
    }
}

proof fn lemma_words_skip_ws(s: Seq<char>, i: int, a: int)
    requires
        0 <= i <= a <= s.len(),
        forall|k: int| i <= k < a ==> is_white_space(#[trigger] s[k]),
    ensures
        words(s.subrange(i, s.len() as int)) == words(s.subrange(a, s.len() as int)),
    decreases a - i,
{
    if i < a {
        let t = s.subrange(i, s.len() as int);
        assert(t[0] == s[i]);
        assert(t.drop_first() =~= s.subrange(i + 1, s.len() as int));
        lemma_words_skip_ws(s, i + 1, a);
    }
}

/// The first word of `text` that, stripped of characters that cannot
/// belong to a GUID, has the GUID shape; that word stripped.
pub fn extract_guid(text: &str) -> (r: Option<String>)
    ensures
        r matches Some(g) ==> first_guid(words(text@)) == Some(g@),
        r is None ==> first_guid(words(text@)) is None,
{
    let s = chars_of(text);
    let n = s.len();
    let mut i: usize = 0;
    assert(s@.subrange(0, n as int) =~= s@);
    while i < n
        invariant
            i <= n,
            n == s@.len(),
            s@ == text@,
            first_guid(words(text@)) == first_guid(words(s@.subrange(i as int, n as int))),
        decreases n - i,
    {
        let mut a = i;
        while a < n && white_space(s[a])
            invariant
                i <= a <= n,
                n == s@.len(),
                forall|k: int| i <= k < a ==> is_white_space(#[trigger] s@[k]),
            decreases n - a,
        {
            a = a + 1;
        }
        proof {
            lemma_words_skip_ws(s@, i as int, a as int);
        }
        if a == n {
            assert(s@.subrange(a as int, n as int) =~= Seq::<char>::empty());
            return None;
        }
        let mut b = a;
        while b < n && !white_space(s[b])
            invariant
                a <= b <= n,
                n == s@.len(),
                forall|k: int| a <= k < b ==> !is_white_space(#[trigger] s@[k]),
            decreases n - b,
        {
            b = b + 1;
        }
        let ghost rest = s@.subrange(a as int, n as int);
        proof {
            assert forall|k: int| 0 <= k < b - a implies !is_white_space(#[trigger] rest[k]) by {
                assert(rest[k] == s@[k + a]);
            }
            if b < n {
                assert(rest[b - a] == s@[b as int]);
            }
            lemma_word_len(rest, b - a);
            assert(rest[0] == s@[a as int]);
            assert(rest.subrange(0, b - a) =~= s@.subrange(a as int, b as int));
            assert(rest.subrange(b - a, rest.len() as int) =~= s@.subrange(b as int, n as int));
            let ws = words(rest);
            assert(ws[0] == s@.subrange(a as int, b as int));
            assert(ws.drop_first() =~= words(s@.subrange(b as int, n as int)));
        }
        let w = strip_range(&s, a, b);
        if guid_chars(&w) {
            return Some(string_of(&w));
        }
        i = b;
    }
    assert(s@.subrange(n as int, n as int) =~= Seq::<char>::empty());
    None
}

} // verus!
