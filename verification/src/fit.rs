//! Shortening the status line to the room it has: a search for the longest
//! start of the text that still fits once `...` is appended. Measuring a
//! text is the window's business; the search only decides what to measure
//! next.
use vstd::prelude::*;

use crate::text::{join2, lemma_utf8_len, lemma_utf8_len_append, lemma_utf8_len_push, string_of, chars_of, utf8_len, utf8_width};

verus! {

/// The number of characters in the longest start of `s` whose UTF-8
/// encoding takes at most `x` bytes: the start that ends at the last
/// character boundary at or before byte `x` (`str::floor_char_boundary`).
pub open spec fn prefix_fit(s: Seq<char>, x: int) -> nat
    decreases s.len(),
{
    if utf8_len(s) <= x {
        s.len()
    } else if s.len() == 0 {
        0
    } else {
        prefix_fit(s.drop_last(), x)
    }
}

/// The byte position of the last character boundary of `s` at or before
/// byte `x`.
pub open spec fn floor_boundary(s: Seq<char>, x: int) -> nat {
    utf8_len(s.take(prefix_fit(s, x) as int))
}

/// A start of `s` takes no more bytes than `s`.
proof fn lemma_take_len(s: Seq<char>, j: int)
    requires
        0 <= j <= s.len(),
    ensures
        utf8_len(s.take(j)) <= utf8_len(s),
{
    assert(s =~= s.take(j) + s.skip(j));
    lemma_utf8_len_append(s.take(j), s.skip(j));
}

/// `k` characters are the longest start within `x` bytes when they fit and
/// one more would not.
proof fn lemma_prefix_fit(s: Seq<char>, x: int, k: int)
    requires
        0 <= k <= s.len(),
        utf8_len(s.take(k)) <= x,
        k == s.len() || utf8_len(s.take(k + 1)) > x,
    ensures
        prefix_fit(s, x) == k,
    decreases s.len(),
{
    if k == s.len() {
        assert(s.take(k) =~= s);
    } else {
        lemma_take_len(s, k + 1);
        let d = s.drop_last();
        assert(d.take(k) =~= s.take(k));
        if k + 1 < s.len() {
            assert(d.take(k + 1) =~= s.take(k + 1));
        }
        lemma_prefix_fit(d, x, k);
    }
}

/// The bound of `prefix_fit`, and the fit of what it picks.
pub proof fn lemma_prefix_fit_bounds(s: Seq<char>, x: int)
    ensures
        prefix_fit(s, x) <= s.len(),
        x >= 0 ==> utf8_len(s.take(prefix_fit(s, x) as int)) <= x,
    decreases s.len(),
{
    if utf8_len(s) <= x {
        assert(s.take(s.len() as int) =~= s);
    } else if s.len() > 0 {
        lemma_prefix_fit_bounds(s.drop_last(), x);
        let k = prefix_fit(s.drop_last(), x);
        assert(s.drop_last().take(k as int) =~= s.take(k as int));
    } else {
        assert(s.take(0) =~= s);
    }
}

fn char_width(c: char) -> (w: usize)
    ensures
        w == utf8_width(c),
{
    let u = c as u32;
    if u <= 0x7F {
        1
    } else if u <= 0x7FF {
        2
    } else if u <= 0xFFFF {
        3
    } else {
        4
    }
}

/// The search state: the text, the longest start known to fit (`lo`
/// bytes) and the longest that may still fit (`hi` bytes).
pub struct FitSearch {
    text: Vec<char>,
    lo: usize,
    hi: usize,
}

impl FitSearch {
    /// The text being shortened.
    pub closed spec fn text_view(&self) -> Seq<char> {
        self.text@
    }

    /// Bytes of the longest start known to fit.
    pub closed spec fn low(&self) -> nat {
        self.lo as nat
    }

    /// Bytes of the longest start that may still fit.
    pub closed spec fn high(&self) -> nat {
        self.hi as nat
    }

    /// The search is consistent: `lo` is a character boundary and
    /// `lo <= hi <= ` the text's length in bytes.
    pub closed spec fn wf(&self) -> bool {
        &&& self.lo <= self.hi
        &&& self.hi <= utf8_len(self.text@)
        &&& floor_boundary(self.text@, self.lo as int) == self.lo
    }

    /// The next length to try: the boundary at or before the middle of
    /// `lo..=hi`, rounded up.
    pub open spec fn mid(&self) -> nat {
        floor_boundary(self.text_view(), ((self.low() + self.high() + 1) / 2) as int)
    }

    /// The number of characters in the start of `mid()` bytes.
    pub open spec fn mid_chars(&self) -> nat {
        prefix_fit(self.text_view(), ((self.low() + self.high() + 1) / 2) as int)
    }

    /// Whether the search still has a length to try.
    pub open spec fn searching(&self) -> bool {
        self.low() < self.high() && self.mid() > self.low()
    }

    /// A search over `s`: nothing known to fit yet, everything may.
    pub fn new(s: &str) -> (f: FitSearch)
        ensures
            f.wf(),
            f.text_view() == s@,
            f.low() == 0,
            f.high() == utf8_len(s@),
    {
        let text = chars_of(s);
        proof {
            lemma_utf8_len(s@);
            lemma_prefix_fit(s@, 0, 0);
            assert(s@.take(0) =~= Seq::<char>::empty());
        }
        let n = s.as_bytes().len();
        FitSearch { text, lo: 0, hi: n }
    }

    /// The longest start of the text within `x` bytes, with its length in
    /// bytes.
    fn start_within(&self, x: usize) -> (r: (Vec<char>, usize))
        ensures
            r.0@ == self.text@.take(prefix_fit(self.text@, x as int) as int),
            r.1 == floor_boundary(self.text@, x as int),
    {
        let mut i: usize = 0;
        let mut acc: usize = 0;
        let mut out: Vec<char> = Vec::new();
        assert(self.text@.take(0) =~= Seq::<char>::empty());
        while i < self.text.len() && char_width(self.text[i]) <= x - acc
            invariant
                i <= self.text.len(),
                acc <= x,
                acc == utf8_len(self.text@.take(i as int)),
                out@ == self.text@.take(i as int),
            decreases self.text.len() - i,
        {
            proof {
                assert(self.text@.take(i + 1) =~= self.text@.take(i as int).push(self.text@[i as int]));
                lemma_utf8_len_push(self.text@.take(i as int), self.text@[i as int]);
            }
            acc = acc + char_width(self.text[i]);
            out.push(self.text[i]);
            i = i + 1;
        }
        proof {
            if i < self.text.len() {
                assert(self.text@.take(i + 1) =~= self.text@.take(i as int).push(self.text@[i as int]));
                lemma_utf8_len_push(self.text@.take(i as int), self.text@[i as int]);
            }
            lemma_prefix_fit(self.text@, x as int, i as int);
        }
        (out, acc)
    }

    /// The next text to measure: the start of `mid()` bytes followed by
    /// `...`; `None` once the search is over.
    pub fn candidate(&self) -> (r: Option<String>)
        requires
            self.wf(),
        ensures
            self.searching() <==> r is Some,
            r matches Some(c) ==> c@ == self.text_view().take(self.mid_chars() as int) + "..."@,
    {
        if self.lo >= self.hi {
            return None;
        }
        let d = self.hi - self.lo;
        let half = self.lo + (d / 2 + d % 2);
        assert(half == (self.lo + self.hi + 1) / 2);
        let (start, mid) = self.start_within(half);
        if mid <= self.lo {
            return None;
        }
        let s = string_of(&start);
        Some(join2(s.as_str(), "..."))
    }

    /// Takes the outcome of measuring the last candidate: when it fits, its length
    /// becomes the longest known to fit; else the lengths from it on are
    /// ruled out.
    pub fn answer(&mut self, fits: bool)
        requires
            old(self).wf(),
            old(self).searching(),
        ensures
            final(self).wf(),
            final(self).text_view() == old(self).text_view(),
            fits ==> final(self).low() == old(self).mid() && final(self).high() == old(self).high(),
            !fits ==> final(self).low() == old(self).low() && final(self).high() == old(self).mid() - 1,
            final(self).high() - final(self).low() < old(self).high() - old(self).low(),
    {
        let d = self.hi - self.lo;
        let half = self.lo + (d / 2 + d % 2);
        assert(half == (self.lo + self.hi + 1) / 2);
        let (_start, mid) = self.start_within(half);
        proof {
            lemma_prefix_fit_bounds(self.text@, half as int);
        }
        if fits {
            proof {
                let k = prefix_fit(self.text@, half as int);
                lemma_take_len(self.text@, k as int);
                if k < self.text@.len() {
                    assert(self.text@.take(k as int).take(k as int) =~= self.text@.take(k as int));
                }
                lemma_fit_of_boundary(self.text@, k as int);
            }
            self.lo = mid;
        } else {
            self.hi = mid - 1;
        }
    }

    /// The shortened text once the search is over: `...` alone when no
    /// start fits, else the longest start known to fit followed by `...`.
    pub fn result(&self) -> (r: String)
        requires
            self.wf(),
        ensures
            self.low() == 0 ==> r@ == "..."@,
            self.low() > 0 ==> r@ == self.text_view().take(
                prefix_fit(self.text_view(), self.low() as int) as int,
            ) + "..."@,
    {
        if self.lo == 0 {
            return crate::text::owned("...");
        }
        let (start, _n) = self.start_within(self.lo);
        let s = string_of(&start);
        join2(s.as_str(), "...")
    }
}

/// The boundary at `k` characters is its own floor.
proof fn lemma_fit_of_boundary(s: Seq<char>, k: int)
    requires
        0 <= k <= s.len(),
    ensures
        floor_boundary(s, utf8_len(s.take(k)) as int) == utf8_len(s.take(k)),
{
    let x = utf8_len(s.take(k)) as int;
    if k < s.len() {
        assert(s.take(k + 1) =~= s.take(k).push(s[k]));
        lemma_utf8_len_push(s.take(k), s[k]);
    }
    lemma_prefix_fit(s, x, k);
}

/// Whether a start of `k` bytes fits grows no worse as the start gets
/// shorter: if `k` bytes fit, so does any shorter start.
pub open spec fn shrinks_fit(fits: spec_fn(nat) -> bool) -> bool {
    forall|j: nat, k: nat| #![trigger fits(j), fits(k)] j <= k && fits(k) ==> fits(j)
}

/// What the search knows, for a measure `fits` of starts by their length
/// in bytes: the start of `low()` bytes fits (or is empty), and no start
/// longer than `high()` bytes does.
pub open spec fn search_knows(f: FitSearch, fits: spec_fn(nat) -> bool) -> bool {
    &&& (f.low() == 0 || fits(f.low()))
    &&& forall|k: nat| #![trigger fits(k)] f.high() < k ==> !fits(k)
}

/// Answering the candidate truthfully keeps what the search knows: when
/// shorter starts fit whenever longer ones do, and `g` is the search `f`
/// after `answer(fits(f.mid()))` (as `answer` states it), the start of
/// `g.low()` bytes still fits and nothing longer than `g.high()` bytes
/// does. Since every answer narrows `low()..high()`, the search ends, and
/// the start it keeps fits (or is empty).
pub proof fn law_answer_keeps_knowledge(f: FitSearch, g: FitSearch, fits: spec_fn(nat) -> bool)
    requires
        shrinks_fit(fits),
        search_knows(f, fits),
        fits(f.mid()) ==> g.low() == f.mid() && g.high() == f.high(),
        !fits(f.mid()) ==> g.low() == f.low() && g.high() == f.mid() - 1,
    ensures
        search_knows(g, fits),
{
    if !fits(f.mid()) {
        assert forall|k: nat| #![trigger fits(k)] g.high() < k implies !fits(k) by {
            if fits(k) {
                assert(f.mid() <= k && fits(k) ==> fits(f.mid()));
            }
        }
    }
}

} // verus!
