//! Settings: theme mode, language and the colour overrides of each mode
//! (kept in `%APPDATA%\SistemBakimAraci\config.json` by the program).
use vstd::prelude::*;

use crate::text::owned;
use crate::theme::{pairs_view, same_text};

verus! {

/// The settings. `overrides` maps a theme mode to its role/colour pairs:
/// the first entry of a mode is the one that counts, and the operations
/// below keep each mode to one entry (`modes_distinct`).
pub struct Config {
    pub mode: String,
    pub lang: String,
    pub overrides: Vec<(String, Vec<(String, String)>)>,
}

/// The mode used when the file has none.
pub fn default_mode() -> (s: String)
    ensures
        s@ == "dark"@,
{
    owned("dark")
}

/// The language used when the file has none.
pub fn default_lang() -> (s: String)
    ensures
        s@ == "tr"@,
{
    owned("tr")
}

/// The overrides stored for `mode`, as views (the first entry for it).
pub open spec fn lookup(ov: Seq<(String, Vec<(String, String)>)>, mode: Seq<char>) -> Option<
    Seq<(Seq<char>, Seq<char>)>,
>
    decreases ov.len(),
{
    if ov.len() == 0 {
        None
    } else if ov[0].0@ == mode {
        Some(pairs_view(ov[0].1@))
    } else {
        lookup(ov.drop_first(), mode)
    }
}

/// Each mode has at most one entry.
pub open spec fn modes_distinct(ov: Seq<(String, Vec<(String, String)>)>) -> bool {
    forall|i: int, j: int| 0 <= i < j < ov.len() ==> ov[i].0@ != ov[j].0@
}

/// A known theme mode.
pub open spec fn valid_mode(m: Seq<char>) -> bool {
    m == "dark"@ || m == "light"@
}

/// A known language.
pub open spec fn valid_lang(l: Seq<char>) -> bool {
    l == "tr"@ || l == "en"@
}

/// The mode kept after loading: a known mode stays, anything else becomes
/// "dark".
pub open spec fn normal_mode(m: Seq<char>) -> Seq<char> {
    if valid_mode(m) {
        m
    } else {
        "dark"@
    }
}

/// The language kept after loading: a known language stays, anything else
/// becomes "tr".
pub open spec fn normal_lang(l: Seq<char>) -> Seq<char> {
    if valid_lang(l) {
        l
    } else {
        "tr"@
    }
}

fn copy_pairs(v: &Vec<(String, String)>) -> (r: Vec<(String, String)>)
    ensures
        pairs_view(r@) == pairs_view(v@),
{
    let mut r: Vec<(String, String)> = Vec::new();
    let mut i: usize = 0;
    while i < v.len()
        invariant
            i <= v.len(),
            r.len() == i,
            pairs_view(r@) == pairs_view(v@).subrange(0, i as int),
        decreases v.len() - i,
    {
        let k = v[i].0.clone();
        let x = v[i].1.clone();
        let ghost before = r@;
        r.push((k, x));
        assert(r@[i as int].0@ == v@[i as int].0@);
        assert(r@[i as int].1@ == v@[i as int].1@);
        assert(pairs_view(r@) =~= pairs_view(v@).subrange(0, i + 1));
        i = i + 1;
    }
    assert(pairs_view(v@).subrange(0, v.len() as int) =~= pairs_view(v@));
    r
}

impl Config {
    /// Settings as a missing or unreadable file gives them: empty mode and
    /// language (the window then shows the dark theme in Turkish), no
    /// overrides.
    pub fn empty() -> (c: Config)
        ensures
            c.mode@ == Seq::<char>::empty(),
            c.lang@ == Seq::<char>::empty(),
            c.overrides@ == Seq::<(String, Vec<(String, String)>)>::empty(),
    {
        Config { mode: String::new(), lang: String::new(), overrides: Vec::new() }
    }

    /// Replaces an unknown mode by "dark" and an unknown language by "tr",
    /// as loading does.
    pub fn normalize(&mut self)
        ensures
            final(self).mode@ == normal_mode(old(self).mode@),
            final(self).lang@ == normal_lang(old(self).lang@),
            final(self).overrides == old(self).overrides,
    {
        if !same_text(self.mode.as_str(), "dark") && !same_text(self.mode.as_str(), "light") {
            self.mode = owned("dark");
        }
        if !same_text(self.lang.as_str(), "tr") && !same_text(self.lang.as_str(), "en") {
            self.lang = owned("tr");
        }
    }

    /// The overrides of `mode` (none when it has no entry).
    pub fn overrides_of(&self, mode: &str) -> (r: Vec<(String, String)>)
        ensures
            pairs_view(r@) == (match lookup(self.overrides@, mode@) {
                Some(p) => p,
                None => Seq::empty(),
            }),
    {
        let mut i: usize = 0;
        assert(self.overrides@.subrange(0, self.overrides@.len() as int) =~= self.overrides@);
        while i < self.overrides.len()
            invariant
                i <= self.overrides.len(),
                lookup(self.overrides@, mode@) == lookup(
                    self.overrides@.subrange(i as int, self.overrides@.len() as int),
                    mode@,
                ),
            decreases self.overrides.len() - i,
        {
            let ghost rest = self.overrides@.subrange(i as int, self.overrides@.len() as int);
            assert(rest[0] == self.overrides@[i as int]);
            assert(rest.drop_first() =~= self.overrides@.subrange(
                i + 1,
                self.overrides@.len() as int,
            ));
            if same_text(self.overrides[i].0.as_str(), mode) {
                return copy_pairs(&self.overrides[i].1);
            }
            i = i + 1;
        }
        assert(self.overrides@.subrange(i as int, self.overrides@.len() as int) =~= Seq::<
            (String, Vec<(String, String)>),
        >::empty());
        Vec::new()
    }

    /// Stores `pairs` as the overrides of `mode`, replacing what it had;
    /// the other modes keep theirs.
    pub fn set_overrides(&mut self, mode: &str, pairs: Vec<(String, String)>)
        ensures
            lookup(final(self).overrides@, mode@) == Some(pairs_view(pairs@)),
            modes_distinct(old(self).overrides@) ==> modes_distinct(final(self).overrides@),
            forall|m: Seq<char>|
                m != mode@ ==> #[trigger] lookup(final(self).overrides@, m) == lookup(
                    old(self).overrides@,
                    m,
                ),
            final(self).mode == old(self).mode,
            final(self).lang == old(self).lang,
    {
        let mut kept = without_mode(&self.overrides, mode);
        let ghost before = kept@;
        let entry = (owned(mode), pairs);
        kept.push(entry);
        proof {
            if modes_distinct(old(self).overrides@) {
                assert forall|a: int, b: int| 0 <= a < b < kept@.len() implies kept@[a].0@
                    != kept@[b].0@ by {
                    assert(kept@[a] == before[a]);
                    if b < before.len() {
                        assert(kept@[b] == before[b]);
                    }
                }
            }
            assert forall|m: Seq<char>| true implies #[trigger] lookup(kept@, m) == (if lookup(
                before,
                m,
            ) is Some {
                lookup(before, m)
            } else if entry.0@ == m {
                Some(pairs_view(entry.1@))
            } else {
                None
            }) by {
                lemma_lookup_push(before, entry, m);
            }
        }
        self.overrides = kept;
    }

    /// Drops the overrides of `mode` (back to the palette's own colours);
    /// the other modes keep theirs.
    pub fn remove_overrides(&mut self, mode: &str)
        ensures
            lookup(final(self).overrides@, mode@) is None,
            modes_distinct(old(self).overrides@) ==> modes_distinct(final(self).overrides@),
            forall|m: Seq<char>|
                m != mode@ ==> #[trigger] lookup(final(self).overrides@, m) == lookup(
                    old(self).overrides@,
                    m,
                ),
            final(self).mode == old(self).mode,
            final(self).lang == old(self).lang,
    {
        self.overrides = without_mode(&self.overrides, mode);
    }
}

proof fn lemma_lookup_push(
    s: Seq<(String, Vec<(String, String)>)>,
    x: (String, Vec<(String, String)>),
    m: Seq<char>,
)
    ensures
        lookup(s.push(x), m) == (if lookup(s, m) is Some {
            lookup(s, m)
        } else if x.0@ == m {
            Some(pairs_view(x.1@))
        } else {
            None
        }),
    decreases s.len(),
{
    if s.len() == 0 {
        assert(s.push(x).drop_first() =~= s);
    } else {
        assert(s.push(x).drop_first() =~= s.drop_first().push(x));
        lemma_lookup_push(s.drop_first(), x, m);
    }
}

/// A copy of `ov` without the entries of `mode`.
fn without_mode(ov: &Vec<(String, Vec<(String, String)>)>, mode: &str) -> (kept: Vec<
    (String, Vec<(String, String)>),
>)
    ensures
        lookup(kept@, mode@) is None,
        forall|m: Seq<char>| m != mode@ ==> #[trigger] lookup(kept@, m) == lookup(ov@, m),
        forall|k: int| 0 <= k < kept@.len() ==> kept@[k].0@ != mode@,
        modes_distinct(ov@) ==> modes_distinct(kept@),
{
    let mut kept: Vec<(String, Vec<(String, String)>)> = Vec::new();
    let mut i: usize = 0;
    while i < ov.len()
        invariant
            i <= ov.len(),
            lookup(kept@, mode@) is None,
            forall|k: int| 0 <= k < kept@.len() ==> kept@[k].0@ != mode@,
            forall|k: int|
                #![trigger kept@[k]]
                0 <= k < kept@.len() ==> exists|j: int| 0 <= j < i && kept@[k].0@ == #[trigger] ov@[j].0@,
            modes_distinct(ov@) ==> modes_distinct(kept@),
            forall|m: Seq<char>|
                m != mode@ ==> #[trigger] lookup(kept@, m) == lookup(ov@.subrange(0, i as int), m),
        decreases ov.len() - i,
    {
        let ghost before = kept@;
        let ghost x = ov@[i as int];
        proof {
            assert(ov@.subrange(0, i + 1) =~= ov@.subrange(0, i as int).push(x));
        }
        if !same_text(ov[i].0.as_str(), mode) {
            let entry = (ov[i].0.clone(), copy_pairs(&ov[i].1));
            kept.push(entry);
            proof {
                assert(kept@[kept@.len() - 1].0@ == ov@[i as int].0@);
                assert forall|k: int| 0 <= k < kept@.len() implies exists|j: int|
                    0 <= j < i + 1 && (#[trigger] kept@[k]).0@ == #[trigger] ov@[j].0@ by {
                    if k < before.len() {
                        assert(kept@[k] == before[k]);
                    }
                }
                if modes_distinct(ov@) {
                    assert forall|a: int, b: int| 0 <= a < b < kept@.len() implies kept@[a].0@
                        != kept@[b].0@ by {
                        if b == kept@.len() - 1 {
                            assert(kept@[a] == before[a]);
                            let j = choose|j: int| 0 <= j < i && before[a].0@ == #[trigger] ov@[j].0@;
                            assert(ov@[j].0@ != ov@[i as int].0@);
                        } else {
                            assert(kept@[a] == before[a]);
                            assert(kept@[b] == before[b]);
                        }
                    }
                }
                assert forall|m: Seq<char>| m != mode@ implies #[trigger] lookup(kept@, m)
                    == lookup(ov@.subrange(0, i + 1), m) by {
                    lemma_lookup_push(before, entry, m);
                    lemma_lookup_push(ov@.subrange(0, i as int), x, m);
                }
                lemma_lookup_push(before, entry, mode@);
            }
        } else {
            proof {
                assert forall|m: Seq<char>| m != mode@ implies #[trigger] lookup(kept@, m)
                    == lookup(ov@.subrange(0, i + 1), m) by {
                    lemma_lookup_push(ov@.subrange(0, i as int), x, m);
                }
            }
        }
        i = i + 1;
    }
    assert(ov@.subrange(0, ov.len() as int) =~= ov@);
    kept
}

} // verus!
