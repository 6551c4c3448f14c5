//! The operating-system line shown in the status bar and system info.
use vstd::prelude::*;

use crate::text::{chars_of, decimal, digits_upper, join2, join3, owned, parse_u64, parse_unsigned, string_of};

verus! {

/// The build with its update revision: `<build>.<ubr>` when both are
/// known, the build alone when the revision is not, empty when the build is
/// empty.
pub open spec fn build_text(build: Seq<char>, ubr: Option<u32>) -> Seq<char> {
    if build.len() == 0 {
        Seq::empty()
    } else {
        match ubr {
            Some(v) => build + "."@ + digits_upper(v as nat, 10),
            None => build,
        }
    }
}

/// The build string from the registry's `CurrentBuild` (text) and `UBR`
/// (a DWORD, read as a number so that no stray characters appear).
pub fn os_build_string(build: &str, ubr: Option<u32>) -> (s: String)
    ensures
        s@ == build_text(build@, ubr),
{
    if build.is_empty() {
        return String::new();
    }
    match ubr {
        Some(v) => {
            let d = decimal(v as u64);
            join3(build, ".", d.as_str())
        },
        None => owned(build),
    }
}

/// The characters of `s` before its first `.` (all of `s` when there is
/// none).
pub open spec fn first_segment(s: Seq<char>) -> Seq<char>
    decreases s.len(),
{
    if s.len() == 0 || s[0] == '.' {
        Seq::empty()
    } else {
        seq![s[0]] + first_segment(s.drop_first())
    }
}

/// `s` starts with `p`.
pub open spec fn starts_with(s: Seq<char>, p: Seq<char>) -> bool {
    p.len() <= s.len() && s.subrange(0, p.len() as int) == p
}

/// The product name corrected by build number: Windows 11 starts at build
/// 22000, whatever the registry's product name says (some editions, such
/// as IoT Enterprise LTSC 2024, are named "Windows 10" there).
pub open spec fn product_text(prod: Seq<char>, build: Seq<char>) -> Seq<char> {
    match parse_unsigned(first_segment(build), 10, u32::MAX as nat) {
        Some(b) => if b >= 22000 && starts_with(prod, "Windows 10"@) {
            "Windows 11"@ + prod.subrange(10, prod.len() as int)
        } else if b < 22000 && starts_with(prod, "Windows 11"@) {
            "Windows 10"@ + prod.subrange(10, prod.len() as int)
        } else {
            prod
        },
        None => prod,
    }
}

/// The non-empty parts, joined by single spaces.
pub open spec fn join_parts(parts: Seq<Seq<char>>) -> Seq<char>
    decreases parts.len(),
{
    if parts.len() == 0 {
        Seq::empty()
    } else if parts.len() == 1 {
        parts[0]
    } else {
        join_parts(parts.drop_last()) + " "@ + parts.last()
    }
}

/// The parts of the OS line that are not empty: product, display version,
/// `build <build>`.
pub open spec fn os_parts(prod: Seq<char>, disp: Seq<char>, build: Seq<char>) -> Seq<Seq<char>> {
    let p = product_text(prod, build);
    (if p.len() > 0 {
        seq![p]
    } else {
        Seq::empty()
    }) + (if disp.len() > 0 {
        seq![disp]
    } else {
        Seq::empty()
    }) + (if build.len() > 0 {
        seq!["build "@ + build]
    } else {
        Seq::empty()
    })
}

/// The OS line: the non-empty parts joined by spaces, or "bilinmiyor"
/// ("unknown") when there are none.
pub open spec fn os_text(prod: Seq<char>, disp: Seq<char>, build: Seq<char>) -> Seq<char> {
    let parts = os_parts(prod, disp, build);
    if parts.len() == 0 {
        "bilinmiyor"@
    } else {
        join_parts(parts)
    }
}

fn segment_of(s: &[char]) -> (r: Vec<char>)
    ensures
        r@ == first_segment(s@),
{
    let mut r: Vec<char> = Vec::new();
    let mut i: usize = 0;
    assert(s@.subrange(0, s@.len() as int) =~= s@);
    assert(r@ + first_segment(s@) =~= first_segment(s@));
    while i < s.len() && s[i] != '.'
        invariant
            i <= s.len(),
            r@ == s@.subrange(0, i as int),
            forall|k: int| 0 <= k < i ==> s@[k] != '.',
            first_segment(s@) == r@ + first_segment(s@.subrange(i as int, s.len() as int)),
        decreases s.len() - i,
    {
        proof {
            let t = s@.subrange(i as int, s.len() as int);
            assert(t[0] == s@[i as int]);
            assert(t.drop_first() =~= s@.subrange(i + 1, s.len() as int));
        }
        r.push(s[i]);
        i = i + 1;
    }
    proof {
        let t = s@.subrange(i as int, s.len() as int);
        if i < s.len() {
            assert(t[0] == s@[i as int]);
        }
        assert(first_segment(t) =~= Seq::<char>::empty());
    }
    r
}

fn starts(s: &[char], p: &str) -> (r: bool)
    ensures
        r == starts_with(s@, p@),
{
    let pc = chars_of(p);
    if pc.len() > s.len() {
        return false;
    }
    let mut i: usize = 0;
    while i < pc.len()
        invariant
            i <= pc.len() <= s.len(),
            pc@ == p@,
            forall|k: int| 0 <= k < i ==> s@[k] == pc@[k],
        decreases pc.len() - i,
    {
        if s[i] != pc[i] {
            assert(s@.subrange(0, p@.len() as int)[i as int] != p@[i as int]);
            return false;
        }
        i = i + 1;
    }
    assert(s@.subrange(0, p@.len() as int) =~= p@);
    true
}

fn rest_from(s: &[char], k: usize) -> (r: Vec<char>)
    requires
        k <= s.len(),
    ensures
        r@ == s@.subrange(k as int, s.len() as int),
{
    let mut r: Vec<char> = Vec::new();
    let mut i = k;
    while i < s.len()
        invariant
            k <= i <= s.len(),
            r@ == s@.subrange(k as int, i as int),
        decreases s.len() - i,
    {
        r.push(s[i]);
        i = i + 1;
    }
    r
}

/// The product name corrected by build number (see `product_text`).
pub fn product_name(prod: &str, build: &str) -> (s: String)
    ensures
        s@ == product_text(prod@, build@),
{
    let p = chars_of(prod);
    let b = chars_of(build);
    let seg = segment_of(&b);
    proof {
        reveal_strlit("Windows 10");
        reveal_strlit("Windows 11");
    }
    match parse_u64(&seg, 10) {
        Some(v) => {
            if v > 0xffff_ffff {
                return owned(prod);
            }
            if v >= 22000 && starts(&p, "Windows 10") {
                let rest = rest_from(&p, 10);
                let r = string_of(&rest);
                join2("Windows 11", r.as_str())
            } else if v < 22000 && starts(&p, "Windows 11") {
                let rest = rest_from(&p, 10);
                let r = string_of(&rest);
                join2("Windows 10", r.as_str())
            } else {
                owned(prod)
            }
        },
        None => owned(prod),
    }
}

/// The OS line from the registry's product name, display version and build
/// string (see `os_text`).
pub fn os_string(prod: &str, disp: &str, build: &str) -> (s: String)
    ensures
        s@ == os_text(prod@, disp@, build@),
{
    let p = product_name(prod, build);
    let mut out = String::new();
    let mut count: usize = 0;
    let ghost mut parts: Seq<Seq<char>> = Seq::empty();
    if !p.as_str().is_empty() {
        out.append(p.as_str());
        count = count + 1;
        proof {
            parts = parts.push(p@);
            assert(out@ =~= join_parts(parts));
        }
    }
    if !disp.is_empty() {
        if count > 0 {
            out.append(" ");
        }
        out.append(disp);
        count = count + 1;
        proof {
            let old_parts = parts;
            parts = parts.push(disp@);
            assert(parts.drop_last() =~= old_parts);
            assert(out@ =~= join_parts(parts));
        }
    }
    if !build.is_empty() {
        if count > 0 {
            out.append(" ");
        }
        out.append("build ");
        out.append(build);
        count = count + 1;
        proof {
            let old_parts = parts;
            parts = parts.push("build "@ + build@);
            assert(parts.drop_last() =~= old_parts);
            assert(out@ =~= join_parts(parts));
        }
    }
    proof {
        assert(parts =~= os_parts(prod@, disp@, build@));
    }
    if count == 0 {
        owned("bilinmiyor")
    } else {
        out
    }
}

} // verus!
