//! Version plumbing: the GitHub repository each component is tracked
//! against, and the parser for interpreter version strings.

use vstd::prelude::*;
use vstd::string::{StringExecFns, StrSliceExecFns};
use crate::strutil::{str_eq, push_chunk};

verus! {

/// The GitHub repository a component's updates come from.
#[derive(Clone, Copy, Debug)]
pub struct GitHubRepo {
    /// The repository owner.
    pub owner: &'static str,
    /// The repository name.
    pub repo: &'static str,
    /// Whether updates are published as releases; otherwise commits are
    /// compared.
    pub has_releases: bool,
}

/// The GitHub repository of a component, under either its internal key
/// or its presentation-layer name; `None` for unknown components.
pub fn get_github_repo(component: &str) -> (r: Option<GitHubRepo>)
    ensures
        component@ == "main"@ || component@ == "MaiBot"@ ==> (r matches Some(g)
            && g.owner@ == "MaiM-with-u"@ && g.repo@ == "MaiBot"@ && !g.has_releases),
        component@ == "napcat-ada"@ || component@ == "MaiBot-Napcat-Adapter"@
            ==> (r matches Some(g) && g.owner@ == "MaiM-with-u"@
                && g.repo@ == "MaiBot-Napcat-Adapter"@ && !g.has_releases),
        component@ == "napcat"@ || component@ == "NapCat"@ ==> (r matches Some(g)
            && g.owner@ == "NapNeko"@ && g.repo@ == "NapCatQQ"@ && g.has_releases),
        component@ != "main"@ && component@ != "MaiBot"@ && component@ != "napcat-ada"@
            && component@ != "MaiBot-Napcat-Adapter"@ && component@ != "napcat"@
            && component@ != "NapCat"@ ==> r is None,
{
    proof {
        reveal_strlit("main");
        reveal_strlit("MaiBot");
        reveal_strlit("napcat-ada");
        reveal_strlit("MaiBot-Napcat-Adapter");
        reveal_strlit("napcat");
        reveal_strlit("NapCat");
        assert("main"@.len() == 4);
        assert("MaiBot"@.len() == 6);
        assert("napcat"@.len() == 6);
        assert("NapCat"@.len() == 6);
        assert("napcat-ada"@.len() == 10);
        assert("MaiBot-Napcat-Adapter"@.len() == 21);
        assert("MaiBot"@[0] == 'M' && "napcat"@[0] == 'n' && "NapCat"@[0] == 'N');
        assert("MaiBot"@ != "napcat"@);
        assert("MaiBot"@ != "NapCat"@);
        assert("napcat"@ != "NapCat"@);
    }
    if str_eq(component, "main") || str_eq(component, "MaiBot") {
        Some(GitHubRepo { owner: "MaiM-with-u", repo: "MaiBot", has_releases: false })
    } else if str_eq(component, "napcat-ada") || str_eq(component, "MaiBot-Napcat-Adapter") {
        Some(GitHubRepo { owner: "MaiM-with-u", repo: "MaiBot-Napcat-Adapter", has_releases: false })
    } else if str_eq(component, "napcat") || str_eq(component, "NapCat") {
        Some(GitHubRepo { owner: "NapNeko", repo: "NapCatQQ", has_releases: true })
    } else {
        None
    }
}

/// True when `c` is an ASCII decimal digit.
pub open spec fn is_digit(c: char) -> bool {
    48 <= c as int && c as int <= 57
}

/// The numeric value of a digit character.
pub open spec fn digit_val(c: char) -> int {
    c as int - 48
}

/// True when every character of `s` is a decimal digit.
pub open spec fn all_digits(s: Seq<char>) -> bool {
    forall|i: int| 0 <= i < s.len() ==> is_digit(#[trigger] s[i])
}

/// The number a digit string denotes, most significant digit first.
pub open spec fn digits_value(s: Seq<char>) -> int
    decreases s.len(),
{
    if s.len() == 0 {
        0
    } else {
        digits_value(s.drop_last()) * 10 + digit_val(s.last())
    }
}

/// What Rust's `i32` parser makes of `seg`: an optional sign, then at
/// least one decimal digit, within the `i32` range — or nothing.
pub open spec fn parsed_i32(seg: Seq<char>) -> Option<int> {
    let signed = seg.len() > 0 && (seg[0] == '+' || seg[0] == '-');
    let digits = if signed { seg.skip(1) } else { seg };
    let neg = seg.len() > 0 && seg[0] == '-';
    if digits.len() > 0 && all_digits(digits) {
        let v = digits_value(digits);
        if neg {
            if v <= 2147483648 {
                Some(-v)
            } else {
                None
            }
        } else {
            if v <= 2147483647 {
                Some(v)
            } else {
                None
            }
        }
    } else {
        None
    }
}

/// Index of the first `.` in `s`; `s.len()` when there is none.
pub open spec fn first_dot(s: Seq<char>) -> nat
    decreases s.len(),
{
    if s.len() == 0 {
        0
    } else if s[0] == '.' {
        0
    } else {
        1 + first_dot(s.skip(1))
    }
}

/// `s` split on `.`: the dots are dropped and the pieces — possibly
/// empty — kept in order.
pub open spec fn split_dots(s: Seq<char>) -> Seq<Seq<char>>
    decreases s.len(),
{
    let i = first_dot(s) as int;
    if i >= s.len() {
        seq![s]
    } else {
        seq![s.take(i)] + split_dots(s.skip(i + 1))
    }
}

/// The segments of `segs` that parse as `i32`, parsed, in order; the
/// rest are skipped.
pub open spec fn parsed_values(segs: Seq<Seq<char>>) -> Seq<int>
    decreases segs.len(),
{
    if segs.len() == 0 {
        Seq::empty()
    } else {
        parsed_values(segs.drop_last()) + match parsed_i32(segs.last()) {
            Some(v) => seq![v],
            None => Seq::empty(),
        }
    }
}

/// The `(major, minor, micro)` reading of an interpreter version string:
/// the first three dot-separated numeric pieces, missing ones read as 0.
pub open spec fn python_version_triple(s: Seq<char>) -> (int, int, int) {
    let vals = parsed_values(split_dots(s));
    (
        if vals.len() > 0 { vals[0] } else { 0 },
        if vals.len() > 1 { vals[1] } else { 0 },
        if vals.len() > 2 { vals[2] } else { 0 },
    )
}

/// A digit string denotes a non-negative number.
proof fn lemma_digits_value_nonneg(s: Seq<char>)
    requires
        all_digits(s),
    ensures
        digits_value(s) >= 0,
    decreases s.len(),
{
    if s.len() > 0 {
        assert(all_digits(s.drop_last()));
        lemma_digits_value_nonneg(s.drop_last());
    }
}

/// Extending a digit string never shrinks its value.
proof fn lemma_digits_prefix_le(s: Seq<char>, k: int)
    requires
        all_digits(s),
        0 <= k <= s.len(),
    ensures
        digits_value(s.take(k)) <= digits_value(s),
    decreases s.len() - k,
{
    if k < s.len() {
        assert(s.take(k + 1).drop_last() =~= s.take(k));
        assert(all_digits(s.take(k)));
        lemma_digits_value_nonneg(s.take(k));
        assert(digits_value(s.take(k + 1))
            == digits_value(s.take(k)) * 10 + digit_val(s.take(k + 1).last()));
        assert(digits_value(s.take(k + 1)) >= digits_value(s.take(k)));
        lemma_digits_prefix_le(s, k + 1);
    } else {
        assert(s.take(k) =~= s);
    }
}

/// Where the scan found the first dot, the spec agrees.
proof fn lemma_first_dot_at(s: Seq<char>, k: int)
    requires
        0 <= k <= s.len(),
        forall|j: int| 0 <= j < k ==> s[j] != '.',
        k == s.len() || s[k] == '.',
    ensures
        first_dot(s) == k,
    decreases k,
{
    if s.len() == 0 {
    } else if k == 0 {
    } else {
        assert(s[0] != '.');
        let t = s.skip(1);
        assert forall|j: int| 0 <= j < k - 1 implies t[j] != '.' by {
            assert(t[j] == s[j + 1]);
        }
        if k - 1 < t.len() {
            assert(t[k - 1] == s[k]);
        }
        lemma_first_dot_at(t, k - 1);
    }
}

/// Index of the first `.` in `s`, or its length when there is none.
fn find_first_dot(s: &str) -> (r: usize)
    ensures
        r == first_dot(s@),
        r <= s@.len(),
{
    let n = s.unicode_len();
    let mut k: usize = 0;
    while k < n
        invariant
            k <= n,
            n == s@.len(),
            forall|j: int| 0 <= j < k ==> s@[j] != '.',
        decreases n - k,
    {
        if s.get_char(k) == '.' {
            proof {
                lemma_first_dot_at(s@, k as int);
            }
            return k;
        }
        k += 1;
    }
    proof {
        lemma_first_dot_at(s@, n as int);
    }
    n
}

/// Splits `s` on dots, keeping the (possibly empty) pieces in order.
fn split_dots_exec(s: &str) -> (r: Vec<String>)
    ensures
        r.deep_view() == split_dots(s@),
    decreases s@.len(),
{
    let n = s.unicode_len();
    let i = find_first_dot(s);
    if i >= n {
        let mut r: Vec<String> = Vec::new();
        proof {
            assert(r.deep_view() =~= Seq::<Seq<char>>::empty());
        }
        push_chunk(&mut r, s.to_owned());
        proof {
            assert(r.deep_view() =~= seq![s@]);
        }
        r
    } else {
        let head = s.substring_char(0, i);
        let tail = s.substring_char(i + 1, n);
        proof {
            assert(tail@ =~= s@.skip(i + 1));
            assert(head@ =~= s@.take(i as int));
        }
        let rest = split_dots_exec(tail);
        let mut r: Vec<String> = Vec::new();
        proof {
            assert(r.deep_view() =~= Seq::<Seq<char>>::empty());
        }
        push_chunk(&mut r, head.to_owned());
        let m = rest.len();
        let mut k: usize = 0;
        while k < m
            invariant
                k <= m,
                m == rest@.len(),
                r.deep_view() =~= seq![s@.take(first_dot(s@) as int)]
                    + rest.deep_view().take(k as int),
                rest.deep_view() == split_dots(s@.skip(first_dot(s@) as int + 1)),
                first_dot(s@) < s@.len(),
            decreases m - k,
        {
            proof {
                assert(rest.deep_view()[k as int] == rest@[k as int]@);
            }
            push_chunk(&mut r, rest[k].clone());
            proof {
                assert(rest.deep_view().take(k + 1 as int)
                    =~= rest.deep_view().take(k as int).push(rest.deep_view()[k as int]));
                assert(r.deep_view() =~= seq![s@.take(first_dot(s@) as int)]
                    + rest.deep_view().take(k + 1 as int));
            }
            k += 1;
        }
        proof {
            assert(rest.deep_view().take(m as int) =~= rest.deep_view());
            assert(r.deep_view() =~= split_dots(s@));
        }
        r
    }
}

/// Parses `seg` as Rust's `i32` parser would: optional sign, at least
/// one digit, value within range.
#[verifier::loop_isolation(false)]
fn parse_i32_exec(seg: &str) -> (r: Option<i32>)
    ensures
        (r matches Some(v) ==> parsed_i32(seg@) == Some(v as int)),
        r is None ==> parsed_i32(seg@) is None,
{
    let n = seg.unicode_len();
    if n == 0 {
        return None;
    }
    let c0 = seg.get_char(0);
    let signed = c0 == '+' || c0 == '-';
    let negative = c0 == '-';
    let start: usize = if signed { 1 } else { 0 };
    let ghost digits = if signed { seg@.skip(1) } else { seg@ };
    proof {
        assert(digits =~= seg@.subrange(start as int, n as int));
    }
    if start >= n {
        return None;
    }
    let mut acc: u64 = 0;
    let mut over = false;
    let mut k = start;
    while k < n
        invariant
            start <= k <= n,
            n == seg@.len(),
            start <= 1,
            digits == seg@.subrange(start as int, n as int),
            forall|j: int| start <= j < k ==> is_digit(#[trigger] seg@[j]),
            !over ==> acc as int == digits_value(seg@.subrange(start as int, k as int))
                && acc <= 2147483648,
            over ==> digits_value(seg@.subrange(start as int, k as int)) > 2147483648,
        decreases n - k,
    {
        let c = seg.get_char(k);
        let u = c as u32;
        if u < 48 || u > 57 {
            proof {
                assert(!is_digit(seg@[k as int]));
                assert(seg@[k as int] == digits[k - start]);
                assert(!all_digits(digits));
            }
            return None;
        }
        let d = (u - 48) as u64;
        let ghost sub = seg@.subrange(start as int, k as int);
        let ghost sub1 = seg@.subrange(start as int, k + 1 as int);
        proof {
            assert(sub1.drop_last() =~= sub);
            assert(sub1.last() == seg@[k as int]);
            assert(digits_value(sub1) == digits_value(sub) * 10 + digit_val(seg@[k as int]));
        }
        if over {
            proof {
                assert(all_digits(sub));
                lemma_digits_value_nonneg(sub);
                assert(digits_value(sub1) > 2147483648);
            }
        } else {
            acc = acc * 10 + d;
            if acc > 2147483648 {
                over = true;
            }
        }
        k += 1;
    }
    proof {
        assert(seg@.subrange(start as int, n as int) =~= digits);
        assert forall|i: int| 0 <= i < digits.len() implies is_digit(#[trigger] digits[i]) by {
            assert(digits[i] == seg@[start + i]);
        }
        assert(all_digits(digits));
        assert(digits.len() > 0);
    }
    if over {
        proof {
            lemma_digits_value_nonneg(digits);
        }
        return None;
    }
    if negative {
        if acc == 2147483648 {
            Some(-2147483647 - 1)
        } else {
            let v = acc as i32;
            Some(-v)
        }
    } else {
        if acc >= 2147483648 {
            None
        } else {
            Some(acc as i32)
        }
    }
}

/// Reads an interpreter version string such as `"3.11.5"` as a
/// `(major, minor, micro)` triple.  Pieces that do not parse as numbers
/// are skipped; missing pieces read as 0.
pub fn parse_python_version(version: &str) -> (r: (i32, i32, i32))
    ensures
        ({
            let t = python_version_triple(version@);
            r.0 as int == t.0 && r.1 as int == t.1 && r.2 as int == t.2
        }),
{
    let segs = split_dots_exec(version);
    let ghost spec_segs = split_dots(version@);
    let mut vals: Vec<i32> = Vec::new();
    let n = segs.len();
    let mut k: usize = 0;
    while k < n
        invariant
            k <= n,
            n == segs@.len(),
            segs.deep_view() == spec_segs,
            vals@.map_values(|x: i32| x as int) =~= parsed_values(spec_segs.take(k as int)),
        decreases n - k,
    {
        let ghost taken = spec_segs.take(k as int);
        let ghost taken1 = spec_segs.take(k + 1 as int);
        proof {
            assert(taken1.drop_last() =~= taken);
            assert(taken1.last() == spec_segs[k as int]);
            assert(segs@[k as int]@ == spec_segs[k as int]);
        }
        match parse_i32_exec(segs[k].as_str()) {
            Some(v) => {
                vals.push(v);
                proof {
                    assert(vals@.map_values(|x: i32| x as int)
                        =~= parsed_values(taken).push(v as int));
                    assert(parsed_values(taken1) =~= parsed_values(taken).push(v as int));
                }
            }
            None => {
                proof {
                    assert(parsed_values(taken1) =~= parsed_values(taken));
                }
            }
        }
        k += 1;
    }
    proof {
        assert(spec_segs.take(n as int) =~= spec_segs);
    }
    let major = if vals.len() > 0 { vals[0] } else { 0 };
    let minor = if vals.len() > 1 { vals[1] } else { 0 };
    let micro = if vals.len() > 2 { vals[2] } else { 0 };
    proof {
        let vs = parsed_values(spec_segs);
        assert(vals@.map_values(|x: i32| x as int).len() == vals@.len());
        if vals@.len() > 0 {
            assert(vals@.map_values(|x: i32| x as int)[0] == vals@[0] as int);
        }
        if vals@.len() > 1 {
            assert(vals@.map_values(|x: i32| x as int)[1] == vals@[1] as int);
        }
        if vals@.len() > 2 {
            assert(vals@.map_values(|x: i32| x as int)[2] == vals@[2] as int);
        }
    }
    (major, minor, micro)
}

} // verus!
