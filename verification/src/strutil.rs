//! Small verified string helpers shared across the crate.

use vstd::prelude::*;
use vstd::string::{StringExecFns, StrSliceExecFns};

verus! {

/// `c` with an ASCII capital letter folded to its small form; any other
/// character is left alone.
pub open spec fn lower_char(c: char) -> char {
    if 65 <= c as int && c as int <= 90 {
        ((c as u8) + 32) as char
    } else {
        c
    }
}

/// `s` with every ASCII capital letter folded to its small form.
pub open spec fn lower_seq(s: Seq<char>) -> Seq<char> {
    s.map_values(|c: char| lower_char(c))
}

/// Folds one ASCII capital letter to its small form.
pub fn lower_char_exec(c: char) -> (r: char)
    ensures
        r == lower_char(c),
{
    let u = c as u32;
    if 65 <= u && u <= 90 {
        ((u + 32) as u8) as char
    } else {
        c
    }
}

/// True exactly when `s`, its ASCII capitals folded to small letters,
/// equals `lit` (so `lit` is expected in small letters already).
pub fn eq_ignore_ascii_case(s: &str, lit: &str) -> (r: bool)
    ensures
        r == (lower_seq(s@) == lit@),
{
    let n = s.unicode_len();
    let m = lit.unicode_len();
    proof {
        assert(lower_seq(s@).len() == s@.len());
    }
    if n != m {
        return false;
    }
    let mut k: usize = 0;
    while k < n
        invariant
            k <= n,
            n == s@.len(),
            n == lit@.len(),
            forall|j: int| 0 <= j < k ==> lower_seq(s@)[j] == lit@[j],
        decreases n - k,
    {
        let cs = s.get_char(k);
        let cl = lit.get_char(k);
        if lower_char_exec(cs) != cl {
            proof {
                assert(lower_seq(s@)[k as int] != lit@[k as int]);
            }
            return false;
        }
        proof {
            assert(lower_seq(s@)[k as int] == lit@[k as int]);
        }
        k += 1;
    }
    proof {
        assert(lower_seq(s@) =~= lit@);
    }
    true
}

/// Appends one string to a vector, tracking the contents at the level of
/// character sequences.
pub fn push_chunk(v: &mut Vec<String>, s: String)
    ensures
        final(v).deep_view() == old(v).deep_view().push(s@),
{
    let ghost pre = v@;
    proof {
        assert(v.deep_view().len() == pre.len());
    }
    v.push(s);
    proof {
        assert forall|m: int| 0 <= m < v@.len()
            implies v.deep_view()[m] == old(v).deep_view().push(s@)[m] by {
            assert(v.deep_view()[m] == v@[m].deep_view());
            if m < pre.len() {
                assert(v@[m] == pre[m]);
            }
        }
        assert(v.deep_view() =~= old(v).deep_view().push(s@));
    }
}

/// True exactly when the two string slices hold the same characters.
pub fn str_eq(a: &str, b: &str) -> (r: bool)
    ensures
        r == (a@ == b@),
{
    let sa = a.to_owned();
    let sb = b.to_owned();
    sa == sb
}

/// The single-string form of a session identity: the instance id and the
/// component name joined by an underscore.
pub open spec fn session_key(i: Seq<char>, c: Seq<char>) -> Seq<char> {
    i + "_"@ + c
}

/// Builds the session id string for an identity.
pub fn session_id_of(instance_id: &str, component: &str) -> (r: String)
    ensures
        r@ == session_key(instance_id@, component@),
{
    let mut s = instance_id.to_owned();
    s.append("_");
    s.append(component);
    s
}

/// Concatenation of a fixed prefix and a computed rest, the shape of most
/// diagnostic messages in this crate.
pub fn concat2(prefix: &str, rest: &str) -> (r: String)
    ensures
        r@ == prefix@ + rest@,
{
    let mut s = prefix.to_owned();
    s.append(rest);
    s
}

/// Concatenation of three pieces: `prefix` then `mid` then `suffix`.
pub fn concat3(prefix: &str, mid: &str, suffix: &str) -> (r: String)
    ensures
        r@ == prefix@ + mid@ + suffix@,
{
    let mut s = prefix.to_owned();
    s.append(mid);
    s.append(suffix);
    s
}

} // verus!
