//! Shader source validation.
//!
//! The pipeline is built from one embedded shader text that must expose a
//! vertex entry point named `vs_main` and a fragment entry point named
//! `fs_main`. Before the host hands the text to the platform compiler, the
//! library checks that the source declares both entry points; a source that
//! lacks one can never yield a valid pipeline and is rejected fatally.

use vstd::prelude::*;

verus! {

/// Holds when the bytes of `p` occur in `s` starting at offset `i`.
pub open spec fn is_match_at(s: Seq<u8>, p: Seq<u8>, i: int) -> bool {
    &&& 0 <= i
    &&& i + p.len() <= s.len()
    &&& forall|k: int| 0 <= k < p.len() ==> s[i + k] == p[k]
}

/// Holds when the bytes of `p` occur somewhere in `s`.
pub open spec fn contains_pattern(s: Seq<u8>, p: Seq<u8>) -> bool {
    exists|i: int| is_match_at(s, p, i)
}

/// The UTF-8 bytes of `fn vs_main`, the required vertex entry declaration.
pub open spec fn vs_entry_pattern() -> Seq<u8> {
    seq![102u8, 110u8, 32u8, 118u8, 115u8, 95u8, 109u8, 97u8, 105u8, 110u8]
}

/// The UTF-8 bytes of `fn fs_main`, the required fragment entry declaration.
pub open spec fn fs_entry_pattern() -> Seq<u8> {
    seq![102u8, 110u8, 32u8, 102u8, 115u8, 95u8, 109u8, 97u8, 105u8, 110u8]
}

/// Holds when the shader source declares both required entry points.
pub open spec fn has_entry_points(s: Seq<u8>) -> bool {
    contains_pattern(s, vs_entry_pattern()) && contains_pattern(s, fs_entry_pattern())
}

/// The bytes of `fn vs_main`, as a runtime value.
fn vs_entry_pattern_vec() -> (v: Vec<u8>)
    ensures
        v@ == vs_entry_pattern(),
{
    let mut v: Vec<u8> = Vec::new();
    v.push(102u8);
    v.push(110u8);
    v.push(32u8);
    v.push(118u8);
    v.push(115u8);
    v.push(95u8);
    v.push(109u8);
    v.push(97u8);
    v.push(105u8);
    v.push(110u8);
    proof {
        assert(v@ =~= vs_entry_pattern());
    }
    v
}

/// The bytes of `fn fs_main`, as a runtime value.
fn fs_entry_pattern_vec() -> (v: Vec<u8>)
    ensures
        v@ == fs_entry_pattern(),
{
    let mut v: Vec<u8> = Vec::new();
    v.push(102u8);
    v.push(110u8);
    v.push(32u8);
    v.push(102u8);
    v.push(115u8);
    v.push(95u8);
    v.push(109u8);
    v.push(97u8);
    v.push(105u8);
    v.push(110u8);
    proof {
        assert(v@ =~= fs_entry_pattern());
    }
    v
}

/// Decides whether the bytes of `p` occur anywhere in `s`.
pub fn find_pattern(s: &[u8], p: &[u8]) -> (found: bool)
    ensures
        found == contains_pattern(s@, p@),
{
    let n: usize = s.len();
    let m: usize = p.len();
    if m > n {
        proof {
            assert(forall|i: int| !is_match_at(s@, p@, i));
        }
        return false;
    }
    if m == 0 {
        proof {
            assert(is_match_at(s@, p@, 0));
        }
        return true;
    }
    let mut i: usize = 0;
    while i <= n - m
        invariant
            0 < m <= n == s@.len(),
            m == p@.len(),
            i <= n - m + 1,
            forall|ii: int| 0 <= ii < i ==> !is_match_at(s@, p@, ii),
        decreases n - m - i + 1,
    {
        let mut k: usize = 0;
        let mut mismatch: bool = false;
        while k < m && !mismatch
            invariant
                0 < m <= n == s@.len(),
                m == p@.len(),
                i <= n - m,
                k <= m,
                !mismatch ==> forall|kk: int| 0 <= kk < k ==> s@[i + kk] == p@[kk],
                mismatch ==> !is_match_at(s@, p@, i as int),
            decreases m - k + if mismatch { 0int } else { 1int },
        {
            if s[i + k] != p[k] {
                proof {
                    assert(!is_match_at(s@, p@, i as int));
                }
                mismatch = true;
            } else {
                k = k + 1;
            }
        }
        if !mismatch {
            proof {
                assert(is_match_at(s@, p@, i as int));
            }
            return true;
        }
        i = i + 1;
    }
    proof {
        assert(forall|ii: int| is_match_at(s@, p@, ii) ==> ii < i);
    }
    false
}

/// Decides whether the shader source declares the vertex entry point
/// `vs_main` and the fragment entry point `fs_main`.
pub fn shader_declares_entry_points(source: &[u8]) -> (ok: bool)
    ensures
        ok == has_entry_points(source@),
{
    let vs = vs_entry_pattern_vec();
    let fs = fs_entry_pattern_vec();
    let has_vs = find_pattern(source, vs.as_slice());
    let has_fs = find_pattern(source, fs.as_slice());
    has_vs && has_fs
}

} // verus!
