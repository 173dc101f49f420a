//! Temporary-path resolution.
//!
//! A destination path is a sequence of bytes; `/` separates directories.
//! The resolver derives candidate paths for the staging file: the
//! destination's file name behind a leading dot, in the same directory, and,
//! when earlier candidates are taken, with `-1`, `-2`, ... appended. The
//! caller probes the filesystem for each candidate in turn; distinct
//! candidate numbers give distinct paths, so concurrent operations that see
//! each other's staging files never collide.

use vstd::prelude::*;

verus! {

/// The directory separator byte, `/`.
pub open spec fn sep() -> u8 {
    47
}

/// The index right after the last separator of `p` (0 when `p` has none):
/// everything before it is the directory part, everything from it on is the
/// file-name part.
pub open spec fn split_idx(p: Seq<u8>) -> int
    decreases p.len(),
{
    if p.len() == 0 {
        0
    } else if p[p.len() - 1] == sep() {
        p.len() as int
    } else {
        split_idx(p.drop_last())
    }
}

/// The directory part of `p`, including the trailing separator; empty when
/// `p` is a bare file name.
pub open spec fn dir_part(p: Seq<u8>) -> Seq<u8> {
    p.subrange(0, split_idx(p))
}

/// The file-name part of `p`: the bytes after the last separator.
pub open spec fn base_part(p: Seq<u8>) -> Seq<u8> {
    p.subrange(split_idx(p), p.len() as int)
}

/// A destination is usable exactly when its file-name part is a real name:
/// nonempty and neither `.` nor `..`. A path that ends in a separator, or
/// names only a directory step, has no file to replace.
pub open spec fn valid_dest(p: Seq<u8>) -> bool {
    &&& base_part(p).len() > 0
    &&& base_part(p) != seq![46u8]
    &&& base_part(p) != seq![46u8, 46u8]
}

/// The decimal digits of `n`, most significant first, no leading zeros.
pub open spec fn dec_rep(n: nat) -> Seq<u8>
    decreases n,
{
    if n < 10 {
        seq![(48 + n) as u8]
    } else {
        dec_rep(n / 10) + seq![(48 + n % 10) as u8]
    }
}

/// The suffix of the `n`-th candidate: empty for the first try, `-n` after.
pub open spec fn num_suffix(n: nat) -> Seq<u8> {
    if n == 0 {
        Seq::empty()
    } else {
        seq![45u8] + dec_rep(n)
    }
}

/// The `n`-th temporary-path candidate for destination `p`: the same
/// directory, the file name hidden behind a leading dot, and the numeric
/// suffix for retries.
pub open spec fn temp_name(p: Seq<u8>, n: nat) -> Seq<u8> {
    dir_part(p) + seq![46u8] + base_part(p) + num_suffix(n)
}

pub proof fn lemma_split_idx_bounds(p: Seq<u8>)
    ensures
        0 <= split_idx(p) <= p.len(),
    decreases p.len(),
{
    if p.len() > 0 && p[p.len() - 1] != sep() {
        lemma_split_idx_bounds(p.drop_last());
    }
}

/// A path without separators is all file name.
pub proof fn lemma_no_sep_split_zero(p: Seq<u8>)
    requires
        forall|i: int| 0 <= i < p.len() ==> p[i] != sep(),
    ensures
        split_idx(p) == 0,
    decreases p.len(),
{
    if p.len() > 0 {
        assert forall|i: int| 0 <= i < p.drop_last().len() implies p.drop_last()[i] != sep() by {
            assert(p.drop_last()[i] == p[i]);
        }
        lemma_no_sep_split_zero(p.drop_last());
    }
}

/// Every byte of `dec_rep(n)` is a decimal digit.
pub proof fn lemma_dec_rep_digits(n: nat)
    ensures
        forall|i: int| 0 <= i < dec_rep(n).len() ==> 48 <= #[trigger] dec_rep(n)[i] <= 57,
    decreases n,
{
    if n < 10 {
        assert(dec_rep(n)[0] == (48 + n) as u8);
    } else {
        lemma_dec_rep_digits(n / 10);
        assert(n % 10 < 10);
        assert forall|i: int| 0 <= i < dec_rep(n).len() implies 48 <= #[trigger] dec_rep(n)[i]
            <= 57 by {
            if i < dec_rep(n / 10).len() {
                assert(dec_rep(n)[i] == dec_rep(n / 10)[i]);
            } else {
                assert(dec_rep(n)[i] == (48 + n % 10) as u8);
            }
        }
    }
}

/// `dec_rep` is never empty, and is a single digit exactly for `n < 10`.
pub proof fn lemma_dec_rep_len(n: nat)
    ensures
        dec_rep(n).len() >= 1,
        n < 10 <==> dec_rep(n).len() == 1,
    decreases n,
{
    if n >= 10 {
        lemma_dec_rep_len(n / 10);
    }
}

/// Distinct numbers have distinct decimal representations.
pub proof fn lemma_dec_rep_injective(a: nat, b: nat)
    requires
        dec_rep(a) == dec_rep(b),
    ensures
        a == b,
    decreases a,
{
    lemma_dec_rep_len(a);
    lemma_dec_rep_len(b);
    if a < 10 && b < 10 {
        assert(dec_rep(a)[0] == (48 + a) as u8);
        assert(dec_rep(b)[0] == (48 + b) as u8);
        assert((48 + a) as u8 == (48 + b) as u8);
        assert(a == b);
    } else if a < 10 || b < 10 {
        // one representation has one digit, the other at least two
        assert(false);
    } else {
        let da: u8 = (48 + a % 10) as u8;
        let db: u8 = (48 + b % 10) as u8;
        assert(dec_rep(a).last() == da);
        assert(dec_rep(b).last() == db);
        assert(a % 10 < 10);
        assert(b % 10 < 10);
        assert(a % 10 == b % 10);
        assert(dec_rep(a).drop_last() =~= dec_rep(a / 10));
        assert(dec_rep(b).drop_last() =~= dec_rep(b / 10));
        lemma_dec_rep_injective(a / 10, b / 10);
        assert(a == 10 * (a / 10) + a % 10) by (nonlinear_arith);
        assert(b == 10 * (b / 10) + b % 10) by (nonlinear_arith);
    }
}

/// Distinct candidate numbers give distinct temporary paths, so two
/// resolutions that settle on different retry counts can never name the same
/// staging file.
pub proof fn lemma_temp_name_injective(p: Seq<u8>, n1: nat, n2: nat)
    requires
        n1 != n2,
    ensures
        temp_name(p, n1) != temp_name(p, n2),
{
    if temp_name(p, n1) == temp_name(p, n2) {
        let pre = dir_part(p) + seq![46u8] + base_part(p);
        let s1 = num_suffix(n1);
        let s2 = num_suffix(n2);
        assert(temp_name(p, n1) == pre + s1);
        assert(temp_name(p, n2) == pre + s2);
        assert(s1.len() == s2.len());
        lemma_dec_rep_len(n1);
        lemma_dec_rep_len(n2);
        // neither suffix can be empty while the other is not, so both carry digits
        assert(n1 != 0 && n2 != 0);
        assert forall|i: int| 0 <= i < s1.len() implies s1[i] == s2[i] by {
            assert((pre + s1)[pre.len() + i] == s1[i]);
            assert((pre + s2)[pre.len() + i] == s2[i]);
        }
        assert(s1 =~= s2);
        assert(dec_rep(n1) =~= s1.subrange(1, s1.len() as int));
        assert(dec_rep(n2) =~= s2.subrange(1, s2.len() as int));
        lemma_dec_rep_injective(n1, n2);
        assert(false);
    }
}

/// A candidate is strictly longer than the destination, so the staging file
/// never shares the destination's own path.
pub proof fn lemma_temp_name_differs(p: Seq<u8>, n: nat)
    ensures
        temp_name(p, n).len() > p.len(),
        temp_name(p, n) != p,
{
    lemma_split_idx_bounds(p);
}

/// A bare file name (no separator anywhere) that is a real name resolves
/// without error, and every candidate is itself separator-free: the staging
/// file lands in the implicit current directory.
pub proof fn lemma_bare_name_stays_local(p: Seq<u8>, n: nat)
    requires
        forall|i: int| 0 <= i < p.len() ==> p[i] != sep(),
        p.len() > 0,
        p != seq![46u8],
        p != seq![46u8, 46u8],
    ensures
        valid_dest(p),
        forall|i: int| 0 <= i < temp_name(p, n).len() ==> #[trigger] temp_name(p, n)[i] != sep(),
{
    lemma_no_sep_split_zero(p);
    assert(base_part(p) =~= p);
    assert(dir_part(p) =~= Seq::<u8>::empty());
    lemma_dec_rep_digits(n);
    let t = temp_name(p, n);
    assert forall|i: int| 0 <= i < t.len() implies #[trigger] t[i] != sep() by {
        let pre = dir_part(p) + seq![46u8] + base_part(p);
        if i == 0 {
            assert(t[0] == 46u8);
        } else if i < pre.len() {
            assert(t[i] == p[i - 1]);
        } else {
            assert(t[i] == num_suffix(n)[i - pre.len()]);
            if n != 0 {
                if i - pre.len() > 0 {
                    assert(num_suffix(n)[i - pre.len()] == dec_rep(n)[i - pre.len() - 1]);
                }
            }
        }
    }
}

/// Returns `split_idx(p@)` : the start of the file-name part.
fn split_index(p: &Vec<u8>) -> (r: usize)
    ensures
        r == split_idx(p@),
        r <= p.len(),
{
    let mut i: usize = 0;
    let mut idx: usize = 0;
    while i < p.len()
        invariant
            i <= p.len(),
            idx <= i,
            idx == split_idx(p@.subrange(0, i as int)),
        decreases p.len() - i,
    {
        proof {
            let q = p@.subrange(0, i + 1);
            assert(q.drop_last() =~= p@.subrange(0, i as int));
            assert(q[q.len() - 1] == p@[i as int]);
        }
        if p[i] == 47u8 {
            idx = i + 1;
        }
        i = i + 1;
    }
    proof {
        assert(p@.subrange(0, p.len() as int) =~= p@);
    }
    idx
}

/// Decides whether `p` names a replaceable file: its file-name part must be
/// nonempty and neither `.` nor `..`.
pub fn is_valid_dest(p: &Vec<u8>) -> (r: bool)
    ensures
        r == valid_dest(p@),
{
    let si: usize = split_index(p);
    let n: usize = p.len() - si;
    if n == 0 {
        proof {
            assert(base_part(p@).len() == 0);
        }
        return false;
    }
    if n == 1 && p[si] == 46u8 {
        proof {
            assert(base_part(p@) =~= seq![46u8]);
        }
        return false;
    }
    if n == 2 && p[si] == 46u8 && p[si + 1] == 46u8 {
        proof {
            assert(base_part(p@) =~= seq![46u8, 46u8]);
        }
        return false;
    }
    proof {
        let b = base_part(p@);
        assert(b.len() == n);
        assert(b[0] == p@[si as int]);
        if n == 2 {
            assert(b[1] == p@[si + 1]);
        }
    }
    true
}

/// Appends the decimal digits of `n` to `v`.
fn push_decimal(v: &mut Vec<u8>, n: u64)
    ensures
        final(v)@ == old(v)@ + dec_rep(n as nat),
    decreases n,
{
    if n < 10 {
        v.push(48 + n as u8);
        proof {
            assert(v@ =~= old(v)@ + dec_rep(n as nat));
        }
    } else {
        push_decimal(v, n / 10);
        v.push(48 + (n % 10) as u8);
        proof {
            assert((n / 10) as nat == (n as nat) / 10);
            assert((n % 10) as nat == (n as nat) % 10);
            assert(v@ =~= old(v)@ + dec_rep(n as nat));
        }
    }
}

/// Builds the `num`-th temporary-path candidate for destination `p`.
pub fn temp_candidate(p: &Vec<u8>, num: u64) -> (r: Vec<u8>)
    ensures
        r@ == temp_name(p@, num as nat),
{
    let si: usize = split_index(p);
    let mut r: Vec<u8> = Vec::new();
    let mut i: usize = 0;
    while i < si
        invariant
            i <= si,
            si <= p.len(),
            si == split_idx(p@),
            r@ == p@.subrange(0, i as int),
        decreases si - i,
    {
        r.push(p[i]);
        proof {
            assert(r@ =~= p@.subrange(0, i + 1));
        }
        i = i + 1;
    }
    r.push(46u8);
    let mut j: usize = si;
    while j < p.len()
        invariant
            si <= j <= p.len(),
            si == split_idx(p@),
            r@ == dir_part(p@) + seq![46u8] + p@.subrange(si as int, j as int),
        decreases p.len() - j,
    {
        r.push(p[j]);
        proof {
            assert(r@ =~= dir_part(p@) + seq![46u8] + p@.subrange(si as int, j + 1));
        }
        j = j + 1;
    }
    if num > 0 {
        r.push(45u8);
        push_decimal(&mut r, num);
    }
    proof {
        assert(r@ =~= temp_name(p@, num as nat));
    }
    r
}

} // verus!
