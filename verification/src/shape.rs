//! Shapes: element counts of dimension lists, and the broadcast view of a
//! strided operand.

use vstd::prelude::*;

verus! {

/// Product of the dimensions `s` (1 for no dimension).
pub open spec fn prod(s: Seq<usize>) -> int
    decreases s.len(),
{
    if s.len() == 0 {
        1
    } else {
        prod(s.drop_last()) * s.last()
    }
}

/// Product of the non-zero dimensions of `s`.
pub open spec fn nz_prod(s: Seq<usize>) -> int
    decreases s.len(),
{
    if s.len() == 0 {
        1
    } else {
        nz_prod(s.drop_last()) * (if s.last() == 0 { 1 } else { s.last() as int })
    }
}

/// Every partial product of the dimensions `s` fits in a `usize`: the
/// element count of any run of consecutive dimensions can be computed
/// without overflow.
pub open spec fn dims_fit(s: Seq<usize>) -> bool {
    nz_prod(s) <= usize::MAX
}

pub proof fn lemma_nz_prod_pos(s: Seq<usize>)
    ensures
        nz_prod(s) >= 1,
    decreases s.len(),
{
    if s.len() > 0 {
        lemma_nz_prod_pos(s.drop_last());
        let a = nz_prod(s.drop_last());
        let b = if s.last() == 0 { 1 } else { s.last() as int };
        assert(a * b >= 1) by (nonlinear_arith)
            requires
                a >= 1,
                b >= 1,
        ;
    }
}

pub proof fn lemma_prod_nonneg(s: Seq<usize>)
    ensures
        prod(s) >= 0,
    decreases s.len(),
{
    if s.len() > 0 {
        lemma_prod_nonneg(s.drop_last());
        let a = prod(s.drop_last());
        let b = s.last() as int;
        assert(a * b >= 0) by (nonlinear_arith)
            requires
                a >= 0,
                b >= 0,
        ;
    }
}

pub proof fn lemma_prod_le_nz_prod(s: Seq<usize>)
    ensures
        prod(s) <= nz_prod(s),
    decreases s.len(),
{
    if s.len() > 0 {
        lemma_prod_le_nz_prod(s.drop_last());
        lemma_prod_nonneg(s.drop_last());
        let a = prod(s.drop_last());
        let na = nz_prod(s.drop_last());
        let b = s.last() as int;
        if b != 0 {
            assert(a * b <= na * b) by (nonlinear_arith)
                requires
                    0 <= a <= na,
                    b >= 0,
            ;
        }
    }
}

pub proof fn lemma_prod_append(a: Seq<usize>, b: Seq<usize>)
    ensures
        prod(a + b) == prod(a) * prod(b),
        nz_prod(a + b) == nz_prod(a) * nz_prod(b),
    decreases b.len(),
{
    if b.len() == 0 {
        assert(a + b =~= a);
    } else {
        assert((a + b).drop_last() =~= a + b.drop_last());
        lemma_prod_append(a, b.drop_last());
        let pa = prod(a);
        let pb = prod(b.drop_last());
        let na = nz_prod(a);
        let nb = nz_prod(b.drop_last());
        let l = b.last() as int;
        let nl = if b.last() == 0 { 1 } else { b.last() as int };
        assert(pa * pb * l == pa * (pb * l)) by (nonlinear_arith);
        assert(na * nb * nl == na * (nb * nl)) by (nonlinear_arith);
    }
}

/// The dimensions `s[lo..hi]` multiply to at most the non-zero product of
/// all of `s`.
pub proof fn lemma_subrange_prod_bound(s: Seq<usize>, lo: int, hi: int)
    requires
        0 <= lo <= hi <= s.len(),
    ensures
        0 <= prod(s.subrange(lo, hi)) <= nz_prod(s),
{
    let a = s.subrange(0, lo);
    let b = s.subrange(lo, hi);
    let c = s.subrange(hi, s.len() as int);
    assert(s =~= a + b + c);
    lemma_prod_append(a + b, c);
    lemma_prod_append(a, b);
    lemma_nz_prod_pos(a);
    lemma_nz_prod_pos(b);
    lemma_nz_prod_pos(c);
    lemma_prod_le_nz_prod(b);
    lemma_prod_nonneg(b);
    let na = nz_prod(a);
    let nb = nz_prod(b);
    let nc = nz_prod(c);
    assert(nb <= na * nb * nc) by (nonlinear_arith)
        requires
            na >= 1,
            nb >= 1,
            nc >= 1,
    ;
}

/// The element count of the dimensions `v[lo..hi]`.
pub fn product(v: &[usize], lo: usize, hi: usize) -> (r: usize)
    requires
        lo <= hi <= v@.len(),
        dims_fit(v@),
    ensures
        r == prod(v@.subrange(lo as int, hi as int)),
{
    let mut acc: usize = 1;
    let mut i: usize = lo;
    while i < hi
        invariant
            lo <= i <= hi <= v@.len(),
            dims_fit(v@),
            acc == prod(v@.subrange(lo as int, i as int)),
        decreases hi - i,
    {
        proof {
            lemma_subrange_prod_bound(v@, lo as int, i + 1);
            assert(v@.subrange(lo as int, i + 1).drop_last() =~= v@.subrange(lo as int, i as int));
        }
        acc = acc * v[i];
        i = i + 1;
    }
    acc
}

/// The dimensions of a strided operand as a broadcast sees them: a
/// dimension of stride 0 is broadcast and counts as 1. Dimensions beyond
/// the shorter of the two lists are dropped.
pub open spec fn broadcast_dims(dims: Seq<usize>, stride: Seq<usize>) -> Seq<usize> {
    Seq::new(
        if dims.len() <= stride.len() { dims.len() } else { stride.len() },
        |i: int| if stride[i] == 0 { 1usize } else { dims[i] },
    )
}

/// The broadcast view of a strided operand (see `broadcast_dims`).
pub fn effective_dims(dims: &[usize], stride: &[usize]) -> (r: Vec<usize>)
    ensures
        r@ == broadcast_dims(dims@, stride@),
{
    let n: usize = if dims.len() <= stride.len() { dims.len() } else { stride.len() };
    let mut out: Vec<usize> = Vec::with_capacity(n);
    let mut i: usize = 0;
    while i < n
        invariant
            n == (if dims@.len() <= stride@.len() { dims@.len() } else { stride@.len() }),
            i <= n,
            out@ == broadcast_dims(dims@, stride@).take(i as int),
        decreases n - i,
    {
        let d: usize = if stride[i] == 0 { 1 } else { dims[i] };
        out.push(d);
        i = i + 1;
        proof {
            assert(out@ =~= broadcast_dims(dims@, stride@).take(i as int));
        }
    }
    proof {
        assert(out@ =~= broadcast_dims(dims@, stride@));
    }
    out
}

/// The element count of three or four dimensions, written out.
pub proof fn lemma_prod_small(s: Seq<usize>)
    ensures
        s.len() == 2 ==> prod(s) == s[0] * s[1],
        s.len() == 3 ==> prod(s) == s[0] * s[1] * s[2],
        s.len() == 4 ==> prod(s) == s[0] * s[1] * s[2] * s[3],
{
    reveal_with_fuel(prod, 5);
    if s.len() >= 2 && s.len() <= 4 {
        let n = s.len() as int;
        assert(s.subrange(0, 0) =~= Seq::<usize>::empty());
        assert(s.subrange(0, 1).drop_last() =~= s.subrange(0, 0));
        assert(s.subrange(0, 2).drop_last() =~= s.subrange(0, 1));
        assert(prod(s.subrange(0, 2)) == s[0] * s[1]);
        if n >= 3 {
            assert(s.subrange(0, 3).drop_last() =~= s.subrange(0, 2));
        }
        if n == 4 {
            assert(s.subrange(0, 4).drop_last() =~= s.subrange(0, 3));
        }
        assert(s.subrange(0, n) =~= s);
    }
}

/// The first `k` dimensions of a shape whose partial products fit have a
/// product that fits, and so do all dimensions.
pub proof fn lemma_prefix_fits(s: Seq<usize>, k: int)
    requires
        dims_fit(s),
        0 <= k <= s.len(),
    ensures
        0 <= prod(s.take(k)) <= usize::MAX,
        0 <= prod(s) <= usize::MAX,
{
    lemma_subrange_prod_bound(s, 0, k);
    lemma_subrange_prod_bound(s, 0, s.len() as int);
    assert(s.subrange(0, k) =~= s.take(k));
    assert(s.subrange(0, s.len() as int) =~= s);
}

/// Whether every partial product of the dimensions `dims` fits in a
/// `usize` (see `dims_fit`).
pub fn check_dims_fit(dims: &[usize]) -> (r: bool)
    ensures
        r == dims_fit(dims@),
{
    let mut acc: usize = 1;
    let mut i: usize = 0;
    while i < dims.len()
        invariant
            i <= dims@.len(),
            acc == nz_prod(dims@.take(i as int)),
        decreases dims@.len() - i,
    {
        let m: usize = if dims[i] == 0 {
            1
        } else {
            dims[i]
        };
        proof {
            assert(dims@.take(i + 1).drop_last() =~= dims@.take(i as int));
            lemma_nz_prod_pos(dims@.take(i as int));
        }
        if acc > usize::MAX / m {
            proof {
                let a = acc as int;
                let mm = m as int;
                assert(a * mm > usize::MAX) by (nonlinear_arith)
                    requires
                        mm >= 1,
                        a > (usize::MAX as int) / mm,
                ;
                let t = dims@.take(i + 1);
                let rest = dims@.skip(i + 1);
                assert(dims@ =~= t + rest);
                lemma_prod_append(t, rest);
                lemma_nz_prod_pos(rest);
                let nt = nz_prod(t);
                let nr = nz_prod(rest);
                assert(nt * nr >= nt) by (nonlinear_arith)
                    requires
                        nt >= 0,
                        nr >= 1,
                ;
            }
            return false;
        }
        proof {
            let a = acc as int;
            let mm = m as int;
            assert(a * mm <= usize::MAX) by (nonlinear_arith)
                requires
                    mm >= 1,
                    a <= (usize::MAX as int) / mm,
                    a >= 0,
            ;
        }
        acc = acc * m;
        i = i + 1;
    }
    proof {
        assert(dims@.take(dims@.len() as int) =~= dims@);
    }
    true
}

} // verus!
