//! In-place operations on views of shared storages: an operation whose
//! destination shares its storage with one of its sources is refused
//! (the destination would be locked for writing while the source is
//! locked for reading) rather than left to deadlock.

use vstd::prelude::*;

verus! {

/// A one-dimensional view of `len` elements of a storage, starting at
/// element `start`.
#[derive(Debug, Clone, Copy, PartialEq, Eq, Structural)]
pub struct TensorView {
    pub storage: usize,
    pub start: usize,
    pub len: usize,
}

/// Why an in-place operation was refused.
#[derive(Debug, Clone, Copy, PartialEq, Eq, Structural)]
pub enum InplaceError {
    /// The destination shares its storage with a source.
    SharedStorage,
}

/// A set of storages that views refer to by index.
#[derive(Debug)]
pub struct Storages<T> {
    data: Vec<Vec<T>>,
}

impl TensorView {
    /// The view of `len` elements of this view starting at its element
    /// `start`, if they lie within it.
    pub fn narrow(self, start: usize, len: usize) -> (r: Option<TensorView>)
        requires
            self.start + self.len <= usize::MAX,
        ensures
            (start + len <= self.len) <==> r is Some,
            r matches Some(v) ==> v == (TensorView { storage: self.storage, start: (self.start + start) as usize, len }),
    {
        if start <= self.len && len <= self.len - start {
            Some(TensorView { storage: self.storage, start: self.start + start, len })
        } else {
            None
        }
    }
}

impl<T: Copy> Storages<T> {
    /// The contents of each storage.
    pub closed spec fn contents(self) -> Seq<Seq<T>> {
        self.data@.map_values(|v: Vec<T>| v@)
    }

    /// `v` lies within one of the storages.
    pub open spec fn holds(self, v: TensorView) -> bool {
        &&& v.storage < self.contents().len()
        &&& v.start + v.len <= self.contents()[v.storage as int].len()
    }

    /// No storage.
    pub fn new() -> (r: Self)
        ensures
            r.contents() == Seq::<Seq<T>>::empty(),
    {
        Storages { data: Vec::new() }
    }

    /// Adds a storage holding `v`, and returns the view of all of it.
    pub fn from_vec(&mut self, v: Vec<T>) -> (r: TensorView)
        ensures
            final(self).contents() == old(self).contents().push(v@),
            r == (TensorView { storage: old(self).contents().len() as usize, start: 0, len: v@.len() as usize }),
    {
        let ghost old_c = self.contents();
        let storage = self.data.len();
        let len = v.len();
        self.data.push(v);
        proof {
            assert(self.contents() =~= old_c.push(v@));
        }
        TensorView { storage, start: 0, len }
    }

    /// The elements of the view `t`.
    pub fn to_vec1(&self, t: TensorView) -> (r: Vec<T>)
        requires
            self.holds(t),
        ensures
            r@ == self.contents()[t.storage as int].subrange(t.start as int, t.start + t.len),
    {
        let s = &self.data[t.storage];
        let slen = s.len();
        let mut out: Vec<T> = Vec::new();
        let mut i: usize = 0;
        while i < t.len
            invariant
                slen == s@.len(),
                self.holds(t),
                s@ == self.contents()[t.storage as int],
                i <= t.len,
                out@ == s@.subrange(t.start as int, t.start + i),
            decreases t.len - i,
        {
            out.push(s[t.start + i]);
            i = i + 1;
            proof {
                assert(out@ =~= s@.subrange(t.start as int, t.start + i));
            }
        }
        out
    }

    /// Applies `f` in place to each element of `dst` and the element at the
    /// same position of `src`: `dst[i] = f(dst[i], src[i])`. Refused when
    /// `dst` and `src` are views of one storage; the storages are then left
    /// as they were.
    pub fn inplace_op2<F: Fn(T, T) -> T>(&mut self, dst: TensorView, src: TensorView, f: F) -> (r: Result<(), InplaceError>)
        requires
            old(self).holds(dst),
            old(self).holds(src),
            src.len >= dst.len,
            forall|a: T, b: T| #[trigger] f.requires((a, b)),
        ensures
            dst.storage == src.storage <==> r is Err,
            r is Err ==> final(self).contents() == old(self).contents(),
            r is Ok ==> {
                let d = old(self).contents()[dst.storage as int];
                let s = old(self).contents()[src.storage as int];
                let n = final(self).contents()[dst.storage as int];
                &&& final(self).contents().len() == old(self).contents().len()
                &&& forall|k: int| 0 <= k < old(self).contents().len() && k != dst.storage ==> #[trigger] final(self).contents()[k] == old(self).contents()[k]
                &&& n.len() == d.len()
                &&& forall|j: int| 0 <= j < d.len() && !(dst.start <= j < dst.start + dst.len) ==> #[trigger] n[j] == d[j]
                &&& forall|i: int| 0 <= i < dst.len ==> f.ensures((d[dst.start + i], s[src.start + i]), #[trigger] n[dst.start + i])
            },
    {
        if dst.storage == src.storage {
            return Err(InplaceError::SharedStorage);
        }
        let ghost old_c = self.contents();
        let d = &self.data[dst.storage];
        let s = &self.data[src.storage];
        let slen = s.len();
        let mut out: Vec<T> = Vec::new();
        let mut j: usize = 0;
        let n = d.len();
        while j < n
            invariant
                n == d@.len(),
                slen == s@.len(),
                d@ == old_c[dst.storage as int],
                s@ == old_c[src.storage as int],
                dst.start + dst.len <= n,
                src.start + src.len <= s@.len(),
                src.len >= dst.len,
                forall|a: T, b: T| #[trigger] f.requires((a, b)),
                j <= n,
                out@.len() == j,
                forall|k: int| 0 <= k < j && !(dst.start <= k < dst.start + dst.len) ==> #[trigger] out@[k] == d@[k],
                forall|i: int| 0 <= i < dst.len && dst.start + i < j ==> f.ensures(
                    (d@[dst.start + i], s@[src.start + i]),
                    #[trigger] out@[dst.start + i],
                ),
            decreases n - j,
        {
            if dst.start <= j && j < dst.start + dst.len {
                let i = j - dst.start;
                let v = f(d[j], s[src.start + i]);
                out.push(v);
            } else {
                out.push(d[j]);
            }
            j = j + 1;
        }
        self.data.set(dst.storage, out);
        proof {
            assert forall|k: int| 0 <= k < old_c.len() && k != dst.storage implies #[trigger] self.contents()[k]
                == old_c[k] by {}
        }
        Ok(())
    }

    /// Applies `f` in place to each element of `dst` and the elements at
    /// the same position of `s2` and `s3`: `dst[i] = f(dst[i], s2[i], s3[i])`.
    /// Refused when `dst` shares its storage with `s2` or `s3`; the
    /// storages are then left as they were.
    pub fn inplace_op3<F: Fn(T, T, T) -> T>(&mut self, dst: TensorView, s2: TensorView, s3: TensorView, f: F) -> (r: Result<(), InplaceError>)
        requires
            old(self).holds(dst),
            old(self).holds(s2),
            old(self).holds(s3),
            s2.len >= dst.len,
            s3.len >= dst.len,
            forall|a: T, b: T, c: T| #[trigger] f.requires((a, b, c)),
        ensures
            (dst.storage == s2.storage || dst.storage == s3.storage) <==> r is Err,
            r is Err ==> final(self).contents() == old(self).contents(),
            r is Ok ==> {
                let d = old(self).contents()[dst.storage as int];
                let b = old(self).contents()[s2.storage as int];
                let c = old(self).contents()[s3.storage as int];
                let n = final(self).contents()[dst.storage as int];
                &&& final(self).contents().len() == old(self).contents().len()
                &&& forall|k: int| 0 <= k < old(self).contents().len() && k != dst.storage ==> #[trigger] final(self).contents()[k] == old(self).contents()[k]
                &&& n.len() == d.len()
                &&& forall|j: int| 0 <= j < d.len() && !(dst.start <= j < dst.start + dst.len) ==> #[trigger] n[j] == d[j]
                &&& forall|i: int| 0 <= i < dst.len ==> f.ensures(
                    (d[dst.start + i], b[s2.start + i], c[s3.start + i]),
                    #[trigger] n[dst.start + i],
                )
            },
    {
        if dst.storage == s2.storage || dst.storage == s3.storage {
            return Err(InplaceError::SharedStorage);
        }
        let ghost old_c = self.contents();
        let d = &self.data[dst.storage];
        let b = &self.data[s2.storage];
        let c = &self.data[s3.storage];
        let blen = b.len();
        let clen = c.len();
        let mut out: Vec<T> = Vec::new();
        let mut j: usize = 0;
        let n = d.len();
        while j < n
            invariant
                n == d@.len(),
                blen == b@.len(),
                clen == c@.len(),
                d@ == old_c[dst.storage as int],
                b@ == old_c[s2.storage as int],
                c@ == old_c[s3.storage as int],
                dst.start + dst.len <= n,
                s2.start + s2.len <= b@.len(),
                s3.start + s3.len <= c@.len(),
                s2.len >= dst.len,
                s3.len >= dst.len,
                forall|x: T, y: T, z: T| #[trigger] f.requires((x, y, z)),
                j <= n,
                out@.len() == j,
                forall|k: int| 0 <= k < j && !(dst.start <= k < dst.start + dst.len) ==> #[trigger] out@[k] == d@[k],
                forall|i: int| 0 <= i < dst.len && dst.start + i < j ==> f.ensures(
                    (d@[dst.start + i], b@[s2.start + i], c@[s3.start + i]),
                    #[trigger] out@[dst.start + i],
                ),
            decreases n - j,
        {
            if dst.start <= j && j < dst.start + dst.len {
                let i = j - dst.start;
                let v = f(d[j], b[s2.start + i], c[s3.start + i]);
                out.push(v);
            } else {
                out.push(d[j]);
            }
            j = j + 1;
        }
        self.data.set(dst.storage, out);
        proof {
            assert forall|k: int| 0 <= k < old_c.len() && k != dst.storage implies #[trigger] self.contents()[k]
                == old_c[k] by {}
        }
        Ok(())
    }
}

} // verus!
