//! The lazily filled cache of compute pipelines, one per kernel.

use vstd::prelude::*;

use crate::error::VulkanKernelError;
use crate::kernel::{descriptor_bindings, op_bindings, KernelName};
use crate::source::Source;

verus! {

/// Built pipelines, at most one per `(module, entry)` pair. `E` is the
/// pipeline entry (pipeline and layouts) that dispatching needs.
#[derive(Debug)]
pub struct PipelineCache<E> {
    entries: Vec<((Source, KernelName), E)>,
}

/// The entry that the pairs `s` hold for `key`, if any (the last one).
pub open spec fn lookup_in<E>(s: Seq<((Source, KernelName), E)>, key: (Source, KernelName)) -> Option<E>
    decreases s.len(),
{
    if s.len() == 0 {
        None
    } else if s.last().0 == key {
        Some(s.last().1)
    } else {
        lookup_in(s.drop_last(), key)
    }
}

proof fn lemma_lookup_push<E>(s: Seq<((Source, KernelName), E)>, key: (Source, KernelName), e: E, k: (Source, KernelName))
    ensures
        lookup_in(s.push((key, e)), k) == (if k == key {
            Some(e)
        } else {
            lookup_in(s, k)
        }),
{
    assert(s.push((key, e)).drop_last() =~= s);
}

/// The pipeline recorded last for a kernel is the one looked up for it;
/// recording one for a kernel leaves what is looked up for the others.
pub proof fn lemma_lookup_after_record<E>(s: Seq<((Source, KernelName), E)>, key: (Source, KernelName), e: E, k: (
    Source,
    KernelName,
))
    ensures
        lookup_in(s.push((key, e)), key) == Some(e),
        k != key ==> lookup_in(s.push((key, e)), k) == lookup_in(s, k),
        lookup_in(Seq::<((Source, KernelName), E)>::empty(), k) is None,
{
    lemma_lookup_push(s, key, e, key);
    lemma_lookup_push(s, key, e, k);
}

proof fn lemma_lookup_found<E>(s: Seq<((Source, KernelName), E)>, i: int, key: (Source, KernelName))
    requires
        0 <= i < s.len(),
        s[i].0 == key,
        forall|j: int| i < j < s.len() ==> s[j].0 != key,
    ensures
        lookup_in(s, key) == Some(s[i].1),
    decreases s.len(),
{
    if i < s.len() - 1 {
        lemma_lookup_found(s.drop_last(), i, key);
    }
}

impl<E> PipelineCache<E> {
    /// The pipeline built for `(source, name)`, if there is one.
    pub closed spec fn lookup(self, source: Source, name: KernelName) -> Option<E> {
        lookup_in(self.entries@, (source, name))
    }

    /// An empty cache.
    pub fn new() -> (r: Self)
        ensures
            forall|s: Source, n: KernelName| #[trigger] r.lookup(s, n) == None::<E>,
    {
        PipelineCache { entries: Vec::new() }
    }

    /// The pipeline built for `(source, name)`, if there is one.
    pub fn get(&self, source: Source, name: KernelName) -> (r: Option<&E>)
        ensures
            r matches Some(e) ==> self.lookup(source, name) == Some(*e),
            r is None ==> self.lookup(source, name) is None,
    {
        let n = self.entries.len();
        let mut i = n;
        while i > 0
            invariant
                n == self.entries@.len(),
                i <= n,
                forall|j: int| i <= j < n ==> self.entries@[j].0 != (source, name),
            decreases i,
        {
            let k = &self.entries[i - 1].0;
            if k.0 == source && k.1 == name {
                proof {
                    lemma_lookup_found(self.entries@, i - 1, (source, name));
                }
                return Some(&self.entries[i - 1].1);
            }
            i = i - 1;
        }
        proof {
            lemma_lookup_absent(self.entries@, (source, name));
        }
        None
    }

    /// Records `entry` as the pipeline of `(source, name)`; the other
    /// kernels keep theirs.
    pub fn insert(&mut self, source: Source, name: KernelName, entry: E)
        ensures
            forall|s: Source, n: KernelName| #[trigger] final(self).lookup(s, n) == (if (s, n) == (source, name) {
                Some(entry)
            } else {
                old(self).lookup(s, n)
            }),
    {
        let ghost old_entries = self.entries@;
        self.entries.push(((source, name), entry));
        proof {
            assert forall|s: Source, n: KernelName| #[trigger] lookup_in(self.entries@, (s, n)) == (if (s, n) == (source, name) {
                Some(entry)
            } else {
                lookup_in(old_entries, (s, n))
            }) by {
                lemma_lookup_push(old_entries, (source, name), entry, (s, n));
            }
        }
    }
}

proof fn lemma_lookup_absent<E>(s: Seq<((Source, KernelName), E)>, key: (Source, KernelName))
    requires
        forall|j: int| 0 <= j < s.len() ==> s[j].0 != key,
    ensures
        lookup_in(s, key) is None,
    decreases s.len(),
{
    if s.len() > 0 {
        lemma_lookup_absent(s.drop_last(), key);
    }
}

impl<E: Clone> PipelineCache<E> {
    /// The pipeline entry of `(source, name)`, building it with `build` on
    /// first use: a cached entry is handed out again without building; an
    /// entry that `build` makes is cached for the next calls, and a build
    /// that fails leaves the cache as it was.
    pub fn load_entry_inner<F>(&mut self, source: Source, name: KernelName, build: F) -> (r: Result<E, VulkanKernelError>)
        where
            F: FnOnce() -> Result<E, VulkanKernelError>,
        requires
            old(self).lookup(source, name) is None ==> build.requires(()),
        ensures
            old(self).lookup(source, name) matches Some(c) ==> {
                &&& r matches Ok(e) && cloned(c, e)
                &&& forall|s: Source, n: KernelName| #[trigger] final(self).lookup(s, n) == old(self).lookup(s, n)
            },
            old(self).lookup(source, name) is None ==> exists|b: Result<E, VulkanKernelError>| {
                &&& #[trigger] build.ensures((), b)
                &&& b matches Ok(built) ==> {
                    &&& r matches Ok(e) && cloned(built, e)
                    &&& final(self).lookup(source, name) == Some(built)
                }
                &&& b is Err ==> r == b
                &&& forall|s: Source, n: KernelName| (s, n) != (source, name) ==> #[trigger] final(self).lookup(s, n) == old(self).lookup(s, n)
                &&& b is Err ==> final(self).lookup(source, name) is None
            },
    {
        match self.get(source, name) {
            Some(e) => {
                return Ok(e.clone());
            },
            None => {},
        }
        let b = build();
        match b {
            Ok(entry) => {
                let out = entry.clone();
                self.insert(source, name, entry);
                Ok(out)
            },
            Err(e) => Err(e),
        }
    }
}

/// The layout a kernel's pipeline is built with: its storage-buffer
/// bindings (all visible to the compute stage) and the size of its
/// push-constant range, if it has one.
#[derive(Debug)]
pub struct PipelineLayoutPlan {
    pub bindings: Vec<u32>,
    pub push_constant_size: Option<u32>,
}

/// The pipeline layout of the entry `name` of module `source`: bindings
/// `0..n` for the `n` storage buffers of the kernel, and a push-constant
/// range from offset 0 exactly as large as the block the shader declares
/// (none when it declares none).
pub fn pipeline_layout(source: Source, name: KernelName) -> (r: PipelineLayoutPlan)
    ensures
        r.bindings@ == Seq::new(op_bindings(name.kernel_op()) as nat, |i: int| i as u32),
        r.push_constant_size is None,
{
    let n = descriptor_bindings(name);
    let mut bindings: Vec<u32> = Vec::new();
    let mut i: u32 = 0;
    while i < n
        invariant
            i <= n,
            n == op_bindings(name.kernel_op()),
            bindings@ == Seq::new(i as nat, |j: int| j as u32),
        decreases n - i,
    {
        bindings.push(i);
        i = i + 1;
        proof {
            assert(bindings@ =~= Seq::new(i as nat, |j: int| j as u32));
        }
    }
    let size = source.push_constant_size(name);
    let push_constant_size = if size > 0 {
        Some(size)
    } else {
        None
    };
    PipelineLayoutPlan { bindings, push_constant_size }
}

} // verus!
