use std::sync::Arc;
use vstd::prelude::*;

use crate::device::Device;
use crate::error::RenderError;

verus! {

/// One binding of a descriptor-set layout, or one entry of a pool's capacity.
#[derive(Debug, Clone, Copy, PartialEq, Eq, Structural)]
pub struct DescriptorType {
    pub ty: u32,
    pub stage_flags: u32,
    pub count: u32,
    pub binding: u32,
}

/// The number of descriptors of type `ty` that `entries` name.
pub open spec fn count_of(entries: Seq<DescriptorType>, ty: u32) -> int
    decreases entries.len(),
{
    if entries.len() == 0 {
        0
    } else {
        count_of(entries.drop_last(), ty) + if entries.last().ty == ty {
            entries.last().count as int
        } else {
            0
        }
    }
}

/// Counting over two lists joined is counting over each.
pub proof fn lemma_count_of_append(a: Seq<DescriptorType>, b: Seq<DescriptorType>, ty: u32)
    ensures
        count_of(a + b, ty) == count_of(a, ty) + count_of(b, ty),
    decreases b.len(),
{
    if b.len() == 0 {
        assert(a + b =~= a);
    } else {
        assert((a + b).drop_last() =~= a + b.drop_last());
        lemma_count_of_append(a, b.drop_last(), ty);
    }
}

proof fn lemma_count_of_nonneg(a: Seq<DescriptorType>, ty: u32)
    ensures
        count_of(a, ty) >= 0,
        count_of(a, ty) <= a.len() * 0xffff_ffff,
    decreases a.len(),
{
    if a.len() > 0 {
        lemma_count_of_nonneg(a.drop_last(), ty);
    }
}

proof fn lemma_count_of_bounded(a: Seq<DescriptorType>, ty: u32)
    requires
        a.len() <= usize::MAX,
    ensures
        0 <= count_of(a, ty) <= usize::MAX * 0xffff_ffff,
{
    lemma_count_of_nonneg(a, ty);
    assert(a.len() * 0xffff_ffff <= usize::MAX * 0xffff_ffff) by (nonlinear_arith)
        requires
            a.len() <= usize::MAX,
    ;
}

/// Sums the descriptors of type `ty` in `entries`.
pub fn descriptor_count(entries: &Vec<DescriptorType>, ty: u32) -> (r: u128)
    ensures
        r as int == count_of(entries@, ty),
        r as int <= usize::MAX * 0xffff_ffff,
{
    let mut total: u128 = 0;
    let mut i: usize = 0;
    while i < entries.len()
        invariant
            i <= entries@.len(),
            total as int == count_of(entries@.subrange(0, i as int), ty),
        decreases entries@.len() - i,
    {
        proof {
            let s = entries@.subrange(0, i as int + 1);
            assert(s.drop_last() =~= entries@.subrange(0, i as int));
            lemma_count_of_nonneg(entries@.subrange(0, i as int), ty);
        }
        let e = entries[i];
        if e.ty == ty {
            total = total + e.count as u128;
        }
        i = i + 1;
    }
    assert(entries@.subrange(0, entries@.len() as int) =~= entries@);
    proof {
        lemma_count_of_bounded(entries@, ty);
    }
    total
}

/// A schema of bindings; each binding gives a type, a count and the stages that see it.
#[derive(Debug)]
pub struct DescriptorSetLayout {
    handle: u64,
    device: Arc<Device>,
    bindings: Vec<DescriptorType>,
}

impl DescriptorSetLayout {
    pub closed spec fn spec_handle(&self) -> u64 {
        self.handle
    }

    pub closed spec fn spec_device(&self) -> Device {
        *self.device
    }

    pub closed spec fn spec_bindings(&self) -> Seq<DescriptorType> {
        self.bindings@
    }

    pub fn new(device: Arc<Device>, decriptors: Vec<DescriptorType>, handle: u64) -> (r:
        DescriptorSetLayout)
        ensures
            r.spec_handle() == handle,
            r.spec_device() == *device,
            r.spec_bindings() == decriptors@,
    {
        DescriptorSetLayout { handle, device, bindings: decriptors }
    }

    pub fn as_raw(&self) -> (r: u64)
        ensures
            r == self.spec_handle(),
    {
        self.handle
    }

    pub fn bindings(&self) -> (r: &Vec<DescriptorType>)
        ensures
            r@ == self.spec_bindings(),
    {
        &self.bindings
    }
}

/// Every binding of the layouts, in order.
pub open spec fn all_bindings(layouts: Seq<Arc<DescriptorSetLayout>>) -> Seq<DescriptorType>
    decreases layouts.len(),
{
    if layouts.len() == 0 {
        Seq::empty()
    } else {
        all_bindings(layouts.drop_last()) + layouts.last().spec_bindings()
    }
}

/// The native pool behind a `DescriptorPool`. Every set taken from the pool holds it,
/// so the pool outlives its sets.
#[derive(Debug)]
pub struct DescriptorPoolStorage {
    handle: u64,
    device: Arc<Device>,
}

impl DescriptorPoolStorage {
    pub closed spec fn spec_handle(&self) -> u64 {
        self.handle
    }

    pub closed spec fn spec_device(&self) -> Device {
        *self.device
    }

    pub fn as_raw(&self) -> (r: u64)
        ensures
            r == self.spec_handle(),
    {
        self.handle
    }
}

/// Storage reserved for a number of sets and, per descriptor type, a number of
/// descriptors. Sets taken from it are never given back.
#[derive(Debug)]
pub struct DescriptorPool {
    storage: Arc<DescriptorPoolStorage>,
    max_sets: u32,
    sizes: Vec<DescriptorType>,
    allocated_sets: u32,
    in_use: Vec<DescriptorType>,
}

impl DescriptorPool {
    pub closed spec fn spec_storage(&self) -> DescriptorPoolStorage {
        *self.storage
    }

    pub open spec fn spec_handle(&self) -> u64 {
        self.spec_storage().spec_handle()
    }

    pub open spec fn spec_device(&self) -> Device {
        self.spec_storage().spec_device()
    }

    pub closed spec fn spec_max_sets(&self) -> u32 {
        self.max_sets
    }

    pub closed spec fn spec_sizes(&self) -> Seq<DescriptorType> {
        self.sizes@
    }

    pub closed spec fn spec_allocated_sets(&self) -> u32 {
        self.allocated_sets
    }

    /// The bindings of every set taken from the pool so far.
    pub closed spec fn spec_in_use(&self) -> Seq<DescriptorType> {
        self.in_use@
    }

    /// Whether `layouts` fit in what the pool has left.
    pub open spec fn fits(&self, layouts: Seq<Arc<DescriptorSetLayout>>) -> bool {
        &&& self.spec_allocated_sets() + layouts.len() <= self.spec_max_sets()
        &&& forall|ty: u32|
            count_of(self.spec_in_use(), ty) + count_of(all_bindings(layouts), ty) <= count_of(
                self.spec_sizes(),
                ty,
            )
    }

    /// The pool never hands out more than it reserved.
    pub open spec fn wf(&self) -> bool {
        &&& self.spec_allocated_sets() <= self.spec_max_sets()
        &&& forall|ty: u32| count_of(self.spec_in_use(), ty) <= count_of(self.spec_sizes(), ty)
    }

    /// A pool for up to `max_sets` sets, reserving the descriptors that `sizes` lists.
    pub fn new(device: Arc<Device>, max_sets: u32, sizes: Vec<DescriptorType>, handle: u64) -> (r:
        DescriptorPool)
        ensures
            r.wf(),
            r.spec_handle() == handle,
            r.spec_device() == *device,
            r.spec_max_sets() == max_sets,
            r.spec_sizes() == sizes@,
            r.spec_allocated_sets() == 0,
            r.spec_in_use() == Seq::<DescriptorType>::empty(),
    {
        let r = DescriptorPool {
            storage: Arc::new(DescriptorPoolStorage { handle, device }),
            max_sets,
            sizes,
            allocated_sets: 0,
            in_use: Vec::new(),
        };
        assert forall|ty: u32| count_of(r.spec_in_use(), ty) <= count_of(r.spec_sizes(), ty) by {
            lemma_count_of_nonneg(r.spec_sizes(), ty);
        }
        r
    }

    pub fn device(&self) -> (r: &Arc<Device>)
        ensures
            **r == self.spec_device(),
    {
        &self.storage.device
    }

    pub fn as_raw(&self) -> (r: u64)
        ensures
            r == self.spec_handle(),
    {
        self.storage.handle
    }

    /// The native pool, shared with the sets taken from it.
    pub fn storage(&self) -> (r: &Arc<DescriptorPoolStorage>)
        ensures
            **r == self.spec_storage(),
    {
        &self.storage
    }

    /// Sets taken from the pool so far.
    pub fn allocated_sets(&self) -> (r: u32)
        ensures
            r == self.spec_allocated_sets(),
    {
        self.allocated_sets
    }

    /// Takes room for one set per layout. When the sets, or the descriptors of any type,
    /// would exceed what the pool reserved, nothing is taken and the pool is exhausted.
    pub fn reserve(&mut self, layouts: &Vec<Arc<DescriptorSetLayout>>) -> (r: Result<
        (),
        RenderError,
    >)
        requires
            old(self).wf(),
        ensures
            final(self).wf(),
            final(self).spec_storage() == old(self).spec_storage(),
            final(self).spec_max_sets() == old(self).spec_max_sets(),
            final(self).spec_sizes() == old(self).spec_sizes(),
            old(self).fits(layouts@) ==> {
                &&& r is Ok
                &&& final(self).spec_allocated_sets() == old(self).spec_allocated_sets()
                    + layouts@.len()
                &&& final(self).spec_in_use() == old(self).spec_in_use() + all_bindings(layouts@)
            },
            !old(self).fits(layouts@) ==> {
                &&& r == Err::<(), RenderError>(RenderError::PoolExhaustedError)
                &&& *final(self) == *old(self)
            },
    {
        if !self.fits_now(layouts) {
            return Err(RenderError::PoolExhaustedError);
        }
        let wanted = gather_bindings(layouts);
        let ghost want = wanted@;
        let ghost old_in_use = self.in_use@;
        let ghost sizes = self.sizes@;
        let mut k: usize = 0;
        while k < wanted.len()
            invariant
                wanted@ == want,
                want == all_bindings(layouts@),
                k <= wanted@.len(),
                self.in_use@ == old_in_use + want.subrange(0, k as int),
                self.sizes@ == sizes,
                self.storage == old(self).storage,
                self.max_sets == old(self).max_sets,
                self.allocated_sets == old(self).allocated_sets,
                old(self).allocated_sets + layouts@.len() <= old(self).max_sets,
                old_in_use == old(self).in_use@,
                sizes == old(self).sizes@,
                forall|ty: u32| count_of(old_in_use, ty) + count_of(want, ty) <= count_of(sizes, ty),
            decreases wanted@.len() - k,
        {
            self.in_use.push(wanted[k]);
            k = k + 1;
            assert(self.in_use@ =~= old_in_use + want.subrange(0, k as int));
        }
        assert(want.subrange(0, want.len() as int) =~= want);
        self.allocated_sets = self.allocated_sets + layouts.len() as u32;
        proof {
            assert forall|ty: u32| count_of(self.spec_in_use(), ty) <= count_of(self.spec_sizes(), ty) by {
                lemma_count_of_append(old_in_use, want, ty);
            }
        }
        Ok(())
    }

    /// Whether `layouts` fit in what the pool has left.
    pub fn fits_now(&self, layouts: &Vec<Arc<DescriptorSetLayout>>) -> (r: bool)
        requires
            self.wf(),
        ensures
            r == self.fits(layouts@),
    {
        if (layouts.len() as u64) > (self.max_sets - self.allocated_sets) as u64 {
            return false;
        }
        let wanted = gather_bindings(layouts);
        let ghost want = wanted@;
        // Every type the new sets name must still have room.
        let mut i: usize = 0;
        while i < wanted.len()
            invariant
                wanted@ == want,
                want == all_bindings(layouts@),
                self.wf(),
                i <= wanted@.len(),
                forall|j: int|
                    0 <= j < i ==> count_of(self.spec_in_use(), #[trigger] wanted@[j].ty)
                        + count_of(want, wanted@[j].ty) <= count_of(self.spec_sizes(), wanted@[j].ty),
            decreases wanted@.len() - i,
        {
            let ty = wanted[i].ty;
            let used = descriptor_count(&self.in_use, ty);
            let asked = descriptor_count(&wanted, ty);
            let room = descriptor_count(&self.sizes, ty);
            if used + asked > room {
                return false;
            }
            i = i + 1;
        }
        proof {
            assert forall|ty: u32|
                count_of(self.spec_in_use(), ty) + count_of(want, ty) <= count_of(
                    self.spec_sizes(),
                    ty,
                ) by {
                if exists|j: int| 0 <= j < want.len() && want[j].ty == ty {
                    let j = choose|j: int| 0 <= j < want.len() && want[j].ty == ty;
                    assert(count_of(self.spec_in_use(), wanted@[j].ty) + count_of(
                        want,
                        wanted@[j].ty,
                    ) <= count_of(self.spec_sizes(), wanted@[j].ty));
                } else {
                    lemma_count_of_absent(want, ty);
                }
            }
        }
        true
    }
}

/// Every binding of the layouts, in order.
pub fn gather_bindings(layouts: &Vec<Arc<DescriptorSetLayout>>) -> (r: Vec<DescriptorType>)
    ensures
        r@ == all_bindings(layouts@),
{
    let mut wanted: Vec<DescriptorType> = Vec::new();
    let mut l: usize = 0;
    while l < layouts.len()
        invariant
            l <= layouts@.len(),
            wanted@ == all_bindings(layouts@.subrange(0, l as int)),
        decreases layouts@.len() - l,
    {
        let bindings = layouts[l].bindings();
        let mut k: usize = 0;
        let ghost before = wanted@;
        while k < bindings.len()
            invariant
                k <= bindings@.len(),
                wanted@ == before + bindings@.subrange(0, k as int),
            decreases bindings@.len() - k,
        {
            wanted.push(bindings[k]);
            k = k + 1;
            assert(wanted@ =~= before + bindings@.subrange(0, k as int));
        }
        proof {
            let pre = layouts@.subrange(0, l as int + 1);
            assert(pre.drop_last() =~= layouts@.subrange(0, l as int));
            assert(bindings@.subrange(0, k as int) =~= bindings@);
        }
        l = l + 1;
    }
    assert(layouts@.subrange(0, layouts@.len() as int) =~= layouts@);
    wanted
}

/// A list that names no descriptor of type `ty` counts none of it.
pub proof fn lemma_count_of_absent(a: Seq<DescriptorType>, ty: u32)
    requires
        forall|j: int| 0 <= j < a.len() ==> a[j].ty != ty,
    ensures
        count_of(a, ty) == 0,
    decreases a.len(),
{
    if a.len() > 0 {
        lemma_count_of_absent(a.drop_last(), ty);
    }
}

/// Driver result: the pool has no room left.
pub const ERROR_OUT_OF_POOL_MEMORY: i32 = -1000069000;

/// Driver result: the pool's room is too fragmented.
pub const ERROR_FRAGMENTED_POOL: i32 = -12;

/// The error a refused set allocation stands for: a full or fragmented pool is
/// exhausted; anything else is a creation failure with its code.
pub open spec fn allocation_error(code: i32) -> RenderError {
    if code == ERROR_OUT_OF_POOL_MEMORY || code == ERROR_FRAGMENTED_POOL {
        RenderError::PoolExhaustedError
    } else {
        RenderError::ResourceCreationError(code)
    }
}

/// Descriptor sets taken from a pool, one per layout. They hold their pool and their
/// layouts.
#[derive(Debug)]
pub struct DescriptorSets {
    handles: Vec<u64>,
    pool: Arc<DescriptorPoolStorage>,
    layouts: Vec<Arc<DescriptorSetLayout>>,
}

impl DescriptorSets {
    pub closed spec fn spec_handles(&self) -> Seq<u64> {
        self.handles@
    }

    pub closed spec fn spec_pool(&self) -> DescriptorPoolStorage {
        *self.pool
    }

    pub closed spec fn spec_layouts(&self) -> Seq<Arc<DescriptorSetLayout>> {
        self.layouts@
    }

    /// Takes room in `pool` for one set per layout, then wraps `allocated`: the native
    /// sets the driver gave, one per layout, or its error code. A pool without room fails
    /// with `PoolExhaustedError`; a driver refusal fails with `allocation_error` of its
    /// code. Either way the pool takes nothing.
    pub fn new(
        pool: &mut DescriptorPool,
        layouts: Vec<Arc<DescriptorSetLayout>>,
        allocated: Result<Vec<u64>, i32>,
    ) -> (r: Result<DescriptorSets, RenderError>)
        requires
            old(pool).wf(),
            allocated matches Ok(h) ==> h@.len() == layouts@.len(),
        ensures
            final(pool).wf(),
            final(pool).spec_storage() == old(pool).spec_storage(),
            !old(pool).fits(layouts@) ==> {
                &&& r == Err::<DescriptorSets, RenderError>(RenderError::PoolExhaustedError)
                &&& *final(pool) == *old(pool)
            },
            old(pool).fits(layouts@) ==> match allocated {
                Ok(handles) => {
                    &&& (r matches Ok(s) && s.spec_handles() == handles@ && s.spec_handles().len()
                        == layouts@.len() && s.spec_pool() == old(pool).spec_storage()
                        && s.spec_layouts() == layouts@)
                    &&& final(pool).spec_allocated_sets() == old(pool).spec_allocated_sets()
                        + layouts@.len()
                    &&& final(pool).spec_in_use() == old(pool).spec_in_use() + all_bindings(
                        layouts@,
                    )
                },
                Err(code) => {
                    &&& r == Err::<DescriptorSets, RenderError>(allocation_error(code))
                    &&& *final(pool) == *old(pool)
                },
            },
    {
        if !pool.fits_now(&layouts) {
            return Err(RenderError::PoolExhaustedError);
        }
        let handles = match allocated {
            Ok(h) => h,
            Err(code) => {
                if code == ERROR_OUT_OF_POOL_MEMORY || code == ERROR_FRAGMENTED_POOL {
                    return Err(RenderError::PoolExhaustedError);
                }
                return Err(RenderError::ResourceCreationError(code));
            },
        };
        match pool.reserve(&layouts) {
            Ok(()) => Ok(DescriptorSets { handles, pool: pool.storage().clone(), layouts }),
            Err(e) => Err(e),
        }
    }

    pub fn as_raw(&self) -> (r: &Vec<u64>)
        ensures
            r@ == self.spec_handles(),
    {
        &self.handles
    }

    pub fn pool(&self) -> (r: &Arc<DescriptorPoolStorage>)
        ensures
            **r == self.spec_pool(),
    {
        &self.pool
    }
}

} // verus!
