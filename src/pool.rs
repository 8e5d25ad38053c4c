//! Descriptor pools: arenas of descriptor sets, bounded by a number of sets and by a number
//! of descriptors of each kind.
use std::sync::Arc;
use vstd::prelude::*;

use crate::layout_def::{
    DescriptorDesc, DescriptorSetLayout, DescriptorType, DescriptorWrite, WriteError,
    NUM_DESCRIPTOR_TYPES, init_fits, lemma_descriptor_code_injective, writes_fit,
};

verus! {

/// How many descriptors of one kind a pool can hand out.
#[derive(Debug, Copy, Clone, PartialEq, Eq, Structural)]
pub struct DescriptorPoolSize {
    pub ty: DescriptorType,
    pub descriptor_count: u32,
}

/// The number of descriptors of kind `t` that the sizes `sizes` grant, summed over every size
/// of that kind.
pub open spec fn quota_of(sizes: Seq<DescriptorPoolSize>, t: DescriptorType) -> nat
    decreases sizes.len(),
{
    if sizes.len() == 0 {
        0
    } else {
        quota_of(sizes.drop_last(), t) + if sizes.last().ty == t {
            sizes.last().descriptor_count as nat
        } else {
            0
        }
    }
}

/// The number of descriptors of kind `t` that one set of the layout `descs` takes: the
/// array counts of its descriptors of that kind.
pub open spec fn need_of(descs: Seq<DescriptorDesc>, t: DescriptorType) -> nat
    decreases descs.len(),
{
    if descs.len() == 0 {
        0
    } else {
        need_of(descs.drop_last(), t) + if descs.last().ty == t {
            descs.last().array_count as nat
        } else {
            0
        }
    }
}

/// The descriptor kind whose native code is `c`.
pub open spec fn kind_of_code(c: int) -> DescriptorType {
    if c == 0 {
        DescriptorType::Sampler
    } else if c == 1 {
        DescriptorType::CombinedImageSampler
    } else if c == 2 {
        DescriptorType::SampledImage
    } else if c == 3 {
        DescriptorType::StorageImage
    } else if c == 4 {
        DescriptorType::UniformTexelBuffer
    } else if c == 5 {
        DescriptorType::StorageTexelBuffer
    } else if c == 6 {
        DescriptorType::UniformBuffer
    } else if c == 7 {
        DescriptorType::StorageBuffer
    } else if c == 8 {
        DescriptorType::UniformBufferDynamic
    } else if c == 9 {
        DescriptorType::StorageBufferDynamic
    } else {
        DescriptorType::InputAttachment
    }
}

proof fn lemma_kind_of_code(c: int)
    requires
        0 <= c < NUM_DESCRIPTOR_TYPES,
    ensures
        kind_of_code(c).code() == c,
{
}

proof fn lemma_quota_bound(sizes: Seq<DescriptorPoolSize>, t: DescriptorType)
    ensures
        quota_of(sizes, t) <= sizes.len() * 0xffff_ffff,
    decreases sizes.len(),
{
    if sizes.len() > 0 {
        lemma_quota_bound(sizes.drop_last(), t);
    }
}

proof fn lemma_need_bound(descs: Seq<DescriptorDesc>, t: DescriptorType)
    ensures
        need_of(descs, t) <= descs.len() * 0xffff_ffff,
    decreases descs.len(),
{
    if descs.len() > 0 {
        lemma_need_bound(descs.drop_last(), t);
    }
}

/// The number of descriptors of kind `t` that sets of the layouts `shapes` take together.
pub open spec fn total_need(shapes: Seq<Seq<DescriptorDesc>>, t: DescriptorType) -> nat
    decreases shapes.len(),
{
    if shapes.len() == 0 {
        0
    } else {
        total_need(shapes.drop_last(), t) + need_of(shapes.last(), t)
    }
}

proof fn lemma_total_need_push(shapes: Seq<Seq<DescriptorDesc>>, descs: Seq<DescriptorDesc>, t: DescriptorType)
    ensures
        total_need(shapes.push(descs), t) == total_need(shapes, t) + need_of(descs, t),
{
    assert(shapes.push(descs).drop_last() =~= shapes);
}

proof fn lemma_total_need_prefix(shapes: Seq<Seq<DescriptorDesc>>, j: int, t: DescriptorType)
    requires
        0 <= j <= shapes.len(),
    ensures
        total_need(shapes.take(j), t) <= total_need(shapes, t),
    decreases shapes.len(),
{
    if j == shapes.len() {
        assert(shapes.take(j) =~= shapes);
    } else {
        let rest = shapes.drop_last();
        lemma_total_need_prefix(rest, j, t);
        assert(rest.take(j) =~= shapes.take(j));
    }
}

/// Why a descriptor set could not be allocated.
#[derive(Debug, Copy, Clone, PartialEq, Eq, Structural)]
pub enum AllocError {
    /// The pool has been destroyed.
    PoolDestroyed,
    /// The initial writes do not fit the layout.
    Init(WriteError),
    /// The pool has no set left, or too few descriptors of some kind.
    OutOfPoolMemory,
}

/// Why the writes to a descriptor set were refused.
#[derive(Debug, Copy, Clone, PartialEq, Eq, Structural)]
pub enum UpdateError {
    /// The pool has been destroyed: its sets are gone.
    PoolDestroyed,
    /// The set was not allocated from this pool.
    ForeignSet,
    /// The pool holds no set of that id.
    UnknownSet,
    /// The writes do not fit the set's layout.
    Write(WriteError),
}

/// A descriptor set: its layout and the writes made to it, in order. Sets live inside the pool
/// that allocated them and go with it.
pub struct DescriptorSet {
    layout: Arc<DescriptorSetLayout>,
    writes: Vec<DescriptorWrite>,
}

impl DescriptorSet {
    /// The descriptors of the set's layout.
    pub closed spec fn shape(&self) -> Seq<DescriptorDesc> {
        self.layout@
    }

    /// The writes made to the set, in order.
    pub closed spec fn contents(&self) -> Seq<DescriptorWrite> {
        self.writes@
    }

    /// Returns the set's layout.
    pub fn layout(&self) -> (r: &Arc<DescriptorSetLayout>)
        ensures
            r@ == self.shape(),
    {
        &self.layout
    }

    /// Returns the writes made to the set, in order.
    pub fn writes(&self) -> (r: &Vec<DescriptorWrite>)
        ensures
            r@ == self.contents(),
    {
        &self.writes
    }
}

/// Names a set that a pool allocated: the pool's handle and the set's place in it.
#[derive(Debug, Copy, Clone, PartialEq, Eq, Structural)]
pub struct SetId {
    pool: u64,
    index: usize,
}

impl SetId {
    /// Handle of the pool that issued the id.
    pub closed spec fn pool_handle(&self) -> u64 {
        self.pool
    }

    /// Place of the set among the pool's sets.
    pub closed spec fn index(&self) -> nat {
        self.index as nat
    }

    /// Returns the handle of the pool that issued the id.
    pub fn pool(&self) -> (r: u64)
        ensures
            r == self.pool_handle(),
    {
        self.pool
    }
}

/// Pool from which descriptor sets are allocated.
///
/// A pool has a maximum number of descriptor sets and a maximum number of descriptors of each
/// kind that it can hand out. The sets it allocates live inside it and are reached through the
/// ids it issues. Destroying the pool frees every one of its sets at once; the resources that
/// those sets' writes refer to live on as long as something else holds them.
pub struct DescriptorPool {
    device: u64,
    pool: u64,
    max_sets: u32,
    quotas: Vec<u64>,
    used: Vec<u64>,
    sets: Vec<DescriptorSet>,
    destroyed: bool,
}

impl DescriptorPool {
    /// Native handle of the pool.
    pub closed spec fn handle(&self) -> u64 {
        self.pool
    }

    /// Native handle of the device that the pool was created on.
    pub closed spec fn device_handle(&self) -> u64 {
        self.device
    }

    /// The number of sets that the pool can hold at once.
    pub closed spec fn set_limit(&self) -> nat {
        self.max_sets as nat
    }

    /// The number of descriptors of kind `t` that the pool can hand out in all.
    pub closed spec fn quota(&self, t: DescriptorType) -> nat {
        self.quotas@[t.code() as int] as nat
    }

    /// The live sets of the pool, in the order of allocation.
    pub closed spec fn sets(&self) -> Seq<DescriptorSet> {
        self.sets@
    }

    /// Whether the pool has been destroyed.
    pub closed spec fn is_destroyed(&self) -> bool {
        self.destroyed
    }

    /// The layouts of the pool's live sets, in the order of allocation.
    pub open spec fn shapes(&self) -> Seq<Seq<DescriptorDesc>> {
        self.sets().map_values(|s: DescriptorSet| s.shape())
    }

    /// The number of live sets of the pool.
    pub open spec fn live_sets(&self) -> nat {
        self.sets().len()
    }

    /// The number of descriptors of kind `t` held by the pool's live sets: the sum over those
    /// sets of their descriptors of that kind.
    pub open spec fn used(&self, t: DescriptorType) -> nat {
        total_need(self.shapes(), t)
    }

    /// A set of the layout `descs` fits in what is left of the pool: one more set fits the
    /// limit, and for each kind the live sets and the new one together fit the quota.
    pub open spec fn has_room_for(&self, descs: Seq<DescriptorDesc>) -> bool {
        &&& self.live_sets() < self.set_limit()
        &&& forall|t: DescriptorType| #[trigger]
            total_need(self.shapes().push(descs), t) <= self.quota(t)
    }

    /// `id` names a live set of this pool.
    pub open spec fn holds(&self, id: SetId) -> bool {
        id.pool_handle() == self.handle() && id.index() < self.live_sets()
    }

    /// The pool's counts agree with its sets: each kind's count is what the live sets hold,
    /// within the quota; no more sets are live than the limit; a destroyed pool holds none.
    pub closed spec fn wf(&self) -> bool {
        &&& self.quotas@.len() == NUM_DESCRIPTOR_TYPES
        &&& self.used@.len() == NUM_DESCRIPTOR_TYPES
        &&& forall|t: DescriptorType| #[trigger] self.used@[t.code() as int] == self.used(t)
        &&& forall|t: DescriptorType| #[trigger] self.used(t) <= self.quota(t)
        &&& self.sets@.len() <= self.max_sets
        &&& self.destroyed ==> self.sets@.len() == 0
    }

    /// Returns the native handle of the pool.
    pub fn internal_object(&self) -> (r: u64)
        ensures
            r == self.handle(),
    {
        self.pool
    }

    /// Returns the native handle of the device that the pool was created on.
    pub fn device(&self) -> (r: u64)
        ensures
            r == self.device_handle(),
    {
        self.device
    }

    /// Returns how many descriptors of kind `t` the pool can still hand out.
    pub fn available(&self, t: DescriptorType) -> (r: u64)
        requires
            self.wf(),
        ensures
            self.used(t) <= self.quota(t),
            r == self.quota(t) - self.used(t),
    {
        let c = t.vk_enum() as usize;
        self.quotas[c] - self.used[c]
    }

    /// Returns how many more sets the pool can hold.
    pub fn sets_left(&self) -> (r: u32)
        requires
            self.wf(),
        ensures
            self.live_sets() <= self.set_limit(),
            r == self.set_limit() - self.live_sets(),
    {
        self.max_sets - self.sets.len() as u32
    }

    /// Returns the live set that `id` names, if this pool holds it.
    pub fn set(&self, id: SetId) -> (r: Option<&DescriptorSet>)
        ensures
            r is Some <==> self.holds(id),
            r matches Some(s) ==> *s == self.sets()[id.index() as int],
    {
        if id.pool == self.pool && id.index < self.sets.len() {
            Some(&self.sets[id.index])
        } else {
            None
        }
    }

    /// Returns a fresh count of zero for each descriptor kind.
    fn zero_counts() -> (r: Vec<u64>)
        ensures
            r@.len() == NUM_DESCRIPTOR_TYPES,
            forall|c: int| 0 <= c < NUM_DESCRIPTOR_TYPES ==> r@[c] == 0,
    {
        let mut r: Vec<u64> = Vec::new();
        let mut c: usize = 0;
        while c < NUM_DESCRIPTOR_TYPES
            invariant
                c <= NUM_DESCRIPTOR_TYPES,
                r@.len() == c,
                forall|j: int| 0 <= j < c ==> r@[j] == 0,
            decreases NUM_DESCRIPTOR_TYPES - c,
        {
            r.push(0);
            c += 1;
        }
        r
    }

    /// Initializes a new pool on the device `device`, with the native handle `pool`, room for
    /// `max_sets` sets, and the descriptor quotas of `sizes`; the quotas of sizes of one kind
    /// add up. The pool holds no set.
    pub fn new(device: u64, pool: u64, max_sets: u32, sizes: &Vec<DescriptorPoolSize>) -> (r: DescriptorPool)
        requires
            sizes@.len() <= u32::MAX,
        ensures
            r.wf(),
            r.device_handle() == device,
            r.handle() == pool,
            r.set_limit() == max_sets,
            r.sets() == Seq::<DescriptorSet>::empty(),
            !r.is_destroyed(),
            forall|t: DescriptorType| #[trigger] r.quota(t) == quota_of(sizes@, t),
    {
        let mut quotas = Self::zero_counts();
        let used = Self::zero_counts();
        let mut i: usize = 0;
        while i < sizes.len()
            invariant
                i <= sizes@.len(),
                sizes@.len() <= u32::MAX,
                quotas@.len() == NUM_DESCRIPTOR_TYPES,
                forall|t: DescriptorType|
                    quotas@[t.code() as int] == #[trigger] quota_of(sizes@.subrange(0, i as int), t),
            decreases sizes@.len() - i,
        {
            let size = sizes[i];
            let c = size.ty.vk_enum() as usize;
            proof {
                let prefix = sizes@.subrange(0, i as int);
                lemma_quota_bound(prefix, size.ty);
                assert(prefix.len() * 0xffff_ffff <= 0xffff_ffff * 0xffff_ffff) by (nonlinear_arith)
                    requires
                        prefix.len() <= 0xffff_ffff,
                ;
                let next = sizes@.subrange(0, i + 1);
                assert(next.drop_last() =~= prefix);
                lemma_descriptor_code_injective(size.ty, size.ty);
                assert forall|t: DescriptorType|
                    quota_of(next, t) == quota_of(prefix, t) + if t == size.ty {
                        size.descriptor_count as nat
                    } else {
                        0
                    } by {}
            }
            let q = quotas[c] + size.descriptor_count as u64;
            quotas.set(c, q);
            i += 1;
            proof {
                assert forall|t: DescriptorType|
                    quotas@[t.code() as int] == #[trigger] quota_of(
                        sizes@.subrange(0, i as int),
                        t,
                    ) by {
                    lemma_descriptor_code_injective(t, size.ty);
                }
            }
        }
        assert(sizes@.subrange(0, sizes@.len() as int) =~= sizes@);
        let r = DescriptorPool {
            device,
            pool,
            max_sets,
            quotas,
            used,
            sets: Vec::new(),
            destroyed: false,
        };
        proof {
            assert forall|t: DescriptorType| #[trigger] r.used@[t.code() as int] == r.used(t) by {
                lemma_descriptor_code_injective(t, t);
            }
        }
        r
    }

    fn needs(descs: &Vec<DescriptorDesc>) -> (r: Vec<u64>)
        requires
            descs@.len() <= u32::MAX,
        ensures
            r@.len() == NUM_DESCRIPTOR_TYPES,
            forall|t: DescriptorType| r@[t.code() as int] == #[trigger] need_of(descs@, t),
    {
        let mut need = Self::zero_counts();
        let mut i: usize = 0;
        while i < descs.len()
            invariant
                i <= descs@.len(),
                descs@.len() <= u32::MAX,
                need@.len() == NUM_DESCRIPTOR_TYPES,
                forall|t: DescriptorType|
                    need@[t.code() as int] == #[trigger] need_of(descs@.subrange(0, i as int), t),
            decreases descs@.len() - i,
        {
            let d = descs[i];
            let c = d.ty.vk_enum() as usize;
            proof {
                let prefix = descs@.subrange(0, i as int);
                lemma_need_bound(prefix, d.ty);
                assert(prefix.len() * 0xffff_ffff <= 0xffff_ffff * 0xffff_ffff) by (nonlinear_arith)
                    requires
                        prefix.len() <= 0xffff_ffff,
                ;
                let next = descs@.subrange(0, i + 1);
                assert(next.drop_last() =~= prefix);
                crate::layout_def::lemma_descriptor_code_injective(d.ty, d.ty);
                assert forall|t: DescriptorType|
                    need_of(next, t) == need_of(prefix, t) + if t == d.ty {
                        d.array_count as nat
                    } else {
                        0
                    } by {}
            }
            let n = need[c] + d.array_count as u64;
            need.set(c, n);
            i += 1;
            proof {
                assert forall|t: DescriptorType|
                    need@[t.code() as int] == #[trigger] need_of(descs@.subrange(0, i as int), t) by {
                    crate::layout_def::lemma_descriptor_code_injective(t, d.ty);
                }
            }
        }
        assert(descs@.subrange(0, descs@.len() as int) =~= descs@);
        need
    }

    /// Allocates a descriptor set of the layout `layout`, filled with the writes `init`, and
    /// returns its id.
    ///
    /// A destroyed pool allocates nothing. Otherwise the writes must fit the layout and write
    /// every one of its descriptors, and the pool must have room for the set. Allocation either
    /// succeeds whole or changes nothing.
    pub fn allocate(&mut self, layout: Arc<DescriptorSetLayout>, init: Vec<DescriptorWrite>) -> (r: Result<SetId, AllocError>)
        requires
            old(self).wf(),
        ensures
            final(self).wf(),
            old(self).is_destroyed() ==> r == Err::<SetId, AllocError>(AllocError::PoolDestroyed),
            !old(self).is_destroyed() ==> match r {
                Ok(id) => {
                    &&& init_fits(layout@, init@, Ok(()))
                    &&& old(self).has_room_for(layout@)
                    &&& id.pool_handle() == old(self).handle()
                    &&& id.index() == old(self).live_sets()
                },
                Err(AllocError::Init(e)) => init_fits(layout@, init@, Err(e)),
                Err(AllocError::OutOfPoolMemory) => init_fits(layout@, init@, Ok(()))
                    && !old(self).has_room_for(layout@),
                Err(AllocError::PoolDestroyed) => false,
            },
            r is Ok ==> final(self).sets().len() == old(self).sets().len() + 1,
            r is Ok ==> final(self).sets().drop_last() == old(self).sets(),
            r is Ok ==> final(self).sets().last().shape() == layout@,
            r is Ok ==> final(self).sets().last().contents() == init@,
            r is Ok ==> final(self).shapes() == old(self).shapes().push(layout@),
            r is Err ==> *final(self) == *old(self),
            final(self).handle() == old(self).handle(),
            final(self).device_handle() == old(self).device_handle(),
            final(self).set_limit() == old(self).set_limit(),
            final(self).is_destroyed() == old(self).is_destroyed(),
            forall|t: DescriptorType| #[trigger] final(self).quota(t) == old(self).quota(t),
    {
        if self.destroyed {
            return Err(AllocError::PoolDestroyed);
        }
        if let Err(e) = layout.check_init(&init) {
            return Err(AllocError::Init(e));
        }
        if self.sets.len() >= self.max_sets as usize {
            return Err(AllocError::OutOfPoolMemory);
        }
        let descs = layout.descriptors();
        let need = Self::needs(&descs);
        proof {
            assert forall|t: DescriptorType| #[trigger]
                total_need(self.shapes().push(layout@), t) == self.used(t) + need_of(layout@, t) by {
                lemma_total_need_push(self.shapes(), layout@, t);
            }
        }
        let mut c: usize = 0;
        while c < NUM_DESCRIPTOR_TYPES
            invariant
                c <= NUM_DESCRIPTOR_TYPES,
                need@.len() == NUM_DESCRIPTOR_TYPES,
                self.wf(),
                *self == *old(self),
                !self.destroyed,
                self.sets@.len() < self.max_sets,
                init_fits(layout@, init@, Ok(())),
                forall|t: DescriptorType| need@[t.code() as int] == #[trigger] need_of(layout@, t),
                forall|t: DescriptorType| #[trigger]
                    total_need(self.shapes().push(layout@), t) == self.used(t) + need_of(layout@, t),
                forall|j: int| 0 <= j < c ==> need@[j] <= self.quotas@[j] - self.used@[j],
            decreases NUM_DESCRIPTOR_TYPES - c,
        {
            let t = Ghost(kind_of_code(c as int));
            proof {
                lemma_kind_of_code(c as int);
                assert(self.used@[t@.code() as int] == self.used(t@));
            }
            if need[c] > self.quotas[c] - self.used[c] {
                proof {
                    assert(total_need(self.shapes().push(layout@), t@) > self.quota(t@));
                }
                return Err(AllocError::OutOfPoolMemory);
            }
            c += 1;
        }
        let mut used: Vec<u64> = Vec::new();
        let mut k: usize = 0;
        while k < NUM_DESCRIPTOR_TYPES
            invariant
                k <= NUM_DESCRIPTOR_TYPES,
                used@.len() == k,
                need@.len() == NUM_DESCRIPTOR_TYPES,
                self.wf(),
                forall|j: int| 0 <= j < NUM_DESCRIPTOR_TYPES ==> need@[j] <= self.quotas@[j] - self.used@[j],
                forall|j: int| 0 <= j < k ==> used@[j] == self.used@[j] + need@[j],
            decreases NUM_DESCRIPTOR_TYPES - k,
        {
            proof {
                lemma_kind_of_code(k as int);
                assert(self.used@[kind_of_code(k as int).code() as int] == self.used(kind_of_code(k as int)));
            }
            used.push(self.used[k] + need[k]);
            k += 1;
        }
        let ghost old_shapes = self.shapes();
        let index = self.sets.len();
        self.used = used;
        self.sets.push(DescriptorSet { layout, writes: init });
        proof {
            assert(self.shapes() =~= old_shapes.push(layout@));
            assert(self.sets@.drop_last() =~= old(self).sets@);
            assert forall|t: DescriptorType| #[trigger] self.used@[t.code() as int] == self.used(t) by {
                lemma_descriptor_code_injective(t, t);
                lemma_total_need_push(old_shapes, layout@, t);
            }
            assert forall|t: DescriptorType| #[trigger] self.used(t) <= self.quota(t) by {
                lemma_descriptor_code_injective(t, t);
                lemma_total_need_push(old_shapes, layout@, t);
            }
        }
        Ok(SetId { pool: self.pool, index })
    }

    /// Makes the writes `writes` to the set that `id` names, after those already made.
    ///
    /// The pool must not be destroyed, the id must name a live set of this pool, and each
    /// write must fit the set's layout; otherwise nothing changes. Only that set changes.
    pub fn update(&mut self, id: SetId, writes: Vec<DescriptorWrite>) -> (r: Result<(), UpdateError>)
        requires
            old(self).wf(),
        ensures
            final(self).wf(),
            match r {
                Ok(()) => {
                    &&& !old(self).is_destroyed()
                    &&& old(self).holds(id)
                    &&& writes_fit(old(self).sets()[id.index() as int].shape(), writes@, Ok(()))
                },
                Err(UpdateError::PoolDestroyed) => old(self).is_destroyed(),
                Err(UpdateError::ForeignSet) => !old(self).is_destroyed() && id.pool_handle()
                    != old(self).handle(),
                Err(UpdateError::UnknownSet) => {
                    &&& !old(self).is_destroyed()
                    &&& id.pool_handle() == old(self).handle()
                    &&& id.index() >= old(self).live_sets()
                },
                Err(UpdateError::Write(e)) => {
                    &&& !old(self).is_destroyed()
                    &&& old(self).holds(id)
                    &&& writes_fit(old(self).sets()[id.index() as int].shape(), writes@, Err(e))
                },
            },
            r is Err ==> *final(self) == *old(self),
            r is Ok ==> final(self).sets().len() == old(self).sets().len(),
            r is Ok ==> forall|j: int|
                0 <= j < old(self).sets().len() && j != id.index() ==> final(self).sets()[j]
                    == old(self).sets()[j],
            r is Ok ==> final(self).sets()[id.index() as int].shape() == old(self).sets()[id.index() as int].shape(),
            r is Ok ==> final(self).sets()[id.index() as int].contents() == old(self).sets()[id.index() as int].contents() + writes@,
            final(self).shapes() == old(self).shapes(),
            final(self).handle() == old(self).handle(),
            final(self).device_handle() == old(self).device_handle(),
            final(self).set_limit() == old(self).set_limit(),
            final(self).is_destroyed() == old(self).is_destroyed(),
            forall|t: DescriptorType| #[trigger] final(self).quota(t) == old(self).quota(t),
    {
        if self.destroyed {
            return Err(UpdateError::PoolDestroyed);
        }
        if id.pool != self.pool {
            return Err(UpdateError::ForeignSet);
        }
        if id.index >= self.sets.len() {
            return Err(UpdateError::UnknownSet);
        }
        if let Err(e) = self.sets[id.index].layout.check_writes(&writes) {
            return Err(UpdateError::Write(e));
        }
        let ghost old_sets = self.sets@;
        let ghost old_shapes = self.shapes();
        let mut set = self.sets.remove(id.index);
        let mut writes = writes;
        set.writes.append(&mut writes);
        self.sets.insert(id.index, set);
        proof {
            assert(self.sets@ =~= old_sets.update(id.index as int, set));
            assert(self.shapes() =~= old_shapes);
            assert forall|t: DescriptorType| #[trigger] self.used@[t.code() as int] == self.used(t) by {
                assert(old(self).used@[t.code() as int] == old(self).used(t));
            }
            assert forall|t: DescriptorType| #[trigger] self.used(t) <= self.quota(t) by {
                assert(old(self).used(t) <= old(self).quota(t));
            }
        }
        Ok(())
    }

    /// Destroys the pool, which frees every set allocated from it: no id names a set of the
    /// pool any longer, and nothing more can be allocated or written. The resources that the
    /// sets' writes referred to are released by the sets, and live on wherever else they are
    /// held.
    pub fn destroy(&mut self)
        requires
            old(self).wf(),
        ensures
            final(self).wf(),
            final(self).is_destroyed(),
            final(self).sets() == Seq::<DescriptorSet>::empty(),
            forall|id: SetId| !(#[trigger] final(self).holds(id)),
            forall|t: DescriptorType| #[trigger] final(self).used(t) == 0,
            final(self).handle() == old(self).handle(),
            final(self).device_handle() == old(self).device_handle(),
            final(self).set_limit() == old(self).set_limit(),
            forall|t: DescriptorType| #[trigger] final(self).quota(t) == old(self).quota(t),
    {
        self.used = Self::zero_counts();
        self.sets = Vec::new();
        self.destroyed = true;
        proof {
            assert(self.shapes() =~= Seq::<Seq<DescriptorDesc>>::empty());
            assert forall|t: DescriptorType| #[trigger] self.used@[t.code() as int] == self.used(t) by {
                lemma_descriptor_code_injective(t, t);
            }
        }
    }
}

/// Allocating the layouts `all` in order from a fresh pool: when the sets of the first `k`
/// have been allocated, the next one finds room exactly when `k + 1` sets fit the pool's set
/// limit and the first `k + 1` layouts' descriptors of each kind, together, fit the quota of that
/// kind. So when the whole sequence fits, every allocation in it finds room, and the first
/// allocation that would go past the limit or a quota finds none.
pub proof fn lemma_room_in_sequence(p: DescriptorPool, all: Seq<Seq<DescriptorDesc>>, k: int)
    requires
        0 <= k < all.len(),
        p.shapes() == all.take(k),
    ensures
        p.live_sets() == k,
        p.has_room_for(all[k]) <==> {
            &&& k + 1 <= p.set_limit()
            &&& forall|t: DescriptorType| #[trigger] total_need(all.take(k + 1), t) <= p.quota(t)
        },
        all.len() <= p.set_limit() && (forall|t: DescriptorType| #[trigger] total_need(all, t) <= p.quota(t))
            ==> p.has_room_for(all[k]),
{
    assert(p.shapes().len() == p.sets().len());
    assert(all.take(k).push(all[k]) =~= all.take(k + 1));
    if all.len() <= p.set_limit() && (forall|t: DescriptorType| #[trigger] total_need(all, t) <= p.quota(t)) {
        assert forall|t: DescriptorType| #[trigger] total_need(all.take(k + 1), t) <= p.quota(t) by {
            lemma_total_need_prefix(all, k + 1, t);
        }
    }
}

} // verus!
