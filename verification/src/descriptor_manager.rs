//! The descriptor pool that graphs allocate their sets from, and the sizes
//! it is expected to have.

use crate::types::DescriptorType;
use vstd::prelude::*;

verus! {

/// How many descriptors of one type a pool provides.
#[derive(Clone, Copy, Debug, PartialEq, Eq, Structural)]
pub struct DescriptorPoolSize {
    pub ty: DescriptorType,
    pub descriptor_count: u32,
}

/// A descriptor pool.
#[derive(Clone, Copy, Debug, PartialEq, Eq, Structural)]
pub struct DescriptorPool {
    pub raw: u64,
}

/// The number of sets the pool is created for.
pub const MAX_SETS: u32 = 100_000;

/// The number of descriptors of a type that a graph may assume the pool
/// provides.
pub open spec fn design_minimum(ty: DescriptorType) -> int {
    match ty {
        DescriptorType::Sampler => 500,
        DescriptorType::CombinedImageSampler => 5000,
        DescriptorType::UniformBuffer => 5000,
        DescriptorType::StorageBuffer => 500,
        DescriptorType::StorageImage => 500,
    }
}

/// The number of descriptors of type `ty` among the first `n` sizes.
pub open spec fn provided(sizes: Seq<DescriptorPoolSize>, ty: DescriptorType, n: int) -> int
    decreases n,
{
    if n <= 0 {
        0
    } else {
        provided(sizes, ty, n - 1) + if sizes[n - 1].ty == ty {
            sizes[n - 1].descriptor_count as int
        } else {
            0
        }
    }
}

/// Whether a pool of these sizes provides at least the design minimum of
/// descriptors of type `ty`.
pub open spec fn provides_enough(sizes: Seq<DescriptorPoolSize>, ty: DescriptorType) -> bool {
    provided(sizes, ty, sizes.len() as int) >= design_minimum(ty)
}

/// Whether a pool of these sizes, created for `max_sets` sets, is as large
/// as a graph may assume.
pub open spec fn meets_design_minimum(sizes: Seq<DescriptorPoolSize>, max_sets: u32) -> bool {
    &&& max_sets >= MAX_SETS
    &&& provides_enough(sizes, DescriptorType::Sampler)
    &&& provides_enough(sizes, DescriptorType::CombinedImageSampler)
    &&& provides_enough(sizes, DescriptorType::UniformBuffer)
    &&& provides_enough(sizes, DescriptorType::StorageBuffer)
    &&& provides_enough(sizes, DescriptorType::StorageImage)
}

/// The sizes the pool is created with.
pub open spec fn design_sizes() -> Seq<DescriptorPoolSize> {
    seq![
        DescriptorPoolSize { ty: DescriptorType::Sampler, descriptor_count: 500 },
        DescriptorPoolSize { ty: DescriptorType::CombinedImageSampler, descriptor_count: 5000 },
        DescriptorPoolSize { ty: DescriptorType::UniformBuffer, descriptor_count: 5000 },
        DescriptorPoolSize { ty: DescriptorType::StorageBuffer, descriptor_count: 500 },
        DescriptorPoolSize { ty: DescriptorType::StorageImage, descriptor_count: 500 },
    ]
}

/// The number of descriptors a type may be assumed to have.
fn minimum_of(ty: DescriptorType) -> (r: u64)
    ensures
        r == design_minimum(ty),
{
    match ty {
        DescriptorType::Sampler => 500,
        DescriptorType::CombinedImageSampler => 5000,
        DescriptorType::UniformBuffer => 5000,
        DescriptorType::StorageBuffer => 500,
        DescriptorType::StorageImage => 500,
    }
}

/// Whether the sizes provide at least the design minimum of descriptors of
/// type `ty`.
pub fn has_enough(sizes: &Vec<DescriptorPoolSize>, ty: DescriptorType) -> (r: bool)
    ensures
        r == provides_enough(sizes@, ty),
{
    let wanted = minimum_of(ty);
    let mut found: u64 = 0;
    let mut i: usize = 0;
    while i < sizes.len()
        invariant
            i <= sizes@.len(),
            wanted == design_minimum(ty),
            found <= wanted,
            found == if provided(sizes@, ty, i as int) >= wanted {
                wanted as int
            } else {
                provided(sizes@, ty, i as int)
            },
            provided(sizes@, ty, i as int) >= 0,
        decreases sizes@.len() - i,
    {
        if sizes[i].ty == ty {
            let count = sizes[i].descriptor_count as u64;
            found = if count >= wanted - found {
                wanted
            } else {
                found + count
            };
        }
        i += 1;
    }
    found >= wanted
}

/// Hands out descriptor sets from one pool.
pub struct DescriptorManager {
    pool: DescriptorPool,
}

impl DescriptorManager {
    /// The pool of the manager.
    pub closed spec fn descriptor_pool(&self) -> DescriptorPool {
        self.pool
    }

    /// The sizes to create the pool with.
    pub fn pool_sizes() -> (r: Vec<DescriptorPoolSize>)
        ensures
            r@ == design_sizes(),
            meets_design_minimum(r@, MAX_SETS),
    {
        let mut sizes: Vec<DescriptorPoolSize> = Vec::new();
        sizes.push(DescriptorPoolSize { ty: DescriptorType::Sampler, descriptor_count: 500 });
        sizes.push(
            DescriptorPoolSize { ty: DescriptorType::CombinedImageSampler, descriptor_count: 5000 },
        );
        sizes.push(DescriptorPoolSize { ty: DescriptorType::UniformBuffer, descriptor_count: 5000 });
        sizes.push(DescriptorPoolSize { ty: DescriptorType::StorageBuffer, descriptor_count: 500 });
        sizes.push(DescriptorPoolSize { ty: DescriptorType::StorageImage, descriptor_count: 500 });
        proof {
            assert(sizes@ =~= design_sizes());
            reveal_with_fuel(provided, 6);
        }
        sizes
    }

    /// Whether a pool of these sizes, created for `max_sets` sets, is as
    /// large as a graph may assume.
    pub fn suffices(sizes: &Vec<DescriptorPoolSize>, max_sets: u32) -> (r: bool)
        ensures
            r == meets_design_minimum(sizes@, max_sets),
    {
        max_sets >= MAX_SETS && has_enough(sizes, DescriptorType::Sampler) && has_enough(
            sizes,
            DescriptorType::CombinedImageSampler,
        ) && has_enough(sizes, DescriptorType::UniformBuffer) && has_enough(
            sizes,
            DescriptorType::StorageBuffer,
        ) && has_enough(sizes, DescriptorType::StorageImage)
    }

    /// A manager of the given pool.
    pub fn new(pool: DescriptorPool) -> (r: DescriptorManager)
        ensures
            r.descriptor_pool() == pool,
    {
        DescriptorManager { pool }
    }

    /// The pool to allocate from.
    pub fn pool(&self) -> (r: DescriptorPool)
        ensures
            r == self.descriptor_pool(),
    {
        self.pool
    }
}

} // verus!
