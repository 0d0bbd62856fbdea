//! Trusted boundary around the outside index pool: the allocator that hands
//! out the smallest free dense index and takes indices back for reuse.
//!
//! The pool's contents are named by two spec functions: the set of indices
//! currently allocated, and the pool's high-water mark (one more than the
//! highest allocated index). The contracts below state what the pool's source
//! shows of pools built through these operations alone.

use vstd::prelude::*;

verus! {

#[verifier::external_type_specification]
#[verifier::external_body]
pub struct ExIndexPool(index_pool::IndexPool);

/// The set of indices currently allocated out of the pool.
pub uninterp spec fn pool_in_use(p: index_pool::IndexPool) -> Set<usize>;

/// One more than the highest allocated index, or zero when none is allocated.
pub uninterp spec fn pool_maximum(p: index_pool::IndexPool) -> usize;

/// Relies on index_pool::IndexPool::new: a fresh pool has no index allocated.
#[verifier::external_body]
pub(crate) fn pool_new() -> (p: index_pool::IndexPool)
    ensures
        pool_in_use(p) == Set::<usize>::empty(),
        pool_maximum(p) == 0,
{
    index_pool::IndexPool::new()
}

/// Relies on index_pool::IndexPool::new_id: allocates and returns the smallest
/// index not currently in use. The bound on the high-water mark keeps the
/// pool's internal counters from overflowing.
#[verifier::external_body]
pub(crate) fn pool_new_id(p: &mut index_pool::IndexPool) -> (id: usize)
    requires
        pool_maximum(*old(p)) < usize::MAX - 1,
    ensures
        !pool_in_use(*old(p)).contains(id),
        forall|j: usize| j < id ==> pool_in_use(*old(p)).contains(j),
        pool_in_use(*final(p)) == pool_in_use(*old(p)).insert(id),
        id <= pool_maximum(*old(p)),
        pool_maximum(*final(p)) == if id == pool_maximum(*old(p)) {
            (id + 1) as usize
        } else {
            pool_maximum(*old(p))
        },
{
    p.new_id()
}

/// Relies on index_pool::IndexPool::return_id: frees exactly the given index,
/// and errs precisely when that index was not in use. Freeing may lower the
/// high-water mark, never raise it.
#[verifier::external_body]
pub(crate) fn pool_return_id(p: &mut index_pool::IndexPool, id: usize) -> (r: bool)
    ensures
        r == pool_in_use(*old(p)).contains(id),
        pool_in_use(*final(p)) == pool_in_use(*old(p)).remove(id),
        pool_maximum(*final(p)) <= pool_maximum(*old(p)),
{
    p.return_id(id).is_ok()
}

/// Relies on index_pool::IndexPool::maximum: returns the high-water mark,
/// which bounds every allocated index from above and which, when nonzero,
/// sits directly above an allocated index.
#[verifier::external_body]
pub(crate) fn pool_max(p: &index_pool::IndexPool) -> (r: usize)
    ensures
        r == pool_maximum(*p),
        forall|j: usize| pool_in_use(*p).contains(j) ==> j < r,
        r != 0 ==> pool_in_use(*p).contains((r - 1) as usize),
{
    p.maximum()
}

/// Relies on index_pool::IndexPool::clear: afterwards no index is allocated.
#[verifier::external_body]
pub(crate) fn pool_clear(p: &mut index_pool::IndexPool)
    ensures
        pool_in_use(*final(p)) == Set::<usize>::empty(),
        pool_maximum(*final(p)) == 0,
{
    p.clear()
}

} // verus!
