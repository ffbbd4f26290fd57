//! The laws of the surface wrapper, stated and proved over the same view
//! transformers the executable operations promise in their contracts.
//!
//! Every handle operation moves the external retain counter by exactly one
//! step: cloning retains once, destroying releases once. The ownership laws
//! say what any sequence of such steps nets out to: the counter moves by
//! the number of retains minus the number of releases; a balanced sequence
//! restores it; and a root handle cloned any number of times and then
//! destroyed together with all its clones gives every taken reference back.
//! Beside them stand the round-trip identity of creation and lookup, and
//! the exactness of what an upload leaves in the buffer.

use vstd::prelude::*;

use crate::handle::IOSurfaceID;
use crate::registry::count_of;
use crate::registry::fresh_surface;
use crate::registry::is_live;
use crate::registry::model_of;
use crate::registry::next_seed;
use crate::registry::released;
use crate::registry::retained;
use crate::registry::uploaded;
use crate::registry::SurfaceModel;
use crate::registry::SurfaceProperties;

verus! {

/// One reference-count step a handle's lifecycle performs against the
/// external counter: cloning a handle retains once, destroying a handle
/// releases once.
#[derive(Clone, Copy, PartialEq, Eq, Structural)]
pub enum RefOp {
    Retain,
    Release,
}

/// How many steps of `ops` retain.
pub open spec fn num_retains(ops: Seq<RefOp>) -> int
    decreases ops.len(),
{
    if ops.len() == 0 {
        0
    } else {
        num_retains(ops.drop_last()) + if ops.last() is Retain {
            1int
        } else {
            0int
        }
    }
}

/// How many steps of `ops` release.
pub open spec fn num_releases(ops: Seq<RefOp>) -> int
    decreases ops.len(),
{
    if ops.len() == 0 {
        0
    } else {
        num_releases(ops.drop_last()) + if ops.last() is Release {
            1int
        } else {
            0int
        }
    }
}

/// The external counter after the steps of `ops`, starting from `count`:
/// each retain moves it up by one, each release down by one — exactly the
/// step `clone_handle` and `destroy` promise of `count_of` in their
/// contracts.
pub open spec fn apply_ops(count: int, ops: Seq<RefOp>) -> int
    decreases ops.len(),
{
    if ops.len() == 0 {
        count
    } else {
        apply_ops(count, ops.drop_last()) + if ops.last() is Retain {
            1int
        } else {
            -1int
        }
    }
}

/// `n` retains in a row.
pub open spec fn all_retains(n: nat) -> Seq<RefOp> {
    Seq::new(n, |i: int| RefOp::Retain)
}

/// `n` releases in a row.
pub open spec fn all_releases(n: nat) -> Seq<RefOp> {
    Seq::new(n, |i: int| RefOp::Release)
}

/// The lifecycle of a root handle cloned `n` times and then destroyed
/// together with all `n` clones: the root's creation already holds one
/// reference, so the destroys number `n + 1`.
pub open spec fn clones_then_destroys(n: nat) -> Seq<RefOp> {
    all_retains(n) + all_releases(n + 1)
}

/// One retain moves `count_of` against its surface up by exactly one and
/// leaves the count of every other identifier alone — the view step
/// `clone_handle` (and a successful `lookup`) promises is one `Retain` step
/// of the counter.
pub proof fn lemma_retain_touches_one(v: Seq<SurfaceModel>, id: IOSurfaceID, other: IOSurfaceID)
    requires
        1 <= id as int <= v.len(),
    ensures
        count_of(retained(v, id), id) == apply_ops(count_of(v, id), seq![RefOp::Retain]),
        count_of(retained(v, id), id) == count_of(v, id) + 1,
        other != id ==> count_of(retained(v, id), other) == count_of(v, other),
{
    let s = seq![RefOp::Retain];
    assert(s.drop_last() =~= Seq::<RefOp>::empty());
    assert(s.last() is Retain);
    assert(apply_ops(count_of(v, id), s.drop_last()) == count_of(v, id));
}

/// One release moves `count_of` against its surface down by exactly one and
/// leaves the count of every other identifier alone — the view step
/// `destroy` promises is one `Release` step of the counter.
pub proof fn lemma_release_touches_one(v: Seq<SurfaceModel>, id: IOSurfaceID, other: IOSurfaceID)
    requires
        1 <= id as int <= v.len(),
        v[id as int - 1].retain_count > 0,
    ensures
        count_of(released(v, id), id) == apply_ops(count_of(v, id), seq![RefOp::Release]),
        count_of(released(v, id), id) == count_of(v, id) - 1,
        other != id ==> count_of(released(v, id), other) == count_of(v, other),
{
    let s = seq![RefOp::Release];
    assert(s.drop_last() =~= Seq::<RefOp>::empty());
    assert(s.last() is Release);
    assert(apply_ops(count_of(v, id), s.drop_last()) == count_of(v, id));
}

/// The net reference delta law: any sequence of clone and destroy steps
/// moves the external counter by exactly the number of retains performed
/// minus the number of releases performed.
pub proof fn lemma_net_reference_delta(count: int, ops: Seq<RefOp>)
    ensures
        apply_ops(count, ops) == count + num_retains(ops) - num_releases(ops),
    decreases ops.len(),
{
    if ops.len() > 0 {
        lemma_net_reference_delta(count, ops.drop_last());
    }
}

/// A balanced lifecycle — as many releases as retains — returns the
/// external counter to exactly its starting value.
pub proof fn lemma_balanced_lifecycle_restores_count(count: int, ops: Seq<RefOp>)
    requires
        num_retains(ops) == num_releases(ops),
    ensures
        apply_ops(count, ops) == count,
{
    lemma_net_reference_delta(count, ops);
}

/// Counting retains and releases distributes over concatenation of
/// lifecycles.
pub proof fn lemma_counts_append(a: Seq<RefOp>, b: Seq<RefOp>)
    ensures
        num_retains(a + b) == num_retains(a) + num_retains(b),
        num_releases(a + b) == num_releases(a) + num_releases(b),
    decreases b.len(),
{
    if b.len() == 0 {
        assert(a + b =~= a);
    } else {
        lemma_counts_append(a, b.drop_last());
        assert((a + b).drop_last() =~= a + b.drop_last());
    }
}

/// A run of `n` retains retains `n` times and releases none; a run of `n`
/// releases the other way around.
pub proof fn lemma_counts_uniform(n: nat)
    ensures
        num_retains(all_retains(n)) == n,
        num_releases(all_retains(n)) == 0,
        num_retains(all_releases(n)) == 0,
        num_releases(all_releases(n)) == n,
    decreases n,
{
    if n > 0 {
        lemma_counts_uniform((n - 1) as nat);
        assert(all_retains(n).drop_last() =~= all_retains((n - 1) as nat));
        assert(all_releases(n).drop_last() =~= all_releases((n - 1) as nat));
    }
}

/// The registry a creation leaves behind, in the words of `create`'s own
/// contract: the old slots, then the fresh surface.
pub open spec fn created(v: Seq<SurfaceModel>, p: SurfaceProperties) -> Seq<SurfaceModel> {
    v.push(fresh_surface(created_id(v), p))
}

/// The identifier a creation on `v` hands out.
pub open spec fn created_id(v: Seq<SurfaceModel>) -> IOSurfaceID {
    (v.len() + 1) as IOSurfaceID
}

/// Round-trip identity: the identifier a fresh surface's handle reports is
/// live, so looking it up straight after creation succeeds; and since the
/// lookup only retains, the handle it yields refers to the same underlying
/// surface — the one just created, with the height, stride and zeroed
/// buffer its properties asked for.
pub proof fn lemma_create_then_lookup_round_trip(v: Seq<SurfaceModel>, p: SurfaceProperties)
    requires
        v.len() < u32::MAX as nat,
    ensures
        is_live(created(v, p), created_id(v)),
        model_of(retained(created(v, p), created_id(v)), created_id(v)).id == created_id(
            v,
        ) as nat,
        model_of(retained(created(v, p), created_id(v)), created_id(v)).height == p.height as nat,
        model_of(retained(created(v, p), created_id(v)), created_id(v)).bytes_per_row
            == p.bytes_per_row as nat,
        model_of(retained(created(v, p), created_id(v)), created_id(v)).buffer == fresh_surface(
            created_id(v),
            p,
        ).buffer,
{
}

/// What an upload leaves in the buffer is exactly the uploaded bytes, byte
/// for byte; the surface's shape — height, stride, identifier — and its
/// retain count are untouched, and only the mutation seed has moved on.
pub proof fn lemma_upload_overwrites_exactly(v: Seq<SurfaceModel>, id: IOSurfaceID, data: Seq<u8>)
    requires
        1 <= id as int <= v.len(),
    ensures
        model_of(uploaded(v, id, data), id).buffer == data,
        model_of(uploaded(v, id, data), id).id == model_of(v, id).id,
        model_of(uploaded(v, id, data), id).height == model_of(v, id).height,
        model_of(uploaded(v, id, data), id).bytes_per_row == model_of(v, id).bytes_per_row,
        model_of(uploaded(v, id, data), id).retain_count == model_of(v, id).retain_count,
        model_of(uploaded(v, id, data), id).seed == next_seed(model_of(v, id).seed),
{
}

/// Cloning a root handle `n` times and then destroying the root and all
/// `n` clones performs `n` retains against the creation's one, releases
/// `n + 1` times — exactly matching the `n + 1` references taken — and
/// leaves the external counter at zero: the surface is freed, nothing
/// leaked and nothing double-released.
pub proof fn lemma_clone_n_then_destroy_all(n: nat)
    ensures
        num_retains(clones_then_destroys(n)) == n,
        num_releases(clones_then_destroys(n)) == n + 1,
        apply_ops(1, clones_then_destroys(n)) == 0,
{
    lemma_counts_uniform(n);
    lemma_counts_uniform(n + 1);
    lemma_counts_append(all_retains(n), all_releases(n + 1));
    lemma_net_reference_delta(1, clones_then_destroys(n));
}

} // verus!
