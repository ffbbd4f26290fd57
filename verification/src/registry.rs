//! A verified model of the two external services the surface wrapper sits
//! on: the reference-counted object allocator and the process-wide surface
//! registry.
//!
//! The registry is an explicit collaborator value rather than a hidden
//! global, so callers (and tests) inject it and observe its state: each
//! surface slot records the retain count, the creation parameters, the lock
//! state with its mutation seed, and the backing pixel buffer. Every
//! operation's contract says exactly how the slot sequence changes, which is
//! what the ownership laws in `laws` and the upload/locking properties rest
//! on.

use vstd::prelude::*;

use crate::handle::IOSurface;
use crate::handle::IOSurfaceID;

verus! {

/// The property bag handed to surface creation. The external allocator
/// defines the full set of recognized keys; the model keeps the ones its
/// own allocation behavior depends on (`height` and `bytes_per_row`, which
/// size the backing buffer) and passes the others through unchanged into
/// the surface's recorded description.
#[derive(Clone, Copy)]
pub struct SurfaceProperties {
    /// Width of the surface in pixels.
    pub width: usize,
    /// Height of the surface in rows.
    pub height: usize,
    /// Byte distance between the starts of consecutive rows (stride).
    pub bytes_per_row: usize,
    /// Bytes per pixel element.
    pub bytes_per_element: usize,
    /// Whether the surface is globally nameable across processes.
    pub is_global: bool,
}

/// Mathematical model of one surface slot of the registry.
///
/// A slot whose `retain_count` is zero is a freed surface: its identifier is
/// never reused, and no operation accepts it any more.
pub struct SurfaceModel {
    /// The surface's numeric identifier; always its slot index plus one.
    pub id: nat,
    /// How many owned references the external allocator has handed out and
    /// not yet taken back.
    pub retain_count: nat,
    /// Width in pixels, as created.
    pub width: nat,
    /// Height in rows, as created.
    pub height: nat,
    /// Stride in bytes, as created.
    pub bytes_per_row: nat,
    /// Bytes per pixel element, as created.
    pub bytes_per_element: nat,
    /// Whether the surface is globally nameable.
    pub is_global: bool,
    /// Whether the surface's access lock is currently held.
    pub locked: bool,
    /// The mutation seed: a counter bumped on every buffer overwrite, used
    /// as the lock protocol's token.
    pub seed: nat,
    /// The backing pixel buffer, `height * bytes_per_row` bytes.
    pub buffer: Seq<u8>,
}

/// Whether `id` names a surface of `v` that is still allocated.
pub open spec fn is_live(v: Seq<SurfaceModel>, id: IOSurfaceID) -> bool {
    &&& 1 <= id as int
    &&& id as int <= v.len()
    &&& v[id as int - 1].retain_count > 0
}

/// The slot of `v` that `id` names.
pub open spec fn model_of(v: Seq<SurfaceModel>, id: IOSurfaceID) -> SurfaceModel {
    v[id as int - 1]
}

/// The retain count held against `id`: zero for identifiers that name no
/// surface, so the count is total over all identifiers.
pub open spec fn count_of(v: Seq<SurfaceModel>, id: IOSurfaceID) -> int {
    if 1 <= id as int <= v.len() {
        v[id as int - 1].retain_count as int
    } else {
        0
    }
}

/// The full size in bytes of the surface's backing buffer: the
/// stride-aligned `height * bytes_per_row`, not the tightly packed image
/// size.
pub open spec fn buffer_len_of(v: Seq<SurfaceModel>, id: IOSurfaceID) -> nat {
    model_of(v, id).height * model_of(v, id).bytes_per_row
}

/// The mutation seed that follows `s`: one more, wrapping at the counter's
/// width.
pub open spec fn next_seed(s: nat) -> nat {
    if s == u32::MAX as nat {
        0
    } else {
        s + 1
    }
}

/// `v` after one more reference to `id` is handed out.
pub open spec fn retained(v: Seq<SurfaceModel>, id: IOSurfaceID) -> Seq<SurfaceModel> {
    v.update(
        id as int - 1,
        (SurfaceModel { retain_count: model_of(v, id).retain_count + 1, ..model_of(v, id) }),
    )
}

/// `v` after one reference to `id` is given back.
pub open spec fn released(v: Seq<SurfaceModel>, id: IOSurfaceID) -> Seq<SurfaceModel> {
    v.update(
        id as int - 1,
        (SurfaceModel {
            retain_count: (model_of(v, id).retain_count - 1) as nat,
            ..model_of(v, id)
        }),
    )
}

/// `v` with the lock state of `id` set to `l`.
pub open spec fn lock_set(v: Seq<SurfaceModel>, id: IOSurfaceID, l: bool) -> Seq<SurfaceModel> {
    v.update(id as int - 1, (SurfaceModel { locked: l, ..model_of(v, id) }))
}

/// `v` after the backing buffer of `id` is overwritten with `data`: the
/// buffer holds exactly `data` and the mutation seed has moved on once.
pub open spec fn uploaded(
    v: Seq<SurfaceModel>,
    id: IOSurfaceID,
    data: Seq<u8>,
) -> Seq<SurfaceModel> {
    v.update(
        id as int - 1,
        (SurfaceModel {
            buffer: data,
            seed: next_seed(model_of(v, id).seed),
            ..model_of(v, id)
        }),
    )
}

/// The slot a fresh surface starts from: one owned reference (the creator's),
/// unlocked, seed zero, and a zeroed buffer of the full stride-aligned size.
pub open spec fn fresh_surface(id: IOSurfaceID, p: SurfaceProperties) -> SurfaceModel {
    SurfaceModel {
        id: id as nat,
        retain_count: 1,
        width: p.width as nat,
        height: p.height as nat,
        bytes_per_row: p.bytes_per_row as nat,
        bytes_per_element: p.bytes_per_element as nat,
        is_global: p.is_global,
        locked: false,
        seed: 0,
        buffer: Seq::new((p.height * p.bytes_per_row) as nat, |i: int| 0u8),
    }
}

/// Well-formedness of one slot: its identifier is its index plus one, its
/// buffer size arithmetic fits the machine, and while the surface is
/// allocated the buffer really has its full stride-aligned size.
pub open spec fn wf_at(v: Seq<SurfaceModel>, i: int) -> bool {
    &&& v[i].id == i + 1
    &&& v[i].height * v[i].bytes_per_row <= usize::MAX as nat
    &&& v[i].retain_count > 0 ==> v[i].buffer.len() == v[i].height * v[i].bytes_per_row
}

/// One surface slot as the registry holds it.
struct SurfaceRecord {
    id: IOSurfaceID,
    retain_count: u32,
    width: usize,
    height: usize,
    bytes_per_row: usize,
    bytes_per_element: usize,
    is_global: bool,
    locked: bool,
    seed: u32,
    buffer: Vec<u8>,
}

impl View for SurfaceRecord {
    type V = SurfaceModel;

    closed spec fn view(&self) -> SurfaceModel {
        SurfaceModel {
            id: self.id as nat,
            retain_count: self.retain_count as nat,
            width: self.width as nat,
            height: self.height as nat,
            bytes_per_row: self.bytes_per_row as nat,
            bytes_per_element: self.bytes_per_element as nat,
            is_global: self.is_global,
            locked: self.locked,
            seed: self.seed as nat,
            buffer: self.buffer@,
        }
    }
}

/// The error upload reports when the supplied bytes do not cover the
/// surface's full stride-aligned buffer exactly.
#[derive(Clone, Copy, Debug, PartialEq, Eq, Structural)]
pub struct UploadError {
    /// The buffer size the surface demands: `height * bytes_per_row`.
    pub expected: usize,
    /// The length of the bytes that were supplied.
    pub actual: usize,
}

/// The external reference-counted surface allocator and process-wide
/// registry, modeled as one explicit value. Surfaces are named by small
/// integer identifiers, handed out in creation order and never reused.
pub struct SurfaceRegistry {
    surfaces: Vec<SurfaceRecord>,
}

impl View for SurfaceRegistry {
    type V = Seq<SurfaceModel>;

    closed spec fn view(&self) -> Seq<SurfaceModel> {
        self.surfaces@.map_values(|r: SurfaceRecord| r@)
    }
}

impl SurfaceRegistry {
    /// Every slot of the registry is well-formed.
    pub open spec fn wf(&self) -> bool {
        forall|i: int| 0 <= i < self@.len() ==> wf_at(self@, i)
    }

    /// An empty registry: no surfaces allocated yet.
    pub fn new() -> (r: SurfaceRegistry)
        ensures
            r.wf(),
            r@.len() == 0,
    {
        SurfaceRegistry { surfaces: Vec::new() }
    }

    /// How many identifiers the registry has handed out so far, freed
    /// surfaces included.
    pub fn surface_count(&self) -> (n: usize)
        ensures
            n == self@.len(),
    {
        self.surfaces.len()
    }

    /// Allocates a new surface described by `properties` and hands the
    /// caller its one owned reference, wrapped under the create rule.
    pub fn create(&mut self, properties: &SurfaceProperties) -> (s: IOSurface)
        requires
            old(self).wf(),
            old(self)@.len() < u32::MAX as nat,
            properties.height * properties.bytes_per_row <= usize::MAX as int,
        ensures
            final(self).wf(),
            final(self)@ == old(self)@.push(
                fresh_surface((old(self)@.len() + 1) as IOSurfaceID, *properties),
            ),
            s@ as int == old(self)@.len() + 1,
            is_live(final(self)@, s@),
            count_of(final(self)@, s@) == 1,
    {
        let id: IOSurfaceID = (self.surfaces.len() as u32) + 1;
        let buffer = zero_buffer(properties.height * properties.bytes_per_row);
        let record = SurfaceRecord {
            id,
            retain_count: 1,
            width: properties.width,
            height: properties.height,
            bytes_per_row: properties.bytes_per_row,
            bytes_per_element: properties.bytes_per_element,
            is_global: properties.is_global,
            locked: false,
            seed: 0,
            buffer,
        };
        self.surfaces.push(record);
        proof {
            let v_old = old(self)@;
            let fresh = fresh_surface((v_old.len() + 1) as IOSurfaceID, *properties);
            assert(self@ =~= v_old.push(fresh));
            assert forall|i: int| 0 <= i < self@.len() implies wf_at(self@, i) by {
                if i < v_old.len() {
                    assert(wf_at(v_old, i));
                }
            }
        }
        IOSurface::wrap_under_create_rule(id)
    }

    /// Looks a surface up by its numeric identifier. On a live identifier
    /// the registry retains the surface once more and hands out an owning
    /// handle; an identifier that names no live surface is reported as
    /// absent, and nothing changes.
    pub fn lookup(&mut self, csid: IOSurfaceID) -> (r: Option<IOSurface>)
        requires
            old(self).wf(),
            count_of(old(self)@, csid) < u32::MAX as int,
        ensures
            final(self).wf(),
            r is Some <==> is_live(old(self)@, csid),
            r matches Some(s) ==> s@ == csid && final(self)@ == retained(old(self)@, csid),
            r is None ==> final(self)@ == old(self)@,
    {
        if csid == 0 {
            return None;
        }
        let idx = (csid - 1) as usize;
        if idx >= self.surfaces.len() {
            return None;
        }
        if self.surfaces[idx].retain_count == 0 {
            return None;
        }
        self.retain(csid);
        Some(IOSurface::wrap_under_create_rule(csid))
    }

    /// Hands out one more reference to a live surface.
    pub(crate) fn retain(&mut self, id: IOSurfaceID)
        requires
            old(self).wf(),
            is_live(old(self)@, id),
            count_of(old(self)@, id) < u32::MAX as int,
        ensures
            final(self).wf(),
            final(self)@ == retained(old(self)@, id),
    {
        let idx = (id - 1) as usize;
        let rec = &mut self.surfaces[idx];
        rec.retain_count = rec.retain_count + 1;
        proof {
            let v_old = old(self)@;
            assert(self@ =~= retained(v_old, id));
            assert forall|i: int| 0 <= i < self@.len() implies wf_at(self@, i) by {
                assert(wf_at(v_old, i));
            }
        }
    }

    /// Takes one reference to a live surface back; the reference that
    /// reaches count zero frees the surface, and its identifier is retired.
    pub(crate) fn release(&mut self, id: IOSurfaceID)
        requires
            old(self).wf(),
            is_live(old(self)@, id),
        ensures
            final(self).wf(),
            final(self)@ == released(old(self)@, id),
    {
        let idx = (id - 1) as usize;
        let rec = &mut self.surfaces[idx];
        rec.retain_count = rec.retain_count - 1;
        proof {
            let v_old = old(self)@;
            assert(self@ =~= released(v_old, id));
            assert forall|i: int| 0 <= i < self@.len() implies wf_at(self@, i) by {
                assert(wf_at(v_old, i));
            }
        }
    }

    /// Height in rows of a live surface, fetched from the registry.
    pub fn height(&self, id: IOSurfaceID) -> (h: usize)
        requires
            self.wf(),
            is_live(self@, id),
        ensures
            h as nat == model_of(self@, id).height,
    {
        self.surfaces[(id - 1) as usize].height
    }

    /// Stride (bytes per row) of a live surface, fetched from the registry.
    pub fn bytes_per_row(&self, id: IOSurfaceID) -> (b: usize)
        requires
            self.wf(),
            is_live(self@, id),
        ensures
            b as nat == model_of(self@, id).bytes_per_row,
    {
        self.surfaces[(id - 1) as usize].bytes_per_row
    }

    /// The retain count currently held against `id`; zero for identifiers
    /// that name no surface or whose surface has been freed.
    pub fn retain_count(&self, id: IOSurfaceID) -> (c: u32)
        requires
            self.wf(),
        ensures
            c as int == count_of(self@, id),
    {
        if id == 0 {
            return 0;
        }
        let idx = (id - 1) as usize;
        if idx >= self.surfaces.len() {
            return 0;
        }
        self.surfaces[idx].retain_count
    }

    /// Acquires the access lock of a live surface and hands back the
    /// surface's current mutation seed as the lock token.
    pub fn lock(&mut self, id: IOSurfaceID) -> (seed: u32)
        requires
            old(self).wf(),
            is_live(old(self)@, id),
            !model_of(old(self)@, id).locked,
        ensures
            final(self).wf(),
            final(self)@ == lock_set(old(self)@, id, true),
            seed as nat == model_of(old(self)@, id).seed,
    {
        let idx = (id - 1) as usize;
        let rec = &mut self.surfaces[idx];
        rec.locked = true;
        let seed = rec.seed;
        proof {
            let v_old = old(self)@;
            assert(self@ =~= lock_set(v_old, id, true));
            assert forall|i: int| 0 <= i < self@.len() implies wf_at(self@, i) by {
                assert(wf_at(v_old, i));
            }
        }
        seed
    }

    /// Releases the access lock of a live surface. The token must be the
    /// surface's current mutation seed — the one the matching lock handed
    /// out, moved on once if the buffer was overwritten in between — so a
    /// stale token from a conflicting critical section is rejected.
    pub fn unlock(&mut self, id: IOSurfaceID, seed: u32)
        requires
            old(self).wf(),
            is_live(old(self)@, id),
            model_of(old(self)@, id).locked,
            seed as nat == model_of(old(self)@, id).seed,
        ensures
            final(self).wf(),
            final(self)@ == lock_set(old(self)@, id, false),
    {
        let idx = (id - 1) as usize;
        let rec = &mut self.surfaces[idx];
        rec.locked = false;
        proof {
            let v_old = old(self)@;
            assert(self@ =~= lock_set(v_old, id, false));
            assert forall|i: int| 0 <= i < self@.len() implies wf_at(self@, i) by {
                assert(wf_at(v_old, i));
            }
        }
    }

    /// Overwrites the whole backing buffer of a locked surface with `data`
    /// and moves the mutation seed on, handing back the new seed as the
    /// token for the matching unlock. The lock must be held: this is the
    /// one operation that touches the buffer's memory for writing.
    fn overwrite(&mut self, id: IOSurfaceID, data: &[u8], seed: u32) -> (new_seed: u32)
        requires
            old(self).wf(),
            is_live(old(self)@, id),
            model_of(old(self)@, id).locked,
            seed as nat == model_of(old(self)@, id).seed,
            data@.len() == buffer_len_of(old(self)@, id),
        ensures
            final(self).wf(),
            final(self)@ == uploaded(old(self)@, id, data@),
            new_seed as nat == next_seed(model_of(old(self)@, id).seed),
    {
        let idx = (id - 1) as usize;
        let copied = copy_bytes(data);
        let rec = &mut self.surfaces[idx];
        rec.buffer = copied;
        rec.seed = if rec.seed == u32::MAX {
            0
        } else {
            rec.seed + 1
        };
        let new_seed = rec.seed;
        proof {
            let v_old = old(self)@;
            assert(self@ =~= uploaded(v_old, id, data@));
            assert forall|i: int| 0 <= i < self@.len() implies wf_at(self@, i) by {
                assert(wf_at(v_old, i));
            }
        }
        new_seed
    }

    /// Reads the backing buffer of a locked surface, byte for byte. The
    /// lock must be held: reads of the buffer's memory are bracketed the
    /// same way writes are.
    pub fn read_buffer(&self, id: IOSurfaceID) -> (b: Vec<u8>)
        requires
            self.wf(),
            is_live(self@, id),
            model_of(self@, id).locked,
        ensures
            b@ == model_of(self@, id).buffer,
    {
        let idx = (id - 1) as usize;
        let src = &self.surfaces[idx].buffer;
        let mut out: Vec<u8> = Vec::new();
        let mut k: usize = 0;
        while k < src.len()
            invariant
                k <= src.len(),
                out@.len() == k as nat,
                forall|i: int| 0 <= i < k ==> out@[i] == src@[i],
            decreases src.len() - k,
        {
            out.push(src[k]);
            k = k + 1;
        }
        proof {
            assert(out@ =~= model_of(self@, id).buffer);
        }
        out
    }
}

impl IOSurface {
    /// Clones the handle: the source reference stays owned by `self`, so
    /// the registry retains the surface once more (the "get rule") and the
    /// extra reference is wrapped as an independent owning handle. Original
    /// and clone must each be destroyed on their own.
    pub fn clone_handle(&self, registry: &mut SurfaceRegistry) -> (c: IOSurface)
        requires
            old(registry).wf(),
            is_live(old(registry)@, self@),
            count_of(old(registry)@, self@) < u32::MAX as int,
        ensures
            final(registry).wf(),
            final(registry)@ == retained(old(registry)@, self@),
            count_of(final(registry)@, self@) == count_of(old(registry)@, self@) + 1,
            c@ == self@,
    {
        let id = self.get_id();
        registry.retain(id);
        IOSurface::wrap_under_create_rule(id)
    }

    /// Destroys the handle, giving the one reference it owns back to the
    /// registry. Consuming `self` makes this the handle's single exit path:
    /// the release runs exactly once per owning value.
    pub fn destroy(self, registry: &mut SurfaceRegistry)
        requires
            old(registry).wf(),
            is_live(old(registry)@, self@),
        ensures
            final(registry).wf(),
            final(registry)@ == released(old(registry)@, self@),
            count_of(final(registry)@, self@) == count_of(old(registry)@, self@) - 1,
    {
        let id = self.get_id();
        registry.release(id);
    }

    /// Overwrites the surface's whole backing buffer with `data`, holding
    /// the access lock around the copy. The supplied bytes must cover the
    /// full stride-aligned buffer (`height * bytes_per_row`) exactly: on a
    /// mismatch the operation reports the error, leaves the buffer — and
    /// the whole registry — untouched, and still releases the lock, so a
    /// failed upload never leaves the critical section open.
    pub fn upload(&self, registry: &mut SurfaceRegistry, data: &[u8]) -> (r: Result<
        (),
        UploadError,
    >)
        requires
            old(registry).wf(),
            is_live(old(registry)@, self@),
            !model_of(old(registry)@, self@).locked,
        ensures
            final(registry).wf(),
            !model_of(final(registry)@, self@).locked,
            r is Ok <==> data@.len() == buffer_len_of(old(registry)@, self@),
            r is Ok ==> final(registry)@ == uploaded(old(registry)@, self@, data@),
            r matches Err(e) ==> final(registry)@ == old(registry)@
                && e.expected as nat == buffer_len_of(old(registry)@, self@)
                && e.actual == data@.len(),
    {
        let id = self.get_id();
        let seed = registry.lock(id);
        let height = registry.height(id);
        let stride = registry.bytes_per_row(id);
        proof {
            assert(wf_at(old(registry)@, id as int - 1));
        }
        let size = height * stride;
        if data.len() != size {
            registry.unlock(id, seed);
            proof {
                assert(registry@ =~= old(registry)@);
            }
            return Err(UploadError { expected: size, actual: data.len() });
        }
        let seed = registry.overwrite(id, data, seed);
        registry.unlock(id, seed);
        proof {
            assert(registry@ =~= uploaded(old(registry)@, self@, data@));
        }
        Ok(())
    }
}

/// A zeroed byte buffer of length `n`.
fn zero_buffer(n: usize) -> (b: Vec<u8>)
    ensures
        b@ == Seq::new(n as nat, |i: int| 0u8),
{
    let mut b: Vec<u8> = Vec::new();
    let mut k: usize = 0;
    while k < n
        invariant
            k <= n,
            b@.len() == k as nat,
            forall|i: int| 0 <= i < k ==> b@[i] == 0u8,
        decreases n - k,
    {
        b.push(0u8);
        k = k + 1;
    }
    proof {
        assert(b@ =~= Seq::new(n as nat, |i: int| 0u8));
    }
    b
}

/// An owned copy of a byte slice.
fn copy_bytes(data: &[u8]) -> (b: Vec<u8>)
    ensures
        b@ == data@,
{
    let mut b: Vec<u8> = Vec::new();
    let mut k: usize = 0;
    while k < data.len()
        invariant
            k <= data@.len(),
            b@.len() == k as nat,
            forall|i: int| 0 <= i < k ==> b@[i] == data@[i],
        decreases data@.len() - k,
    {
        b.push(data[k]);
        k = k + 1;
    }
    proof {
        assert(b@ =~= data@);
    }
    b
}

} // verus!
