//! Index bookkeeping of the color batcher: where new indices go in the
//! batch, when the batch must be flushed first, and how a draw too large for
//! one batch is cut into batches.

use vstd::prelude::*;

verus! {

/// Indices one batch holds (a multiple of 3).
pub const MAX_VERTICES: usize = 9360;

/// What pushing `count` indices into a batch requires.
#[derive(Debug, Clone, Copy, Eq, PartialEq, Structural)]
pub enum BatchPlan {
    /// More indices than a batch holds: draw them in several batches.
    Split,
    /// They do not fit after the pending ones: flush the batch first.
    FlushFirst,
    /// They fit after the pending ones.
    Append,
}

/// The plan for pushing `count` indices into a batch of `capacity` holding
/// `pending` indices.
pub open spec fn batch_plan(capacity: nat, pending: nat, count: nat) -> BatchPlan {
    if count > capacity {
        BatchPlan::Split
    } else if pending + count >= capacity {
        BatchPlan::FlushFirst
    } else {
        BatchPlan::Append
    }
}

/// A fixed-size buffer of vertex indices and how many of them are pending.
pub struct IndexBatch {
    indices: Vec<u32>,
    index: usize,
}

impl View for IndexBatch {
    /// `(buffer, pending)`: the whole buffer and the number of pending indices
    /// at its start.
    type V = (Seq<u32>, nat);

    closed spec fn view(&self) -> (Seq<u32>, nat) {
        (self.indices@, self.index as nat)
    }
}

impl IndexBatch {
    /// The buffer holds `MAX_VERTICES` indices and the pending count never
    /// exceeds it.
    pub closed spec fn wf(&self) -> bool {
        &&& self.indices@.len() == MAX_VERTICES
        &&& self.index <= self.indices@.len()
    }

    /// An empty batch of `MAX_VERTICES` zeroed indices.
    pub fn new() -> (r: Self)
        ensures
            r.wf(),
            r@.0 == Seq::new(MAX_VERTICES as nat, |_i: int| 0u32),
            r@.1 == 0,
    {
        let capacity = MAX_VERTICES;
        let mut indices: Vec<u32> = Vec::new();
        let mut k: usize = 0;
        while k < capacity
            invariant
                capacity == MAX_VERTICES,
                k <= capacity,
                indices@ == Seq::new(k as nat, |_i: int| 0u32),
            decreases capacity - k,
        {
            indices.push(0);
            k = k + 1;
            assert(indices@ =~= Seq::new(k as nat, |_i: int| 0u32));
        }
        IndexBatch { indices, index: 0 }
    }

    /// What pushing `count` indices requires.
    pub fn plan(&self, count: usize) -> (r: BatchPlan)
        requires
            self.wf(),
        ensures
            r == batch_plan(self@.0.len(), self@.1, count as nat),
    {
        if count > self.indices.len() {
            BatchPlan::Split
        } else if self.index + count >= self.indices.len() {
            BatchPlan::FlushFirst
        } else {
            BatchPlan::Append
        }
    }

    /// Appends `indices`, each offset by the number of indices already
    /// pending, and returns that number.
    pub fn push_indices(&mut self, indices: &[u32]) -> (start: usize)
        requires
            old(self).wf(),
            old(self)@.1 + indices@.len() <= old(self)@.0.len(),
            forall|i: int| 0 <= i < indices@.len() ==> old(self)@.1 + indices@[i] <= u32::MAX,
        ensures
            final(self).wf(),
            start == old(self)@.1,
            final(self)@.1 == old(self)@.1 + indices@.len(),
            final(self)@.0.len() == old(self)@.0.len(),
            forall|j: int|
                0 <= j < final(self)@.0.len() ==> #[trigger] final(self)@.0[j] == (if start <= j < start
                    + indices@.len() {
                    (start + indices@[j - start]) as u32
                } else {
                    old(self)@.0[j]
                }),
    {
        let start = self.index;
        let n = indices.len();
        let ghost before = self.indices@;
        let mut i: usize = 0;
        while i < n
            invariant
                n == indices@.len(),
                before.len() == MAX_VERTICES,
                i <= n,
                start + n <= self.indices@.len(),
                self.index == start,
                self.indices@.len() == before.len(),
                forall|k: int| 0 <= k < indices@.len() ==> start + indices@[k] <= u32::MAX,
                forall|j: int|
                    0 <= j < self.indices@.len() ==> #[trigger] self.indices@[j] == (if start <= j
                        < start + i {
                        (start + indices@[j - start]) as u32
                    } else {
                        before[j]
                    }),
            decreases n - i,
        {
            let value = start as u32 + indices[i];
            self.indices.set(start + i, value);
            i = i + 1;
        }
        self.index = start + n;
        start
    }

    /// Empties the batch; returns how many indices were pending, the count
    /// to draw (nothing to draw when zero).
    pub fn flush(&mut self) -> (count: usize)
        ensures
            count == old(self)@.1,
            final(self)@ == (old(self)@.0, 0nat),
            old(self).wf() ==> final(self).wf(),
    {
        let count = self.index;
        self.index = 0;
        count
    }
}

/// The `i`-th batch of a draw of `total` indices cut into batches of
/// `capacity`: from `i * capacity` to the next multiple or the end.
pub open spec fn chunk(total: nat, capacity: nat, i: nat) -> (nat, nat) {
    let start = i * capacity;
    let end = if start + capacity < total { start + capacity } else { total };
    (start, end)
}

/// Cuts a draw of `total` indices into batches of `capacity`: one batch per
/// whole `capacity` plus one for the rest, which is empty when `total` is a
/// multiple of `capacity`.
pub fn split_chunks(total: usize, capacity: usize) -> (r: Vec<(usize, usize)>)
    requires
        capacity > 0,
        total + capacity <= usize::MAX,
    ensures
        r@.len() == total / capacity + 1,
        forall|i: int|
            0 <= i < r@.len() ==> #[trigger] r@[i] == (chunk(total as nat, capacity as nat, i as nat).0 as usize, chunk(
                total as nat,
                capacity as nat,
                i as nat,
            ).1 as usize),
{
    let iterations = total / capacity + 1;
    let mut chunks: Vec<(usize, usize)> = Vec::new();
    let mut i: usize = 0;
    while i < iterations
        invariant
            capacity > 0,
            total + capacity <= usize::MAX,
            iterations == total / capacity + 1,
            i <= iterations,
            chunks@.len() == i,
            forall|k: int|
                0 <= k < i ==> #[trigger] chunks@[k] == (chunk(total as nat, capacity as nat, k as nat).0 as usize, chunk(
                    total as nat,
                    capacity as nat,
                    k as nat,
                ).1 as usize),
        decreases iterations - i,
    {
        assert(i * capacity <= total) by (nonlinear_arith)
            requires
                i < total / capacity + 1,
                capacity > 0,
        ;
        let start = i * capacity;
        let end = if start + capacity < total {
            start + capacity
        } else {
            total
        };
        chunks.push((start, end));
        i = i + 1;
    }
    chunks
}

/// The batches of a split draw cover it exactly, in order, each within the
/// capacity: batch `i` ends where batch `i + 1` starts, the first starts at
/// zero and the last ends at `total`.
pub proof fn law_chunks_cover_draw(total: nat, capacity: nat, i: nat)
    requires
        capacity > 0,
        i <= total / capacity,
    ensures
        chunk(total, capacity, 0).0 == 0,
        chunk(total, capacity, i).0 <= chunk(total, capacity, i).1 <= total,
        chunk(total, capacity, i).1 - chunk(total, capacity, i).0 <= capacity,
        i < total / capacity ==> chunk(total, capacity, i).1 == chunk(total, capacity, i + 1).0,
        chunk(total, capacity, total / capacity).1 == total,
{
    let q = total / capacity;
    assert(i * capacity <= total) by (nonlinear_arith)
        requires
            i <= total / capacity,
            capacity > 0,
    ;
    assert(q * capacity <= total && total < q * capacity + capacity) by (nonlinear_arith)
        requires
            q == total / capacity,
            capacity > 0,
    ;
    if i < q {
        assert((i + 1) * capacity <= total) by (nonlinear_arith)
            requires
                i + 1 <= total / capacity,
                capacity > 0,
        ;
        assert((i + 1) * capacity == i * capacity + capacity) by (nonlinear_arith);
    }
    assert(0 * capacity == 0);
}

/// The indices of one batch of a split draw: `0, 1, ...` up to its length.
pub fn chunk_indices(len: usize) -> (r: Vec<u32>)
    requires
        len <= u32::MAX + 1,
    ensures
        r@ == Seq::new(len as nat, |i: int| i as u32),
{
    let mut indices: Vec<u32> = Vec::new();
    let mut v: usize = 0;
    while v < len
        invariant
            v <= len,
            len <= u32::MAX + 1,
            indices@ == Seq::new(v as nat, |i: int| i as u32),
        decreases len - v,
    {
        indices.push(v as u32);
        v = v + 1;
        assert(indices@ =~= Seq::new(v as nat, |i: int| i as u32));
    }
    indices
}


/// Triangles one sprite batch holds: 65000 color floats, three vertices of
/// four floats per triangle.
pub const MAX_PER_BATCH: i32 = 5416;

/// Triangles one image or pattern quad adds.
pub const QUAD_TRIANGLES: i32 = 2;

/// What the sprite batcher has pending: the texture of its batch and how
/// many triangles the batch holds.
#[derive(Debug, Clone, Copy, Eq, PartialEq, Structural)]
pub struct SpritePending {
    pub current_tex: Option<u64>,
    pub index: i32,
}

/// The batch to draw for `s`, as its texture and triangle count: none when
/// it is empty.
pub open spec fn pending_draw(s: SpritePending) -> Option<(u64, i32)> {
    if s.index > 0 {
        match s.current_tex {
            Some(t) => Some((t, s.index)),
            None => None,
        }
    } else {
        None
    }
}

/// Whether a quad with texture `tex` cannot join the pending batch: the batch
/// holds another texture, or the quad would fill it up.
pub open spec fn quad_needs_flush(s: SpritePending, tex: u64) -> bool {
    (s.current_tex.is_some() && s.current_tex != Some(tex)) || s.index + QUAD_TRIANGLES
        >= MAX_PER_BATCH
}

/// The batching decisions of the sprite batcher: one texture per batch, and
/// at most `MAX_PER_BATCH` triangles.
pub struct SpriteBatchState {
    current_tex: Option<u64>,
    index: i32,
}

impl View for SpriteBatchState {
    type V = SpritePending;

    closed spec fn view(&self) -> SpritePending {
        SpritePending { current_tex: self.current_tex, index: self.index }
    }
}

impl SpriteBatchState {
    /// The batch is not full, and a non-empty batch has a texture.
    pub open spec fn wf(&self) -> bool {
        &&& 0 <= self@.index < MAX_PER_BATCH
        &&& self@.index > 0 ==> self@.current_tex.is_some()
    }

    /// No texture and nothing pending.
    pub fn new() -> (r: Self)
        ensures
            r.wf(),
            r@ == (SpritePending { current_tex: None, index: 0 }),
    {
        SpriteBatchState { current_tex: None, index: 0 }
    }

    /// Ends the pending batch: returns it to draw (texture and triangle
    /// count), or `None` when it is empty.  The texture stays current.
    pub fn flush(&mut self) -> (r: Option<(u64, i32)>)
        requires
            old(self).wf(),
        ensures
            final(self).wf(),
            r == pending_draw(old(self)@),
            final(self)@ == (SpritePending { index: 0, ..old(self)@ }),
    {
        if self.index == 0 {
            return None;
        }
        let count = self.index;
        self.index = 0;
        match self.current_tex {
            Some(t) => Some((t, count)),
            None => None,
        }
    }

    /// Drops the pending batch without drawing it.
    pub fn reset(&mut self)
        requires
            old(self).wf(),
        ensures
            final(self).wf(),
            final(self)@ == (SpritePending { index: 0, ..old(self)@ }),
    {
        self.index = 0;
    }

    /// Makes room for an image quad drawn with texture `tex`.  Returns the batch to
    /// draw first, if the quad cannot join it, and the first triangle the quad
    /// is written at.  Afterwards the batch has texture `tex` and holds the
    /// quad.
    pub fn plan_quad(&mut self, tex: u64) -> (r: (Option<(u64, i32)>, i32))
        requires
            old(self).wf(),
        ensures
            final(self).wf(),
            r.0 == (if quad_needs_flush(old(self)@, tex) {
                pending_draw(old(self)@)
            } else {
                None
            }),
            r.1 == (if quad_needs_flush(old(self)@, tex) { 0 } else { old(self)@.index }),
            final(self)@ == (SpritePending {
                current_tex: Some(tex),
                index: (r.1 + QUAD_TRIANGLES) as i32,
            }),
    {
        let changed = match self.current_tex {
            Some(t) => t != tex,
            None => false,
        };
        let mut drawn: Option<(u64, i32)> = None;
        if changed {
            drawn = self.flush();
        }
        self.current_tex = Some(tex);
        if self.index + QUAD_TRIANGLES >= MAX_PER_BATCH {
            drawn = self.flush();
        }
        let start = self.index;
        self.index = start + QUAD_TRIANGLES;
        (drawn, start)
    }

    /// Makes room for a pattern quad drawn with texture `tex`, as the pattern
    /// path of the batcher does: like `plan_quad`, except that a batch that
    /// is flushed for holding another texture keeps that texture as current.
    /// Returns the batch to draw first and the first triangle of the quad.
    pub fn plan_pattern_quad(&mut self, tex: u64) -> (r: (Option<(u64, i32)>, i32))
        requires
            old(self).wf(),
        ensures
            final(self).wf(),
            r.0 == (if quad_needs_flush(old(self)@, tex) {
                pending_draw(old(self)@)
            } else {
                None
            }),
            r.1 == (if quad_needs_flush(old(self)@, tex) { 0 } else { old(self)@.index }),
            final(self)@ == (SpritePending {
                current_tex: match old(self)@.current_tex {
                    Some(t) => Some(t),
                    None => Some(tex),
                },
                index: (r.1 + QUAD_TRIANGLES) as i32,
            }),
    {
        let mut drawn: Option<(u64, i32)> = None;
        match self.current_tex {
            Some(t) => {
                if t != tex {
                    drawn = self.flush();
                }
            },
            None => {
                self.current_tex = Some(tex);
            },
        }
        if self.index + QUAD_TRIANGLES >= MAX_PER_BATCH {
            drawn = self.flush();
        }
        let start = self.index;
        self.index = start + QUAD_TRIANGLES;
        (drawn, start)
    }
}

/// A batch that has to be drawn before a quad is never empty, is drawn with
/// the texture its quads used and holds as many triangles as were pending;
/// a quad joins the pending batch only when the batch holds no other texture
/// and stays below the limit with it.
pub proof fn law_flushed_batch_is_pending_batch(s: SpritePending, tex: u64)
    requires
        0 <= s.index < MAX_PER_BATCH,
        s.index > 0 ==> s.current_tex.is_some(),
    ensures
        pending_draw(s) matches Some((t, n)) ==> n == s.index && n > 0 && s.current_tex == Some(t),
        !quad_needs_flush(s, tex) ==> (s.current_tex is None || s.current_tex == Some(tex))
            && s.index + QUAD_TRIANGLES < MAX_PER_BATCH,
        s.index > 0 ==> pending_draw(s) is Some,
{
}

/// The plan never overfills a batch: indices are appended only when they
/// fit after the pending ones with room to spare, a flush comes first only
/// when they do not fit there but fit in an emptied batch, and a draw is
/// split only when it is larger than a whole batch.
pub proof fn law_batch_plan_never_overfills(capacity: nat, pending: nat, count: nat)
    ensures
        batch_plan(capacity, pending, count) == BatchPlan::Append ==> pending + count < capacity,
        batch_plan(capacity, pending, count) == BatchPlan::FlushFirst ==> count <= capacity
            && pending + count >= capacity,
        (batch_plan(capacity, pending, count) == BatchPlan::Split) == (count > capacity),
        count <= capacity && pending + count < capacity ==> batch_plan(capacity, pending, count)
            == BatchPlan::Append,
{
}

} // verus!
