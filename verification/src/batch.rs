//! The quad batch accumulator: draw requests collect into an active batch
//! bounded by `MAX_QUADS_PER_DRAW_CALL`; quads beyond the bound go to an
//! overflow queue and become the next active batch at the following flush,
//! so no request is ever lost.  Quads of differing size are tracked as
//! separate sub-batches, each flushed with its own vertex sub-range.
//!
//! Geometry is in fixed-point micro-units, as in the camera module.
use vstd::prelude::*;

verus! {

/// The most quads one indexed draw call may cover; the shared index buffer
/// is sized once for this bound.
pub const MAX_QUADS_PER_DRAW_CALL: usize = 20_000;

/// One draw request: an axis-aligned square at `(x, y)` with edge length
/// `size`, optionally textured.  Coordinates are micro-units.
#[derive(Clone, Copy, PartialEq, Eq, Debug)]
pub struct Quad {
    pub x: i64,
    pub y: i64,
    pub size: u32,
    pub texture: Option<u32>,
}

/// One emitted vertex: a corner position in micro-units.
#[derive(Clone, Copy, PartialEq, Eq, Structural, Debug)]
pub struct Vertex {
    pub x: i64,
    pub y: i64,
}

/// A quad whose corner coordinates stay inside the i64 range.
pub open spec fn quad_fits(q: Quad) -> bool {
    let h = q.size as int / 2;
    &&& i64::MIN <= q.x - h
    &&& q.x + h <= i64::MAX
    &&& i64::MIN <= q.y - h
    &&& q.y + h <= i64::MAX
}

/// The four corners of a quad, in the order the index pattern
/// `{0, 1, 3, 0, 3, 2}` refers to them: lower-left, lower-right,
/// upper-left, upper-right.
pub open spec fn spec_quad_vertices(q: Quad) -> Seq<Vertex> {
    let h = q.size as int / 2;
    seq![
        Vertex { x: (q.x - h) as i64, y: (q.y - h) as i64 },
        Vertex { x: (q.x + h) as i64, y: (q.y - h) as i64 },
        Vertex { x: (q.x - h) as i64, y: (q.y + h) as i64 },
        Vertex { x: (q.x + h) as i64, y: (q.y + h) as i64 },
    ]
}

/// The six index-pattern offsets of one quad: `{0, 1, 3, 0, 3, 2}`.
pub open spec fn index_pattern_offset(k: int) -> int {
    if k == 0 {
        0
    } else if k == 1 {
        1
    } else if k == 2 {
        3
    } else if k == 3 {
        0
    } else if k == 4 {
        3
    } else {
        2
    }
}

/// How many quads of `quads` have edge length `s`.
pub open spec fn count_size(quads: Seq<Quad>, s: u32) -> int
    decreases quads.len(),
{
    if quads.len() == 0 {
        0
    } else {
        count_size(quads.drop_last(), s) + if quads.last().size == s {
            1int
        } else {
            0int
        }
    }
}

/// The quads of `quads` with edge length `s`, in order.
pub open spec fn quads_of_size(quads: Seq<Quad>, s: u32) -> Seq<Quad>
    decreases quads.len(),
{
    if quads.len() == 0 {
        Seq::<Quad>::empty()
    } else {
        quads_of_size(quads.drop_last(), s) + if quads.last().size == s {
            seq![quads.last()]
        } else {
            Seq::<Quad>::empty()
        }
    }
}

/// The vertices of a run of quads, four per quad, in order.
pub open spec fn flat_vertices(quads: Seq<Quad>) -> Seq<Vertex>
    decreases quads.len(),
{
    if quads.len() == 0 {
        Seq::<Vertex>::empty()
    } else {
        flat_vertices(quads.drop_last()) + spec_quad_vertices(quads.last())
    }
}

/// Whether the sub-batch map holds an entry for size `s`.
pub open spec fn has_size_entry(sub: Seq<(u32, usize)>, s: u32) -> bool {
    exists|i: int| 0 <= i < sub.len() && (#[trigger] sub[i]).0 == s
}

/// The sub-batch map is exact for `quads`: keys are distinct, every count
/// is positive and counts the quads of its size, and every quad's size has
/// an entry.
pub open spec fn wf_sub(sub: Seq<(u32, usize)>, quads: Seq<Quad>) -> bool {
    &&& forall|i: int, j: int|
        0 <= i < j < sub.len() ==> (#[trigger] sub[i]).0 != (#[trigger] sub[j]).0
    &&& forall|i: int|
        0 <= i < sub.len() ==> 1 <= (#[trigger] sub[i]).1 && sub[i].1 == count_size(
            quads,
            sub[i].0,
        )
    &&& forall|k: int| 0 <= k < quads.len() ==> has_size_entry(sub, (#[trigger] quads[k]).size)
}

/// The total quad count the sub-batch map accounts for.
pub open spec fn sum_counts(sub: Seq<(u32, usize)>) -> int
    decreases sub.len(),
{
    if sub.len() == 0 {
        0
    } else {
        sum_counts(sub.drop_last()) + sub.last().1
    }
}

/// The vertex data of a flush: the sub-batches' vertex runs, one after the
/// other, each run holding the vertices of that sub-batch's quads.
pub open spec fn grouped_vertices(quads: Seq<Quad>, sub: Seq<(u32, usize)>) -> Seq<Vertex>
    decreases sub.len(),
{
    if sub.len() == 0 {
        Seq::<Vertex>::empty()
    } else {
        grouped_vertices(quads, sub.drop_last()) + flat_vertices(
            quads_of_size(quads, sub.last().0),
        )
    }
}

/// One indexed draw call of a flush: a sub-batch's vertex sub-range and its
/// index count.
#[derive(Clone, Copy, PartialEq, Eq, Structural, Debug)]
pub struct DrawCall {
    /// Offset of the sub-batch's first vertex in the flushed vertex data.
    pub first_vertex: usize,
    /// Four vertices per quad of the sub-batch.
    pub vertex_count: usize,
    /// Six indices per quad of the sub-batch.
    pub index_count: usize,
    /// The edge length shared by the sub-batch's quads.
    pub size: u32,
}

/// Everything one flush emits: the vertex data to upload at offset 0 and
/// the draw calls to issue, one per sub-batch.
pub struct FlushOutput {
    pub vertices: Vec<Vertex>,
    pub calls: Vec<DrawCall>,
}

/// The sum of the emitted draw calls' index counts.
pub open spec fn total_index_count(calls: Seq<DrawCall>) -> int
    decreases calls.len(),
{
    if calls.len() == 0 {
        0
    } else {
        total_index_count(calls.drop_last()) + calls.last().index_count
    }
}

/// Appending a quad raises exactly its size's count.
proof fn lemma_count_size_push(quads: Seq<Quad>, q: Quad, s: u32)
    ensures
        count_size(quads.push(q), s) == count_size(quads, s) + if q.size == s {
            1int
        } else {
            0int
        },
{
    assert(quads.push(q).drop_last() =~= quads);
}

/// Appending a quad extends exactly its size's group.
proof fn lemma_quads_of_size_push(quads: Seq<Quad>, q: Quad, s: u32)
    ensures
        q.size == s ==> quads_of_size(quads.push(q), s) == quads_of_size(quads, s).push(q),
        q.size != s ==> quads_of_size(quads.push(q), s) == quads_of_size(quads, s),
{
    assert(quads.push(q).drop_last() =~= quads);
    if q.size == s {
        assert(quads_of_size(quads, s) + seq![q] =~= quads_of_size(quads, s).push(q));
    } else {
        assert(quads_of_size(quads, s) + Seq::<Quad>::empty() =~= quads_of_size(quads, s));
    }
}

/// A run of quads emits four vertices per quad.
pub proof fn lemma_flat_vertices_len(quads: Seq<Quad>)
    ensures
        flat_vertices(quads).len() == 4 * quads.len(),
    decreases quads.len(),
{
    if quads.len() > 0 {
        lemma_flat_vertices_len(quads.drop_last());
    }
}

/// Appending a quad appends its four vertices.
proof fn lemma_flat_vertices_push(quads: Seq<Quad>, q: Quad)
    ensures
        flat_vertices(quads.push(q)) == flat_vertices(quads) + spec_quad_vertices(q),
{
    assert(quads.push(q).drop_last() =~= quads);
}

/// A size's group is as long as its count.
pub proof fn lemma_group_len(quads: Seq<Quad>, s: u32)
    ensures
        quads_of_size(quads, s).len() == count_size(quads, s),
    decreases quads.len(),
{
    if quads.len() > 0 {
        lemma_group_len(quads.drop_last(), s);
    }
}

/// No size's count exceeds the number of quads.
pub proof fn lemma_count_size_le_len(quads: Seq<Quad>, s: u32)
    ensures
        0 <= count_size(quads, s) <= quads.len(),
    decreases quads.len(),
{
    if quads.len() > 0 {
        lemma_count_size_le_len(quads.drop_last(), s);
    }
}

/// Updating one entry of the sub-batch map moves its sum by the difference.
proof fn lemma_sum_counts_update(sub: Seq<(u32, usize)>, i: int, v: (u32, usize))
    requires
        0 <= i < sub.len(),
    ensures
        sum_counts(sub.update(i, v)) == sum_counts(sub) - sub[i].1 + v.1,
    decreases sub.len(),
{
    let updated = sub.update(i, v);
    if i == sub.len() - 1 {
        assert(updated.drop_last() =~= sub.drop_last());
    } else {
        assert(updated.drop_last() =~= sub.drop_last().update(i, v));
        lemma_sum_counts_update(sub.drop_last(), i, v);
    }
}

/// Appending an entry adds its count to the sum.
proof fn lemma_sum_counts_push(sub: Seq<(u32, usize)>, v: (u32, usize))
    ensures
        sum_counts(sub.push(v)) == sum_counts(sub) + v.1,
{
    assert(sub.push(v).drop_last() =~= sub);
}

/// Law: however a batch splits into sub-batches, an exact sub-batch map
/// accounts for four emitted vertices per quad.
pub proof fn lemma_grouped_emission(quads: Seq<Quad>, sub: Seq<(u32, usize)>)
    requires
        forall|i: int|
            0 <= i < sub.len() ==> (#[trigger] sub[i]).1 == count_size(quads, sub[i].0),
    ensures
        grouped_vertices(quads, sub).len() == 4 * sum_counts(sub),
    decreases sub.len(),
{
    if sub.len() > 0 {
        lemma_grouped_emission(quads, sub.drop_last());
        lemma_group_len(quads, sub.last().0);
        lemma_flat_vertices_len(quads_of_size(quads, sub.last().0));
    }
}

/// Records one more quad of size `size` in the sub-batch map that is exact
/// for `quads`, keeping it exact for `quads` with such a quad appended.
fn record_size(sub: &mut Vec<(u32, usize)>, Ghost(quads): Ghost<Seq<Quad>>, q: Quad)
    requires
        wf_sub(old(sub)@, quads),
        sum_counts(old(sub)@) == quads.len(),
        quads.len() < MAX_QUADS_PER_DRAW_CALL,
    ensures
        wf_sub(final(sub)@, quads.push(q)),
        sum_counts(final(sub)@) == quads.len() + 1,
        has_size_entry(old(sub)@, q.size) ==> exists|i: int|
            0 <= i < old(sub)@.len() && (#[trigger] old(sub)@[i]).0 == q.size && final(sub)@
                == old(sub)@.update(i, (q.size, (old(sub)@[i].1 + 1) as usize)),
        !has_size_entry(old(sub)@, q.size) ==> final(sub)@ == old(sub)@.push((q.size, 1usize)),
{
    proof {
        assert forall|s: u32| #[trigger]
            count_size(quads.push(q), s) == count_size(quads, s) + (if q.size == s {
                1int
            } else {
                0int
            }) by {
            lemma_count_size_push(quads, q, s);
        }
    }
    let n = sub.len();
    let mut i: usize = 0;
    while i < n
        invariant
            sub@ == old(sub)@,
            n == sub@.len(),
            i <= n,
            wf_sub(sub@, quads),
            sum_counts(sub@) == quads.len(),
            quads.len() < MAX_QUADS_PER_DRAW_CALL,
            forall|j: int| 0 <= j < i ==> (#[trigger] sub@[j]).0 != q.size,
            forall|s: u32| #[trigger]
                count_size(quads.push(q), s) == count_size(quads, s) + (if q.size == s {
                    1int
                } else {
                    0int
                }),
        decreases n - i,
    {
        let entry = sub[i];
        if entry.0 == q.size {
            let ghost pre = sub@;
            proof {
                lemma_count_size_le_len(quads, q.size);
                lemma_sum_counts_update(pre, i as int, (q.size, (entry.1 + 1) as usize));
            }
            sub.set(i, (q.size, entry.1 + 1));
            proof {
                assert forall|k: int|
                    0 <= k < quads.push(q).len() implies has_size_entry(
                    sub@,
                    (#[trigger] quads.push(q)[k]).size,
                ) by {
                    if k < quads.len() {
                        assert(has_size_entry(pre, quads[k].size));
                        let w = choose|w: int|
                            0 <= w < pre.len() && (#[trigger] pre[w]).0 == quads[k].size;
                        assert(sub@[w].0 == quads[k].size);
                    } else {
                        assert(sub@[i as int].0 == q.size);
                    }
                }
                assert(pre[i as int].0 == q.size && sub@ == pre.update(
                    i as int,
                    (q.size, (pre[i as int].1 + 1) as usize),
                ));
            }
            return ;
        }
        i = i + 1;
    }
    let ghost pre = sub@;
    proof {
        assert(!has_size_entry(pre, q.size)) by {
            if has_size_entry(pre, q.size) {
                let w = choose|w: int| 0 <= w < pre.len() && (#[trigger] pre[w]).0 == q.size;
                assert(pre[w].0 != q.size);
            }
        }
        lemma_count_size_le_len(quads, q.size);
        assert(count_size(quads, q.size) == 0) by {
            if count_size(quads, q.size) > 0 {
                lemma_count_size_pos_has_quad(quads, q.size);
                let k = choose|k: int|
                    0 <= k < quads.len() && (#[trigger] quads[k]).size == q.size;
                assert(has_size_entry(pre, quads[k].size));
                let w = choose|w: int|
                    0 <= w < pre.len() && (#[trigger] pre[w]).0 == quads[k].size;
                assert(pre[w].0 != q.size);
                assert(false);
            }
        }
        lemma_sum_counts_push(pre, (q.size, 1));
    }
    sub.push((q.size, 1));
    proof {
        assert forall|k: int|
            0 <= k < quads.push(q).len() implies has_size_entry(
            sub@,
            (#[trigger] quads.push(q)[k]).size,
        ) by {
            if k < quads.len() {
                assert(has_size_entry(pre, quads[k].size));
                let w = choose|w: int|
                    0 <= w < pre.len() && (#[trigger] pre[w]).0 == quads[k].size;
                assert(sub@[w].0 == quads[k].size);
            } else {
                assert(sub@[sub@.len() - 1].0 == q.size);
            }
        }
    }
}

/// A positive count means some quad has that size.
proof fn lemma_count_size_pos_has_quad(quads: Seq<Quad>, s: u32)
    requires
        count_size(quads, s) > 0,
    ensures
        exists|k: int| 0 <= k < quads.len() && (#[trigger] quads[k]).size == s,
    decreases quads.len(),
{
    if quads.last().size == s {
        assert(quads[quads.len() - 1].size == s);
    } else {
        lemma_count_size_pos_has_quad(quads.drop_last(), s);
        let k = choose|k: int|
            0 <= k < quads.drop_last().len() && (#[trigger] quads.drop_last()[k]).size == s;
        assert(quads[k].size == s);
    }
}

/// The sub-batch map of a whole run of quads, built from scratch.
fn compute_sub_batches(quads: &Vec<Quad>) -> (r: Vec<(u32, usize)>)
    requires
        quads@.len() <= MAX_QUADS_PER_DRAW_CALL,
    ensures
        wf_sub(r@, quads@),
        sum_counts(r@) == quads@.len(),
{
    let mut sub: Vec<(u32, usize)> = Vec::new();
    let mut i: usize = 0;
    while i < quads.len()
        invariant
            i <= quads@.len(),
            quads@.len() <= MAX_QUADS_PER_DRAW_CALL,
            wf_sub(sub@, quads@.take(i as int)),
            sum_counts(sub@) == i,
        decreases quads@.len() - i,
    {
        record_size(&mut sub, Ghost(quads@.take(i as int)), quads[i]);
        proof {
            assert(quads@.take(i as int).push(quads@[i as int]) =~= quads@.take(i + 1));
        }
        i = i + 1;
    }
    proof {
        assert(quads@.take(quads@.len() as int) =~= quads@);
    }
    sub
}

/// Appends the four corner vertices of one quad.
fn push_quad_vertices(out: &mut Vec<Vertex>, q: Quad)
    requires
        quad_fits(q),
    ensures
        final(out)@ == old(out)@ + spec_quad_vertices(q),
{
    let h: i64 = (q.size / 2) as i64;
    out.push(Vertex { x: q.x - h, y: q.y - h });
    out.push(Vertex { x: q.x + h, y: q.y - h });
    out.push(Vertex { x: q.x - h, y: q.y + h });
    out.push(Vertex { x: q.x + h, y: q.y + h });
    proof {
        assert(final(out)@ =~= old(out)@ + spec_quad_vertices(q));
    }
}

/// The batch accumulator.
pub struct Batch {
    /// The active batch, at most `MAX_QUADS_PER_DRAW_CALL` quads.
    pub quads: Vec<Quad>,
    /// Quads that arrived while the active batch was full; they become the
    /// next active batch when the current one is flushed.
    pub overflow: Vec<Quad>,
    /// Per distinct quad size, how many active quads have it.
    pub sub_batches: Vec<(u32, usize)>,
}

impl Batch {
    /// The batch invariant: the active batch respects the capacity, the
    /// sub-batch map is exact for it, the overflow queue is only used while
    /// the active batch is full, and every held quad's corners fit.
    pub open spec fn wf(self) -> bool {
        &&& self.quads@.len() <= MAX_QUADS_PER_DRAW_CALL
        &&& wf_sub(self.sub_batches@, self.quads@)
        &&& sum_counts(self.sub_batches@) == self.quads@.len()
        &&& self.overflow@.len() > 0 ==> self.quads@.len() == MAX_QUADS_PER_DRAW_CALL
        &&& forall|i: int| 0 <= i < self.quads@.len() ==> quad_fits(#[trigger] self.quads@[i])
        &&& forall|i: int|
            0 <= i < self.overflow@.len() ==> quad_fits(#[trigger] self.overflow@[i])
    }

    /// All quads the batch holds, in arrival order: the active batch, then
    /// the overflow queue.
    pub open spec fn contents(self) -> Seq<Quad> {
        self.quads@ + self.overflow@
    }

    pub fn new() -> (b: Batch)
        ensures
            b.wf(),
            b.contents() == Seq::<Quad>::empty(),
            b.quads@.len() == 0,
            b.overflow@.len() == 0,
            b.sub_batches@.len() == 0,
    {
        let b = Batch { quads: Vec::new(), overflow: Vec::new(), sub_batches: Vec::new() };
        proof {
            assert(b.quads@ + b.overflow@ =~= Seq::<Quad>::empty());
        }
        b
    }

    /// Accepts one draw request.  If the active batch is full the quad goes
    /// to the overflow queue instead — never dropped, never blocking — so
    /// the batch keeps every request in arrival order.
    pub fn add_quad(&mut self, q: Quad)
        requires
            old(self).wf(),
            quad_fits(q),
        ensures
            final(self).wf(),
            final(self).contents() == old(self).contents().push(q),
            old(self).quads@.len() < MAX_QUADS_PER_DRAW_CALL ==> final(self).quads@ == old(self).quads@.push(q) && final(self).overflow@ == old(self).overflow@,
            old(self).quads@.len() == MAX_QUADS_PER_DRAW_CALL ==> final(self).overflow@ == old(self).overflow@.push(q) && final(self).quads@ == old(self).quads@ && final(self).sub_batches@ == old(self).sub_batches@,
            old(self).quads@.len() < MAX_QUADS_PER_DRAW_CALL && has_size_entry(
                old(self).sub_batches@,
                q.size,
            ) ==> exists|i: int|
                0 <= i < old(self).sub_batches@.len() && (#[trigger] old(self).sub_batches@[i]).0
                    == q.size && final(self).sub_batches@ == old(self).sub_batches@.update(
                    i,
                    (q.size, (old(self).sub_batches@[i].1 + 1) as usize),
                ),
            old(self).quads@.len() < MAX_QUADS_PER_DRAW_CALL && !has_size_entry(
                old(self).sub_batches@,
                q.size,
            ) ==> final(self).sub_batches@ == old(self).sub_batches@.push((q.size, 1usize)),
    {
        if self.quads.len() < MAX_QUADS_PER_DRAW_CALL {
            record_size(&mut self.sub_batches, Ghost(self.quads@), q);
            self.quads.push(q);
            proof {
                assert(old(self).overflow@.len() == 0);
                assert(final(self).contents() =~= old(self).contents().push(q));
            }
        } else {
            self.overflow.push(q);
            proof {
                assert(final(self).contents() =~= old(self).contents().push(q));
            }
        }
    }

    /// Flushes the active batch: emits its vertex data (four vertices per
    /// quad, grouped by sub-batch) and one indexed draw call per sub-batch
    /// (six indices per quad), then the overflow queue becomes the next
    /// active batch.  An empty batch emits no draw call at all.
    pub fn flush(&mut self) -> (r: FlushOutput)
        requires
            old(self).wf(),
        ensures
            final(self).wf(),
            r.vertices@ == grouped_vertices(old(self).quads@, old(self).sub_batches@),
            r.vertices@.len() == 4 * old(self).quads@.len(),
            total_index_count(r.calls@) == 6 * old(self).quads@.len(),
            r.calls@.len() == old(self).sub_batches@.len(),
            old(self).quads@.len() == 0 ==> r.calls@.len() == 0,
            forall|i: int|
                0 <= i < r.calls@.len() ==> (#[trigger] r.calls@[i]).size == old(self).sub_batches@[i].0 && r.calls@[i].vertex_count == 4 * old(self).sub_batches@[i].1 && r.calls@[i].index_count == 6 * old(self).sub_batches@[i].1 && r.calls@[i].first_vertex == 4 * sum_counts(
                    old(self).sub_batches@.take(i),
                ),
            final(self).quads@ == old(self).overflow@.take(
                spec_min_usize(old(self).overflow@.len() as int, MAX_QUADS_PER_DRAW_CALL as int),
            ),
            final(self).overflow@ == old(self).overflow@.skip(
                spec_min_usize(old(self).overflow@.len() as int, MAX_QUADS_PER_DRAW_CALL as int),
            ),
            final(self).contents() == old(self).overflow@,
    {
        let mut vertices: Vec<Vertex> = Vec::new();
        let mut calls: Vec<DrawCall> = Vec::new();
        let n = self.sub_batches.len();
        let mut i: usize = 0;
        while i < n
            invariant
                self == old(self),
                old(self).wf(),
                n == self.sub_batches@.len(),
                i <= n,
                vertices@ == grouped_vertices(self.quads@, self.sub_batches@.take(i as int)),
                vertices@.len() == 4 * sum_counts(self.sub_batches@.take(i as int)),
                calls@.len() == i,
                forall|j: int|
                    0 <= j < i ==> (#[trigger] calls@[j]).size == self.sub_batches@[j].0
                        && calls@[j].vertex_count == 4 * self.sub_batches@[j].1
                        && calls@[j].index_count == 6 * self.sub_batches@[j].1
                        && calls@[j].first_vertex == 4 * sum_counts(self.sub_batches@.take(j)),
                total_index_count(calls@) == 6 * sum_counts(self.sub_batches@.take(i as int)),
            decreases n - i,
        {
            let entry = self.sub_batches[i];
            proof {
                lemma_count_size_le_len(self.quads@, entry.0);
            }
            let first_vertex = vertices.len();
            let mut j: usize = 0;
            let ghost group_start = vertices@;
            while j < self.quads.len()
                invariant
                    self == old(self),
                    old(self).wf(),
                    j <= self.quads@.len(),
                    entry == self.sub_batches@[i as int],
                    0 <= i < self.sub_batches@.len(),
                    vertices@ == group_start + flat_vertices(
                        quads_of_size(self.quads@.take(j as int), entry.0),
                    ),
                decreases self.quads@.len() - j,
            {
                let q = self.quads[j];
                proof {
                    assert(self.quads@.take(j as int).push(q) =~= self.quads@.take(j + 1));
                    lemma_quads_of_size_push(self.quads@.take(j as int), q, entry.0);
                    if q.size == entry.0 {
                        lemma_flat_vertices_push(
                            quads_of_size(self.quads@.take(j as int), entry.0),
                            q,
                        );
                    }
                }
                if q.size == entry.0 {
                    push_quad_vertices(&mut vertices, q);
                }
                j = j + 1;
            }
            proof {
                assert(self.quads@.take(self.quads@.len() as int) =~= self.quads@);
                lemma_group_len(self.quads@, entry.0);
                lemma_flat_vertices_len(quads_of_size(self.quads@, entry.0));
                assert(self.sub_batches@.take(i + 1).drop_last() =~= self.sub_batches@.take(
                    i as int,
                ));
                lemma_count_size_le_len(self.quads@, entry.0);
            }
            let ghost prev_calls = calls@;
            calls.push(
                DrawCall {
                    first_vertex,
                    vertex_count: 4 * entry.1,
                    index_count: 6 * entry.1,
                    size: entry.0,
                },
            );
            proof {
                assert(calls@.drop_last() =~= prev_calls);
            }
            i = i + 1;
        }
        proof {
            assert(self.sub_batches@.take(n as int) =~= self.sub_batches@);
            if self.quads@.len() == 0 {
                if self.sub_batches@.len() > 0 {
                    assert(self.sub_batches@[0].1 >= 1);
                    lemma_count_size_le_len(self.quads@, self.sub_batches@[0].0);
                }
            }
        }
        let keep = if self.overflow.len() < MAX_QUADS_PER_DRAW_CALL {
            self.overflow.len()
        } else {
            MAX_QUADS_PER_DRAW_CALL
        };
        let mut next_active: Vec<Quad> = Vec::new();
        let mut k: usize = 0;
        while k < keep
            invariant
                self == old(self),
                keep <= self.overflow@.len(),
                k <= keep,
                next_active@ == self.overflow@.take(k as int),
            decreases keep - k,
        {
            next_active.push(self.overflow[k]);
            proof {
                assert(self.overflow@.take(k as int).push(self.overflow@[k as int])
                    =~= self.overflow@.take(k + 1));
            }
            k = k + 1;
        }
        let mut rest: Vec<Quad> = Vec::new();
        let mut m: usize = keep;
        while m < self.overflow.len()
            invariant
                self == old(self),
                keep <= m <= self.overflow@.len(),
                rest@ == self.overflow@.subrange(keep as int, m as int),
            decreases self.overflow@.len() - m,
        {
            rest.push(self.overflow[m]);
            proof {
                assert(self.overflow@.subrange(keep as int, m as int).push(
                    self.overflow@[m as int],
                ) =~= self.overflow@.subrange(keep as int, m + 1));
            }
            m = m + 1;
        }
        let new_sub = compute_sub_batches(&next_active);
        let ghost old_overflow = self.overflow@;
        self.quads = next_active;
        self.overflow = rest;
        self.sub_batches = new_sub;
        proof {
            let min = spec_min_usize(old_overflow.len() as int, MAX_QUADS_PER_DRAW_CALL as int);
            assert(final(self).quads@ =~= old_overflow.take(min));
            assert(final(self).overflow@ =~= old_overflow.skip(min));
            assert(final(self).contents() =~= old_overflow);
        }
        FlushOutput { vertices, calls }
    }
}

/// The smaller of two values.
pub open spec fn spec_min_usize(a: int, b: int) -> int {
    if a < b {
        a
    } else {
        b
    }
}

/// The shared index buffer's contents for `n` quads: quad `i` contributes
/// the pattern `{0, 1, 3, 0, 3, 2}` offset by `4·i`, six indices per quad.
pub open spec fn spec_index_pattern(n: int) -> Seq<u32>
    decreases n,
{
    if n <= 0 {
        Seq::<u32>::empty()
    } else {
        spec_index_pattern(n - 1) + seq![
            (4 * (n - 1) + 0) as u32,
            (4 * (n - 1) + 1) as u32,
            (4 * (n - 1) + 3) as u32,
            (4 * (n - 1) + 0) as u32,
            (4 * (n - 1) + 3) as u32,
            (4 * (n - 1) + 2) as u32,
        ]
    }
}

/// The pattern is six indices per quad.
pub proof fn lemma_index_pattern_len(n: int)
    requires
        n >= 0,
    ensures
        spec_index_pattern(n).len() == 6 * n,
    decreases n,
{
    if n > 0 {
        lemma_index_pattern_len(n - 1);
    }
}

/// Entry `6·qi + k` of the pattern is `4·qi` plus the `k`-th offset of
/// `{0, 1, 3, 0, 3, 2}`.
pub proof fn lemma_index_pattern_entry(n: int, qi: int, k: int)
    requires
        0 <= qi < n,
        0 <= k < 6,
        n <= MAX_QUADS_PER_DRAW_CALL,
    ensures
        spec_index_pattern(n).len() == 6 * n,
        spec_index_pattern(n)[6 * qi + k] == 4 * qi + index_pattern_offset(k),
    decreases n,
{
    lemma_index_pattern_len(n);
    lemma_index_pattern_len(n - 1);
    if qi < n - 1 {
        lemma_index_pattern_entry(n - 1, qi, k);
    }
}

/// Builds the shared index buffer for `n` quads.
pub fn build_quad_indices(n: usize) -> (r: Vec<u32>)
    requires
        n <= MAX_QUADS_PER_DRAW_CALL,
    ensures
        r@ == spec_index_pattern(n as int),
        r@.len() == 6 * n,
{
    let mut indices: Vec<u32> = Vec::new();
    let mut i: usize = 0;
    while i < n
        invariant
            i <= n,
            n <= MAX_QUADS_PER_DRAW_CALL,
            indices@ == spec_index_pattern(i as int),
            indices@.len() == 6 * i,
        decreases n - i,
    {
        let ghost prev = indices@;
        let c = (i as u32) * 4;
        indices.push(c);
        indices.push(c + 1);
        indices.push(c + 3);
        indices.push(c);
        indices.push(c + 3);
        indices.push(c + 2);
        proof {
            assert(indices@ =~= spec_index_pattern(i + 1));
        }
        i = i + 1;
    }
    indices
}

} // verus!
